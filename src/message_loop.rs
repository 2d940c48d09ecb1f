use crate::command::Command;
use std::collections::VecDeque;
use vstd::prelude::*;

verus! {

/// A first-in first-out queue of work items. Mutation needs exclusive
/// access, so a queue shared between threads sits behind a lock.
pub struct ThreadSafeDeque<T> {
    deque: VecDeque<T>,
}

impl<T> View for ThreadSafeDeque<T> {
    type V = Seq<T>;

    closed spec fn view(&self) -> Seq<T> {
        self.deque@
    }
}

/// The queue after taking its front item, and that item; an empty queue
/// gives nothing.
pub open spec fn pop_effect<T>(q: Seq<T>) -> (Option<T>, Seq<T>) {
    if q.len() == 0 {
        (None, q)
    } else {
        (Some(q[0]), q.drop_first())
    }
}

/// The items that `n` pops take from `q`, in the order they come out.
pub open spec fn popped<T>(q: Seq<T>, n: nat) -> Seq<T>
    decreases n,
{
    if n == 0 {
        Seq::empty()
    } else {
        match pop_effect(q).0 {
            Some(x) => seq![x] + popped(pop_effect(q).1, (n - 1) as nat),
            None => Seq::empty(),
        }
    }
}

impl<T> ThreadSafeDeque<T> {
    pub fn new() -> (q: Self)
        ensures
            q@ == Seq::<T>::empty(),
    {
        Self { deque: VecDeque::new() }
    }

    /// Adds `cmd` at the back.
    pub fn push(&mut self, cmd: T)
        ensures
            final(self)@ == old(self)@.push(cmd),
    {
        self.deque.push_back(cmd);
    }

    /// Takes the front item, if there is one.
    pub fn pop(&mut self) -> (r: Option<T>)
        ensures
            (r, final(self)@) == pop_effect(old(self)@),
    {
        self.deque.pop_front()
    }

    pub fn len(&self) -> (n: usize)
        ensures
            n == self@.len(),
    {
        self.deque.len()
    }
}

/// Whether the background loop runs. While it runs exactly one worker
/// exists; while it is stopped none does.
#[derive(Debug, Clone, Copy, PartialEq, Eq, Structural)]
pub enum LoopPhase {
    Stopped,
    Running,
}

/// The phase after a start, and whether a worker must be spawned for it.
pub open spec fn start_effect(p: LoopPhase) -> (LoopPhase, bool) {
    (LoopPhase::Running, p == LoopPhase::Stopped)
}

/// The phase after a stop, and whether a worker must be joined for it.
pub open spec fn stop_effect(p: LoopPhase) -> (LoopPhase, bool) {
    (LoopPhase::Stopped, p == LoopPhase::Running)
}

/// The queue after `cmd` was offered to a loop in phase `p`: taken at the
/// back while running, dropped while stopped.
pub open spec fn pump_effect(p: LoopPhase, q: Seq<Command>, cmd: Command) -> Seq<Command> {
    if p == LoopPhase::Running {
        q.push(cmd)
    } else {
        q
    }
}

/// The queue after each of `cmds` was offered in turn to a loop in phase `p`.
pub open spec fn pump_all(p: LoopPhase, q: Seq<Command>, cmds: Seq<Command>) -> Seq<Command>
    decreases cmds.len(),
{
    if cmds.len() == 0 {
        q
    } else {
        pump_all(p, pump_effect(p, q, cmds[0]), cmds.drop_first())
    }
}

impl LoopPhase {
    /// Starts the loop. Returns whether the caller must spawn the worker:
    /// only when none runs yet.
    pub fn start(&mut self) -> (spawn: bool)
        ensures
            (*final(self), spawn) == start_effect(*old(self)),
    {
        let spawn = *self == LoopPhase::Stopped;
        *self = LoopPhase::Running;
        spawn
    }

    /// Stops the loop. Returns whether the caller must join a worker, which
    /// it does before it goes on.
    pub fn stop(&mut self) -> (join: bool)
        ensures
            (*final(self), join) == stop_effect(*old(self)),
    {
        let join = *self == LoopPhase::Running;
        *self = LoopPhase::Stopped;
        join
    }

    pub fn is_running(&self) -> (r: bool)
        ensures
            r == (*self == LoopPhase::Running),
    {
        *self == LoopPhase::Running
    }
}

/// Offers `cmd` to the loop: queued while it runs, dropped while it is
/// stopped. Never waits.
pub fn pump_message_loop(phase: LoopPhase, queue: &mut ThreadSafeDeque<Command>, cmd: Command)
    ensures
        final(queue)@ == pump_effect(phase, old(queue)@, cmd),
{
    if phase.is_running() {
        queue.push(cmd);
    }
}

/// Commands offered while the loop is stopped are all dropped: the queue
/// stays as it was, so an empty queue stays empty.
pub proof fn lemma_stopped_loop_drops(q: Seq<Command>, cmds: Seq<Command>)
    ensures
        pump_all(LoopPhase::Stopped, q, cmds) == q,
    decreases cmds.len(),
{
    if cmds.len() > 0 {
        lemma_stopped_loop_drops(q, cmds.drop_first());
    }
}

/// Commands offered while the loop runs join the back of the queue in the
/// order they came.
pub proof fn lemma_running_loop_appends(q: Seq<Command>, cmds: Seq<Command>)
    ensures
        pump_all(LoopPhase::Running, q, cmds) == q + cmds,
    decreases cmds.len(),
{
    if cmds.len() > 0 {
        lemma_running_loop_appends(q.push(cmds[0]), cmds.drop_first());
        assert(q.push(cmds[0]) + cmds.drop_first() =~= q + cmds);
    } else {
        assert(q + cmds =~= q);
    }
}

/// Popping a queue as often as it has items gives them back in queue order.
pub proof fn lemma_pops_in_order<T>(q: Seq<T>)
    ensures
        popped(q, q.len()) == q,
    decreases q.len(),
{
    if q.len() > 0 {
        lemma_pops_in_order(q.drop_first());
        assert(seq![q[0]] + q.drop_first() =~= q);
    } else {
        assert(popped(q, 0) =~= q);
    }
}

/// The queue left after `n` pops of `q`.
pub open spec fn after_pops<T>(q: Seq<T>, n: nat) -> Seq<T>
    decreases n,
{
    if n == 0 {
        q
    } else {
        after_pops(pop_effect(q).1, (n - 1) as nat)
    }
}

/// The first `n` pops of a queue with at least `n` items return its first
/// `n` items in order and leave the rest; so once every item is out, the
/// next pop returns nothing.
pub proof fn lemma_pops_take_front<T>(q: Seq<T>, n: nat)
    requires
        n <= q.len(),
    ensures
        popped(q, n) == q.take(n as int),
        after_pops(q, n) == q.skip(n as int),
        n == q.len() ==> pop_effect(after_pops(q, n)).0 is None,
    decreases n,
{
    if n > 0 {
        lemma_pops_take_front(q.drop_first(), (n - 1) as nat);
        assert(seq![q[0]] + q.drop_first().take(n - 1) =~= q.take(n as int));
        assert(q.drop_first().skip(n - 1) =~= q.skip(n as int));
    } else {
        assert(q.take(0) =~= Seq::<T>::empty());
        assert(q.skip(0) =~= q);
    }
}

/// Commands offered to a running loop with an empty queue come out of it in
/// the order they were offered.
pub proof fn lemma_queue_is_fifo(cmds: Seq<Command>)
    ensures
        popped(pump_all(LoopPhase::Running, Seq::empty(), cmds), cmds.len()) == cmds,
{
    lemma_running_loop_appends(Seq::empty(), cmds);
    assert(Seq::<Command>::empty() + cmds =~= cmds);
    lemma_pops_in_order(cmds);
}

/// Starting twice in a row spawns one worker: from a stopped loop the first
/// start spawns it and the second does not; from a running one neither does.
pub proof fn lemma_start_is_idempotent(p: LoopPhase)
    ensures
        start_effect(start_effect(p).0).0 == LoopPhase::Running,
        !start_effect(start_effect(p).0).1,
        start_effect(p).1 == (p == LoopPhase::Stopped),
{
}

/// A stop asks to join exactly the worker that runs, and after it no worker
/// is left: a later start spawns a fresh one.
pub proof fn lemma_stop_leaves_no_worker(p: LoopPhase)
    ensures
        stop_effect(p).1 == (p == LoopPhase::Running),
        stop_effect(p).0 == LoopPhase::Stopped,
        start_effect(stop_effect(p).0).1,
{
}

} // verus!
