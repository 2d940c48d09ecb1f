use std::time::SystemTime;
use vstd::prelude::*;

verus! {

/// `std::time::SystemTime`, carried as an opaque stamp.
#[verifier::external_type_specification]
#[verifier::external_body]
pub struct ExSystemTime(std::time::SystemTime);

/// Relies on `SystemTime::now`: the wall clock; nothing is known of it.
pub assume_specification[ std::time::SystemTime::now ]() -> std::time::SystemTime;

/// A transcript entry.
pub struct ChatMessage {
    pub timestamp: SystemTime,
    pub is_response: bool,
    pub message: String,
    pub is_complete: bool,
}

/// What a transcript entry says, without its timestamp.
pub struct EntryView {
    pub is_response: bool,
    pub text: Seq<char>,
    pub is_complete: bool,
}

impl View for ChatMessage {
    type V = EntryView;

    open spec fn view(&self) -> EntryView {
        EntryView { is_response: self.is_response, text: self.message@, is_complete: self.is_complete }
    }
}

impl ChatMessage {
    /// A fresh, still open entry stamped with the current time.
    pub fn new(response: bool, message: String) -> (m: Self)
        ensures
            m@ == (EntryView { is_response: response, text: message@, is_complete: false }),
    {
        Self { timestamp: SystemTime::now(), is_response: response, message, is_complete: false }
    }
}

/// The transcript, oldest entry first.
pub struct ChatState {
    pub chat_messages: Vec<ChatMessage>,
}

impl View for ChatState {
    type V = Seq<EntryView>;

    open spec fn view(&self) -> Seq<EntryView> {
        self.chat_messages@.map_values(|m: ChatMessage| m@)
    }
}

/// The transcript after one answer fragment `text` arrived, `more_follows`
/// telling whether the answer goes on. An empty fragment changes nothing.
/// Otherwise a new response entry is opened when the transcript is empty or
/// its last entry is complete, and else the fragment is appended to the last
/// entry; either way that entry is then complete exactly when nothing follows.
pub open spec fn merge_fragment(log: Seq<EntryView>, text: Seq<char>, more_follows: bool) -> Seq<EntryView> {
    if text.len() == 0 {
        log
    } else if log.len() == 0 || log.last().is_complete {
        log.push(EntryView { is_response: true, text, is_complete: !more_follows })
    } else {
        log.update(
            log.len() - 1,
            EntryView {
                is_response: log.last().is_response,
                text: log.last().text + text,
                is_complete: !more_follows,
            },
        )
    }
}

/// Every entry of `pre` keeps its timestamp in `post`.
pub open spec fn stamps_kept(pre: Seq<ChatMessage>, post: Seq<ChatMessage>) -> bool {
    &&& pre.len() <= post.len()
    &&& forall|i: int| 0 <= i < pre.len() ==> #[trigger] post[i].timestamp == pre[i].timestamp
}

impl Default for ChatState {
    fn default() -> (s: Self)
        ensures
            s@ == Seq::<EntryView>::empty(),
    {
        let s = Self { chat_messages: Vec::new() };
        assert(s@ =~= Seq::<EntryView>::empty());
        s
    }
}

impl ChatState {
    /// Folds one answer fragment into the transcript.
    pub fn merge_answer(&mut self, text: String, more_follows: bool)
        ensures
            final(self)@ == merge_fragment(old(self)@, text@, more_follows),
            stamps_kept(old(self).chat_messages@, final(self).chat_messages@),
    {
        if text.as_str().is_empty() {
            return;
        }
        let n = self.chat_messages.len();
        let start_new = n == 0 || self.chat_messages[n - 1].is_complete;
        if start_new {
            let mut m = ChatMessage::new(true, text);
            m.is_complete = !more_follows;
            self.chat_messages.push(m);
            assert(self@ =~= merge_fragment(old(self)@, text@, more_follows));
        } else {
            self.chat_messages[n - 1].message.append(text.as_str());
            self.chat_messages[n - 1].is_complete = !more_follows;
            assert(self@ =~= merge_fragment(old(self)@, text@, more_follows));
        }
    }
}

/// The fragments `texts` joined end to end.
pub open spec fn joined(texts: Seq<Seq<char>>) -> Seq<char>
    decreases texts.len(),
{
    if texts.len() == 0 {
        Seq::empty()
    } else {
        texts[0] + joined(texts.drop_first())
    }
}

/// The transcript after the fragments `texts` of one answer arrived in
/// order: every fragment but the last says that more follows.
pub open spec fn merge_stream(log: Seq<EntryView>, texts: Seq<Seq<char>>) -> Seq<EntryView>
    decreases texts.len(),
{
    if texts.len() == 0 {
        log
    } else {
        merge_stream(merge_fragment(log, texts[0], texts.len() > 1), texts.drop_first())
    }
}

proof fn lemma_stream_into_open_entry(log: Seq<EntryView>, texts: Seq<Seq<char>>)
    requires
        log.len() > 0,
        !log.last().is_complete,
        texts.len() >= 1,
        forall|i: int| 0 <= i < texts.len() ==> #[trigger] texts[i].len() > 0,
    ensures
        merge_stream(log, texts) == log.update(
            log.len() - 1,
            EntryView { is_response: log.last().is_response, text: log.last().text + joined(texts), is_complete: true },
        ),
    decreases texts.len(),
{
    let rest = texts.drop_first();
    assert(texts[0].len() > 0);
    let log1 = merge_fragment(log, texts[0], texts.len() > 1);
    assert(merge_stream(log, texts) == merge_stream(log1, rest));
    if texts.len() == 1 {
        assert(merge_stream(log1, rest) == log1);
        assert(joined(rest) =~= Seq::<char>::empty());
        assert(texts[0] + joined(rest) =~= texts[0]);
        assert(log1 =~= log.update(
            log.len() - 1,
            EntryView { is_response: log.last().is_response, text: log.last().text + joined(texts), is_complete: true },
        ));
    } else {
        assert forall|i: int| 0 <= i < rest.len() implies #[trigger] rest[i].len() > 0 by {
            assert(rest[i] == texts[i + 1]);
        }
        lemma_stream_into_open_entry(log1, rest);
        assert(log1.last().text + joined(rest) =~= log.last().text + joined(texts));
        assert(merge_stream(log, texts) =~= log.update(
            log.len() - 1,
            EntryView { is_response: log.last().is_response, text: log.last().text + joined(texts), is_complete: true },
        ));
    }
}

/// A whole answer streamed onto a transcript that is empty or ends with a
/// complete entry adds exactly one entry: a complete response holding the
/// fragments joined in order. Earlier entries stay as they were.
pub proof fn lemma_stream_adds_one_entry(log: Seq<EntryView>, texts: Seq<Seq<char>>)
    requires
        log.len() == 0 || log.last().is_complete,
        texts.len() >= 1,
        forall|i: int| 0 <= i < texts.len() ==> #[trigger] texts[i].len() > 0,
    ensures
        merge_stream(log, texts) == log.push(EntryView { is_response: true, text: joined(texts), is_complete: true }),
{
    let rest = texts.drop_first();
    assert(texts[0].len() > 0);
    let log1 = merge_fragment(log, texts[0], texts.len() > 1);
    assert(merge_stream(log, texts) == merge_stream(log1, rest));
    if texts.len() == 1 {
        assert(merge_stream(log1, rest) == log1);
        assert(joined(rest) =~= Seq::<char>::empty());
        assert(texts[0] + joined(rest) =~= texts[0]);
    } else {
        assert forall|i: int| 0 <= i < rest.len() implies #[trigger] rest[i].len() > 0 by {
            assert(rest[i] == texts[i + 1]);
        }
        lemma_stream_into_open_entry(log1, rest);
        assert(merge_stream(log, texts) =~= log.push(
            EntryView { is_response: true, text: joined(texts), is_complete: true },
        ));
    }
}

} // verus!
