use vstd::prelude::*;

verus! {

/// One entry of the side panel.
pub struct CheckBoxEntry {
    pub checked: bool,
    pub selected: bool,
    pub entry: String,
}

/// The side panel: its entries, and whether it is folded away.
pub struct AdditionalContextState {
    pub entries: Vec<CheckBoxEntry>,
    pub collapsed: bool,
}

/// `e` with its `selected` flag set to `sel`.
pub open spec fn with_selected(e: CheckBoxEntry, sel: bool) -> CheckBoxEntry {
    CheckBoxEntry { checked: e.checked, selected: sel, entry: e.entry }
}

/// `e` with its `checked` flag flipped.
pub open spec fn with_check_flipped(e: CheckBoxEntry) -> CheckBoxEntry {
    CheckBoxEntry { checked: !e.checked, selected: e.selected, entry: e.entry }
}

/// `i` is the first selected position of `s`.
pub open spec fn is_first_selected(s: Seq<CheckBoxEntry>, i: int) -> bool {
    &&& 0 <= i < s.len()
    &&& s[i].selected
    &&& forall|j: int| 0 <= j < i ==> !(#[trigger] s[j]).selected
}

/// The first selected position of `s`, if any entry is selected.
pub open spec fn first_selected(s: Seq<CheckBoxEntry>) -> Option<int> {
    if exists|i: int| is_first_selected(s, i) {
        Some(choose|i: int| is_first_selected(s, i))
    } else {
        None
    }
}

/// The position left of `i` among `n`, wrapping from the first to the last.
pub open spec fn left_of(i: int, n: int) -> int {
    if i == 0 { n - 1 } else { i - 1 }
}

/// The position right of `i` among `n`, wrapping from the last to the first.
pub open spec fn right_of(i: int, n: int) -> int {
    if i == n - 1 { 0 } else { i + 1 }
}

/// `s` with the selection taken off `from` and put on `to`.
pub open spec fn moved_selection(s: Seq<CheckBoxEntry>, from: int, to: int) -> Seq<CheckBoxEntry> {
    let cleared = s.update(from, with_selected(s[from], false));
    cleared.update(to, with_selected(cleared[to], true))
}

/// The entries after a move to the left: the first selected entry hands the
/// selection to its left neighbour, wrapping around; no selection, no change.
pub open spec fn selected_left(s: Seq<CheckBoxEntry>) -> Seq<CheckBoxEntry> {
    match first_selected(s) {
        Some(i) => moved_selection(s, i, left_of(i, s.len() as int)),
        None => s,
    }
}

/// The entries after a move to the right, as `selected_left` but rightwards.
pub open spec fn selected_right(s: Seq<CheckBoxEntry>) -> Seq<CheckBoxEntry> {
    match first_selected(s) {
        Some(i) => moved_selection(s, i, right_of(i, s.len() as int)),
        None => s,
    }
}

/// The entries after the first selected one had its check flipped.
pub open spec fn checked_selected(s: Seq<CheckBoxEntry>) -> Seq<CheckBoxEntry> {
    match first_selected(s) {
        Some(i) => s.update(i, with_check_flipped(s[i])),
        None => s,
    }
}

/// A position that is the first selected one is the one `first_selected`
/// names.
pub proof fn lemma_first_selected_is(s: Seq<CheckBoxEntry>, i: int)
    requires
        is_first_selected(s, i),
    ensures
        first_selected(s) == Some(i),
{
    let k = choose|k: int| is_first_selected(s, k);
    assert(is_first_selected(s, k));
    if k < i {
        assert(!s[k].selected);
    } else if i < k {
        assert(!s[i].selected);
    }
}

impl Default for AdditionalContextState {
    fn default() -> (s: Self)
        ensures
            s.entries@.len() == 0,
            s.collapsed,
    {
        Self { entries: Vec::new(), collapsed: true }
    }
}

impl AdditionalContextState {
    /// The first selected entry's position, if any.
    pub fn find_selected(&self) -> (r: Option<usize>)
        ensures
            r matches Some(i) ==> first_selected(self.entries@) == Some(i as int),
            r is None ==> first_selected(self.entries@) is None,
    {
        let n = self.entries.len();
        let mut i: usize = 0;
        while i < n
            invariant
                n == self.entries@.len(),
                i <= n,
                forall|j: int| 0 <= j < i ==> !(#[trigger] self.entries@[j]).selected,
            decreases n - i,
        {
            if self.entries[i].selected {
                proof {
                    lemma_first_selected_is(self.entries@, i as int);
                }
                return Some(i);
            }
            i = i + 1;
        }
        assert(!exists|k: int| is_first_selected(self.entries@, k));
        None
    }

    /// Folds the panel away, or opens it.
    pub fn toggle_collapsed(&mut self)
        ensures
            final(self).collapsed == !old(self).collapsed,
            final(self).entries == old(self).entries,
    {
        self.collapsed = !self.collapsed;
    }

    /// Flips the check of the first selected entry; without a selection
    /// nothing changes.
    pub fn check_selected(&mut self)
        ensures
            final(self).entries@ == checked_selected(old(self).entries@),
            final(self).collapsed == old(self).collapsed,
    {
        match self.find_selected() {
            Some(i) => {
                self.entries[i].checked = !self.entries[i].checked;
                assert(self.entries@ =~= checked_selected(old(self).entries@));
            },
            None => {},
        }
    }

    /// Moves the selection one entry to the left, from the first to the last.
    pub fn select_left(&mut self)
        ensures
            final(self).entries@ == selected_left(old(self).entries@),
            final(self).collapsed == old(self).collapsed,
    {
        match self.find_selected() {
            Some(i) => {
                let n = self.entries.len();
                self.entries[i].selected = false;
                let to: usize = if i == 0 { n - 1 } else { i - 1 };
                self.entries[to].selected = true;
                assert(self.entries@ =~= selected_left(old(self).entries@));
            },
            None => {},
        }
    }

    /// Moves the selection one entry to the right, from the last to the first.
    pub fn select_right(&mut self)
        ensures
            final(self).entries@ == selected_right(old(self).entries@),
            final(self).collapsed == old(self).collapsed,
    {
        match self.find_selected() {
            Some(i) => {
                let n = self.entries.len();
                self.entries[i].selected = false;
                let to: usize = if i == n - 1 { 0 } else { i + 1 };
                self.entries[to].selected = true;
                assert(self.entries@ =~= selected_right(old(self).entries@));
            },
            None => {},
        }
    }
}

/// Fills the side panel with its start-up entries: three files, the second
/// checked and the third selected.
pub fn get_additional_contexts(context_state: &mut AdditionalContextState)
    ensures
        final(context_state).collapsed == old(context_state).collapsed,
        final(context_state).entries@.len() == 3,
        final(context_state).entries@[0].entry@ == "test.rs"@,
        !final(context_state).entries@[0].checked,
        !final(context_state).entries@[0].selected,
        final(context_state).entries@[1].entry@ == "test1.rs"@,
        final(context_state).entries@[1].checked,
        !final(context_state).entries@[1].selected,
        final(context_state).entries@[2].entry@ == "test2.rs"@,
        !final(context_state).entries@[2].checked,
        final(context_state).entries@[2].selected,
{
    context_state.entries = vec![
        CheckBoxEntry { checked: false, selected: false, entry: "test.rs".to_owned() },
        CheckBoxEntry { checked: true, selected: false, entry: "test1.rs".to_owned() },
        CheckBoxEntry { checked: false, selected: true, entry: "test2.rs".to_owned() },
    ];
}

} // verus!
