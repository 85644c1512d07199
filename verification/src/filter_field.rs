//! Reusable filterable dropdown field.
//!
//! Holds a list of items, a type-to-filter search string, and tracks both
//! the confirmed selection (shown when closed) and the cursor position
//! within the filtered results (shown when open).

use vstd::prelude::*;

use crate::text::contains_seq;
use crate::text::contains_str;
use crate::text::lower_of;
use crate::text::lowercase;
use crate::text::pop_char;
use crate::text::push_char;
use crate::text::str_eq;

verus! {

/// `item` matches the filter text `q`: empty text matches everything, and a
/// non-empty text must occur case-insensitively inside the item.
pub open spec fn matches(item: Seq<char>, q: Seq<char>) -> bool {
    q.len() == 0 || contains_seq(lower_of(item), lower_of(q))
}

/// The indices of the items of `items` that match `q`, in increasing order.
pub open spec fn match_indices(items: Seq<Seq<char>>, q: Seq<char>) -> Seq<usize>
    decreases items.len(),
{
    if items.len() == 0 {
        Seq::empty()
    } else if matches(items.last(), q) {
        match_indices(items.drop_last(), q).push((items.len() - 1) as usize)
    } else {
        match_indices(items.drop_last(), q)
    }
}

/// The cursor position that keeps a prior position as far as the new bounds
/// allow: clamped into the filtered subset, `0` when the subset is empty.
pub open spec fn clamp_cursor(cursor: usize, len: nat) -> usize {
    if len == 0 {
        0usize
    } else if cursor < len {
        cursor
    } else {
        (len - 1) as usize
    }
}

/// The position of the first occurrence of `x` within `s`, or `0` when `x`
/// does not occur.
pub open spec fn position_or_zero(s: Seq<usize>, x: usize) -> usize {
    match s.index_of_first(x) {
        Some(i) => i as usize,
        None => 0usize,
    }
}

/// The mathematical state of a `FilterField`.
pub struct FilterView {
    pub items: Seq<Seq<char>>,
    pub selected: usize,
    pub text: Seq<char>,
    pub filtered: Seq<usize>,
    pub cursor: usize,
}

impl FilterView {
    /// The derived subset and cursor are consistent with `items` and `text`,
    /// and the committed selection is a valid index (or `0` when empty).
    pub open spec fn wf(self) -> bool {
        &&& self.filtered == match_indices(self.items, self.text)
        &&& (if self.filtered.len() == 0 {
            self.cursor == 0
        } else {
            self.cursor < self.filtered.len()
        })
        &&& (if self.items.len() == 0 {
            self.selected == 0
        } else {
            self.selected < self.items.len()
        })
    }

    /// The committed value: the selected item, or none when there are no items.
    pub open spec fn selected_value(self) -> Option<Seq<char>> {
        if self.items.len() == 0 {
            None
        } else {
            Some(self.items[self.selected as int])
        }
    }

    /// Effect of replacing the candidate list: the selection resets to the
    /// first item and the subset is recomputed against the current text.
    pub open spec fn set_items(self, items: Seq<Seq<char>>) -> FilterView {
        let filtered = match_indices(items, self.text);
        FilterView {
            items,
            selected: 0usize,
            filtered,
            cursor: clamp_cursor(self.cursor, filtered.len()),
            ..self
        }
    }

    /// Effect of committing the value `v`: the first item equal to `v`
    /// becomes the selection; a silent no-op when `v` is not among the items.
    pub open spec fn select_value(self, v: Seq<char>) -> FilterView {
        match self.items.index_of_first(v) {
            Some(j) => FilterView { selected: j as usize, ..self },
            None => self,
        }
    }

    /// Effect of gaining focus: the text clears, the subset becomes the full
    /// list, and the cursor lands on the committed selection.
    pub open spec fn open(self) -> FilterView {
        let filtered = match_indices(self.items, Seq::empty());
        FilterView {
            text: Seq::empty(),
            filtered,
            cursor: position_or_zero(filtered, self.selected),
            ..self
        }
    }

    /// Effect of committing the highlighted candidate.
    pub open spec fn confirm(self) -> FilterView {
        if self.filtered.len() == 0 {
            self
        } else {
            FilterView { selected: self.filtered[self.cursor as int], ..self }
        }
    }

    /// Effect of appending one character to the filter text.
    pub open spec fn type_char(self, c: char) -> FilterView {
        let text = self.text.push(c);
        let filtered = match_indices(self.items, text);
        FilterView {
            text,
            filtered,
            cursor: clamp_cursor(self.cursor, filtered.len()),
            ..self
        }
    }

    /// Effect of removing the last character of the filter text.
    pub open spec fn backspace(self) -> FilterView {
        let text = if self.text.len() == 0 {
            self.text
        } else {
            self.text.drop_last()
        };
        let filtered = match_indices(self.items, text);
        FilterView {
            text,
            filtered,
            cursor: clamp_cursor(self.cursor, filtered.len()),
            ..self
        }
    }

    /// Effect of moving the cursor down one entry, saturating at the end.
    pub open spec fn next(self) -> FilterView {
        if self.filtered.len() == 0 {
            self
        } else if self.cursor + 1 < self.filtered.len() {
            FilterView { cursor: (self.cursor + 1) as usize, ..self }
        } else {
            FilterView { cursor: (self.filtered.len() - 1) as usize, ..self }
        }
    }

    /// Effect of moving the cursor up one entry, saturating at the start.
    pub open spec fn previous(self) -> FilterView {
        if self.cursor == 0 {
            self
        } else {
            FilterView { cursor: (self.cursor - 1) as usize, ..self }
        }
    }
}

/// Reusable incremental-filter selector over an ordered list of strings.
pub struct FilterField {
    items: Vec<String>,
    /// Index into `items` of the confirmed (committed) selection.
    selected_index: usize,
    /// Current search/filter text typed by the user.
    filter_text: String,
    /// Indices into `items` that match `filter_text`.
    filtered_indices: Vec<usize>,
    /// Cursor position within `filtered_indices`.
    cursor: usize,
}

impl View for FilterField {
    type V = FilterView;

    closed spec fn view(&self) -> FilterView {
        FilterView {
            items: self.items.deep_view(),
            selected: self.selected_index,
            text: self.filter_text@,
            filtered: self.filtered_indices@,
            cursor: self.cursor,
        }
    }
}

impl FilterField {
    pub open spec fn wf(&self) -> bool {
        self@.wf()
    }

    pub fn new() -> (r: FilterField)
        ensures
            r.wf(),
            r@.items =~= Seq::<Seq<char>>::empty(),
            r@.selected == 0,
            r@.text =~= Seq::<char>::empty(),
            r@.filtered =~= Seq::<usize>::empty(),
            r@.cursor == 0,
    {
        let r = FilterField {
            items: Vec::new(),
            selected_index: 0,
            filter_text: String::new(),
            filtered_indices: Vec::new(),
            cursor: 0,
        };
        proof {
            assert(r@.items =~= Seq::<Seq<char>>::empty());
        }
        r
    }

    /// Recompute `filtered_indices` from `items` and `filter_text`, keeping
    /// the cursor where the new bounds allow.
    fn refilter(&mut self)
        ensures
            final(self)@.items == old(self)@.items,
            final(self)@.selected == old(self)@.selected,
            final(self)@.text == old(self)@.text,
            final(self)@.filtered == match_indices(old(self)@.items, old(self)@.text),
            final(self)@.cursor == clamp_cursor(
                old(self)@.cursor,
                match_indices(old(self)@.items, old(self)@.text).len(),
            ),
    {
        let query = lowercase(self.filter_text.as_str());
        let text_empty = self.filter_text.as_str().is_empty();
        let mut flt: Vec<usize> = Vec::new();
        let n = self.items.len();
        let mut i: usize = 0;
        while i < n
            invariant
                n == self.items.len(),
                i <= n,
                query@ == lower_of(self.filter_text@),
                text_empty == (self.filter_text@.len() == 0),
                flt@ == match_indices(self.items.deep_view().take(i as int), self.filter_text@),
            decreases n - i,
        {
            let lowered = lowercase(self.items[i].as_str());
            let keep = if text_empty {
                true
            } else {
                contains_str(lowered.as_str(), query.as_str())
            };
            proof {
                let pre = self.items.deep_view().take(i as int);
                let cur = self.items.deep_view().take(i as int + 1);
                assert(cur.drop_last() =~= pre);
                assert(cur.last() == self.items.deep_view()[i as int]);
                assert(keep == matches(self.items.deep_view()[i as int], self.filter_text@));
            }
            if keep {
                flt.push(i);
            }
            i += 1;
        }
        proof {
            assert(self.items.deep_view().take(n as int) =~= self.items.deep_view());
        }
        self.filtered_indices = flt;
        if self.filtered_indices.len() == 0 {
            self.cursor = 0;
        } else if self.cursor >= self.filtered_indices.len() {
            self.cursor = self.filtered_indices.len() - 1;
        }
    }

    /// Replace the candidate list; the committed selection resets to the
    /// first item and the subset is recomputed against the current text.
    pub fn set_items(&mut self, items: Vec<String>)
        ensures
            final(self)@ == old(self)@.set_items(items.deep_view()),
            final(self).wf(),
    {
        self.items = items;
        self.selected_index = 0;
        self.refilter();
        proof {
            lemma_match_indices_in_range(self@.items, self@.text);
        }
    }

    /// Commit the first item equal to `value`, if present; silently keep the
    /// current selection otherwise.
    pub fn select_value(&mut self, value: &str)
        requires
            old(self).wf(),
        ensures
            final(self)@ == old(self)@.select_value(value@),
            final(self).wf(),
    {
        let ghost dv = self.items.deep_view();
        let n = self.items.len();
        let mut i: usize = 0;
        while i < n
            invariant
                old(self).wf(),
                n == self.items.len(),
                i <= n,
                dv == self.items.deep_view(),
                forall|k: int| 0 <= k < i ==> dv[k] != value@,
                *self == *old(self),
            decreases n - i,
        {
            if str_eq(self.items[i].as_str(), value) {
                proof {
                    dv.index_of_first_ensures(value@);
                    assert(dv.contains(value@)) by {
                        assert(dv[i as int] == value@);
                    }
                    let j = dv.index_of_first(value@).unwrap();
                    assert(j == i as int) by {
                        if j < i as int {
                            assert(dv[j] != value@);
                        }
                        if (i as int) < j {
                            assert(dv[i as int] != value@);
                        }
                    }
                }
                self.selected_index = i;
                return ;
            }
            i += 1;
        }
        proof {
            dv.index_of_first_ensures(value@);
            if dv.contains(value@) {
                let w = choose|w: int| 0 <= w < dv.len() && dv[w] == value@;
                assert(dv[w] != value@);
            }
        }
    }

    /// The confirmed/committed value shown in the filter bar.
    pub fn selected_value(&self) -> (r: Option<&str>)
        requires
            self.wf(),
        ensures
            match r {
                Some(v) => self@.selected_value() == Some(v@),
                None => self@.selected_value() is None,
            },
    {
        if self.items.len() == 0 {
            None
        } else {
            Some(self.items[self.selected_index].as_str())
        }
    }

    /// Called when the dropdown opens: reset the filter text and position the
    /// cursor on the committed selection.
    pub fn open(&mut self)
        requires
            old(self).wf(),
        ensures
            final(self)@ == old(self)@.open(),
            final(self).wf(),
    {
        self.filter_text = String::new();
        self.refilter();
        proof {
            lemma_match_indices_in_range(self@.items, self@.text);
        }
        self.cursor = position_of(&self.filtered_indices, self.selected_index);
        proof {
            self.filtered_indices@.index_of_first_ensures(self.selected_index);
        }
    }

    /// Commit the currently highlighted item as the confirmed selection;
    /// a no-op when the filtered subset is empty.
    pub fn confirm(&mut self)
        requires
            old(self).wf(),
        ensures
            final(self)@ == old(self)@.confirm(),
            final(self).wf(),
            final(self)@.filtered.len() > 0 ==> final(self)@.selected_value() == Some(
                final(self)@.items[final(self)@.filtered[final(self)@.cursor as int] as int],
            ),
    {
        proof {
            lemma_match_indices_in_range(self@.items, self@.text);
        }
        if self.filtered_indices.len() > 0 {
            self.selected_index = self.filtered_indices[self.cursor];
        }
    }

    /// Append one character to the filter text and recompute the subset.
    pub fn type_char(&mut self, c: char)
        ensures
            final(self)@ == old(self)@.type_char(c),
            old(self).wf() ==> final(self).wf(),
    {
        push_char(&mut self.filter_text, c);
        self.refilter();
    }

    /// Remove the last character of the filter text and recompute the subset.
    pub fn backspace(&mut self)
        ensures
            final(self)@ == old(self)@.backspace(),
            old(self).wf() ==> final(self).wf(),
    {
        pop_char(&mut self.filter_text);
        self.refilter();
    }

    /// Move the cursor down one entry, saturating at the end.
    pub fn next(&mut self)
        requires
            old(self).wf(),
        ensures
            final(self)@ == old(self)@.next(),
            final(self).wf(),
    {
        if self.filtered_indices.len() > 0 {
            if self.cursor + 1 < self.filtered_indices.len() {
                self.cursor = self.cursor + 1;
            } else {
                self.cursor = self.filtered_indices.len() - 1;
            }
        }
    }

    /// Move the cursor up one entry, saturating at the start.
    pub fn previous(&mut self)
        requires
            old(self).wf(),
        ensures
            final(self)@ == old(self)@.previous(),
            final(self).wf(),
    {
        if self.cursor > 0 {
            self.cursor = self.cursor - 1;
        }
    }

    pub fn filter_text(&self) -> (r: &str)
        ensures
            r@ == self@.text,
    {
        self.filter_text.as_str()
    }

    /// The matching items, in their original order.
    pub fn filtered_items(&self) -> (r: Vec<&str>)
        requires
            self.wf(),
        ensures
            r@.len() == self@.filtered.len(),
            forall|k: int| 0 <= k < r@.len() ==> r@[k]@ == self@.items[self@.filtered[k] as int],
    {
        proof {
            lemma_match_indices_in_range(self@.items, self@.text);
        }
        let mut r: Vec<&str> = Vec::new();
        let n = self.filtered_indices.len();
        let mut i: usize = 0;
        while i < n
            invariant
                self.wf(),
                n == self.filtered_indices.len(),
                i <= n,
                forall|k: int|
                    0 <= k < self@.filtered.len() ==> self@.filtered[k] < self@.items.len(),
                r@.len() == i,
                forall|k: int| 0 <= k < i ==> r@[k]@ == self@.items[self@.filtered[k] as int],
            decreases n - i,
        {
            let idx = self.filtered_indices[i];
            r.push(self.items[idx].as_str());
            i += 1;
        }
        r
    }

    pub fn cursor(&self) -> (r: usize)
        ensures
            r == self@.cursor,
    {
        self.cursor
    }
}

/// The position of the first occurrence of `x` in `v`, or `0` when absent.
fn position_of(v: &Vec<usize>, x: usize) -> (r: usize)
    ensures
        r == position_or_zero(v@, x),
        v@.contains(x) ==> r < v@.len() && v@[r as int] == x,
        !v@.contains(x) ==> r == 0,
{
    let n = v.len();
    let mut i: usize = 0;
    while i < n
        invariant
            n == v.len(),
            i <= n,
            forall|k: int| 0 <= k < i ==> v@[k] != x,
        decreases n - i,
    {
        if v[i] == x {
            proof {
                v@.index_of_first_ensures(x);
                assert(v@.contains(x)) by {
                    assert(v@[i as int] == x);
                }
                let j = v@.index_of_first(x).unwrap();
                assert(j == i as int) by {
                    if j < i as int {
                        assert(v@[j] != x);
                    }
                    if (i as int) < j {
                        assert(v@[i as int] != x);
                    }
                }
            }
            return i;
        }
        i += 1;
    }
    proof {
        v@.index_of_first_ensures(x);
        if v@.contains(x) {
            let w = choose|w: int| 0 <= w < v@.len() && v@[w] == x;
            assert(v@[w] != x);
        }
    }
    0
}

/// With empty filter text nothing is filtered out: the subset is the whole
/// list, in its original order.
pub proof fn lemma_empty_filter_keeps_all(items: Seq<Seq<char>>, q: Seq<char>)
    requires
        q.len() == 0,
    ensures
        match_indices(items, q).len() == items.len(),
        forall|k: int| 0 <= k < items.len() ==> match_indices(items, q)[k] == k as usize,
    decreases items.len(),
{
    if items.len() > 0 {
        lemma_empty_filter_keeps_all(items.drop_last(), q);
        let prev = match_indices(items.drop_last(), q);
        let cur = match_indices(items, q);
        assert(matches(items.last(), q));
        assert(cur == prev.push((items.len() - 1) as usize));
        assert(forall|k: int| 0 <= k < prev.len() ==> cur[k] == prev[k]);
    }
}

/// The filtered subset holds exactly the matching items: every index in it
/// points at a matching item, and every matching item's index is in it.
pub proof fn lemma_filtered_exactly_matching(items: Seq<Seq<char>>, q: Seq<char>)
    requires
        items.len() <= usize::MAX,
    ensures
        forall|k: int|
            0 <= k < match_indices(items, q).len() ==> matches(
                items[match_indices(items, q)[k] as int],
                q,
            ),
        forall|j: int|
            0 <= j < items.len() && matches(items[j], q) ==> match_indices(items, q).contains(
                j as usize,
            ),
    decreases items.len(),
{
    lemma_match_indices_in_range(items, q);
    if items.len() > 0 {
        lemma_filtered_exactly_matching(items.drop_last(), q);
        lemma_match_indices_in_range(items.drop_last(), q);
        let prev = match_indices(items.drop_last(), q);
        let cur = match_indices(items, q);
        assert(forall|j: int|
            0 <= j < items.len() - 1 ==> items.drop_last()[j] == items[j]);
        if matches(items.last(), q) {
            assert(cur == prev.push((items.len() - 1) as usize));
            assert(forall|k: int| 0 <= k < prev.len() ==> cur[k] == prev[k]);
            assert(cur[cur.len() - 1] == (items.len() - 1) as usize);
            assert(matches(items[(items.len() - 1) as usize as int], q));
        }
        assert forall|j: int| 0 <= j < items.len() && matches(items[j], q) implies cur.contains(
            j as usize,
        ) by {
            if j < items.len() - 1 {
                assert(matches(items.drop_last()[j], q));
                assert(prev.contains(j as usize));
                let w = choose|w: int| 0 <= w < prev.len() && prev[w] == j as usize;
                assert(cur[w] == j as usize);
            } else {
                assert(matches(items.last(), q));
                assert(cur[cur.len() - 1] == j as usize);
            }
        }
    }
}

/// The cursor never leaves the filtered subset's bounds: it is `0` when the
/// subset is empty and a valid position otherwise. Every operation keeps
/// the field well-formed, so this holds after any sequence of them.
pub proof fn lemma_cursor_within_bounds(f: FilterView)
    requires
        f.wf(),
    ensures
        f.filtered.len() == 0 ==> f.cursor == 0,
        f.filtered.len() > 0 ==> f.cursor < f.filtered.len(),
{
}

/// Confirming commits the highlighted candidate: afterwards the committed
/// value is the item the cursor pointed at, and reopening, typing or moving
/// the cursor leaves that committed value untouched until the next confirm.
pub proof fn lemma_confirm_commits_highlight(f: FilterView, c: char)
    requires
        f.wf(),
        f.filtered.len() > 0,
    ensures
        f.confirm().selected_value() == Some(f.items[f.filtered[f.cursor as int] as int]),
        f.confirm().open().selected_value() == f.confirm().selected_value(),
        f.confirm().type_char(c).selected_value() == f.confirm().selected_value(),
        f.confirm().backspace().selected_value() == f.confirm().selected_value(),
        f.confirm().next().selected_value() == f.confirm().selected_value(),
        f.confirm().previous().selected_value() == f.confirm().selected_value(),
{
    lemma_match_indices_in_range(f.items, f.text);
    assert(f.filtered[f.cursor as int] < f.items.len());
}

/// Every index in the filtered subset is a valid index into `items`, and
/// (for any list a real vector can hold) the subset is strictly increasing:
/// the original relative order is preserved.
pub proof fn lemma_match_indices_in_range(items: Seq<Seq<char>>, q: Seq<char>)
    ensures
        forall|k: int|
            0 <= k < match_indices(items, q).len() ==> match_indices(items, q)[k] < items.len(),
        items.len() <= usize::MAX ==> forall|k1: int, k2: int|
            0 <= k1 < k2 < match_indices(items, q).len() ==> match_indices(items, q)[k1]
                < match_indices(items, q)[k2],
    decreases items.len(),
{
    if items.len() > 0 {
        lemma_match_indices_in_range(items.drop_last(), q);
        let prev = match_indices(items.drop_last(), q);
        let cur = match_indices(items, q);
        assert(items.drop_last().len() == items.len() - 1);
        if matches(items.last(), q) {
            assert(cur == prev.push((items.len() - 1) as usize));
            assert(forall|k: int| 0 <= k < prev.len() ==> cur[k] == prev[k]);
            assert(cur[cur.len() - 1] == (items.len() - 1) as usize);
            if items.len() <= usize::MAX {
                assert forall|k1: int, k2: int| 0 <= k1 < k2 < cur.len() implies cur[k1]
                    < cur[k2] by {
                    if k2 < cur.len() - 1 {
                        assert(cur[k1] == prev[k1] && cur[k2] == prev[k2]);
                    } else {
                        assert(cur[k1] == prev[k1]);
                        assert(prev[k1] < items.drop_last().len());
                        assert(cur[k2] == items.len() - 1);
                    }
                }
            }
        }
    }
}

} // verus!
