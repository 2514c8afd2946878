//! The filtered view: a display-ordered, search-filtered projection of the
//! credential store, plus the selected-row cursor.
//!
//! The row sequence is a pure derived cache: it is recomputed from the store
//! snapshot and the query on every keystroke, on every store mutation, and on
//! every rotation-window wrap, and the selection is clamped to its bounds
//! after every rebuild.

use vstd::prelude::*;

use crate::otp_element::{ElemView, OTPElement};
use crate::search::{
    contains_ci, contains_sub, lemma_empty_is_substring, lower_seq, to_lower, to_lower_chars,
};

verus! {

/// One display row: the store index of the record it came from, the fields
/// shown in the table, and the code text (or the placeholder when no code
/// could be derived).
#[derive(Debug, PartialEq)]
pub struct FilteredRow {
    pub index: usize,
    pub issuer: String,
    pub label: String,
    pub code: String,
}

/// Mathematical model of a display row.
pub struct RowView {
    pub index: int,
    pub issuer: Seq<char>,
    pub label: Seq<char>,
    pub code: Seq<char>,
}

impl View for FilteredRow {
    type V = RowView;

    open spec fn view(&self) -> RowView {
        RowView {
            index: self.index as int,
            issuer: self.issuer@,
            label: self.label@,
            code: self.code@,
        }
    }
}

impl FilteredRow {
    /// A field-for-field copy of the row.
    pub fn duplicate(&self) -> (r: FilteredRow)
        ensures
            r@ == self@,
    {
        FilteredRow {
            index: self.index,
            issuer: self.issuer.clone(),
            label: self.label.clone(),
            code: self.code.clone(),
        }
    }
}

/// A field-for-field copy of a row vector.
pub fn duplicate_rows(rows: &Vec<FilteredRow>) -> (r: Vec<FilteredRow>)
    ensures
        rows_view(r@) == rows_view(rows@),
{
    let mut r: Vec<FilteredRow> = Vec::new();
    let n = rows.len();
    let mut i: usize = 0;
    while i < n
        invariant
            n == rows@.len(),
            i <= n,
            r@.len() == i,
            forall|j: int| 0 <= j < i ==> r@[j]@ == rows@[j]@,
        decreases n - i,
    {
        r.push(rows[i].duplicate());
        i += 1;
    }
    proof {
        assert(rows_view(r@) =~= rows_view(rows@));
    }
    r
}

/// The code text shown for a record whose secret yielded no code.
pub open spec fn code_placeholder() -> Seq<char> {
    "Error"@
}

/// The code text shown for a record: its current code, or the placeholder.
pub open spec fn code_text(code: Option<Seq<char>>) -> Seq<char> {
    match code {
        Option::Some(c) => c,
        Option::None => code_placeholder(),
    }
}

/// A record matches a query when the query occurs case-insensitively in its
/// issuer or in its label.
pub open spec fn matches_elem(e: ElemView, q: Seq<char>) -> bool {
    contains_ci(q, e.issuer) || contains_ci(q, e.label)
}

/// The display row derived from the record `e` sitting at store index `i`.
pub open spec fn row_of(e: ElemView, i: int) -> RowView {
    RowView { index: i, issuer: e.issuer, label: e.label, code: code_text(e.code) }
}

/// The rows of the filtered view: the records matching `q`, in store order,
/// each paired with its store index.
pub open spec fn filter_rows(records: Seq<ElemView>, q: Seq<char>) -> Seq<RowView>
    decreases records.len(),
{
    if records.len() == 0 {
        Seq::<RowView>::empty()
    } else {
        let prefix = filter_rows(records.drop_last(), q);
        if matches_elem(records.last(), q) {
            prefix.push(row_of(records.last(), records.len() - 1))
        } else {
            prefix
        }
    }
}

/// The views of a row vector.
pub open spec fn rows_view(rows: Seq<FilteredRow>) -> Seq<RowView> {
    rows.map_values(|r: FilteredRow| r@)
}

/// The filtered view contains exactly the records whose issuer or label
/// case-insensitively contains the query, in store order: every row comes
/// from a matching record and repeats its fields, every matching record
/// contributes a row, and rows keep the store's order.
pub proof fn lemma_filter_rows_exact(records: Seq<ElemView>, q: Seq<char>)
    ensures
        forall|j: int|
            0 <= j < filter_rows(records, q).len() ==> {
                let row = #[trigger] filter_rows(records, q)[j];
                &&& 0 <= row.index < records.len()
                &&& matches_elem(records[row.index], q)
                &&& row == row_of(records[row.index], row.index)
            },
        forall|i: int|
            0 <= i < records.len() && #[trigger] matches_elem(records[i], q) ==> exists|j: int|
                0 <= j < filter_rows(records, q).len() && #[trigger] filter_rows(records, q)[j].index
                    == i,
        forall|j1: int, j2: int|
            0 <= j1 < j2 < filter_rows(records, q).len() ==> #[trigger] filter_rows(
                records,
                q,
            )[j1].index < #[trigger] filter_rows(records, q)[j2].index,
    decreases records.len(),
{
    if records.len() == 0 {
    } else {
        let sub = records.drop_last();
        let srows = filter_rows(sub, q);
        let rows = filter_rows(records, q);
        let n = records.len() as int;
        lemma_filter_rows_exact(sub, q);
        assert(forall|i: int| 0 <= i < n - 1 ==> records[i] == sub[i]);
        if matches_elem(records.last(), q) {
            assert(rows == srows.push(row_of(records[n - 1], n - 1)));
            assert forall|i: int|
                0 <= i < records.len() && #[trigger] matches_elem(records[i], q) implies exists|
                j: int,
            | 0 <= j < rows.len() && #[trigger] rows[j].index == i by {
                if i < n - 1 {
                    let j = choose|j: int| 0 <= j < srows.len() && #[trigger] srows[j].index == i;
                    assert(rows[j].index == i);
                } else {
                    assert(rows[rows.len() - 1].index == i);
                }
            }
        } else {
            assert(rows == srows);
            assert forall|i: int|
                0 <= i < records.len() && #[trigger] matches_elem(records[i], q) implies exists|
                j: int,
            | 0 <= j < rows.len() && #[trigger] rows[j].index == i by {
                if i < n - 1 {
                    let j = choose|j: int| 0 <= j < srows.len() && #[trigger] srows[j].index == i;
                    assert(rows[j].index == i);
                }
            }
        }
    }
}

/// With an empty query every record is shown, unfiltered, in store order.
pub proof fn lemma_filter_rows_empty_query(records: Seq<ElemView>, q: Seq<char>)
    requires
        q.len() == 0,
    ensures
        filter_rows(records, q).len() == records.len(),
        forall|i: int|
            0 <= i < records.len() ==> #[trigger] filter_rows(records, q)[i] == row_of(
                records[i],
                i,
            ),
    decreases records.len(),
{
    assert(lower_seq(q) =~= Seq::<char>::empty());
    if records.len() == 0 {
    } else {
        let sub = records.drop_last();
        lemma_filter_rows_empty_query(sub, q);
        lemma_empty_is_substring(lower_seq(records.last().issuer));
        assert(matches_elem(records.last(), q));
        assert(forall|i: int| 0 <= i < records.len() - 1 ==> records[i] == sub[i]);
    }
}

/// Rebuilds the display rows from a store snapshot and a query.
pub fn rebuild_rows(elements: &Vec<OTPElement>, query: &Vec<char>) -> (rows: Vec<FilteredRow>)
    ensures
        rows_view(rows@) == filter_rows(
            elements@.map_values(|e: OTPElement| e@),
            query@,
        ),
{
    let ghost evs = elements@.map_values(|e: OTPElement| e@);
    let lq = to_lower_chars(query);
    let mut rows: Vec<FilteredRow> = Vec::new();
    let n = elements.len();
    let mut i: usize = 0;
    while i < n
        invariant
            n == elements@.len(),
            evs == elements@.map_values(|e: OTPElement| e@),
            lq@ == lower_seq(query@),
            i <= n,
            rows_view(rows@) == filter_rows(evs.subrange(0, i as int), query@),
        decreases n - i,
    {
        let e = &elements[i];
        let li = to_lower(e.issuer.as_str());
        let ll = to_lower(e.label.as_str());
        let matched = contains_sub(&li, &lq) || contains_sub(&ll, &lq);
        proof {
            assert(evs[i as int] == e@);
            assert(matched == matches_elem(evs[i as int], query@));
            assert(evs.subrange(0, i + 1).drop_last() =~= evs.subrange(0, i as int));
            assert(evs.subrange(0, i + 1).last() == evs[i as int]);
        }
        if matched {
            let code = match &e.code {
                Option::Some(c) => c.clone(),
                Option::None => String::from_str("Error"),
            };
            let row = FilteredRow {
                index: i,
                issuer: e.issuer.clone(),
                label: e.label.clone(),
                code,
            };
            proof {
                assert(row@ == row_of(evs[i as int], i as int));
            }
            rows.push(row);
            proof {
                assert(rows_view(rows@) =~= filter_rows(evs.subrange(0, i + 1), query@));
            }
        } else {
            proof {
                assert(rows_view(rows@) =~= filter_rows(evs.subrange(0, i + 1), query@));
            }
        }
        i += 1;
    }
    proof {
        assert(evs.subrange(0, n as int) =~= evs);
    }
    rows
}

/// Clamping of the selection cursor to the bounds of a row sequence of
/// length `len`: an in-range selection is kept, an out-of-range one is
/// pulled back to the last row, and over an empty sequence (or with no
/// previous selection) there is no selection.
pub open spec fn clamp_selection(sel: Option<usize>, len: nat) -> Option<usize> {
    match sel {
        Option::None => Option::<usize>::None,
        Option::Some(i) => if len == 0 {
            Option::<usize>::None
        } else if i < len {
            Option::<usize>::Some(i)
        } else {
            Option::<usize>::Some((len - 1) as usize)
        },
    }
}

/// Well-formedness of the cursor: a selection always names a row.
pub open spec fn selection_in_bounds(sel: Option<usize>, len: nat) -> bool {
    sel matches Option::Some(i) ==> i < len
}

/// A clamped selection is always in bounds.
pub proof fn lemma_clamp_in_bounds(sel: Option<usize>, len: nat)
    ensures
        selection_in_bounds(clamp_selection(sel, len), len),
{
}

/// The cursor after a move to the next row: wraps at the end, starts at the
/// first row when nothing was selected, stays cleared over an empty table.
pub open spec fn next_selection(sel: Option<usize>, len: nat) -> Option<usize> {
    if len == 0 {
        Option::<usize>::None
    } else {
        Option::<usize>::Some(
            match sel {
                Option::None => 0,
                Option::Some(i) => if i + 1 < len {
                    (i + 1) as usize
                } else {
                    0
                },
            },
        )
    }
}

/// The cursor after a move to the previous row: wraps at the start, starts
/// at the last row when nothing was selected, stays cleared over an empty
/// table.
pub open spec fn prev_selection(sel: Option<usize>, len: nat) -> Option<usize> {
    if len == 0 {
        Option::<usize>::None
    } else {
        Option::<usize>::Some(
            match sel {
                Option::None => (len - 1) as usize,
                Option::Some(i) => if i == 0 {
                    (len - 1) as usize
                } else {
                    (i - 1) as usize
                },
            },
        )
    }
}

/// The filtered table: the derived display rows and the selected-row cursor.
#[derive(Debug)]
pub struct StatefulTable {
    pub items: Vec<FilteredRow>,
    pub selected: Option<usize>,
}

/// Mathematical model of the filtered table.
pub struct TableView {
    pub rows: Seq<RowView>,
    pub selected: Option<usize>,
}

impl View for StatefulTable {
    type V = TableView;

    open spec fn view(&self) -> TableView {
        TableView { rows: rows_view(self.items@), selected: self.selected }
    }
}

impl StatefulTable {
    /// Well-formedness: the cursor never points outside the rows.
    pub open spec fn wf(&self) -> bool {
        selection_in_bounds(self@.selected, self@.rows.len())
    }

    /// A table over the full, unfiltered store snapshot, with no selection.
    pub fn new(elements: &Vec<OTPElement>) -> (r: StatefulTable)
        ensures
            r@.rows == filter_rows(elements@.map_values(|e: OTPElement| e@), Seq::<char>::empty()),
            r@.selected is None,
            r.wf(),
    {
        let query: Vec<char> = Vec::new();
        let items = rebuild_rows(elements, &query);
        proof {
            assert(query@ =~= Seq::<char>::empty());
        }
        StatefulTable { items, selected: None }
    }

    /// Recomputes the rows from the given snapshot and query and clamps the
    /// cursor to the new bounds.
    pub fn rebuild(&mut self, elements: &Vec<OTPElement>, query: &Vec<char>)
        ensures
            final(self)@.rows == filter_rows(elements@.map_values(|e: OTPElement| e@), query@),
            final(self)@.selected == clamp_selection(old(self)@.selected, final(self)@.rows.len()),
            final(self).wf(),
    {
        self.items = rebuild_rows(elements, query);
        let len = self.items.len();
        self.selected = match self.selected {
            Option::None => None,
            Option::Some(i) => {
                if len == 0 {
                    None
                } else if i < len {
                    Some(i)
                } else {
                    Some(len - 1)
                }
            },
        };
    }

    /// Moves the cursor to the next row, wrapping at the end; over an empty
    /// table the cursor stays cleared.
    pub fn next(&mut self)
        ensures
            final(self)@.rows == old(self)@.rows,
            final(self)@.selected == next_selection(old(self)@.selected, old(self)@.rows.len()),
            final(self).wf(),
    {
        let len = self.items.len();
        if len == 0 {
            self.selected = None;
        } else {
            self.selected = match self.selected {
                Option::None => Some(0),
                Option::Some(i) => {
                    if i >= len - 1 {
                        Some(0)
                    } else {
                        Some(i + 1)
                    }
                },
            };
        }
    }

    /// Moves the cursor to the previous row, wrapping at the start; over an
    /// empty table the cursor stays cleared.
    pub fn previous(&mut self)
        ensures
            final(self)@.rows == old(self)@.rows,
            final(self)@.selected == prev_selection(old(self)@.selected, old(self)@.rows.len()),
            old(self).wf() ==> final(self).wf(),
    {
        let len = self.items.len();
        if len == 0 {
            self.selected = None;
        } else {
            self.selected = match self.selected {
                Option::None => Some(len - 1),
                Option::Some(i) => {
                    if i == 0 {
                        Some(len - 1)
                    } else {
                        Some(i - 1)
                    }
                },
            };
        }
    }
}

} // verus!
