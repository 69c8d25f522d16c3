use vstd::prelude::*;

verus! {

/// A change of the reader's cursor, as it happened: a block forwarded to the executor,
/// or the cursor advanced from the rollup state.
pub enum CursorEvent {
    Forwarded(u64),
    Advanced(u64),
}

impl CursorEvent {
    pub open spec fn height(self) -> u64 {
        match self {
            CursorEvent::Forwarded(h) => h,
            CursorEvent::Advanced(h) => h,
        }
    }
}

pub open spec fn is_forward(t: Seq<CursorEvent>, i: int) -> bool {
    0 <= i < t.len() && t[i] is Forwarded
}

pub open spec fn is_advance(t: Seq<CursorEvent>, i: int) -> bool {
    0 <= i < t.len() && t[i] is Advanced
}

/// `i` and `j` are forwards, `i` before `j`, with no forward between them.
pub open spec fn next_forward(t: Seq<CursorEvent>, i: int, j: int) -> bool {
    &&& is_forward(t, i)
    &&& is_forward(t, j)
    &&& i < j
    &&& forall|k: int| i < k < j ==> !is_forward(t, k)
}

/// `j` is the first forward.
pub open spec fn first_forward(t: Seq<CursorEvent>, j: int) -> bool {
    &&& is_forward(t, j)
    &&& forall|k: int| 0 <= k < j ==> !is_forward(t, k)
}

/// No advance stands strictly between `i` and `j`.
pub open spec fn no_advance_between(t: Seq<CursorEvent>, i: int, j: int) -> bool {
    forall|k: int| i < k < j ==> !is_advance(t, k)
}

/// Some forward comes after `k`.
pub open spec fn forward_after(t: Seq<CursorEvent>, k: int) -> bool {
    exists|m: int| k < m && is_forward(t, m)
}

/// Each forwarded height is the previous one plus one (the first one: `first`), unless
/// an advance came between them; it is then at least every height advanced to in between.
pub open spec fn forwards_in_sequence(t: Seq<CursorEvent>, first: u64) -> bool {
    &&& forall|i: int, j: int|
        #[trigger] next_forward(t, i, j) && no_advance_between(t, i, j) ==> t[j].height()
            == t[i].height() + 1
    &&& forall|i: int, j: int, k: int|
        #[trigger] next_forward(t, i, j) && i < k < j && #[trigger] is_advance(t, k) ==> t[j].height()
            >= t[k].height()
    &&& forall|j: int|
        #[trigger] first_forward(t, j) && no_advance_between(t, -1, j) ==> t[j].height() == first
    &&& forall|j: int, k: int|
        #[trigger] first_forward(t, j) && 0 <= k < j && #[trigger] is_advance(t, k)
            ==> t[j].height() >= t[k].height()
}

/// Forwarded heights strictly increase.
pub open spec fn forwards_increasing(t: Seq<CursorEvent>) -> bool {
    forall|i: int, j: int|
        #[trigger] is_forward(t, i) && #[trigger] is_forward(t, j) && i < j ==> t[i].height()
            < t[j].height()
}

/// Every forwarded height lies within `[low, high]`, where `high` bounds only when set.
pub open spec fn forwards_within(t: Seq<CursorEvent>, low: u64, high: Option<u64>) -> bool {
    forall|i: int|
        #[trigger] is_forward(t, i) ==> low <= t[i].height() && (high matches Some(s) ==> t[i].height() <= s)
}

/// Every height in `s` lies within `[low, high]`, where `high` bounds only when set.
pub open spec fn heights_within(s: Seq<u64>, low: u64, high: Option<u64>) -> bool {
    forall|i: int|
        0 <= i < s.len() ==> low <= #[trigger] s[i] && (high matches Some(h) ==> s[i] <= h)
}

} // verus!
