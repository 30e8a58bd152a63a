use vstd::prelude::*;

verus! {

/// The state of a list on screen: the highlighted row, if any, and the first
/// row shown (which the drawing code moves to keep the highlighted row in view).
#[derive(Debug, Clone, Copy, PartialEq, Eq, Structural)]
pub struct ListState {
    pub offset: usize,
    pub selected: Option<usize>,
}

impl Default for ListState {
    /// Nothing highlighted, shown from the first row.
    fn default() -> (s: Self)
        ensures
            s.offset == 0,
            s.selected is None,
    {
        ListState { offset: 0, selected: None }
    }
}

impl ListState {
    /// The highlighted row.
    pub fn selected(&self) -> (r: Option<usize>)
        ensures
            r == self.selected,
    {
        self.selected
    }

    /// Highlights `index`; highlighting nothing also scrolls back to the first row.
    pub fn select(&mut self, index: Option<usize>)
        ensures
            final(self).selected == index,
            final(self).offset == (if index is None { 0 } else { old(self).offset }),
    {
        self.selected = index;
        if index.is_none() {
            self.offset = 0;
        }
    }
}

/// `st` with `sel` highlighted, as `ListState::select` leaves it.
pub open spec fn selecting(st: ListState, sel: Option<usize>) -> ListState {
    ListState { offset: if sel is None { 0 } else { st.offset }, selected: sel }
}

/// The row after `i` in a list of `len` rows, going round from the last row to the first.
pub open spec fn wrap_next(i: int, len: int) -> int {
    if i >= len - 1 { 0 } else { i + 1 }
}

/// The row before `i` in a list of `len` rows, going round from the first row to the last.
pub open spec fn wrap_previous(i: int, len: int) -> int {
    if i == 0 { len - 1 } else { i - 1 }
}

/// The row after `i`, going round.
pub fn next_row(i: usize, len: usize) -> (r: usize)
    requires
        len > 0,
    ensures
        r == wrap_next(i as int, len as int),
{
    if i >= len - 1 { 0 } else { i + 1 }
}

/// The row before `i`, going round.
pub fn previous_row(i: usize, len: usize) -> (r: usize)
    requires
        len > 0,
    ensures
        r == wrap_previous(i as int, len as int),
{
    if i == 0 { len - 1 } else { i - 1 }
}

/// Moving down a non-empty list keeps the highlight on a row of the list, and
/// moving up undoes it: from any row `i`, one step down then one step up comes
/// back to `i`, and one step up then one step down too.
pub proof fn lemma_wrap_round_trip(i: int, len: int)
    requires
        0 <= i < len,
    ensures
        0 <= wrap_next(i, len) < len,
        0 <= wrap_previous(i, len) < len,
        wrap_previous(wrap_next(i, len), len) == i,
        wrap_next(wrap_previous(i, len), len) == i,
{
}

/// Moving down `len` times through a list of `len` rows comes back to the starting row.
pub proof fn lemma_wrap_full_cycle(i: int, len: int, k: nat)
    requires
        0 <= i < len,
        k <= len,
    ensures
        0 <= wrap_steps(i, len, k) < len,
        wrap_steps(i, len, k) == (i + k) % len,
        k == len ==> wrap_steps(i, len, k) == i,
    decreases k,
{
    if k == 0 {
        assert(i % len == i) by (nonlinear_arith)
            requires 0 <= i < len;
    } else {
        lemma_wrap_full_cycle(i, len, (k - 1) as nat);
        let j = wrap_steps(i, len, (k - 1) as nat);
        assert(j == (i + k - 1) % len);
        if j >= len - 1 {
            assert((i + k) % len == 0) by (nonlinear_arith)
                requires (i + k - 1) % len == len - 1, len > 0;
        } else {
            assert((i + k) % len == j + 1) by (nonlinear_arith)
                requires (i + k - 1) % len == j, j + 1 < len, len > 0, 0 <= j;
        }
    }
    if k == len {
        assert((i + len) % len == i) by (nonlinear_arith)
            requires 0 <= i < len;
    }
}

/// The row reached from `i` after `k` steps down, going round.
pub open spec fn wrap_steps(i: int, len: int, k: nat) -> int
    decreases k,
{
    if k == 0 { i } else { wrap_next(wrap_steps(i, len, (k - 1) as nat), len) }
}

} // verus!
