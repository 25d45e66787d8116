//! Ordered lists with a single optional selection cursor.
//!
//! A `StatefulList` keeps its items in insertion order and moves one optional
//! cursor over them: `next` and `previous` wrap around, `unselect` clears the
//! cursor, and `replace_items` swaps the contents in wholesale, dropping a
//! cursor that would point past the end.

use vstd::prelude::*;

verus! {

/// Mathematical model of a `StatefulList`: the item sequence together with
/// the optional selection index.
#[verifier::ext_equal]
pub struct ListModel<T> {
    pub items: Seq<T>,
    pub selected: Option<int>,
}

impl<T> ListModel<T> {
    /// The selection, when present, indexes into the items.
    pub open spec fn wf(self) -> bool {
        match self.selected {
            Some(i) => 0 <= i < self.items.len(),
            None => true,
        }
    }
}

/// Where the cursor stands after `next`: an empty list is left untouched, an
/// unselected list selects index 0, and otherwise the cursor advances by one,
/// wrapping to 0 from the last index.
pub open spec fn next_sel(sel: Option<int>, len: int) -> Option<int> {
    if len <= 0 {
        sel
    } else {
        match sel {
            None => Some(0int),
            Some(i) => Some((i + 1) % len),
        }
    }
}

/// Where the cursor stands after `previous`: an empty list is left untouched,
/// an unselected list selects index 0 (mirroring `next`), and otherwise the
/// cursor steps back by one, wrapping to the last index from 0.
pub open spec fn previous_sel(sel: Option<int>, len: int) -> Option<int> {
    if len <= 0 {
        sel
    } else {
        match sel {
            None => Some(0int),
            Some(i) => Some(if i == 0 { len - 1 } else { i - 1 }),
        }
    }
}

/// Where the cursor stands after the items are replaced: it is kept while it
/// still indexes into the new contents and cleared otherwise.
pub open spec fn replaced_sel(sel: Option<int>, new_len: int) -> Option<int> {
    match sel {
        Some(i) => if 0 <= i < new_len {
            Some(i)
        } else {
            None
        },
        None => None,
    }
}

/// The whole-list transition for `next`.
pub open spec fn spec_next<T>(m: ListModel<T>) -> ListModel<T> {
    ListModel { items: m.items, selected: next_sel(m.selected, m.items.len() as int) }
}

/// The whole-list transition for `previous`.
pub open spec fn spec_previous<T>(m: ListModel<T>) -> ListModel<T> {
    ListModel { items: m.items, selected: previous_sel(m.selected, m.items.len() as int) }
}

/// The whole-list transition for `unselect`.
pub open spec fn spec_unselect<T>(m: ListModel<T>) -> ListModel<T> {
    ListModel { items: m.items, selected: None }
}

/// The whole-list transition for `replace_items`.
pub open spec fn spec_replace<T>(m: ListModel<T>, new_items: Seq<T>) -> ListModel<T> {
    ListModel { items: new_items, selected: replaced_sel(m.selected, new_items.len() as int) }
}

/// The cursor after `n` repeated applications of `next` on a list of length
/// `len`.
pub open spec fn nth_next_sel(sel: Option<int>, len: int, n: nat) -> Option<int>
    decreases n,
{
    if n == 0 {
        sel
    } else {
        next_sel(nth_next_sel(sel, len, (n - 1) as nat), len)
    }
}

/// The remainder of `x` by `len` written without `%`, for `x` within one
/// wraparound of the range.
proof fn lemma_mod_in_window(x: int, len: int)
    requires
        0 < len,
        0 <= x < 2 * len,
    ensures
        x % len == if x < len {
            x
        } else {
            x - len
        },
{
    if x < len {
        vstd::arithmetic::div_mod::lemma_small_mod(x as nat, len as nat);
    } else {
        vstd::arithmetic::div_mod::lemma_mod_sub_multiples_vanish(x, len);
        vstd::arithmetic::div_mod::lemma_small_mod((x - len) as nat, len as nat);
    }
}

/// Closed form of repeated `next` steps: starting from index `i`, `n` steps
/// land on `(i + n) % len`.
proof fn lemma_nth_next_closed_form(i: int, len: int, n: nat)
    requires
        0 <= i < len,
    ensures
        nth_next_sel(Some(i), len, n) == Some((i + n) % len),
    decreases n,
{
    if n == 0 {
        vstd::arithmetic::div_mod::lemma_small_mod(i as nat, len as nat);
    } else {
        lemma_nth_next_closed_form(i, len, (n - 1) as nat);
        vstd::arithmetic::div_mod::lemma_mod_bound(i + n - 1, len);
        vstd::arithmetic::div_mod::lemma_add_mod_noop_right(1, i + n - 1, len);
        assert(((i + n - 1) % len + 1) % len == (i + n) % len);
    }
}

/// Law: on a non-empty list, repeated `next` steps starting from any selected
/// index visit every index exactly once before the starting index comes back:
/// `len` steps return to the start, no two of the first `len` steps agree, and
/// every index is reached within the first `len` steps.
pub proof fn lemma_next_cycles_all_indices(i: int, len: int)
    requires
        0 <= i < len,
    ensures
        nth_next_sel(Some(i), len, len as nat) == Some(i),
        forall|j: nat, k: nat|
            j < k < len ==> nth_next_sel(Some(i), len, j) != nth_next_sel(Some(i), len, k),
{
    assert(nth_next_sel(Some(i), len, len as nat) == Some(i)) by {
        lemma_nth_next_closed_form(i, len, len as nat);
        vstd::arithmetic::div_mod::lemma_mod_add_multiples_vanish(i, len);
        vstd::arithmetic::div_mod::lemma_small_mod(i as nat, len as nat);
    }
    assert forall|j: nat, k: nat| j < k < len implies nth_next_sel(Some(i), len, j)
        != nth_next_sel(Some(i), len, k) by {
        lemma_nth_next_closed_form(i, len, j);
        lemma_nth_next_closed_form(i, len, k);
        lemma_mod_in_window(i + j, len);
        lemma_mod_in_window(i + k, len);
    }
}

/// Law: on a non-empty list, every index is reached within the first `len`
/// repeated `next` steps from any selected starting index.
pub proof fn lemma_next_reaches_every_index(i: int, len: int, t: int)
    requires
        0 <= i < len,
        0 <= t < len,
    ensures
        exists|n: nat| n < len && nth_next_sel(Some(i), len, n) == Some(t),
{
    let n: int = if t >= i {
        t - i
    } else {
        t - i + len
    };
    lemma_nth_next_closed_form(i, len, n as nat);
    lemma_mod_in_window(i + n, len);
    assert(n < len && nth_next_sel(Some(i), len, n as nat) == Some(t));
}

/// Law: on a non-empty unselected list the first `next` step selects index 0,
/// from where the cycle laws apply.
pub proof fn lemma_next_selects_first(len: int)
    requires
        len > 0,
    ensures
        nth_next_sel(None, len, 1) == Some(0int),
{
    assert(nth_next_sel(None, len, 0) == None::<int>);
    assert(nth_next_sel(None, len, 1) == next_sel(None, len));
}

/// Law: once a selection exists, `previous` undoes `next` and `next` undoes
/// `previous`.
pub proof fn lemma_previous_inverts_next<T>(m: ListModel<T>)
    requires
        m.wf(),
        m.selected is Some,
    ensures
        spec_previous(spec_next(m)) == m,
        spec_next(spec_previous(m)) == m,
{
    let len = m.items.len() as int;
    let i = match m.selected {
        Some(i) => i,
        None => 0int,
    };
    vstd::arithmetic::div_mod::lemma_mod_self_0(len);
    vstd::arithmetic::div_mod::lemma_small_mod(i as nat, len as nat);
    if i + 1 < len {
        vstd::arithmetic::div_mod::lemma_small_mod((i + 1) as nat, len as nat);
    }
    assert(spec_previous(spec_next(m)) =~= m);
    assert(spec_next(spec_previous(m)) =~= m);
}

/// Law: clearing the selection twice leaves the same list as clearing it
/// once.
pub proof fn lemma_unselect_idempotent<T>(m: ListModel<T>)
    ensures
        spec_unselect(spec_unselect(m)) == spec_unselect(m),
{
}

/// An ordered sequence of items with one optional selection cursor.
pub struct StatefulList<T> {
    items: Vec<T>,
    selected: Option<usize>,
}

impl<T> View for StatefulList<T> {
    type V = ListModel<T>;

    closed spec fn view(&self) -> ListModel<T> {
        ListModel {
            items: self.items@,
            selected: match self.selected {
                Some(i) => Some(i as int),
                None => None,
            },
        }
    }
}

impl<T> StatefulList<T> {
    #[verifier::type_invariant]
    spec fn inv(self) -> bool {
        self@.wf()
    }

    /// Builds a list over the given items with no selection.
    pub fn with_items(items: Vec<T>) -> (list: StatefulList<T>)
        ensures
            list@.items == items@,
            list@.selected is None,
    {
        StatefulList { items, selected: None }
    }

    /// Number of items.
    pub fn len(&self) -> (n: usize)
        ensures
            n == self@.items.len(),
    {
        self.items.len()
    }

    /// Read access to the items, in order.
    pub fn items(&self) -> (items: &Vec<T>)
        ensures
            items@ == self@.items,
    {
        &self.items
    }

    /// The selection cursor; when present it indexes into the items.
    pub fn selected(&self) -> (sel: Option<usize>)
        ensures
            match sel {
                Some(i) => self@.selected == Some(i as int) && i < self@.items.len(),
                None => self@.selected is None,
            },
    {
        proof {
            use_type_invariant(self);
        }
        self.selected
    }

    /// Advances the cursor, selecting index 0 on an unselected non-empty list
    /// and wrapping past the last index; an empty list is left untouched.
    pub fn next(&mut self)
        ensures
            final(self)@ == spec_next(old(self)@),
    {
        proof {
            use_type_invariant(&*self);
        }
        let len = self.items.len();
        if len > 0 {
            let i: usize = match self.selected {
                None => 0,
                Some(i) => if i >= len - 1 {
                    0
                } else {
                    i + 1
                },
            };
            proof {
                if let Some(j) = old(self)@.selected {
                    if j == len - 1 {
                        vstd::arithmetic::div_mod::lemma_mod_self_0(len as int);
                    } else {
                        vstd::arithmetic::div_mod::lemma_small_mod((j + 1) as nat, len as nat);
                    }
                }
            }
            self.selected = Some(i);
        }
    }

    /// Moves the cursor back, selecting index 0 on an unselected non-empty
    /// list and wrapping to the last index from 0; an empty list is left
    /// untouched.
    pub fn previous(&mut self)
        ensures
            final(self)@ == spec_previous(old(self)@),
    {
        proof {
            use_type_invariant(&*self);
        }
        let len = self.items.len();
        if len > 0 {
            let i: usize = match self.selected {
                None => 0,
                Some(i) => if i == 0 {
                    len - 1
                } else {
                    i - 1
                },
            };
            self.selected = Some(i);
        }
    }

    /// Clears the selection unconditionally.
    pub fn unselect(&mut self)
        ensures
            final(self)@ == spec_unselect(old(self)@),
    {
        proof {
            use_type_invariant(&*self);
        }
        self.selected = None;
    }

    /// Replaces the contents wholesale; a cursor that no longer indexes into
    /// the new contents is cleared, otherwise it is kept.
    pub fn replace_items(&mut self, new_items: Vec<T>)
        ensures
            final(self)@ == spec_replace(old(self)@, new_items@),
    {
        proof {
            use_type_invariant(&*self);
        }
        let new_len = new_items.len();
        if let Some(i) = self.selected {
            if i >= new_len {
                self.selected = None;
            }
        }
        self.items = new_items;
    }
}

} // verus!
