//! The selection cursor: the position a pane has highlighted inside its
//! projection, and the two reconciliation rules that keep it valid after
//! the projection or the backing collection changes.

use vstd::prelude::*;

verus! {

/// What the in-place reconciliation rule promises.
///
/// `old_backing` is the backing index that was selected before the change,
/// `items` the new projection and `r` the new cursor position.  The cursor
/// follows the selected item through a re-filter or re-sort: if its backing
/// index is still shown, the new position is its first occurrence; if it
/// was excluded but the projection is non-empty, the cursor falls back to
/// position zero; an empty projection clears the cursor.
pub open spec fn reconciled(old_backing: Option<usize>, items: Seq<usize>, r: Option<
    usize,
>) -> bool {
    match r {
        Option::None => items.len() == 0,
        Option::Some(p) => {
            &&& (p as int) < items.len()
            &&& match old_backing {
                Option::Some(b) => {
                    if items.contains(b) {
                        items[p as int] == b && forall|k: int| 0 <= k < p ==> items[k] != b
                    } else {
                        p == 0
                    }
                },
                Option::None => p == 0,
            }
        },
    }
}

/// Reconcile the cursor after the projection changed in place (filter edit,
/// sort change, adjacent swap): follow the selected backing index if it is
/// still shown, else fall back to the first position, else clear.
pub fn reconcile_after_projection_change(old_backing: Option<usize>, items: &Vec<usize>) -> (r:
    Option<usize>)
    ensures
        reconciled(old_backing, items@, r),
{
    match old_backing {
        Option::Some(b) => {
            let mut p: usize = 0;
            while p < items.len()
                invariant
                    old_backing == Option::Some(b),
                    p <= items@.len(),
                    forall|k: int| 0 <= k < p ==> items@[k] != b,
                decreases items@.len() - p,
            {
                if items[p] == b {
                    proof {
                        assert(items@[p as int] == b);
                        assert(items@.contains(b));
                    }
                    return Option::Some(p);
                }
                p += 1;
            }
            proof {
                assert(!items@.contains(b));
            }
            if items.len() > 0 {
                Option::Some(0)
            } else {
                Option::None
            }
        },
        Option::None => {
            if items.len() > 0 {
                Option::Some(0)
            } else {
                Option::None
            }
        },
    }
}

/// What the reload reconciliation rule promises.
///
/// A reload replaces the backing collection, so backing indices lose their
/// identity; the rule keeps the prior cursor *position* when it is still in
/// range of the new projection, else falls back to position zero, else
/// clears the cursor.
pub open spec fn reload_reconciled(old_pos: Option<usize>, new_len: int, r: Option<
    usize,
>) -> bool {
    match old_pos {
        Option::Some(p) if (p as int) < new_len => r == Option::Some(p),
        _ => if new_len > 0 {
            r == Option::Some(0usize)
        } else {
            r == Option::<usize>::None
        },
    }
}

/// Reconcile the cursor after a full reload of the backing collection.
pub fn reconcile_after_reload(old_pos: Option<usize>, new_len: usize) -> (r: Option<usize>)
    ensures
        reload_reconciled(old_pos, new_len as int, r),
{
    match old_pos {
        Option::Some(p) => {
            if p < new_len {
                Option::Some(p)
            } else if new_len > 0 {
                Option::Some(0)
            } else {
                Option::None
            }
        },
        Option::None => {
            if new_len > 0 {
                Option::Some(0)
            } else {
                Option::None
            }
        },
    }
}

/// The cursor one step forward, clamped to the last position: no wrap, a
/// no-op on an empty projection, and a cleared cursor lands on the first
/// position.
pub open spec fn step_next_spec(pos: Option<usize>, len: int) -> Option<usize> {
    if len == 0 {
        Option::None
    } else {
        match pos {
            Option::Some(p) => if p + 1 < len {
                Option::Some((p + 1) as usize)
            } else {
                Option::Some((len - 1) as usize)
            },
            Option::None => Option::Some(0usize),
        }
    }
}

/// The cursor one step back, clamped to the first position: no wrap, a
/// no-op on an empty projection, and a cleared cursor lands on the first
/// position.
pub open spec fn step_prev_spec(pos: Option<usize>, len: int) -> Option<usize> {
    if len == 0 {
        Option::None
    } else {
        match pos {
            Option::Some(p) => if p >= len {
                Option::Some((len - 1) as usize)
            } else if p >= 1 {
                Option::Some((p - 1) as usize)
            } else {
                Option::Some(0usize)
            },
            Option::None => Option::Some(0usize),
        }
    }
}

/// Move the cursor one step forward; see `step_next_spec`.
pub fn step_next(pos: Option<usize>, len: usize) -> (r: Option<usize>)
    ensures
        r == step_next_spec(pos, len as int),
{
    if len == 0 {
        return Option::None;
    }
    match pos {
        Option::Some(p) => {
            if p >= len - 1 {
                Option::Some(len - 1)
            } else {
                Option::Some(p + 1)
            }
        },
        Option::None => Option::Some(0),
    }
}

/// Move the cursor one step back; see `step_prev_spec`.
pub fn step_prev(pos: Option<usize>, len: usize) -> (r: Option<usize>)
    ensures
        r == step_prev_spec(pos, len as int),
{
    if len == 0 {
        return Option::None;
    }
    match pos {
        Option::Some(p) => {
            if p >= len {
                Option::Some(len - 1)
            } else if p >= 1 {
                Option::Some(p - 1)
            } else {
                Option::Some(0)
            }
        },
        Option::None => Option::Some(0),
    }
}

} // verus!
