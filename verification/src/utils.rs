//! Windowing of long candidate lists.

use vstd::prelude::*;
use vstd::arithmetic::div_mod::lemma_fundamental_div_mod;

verus! {

/// Index at which the page that holds `sel` begins: pages are aligned to
/// multiples of the page size, not centred on the selection.
pub open spec fn page_start(page_size: nat, sel: nat) -> nat
    recommends
        page_size > 0,
{
    ((sel / page_size) * page_size) as nat
}

/// First index of the window shown for a list of `len` items.
pub open spec fn window_start(page_size: nat, len: nat, sel: nat) -> nat {
    if len <= page_size {
        0
    } else if page_size == 0 {
        len
    } else if page_start(page_size, sel) >= len {
        len
    } else {
        page_start(page_size, sel)
    }
}

/// Number of items in the window shown for a list of `len` items.
pub open spec fn window_len(page_size: nat, len: nat, sel: nat) -> nat {
    if len <= page_size {
        len
    } else {
        let rest = (len - window_start(page_size, len, sel)) as nat;
        if page_size <= rest {
            page_size
        } else {
            rest
        }
    }
}

/// The window shown for `items`: `window_len` items from `window_start` on.
pub open spec fn window<T>(page_size: nat, items: Seq<T>, sel: nat) -> Seq<T> {
    let start = window_start(page_size, items.len(), sel) as int;
    items.subrange(start, start + window_len(page_size, items.len(), sel) as int)
}

/// Position of `sel` inside the window: its distance from the page start,
/// or `sel` itself where the whole list is the window or no page exists.
pub open spec fn window_index(page_size: nat, len: nat, sel: nat) -> nat {
    if len <= page_size || page_size == 0 {
        sel
    } else {
        (sel - page_start(page_size, sel)) as nat
    }
}

/// Cuts the page that holds `sel` out of `choices`.
///
/// A list that fits on one page is returned whole with the index unchanged.
/// Otherwise the window starts at the multiple of `page_size` at or below
/// `sel` and holds up to `page_size` items; the index returned is relative to
/// that start. A selection beyond the list gives an empty window, and so does
/// a page size of zero with a non-empty list (the index is then unchanged).
pub fn paginate<T>(page_size: usize, choices: &[T], sel: usize) -> (r: (&[T], usize))
    ensures
        r.0@ == window(page_size as nat, choices@, sel as nat),
        r.1 == window_index(page_size as nat, choices@.len(), sel as nat),
        choices@.len() <= page_size ==> r.0@ == choices@ && r.1 == sel,
        choices@.len() > page_size > 0 && sel < choices@.len() ==> r.1 < r.0@.len() && r.0@[r.1 as int]
            == choices@[sel as int],
{
    let len: usize = choices.len();
    if len <= page_size {
        assert(choices@.subrange(0, len as int) =~= choices@);
        return (vstd::slice::slice_subrange(choices, 0, len), sel);
    }
    if page_size == 0 {
        return (vstd::slice::slice_subrange(choices, len, len), sel);
    }
    let rel: usize = sel % page_size;
    proof {
        lemma_fundamental_div_mod(sel as int, page_size as int);
        assert((sel as int / page_size as int) * page_size as int == page_size as int * (sel as int
            / page_size as int)) by (nonlinear_arith);
        assert(sel - rel == page_start(page_size as nat, sel as nat));
    }
    let start: usize = sel - rel;
    if start >= len {
        return (vstd::slice::slice_subrange(choices, len, len), rel);
    }
    let end: usize = if page_size <= len - start {
        start + page_size
    } else {
        len
    };
    (vstd::slice::slice_subrange(choices, start, end), rel)
}

} // verus!
