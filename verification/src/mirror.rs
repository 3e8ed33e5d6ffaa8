//! The layout behind a mirrored buffer.
//!
//! A mirrored buffer maps one half-sized object twice, back-to-back, so that
//! element `i` and element `i + n/2` alias the same storage and a ring buffer
//! built on it never branches on wraparound. What is computed and proved here
//! is the sizing: how many bytes one half takes — the requested element count
//! rounded up to the platform granularity — and how many elements the doubled
//! range then holds.

use vstd::prelude::*;
use vstd::arithmetic::div_mod::{lemma_div_by_multiple, lemma_fundamental_div_mod};
use crate::units::{round_up_value, Length};

verus! {

/// How many elements one half of a buffer for at least `min_size` elements
/// holds before rounding: half of it, rounded up.
pub open spec fn half_count(min_size: int) -> int {
    (min_size + 1) / 2
}

/// The sizing of a mirrored buffer.
#[derive(Clone, Copy, Debug, PartialEq, Eq, Structural)]
pub struct MirrorLayout {
    /// The byte size of one half: the size of the backing object, and of each
    /// of the two views mapped back-to-back.
    pub half_bytes: usize,
    /// How many whole elements the doubled byte range holds.
    pub total_elements: usize,
}

/// Size a mirrored buffer of at least `min_size` elements of `elem_size`
/// bytes each, under the platform's length `granularity`.
///
/// One half holds half the requested elements, rounded up, and its byte size
/// is rounded up to the granularity; the buffer then holds every whole
/// element of the doubled range. Where the element size divides the
/// granularity, nothing is lost to rounding: the element count is even, its
/// half exactly fills `half_bytes`, and at least `min_size` elements are
/// there.
pub fn mirror_layout(min_size: usize, elem_size: usize, granularity: usize) -> (r: MirrorLayout)
    requires
        min_size >= 1,
        elem_size >= 1,
        granularity >= 1,
        half_count(min_size as int) * elem_size + granularity - 1 <= usize::MAX,
        2 * round_up_value(half_count(min_size as int) * elem_size, granularity as int)
            <= usize::MAX,
    ensures
        r.half_bytes == round_up_value(half_count(min_size as int) * elem_size, granularity as int),
        r.half_bytes % granularity == 0,
        r.half_bytes >= 1,
        r.total_elements == (2 * r.half_bytes) / (elem_size as int),
        granularity % elem_size == 0 ==> {
            &&& r.total_elements % 2 == 0
            &&& r.total_elements >= min_size
            &&& r.total_elements / 2 * elem_size == r.half_bytes
        },
{
    let half = (min_size - 1) / 2 + 1;
    assert(half == half_count(min_size as int));
    assert(1 <= half * elem_size) by (nonlinear_arith)
        requires
            half >= 1,
            elem_size >= 1,
    ;
    let bytes = half * elem_size;
    let length = Length::round_up(bytes, granularity);
    let half_bytes = length.to_usize();
    let total_elements = (2 * half_bytes) / elem_size;
    proof {
        lemma_mirror_layout_divisible(
            half as int,
            elem_size as int,
            granularity as int,
            half_bytes as int,
        );
        assert(2 * half >= min_size);
    }
    MirrorLayout { half_bytes, total_elements }
}

/// Where the element size divides the granularity, a granularity-aligned half
/// that holds at least `half` whole elements doubles to an even element
/// count, at least `2 * half` of them, splitting exactly in the middle.
proof fn lemma_mirror_layout_divisible(half: int, elem: int, g: int, hb: int)
    requires
        half >= 1,
        elem >= 1,
        g >= 1,
        hb % g == 0,
        hb >= half * elem,
    ensures
        g % elem == 0 ==> {
            &&& (2 * hb) / elem % 2 == 0
            &&& (2 * hb) / elem >= 2 * half
            &&& ((2 * hb) / elem) / 2 * elem == hb
        },
{
    if g % elem == 0 {
        let k = hb / g;
        let me = g / elem;
        lemma_fundamental_div_mod(hb, g);
        lemma_fundamental_div_mod(g, elem);
        assert(hb == g * k);
        assert(g == elem * me);
        let q = me * k;
        assert(hb == elem * q) by (nonlinear_arith)
            requires
                hb == g * k,
                g == elem * me,
                q == me * k,
        ;
        assert(hb >= 1) by (nonlinear_arith)
            requires
                hb >= half * elem,
                half >= 1,
                elem >= 1,
        ;
        assert(q >= 0) by (nonlinear_arith)
            requires
                hb == elem * q,
                hb >= 1,
                elem >= 1,
        ;
        assert(2 * hb == (2 * q) * elem) by (nonlinear_arith)
            requires
                hb == elem * q,
        ;
        lemma_div_by_multiple(2 * q, elem);
        assert((2 * hb) / elem == 2 * q);
        assert(q >= half) by (nonlinear_arith)
            requires
                hb == elem * q,
                hb >= half * elem,
                elem >= 1,
        ;
        assert((2 * q) / 2 == q);
        assert(q * elem == hb) by (nonlinear_arith)
            requires
                hb == elem * q,
        ;
    }
}

} // verus!
