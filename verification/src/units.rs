//! Granularity-aware offsets and lengths.
//!
//! Mapping offsets and lengths must be multiples of a platform alignment unit,
//! the *granularity*. An [`Offset`] or [`Length`] is a value validated against
//! the granularity it was built with; `exact` admits only exact multiples,
//! while `round_up` and `round_down` normalize arbitrary non-zero values.
//! Zero values are rejected throughout — a zero-sized view never names a
//! mapping — with one deliberate exception: [`Offset::zero`], where a view of
//! a whole object begins.

use vstd::prelude::*;
use crate::sys;

verus! {

/// Used in place of the platform's page size where the platform reports none.
pub const FALLBACK_GRANULARITY: u64 = 4096;

/// The smallest multiple of `granularity` that is at least `value`.
pub open spec fn round_up_value(value: int, granularity: int) -> int {
    ((value + granularity - 1) / granularity) * granularity
}

/// The largest multiple of `granularity` that is at most `value`.
pub open spec fn round_down_value(value: int, granularity: int) -> int {
    (value / granularity) * granularity
}

/// Rounding a positive value up lands on the nearest multiple of the
/// granularity at or above it, and rounding down on the nearest multiple at
/// or below it; both land less than one granularity away. Because each result
/// is an exact multiple, `exact` accepts it.
pub proof fn lemma_rounding_bounds(value: int, granularity: int)
    requires
        value >= 1,
        granularity >= 1,
    ensures
        value <= round_up_value(value, granularity) < value + granularity,
        round_up_value(value, granularity) % granularity == 0,
        value - granularity < round_down_value(value, granularity) <= value,
        round_down_value(value, granularity) % granularity == 0,
{
    let q = (value + granularity - 1) / granularity;
    assert(value <= q * granularity < value + granularity) by (nonlinear_arith)
        requires
            value >= 1,
            granularity >= 1,
            q == (value + granularity - 1) / granularity,
    ;
    assert((q * granularity) % granularity == 0) by (nonlinear_arith)
        requires
            granularity >= 1,
    ;
    let p = value / granularity;
    assert(value - granularity < p * granularity <= value) by (nonlinear_arith)
        requires
            value >= 1,
            granularity >= 1,
            p == value / granularity,
    ;
    assert((p * granularity) % granularity == 0) by (nonlinear_arith)
        requires
            granularity >= 1,
    ;
}

/// The platform's offset granularity in bytes: the page size, or the
/// conventional fallback where the platform reports none.
pub fn offset_granularity() -> (r: u64)
    ensures
        r >= 1,
{
    let v = sys::sysconf_page_size();
    match v {
        Some(s) => {
            if 0 < s {
                s as u64
            } else {
                FALLBACK_GRANULARITY
            }
        },
        None => FALLBACK_GRANULARITY,
    }
}

/// The platform's length granularity in bytes; on this platform family it
/// coincides with the offset granularity.
pub fn length_granularity() -> (r: usize)
    ensures
        r >= 1,
{
    let v = sys::sysconf_page_size();
    match v {
        Some(s) => {
            if 0 < s && (s as u64) <= (usize::MAX as u64) {
                s as usize
            } else {
                FALLBACK_GRANULARITY as usize
            }
        },
        None => FALLBACK_GRANULARITY as usize,
    }
}

/// A byte position within an object at which a view may begin: an exact
/// multiple of the granularity it was validated against.
#[derive(Clone, Copy, Debug, PartialEq, Eq, Structural)]
pub struct Offset {
    value: u64,
    granularity: u64,
}

impl Offset {
    /// The validated byte position.
    pub closed spec fn value_spec(&self) -> u64 {
        self.value
    }

    /// The granularity this offset was validated against.
    pub closed spec fn granularity_spec(&self) -> u64 {
        self.granularity
    }

    pub open spec fn wf(&self) -> bool {
        &&& self.granularity_spec() >= 1
        &&& self.value_spec() % self.granularity_spec() == 0
    }

    /// The offset at the very start of an object. This is the one zero-valued
    /// offset: a view of a whole object begins here, while `exact` and the
    /// rounding constructors reject zero.
    pub fn zero(granularity: u64) -> (r: Offset)
        requires
            granularity >= 1,
        ensures
            r.value_spec() == 0,
            r.granularity_spec() == granularity,
            r.wf(),
    {
        Offset { value: 0, granularity }
    }

    /// Admit `value` exactly: `Some` if and only if it is a multiple of
    /// `granularity`. Zero is rejected by contract.
    pub fn exact(value: u64, granularity: u64) -> (r: Option<Offset>)
        requires
            value != 0,
            granularity >= 1,
        ensures
            r is Some <==> value % granularity == 0,
            r matches Some(o) ==> o.value_spec() == value && o.granularity_spec() == granularity
                && o.wf(),
    {
        if value % granularity == 0 {
            Some(Offset { value, granularity })
        } else {
            None
        }
    }

    /// The offset at the nearest multiple of `granularity` at or above
    /// `value`. Zero is rejected by contract, and the rounded value must fit.
    pub fn round_up(value: u64, granularity: u64) -> (r: Offset)
        requires
            value != 0,
            granularity >= 1,
            value + granularity - 1 <= u64::MAX,
        ensures
            r.value_spec() == round_up_value(value as int, granularity as int),
            r.granularity_spec() == granularity,
            r.wf(),
            value <= r.value_spec() < value + granularity,
    {
        proof {
            lemma_rounding_bounds(value as int, granularity as int);
        }
        let rounded = (value + (granularity - 1)) / granularity * granularity;
        Offset { value: rounded, granularity }
    }

    /// The offset at the nearest multiple of `granularity` at or below
    /// `value`; `value` must be at least one granularity, else the result
    /// would be the rejected zero.
    pub fn round_down(value: u64, granularity: u64) -> (r: Offset)
        requires
            granularity >= 1,
            value >= granularity,
        ensures
            r.value_spec() == round_down_value(value as int, granularity as int),
            r.granularity_spec() == granularity,
            r.wf(),
            value - granularity < r.value_spec() <= value,
    {
        proof {
            lemma_rounding_bounds(value as int, granularity as int);
        }
        let rounded = value / granularity * granularity;
        Offset { value: rounded, granularity }
    }

    /// The validated byte position.
    pub fn to_u64(self) -> (r: u64)
        ensures
            r == self.value_spec(),
    {
        self.value
    }

    /// The granularity this offset was validated against.
    pub fn granularity(&self) -> (r: u64)
        ensures
            r == self.granularity_spec(),
    {
        self.granularity
    }
}

/// A byte size of a view or mapping: a positive exact multiple of the
/// granularity it was validated against.
#[derive(Clone, Copy, Debug, PartialEq, Eq, Structural)]
pub struct Length {
    value: usize,
    granularity: usize,
}

impl Length {
    /// The validated byte size.
    pub closed spec fn value_spec(&self) -> usize {
        self.value
    }

    /// The granularity this length was validated against.
    pub closed spec fn granularity_spec(&self) -> usize {
        self.granularity
    }

    pub open spec fn wf(&self) -> bool {
        &&& self.granularity_spec() >= 1
        &&& self.value_spec() >= 1
        &&& self.value_spec() % self.granularity_spec() == 0
    }

    /// Admit `value` exactly: `Some` if and only if it is a multiple of
    /// `granularity`. Zero is rejected by contract.
    pub fn exact(value: usize, granularity: usize) -> (r: Option<Length>)
        requires
            value != 0,
            granularity >= 1,
        ensures
            r is Some <==> value % granularity == 0,
            r matches Some(l) ==> l.value_spec() == value && l.granularity_spec() == granularity
                && l.wf(),
    {
        if value % granularity == 0 {
            Some(Length { value, granularity })
        } else {
            None
        }
    }

    /// The length at the nearest multiple of `granularity` at or above
    /// `value`. Zero is rejected by contract, and the rounded value must fit.
    pub fn round_up(value: usize, granularity: usize) -> (r: Length)
        requires
            value != 0,
            granularity >= 1,
            value + granularity - 1 <= usize::MAX,
        ensures
            r.value_spec() == round_up_value(value as int, granularity as int),
            r.granularity_spec() == granularity,
            r.wf(),
            value <= r.value_spec() < value + granularity,
    {
        proof {
            lemma_rounding_bounds(value as int, granularity as int);
        }
        let rounded = (value + (granularity - 1)) / granularity * granularity;
        Length { value: rounded, granularity }
    }

    /// The length at the nearest multiple of `granularity` at or below
    /// `value`; `value` must be at least one granularity, else the result
    /// would be the rejected zero.
    pub fn round_down(value: usize, granularity: usize) -> (r: Length)
        requires
            granularity >= 1,
            value >= granularity,
        ensures
            r.value_spec() == round_down_value(value as int, granularity as int),
            r.granularity_spec() == granularity,
            r.wf(),
            value - granularity < r.value_spec() <= value,
    {
        proof {
            lemma_rounding_bounds(value as int, granularity as int);
        }
        let rounded = value / granularity * granularity;
        Length { value: rounded, granularity }
    }

    /// The validated byte size.
    pub fn to_usize(self) -> (r: usize)
        ensures
            r == self.value_spec(),
    {
        self.value
    }

    /// The granularity this length was validated against.
    pub fn granularity(&self) -> (r: usize)
        ensures
            r == self.granularity_spec(),
    {
        self.granularity
    }
}

} // verus!
