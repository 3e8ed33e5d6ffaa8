//! Types that may start life as all-zero bytes.
//!
//! A fresh anonymous object is zero-filled by the platform, so a buffer of
//! such elements is fully initialized the moment it is mapped; the marker
//! picks the element types for which that zero fill is a valid value.

use vstd::prelude::*;

verus! {

/// Marker for element types whose all-zero byte pattern is a valid value.
pub trait ZeroInit {

}

impl ZeroInit for i8 {

}

impl ZeroInit for i16 {

}

impl ZeroInit for i32 {

}

impl ZeroInit for i64 {

}

impl ZeroInit for i128 {

}

impl ZeroInit for isize {

}

impl ZeroInit for u8 {

}

impl ZeroInit for u16 {

}

impl ZeroInit for u32 {

}

impl ZeroInit for u64 {

}

impl ZeroInit for u128 {

}

impl ZeroInit for usize {

}

} // verus!
