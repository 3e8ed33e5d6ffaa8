//! A virtual-memory mapping library: anonymous or file-backed objects,
//! permissioned views of them, granularity arithmetic, and the planning and
//! bookkeeping behind mapping several views contiguously.

pub mod engine;
pub mod error;
pub mod mirror;
pub mod object;
pub mod perms;
pub(crate) mod sys;
pub mod units;
pub mod zero_init;
