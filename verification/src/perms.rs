//! The permission taxonomy: what a file-backed object may be opened for, and
//! what a single view of an object may request.

use vstd::prelude::*;

verus! {

/// Permissions requested when deriving an object from an open file.
#[derive(Clone, Copy, Debug, PartialEq, Eq, Structural)]
pub struct FilePermissions {
    /// The mapping may be written through.
    pub write: bool,
    /// The mapping may be executed.
    pub execute: bool,
}

/// Permissions for an immutable view of an object.
#[derive(Clone, Copy, Debug, PartialEq, Eq, Structural)]
pub enum ReadPermissions {
    /// The view is read-only.
    Read,
    /// The view is readable and executable.
    Execute,
}

/// Permissions for a mutable view of an object.
#[derive(Clone, Copy, Debug, PartialEq, Eq, Structural)]
pub enum WritePermissions {
    /// The view is readable and writable; writes reach the backing object.
    Write,
    /// The view is readable and writable, but writes stay private to the
    /// mapping and never reach the backing object.
    CopyOnWrite,
}

/// The unified permission mode a view carries into the mapping engine.
#[derive(Clone, Copy, Debug, PartialEq, Eq, Structural)]
pub enum ViewPermissions {
    Read,
    Write,
    CopyOnWrite,
    Execute,
}

impl ViewPermissions {
    /// A mode is mutable when writes through the mapping are possible.
    pub open spec fn is_mutable_spec(&self) -> bool {
        self is Write || self is CopyOnWrite
    }

    pub fn is_mutable(&self) -> (r: bool)
        ensures
            r == self.is_mutable_spec(),
    {
        match self {
            ViewPermissions::Write => true,
            ViewPermissions::CopyOnWrite => true,
            _ => false,
        }
    }

    /// Whether writes stay private to the mapping instead of reaching the
    /// backing object.
    pub fn is_copy_on_write(&self) -> (r: bool)
        ensures
            r == (self is CopyOnWrite),
    {
        match self {
            ViewPermissions::CopyOnWrite => true,
            _ => false,
        }
    }

    /// Whether the mapping must be executable.
    pub fn is_executable(&self) -> (r: bool)
        ensures
            r == (self is Execute),
    {
        match self {
            ViewPermissions::Execute => true,
            _ => false,
        }
    }
}

impl ReadPermissions {
    /// The unified mode this immutable request stands for.
    pub open spec fn to_view_permissions_spec(&self) -> ViewPermissions {
        match self {
            ReadPermissions::Read => ViewPermissions::Read,
            ReadPermissions::Execute => ViewPermissions::Execute,
        }
    }

    pub fn to_view_permissions(&self) -> (r: ViewPermissions)
        ensures
            r == self.to_view_permissions_spec(),
    {
        match self {
            ReadPermissions::Read => ViewPermissions::Read,
            ReadPermissions::Execute => ViewPermissions::Execute,
        }
    }
}

impl WritePermissions {
    /// The unified mode this mutable request stands for.
    pub open spec fn to_view_permissions_spec(&self) -> ViewPermissions {
        match self {
            WritePermissions::Write => ViewPermissions::Write,
            WritePermissions::CopyOnWrite => ViewPermissions::CopyOnWrite,
        }
    }

    pub fn to_view_permissions(&self) -> (r: ViewPermissions)
        ensures
            r == self.to_view_permissions_spec(),
            r.is_mutable_spec(),
    {
        match self {
            WritePermissions::Write => ViewPermissions::Write,
            WritePermissions::CopyOnWrite => ViewPermissions::CopyOnWrite,
        }
    }
}

} // verus!
