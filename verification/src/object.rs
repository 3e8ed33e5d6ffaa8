//! Mappable objects and the views carved out of them.
//!
//! A [`MappedObject`] owns exactly one platform backing resource — a file
//! descriptor for an anonymous shared-memory object or for an open file — and
//! is the only owner: it is created by a constructor, moved, and released
//! exactly once, either by [`MappedObject::close`] or by its destructor.
//! Views borrow the object and never own the resource.

use vstd::prelude::*;
use crate::error::Error;
use crate::perms::{FilePermissions, ReadPermissions, ViewPermissions, WritePermissions};
use crate::sys;
use crate::units::{Length, Offset};

verus! {

/// The bits of an open-mode word that carry the access mode.
pub const ACCESS_MODE_MASK: i32 = 3;
/// The access mode of a file opened read-only.
pub const READ_ONLY_MODE: i32 = 0;
/// The access mode of a file opened read-write.
pub const READ_WRITE_MODE: i32 = 2;
/// The open-mode bit of a file opened in append mode.
pub const APPEND_FLAG: i32 = 1024;

/// Whether a file whose open-mode word is `flags` may back an object with
/// (`write == true`) or without (`write == false`) write access.
///
/// Write access needs the file opened read-write and not in append mode; a
/// mapping cannot write through an append-mode descriptor. Read access needs
/// the file readable, that is opened read-only or read-write.
pub open spec fn file_mode_allows_spec(flags: i32, write: bool) -> bool {
    if write {
        (flags & ACCESS_MODE_MASK) == READ_WRITE_MODE && (flags & APPEND_FLAG) == 0
    } else {
        (flags & ACCESS_MODE_MASK) == READ_ONLY_MODE
            || (flags & ACCESS_MODE_MASK) == READ_WRITE_MODE
    }
}

/// The decision behind the fail-fast permission check on file-backed objects:
/// exactly [`file_mode_allows_spec`].
pub fn file_mode_allows(flags: i32, write: bool) -> (r: bool)
    ensures
        r == file_mode_allows_spec(flags, write),
{
    if write {
        (flags & ACCESS_MODE_MASK) == READ_WRITE_MODE && (flags & APPEND_FLAG) == 0
    } else {
        (flags & ACCESS_MODE_MASK) == READ_ONLY_MODE
            || (flags & ACCESS_MODE_MASK) == READ_WRITE_MODE
    }
}

/// An object that can be mapped to virtual memory, owning its backing
/// descriptor.
#[derive(Debug)]
pub struct MappedObject {
    fd: i32,
    size: u64,
    write: bool,
    execute: bool,
}

impl MappedObject {
    /// The owned backing descriptor.
    pub closed spec fn fd_spec(&self) -> i32 {
        self.fd
    }

    /// The byte size of the backing region.
    pub closed spec fn size_spec(&self) -> u64 {
        self.size
    }

    /// Whether views that write through to the object may be derived.
    pub closed spec fn writable_spec(&self) -> bool {
        self.write
    }

    /// Whether executable views may be derived.
    pub closed spec fn executable_spec(&self) -> bool {
        self.execute
    }

    pub open spec fn wf(&self) -> bool {
        self.fd_spec() >= 0
    }

    /// Open a fresh anonymous backing object and size it to `size` bytes.
    fn open_anonymous(size: u64) -> (r: Result<i32, Error>)
        requires
            size <= i64::MAX,
        ensures
            r matches Ok(fd) ==> fd >= 0,
            r matches Err(e) ==> e.kind is System,
    {
        let fd = sys::shm_open_anon();
        if fd < 0 {
            Err(Error::system(sys::last_errno()))
        } else {
            match sys::ftruncate_fd(fd, size as i64) {
                Ok(_) => Ok(fd),
                Err(code) => {
                    let _ = sys::close_fd(fd);
                    Err(Error::system(code))
                },
            }
        }
    }

    /// Create an anonymous shared memory object of `size` bytes, zero-filled,
    /// readable and writable but not executable.
    pub fn anonymous(size: usize) -> (r: Result<MappedObject, Error>)
        requires
            size <= i64::MAX,
        ensures
            r matches Ok(o) ==> o.wf() && o.size_spec() == size && o.writable_spec()
                && !o.executable_spec(),
            r matches Err(e) ==> e.kind is System,
    {
        match Self::open_anonymous(size as u64) {
            Ok(fd) => Ok(MappedObject { fd, size: size as u64, write: true, execute: false }),
            Err(e) => Err(e),
        }
    }

    /// Create an anonymous shared memory object of `size` bytes, zero-filled,
    /// readable, writable and executable.
    pub fn anonymous_exec(size: usize) -> (r: Result<MappedObject, Error>)
        requires
            size <= i64::MAX,
        ensures
            r matches Ok(o) ==> o.wf() && o.size_spec() == size && o.writable_spec()
                && o.executable_spec(),
            r matches Err(e) ==> e.kind is System,
    {
        match Self::open_anonymous(size as u64) {
            Ok(fd) => Ok(MappedObject { fd, size: size as u64, write: true, execute: true }),
            Err(e) => Err(e),
        }
    }

    /// Derive an object from an already-open file descriptor of `size` bytes,
    /// taking ownership of the descriptor.
    ///
    /// The descriptor's own open mode is inspected first: where it does not
    /// allow the requested permissions — decided exactly by
    /// [`file_mode_allows`] on the flags the platform reports — the
    /// descriptor is released and `AccessDenied` is returned before any
    /// mapping object is created.
    pub fn with_descriptor(fd: i32, size: u64, permissions: FilePermissions) -> (r: Result<
        MappedObject,
        Error,
    >)
        requires
            fd >= 0,
        ensures
            r matches Ok(o) ==> o.wf() && o.fd_spec() == fd && o.size_spec() == size
                && o.writable_spec() == permissions.write
                && o.executable_spec() == permissions.execute,
            r matches Err(e) ==> e.kind is AccessDenied || e.kind is System,
    {
        match sys::fd_status_flags(fd) {
            Err(code) => {
                let _ = sys::close_fd(fd);
                Err(Error::system(code))
            },
            Ok(flags) => {
                if file_mode_allows(flags, permissions.write) {
                    Ok(
                        MappedObject {
                            fd,
                            size,
                            write: permissions.write,
                            execute: permissions.execute,
                        },
                    )
                } else {
                    let _ = sys::close_fd(fd);
                    Err(Error::access_denied())
                }
            },
        }
    }

    /// The byte size of the backing region.
    pub fn size(&self) -> (r: u64)
        ensures
            r == self.size_spec(),
    {
        self.size
    }

    /// The owned backing descriptor, for handing to the platform's mapping
    /// call; the object keeps ownership.
    pub fn raw_descriptor(&self) -> (r: i32)
        ensures
            r == self.fd_spec(),
    {
        self.fd
    }

    /// Whether views that write through to the object may be derived.
    pub fn is_writable(&self) -> (r: bool)
        ensures
            r == self.writable_spec(),
    {
        self.write
    }

    /// Whether executable views may be derived.
    pub fn is_executable(&self) -> (r: bool)
        ensures
            r == self.executable_spec(),
    {
        self.execute
    }

    /// Release the backing descriptor now and observe the platform's answer;
    /// dropping the object instead releases it silently. Consuming the
    /// object — after taking the descriptor out of its reach — is what makes
    /// a double release impossible, and the borrow rules keep views from
    /// outliving it.
    pub fn close(self) -> (r: Result<(), Error>)
        ensures
            r matches Err(e) ==> e.kind is System,
    {
        let mut this = self;
        let fd = this.fd;
        this.fd = -1;
        match sys::close_fd(fd) {
            Ok(_) => Ok(()),
            Err(code) => Err(Error::system(code)),
        }
    }

    /// Create an immutable view of the object.
    ///
    /// This is a capability check, not a platform call: `None` exactly when
    /// an executable view is requested on an object not marked executable.
    pub fn view<'a>(&'a self, offset: Offset, length: Length, permissions: ReadPermissions) -> (r:
        Option<View<'a>>)
        ensures
            r is Some <==> (permissions is Execute ==> self.executable_spec()),
            r matches Some(v) ==> v.object_spec() == *self && v.offset_spec() == offset
                && v.length_spec() == length
                && v.permissions_spec() == permissions.to_view_permissions_spec(),
    {
        let execute = matches!(permissions, ReadPermissions::Execute);
        if !execute || self.execute {
            Some(
                View {
                    object: self,
                    offset,
                    length,
                    permissions: permissions.to_view_permissions(),
                },
            )
        } else {
            None
        }
    }

    /// Create a mutable view of the object.
    ///
    /// This is a capability check, not a platform call: `None` exactly when a
    /// write-through view is requested on an object not opened writable; a
    /// copy-on-write view is always allowed, since its writes never reach the
    /// object.
    pub fn view_mut<'a>(
        &'a self,
        offset: Offset,
        length: Length,
        permissions: WritePermissions,
    ) -> (r: Option<ViewMut<'a>>)
        ensures
            r is Some <==> (permissions is CopyOnWrite || self.writable_spec()),
            r matches Some(v) ==> v.object_spec() == *self && v.offset_spec() == offset
                && v.length_spec() == length
                && v.permissions_spec() == permissions.to_view_permissions_spec(),
    {
        let copy_on_write = matches!(permissions, WritePermissions::CopyOnWrite);
        if copy_on_write || self.write {
            Some(
                ViewMut {
                    object: self,
                    offset,
                    length,
                    permissions: permissions.to_view_permissions(),
                },
            )
        } else {
            None
        }
    }
}

impl Drop for MappedObject {
    /// Destroying the object releases the backing descriptor; an object
    /// already released by [`MappedObject::close`] holds no descriptor and
    /// nothing is closed twice.
    fn drop(&mut self)
        opens_invariants none
        no_unwind
    {
        if self.fd >= 0 {
            let _ = sys::close_fd(self.fd);
        }
    }
}

/// An immutable view: a permissioned sub-range of a borrowed object. A plain
/// copyable value that owns nothing.
#[derive(Clone, Copy, Debug)]
pub struct View<'a> {
    object: &'a MappedObject,
    offset: Offset,
    length: Length,
    permissions: ViewPermissions,
}

impl<'a> View<'a> {
    /// The borrowed object this view reads.
    pub closed spec fn object_spec(&self) -> MappedObject {
        *self.object
    }

    /// The byte position within the object at which the view begins.
    pub closed spec fn offset_spec(&self) -> Offset {
        self.offset
    }

    /// The byte size of the view.
    pub closed spec fn length_spec(&self) -> Length {
        self.length
    }

    /// The permission mode the view carries.
    pub closed spec fn permissions_spec(&self) -> ViewPermissions {
        self.permissions
    }

    pub open spec fn is_mutable_spec(&self) -> bool {
        self.permissions_spec().is_mutable_spec()
    }

    /// Whether this view can be mapped for writing.
    pub fn is_mutable(&self) -> (r: bool)
        ensures
            r == self.is_mutable_spec(),
    {
        self.permissions.is_mutable()
    }

    pub fn offset(&self) -> (r: Offset)
        ensures
            r == self.offset_spec(),
    {
        self.offset
    }

    pub fn length(&self) -> (r: Length)
        ensures
            r == self.length_spec(),
    {
        self.length
    }

    pub fn permissions(&self) -> (r: ViewPermissions)
        ensures
            r == self.permissions_spec(),
    {
        self.permissions
    }

    /// The borrowed object this view reads.
    pub fn object(&self) -> (r: &'a MappedObject)
        ensures
            *r == self.object_spec(),
    {
        self.object
    }
}

/// A mutable view: a permissioned sub-range of a borrowed object whose mode
/// is write or copy-on-write. A plain copyable value that owns nothing.
#[derive(Clone, Copy, Debug)]
pub struct ViewMut<'a> {
    object: &'a MappedObject,
    offset: Offset,
    length: Length,
    permissions: ViewPermissions,
}

impl<'a> ViewMut<'a> {
    /// The borrowed object this view writes.
    pub closed spec fn object_spec(&self) -> MappedObject {
        *self.object
    }

    /// The byte position within the object at which the view begins.
    pub closed spec fn offset_spec(&self) -> Offset {
        self.offset
    }

    /// The byte size of the view.
    pub closed spec fn length_spec(&self) -> Length {
        self.length
    }

    /// The permission mode the view carries.
    pub closed spec fn permissions_spec(&self) -> ViewPermissions {
        self.permissions
    }

    pub fn offset(&self) -> (r: Offset)
        ensures
            r == self.offset_spec(),
    {
        self.offset
    }

    pub fn length(&self) -> (r: Length)
        ensures
            r == self.length_spec(),
    {
        self.length
    }

    pub fn permissions(&self) -> (r: ViewPermissions)
        ensures
            r == self.permissions_spec(),
    {
        self.permissions
    }

    /// The borrowed object this view writes.
    pub fn object(&self) -> (r: &'a MappedObject)
        ensures
            *r == self.object_spec(),
    {
        self.object
    }
}

} // verus!
