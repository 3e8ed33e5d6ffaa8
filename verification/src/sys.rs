//! The platform calls this library relies on. Every function here is trusted:
//! its body makes one call into an outside crate and converts the result to
//! plain values; nothing in it is verified.

use vstd::prelude::*;

verus! {

/// Relies on `nix::unistd::sysconf` with the page-size variable: returns the
/// platform's page size in bytes, `None` where the platform reports no limit,
/// `Err` on failure.
#[verifier::external_body]
pub(crate) fn sysconf_page_size() -> (r: Option<i64>) {
    match nix::unistd::sysconf(nix::unistd::SysconfVar::PAGE_SIZE) {
        Ok(v) => v,
        Err(_) => None,
    }
}

/// Relies on `shm_open_anonymous::shm_open_anonymous`: creates an anonymous,
/// unnamed POSIX shared-memory object and returns its file descriptor, or
/// returns -1 on failure (with the error number left in `errno`).
#[verifier::external_body]
pub(crate) fn shm_open_anon() -> (r: i32)
    ensures
        r == -1 || r >= 0,
{
    shm_open_anonymous::shm_open_anonymous()
}

/// Relies on `nix::errno::errno`: reads the calling thread's current error
/// number.
#[verifier::external_body]
pub(crate) fn last_errno() -> (r: i32) {
    nix::errno::errno()
}

/// Relies on `nix::unistd::ftruncate`: resizes the open file behind `fd` to
/// `len` bytes, returning the error number on failure.
#[verifier::external_body]
pub(crate) fn ftruncate_fd(fd: i32, len: i64) -> (r: Result<(), i32>) {
    nix::unistd::ftruncate(fd, len).map_err(|e| e as i32)
}

/// Relies on `nix::unistd::close`: closes the file descriptor, returning the
/// error number on failure; it neither panics nor touches any invariant, so
/// a destructor may call it.
#[verifier::external_body]
pub(crate) fn close_fd(fd: i32) -> (r: Result<(), i32>)
    opens_invariants none
    no_unwind
{
    nix::unistd::close(fd).map_err(|e| e as i32)
}

/// Relies on `nix::fcntl::fcntl` with `F_GETFL`: reads the open-mode status
/// flags of `fd`, returning the error number on failure.
#[verifier::external_body]
pub(crate) fn fd_status_flags(fd: i32) -> (r: Result<i32, i32>) {
    nix::fcntl::fcntl(fd, nix::fcntl::FcntlArg::F_GETFL).map_err(|e| e as i32)
}

} // verus!
