use mapview::error::ErrorKind;
use mapview::object::{file_mode_allows, MappedObject};
use mapview::perms::{FilePermissions, ReadPermissions, WritePermissions};
use mapview::units::{length_granularity, offset_granularity, Length, Offset};

fn page_length() -> Length {
    Length::round_up(1, length_granularity())
}

fn start() -> Offset {
    Offset::zero(offset_granularity())
}

#[test]
fn anonymous_object_is_writable_not_executable() {
    let obj = MappedObject::anonymous(4096).unwrap();
    assert_eq!(obj.size(), 4096);
    assert!(obj.is_writable());
    assert!(!obj.is_executable());
    assert!(obj.raw_descriptor() >= 0);
    obj.close().unwrap();
}

#[test]
fn anonymous_object_denies_executable_view() {
    let obj = MappedObject::anonymous(4096).unwrap();
    // Capability denied: no error, no view.
    assert!(obj.view(start(), page_length(), ReadPermissions::Execute).is_none());
    // A plain readable view of the same object succeeds.
    assert!(obj.view(start(), page_length(), ReadPermissions::Read).is_some());
    obj.close().unwrap();
}

#[test]
fn executable_object_grants_executable_view() {
    let obj = MappedObject::anonymous_exec(4096).unwrap();
    assert!(obj.is_executable());
    let view = obj.view(start(), page_length(), ReadPermissions::Execute);
    assert!(view.is_some());
    obj.close().unwrap();
}

#[test]
fn writable_object_grants_both_mutable_views() {
    let obj = MappedObject::anonymous(4096).unwrap();
    assert!(obj.view_mut(start(), page_length(), WritePermissions::Write).is_some());
    assert!(obj.view_mut(start(), page_length(), WritePermissions::CopyOnWrite).is_some());
    obj.close().unwrap();
}

#[test]
fn view_reports_its_fields() {
    let obj = MappedObject::anonymous(1 << 20).unwrap();
    let offset = Offset::round_up(5000, offset_granularity());
    let length = Length::round_up(9000, length_granularity());
    let view = obj.view(offset, length, ReadPermissions::Read).unwrap();
    assert_eq!(view.offset().to_u64(), offset.to_u64());
    assert_eq!(view.length().to_usize(), length.to_usize());
    assert!(!view.is_mutable());
    assert_eq!(view.object().raw_descriptor(), obj.raw_descriptor());
    obj.close().unwrap();
}

#[test]
fn anonymous_object_is_sized_and_zero_filled() {
    let obj = MappedObject::anonymous(4096).unwrap();
    let stat = nix::sys::stat::fstat(obj.raw_descriptor()).unwrap();
    assert_eq!(stat.st_size, 4096);
    let mut buf = vec![1u8; 4096];
    let n = nix::unistd::read(obj.raw_descriptor(), &mut buf).unwrap();
    assert_eq!(n, 4096);
    assert!(buf.iter().all(|b| *b == 0));
    obj.close().unwrap();
}

#[test]
fn file_mode_decision_matches_posix_bits() {
    // Read access: a file opened read-only or read-write will do.
    assert!(file_mode_allows(0, false));
    assert!(file_mode_allows(2, false));
    // ... but not one opened write-only.
    assert!(!file_mode_allows(1, false));
    // Write access needs read-write and no append mode.
    assert!(file_mode_allows(2, true));
    assert!(!file_mode_allows(0, true));
    assert!(!file_mode_allows(2 | 1024, true));
    assert!(!file_mode_allows(1, true));
}

#[test]
fn read_only_file_denies_write_access_fast() {
    let fd = nix::fcntl::open(
        "/dev/null",
        nix::fcntl::OFlag::O_RDONLY,
        nix::sys::stat::Mode::empty(),
    )
    .unwrap();
    let err = MappedObject::with_descriptor(
        fd,
        0,
        FilePermissions { write: true, execute: false },
    )
    .unwrap_err();
    assert!(err.is_access_denied());
    assert_eq!(err.kind, ErrorKind::AccessDenied);
}

#[test]
fn read_only_file_backs_copy_on_write_but_not_write_through() {
    let fd = nix::fcntl::open(
        "/dev/null",
        nix::fcntl::OFlag::O_RDONLY,
        nix::sys::stat::Mode::empty(),
    )
    .unwrap();
    let obj = MappedObject::with_descriptor(
        fd,
        0,
        FilePermissions { write: false, execute: false },
    )
    .unwrap();
    assert!(!obj.is_writable());
    // A write-through view is refused; copy-on-write succeeds, since its
    // writes never reach the file.
    assert!(obj.view_mut(start(), page_length(), WritePermissions::Write).is_none());
    assert!(obj.view_mut(start(), page_length(), WritePermissions::CopyOnWrite).is_some());
    obj.close().unwrap();
}

#[test]
fn dead_descriptor_reports_a_system_error() {
    let fd = nix::fcntl::open(
        "/dev/null",
        nix::fcntl::OFlag::O_RDONLY,
        nix::sys::stat::Mode::empty(),
    )
    .unwrap();
    nix::unistd::close(fd).unwrap();
    let err = MappedObject::with_descriptor(
        fd,
        0,
        FilePermissions { write: false, execute: false },
    )
    .unwrap_err();
    assert_eq!(err.kind, ErrorKind::System);
    assert!(err.code != 0);
}
