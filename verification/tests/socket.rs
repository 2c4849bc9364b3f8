use wiiland::failure::{IoFailure, IoKind};
use wiiland::{bridge, platform, server};
use wiiland::socket::{
    acquire_socket_lock, bind_with_hooks, capture_entry, ensure_private_parent,
    is_stale_connect_error, quarantine_name, remove_expected_entry, restored_replacement,
    setup_bound_socket, socket_lock_name, verify_public_identity, BindAction, BindEvent,
    CaptureStep, EntryMetadata, Inode, LockAction, LockEvent, ParentAction, ParentEvent,
    QuarantineStep, S_IFDIR, S_IFMT, S_IFREG, S_IFSOCK,
};

const UID: u32 = 1000;
const INODE: Inode = Inode { device: 1, number: 77 };

fn meta(kind: u32, permissions: u32) -> EntryMetadata {
    EntryMetadata { inode: INODE, mode: kind | permissions, uid: UID }
}

fn errno(number: i32) -> IoFailure {
    IoFailure { kind: IoKind::Other, errno: Some(number), message: "failed".into() }
}

#[test]
fn the_modes_are_those_of_the_system() {
    assert_eq!(S_IFMT, libc::S_IFMT);
    assert_eq!(S_IFSOCK, libc::S_IFSOCK);
    assert_eq!(S_IFDIR, libc::S_IFDIR);
    assert_eq!(S_IFREG, libc::S_IFREG);
    for number in [libc::ECONNREFUSED, libc::ENOENT, libc::ECONNRESET, libc::ENOTCONN] {
        assert!(is_stale_connect_error(&errno(number)));
    }
    assert!(!is_stale_connect_error(&errno(libc::EACCES)));
    assert!(!is_stale_connect_error(&IoFailure::new(IoKind::Other, "")));
}

#[test]
fn failed_post_bind_setup_removes_created_socket() {
    assert!(matches!(
        bind_with_hooks(BindEvent::BoundInspected(Ok(meta(S_IFSOCK, 0o600))), UID),
        BindAction::RunHook(INODE)
    ));
    let failure = IoFailure::new(IoKind::Other, "injected setup failure");
    match bind_with_hooks(BindEvent::HookRun { inode: INODE, result: Err(failure) }, UID) {
        BindAction::RemoveAndFail(inode, failure) => {
            assert_eq!(inode, INODE);
            assert_eq!(failure.kind, IoKind::Other);
            assert_eq!(failure.message, "injected setup failure");
        }
        action => panic!("unexpected action: {action:?}"),
    }
}

#[test]
fn only_a_socket_that_nobody_serves_is_replaced() {
    let step = |event| bind_with_hooks(event, UID);
    assert!(matches!(step(BindEvent::Named(false)), BindAction::Fail(_)));
    assert!(matches!(
        step(BindEvent::EntryInspected(Ok(meta(S_IFREG, 0o600)))),
        BindAction::Fail(failure) if failure.kind == IoKind::AlreadyExists
    ));
    let foreign = EntryMetadata { uid: 0, ..meta(S_IFSOCK, 0o600) };
    assert!(matches!(
        step(BindEvent::EntryInspected(Ok(foreign))),
        BindAction::Fail(failure) if failure.kind == IoKind::PermissionDenied
    ));
    assert!(matches!(
        step(BindEvent::EntryInspected(Ok(meta(S_IFSOCK, 0o600)))),
        BindAction::Probe(INODE)
    ));
    assert!(matches!(
        step(BindEvent::Probed { inode: INODE, result: Ok(()) }),
        BindAction::Fail(failure) if failure.kind == IoKind::AddrInUse
    ));
    assert!(matches!(
        step(BindEvent::Probed { inode: INODE, result: Err(errno(libc::ECONNREFUSED)) }),
        BindAction::RemoveStale(INODE)
    ));
    assert!(matches!(
        step(BindEvent::EntryInspected(Err(IoFailure::new(IoKind::NotFound, "")))),
        BindAction::Bind
    ));
}

#[test]
fn a_parent_must_be_private() {
    let step = |event| ensure_private_parent(event, UID);
    assert!(matches!(
        step(ParentEvent::Inspected(Ok(meta(S_IFDIR, 0o700)))),
        ParentAction::Ready
    ));
    assert!(matches!(
        step(ParentEvent::Inspected(Ok(meta(S_IFDIR, 0o755)))),
        ParentAction::Fail(_)
    ));
    assert!(matches!(
        step(ParentEvent::Inspected(Ok(meta(libc::S_IFLNK, 0o700)))),
        ParentAction::Fail(_)
    ));
    assert!(matches!(
        step(ParentEvent::Inspected(Err(IoFailure::new(IoKind::NotFound, "")))),
        ParentAction::InspectGrandparent
    ));
    assert!(matches!(
        step(ParentEvent::GrandparentInspected(Ok(meta(S_IFDIR, 0o777)))),
        ParentAction::Fail(_)
    ));
}

#[test]
fn a_lock_must_be_a_regular_file_under_its_name() {
    let step = |event| acquire_socket_lock(event, UID);
    assert!(matches!(
        step(LockEvent::Created(Err(IoFailure::new(IoKind::AlreadyExists, "")))),
        LockAction::OpenExisting
    ));
    assert!(matches!(
        step(LockEvent::Inspected { created: false, meta: Ok(meta(libc::S_IFLNK, 0o600)) }),
        LockAction::Fail(_)
    ));
    let other = EntryMetadata { inode: Inode { device: 1, number: 78 }, ..meta(S_IFREG, 0o600) };
    assert!(matches!(
        step(LockEvent::NameInspected { inode: INODE, meta: Ok(other) }),
        LockAction::Fail(_)
    ));
    assert!(matches!(
        step(LockEvent::NameInspected { inode: INODE, meta: Ok(meta(S_IFREG, 0o600)) }),
        LockAction::Held
    ));
}

#[test]
fn cleanup_never_removes_a_replacement() {
    assert!(matches!(
        remove_expected_entry(Ok(meta(S_IFSOCK, 0o600)), INODE),
        QuarantineStep::Unlink
    ));
    let other = EntryMetadata { inode: Inode { device: 2, number: 77 }, ..meta(S_IFSOCK, 0o600) };
    assert!(matches!(remove_expected_entry(Ok(other), INODE), QuarantineStep::Restore));
    assert!(matches!(
        remove_expected_entry(Err(errno(libc::EIO)), INODE),
        QuarantineStep::RestoreAndFail(_)
    ));
    assert_eq!(
        restored_replacement(Ok(())).message,
        "IPC socket entry changed during cleanup; replacement was restored"
    );
    assert!(matches!(capture_entry(0, Err(errno(libc::EEXIST))), CaptureStep::Retry));
    assert!(matches!(capture_entry(0, Err(errno(libc::ENOENT))), CaptureStep::Missing));
    assert_eq!(
        quarantine_name(0x1f, INODE, 10),
        ".wiilandd-quarantine-1f-1-4d-a"
    );
    assert_eq!(socket_lock_name("wiilandd.sock"), "wiilandd.sock.lock");
}

#[test]
fn serving_needs_the_socket_and_the_parent_as_they_were() {
    assert!(setup_bound_socket(meta(S_IFSOCK, 0o600), INODE).is_ok());
    assert!(setup_bound_socket(meta(S_IFSOCK, 0o644), INODE).is_err());
    assert!(setup_bound_socket(meta(S_IFREG, 0o600), INODE).is_err());
    assert!(verify_public_identity(INODE, Ok(INODE)).is_ok());
    assert!(verify_public_identity(INODE, Ok(Inode { device: 9, number: 9 })).is_err());
}

#[test]
fn the_events_and_errors_are_those_of_the_system() {
    assert_eq!(server::POLLIN, libc::POLLIN);
    assert_eq!(server::POLLOUT, libc::POLLOUT);
    assert_eq!(server::POLLERR, libc::POLLERR);
    assert_eq!(server::POLLHUP, libc::POLLHUP);
    assert_eq!(server::POLLNVAL, libc::POLLNVAL);
    assert_eq!(bridge::EIO, libc::EIO);
    assert_eq!(bridge::ENODEV, libc::ENODEV);
    assert_eq!(bridge::EINVAL, libc::EINVAL);
    assert_eq!(platform::EOVERFLOW, libc::EOVERFLOW);
}
