//! The daemon's socket: a private place, one owner, and nothing removed that is in use.
use crate::failure::IoFailure;
use crate::socket::{
    self, BindAction, BindEvent, CaptureStep, EntryMetadata, Inode, LockAction, LockEvent,
    ParentAction, ParentEvent, QuarantineStep,
};
use crate::text;
use vstd::prelude::*;

verus! {

/// Whether an entry is a directory of this user that nobody else can enter.
pub open spec fn is_private(meta: EntryMetadata, euid: u32) -> bool {
    meta.mode & 0o170000 == 0o040000 && meta.mode & 0o777 == 0o700 && meta.uid == euid
}

/// Whether an entry is a socket.
pub open spec fn is_a_socket(meta: EntryMetadata) -> bool {
    meta.mode & 0o170000 == 0o140000
}

/// Whether an entry is a regular file.
pub open spec fn is_a_file(meta: EntryMetadata) -> bool {
    meta.mode & 0o170000 == 0o100000
}

/// Exactly directories of this user with mode 0700 are private.
pub proof fn private_directories_are_accepted(
    meta: EntryMetadata,
    what: &str,
    euid: u32,
    result: Result<(), IoFailure>,
)
    requires
        call_ensures(socket::validate_private_directory, (meta, what, euid), result),
    ensures
        result is Ok <==> is_private(meta, euid),
        result matches Err(failure) ==> (failure.kind is NotADirectory <==> meta.mode & 0o170000
            != 0o040000),
{
}

/// An entry belongs to this user exactly if it has the user's number.
pub proof fn owners_are_told_by_number(
    meta: EntryMetadata,
    what: &str,
    euid: u32,
    result: Result<(), IoFailure>,
    socket: bool,
)
    requires
        call_ensures(socket::ensure_entry_owner, (meta, what, euid), result),
        call_ensures(EntryMetadata::is_socket, (meta, ), socket),
    ensures
        result is Ok <==> meta.uid == euid,
        result matches Err(failure) ==> failure.kind is PermissionDenied,
        socket <==> is_a_socket(meta),
{
}

/// A socket is stale if connecting was refused, reset, not connected, or found nothing.
pub proof fn stale_sockets_refuse(failure: &IoFailure, r: bool)
    requires
        call_ensures(socket::is_stale_connect_error, (failure, ), r),
    ensures
        r <==> failure.errno == Some(111i32) || failure.errno == Some(2i32) || failure.errno
            == Some(104i32) || failure.errno == Some(107i32),
{
}

/// The socket's directory is used where it is private, made where it is missing and the one above
/// is private, and looked at again after it was made.
pub proof fn the_parent_is_made_private(event: ParentEvent, euid: u32, action: ParentAction)
    requires
        call_ensures(socket::ensure_private_parent, (event, euid), action),
    ensures
        action is Ready <==> (event matches ParentEvent::Inspected(Ok(meta)) && is_private(
            meta,
            euid,
        )) || (event matches ParentEvent::InspectedAgain(Ok(meta)) && is_private(meta, euid)),
        action is Create <==> (event matches ParentEvent::GrandparentInspected(Ok(meta))
            && is_private(meta, euid)),
        action is InspectGrandparent <==> (event matches ParentEvent::Inspected(Err(failure))
            && failure.kind is NotFound),
        action is InspectAgain <==> (event matches ParentEvent::Created(Ok(_))) || (
        event matches ParentEvent::Created(Err(failure)) && failure.kind is AlreadyExists),
{
}

/// The lock is held exactly after its name was found to be the file that was locked.
pub proof fn the_lock_is_held_under_its_name(event: LockEvent, euid: u32, action: LockAction)
    requires
        call_ensures(socket::acquire_socket_lock, (event, euid), action),
    ensures
        action is Held <==> (event matches LockEvent::NameInspected { inode, meta: Ok(named) }
            && named.inode == inode && is_a_file(named)),
        action is OpenExisting <==> (event matches LockEvent::Created(Err(failure))
            && failure.kind is AlreadyExists),
        action is SetMode <==> (event matches LockEvent::Inspected { created, meta: Ok(meta) }
            && created && is_a_file(meta) && meta.uid == euid),
        action is Flock <==> (event matches LockEvent::InspectedAgain(Ok(meta)) && meta.mode & 0o777
            == 0o600),
        action is InspectName <==> (event matches LockEvent::Flocked { result: Ok(_), .. }),
        event matches LockEvent::Flocked { result: Err(failure), .. } ==> (failure.kind
            is WouldBlock ==> (action matches LockAction::Fail(held) && held.kind is AddrInUse)),
        event matches LockEvent::Inspected { created: false, meta: Ok(meta) } ==> (is_a_file(meta)
            && meta.uid == euid ==> action is InspectAgain),
        action matches LockAction::Flock(inode) ==> (event matches LockEvent::InspectedAgain(
            Ok(meta),
        ) && meta.inode == inode),
{
}

/// A socket that answers is never removed: what is removed as stale was probed, and connecting to it
/// failed as it does with nobody there.
pub proof fn living_sockets_are_left(event: BindEvent, euid: u32, action: BindAction)
    requires
        call_ensures(socket::bind_with_hooks, (event, euid), action),
    ensures
        action is RemoveStale <==> (event matches BindEvent::Probed { result: Err(failure), .. }
            && (failure.errno == Some(111i32) || failure.errno == Some(2i32) || failure.errno
            == Some(104i32) || failure.errno == Some(107i32))),
        event matches BindEvent::Probed { result: Ok(_), .. } ==> (action matches BindAction::Fail(
            failure,
        ) && failure.kind is AddrInUse),
        action matches BindAction::RemoveStale(inode) ==> (event matches BindEvent::Probed {
            inode: probed,
            ..
        } && probed == inode),
        action is Probe <==> (event matches BindEvent::EntryInspected(Ok(meta)) && is_a_socket(meta)
            && meta.uid == euid),
        action matches BindAction::Probe(inode) ==> (event matches BindEvent::EntryInspected(
            Ok(meta),
        ) && meta.inode == inode),
{
}

/// A socket is bound where nothing stands or what stood was stale, and served once it was set up and
/// verified; what fails after that is removed again.
pub proof fn sockets_are_bound_in_order(event: BindEvent, euid: u32, action: BindAction)
    requires
        call_ensures(socket::bind_with_hooks, (event, euid), action),
    ensures
        action is PrepareParent <==> event == BindEvent::Named(true),
        action is PinParent <==> (event matches BindEvent::ParentPrepared(Ok(_))),
        action is Lock <==> (event matches BindEvent::ParentPinned(Ok(meta)) && is_private(
            meta,
            euid,
        )),
        action is InspectEntry <==> (event matches BindEvent::Locked(Ok(_))),
        action is Bind <==> (event matches BindEvent::StaleRemoved(Ok(_))) || (
        event matches BindEvent::EntryInspected(Err(failure)) && failure.kind is NotFound),
        action is InspectBound <==> (event matches BindEvent::Bound(Ok(_))),
        action is RunHook <==> (event matches BindEvent::BoundInspected(Ok(meta)) && is_a_socket(
            meta,
        )),
        action is SetUp <==> (event matches BindEvent::HookRun { result: Ok(_), .. }),
        action is Verify <==> (event matches BindEvent::SetUp { result: Ok(_), .. }),
        action is Serve <==> (event matches BindEvent::Verified { result: Ok(_), .. }),
        action is RemoveAndFail <==> (event matches BindEvent::HookRun { result: Err(_), .. }) || (
        event matches BindEvent::SetUp { result: Err(_), .. }) || (
        event matches BindEvent::Verified { result: Err(_), .. }),
        event matches BindEvent::Verified { inode, result: Err(failure) } ==> action
            == BindAction::RemoveAndFail(inode, failure),
        event matches BindEvent::Verified { inode, result: Ok(_) } ==> action == BindAction::Serve(
            inode,
        ),
{
}

/// The socket that was bound must be the one that is set up, of this user, for this user only.
pub proof fn the_bound_socket_is_the_one(
    meta: EntryMetadata,
    inode: Inode,
    euid: u32,
    checked: Result<(), IoFailure>,
    set_up: Result<(), IoFailure>,
)
    requires
        call_ensures(socket::check_bound_socket, (meta, inode, euid), checked),
        call_ensures(socket::setup_bound_socket, (meta, inode), set_up),
    ensures
        checked is Ok <==> meta.uid == euid && is_a_socket(meta) && meta.inode == inode,
        set_up is Ok <==> is_a_socket(meta) && meta.inode == inode && meta.mode & 0o777 == 0o600,
{
}

/// The directory must be the one that was pinned.
pub proof fn the_parent_stays_the_same(
    pinned: Inode,
    current: Result<Inode, IoFailure>,
    result: Result<(), IoFailure>,
)
    requires
        call_ensures(socket::verify_public_identity, (pinned, current), result),
    ensures
        result is Ok <==> current == Ok::<Inode, IoFailure>(pinned),
        result matches Err(failure) ==> failure.kind is AddrInUse,
{
}

/// Only the expected socket is unlinked; anything else is put back.
pub proof fn only_the_expected_entry_is_removed(
    captured: Result<EntryMetadata, IoFailure>,
    inode: Inode,
    step: QuarantineStep,
)
    requires
        call_ensures(socket::remove_expected_entry, (captured, inode), step),
    ensures
        step is Unlink <==> (captured matches Ok(meta) && is_a_socket(meta) && meta.inode == inode),
        captured is Ok && !(step is Unlink) ==> step is Restore,
        captured matches Err(failure) ==> step == QuarantineStep::RestoreAndFail(failure),
{
}

/// A name for what is put aside is tried sixty-four times.
pub proof fn names_are_tried_so_often(
    attempt: u32,
    renamed: Result<(), IoFailure>,
    step: CaptureStep,
)
    requires
        call_ensures(socket::capture_entry, (attempt, renamed), step),
    ensures
        step is Captured <==> renamed is Ok,
        step is Retry <==> (renamed matches Err(failure) && failure.errno == Some(17i32) && attempt
            < 63),
        step is Missing <==> (renamed matches Err(failure) && failure.errno == Some(2i32)),
{
}

/// The lock stands beside the socket, under its name and a suffix.
pub proof fn the_lock_stands_beside(name: &str, lock: String)
    requires
        call_ensures(socket::socket_lock_name, (name, ), lock),
    ensures
        lock@ == name@ + ".lock"@,
{
}

/// What is put aside has a name that tells the process, the file and the attempt.
pub proof fn names_tell_the_attempt(process: u32, inode: Inode, sequence: u64, name: String)
    requires
        call_ensures(socket::quarantine_name, (process, inode, sequence), name),
    ensures
        name@ == ".wiilandd-quarantine-"@ + text::hexadecimal(process as nat) + "-"@
            + text::hexadecimal(inode.device as nat) + "-"@ + text::hexadecimal(
            inode.number as nat,
        ) + "-"@ + text::hexadecimal(sequence as nat),
{
}

/// Cleaning up what was replaced is an error, whether or not it could be put back.
pub proof fn replacements_are_errors(restored: Result<(), IoFailure>, failure: IoFailure)
    requires
        call_ensures(socket::restored_replacement, (restored, ), failure),
    ensures
        failure.kind is AddrInUse,
        restored is Ok ==> failure.message@
            == "IPC socket entry changed during cleanup; replacement was restored"@,
{
}

} // verus!
