//! Decisions of private socket ownership: what may be bound, locked, replaced and removed.
use crate::failure::{IoFailure, IoKind};
use crate::text;
use vstd::prelude::*;
use vstd::string::*;

verus! {

/// The bits of a mode that tell the file type.
pub const S_IFMT: u32 = 0o170000;

/// The type of a socket.
pub const S_IFSOCK: u32 = 0o140000;

/// The type of a regular file.
pub const S_IFREG: u32 = 0o100000;

/// The type of a directory.
pub const S_IFDIR: u32 = 0o040000;

/// The bits of a mode that tell the permissions.
pub const PERMISSIONS: u32 = 0o777;

/// No such entry.
pub const ENOENT: i32 = 2;

/// The entry exists.
pub const EEXIST: i32 = 17;

/// The connection was reset.
pub const ECONNRESET: i32 = 104;

/// The socket is not connected.
pub const ENOTCONN: i32 = 107;

/// The connection was refused.
pub const ECONNREFUSED: i32 = 111;

/// How many names are tried for a quarantined entry.
pub const QUARANTINE_ATTEMPTS: u32 = 64;

/// What identifies a file: its device and its number there.
#[derive(Clone, Copy, Debug, PartialEq, Eq, Structural, Hash)]
pub struct Inode {
    pub device: u64,
    pub number: u64,
}

/// What is known of a directory entry.
#[derive(Clone, Copy, Debug, PartialEq, Eq, Structural, Hash)]
pub struct EntryMetadata {
    pub inode: Inode,
    pub mode: u32,
    pub uid: u32,
}

impl EntryMetadata {
    /// Whether an entry has a file type.
    pub open spec fn has_type(self, kind: u32) -> bool {
        self.mode & S_IFMT == kind
    }

    /// Whether an entry has exactly these permissions.
    pub open spec fn has_permissions(self, permissions: u32) -> bool {
        self.mode & PERMISSIONS == permissions
    }

    /// Whether the entry is a socket.
    pub fn is_socket(self) -> (r: bool)
        ensures
            r == self.has_type(S_IFSOCK),
    {
        self.mode & S_IFMT == S_IFSOCK
    }
}

fn fail(kind: IoKind, what: &str, problem: &str) -> (failure: IoFailure)
    ensures
        failure.is(kind, what@ + problem@),
{
    let mut message = what.to_owned();
    message.append(problem);
    IoFailure { kind, errno: None, message }
}

/// Whether a failure says that something is not owned by the daemon's user.
pub open spec fn is_foreign(failure: IoFailure, what: Seq<char>) -> bool {
    failure.is(IoKind::PermissionDenied, what + " is not owned by effective uid"@)
}

/// Accepts only what the daemon's user owns.
pub fn ensure_entry_owner(meta: EntryMetadata, what: &str, euid: u32) -> (result: Result<
    (),
    IoFailure,
>)
    ensures
        match result {
            Ok(()) => meta.uid == euid,
            Err(failure) => meta.uid != euid && is_foreign(failure, what@),
        },
{
    if meta.uid != euid {
        return Err(fail(IoKind::PermissionDenied, what, " is not owned by effective uid"));
    }
    Ok(())
}

/// Whether an entry is a directory that only the daemon's user can use.
pub open spec fn is_private_directory(meta: EntryMetadata, euid: u32) -> bool {
    meta.has_type(S_IFDIR) && meta.uid == euid && meta.has_permissions(0o700)
}

/// Whether a failure says why an entry is no private directory: its type, else its owner, else its
/// permissions.
pub open spec fn tells_why_not_private(
    failure: IoFailure,
    meta: EntryMetadata,
    what: Seq<char>,
    euid: u32,
) -> bool {
    if !meta.has_type(S_IFDIR) {
        failure.is(IoKind::NotADirectory, what + " is not a directory"@)
    } else if meta.uid != euid {
        is_foreign(failure, what)
    } else {
        failure.is(IoKind::PermissionDenied, what + " is not mode 0700"@)
    }
}

/// Accepts only a directory that only the daemon's user can use.
pub fn validate_private_directory(meta: EntryMetadata, what: &str, euid: u32) -> (result: Result<
    (),
    IoFailure,
>)
    ensures
        match result {
            Ok(()) => is_private_directory(meta, euid),
            Err(failure) => !is_private_directory(meta, euid) && tells_why_not_private(
                failure,
                meta,
                what@,
                euid,
            ),
        },
{
    if meta.mode & S_IFMT != S_IFDIR {
        return Err(fail(IoKind::NotADirectory, what, " is not a directory"));
    }
    if let Err(failure) = ensure_entry_owner(meta, what, euid) {
        return Err(failure);
    }
    if meta.mode & PERMISSIONS != 0o700 {
        return Err(fail(IoKind::PermissionDenied, what, " is not mode 0700"));
    }
    Ok(())
}

/// Whether a failed connection means that nobody serves the socket any more.
pub open spec fn is_stale(failure: IoFailure) -> bool {
    failure.errno == Some(ECONNREFUSED) || failure.errno == Some(ENOENT) || failure.errno == Some(
        ECONNRESET,
    ) || failure.errno == Some(ENOTCONN)
}

/// Whether a failed connection means that nobody serves the socket any more.
pub fn is_stale_connect_error(failure: &IoFailure) -> (r: bool)
    ensures
        r == is_stale(*failure),
{
    match failure.errno {
        Some(errno) => errno == ECONNREFUSED || errno == ENOENT || errno == ECONNRESET || errno
            == ENOTCONN,
        None => false,
    }
}

/// The name of the lock that belongs to a socket.
pub fn socket_lock_name(name: &str) -> (lock: String)
    ensures
        lock@ == name@ + ".lock"@,
{
    let mut lock = name.to_owned();
    lock.append(".lock");
    lock
}

/// The name under which an entry waits to be removed.
pub open spec fn quarantine(process: u32, inode: Inode, sequence: u64) -> Seq<char> {
    ".wiilandd-quarantine-"@ + text::hexadecimal(process as nat) + "-"@ + text::hexadecimal(
        inode.device as nat,
    ) + "-"@ + text::hexadecimal(inode.number as nat) + "-"@ + text::hexadecimal(sequence as nat)
}

/// The name under which an entry waits to be removed.
pub fn quarantine_name(process: u32, inode: Inode, sequence: u64) -> (name: String)
    ensures
        name@ == quarantine(process, inode, sequence),
{
    let mut name = ".wiilandd-quarantine-".to_owned();
    text::append_hex(&mut name, process as u64);
    name.append("-");
    text::append_hex(&mut name, inode.device);
    name.append("-");
    text::append_hex(&mut name, inode.number);
    name.append("-");
    text::append_hex(&mut name, sequence);
    name
}

/// What the preparation of the socket's directory does next.
#[derive(Debug)]
pub enum ParentAction {
    /// Look at the directory above.
    InspectGrandparent,
    /// Make the directory, for the daemon's user only.
    Create,
    /// Look at the directory again.
    InspectAgain,
    /// The directory can be used.
    Ready,
    Fail(IoFailure),
}

/// What the preparation of the socket's directory has found.
#[derive(Debug)]
pub enum ParentEvent {
    Inspected(Result<EntryMetadata, IoFailure>),
    GrandparentInspected(Result<EntryMetadata, IoFailure>),
    Created(Result<(), IoFailure>),
    InspectedAgain(Result<EntryMetadata, IoFailure>),
}

/// Whether an action accepts a private directory and refuses any other.
pub open spec fn judges(
    action: ParentAction,
    accept: ParentAction,
    meta: EntryMetadata,
    what: Seq<char>,
    euid: u32,
) -> bool {
    if is_private_directory(meta, euid) {
        action == accept
    } else {
        action matches ParentAction::Fail(failure) && tells_why_not_private(
            failure,
            meta,
            what,
            euid,
        )
    }
}

/// Prepares the socket's directory. One that exists must be private; one that is missing is made
/// only below a private directory, and must be private afterwards, whoever made it.
pub fn ensure_private_parent(event: ParentEvent, euid: u32) -> (action: ParentAction)
    ensures
        match event {
            ParentEvent::Inspected(Ok(meta)) => judges(
                action,
                ParentAction::Ready,
                meta,
                "IPC socket parent"@,
                euid,
            ),
            ParentEvent::Inspected(Err(failure)) => action == (if failure.kind is NotFound {
                ParentAction::InspectGrandparent
            } else {
                ParentAction::Fail(failure)
            }),
            ParentEvent::GrandparentInspected(Ok(meta)) => judges(
                action,
                ParentAction::Create,
                meta,
                "IPC socket grandparent"@,
                euid,
            ),
            ParentEvent::GrandparentInspected(Err(failure)) => action == ParentAction::Fail(
                failure,
            ),
            ParentEvent::Created(Ok(())) => action == ParentAction::InspectAgain,
            ParentEvent::Created(Err(failure)) => action == (if failure.kind is AlreadyExists {
                ParentAction::InspectAgain
            } else {
                ParentAction::Fail(failure)
            }),
            ParentEvent::InspectedAgain(Ok(meta)) => judges(
                action,
                ParentAction::Ready,
                meta,
                "IPC socket parent"@,
                euid,
            ),
            ParentEvent::InspectedAgain(Err(failure)) => action == ParentAction::Fail(failure),
        },
{
    match event {
        ParentEvent::Inspected(Ok(meta)) => match validate_private_directory(
            meta,
            "IPC socket parent",
            euid,
        ) {
            Ok(()) => ParentAction::Ready,
            Err(failure) => ParentAction::Fail(failure),
        },
        ParentEvent::Inspected(Err(failure)) => {
            if failure.kind == IoKind::NotFound {
                ParentAction::InspectGrandparent
            } else {
                ParentAction::Fail(failure)
            }
        },
        ParentEvent::GrandparentInspected(Ok(meta)) => match validate_private_directory(
            meta,
            "IPC socket grandparent",
            euid,
        ) {
            Ok(()) => ParentAction::Create,
            Err(failure) => ParentAction::Fail(failure),
        },
        ParentEvent::GrandparentInspected(Err(failure)) => ParentAction::Fail(failure),
        ParentEvent::Created(Ok(())) => ParentAction::InspectAgain,
        ParentEvent::Created(Err(failure)) => {
            if failure.kind == IoKind::AlreadyExists {
                ParentAction::InspectAgain
            } else {
                ParentAction::Fail(failure)
            }
        },
        ParentEvent::InspectedAgain(Ok(meta)) => match validate_private_directory(
            meta,
            "IPC socket parent",
            euid,
        ) {
            Ok(()) => ParentAction::Ready,
            Err(failure) => ParentAction::Fail(failure),
        },
        ParentEvent::InspectedAgain(Err(failure)) => ParentAction::Fail(failure),
    }
}

/// What the acquisition of the lock does next.
#[derive(Debug)]
pub enum LockAction {
    /// Open the lock that exists.
    OpenExisting,
    /// Look at the lock that was opened.
    Inspect { created: bool },
    /// Give the lock to the daemon's user only.
    SetMode,
    /// Look at the lock again.
    InspectAgain,
    /// Take the lock on this file, without waiting.
    Flock(Inode),
    /// Look at what the lock's name stands for now.
    InspectName(Inode),
    /// The lock is held.
    Held,
    Fail(IoFailure),
}

/// What the acquisition of the lock has found.
#[derive(Debug)]
#[allow(inconsistent_fields)]
pub enum LockEvent {
    /// The attempt to make the lock.
    Created(Result<(), IoFailure>),
    /// The attempt to open the lock that exists.
    Opened(Result<(), IoFailure>),
    Inspected { created: bool, meta: Result<EntryMetadata, IoFailure> },
    ModeSet(Result<(), IoFailure>),
    InspectedAgain(Result<EntryMetadata, IoFailure>),
    Flocked { inode: Inode, result: Result<(), IoFailure> },
    NameInspected { inode: Inode, meta: Result<EntryMetadata, IoFailure> },
}

/// Takes the startup lock. It must be a regular file of the daemon's user with its own permissions,
/// and its name must still stand for it once the lock is held.
pub fn acquire_socket_lock(event: LockEvent, euid: u32) -> (action: LockAction)
    ensures
        match event {
            LockEvent::Created(Ok(())) => action == (LockAction::Inspect { created: true }),
            LockEvent::Created(Err(failure)) => action == (if failure.kind is AlreadyExists {
                LockAction::OpenExisting
            } else {
                LockAction::Fail(failure)
            }),
            LockEvent::Opened(Ok(())) => action == (LockAction::Inspect { created: false }),
            LockEvent::Opened(Err(failure)) => action == LockAction::Fail(failure),
            LockEvent::Inspected { created, meta: Ok(meta) } => if !meta.has_type(S_IFREG) {
                action matches LockAction::Fail(failure) && failure.is(
                    IoKind::InvalidData,
                    "IPC socket lock is not a regular file"@,
                )
            } else if meta.uid != euid {
                action matches LockAction::Fail(failure) && is_foreign(failure, "IPC socket lock"@)
            } else if created {
                action == LockAction::SetMode
            } else {
                action == LockAction::InspectAgain
            },
            LockEvent::Inspected { meta: Err(failure), .. } => action == LockAction::Fail(failure),
            LockEvent::ModeSet(Ok(())) => action == LockAction::InspectAgain,
            LockEvent::ModeSet(Err(failure)) => action == LockAction::Fail(failure),
            LockEvent::InspectedAgain(Ok(meta)) => if meta.has_permissions(0o600) {
                action == LockAction::Flock(meta.inode)
            } else {
                action matches LockAction::Fail(failure) && failure.is(
                    IoKind::PermissionDenied,
                    "IPC socket lock is not mode 0600"@,
                )
            },
            LockEvent::InspectedAgain(Err(failure)) => action == LockAction::Fail(failure),
            LockEvent::Flocked { inode, result: Ok(()) } => action == LockAction::InspectName(
                inode,
            ),
            LockEvent::Flocked { result: Err(failure), .. } => if failure.kind is WouldBlock {
                action matches LockAction::Fail(held) && held.is(
                    IoKind::AddrInUse,
                    "IPC socket startup lock is already held"@,
                )
            } else {
                action == LockAction::Fail(failure)
            },
            LockEvent::NameInspected { inode, meta: Ok(named) } => if named.inode == inode
                && named.has_type(S_IFREG) {
                action == LockAction::Held
            } else {
                action matches LockAction::Fail(failure) && failure.is(
                    IoKind::AddrInUse,
                    "IPC socket lock changed during acquisition"@,
                )
            },
            LockEvent::NameInspected { meta: Err(failure), .. } => action == LockAction::Fail(
                failure,
            ),
        },
{
    match event {
        LockEvent::Created(Ok(())) => LockAction::Inspect { created: true },
        LockEvent::Created(Err(failure)) => {
            if failure.kind == IoKind::AlreadyExists {
                LockAction::OpenExisting
            } else {
                LockAction::Fail(failure)
            }
        },
        LockEvent::Opened(Ok(())) => LockAction::Inspect { created: false },
        LockEvent::Opened(Err(failure)) => LockAction::Fail(failure),
        LockEvent::Inspected { created, meta: Ok(meta) } => {
            if meta.mode & S_IFMT != S_IFREG {
                return LockAction::Fail(
                    IoFailure::new(IoKind::InvalidData, "IPC socket lock is not a regular file"),
                );
            }
            if let Err(failure) = ensure_entry_owner(meta, "IPC socket lock", euid) {
                return LockAction::Fail(failure);
            }
            if created {
                LockAction::SetMode
            } else {
                LockAction::InspectAgain
            }
        },
        LockEvent::Inspected { meta: Err(failure), .. } => LockAction::Fail(failure),
        LockEvent::ModeSet(Ok(())) => LockAction::InspectAgain,
        LockEvent::ModeSet(Err(failure)) => LockAction::Fail(failure),
        LockEvent::InspectedAgain(Ok(meta)) => {
            if meta.mode & PERMISSIONS != 0o600 {
                return LockAction::Fail(
                    IoFailure::new(IoKind::PermissionDenied, "IPC socket lock is not mode 0600"),
                );
            }
            LockAction::Flock(meta.inode)
        },
        LockEvent::InspectedAgain(Err(failure)) => LockAction::Fail(failure),
        LockEvent::Flocked { inode, result: Ok(()) } => LockAction::InspectName(inode),
        LockEvent::Flocked { result: Err(failure), .. } => {
            if failure.kind == IoKind::WouldBlock {
                return LockAction::Fail(
                    IoFailure::new(IoKind::AddrInUse, "IPC socket startup lock is already held"),
                );
            }
            LockAction::Fail(failure)
        },
        LockEvent::NameInspected { inode, meta: Ok(named) } => {
            if named.inode != inode || named.mode & S_IFMT != S_IFREG {
                return LockAction::Fail(
                    IoFailure::new(
                        IoKind::AddrInUse,
                        "IPC socket lock changed during acquisition",
                    ),
                );
            }
            LockAction::Held
        },
        LockEvent::NameInspected { meta: Err(failure), .. } => LockAction::Fail(failure),
    }
}

/// What binding does next.
#[derive(Debug)]
pub enum BindAction {
    /// Prepare the socket's directory.
    PrepareParent,
    /// Open the directory and hold on to it.
    PinParent,
    /// Take the startup lock.
    Lock,
    /// Look at what stands under the socket's name.
    InspectEntry,
    /// Try to connect to the socket that stands there.
    Probe(Inode),
    /// Remove the socket that nobody serves.
    RemoveStale(Inode),
    /// Bind the listener.
    Bind,
    /// Look at what was bound.
    InspectBound,
    /// Run the caller's part of the setup.
    RunHook(Inode),
    /// Give the socket to the daemon's user only.
    SetUp(Inode),
    /// Check that the directory's path still stands for it.
    Verify(Inode),
    /// Serve.
    Serve(Inode),
    Fail(IoFailure),
    /// Remove what was bound, and fail.
    RemoveAndFail(Inode, IoFailure),
}

/// What binding has found.
#[derive(Debug)]
#[allow(inconsistent_fields)]
pub enum BindEvent {
    /// Whether the path has a file name.
    Named(bool),
    ParentPrepared(Result<(), IoFailure>),
    ParentPinned(Result<EntryMetadata, IoFailure>),
    Locked(Result<(), IoFailure>),
    EntryInspected(Result<EntryMetadata, IoFailure>),
    Probed { inode: Inode, result: Result<(), IoFailure> },
    StaleRemoved(Result<(), IoFailure>),
    Bound(Result<(), IoFailure>),
    BoundInspected(Result<EntryMetadata, IoFailure>),
    HookRun { inode: Inode, result: Result<(), IoFailure> },
    SetUp { inode: Inode, result: Result<(), IoFailure> },
    Verified { inode: Inode, result: Result<(), IoFailure> },
}

/// Which action follows an event of binding.
pub open spec fn binding(event: BindEvent, euid: u32, action: BindAction) -> bool {
    match event {
        BindEvent::Named(named) => if named {
            action == BindAction::PrepareParent
        } else {
            action matches BindAction::Fail(failure) && failure.is(
                IoKind::InvalidInput,
                "IPC socket path has no file name"@,
            )
        },
        BindEvent::ParentPrepared(Ok(())) => action == BindAction::PinParent,
        BindEvent::ParentPrepared(Err(failure)) => action == BindAction::Fail(failure),
        BindEvent::ParentPinned(Ok(meta)) => if is_private_directory(meta, euid) {
            action == BindAction::Lock
        } else {
            action matches BindAction::Fail(failure) && tells_why_not_private(
                failure,
                meta,
                "IPC socket parent"@,
                euid,
            )
        },
        BindEvent::ParentPinned(Err(failure)) => action == BindAction::Fail(failure),
        BindEvent::Locked(Ok(())) => action == BindAction::InspectEntry,
        BindEvent::Locked(Err(failure)) => action == BindAction::Fail(failure),
        BindEvent::EntryInspected(Ok(meta)) => if !meta.has_type(S_IFSOCK) {
            action matches BindAction::Fail(failure) && failure.is(
                IoKind::AlreadyExists,
                "IPC path is not a socket"@,
            )
        } else if meta.uid != euid {
            action matches BindAction::Fail(failure) && is_foreign(failure, "IPC stale socket"@)
        } else {
            action == BindAction::Probe(meta.inode)
        },
        BindEvent::EntryInspected(Err(failure)) => action == (if failure.kind is NotFound {
            BindAction::Bind
        } else {
            BindAction::Fail(failure)
        }),
        BindEvent::Probed { result: Ok(()), .. } => action matches BindAction::Fail(failure)
            && failure.is(IoKind::AddrInUse, "IPC socket is already in use"@),
        BindEvent::Probed { inode, result: Err(failure) } => action == (if is_stale(failure) {
            BindAction::RemoveStale(inode)
        } else {
            BindAction::Fail(failure)
        }),
        BindEvent::StaleRemoved(Ok(())) => action == BindAction::Bind,
        BindEvent::StaleRemoved(Err(failure)) => action == BindAction::Fail(failure),
        BindEvent::Bound(Ok(())) => action == BindAction::InspectBound,
        BindEvent::Bound(Err(failure)) => action == BindAction::Fail(failure),
        BindEvent::BoundInspected(Ok(meta)) => if meta.has_type(S_IFSOCK) {
            action == BindAction::RunHook(meta.inode)
        } else {
            action matches BindAction::Fail(failure) && failure.is(
                IoKind::AddrInUse,
                "IPC socket path changed during bind"@,
            )
        },
        BindEvent::BoundInspected(Err(failure)) => action == BindAction::Fail(failure),
        BindEvent::HookRun { inode, result: Ok(()) } => action == BindAction::SetUp(inode),
        BindEvent::HookRun { inode, result: Err(failure) } => action
            == BindAction::RemoveAndFail(inode, failure),
        BindEvent::SetUp { inode, result: Ok(()) } => action == BindAction::Verify(inode),
        BindEvent::SetUp { inode, result: Err(failure) } => action
            == BindAction::RemoveAndFail(inode, failure),
        BindEvent::Verified { inode, result: Ok(()) } => action == BindAction::Serve(inode),
        BindEvent::Verified { inode, result: Err(failure) } => action
            == BindAction::RemoveAndFail(inode, failure),
    }
}

/// Binds the socket. Nothing but a socket of the daemon's user that nobody serves is ever replaced,
/// and whatever fails once the socket is bound removes what was bound, and nothing else.
pub fn bind_with_hooks(event: BindEvent, euid: u32) -> (action: BindAction)
    ensures
        binding(event, euid, action),
{
    match event {
        BindEvent::Named(named) => {
            if !named {
                return BindAction::Fail(
                    IoFailure::new(IoKind::InvalidInput, "IPC socket path has no file name"),
                );
            }
            BindAction::PrepareParent
        },
        BindEvent::ParentPrepared(Ok(())) => BindAction::PinParent,
        BindEvent::ParentPrepared(Err(failure)) => BindAction::Fail(failure),
        BindEvent::ParentPinned(Ok(meta)) => match validate_private_directory(
            meta,
            "IPC socket parent",
            euid,
        ) {
            Ok(()) => BindAction::Lock,
            Err(failure) => BindAction::Fail(failure),
        },
        BindEvent::ParentPinned(Err(failure)) => BindAction::Fail(failure),
        BindEvent::Locked(Ok(())) => BindAction::InspectEntry,
        BindEvent::Locked(Err(failure)) => BindAction::Fail(failure),
        BindEvent::EntryInspected(Ok(meta)) => {
            if !meta.is_socket() {
                return BindAction::Fail(
                    IoFailure::new(IoKind::AlreadyExists, "IPC path is not a socket"),
                );
            }
            match ensure_entry_owner(meta, "IPC stale socket", euid) {
                Ok(()) => BindAction::Probe(meta.inode),
                Err(failure) => BindAction::Fail(failure),
            }
        },
        BindEvent::EntryInspected(Err(failure)) => {
            if failure.kind == IoKind::NotFound {
                BindAction::Bind
            } else {
                BindAction::Fail(failure)
            }
        },
        BindEvent::Probed { result: Ok(()), .. } => BindAction::Fail(
            IoFailure::new(IoKind::AddrInUse, "IPC socket is already in use"),
        ),
        BindEvent::Probed { inode, result: Err(failure) } => {
            if is_stale_connect_error(&failure) {
                BindAction::RemoveStale(inode)
            } else {
                BindAction::Fail(failure)
            }
        },
        BindEvent::StaleRemoved(Ok(())) => BindAction::Bind,
        BindEvent::StaleRemoved(Err(failure)) => BindAction::Fail(failure),
        BindEvent::Bound(Ok(())) => BindAction::InspectBound,
        BindEvent::Bound(Err(failure)) => BindAction::Fail(failure),
        BindEvent::BoundInspected(Ok(meta)) => {
            if !meta.is_socket() {
                return BindAction::Fail(
                    IoFailure::new(IoKind::AddrInUse, "IPC socket path changed during bind"),
                );
            }
            BindAction::RunHook(meta.inode)
        },
        BindEvent::BoundInspected(Err(failure)) => BindAction::Fail(failure),
        BindEvent::HookRun { inode, result: Ok(()) } => BindAction::SetUp(inode),
        BindEvent::HookRun { inode, result: Err(failure) } => BindAction::RemoveAndFail(
            inode,
            failure,
        ),
        BindEvent::SetUp { inode, result: Ok(()) } => BindAction::Verify(inode),
        BindEvent::SetUp { inode, result: Err(failure) } => BindAction::RemoveAndFail(
            inode,
            failure,
        ),
        BindEvent::Verified { inode, result: Ok(()) } => BindAction::Serve(inode),
        BindEvent::Verified { inode, result: Err(failure) } => BindAction::RemoveAndFail(
            inode,
            failure,
        ),
    }
}

/// A socket is only ever removed to make room where connecting to it showed that nobody serves it.
pub proof fn only_dead_sockets_are_replaced(event: BindEvent, euid: u32, inode: Inode)
    requires
        binding(event, euid, BindAction::RemoveStale(inode)),
    ensures
        event matches BindEvent::Probed { inode: probed, result: Err(failure) } && probed == inode
            && is_stale(failure),
{
}

/// Only a socket of the daemon's user is ever probed, and so only such a one is ever replaced.
pub proof fn only_own_sockets_are_probed(event: BindEvent, euid: u32, inode: Inode)
    requires
        binding(event, euid, BindAction::Probe(inode)),
    ensures
        event matches BindEvent::EntryInspected(Ok(meta)) && meta.inode == inode && meta.uid == euid
            && meta.has_type(S_IFSOCK),
{
}

/// Whatever fails after the socket was bound and looked at removes exactly what was bound.
pub proof fn failed_setup_removes_what_was_bound(
    inode: Inode,
    failure: IoFailure,
    euid: u32,
    action: BindAction,
)
    ensures
        binding(BindEvent::HookRun { inode, result: Err(failure) }, euid, action) ==> action
            == BindAction::RemoveAndFail(inode, failure),
        binding(BindEvent::SetUp { inode, result: Err(failure) }, euid, action) ==> action
            == BindAction::RemoveAndFail(inode, failure),
        binding(BindEvent::Verified { inode, result: Err(failure) }, euid, action) ==> action
            == BindAction::RemoveAndFail(inode, failure),
{
}

/// Serving starts only with a socket whose directory was checked last.
pub proof fn serving_needs_verification(event: BindEvent, euid: u32, inode: Inode)
    requires
        binding(event, euid, BindAction::Serve(inode)),
    ensures
        event matches BindEvent::Verified { inode: verified, result: Ok(_) } && verified == inode,
{
}

/// Checks the socket that was bound before its permissions are changed: it belongs to the daemon's
/// user and is the one that was bound.
pub fn check_bound_socket(meta: EntryMetadata, inode: Inode, euid: u32) -> (result: Result<
    (),
    IoFailure,
>)
    ensures
        if meta.uid != euid {
            result matches Err(failure) && is_foreign(failure, "IPC socket"@)
        } else if !meta.has_type(S_IFSOCK) || meta.inode != inode {
            result matches Err(failure) && failure.is(
                IoKind::AddrInUse,
                "IPC socket path changed during setup"@,
            )
        } else {
            result == Ok::<(), IoFailure>(())
        },
{
    if let Err(failure) = ensure_entry_owner(meta, "IPC socket", euid) {
        return Err(failure);
    }
    if !meta.is_socket() || meta.inode != inode {
        return Err(IoFailure::new(IoKind::AddrInUse, "IPC socket path changed during setup"));
    }
    Ok(())
}

/// Checks the socket after its permissions were changed: the name still stands for it, and only the
/// daemon's user can use it.
pub fn setup_bound_socket(meta: EntryMetadata, inode: Inode) -> (result: Result<(), IoFailure>)
    ensures
        if meta.has_type(S_IFSOCK) && meta.inode == inode && meta.has_permissions(0o600) {
            result == Ok::<(), IoFailure>(())
        } else {
            result matches Err(failure) && failure.is(
                IoKind::AddrInUse,
                "IPC socket path changed during setup"@,
            )
        },
{
    if !meta.is_socket() || meta.inode != inode || meta.mode & PERMISSIONS != 0o600 {
        return Err(IoFailure::new(IoKind::AddrInUse, "IPC socket path changed during setup"));
    }
    Ok(())
}

/// Checks that a directory's path still stands for the directory that was opened.
pub fn verify_public_identity(pinned: Inode, current: Result<Inode, IoFailure>) -> (result: Result<
    (),
    IoFailure,
>)
    ensures
        match current {
            Ok(inode) => if inode == pinned {
                result == Ok::<(), IoFailure>(())
            } else {
                result matches Err(failure) && failure.is(
                    IoKind::AddrInUse,
                    "IPC socket parent changed during bind"@,
                )
            },
            Err(cause) => result matches Err(failure) && failure.is(
                IoKind::AddrInUse,
                "IPC socket parent changed during bind: "@ + cause.message@,
            ),
        },
{
    match current {
        Ok(inode) => {
            if inode != pinned {
                return Err(
                    IoFailure::new(IoKind::AddrInUse, "IPC socket parent changed during bind"),
                );
            }
            Ok(())
        },
        Err(cause) => Err(
            fail(
                IoKind::AddrInUse,
                "IPC socket parent changed during bind: ",
                cause.message.as_str(),
            ),
        ),
    }
}

/// What an attempt to move an entry to its quarantine name leads to.
#[derive(Debug)]
pub enum CaptureStep {
    /// The entry stands under its quarantine name.
    Captured,
    /// The name is taken; try another.
    Retry,
    /// There is no entry.
    Missing,
    Fail(IoFailure),
}

/// What an attempt to move an entry to its quarantine name leads to. A name that is taken is never
/// overwritten: another is tried, and after the last the attempt fails.
pub fn capture_entry(attempt: u32, renamed: Result<(), IoFailure>) -> (step: CaptureStep)
    ensures
        match renamed {
            Ok(()) => step == CaptureStep::Captured,
            Err(failure) => if failure.errno == Some(EEXIST) {
                if attempt + 1 < QUARANTINE_ATTEMPTS {
                    step == CaptureStep::Retry
                } else {
                    step matches CaptureStep::Fail(exhausted) && exhausted.is(
                        IoKind::AlreadyExists,
                        "could not reserve a private IPC cleanup quarantine name"@,
                    )
                }
            } else if failure.errno == Some(ENOENT) {
                step == CaptureStep::Missing
            } else {
                step == CaptureStep::Fail(failure)
            },
        },
{
    match renamed {
        Ok(()) => CaptureStep::Captured,
        Err(failure) => match failure.errno {
            Some(errno) => {
                if errno == EEXIST {
                    if attempt < QUARANTINE_ATTEMPTS - 1 {
                        CaptureStep::Retry
                    } else {
                        CaptureStep::Fail(
                            IoFailure::new(
                                IoKind::AlreadyExists,
                                "could not reserve a private IPC cleanup quarantine name",
                            ),
                        )
                    }
                } else if errno == ENOENT {
                    CaptureStep::Missing
                } else {
                    CaptureStep::Fail(failure)
                }
            },
            None => CaptureStep::Fail(failure),
        },
    }
}

/// What is done with a quarantined entry.
#[derive(Debug)]
pub enum QuarantineStep {
    /// It is the entry that was meant: remove it.
    Unlink,
    /// It is another: put it back, and say so.
    Restore,
    /// It could not be looked at: put it back, and fail with this.
    RestoreAndFail(IoFailure),
}

/// What is done with a quarantined entry: only the socket that was meant is removed.
pub fn remove_expected_entry(captured: Result<EntryMetadata, IoFailure>, inode: Inode) -> (step:
    QuarantineStep)
    ensures
        match captured {
            Ok(meta) => step == (if meta.has_type(S_IFSOCK) && meta.inode == inode {
                QuarantineStep::Unlink
            } else {
                QuarantineStep::Restore
            }),
            Err(failure) => step == QuarantineStep::RestoreAndFail(failure),
        },
{
    match captured {
        Ok(meta) => {
            if !meta.is_socket() || meta.inode != inode {
                QuarantineStep::Restore
            } else {
                QuarantineStep::Unlink
            }
        },
        Err(failure) => QuarantineStep::RestoreAndFail(failure),
    }
}

/// How a cleanup fails that met another entry, depending on whether it could be put back.
pub fn restored_replacement(restored: Result<(), IoFailure>) -> (failure: IoFailure)
    ensures
        match restored {
            Ok(()) => failure.is(
                IoKind::AddrInUse,
                "IPC socket entry changed during cleanup; replacement was restored"@,
            ),
            Err(cause) => failure.is(
                IoKind::AddrInUse,
                "IPC socket entry changed during cleanup; replacement is preserved in quarantine: "@
                    + cause.message@,
            ),
        },
{
    match restored {
        Ok(()) => IoFailure::new(
            IoKind::AddrInUse,
            "IPC socket entry changed during cleanup; replacement was restored",
        ),
        Err(cause) => fail(
            IoKind::AddrInUse,
            "IPC socket entry changed during cleanup; replacement is preserved in quarantine: ",
            cause.message.as_str(),
        ),
    }
}

} // verus!
