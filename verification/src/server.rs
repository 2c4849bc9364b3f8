//! The connections of the daemon: tokens, readiness, deferred commands and notifications.
use crate::connection;
use crate::connection::{Client, FrameStep, MAX_QUEUED_BYTES};
use crate::failure::{IoFailure, IoKind};
use crate::protocol::{Command, Notification, ProtocolError, ResponseResult};
use vstd::prelude::*;

verus! {

/// The token of the listening socket.
pub const LISTENER_TOKEN: u64 = 1;

/// How many clients may be connected.
pub const MAX_CLIENTS: usize = 64;

/// How many connections one turn accepts.
pub const ACCEPT_BUDGET: usize = 8;

/// There is something to read.
pub const POLLIN: i16 = 0x1;

/// There is room to write.
pub const POLLOUT: i16 = 0x4;

/// Something went wrong.
pub const POLLERR: i16 = 0x8;

/// The peer has hung up.
pub const POLLHUP: i16 = 0x10;

/// The descriptor is not open.
pub const POLLNVAL: i16 = 0x20;

/// What is waited for on one connection.
#[derive(Clone, Copy, Debug, PartialEq, Eq, Structural, Hash)]
pub struct PollSource {
    pub token: u64,
    pub events: i16,
}

/// How many tokens there are: every number but zero and the listener's.
pub open spec fn token_count() -> int {
    0xffff_ffff_ffff_fffe
}

/// The token that comes `k` places after `start`, going round.
pub open spec fn token_after(start: u64, k: int) -> u64 {
    (2 + (start - 2 + k) % token_count()) as u64
}

/// Whether a list of connections holds a token.
pub open spec fn holds_token(clients: Seq<(u64, Client)>, token: u64) -> bool {
    exists|i: int| 0 <= i < clients.len() && (#[trigger] clients[i]).0 == token
}

/// What is waited for on a connection: requests unless it is ending, and room to write while there
/// is output or a request that could not be handled yet.
pub open spec fn interest(client: Client) -> i16 {
    let read = if client.ending() {
        0i16
    } else {
        POLLIN
    };
    let write = if !client.immediate_close && (client.output@.len() > 0
        || client.pending_frames@.len() > 0) {
        POLLOUT
    } else {
        0i16
    };
    read | write
}

/// Whether a connection that is served has subscribed to input.
pub open spec fn reads_input(clients: Seq<(u64, Client)>) -> bool {
    exists|i: int|
        0 <= i < clients.len() && (#[trigger] clients[i]).1.negotiated && clients[i].1.input
            && !clients[i].1.ending()
}

/// Whether any of the given events has occurred.
pub open spec fn any(revents: i16, events: i16) -> bool {
    revents & events != 0
}

/// What a ready source leads to.
#[derive(Clone, Copy, Debug, PartialEq, Eq, Structural)]
pub enum ReadyStep {
    /// Accept connections.
    Accept,
    /// Read from the connection.
    Read,
    /// Write to the connection.
    Write,
    /// The connection stays.
    Keep,
    /// The connection ends.
    Remove,
    /// Nothing: the source is gone, or nothing is to be accepted.
    Nothing,
}

/// How far the work on a ready source has come.
#[derive(Clone, Copy, Debug, PartialEq, Eq, Structural)]
pub enum ReadyStage {
    /// Nothing has been done.
    Ready,
    /// The connection was read from. Tells whether it is still there.
    ReadDone(bool),
    /// The connection was written to. Tells whether it is still there.
    WriteDone(bool),
}

/// Whether a connection is read from: it is not ending, and something has arrived or a request
/// still waits.
pub open spec fn is_read(client: Client, revents: i16) -> bool {
    !client.ending() && (any(revents, POLLIN | POLLERR | POLLHUP | POLLNVAL)
        || client.pending_frames@.len() > 0)
}

/// Whether a connection is at its end: at once, or with everything sent.
pub open spec fn is_finished(client: Client) -> bool {
    client.immediate_close || (client.closing && client.output@.len() == 0)
}

/// What follows the reading of a connection: output is written if there is room or something to
/// write.
pub open spec fn after_reading(client: Client, revents: i16) -> ReadyStep {
    if client.immediate_close {
        ReadyStep::Remove
    } else if any(revents, POLLOUT) || client.output@.len() > 0 {
        ReadyStep::Write
    } else if is_finished(client) {
        ReadyStep::Remove
    } else {
        ReadyStep::Keep
    }
}

/// What follows a stage of the work on a connection.
pub open spec fn after_stage(client: Client, revents: i16, stage: ReadyStage) -> ReadyStep {
    match stage {
        ReadyStage::Ready => if is_read(client, revents) {
            ReadyStep::Read
        } else {
            after_reading(client, revents)
        },
        ReadyStage::ReadDone(kept) => if kept {
            after_reading(client, revents)
        } else {
            ReadyStep::Remove
        },
        ReadyStage::WriteDone(kept) => if kept && !is_finished(client) {
            ReadyStep::Keep
        } else {
            ReadyStep::Remove
        },
    }
}

/// What an attempt to accept a connection gave.
#[derive(Debug)]
pub enum AcceptOutcome {
    /// A stream, and whether it could be made not to block.
    Stream { nonblocking: bool },
    WouldBlock,
    Failed(IoFailure),
}

/// What an attempt to accept a connection leads to.
#[derive(Debug)]
pub enum AcceptStep {
    /// Serve the stream under this token.
    Serve(u64),
    /// Close the stream.
    Refuse,
    /// Nobody else waits.
    Done,
    Fail(IoFailure),
}

/// The deferred commands of the first `n` connections, in order.
pub open spec fn deferred(clients: Seq<(u64, Client)>, n: nat) -> Seq<(u64, u64, Command)>
    decreases n,
{
    if n == 0 {
        Seq::empty()
    } else {
        let (token, client) = clients[n - 1];
        let own = if client.ending() {
            Seq::empty()
        } else {
            client.commands@.map_values(|c: (u64, Command)| (token, c.0, c.1))
        };
        deferred(clients, (n - 1) as nat) + own
    }
}

/// The values of a list of texts.
pub open spec fn texts(paths: Seq<String>) -> Seq<Seq<char>> {
    paths.map_values(|path: String| path@)
}

/// The paths that a connection captures. One that is ending captures nothing.
pub open spec fn leases(client: Client) -> Seq<Seq<char>> {
    if client.ending() {
        Seq::empty()
    } else {
        texts(client.capture@)
    }
}

/// The paths that the first `n` connections capture, in order.
pub open spec fn captured(clients: Seq<(u64, Client)>, n: nat) -> Seq<Seq<char>>
    decreases n,
{
    if n == 0 {
        Seq::empty()
    } else {
        captured(clients, (n - 1) as nat) + leases(clients[n - 1].1)
    }
}

/// Whether a connection is sent a notification.
pub open spec fn is_recipient(client: Client, notification: Notification) -> bool {
    client.negotiated && !client.ending() && client.subscribed_to(notification)
}

/// What a notification does to one connection: a recipient gets the frame behind what waits, or is
/// ended at once where there is no room; nobody else is touched.
pub open spec fn notified(
    before: Client,
    after: Client,
    notification: Notification,
    frame: Seq<u8>,
) -> bool {
    if !is_recipient(before, notification) {
        after == before
    } else if connection::unsent(before.output@).len() + frame.len() > MAX_QUEUED_BYTES {
        after == (Client { immediate_close: true, ..before })
    } else {
        &&& after == (Client {
            output: after.output,
            queued_bytes: after.queued_bytes,
            ..before
        })
        &&& after.output@.len() == before.output@.len() + 1
        &&& after.output@.drop_last() == before.output@
        &&& after.output@.last().bytes@ == frame
        &&& after.output@.last().offset == 0
    }
}

/// The connections that are not ended at once.
pub open spec fn survivors(clients: Seq<(u64, Client)>) -> Seq<(u64, Client)>
    decreases clients.len(),
{
    if clients.len() == 0 {
        Seq::empty()
    } else {
        let rest = survivors(clients.drop_last());
        if clients.last().1.immediate_close {
            rest
        } else {
            rest.push(clients.last())
        }
    }
}

/// Whether every connection was notified.
pub open spec fn all_notified(
    before: Seq<(u64, Client)>,
    after: Seq<(u64, Client)>,
    notification: Notification,
    frame: Seq<u8>,
) -> bool {
    &&& after.len() == before.len()
    &&& forall|i: int|
        #![trigger after[i]]
        0 <= i < after.len() ==> after[i].0 == before[i].0 && notified(
            before[i].1,
            after[i].1,
            notification,
            frame,
        )
}

/// The connections of the daemon.
pub struct IpcServer {
    clients: Vec<(u64, Client)>,
    next_token: u64,
}

impl View for IpcServer {
    type V = Seq<(u64, Client)>;

    closed spec fn view(&self) -> Seq<(u64, Client)> {
        self.clients@
    }
}

fn should_keep(client: &Client) -> (r: bool)
    ensures
        r == !client.immediate_close,
{
    !client.immediate_close
}

impl IpcServer {
    /// The token at which the search for the next one starts.
    pub closed spec fn next(self) -> u64 {
        self.next_token
    }

    /// Whether the tokens are distinct and not the listener's, and every connection is well formed.
    pub open spec fn well_formed(self) -> bool {
        &&& self@.len() <= MAX_CLIENTS
        &&& self.next() > LISTENER_TOKEN
        &&& forall|i: int|
            0 <= i < self@.len() ==> (#[trigger] self@[i]).0 > LISTENER_TOKEN
                && self@[i].1.well_formed()
        &&& forall|i: int, j: int|
            0 <= i < j < self@.len() ==> (#[trigger] self@[i]).0 != (#[trigger] self@[j]).0
    }

    /// A server without connections.
    pub fn new() -> (server: IpcServer)
        ensures
            server.well_formed(),
            server@.len() == 0,
            server.next() == 2,
    {
        IpcServer { clients: Vec::new(), next_token: 2 }
    }

    /// How many clients are connected.
    pub fn len(&self) -> (len: usize)
        ensures
            len == self@.len(),
    {
        self.clients.len()
    }

    fn position(&self, token: u64) -> (index: Option<usize>)
        ensures
            match index {
                Some(i) => i < self@.len() && self@[i as int].0 == token && forall|k: int|
                    0 <= k < i ==> (#[trigger] self@[k]).0 != token,
                None => !holds_token(self@, token),
            },
    {
        let mut i: usize = 0;
        while i < self.clients.len()
            invariant
                i <= self.clients.len(),
                forall|k: int| 0 <= k < i ==> (#[trigger] self@[k]).0 != token,
            decreases self.clients.len() - i,
        {
            if self.clients[i].0 == token {
                return Some(i);
            }
            i = i + 1;
        }
        None
    }

    /// Whether a client is connected.
    pub fn contains(&self, token: u64) -> (r: bool)
        ensures
            r == holds_token(self@, token),
    {
        match self.position(token) {
            Some(i) => {
                assert(self@[i as int].0 == token);
                true
            },
            None => false,
        }
    }

    /// A connected client.
    pub fn client(&self, token: u64) -> (client: Option<&Client>)
        ensures
            match client {
                Some(c) => exists|i: int|
                    0 <= i < self@.len() && #[trigger] self@[i] == (token, *c),
                None => !holds_token(self@, token),
            },
    {
        match self.position(token) {
            Some(i) => {
                let entry = &self.clients[i];
                assert(self@[i as int] == (token, entry.1));
                Some(&entry.1)
            },
            None => None,
        }
    }

    /// Whether a token is the first free one, counted from the next.
    pub open spec fn allocates(self, token: u64, after: IpcServer) -> bool {
        &&& token > LISTENER_TOKEN
        &&& !holds_token(self@, token)
        &&& exists|k: int|
            0 <= k && #[trigger] token_after(self.next(), k) == token && after.next()
                == token_after(self.next(), k + 1) && forall|j: int|
                0 <= j < k ==> holds_token(self@, #[trigger] token_after(self.next(), j))
    }

    fn allocate_token(&mut self) -> (token: u64)
        requires
            old(self).well_formed(),
            old(self)@.len() < MAX_CLIENTS,
        ensures
            final(self).well_formed(),
            final(self)@ == old(self)@,
            old(self).allocates(token, *final(self)),
    {
        let ghost start = self.next_token;
        let ghost mut tried: Seq<u64> = Seq::empty();
        let ghost tokens = self@.map_values(|entry: (u64, Client)| entry.0);
        proof {
            lemma_token_step(start, 0);
        }
        loop
            invariant
                self@ == old(self)@,
                start == old(self).next(),
                start > LISTENER_TOKEN,
                old(self).well_formed(),
                self.next_token == token_after(start, tried.len() as int),
                self.next_token > LISTENER_TOKEN,
                tokens == self@.map_values(|entry: (u64, Client)| entry.0),
                tried.no_duplicates(),
                forall|j: int|
                    0 <= j < tried.len() ==> #[trigger] tried[j] == token_after(start, j),
                forall|j: int| 0 <= j < tried.len() ==> tokens.contains(#[trigger] tried[j]),
                tried.len() <= tokens.len(),
            decreases tokens.len() - tried.len(),
        {
            let token: u64 = self.next_token;
            self.next_token = self.next_token.wrapping_add(1);
            if self.next_token == 0 || self.next_token == LISTENER_TOKEN {
                self.next_token = 2;
            }
            proof {
                lemma_token_step(start, tried.len() as int);
            }
            if !self.contains(token) {
                proof {
                    assert(token_after(start, tried.len() as int) == token);
                    assert forall|j: int| 0 <= j < tried.len() implies holds_token(
                        old(self)@,
                        #[trigger] token_after(start, j),
                    ) by {
                        assert(tokens.contains(tried[j]));
                        let i = choose|i: int| 0 <= i < tokens.len() && tokens[i] == tried[j];
                        assert(self@[i].0 == tried[j]);
                    }
                }
                return token;
            }
            proof {
                let i = choose|i: int| 0 <= i < self@.len() && (#[trigger] self@[i]).0 == token;
                assert(tokens[i] == token);
                let more = tried.push(token);
                assert forall|a: int, b: int| 0 <= a < b < more.len() implies more[a]
                    != more[b] by {
                    lemma_tokens_differ(start, a, b);
                }
                assert(more.no_duplicates());
                assert forall|j: int| 0 <= j < more.len() implies tokens.contains(
                    #[trigger] more[j],
                ) by {
                    if j < tried.len() {
                        assert(tokens.contains(tried[j]));
                    }
                }
                lemma_distinct_members_are_few(more, tokens);
                tried = more;
            }
        }
    }

    /// Whether a server is another with one fresh connection more.
    pub open spec fn joined_by(self, before: IpcServer, token: u64) -> bool {
        &&& self@.len() == before@.len() + 1
        &&& self@.drop_last() == before@
        &&& self@.last().0 == token
        &&& self@.last().1.is_fresh()
    }

    /// Takes a new connection, unless as many clients are connected as may be.
    pub fn accept(&mut self) -> (token: Option<u64>)
        requires
            old(self).well_formed(),
        ensures
            final(self).well_formed(),
            match token {
                None => old(self)@.len() >= MAX_CLIENTS && *final(self) == *old(self),
                Some(token) => {
                    &&& old(self)@.len() < MAX_CLIENTS
                    &&& old(self).allocates(token, *final(self))
                    &&& final(self).joined_by(*old(self), token)
                },
            },
    {
        if self.clients.len() >= MAX_CLIENTS {
            return None;
        }
        let token = self.allocate_token();
        let ghost before = self@;
        self.clients.push((token, Client::new()));
        assert(self@.drop_last() =~= before);
        proof {
            assert forall|i: int| 0 <= i < before.len() implies (#[trigger] self@[i]).0
                != token by {
                assert(before[i].0 != token);
            }
        }
        Some(token)
    }

    /// Forgets a connection.
    pub fn remove(&mut self, token: u64)
        requires
            old(self).well_formed(),
        ensures
            final(self).well_formed(),
            final(self).next() == old(self).next(),
            !holds_token(final(self)@, token),
            if holds_token(old(self)@, token) {
                exists|i: int|
                    0 <= i < old(self)@.len()
                        && (#[trigger] old(self)@[i]).0 == token
                        && final(self)@ == old(self)@.remove(i)
            } else {
                final(self)@ == old(self)@
            },
    {
        if let Some(i) = self.position(token) {
            let ghost before = self@;
            let _ = self.clients.remove(i);
            proof {
                assert(before[i as int].0 == token);
                assert(self@ =~= before.remove(i as int));
                assert forall|k: int| 0 <= k < self@.len() implies (#[trigger] self@[k]).0
                    != token by {
                    if k < i {
                        assert(self@[k] == before[k]);
                    } else {
                        assert(self@[k] == before[k + 1]);
                    }
                }
            }
        }
    }

    /// Whether any client receives input reports.
    pub fn has_input_subscribers(&self) -> (r: bool)
        ensures
            r == (exists|i: int|
                0 <= i < self@.len() && (#[trigger] self@[i]).1.negotiated && self@[i].1.input
                    && !self@[i].1.ending()),
            r == reads_input(self@),
    {
        let mut i: usize = 0;
        while i < self.clients.len()
            invariant
                i <= self.clients.len(),
                forall|k: int|
                    0 <= k < i ==> !((#[trigger] self@[k]).1.negotiated && self@[k].1.input
                        && !self@[k].1.ending()),
            decreases self.clients.len() - i,
        {
            let client = &self.clients[i].1;
            if client.negotiated && client.input && !client.closing && !client.immediate_close {
                assert(self@[i as int].1.negotiated);
                return true;
            }
            i = i + 1;
        }
        false
    }

    /// What is waited for: connections on the listener, and what interests each client.
    pub fn poll_sources(&self, sources: &mut Vec<PollSource>)
        ensures
            final(sources)@.len() == self@.len() + 1,
            final(sources)@[0] == (PollSource { token: LISTENER_TOKEN, events: POLLIN }),
            forall|i: int|
                0 <= i < self@.len() ==> #[trigger] final(sources)@[i + 1] == (PollSource {
                    token: self@[i].0,
                    events: interest(self@[i].1),
                }),
    {
        sources.clear();
        sources.push(PollSource { token: LISTENER_TOKEN, events: POLLIN });
        let mut i: usize = 0;
        while i < self.clients.len()
            invariant
                i <= self.clients.len(),
                sources@.len() == i + 1,
                sources@[0] == (PollSource { token: LISTENER_TOKEN, events: POLLIN }),
                forall|k: int|
                    0 <= k < i ==> #[trigger] sources@[k + 1] == (PollSource {
                        token: self@[k].0,
                        events: interest(self@[k].1),
                    }),
            decreases self.clients.len() - i,
        {
            let client = &self.clients[i].1;
            let read: i16 = if client.closing || client.immediate_close {
                0
            } else {
                POLLIN
            };
            let write: i16 = if !client.immediate_close && (client.output.len() > 0
                || client.pending_frames.len() > 0) {
                POLLOUT
            } else {
                0
            };
            sources.push(PollSource { token: self.clients[i].0, events: read | write });
            i = i + 1;
        }
    }

    /// What a ready source leads to, at each stage of the work on it: connections are accepted, or
    /// the connection under the token is read from, then written to, and stays or ends. A listener
    /// that became invalid is a failure.
    pub fn handle_ready(token: u64, client: Option<&Client>, revents: i16, stage: ReadyStage) -> (
        result: Result<ReadyStep, IoFailure>)
        ensures
            if token == LISTENER_TOKEN {
                if any(revents, POLLNVAL) {
                    result matches Err(failure) && failure.is(
                        IoKind::Other,
                        "IPC listener became invalid"@,
                    )
                } else if any(revents, POLLIN | POLLERR | POLLHUP) {
                    result == Ok::<ReadyStep, IoFailure>(ReadyStep::Accept)
                } else {
                    result == Ok::<ReadyStep, IoFailure>(ReadyStep::Nothing)
                }
            } else {
                match client {
                    None => result == Ok::<ReadyStep, IoFailure>(ReadyStep::Nothing),
                    Some(client) => result == Ok::<ReadyStep, IoFailure>(
                        after_stage(*client, revents, stage),
                    ),
                }
            },
    {
        if token == LISTENER_TOKEN {
            if revents & POLLNVAL != 0 {
                return Err(IoFailure::new(IoKind::Other, "IPC listener became invalid"));
            }
            if revents & (POLLIN | POLLERR | POLLHUP) != 0 {
                return Ok(ReadyStep::Accept);
            }
            return Ok(ReadyStep::Nothing);
        }
        let client = match client {
            Some(client) => client,
            None => {
                return Ok(ReadyStep::Nothing);
            },
        };
        let finished = client.immediate_close || (client.closing && client.output.len() == 0);
        let kept = match stage {
            ReadyStage::Ready => {
                if !client.closing && !client.immediate_close && (revents & (POLLIN | POLLERR
                    | POLLHUP | POLLNVAL) != 0 || client.pending_frames.len() > 0) {
                    return Ok(ReadyStep::Read);
                }
                true
            },
            ReadyStage::ReadDone(kept) => kept,
            ReadyStage::WriteDone(kept) => {
                return Ok(
                    if kept && !finished {
                        ReadyStep::Keep
                    } else {
                        ReadyStep::Remove
                    },
                );
            },
        };
        if !kept || client.immediate_close {
            return Ok(ReadyStep::Remove);
        }
        if revents & POLLOUT != 0 || client.output.len() > 0 {
            return Ok(ReadyStep::Write);
        }
        Ok(
            if finished {
                ReadyStep::Remove
            } else {
                ReadyStep::Keep
            },
        )
    }

    /// Takes the outcome of an attempt to accept a connection. A stream that would block, or that
    /// comes when there are as many connections as there may be, is closed.
    pub fn accept_ready(&mut self, outcome: AcceptOutcome) -> (step: AcceptStep)
        requires
            old(self).well_formed(),
        ensures
            final(self).well_formed(),
            match outcome {
                AcceptOutcome::Stream { nonblocking } => if nonblocking && old(self)@.len()
                    < MAX_CLIENTS {
                    step matches AcceptStep::Serve(token) && old(self).allocates(
                        token,
                        *final(self),
                    ) && final(self).joined_by(*old(self), token)
                } else {
                    step == AcceptStep::Refuse && *final(self) == *old(self)
                },
                AcceptOutcome::WouldBlock => step == AcceptStep::Done && *final(self) == *old(self),
                AcceptOutcome::Failed(failure) => step == AcceptStep::Fail(failure)
                    && *final(self) == *old(self),
            },
    {
        match outcome {
            AcceptOutcome::Stream { nonblocking } => {
                if !nonblocking {
                    return AcceptStep::Refuse;
                }
                match self.accept() {
                    Some(token) => AcceptStep::Serve(token),
                    None => AcceptStep::Refuse,
                }
            },
            AcceptOutcome::WouldBlock => AcceptStep::Done,
            AcceptOutcome::Failed(failure) => AcceptStep::Fail(failure),
        }
    }

    /// Takes a connection out, to work on it.
    pub fn take(&mut self, token: u64) -> (client: Option<Client>)
        requires
            old(self).well_formed(),
        ensures
            final(self).well_formed(),
            final(self).next() == old(self).next(),
            match client {
                Some(c) => {
                    &&& c.well_formed()
                    &&& !holds_token(final(self)@, token)
                    &&& exists|i: int|
                        0 <= i < old(self)@.len() && #[trigger] old(self)@[i] == (token, c)
                            && final(self)@ == old(self)@.remove(i)
                },
                None => !holds_token(old(self)@, token) && final(self)@ == old(self)@,
            },
    {
        match self.position(token) {
            Some(i) => {
                let ghost before = self@;
                let (_, client) = self.clients.remove(i);
                proof {
                    assert(before[i as int] == (token, client));
                    assert(self@ =~= before.remove(i as int));
                    assert forall|k: int| 0 <= k < self@.len() implies (#[trigger] self@[k]).0
                        != token by {
                        if k < i {
                            assert(self@[k] == before[k]);
                        } else {
                            assert(self@[k] == before[k + 1]);
                        }
                    }
                }
                Some(client)
            },
            None => None,
        }
    }

    /// Puts a connection back.
    pub fn put(&mut self, token: u64, client: Client)
        requires
            old(self).well_formed(),
            old(self)@.len() < MAX_CLIENTS,
            token > LISTENER_TOKEN,
            !holds_token(old(self)@, token),
            client.well_formed(),
        ensures
            final(self).well_formed(),
            final(self).next() == old(self).next(),
            final(self)@ == old(self)@.push((token, client)),
    {
        let ghost before = self@;
        self.clients.push((token, client));
        proof {
            assert forall|i: int| 0 <= i < before.len() implies (#[trigger] self@[i]).0
                != token by {
                assert(before[i].0 != token);
            }
        }
    }

    /// Takes the commands that the reactor completes from every connection that is not ending.
    pub fn take_commands(&mut self) -> (commands: Vec<(u64, u64, Command)>)
        requires
            old(self).well_formed(),
        ensures
            final(self).well_formed(),
            final(self).next() == old(self).next(),
            commands@ == deferred(old(self)@, old(self)@.len()),
            final(self)@.len() == old(self)@.len(),
            forall|i: int|
                #![trigger final(self)@[i]]
                0 <= i < final(self)@.len() ==> final(self)@[i].0 == old(self)@[i].0
                    && if old(self)@[i].1.ending() {
                    final(self)@[i].1 == old(self)@[i].1
                } else {
                    final(self)@[i].1 == (Client {
                        commands: final(self)@[i].1.commands,
                        ..old(self)@[i].1
                    }) && final(self)@[i].1.commands@.len() == 0
                },
    {
        let mut commands: Vec<(u64, u64, Command)> = Vec::new();
        let count: usize = self.clients.len();
        let ghost before = self@;
        let mut i: usize = 0;
        while i < count
            invariant
                i <= count,
                count == before.len(),
                before == old(self)@,
                old(self).well_formed(),
                self.well_formed(),
                self.next() == old(self).next(),
                self@.len() == count,
                commands@ == deferred(before, i as nat),
                forall|k: int| i <= k < count ==> #[trigger] self@[k] == before[k],
                forall|k: int|
                    #![trigger self@[k]]
                    0 <= k < i ==> self@[k].0 == before[k].0 && if before[k].1.ending() {
                        self@[k].1 == before[k].1
                    } else {
                        self@[k].1 == (Client {
                            commands: self@[k].1.commands,
                            ..before[k].1
                        }) && self@[k].1.commands@.len() == 0
                    },
            decreases count - i,
        {
            let ghost current = self@;
            let (token, mut client) = self.clients.remove(i);
            assert((token, client) == before[i as int]);
            if !client.closing && !client.immediate_close {
                drain_commands(&mut client, token, &mut commands);
            }
            assert(commands@ =~= deferred(before, i as nat + 1));
            self.clients.insert(i, (token, client));
            proof {
                assert forall|k: int| 0 <= k < count && k != i implies #[trigger] self@[k]
                    == current[k] by {}
            }
            i = i + 1;
        }
        commands
    }

    /// Takes the result of a command that the reactor completed, and says what to send. A client
    /// that has gone is sent nothing.
    pub fn complete_command(
        &mut self,
        token: u64,
        id: u64,
        result: Result<ResponseResult, ProtocolError>,
    ) -> (step: Option<FrameStep>)
        requires
            old(self).well_formed(),
        ensures
            final(self).well_formed(),
            final(self).next() == old(self).next(),
            match step {
                None => !holds_token(old(self)@, token) && final(self)@ == old(self)@,
                Some(step) => exists|i: int|
                    0 <= i < old(self)@.len() && (#[trigger] old(self)@[i]).0 == token
                        && completed_at(old(self)@, final(self)@, i, id, result, step),
            },
    {
        match self.position(token) {
            None => None,
            Some(i) => {
                let ghost before = self@;
                let (_, mut client) = self.clients.remove(i);
                assert(before[i as int] == (token, client));
                let step = client.complete_command(id, result);
                self.clients.insert(i, (token, client));
                proof {
                    assert(self@ =~= before.update(i as int, (token, client)));
                    assert(before[i as int].0 == token);
                    assert(completed(before[i as int].1, self@[i as int].1, id, result, step));
                }
                Some(step)
            },
        }
    }

    /// The paths of every device that a client which is not ending captures, once for each client.
    pub fn capture_paths(&self) -> (paths: Vec<String>)
        ensures
            texts(paths@) == captured(self@, self@.len()),
    {
        let mut paths: Vec<String> = Vec::new();
        let mut i: usize = 0;
        assert(texts(paths@) =~= Seq::empty());
        while i < self.clients.len()
            invariant
                i <= self.clients.len(),
                texts(paths@) == captured(self@, i as nat),
            decreases self.clients.len() - i,
        {
            let client = &self.clients[i].1;
            if !client.closing && !client.immediate_close {
                append_paths(&mut paths, &client.capture);
            }
            assert(texts(paths@) =~= captured(self@, i as nat + 1));
            i = i + 1;
        }
        paths
    }

    /// Sends a notification that was encoded to every client that wants it. A client without room
    /// for it is removed, as is any other that ends at once. One that could not be encoded is sent
    /// to nobody.
    pub fn publish(&mut self, notification: &Notification, encoded: Option<Vec<u8>>)
        requires
            old(self).well_formed(),
        ensures
            final(self).well_formed(),
            final(self).next() == old(self).next(),
            match encoded {
                None => final(self)@ == old(self)@,
                Some(frame) => exists|after: Seq<(u64, Client)>| #[trigger]
                    all_notified(old(self)@, after, *notification, frame@) && final(self)@
                        == survivors(after),
            },
    {
        let frame = match encoded {
            Some(frame) => frame,
            None => {
                return;
            },
        };
        let count: usize = self.clients.len();
        let ghost before = self@;
        let mut i: usize = 0;
        while i < count
            invariant
                i <= count,
                count == before.len(),
                before == old(self)@,
                old(self).well_formed(),
                self.well_formed(),
                self.next() == old(self).next(),
                self@.len() == count,
                forall|k: int| i <= k < count ==> #[trigger] self@[k] == before[k],
                forall|k: int|
                    #![trigger self@[k]]
                    0 <= k < i ==> self@[k].0 == before[k].0 && notified(
                        before[k].1,
                        self@[k].1,
                        *notification,
                        frame@,
                    ),
            decreases count - i,
        {
            let ghost current = self@;
            let (token, mut client) = self.clients.remove(i);
            assert((token, client) == before[i as int]);
            let recipient = client.negotiated && !client.closing && !client.immediate_close
                && client.wants(notification);
            if recipient {
                let copy = frame.clone();
                assert(copy@ =~= frame@);
                let ghost output = client.output@;
                let _ = client.queue_encoded(copy);
                assert(client.immediate_close || client.output@.drop_last() =~= output);
            }
            assert(notified(before[i as int].1, client, *notification, frame@));
            self.clients.insert(i, (token, client));
            proof {
                assert forall|k: int| 0 <= k < count && k != i implies #[trigger] self@[k]
                    == current[k] by {}
            }
            i = i + 1;
        }
        let ghost after = self@;
        assert(all_notified(before, after, *notification, frame@));
        self.drop_ended();
    }

    fn drop_ended(&mut self)
        requires
            old(self).well_formed(),
        ensures
            final(self).well_formed(),
            final(self).next() == old(self).next(),
            final(self)@ == survivors(old(self)@),
    {
        let ghost all = self@;
        let mut kept: Vec<(u64, Client)> = Vec::new();
        let ghost mut done: int = 0;
        assert(all.subrange(0, 0) =~= Seq::empty());
        while self.clients.len() > 0
            invariant
                0 <= done <= all.len(),
                all == old(self)@,
                old(self).well_formed(),
                self.next() == old(self).next(),
                self@ == all.subrange(done, all.len() as int),
                kept@ == survivors(all.subrange(0, done)),
            decreases self.clients.len(),
        {
            let entry = self.clients.remove(0);
            assert(entry == all[done]);
            let ghost seen = all.subrange(0, done + 1);
            assert(seen.drop_last() =~= all.subrange(0, done));
            assert(seen.last() == entry);
            if should_keep(&entry.1) {
                kept.push(entry);
            }
            proof {
                done = done + 1;
            }
            assert(self@ =~= all.subrange(done, all.len() as int));
        }
        assert(all.subrange(0, done) =~= all);
        self.clients = kept;
        proof {
            lemma_survivors(all);
            assert forall|i: int| 0 <= i < self@.len() implies (#[trigger] self@[i]).0
                > LISTENER_TOKEN && self@[i].1.well_formed() by {
                let a = survivor_source(all, i);
                assert(self@[i] == all[a]);
            }
            assert forall|i: int, j: int| 0 <= i < j < self@.len() implies (#[trigger] self@[i]).0
                != (#[trigger] self@[j]).0 by {
                let a = survivor_source(all, i);
                let b = survivor_source(all, j);
                assert(self@[i] == all[a]);
                assert(self@[j] == all[b]);
                assert(a < b);
            }
        }
    }
}

/// Whether the connection at a position was told of a completed command: it stays where it is and
/// keeps its token, and no other connection changes.
pub open spec fn completed_at(
    before: Seq<(u64, Client)>,
    after: Seq<(u64, Client)>,
    i: int,
    id: u64,
    result: Result<ResponseResult, ProtocolError>,
    step: FrameStep,
) -> bool {
    &&& after == before.update(i, after[i])
    &&& after[i].0 == before[i].0
    &&& completed(before[i].1, after[i].1, id, result, step)
}

/// What completing a command does to its connection, and what is sent.
pub open spec fn completed(
    before: Client,
    after: Client,
    id: u64,
    result: Result<ResponseResult, ProtocolError>,
    step: FrameStep,
) -> bool {
    &&& after == (Client { capture: after.capture, ..before })
    &&& match result {
        Err(error) => after.capture@ == before.capture@ && step == (FrameStep::Refuse {
            id: Some(id),
            error,
        }),
        Ok(result) => if result matches ResponseResult::CaptureStarted(info)
            && !before.may_capture(info.syspath@) {
            &&& after.capture@ == before.capture@
            &&& step.refuses(
                Some(id),
                crate::protocol::ProtocolErrorCode::InvalidRequest,
                "capture device limit reached"@,
            )
        } else {
            before.leases_after(result, after.capture@) && step == (FrameStep::Respond {
                id,
                result,
            })
        },
    }
}

fn drain_commands(client: &mut Client, token: u64, commands: &mut Vec<(u64, u64, Command)>)
    requires
        old(client).well_formed(),
    ensures
        final(client).well_formed(),
        *final(client) == (Client { commands: final(client).commands, ..*old(client) }),
        final(client).commands@.len() == 0,
        final(commands)@ == old(commands)@ + old(client).commands@.map_values(
            |c: (u64, Command)| (token, c.0, c.1),
        ),
{
    let ghost all = client.commands@;
    let ghost mapped = all.map_values(|c: (u64, Command)| (token, c.0, c.1));
    let ghost mut done: int = 0;
    assert(mapped.subrange(0, 0) =~= Seq::empty());
    while client.commands.len() > 0
        invariant
            0 <= done <= all.len(),
            all == old(client).commands@,
            mapped == all.map_values(|c: (u64, Command)| (token, c.0, c.1)),
            client.well_formed(),
            *client == (Client { commands: client.commands, ..*old(client) }),
            client.commands@ == all.subrange(done, all.len() as int),
            commands@ == old(commands)@ + mapped.subrange(0, done),
        decreases client.commands@.len(),
    {
        match client.commands.pop_front() {
            Some((id, command)) => {
                commands.push((token, id, command));
                assert(mapped.subrange(0, done + 1) =~= mapped.subrange(0, done).push(
                    mapped[done],
                ));
                proof {
                    done = done + 1;
                }
                assert(client.commands@ =~= all.subrange(done, all.len() as int));
                assert(commands@ =~= old(commands)@ + mapped.subrange(0, done));
            },
            None => {},
        }
    }
    assert(mapped.subrange(0, done) =~= mapped);
}

fn append_paths(paths: &mut Vec<String>, more: &Vec<String>)
    ensures
        texts(final(paths)@) == texts(old(paths)@) + texts(more@),
{
    let mut i: usize = 0;
    while i < more.len()
        invariant
            i <= more.len(),
            texts(paths@) == texts(old(paths)@) + texts(more@).subrange(0, i as int),
        decreases more.len() - i,
    {
        let ghost before = paths@;
        paths.push(more[i].clone());
        assert(texts(paths@) =~= texts(before).push(more@[i as int]@));
        assert(texts(more@).subrange(0, i + 1) =~= texts(more@).subrange(0, i as int).push(
            more@[i as int]@,
        ));
        i = i + 1;
    }
    assert(texts(more@).subrange(0, i as int) =~= texts(more@));
}

proof fn lemma_token_step(start: u64, k: int)
    requires
        start > LISTENER_TOKEN,
        0 <= k,
    ensures
        token_after(start, k) > LISTENER_TOKEN,
        token_after(start, 0) == start,
        token_after(start, k + 1) == (if token_after(start, k) == u64::MAX {
            2u64
        } else {
            (token_after(start, k) + 1) as u64
        }),
{
    let m = token_count();
    let a = start - 2 + k;
    assert((start - 2) % m == start - 2) by (nonlinear_arith)
        requires
            0 <= start - 2 < m,
            m == 0xffff_ffff_ffff_fffeint,
    ;
    assert((a + 1) % m == (if a % m == m - 1 {
        0
    } else {
        a % m + 1
    })) by (nonlinear_arith)
        requires
            m == 0xffff_ffff_ffff_fffeint,
            a >= 0,
    ;
    assert(0 <= a % m < m);
}

proof fn lemma_tokens_differ(start: u64, a: int, b: int)
    requires
        start > LISTENER_TOKEN,
        0 <= a < b < token_count(),
    ensures
        token_after(start, a) != token_after(start, b),
{
    let m = token_count();
    let x = start - 2 + a;
    let y = start - 2 + b;
    assert(x % m != y % m) by (nonlinear_arith)
        requires
            m == 0xffff_ffff_ffff_fffeint,
            0 <= x < y,
            y - x < m,
    ;
    assert(0 <= x % m < m && 0 <= y % m < m);
}

proof fn lemma_distinct_members_are_few(some: Seq<u64>, all: Seq<u64>)
    requires
        some.no_duplicates(),
        forall|j: int| 0 <= j < some.len() ==> all.contains(#[trigger] some[j]),
    ensures
        some.len() <= all.len(),
{
    some.unique_seq_to_set();
    all.lemma_cardinality_of_set();
    assert(some.to_set().subset_of(all.to_set()));
    vstd::set_lib::lemma_len_subset(some.to_set(), all.to_set());
}

/// The place in a list from which the survivor at place `i` comes.
spec fn survivor_source(clients: Seq<(u64, Client)>, i: int) -> int
    decreases clients.len(),
{
    if clients.len() == 0 {
        0
    } else if !clients.last().1.immediate_close && i == survivors(clients.drop_last()).len() {
        clients.len() - 1
    } else {
        survivor_source(clients.drop_last(), i)
    }
}

proof fn lemma_survivors(clients: Seq<(u64, Client)>)
    ensures
        survivors(clients).len() <= clients.len(),
        forall|i: int|
            #![trigger survivors(clients)[i]]
            #![trigger survivor_source(clients, i)]
            0 <= i < survivors(clients).len() ==> 0 <= survivor_source(clients, i) < clients.len()
                && survivors(clients)[i] == clients[survivor_source(clients, i)]
                && !survivors(clients)[i].1.immediate_close,
        forall|i: int, j: int|
            #![trigger survivor_source(clients, i), survivor_source(clients, j)]
            0 <= i < j < survivors(clients).len() ==> survivor_source(clients, i)
                < survivor_source(clients, j),
    decreases clients.len(),
{
    if clients.len() > 0 {
        let rest = clients.drop_last();
        lemma_survivors(rest);
        let n = survivors(rest).len() as int;
        assert forall|i: int| 0 <= i < n implies survivor_source(clients, i) == survivor_source(
            rest,
            i,
        ) by {}
        assert forall|i: int| 0 <= i < survivors(clients).len() implies 0 <= survivor_source(
            clients,
            i,
        ) < clients.len() && survivors(clients)[i] == clients[#[trigger] survivor_source(
            clients,
            i,
        )] && !survivors(clients)[i].1.immediate_close by {
            if i < n {
                assert(survivors(clients)[i] == survivors(rest)[i]);
                assert(rest[survivor_source(rest, i)] == clients[survivor_source(rest, i)]);
            }
        }
        assert forall|i: int, j: int|
            #![trigger survivor_source(clients, i), survivor_source(clients, j)]
            0 <= i < j < survivors(clients).len() implies survivor_source(clients, i)
            < survivor_source(clients, j) by {
            assert(survivor_source(clients, i) == survivor_source(rest, i));
            if j < n {
                assert(survivor_source(clients, j) == survivor_source(rest, j));
            }
        }
    }
}

/// Every connection that survives a notification was connected before, under the same token, and
/// keeps its place among the others.
pub proof fn notifications_connect_nobody(clients: Seq<(u64, Client)>, i: int)
    requires
        0 <= i < survivors(clients).len(),
    ensures
        exists|k: int|
            0 <= k < clients.len() && #[trigger] clients[k] == survivors(clients)[i],
        !survivors(clients)[i].1.immediate_close,
{
    lemma_survivors(clients);
    assert(clients[survivor_source(clients, i)] == survivors(clients)[i]);
}

/// A connection that must end at once is neither read from nor written to, and one that is ending
/// is kept only while something is left to send.
pub proof fn ending_connections_end(client: Client, revents: i16, stage: ReadyStage)
    requires
        client.ending(),
    ensures
        !(after_stage(client, revents, stage) is Read),
        client.immediate_close ==> after_stage(client, revents, stage) is Remove,
        after_stage(client, revents, stage) is Keep ==> client.output@.len() > 0,
{
}

proof fn lemma_same_leases(a: Seq<(u64, Client)>, b: Seq<(u64, Client)>, n: nat)
    requires
        n <= a.len(),
        n <= b.len(),
        forall|k: int| 0 <= k < n ==> leases((#[trigger] a[k]).1) == leases(b[k].1),
    ensures
        captured(a, n) == captured(b, n),
    decreases n,
{
    if n > 0 {
        lemma_same_leases(a, b, (n - 1) as nat);
        assert(leases(a[n - 1].1) == leases(b[n - 1].1));
    }
}

proof fn lemma_leases_around(clients: Seq<(u64, Client)>, i: int, n: nat)
    requires
        0 <= i < n <= clients.len(),
    ensures
        captured(clients, n) == captured(clients, i as nat) + leases(clients[i].1) + captured(
            clients.skip(i + 1),
            (n - i - 1) as nat,
        ),
    decreases n,
{
    let later = clients.skip(i + 1);
    if n == i + 1 {
        assert(captured(later, 0) =~= Seq::empty());
        assert(captured(clients, i as nat) + leases(clients[i].1) + captured(later, 0)
            =~= captured(clients, i as nat) + leases(clients[i].1));
    } else {
        lemma_leases_around(clients, i, (n - 1) as nat);
        assert(later[n - i - 2] == clients[n - 1]);
        assert(captured(clients, n) =~= captured(clients, i as nat) + leases(clients[i].1)
            + captured(later, (n - i - 1) as nat));
    }
}

/// Leases are those of one connection: a completed command changes the leases of the connection
/// that asked for it, and of no other. What the others capture stays before and after it.
pub proof fn leases_are_per_connection(
    before: Seq<(u64, Client)>,
    after: Seq<(u64, Client)>,
    i: int,
    id: u64,
    result: Result<ResponseResult, ProtocolError>,
    step: FrameStep,
)
    requires
        0 <= i < before.len(),
        completed_at(before, after, i, id, result, step),
    ensures
        captured(before, before.len()) == captured(before, i as nat) + leases(before[i].1)
            + captured(before.skip(i + 1), (before.len() - i - 1) as nat),
        captured(after, after.len()) == captured(before, i as nat) + leases(after[i].1) + captured(
            before.skip(i + 1),
            (before.len() - i - 1) as nat,
        ),
{
    lemma_leases_around(before, i, before.len());
    lemma_leases_around(after, i, after.len());
    lemma_same_leases(before, after, i as nat);
    assert(after.skip(i + 1) =~= before.skip(i + 1));
}

/// A capture of a device that the connection has captured already adds no lease, and a capture of
/// another adds exactly that one.
pub proof fn a_device_is_leased_once(
    before: Client,
    after: Client,
    id: u64,
    device: crate::protocol::DeviceInfo,
    step: FrameStep,
)
    requires
        !before.ending(),
        before.may_capture(device.syspath@),
        completed(before, after, id, Ok(ResponseResult::CaptureStarted(device)), step),
    ensures
        leases(after) == (if leases(before).contains(device.syspath@) {
            leases(before)
        } else {
            leases(before).push(device.syspath@)
        }),
{
    let path = device.syspath@;
    if connection::holds_path(before.capture@, path) {
        let i = choose|i: int|
            0 <= i < before.capture@.len() && (#[trigger] before.capture@[i])@ == path;
        assert(leases(before)[i] == path);
    } else {
        if leases(before).contains(path) {
            let i = choose|i: int| 0 <= i < leases(before).len() && leases(before)[i] == path;
            assert(before.capture@[i]@ == path);
        }
        assert(leases(after) =~= leases(before).push(path));
    }
}

/// The end of a capture releases every lease of its connection.
pub proof fn stopping_releases_every_lease(before: Client, after: Client, id: u64, step: FrameStep)
    requires
        completed(before, after, id, Ok(ResponseResult::CaptureStopped), step),
    ensures
        leases(after) == Seq::<Seq<char>>::empty(),
{
    assert(leases(after) =~= Seq::empty());
}

/// A connection that goes away takes its leases with it, and leaves those of the others.
pub proof fn disconnecting_releases_every_lease(clients: Seq<(u64, Client)>, i: int)
    requires
        0 <= i < clients.len(),
    ensures
        captured(clients.remove(i), (clients.len() - 1) as nat) == captured(clients, i as nat)
            + captured(clients.skip(i + 1), (clients.len() - i - 1) as nat),
{
    let rest = clients.remove(i);
    lemma_same_leases(rest, clients, i as nat);
    if i < rest.len() {
        lemma_leases_around(rest, i, rest.len());
        let later = clients.skip(i + 1);
        lemma_leases_around(clients, i, clients.len());
        assert(later[0] == rest[i]);
        assert(rest.skip(i + 1) =~= later.skip(1));
        lemma_leases_around(later, 0, later.len());
        assert(captured(later, 0) =~= Seq::empty());
        assert(captured(rest, rest.len()) =~= captured(clients, i as nat) + captured(
            later,
            later.len(),
        ));
    } else {
        assert(captured(clients.skip(i + 1), 0) =~= Seq::empty());
        assert(captured(rest, i as nat) + Seq::<Seq<char>>::empty() =~= captured(rest, i as nat));
    }
}

} // verus!
