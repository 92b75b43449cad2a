//! The portal session handshake.
//!
//! A capture session is set up by four portal calls in a fixed order:
//! session creation, source selection, stream start, and the direct
//! call that hands out the media transport's file descriptor.  Each
//! correlated step yields a `RequestOutcome`; a non-zero status at any
//! step fails the handshake and no later step is taken.  The session
//! must be closed exactly once, by its owner.
//!
//! The transition of every step is a spec function; the executable
//! methods return exactly what the spec functions say.  Issuing the
//! underlying bus calls and collecting their outcomes is the caller's
//! business; the methods here decide what to send and what each reply
//! means.

use vstd::prelude::*;

use crate::protocol::RequestOutcome;
use crate::protocol::Value;
use crate::protocol::lookup;
use crate::protocol::lookup_value;

verus! {

/// Where in the handshake a session stands.
#[derive(Clone, Copy, PartialEq, Eq, Structural, Debug)]
pub enum Phase {
    /// No request has been answered yet.
    Idle,
    /// The portal assigned a session handle.
    Created,
    /// The user picked the sources to capture.
    SourcesSelected,
    /// The portal announced the media streams.
    Started,
    /// The media transport's descriptor has been handed out.
    Opened,
    /// A step was denied or its reply was unusable; no later step runs.
    Failed,
    /// The session was closed.
    Closed,
}

/// Why a handshake step failed.
#[derive(Clone, Copy, PartialEq, Eq, Structural, Debug)]
pub enum PortalError {
    /// The portal answered the step with this non-zero status
    /// (typically: the user cancelled a consent dialog).
    Denied(u32),
    /// The step succeeded but its payload lacked the field the
    /// protocol promises on success.
    MalformedReply,
    /// The step was attempted out of the required order.
    OutOfOrder,
    /// Descriptor passing was rejected by the transport.
    Resource,
}

/// The pair a successful handshake produces: the stream's opaque node
/// identifier and the file descriptor granting access to the media
/// transport.  The descriptor stays owned by the session; a pipeline
/// only borrows its raw value.
#[derive(Clone, Copy, PartialEq, Eq, Structural, Debug)]
pub struct StreamDescriptor {
    pub node_id: u32,
    pub fd: i32,
}

/// One bus call of the handshake, as plain values; the transport layer
/// turns it into a portal method call.
pub enum PortalRequest {
    CreateSession { handle_token: String, session_handle_token: String },
    SelectSources { session_handle: String, handle_token: String },
    Start { session_handle: String, parent_window: String, handle_token: String },
    OpenPipeWireRemote { session_handle: String },
    CloseSession { session_handle: String },
}

/// One capture session's handshake state.
pub struct PortalSession {
    pub phase: Phase,
    pub session_handle: Option<String>,
    pub node_id: Option<u32>,
    pub close_issued: bool,
}

/// Whether a creation reply carries the assigned session handle.
pub open spec fn has_session_handle(o: RequestOutcome) -> bool {
    match lookup(o.payload@, "session_handle"@) {
        Some(Value::Str(_)) => true,
        _ => false,
    }
}

/// The assigned session handle of a creation reply.
pub open spec fn session_handle_of(o: RequestOutcome) -> String
    recommends
        has_session_handle(o),
{
    match lookup(o.payload@, "session_handle"@) {
        Some(Value::Str(h)) => h,
        _ => arbitrary(),
    }
}

/// The node identifier of the first announced stream of a start reply,
/// if the reply announces any.
pub open spec fn first_stream(o: RequestOutcome) -> Option<u32> {
    match lookup(o.payload@, "streams"@) {
        Some(Value::Streams(v)) => if v@.len() > 0 {
            Some(v@[0].node_id)
        } else {
            None
        },
        _ => None,
    }
}

/// What handling a creation reply does to a session.
pub open spec fn spec_create_session(s: PortalSession, o: RequestOutcome) -> (PortalSession, Result<
    String,
    PortalError,
>) {
    if !(s.phase is Idle) {
        (s, Err(PortalError::OutOfOrder))
    } else if o.status != 0 {
        (PortalSession { phase: Phase::Failed, ..s }, Err(PortalError::Denied(o.status)))
    } else if has_session_handle(o) {
        (
            PortalSession {
                phase: Phase::Created,
                session_handle: Some(session_handle_of(o)),
                ..s
            },
            Ok(session_handle_of(o)),
        )
    } else {
        (PortalSession { phase: Phase::Failed, ..s }, Err(PortalError::MalformedReply))
    }
}

/// What handling a source-selection reply does to a session.
pub open spec fn spec_select_sources(s: PortalSession, o: RequestOutcome) -> (PortalSession, Result<
    (),
    PortalError,
>) {
    if !(s.phase is Created) {
        (s, Err(PortalError::OutOfOrder))
    } else if o.status != 0 {
        (PortalSession { phase: Phase::Failed, ..s }, Err(PortalError::Denied(o.status)))
    } else {
        (PortalSession { phase: Phase::SourcesSelected, ..s }, Ok(()))
    }
}

/// What handling a start reply does to a session.
pub open spec fn spec_start(s: PortalSession, o: RequestOutcome) -> (PortalSession, Result<
    u32,
    PortalError,
>) {
    if !(s.phase is SourcesSelected) {
        (s, Err(PortalError::OutOfOrder))
    } else if o.status != 0 {
        (PortalSession { phase: Phase::Failed, ..s }, Err(PortalError::Denied(o.status)))
    } else {
        match first_stream(o) {
            Some(node_id) => (
                PortalSession { phase: Phase::Started, node_id: Some(node_id), ..s },
                Ok(node_id),
            ),
            None => (PortalSession { phase: Phase::Failed, ..s }, Err(PortalError::MalformedReply)),
        }
    }
}

/// What handling the descriptor handed back by the direct open call
/// (or its refusal) does to a session.
pub open spec fn spec_open_pipewire_remote(s: PortalSession, fd: Option<i32>) -> (
    PortalSession,
    Result<StreamDescriptor, PortalError>,
) {
    if !(s.phase is Started) {
        (s, Err(PortalError::OutOfOrder))
    } else {
        match fd {
            None => (PortalSession { phase: Phase::Failed, ..s }, Err(PortalError::Resource)),
            Some(fd) => (
                PortalSession { phase: Phase::Opened, ..s },
                Ok(StreamDescriptor { node_id: s.node_id.unwrap(), fd }),
            ),
        }
    }
}

/// What closing does to a session: the underlying Close call must be
/// issued exactly when a session handle exists and no Close was issued
/// before.
pub open spec fn spec_close(s: PortalSession) -> (PortalSession, bool) {
    let issue = s.session_handle is Some && !s.close_issued;
    (PortalSession { phase: Phase::Closed, close_issued: s.close_issued || issue, ..s }, issue)
}

impl PortalSession {
    /// Validity of a session value: whatever the protocol has already
    /// handed over is actually recorded.
    pub open spec fn wf(self) -> bool {
        &&& (self.phase is Created || self.phase is SourcesSelected || self.phase is Started
            || self.phase is Opened) ==> self.session_handle is Some
        &&& (self.phase is Started || self.phase is Opened) ==> self.node_id is Some
    }

    /// A session on which nothing has happened yet.
    pub fn new() -> (s: PortalSession)
        ensures
            s.phase is Idle,
            s.session_handle is None,
            s.node_id is None,
            !s.close_issued,
            s.wf(),
    {
        PortalSession { phase: Phase::Idle, session_handle: None, node_id: None, close_issued: false }
    }

    /// Handles the reply to the creation request: on success the
    /// session records and returns the handle assigned by the portal;
    /// a non-zero status is a denial and fails the handshake.
    pub fn create_session(&mut self, outcome: &RequestOutcome) -> (r: Result<String, PortalError>)
        requires
            old(self).wf(),
        ensures
            (*final(self), r) == spec_create_session(*old(self), *outcome),
            final(self).wf(),
    {
        match self.phase {
            Phase::Idle => {},
            _ => {
                return Err(PortalError::OutOfOrder);
            },
        }
        if outcome.status != 0 {
            self.phase = Phase::Failed;
            return Err(PortalError::Denied(outcome.status));
        }
        let key = String::from_str("session_handle");
        match lookup_value(&outcome.payload, &key) {
            Some(Value::Str(h)) => {
                let handle = h.clone();
                self.session_handle = Some(handle.clone());
                self.phase = Phase::Created;
                Ok(handle)
            },
            _ => {
                self.phase = Phase::Failed;
                Err(PortalError::MalformedReply)
            },
        }
    }

    /// Handles the reply to the source-selection request; a non-zero
    /// status (the user cancelled the picker) fails the handshake.
    pub fn select_sources(&mut self, outcome: &RequestOutcome) -> (r: Result<(), PortalError>)
        requires
            old(self).wf(),
        ensures
            (*final(self), r) == spec_select_sources(*old(self), *outcome),
            final(self).wf(),
    {
        match self.phase {
            Phase::Created => {},
            _ => {
                return Err(PortalError::OutOfOrder);
            },
        }
        if outcome.status != 0 {
            self.phase = Phase::Failed;
            return Err(PortalError::Denied(outcome.status));
        }
        self.phase = Phase::SourcesSelected;
        Ok(())
    }

    /// Handles the reply to the start request: on success the session
    /// records and returns the node identifier of the first announced
    /// stream; a reply without streams is unusable.
    pub fn start(&mut self, outcome: &RequestOutcome) -> (r: Result<u32, PortalError>)
        requires
            old(self).wf(),
        ensures
            (*final(self), r) == spec_start(*old(self), *outcome),
            final(self).wf(),
    {
        match self.phase {
            Phase::SourcesSelected => {},
            _ => {
                return Err(PortalError::OutOfOrder);
            },
        }
        if outcome.status != 0 {
            self.phase = Phase::Failed;
            return Err(PortalError::Denied(outcome.status));
        }
        let key = String::from_str("streams");
        match lookup_value(&outcome.payload, &key) {
            Some(Value::Streams(v)) => {
                if v.len() > 0 {
                    let node_id = v[0].node_id;
                    self.node_id = Some(node_id);
                    self.phase = Phase::Started;
                    Ok(node_id)
                } else {
                    self.phase = Phase::Failed;
                    Err(PortalError::MalformedReply)
                }
            },
            _ => {
                self.phase = Phase::Failed;
                Err(PortalError::MalformedReply)
            },
        }
    }

    /// Handles what the direct open call produced: the descriptor the
    /// transport passed out-of-band, or `None` where it rejected
    /// descriptor passing.
    pub fn open_pipewire_remote(&mut self, fd: Option<i32>) -> (r: Result<
        StreamDescriptor,
        PortalError,
    >)
        requires
            old(self).wf(),
        ensures
            (*final(self), r) == spec_open_pipewire_remote(*old(self), fd),
            final(self).wf(),
    {
        match self.phase {
            Phase::Started => {},
            _ => {
                return Err(PortalError::OutOfOrder);
            },
        }
        match fd {
            None => {
                self.phase = Phase::Failed;
                Err(PortalError::Resource)
            },
            Some(fd) => {
                self.phase = Phase::Opened;
                match &self.node_id {
                    Some(node_id) => Ok(StreamDescriptor { node_id: *node_id, fd }),
                    None => {
                        proof {
                            assert(false);
                        }
                        Err(PortalError::OutOfOrder)
                    },
                }
            },
        }
    }

    /// Builds the creation request: a fresh handle token for the reply
    /// path and a fresh token for the session object itself.
    pub fn create_session_request(&self, handle_token: String, session_handle_token: String) -> (r:
        Result<PortalRequest, PortalError>)
        ensures
            self.phase is Idle ==> r == Ok::<PortalRequest, PortalError>(
                PortalRequest::CreateSession { handle_token, session_handle_token },
            ),
            !(self.phase is Idle) ==> r == Err::<PortalRequest, PortalError>(
                PortalError::OutOfOrder,
            ),
    {
        match self.phase {
            Phase::Idle => Ok(PortalRequest::CreateSession { handle_token, session_handle_token }),
            _ => Err(PortalError::OutOfOrder),
        }
    }

    /// Builds the source-selection request, scoped to the created
    /// session.
    pub fn select_sources_request(&self, handle_token: String) -> (r: Result<
        PortalRequest,
        PortalError,
    >)
        requires
            self.wf(),
        ensures
            self.phase is Created ==> (r matches Ok(PortalRequest::SelectSources {
                session_handle,
                handle_token: ht,
            }) && session_handle == self.session_handle.unwrap() && ht == handle_token),
            !(self.phase is Created) ==> r == Err::<PortalRequest, PortalError>(
                PortalError::OutOfOrder,
            ),
    {
        match self.phase {
            Phase::Created => match &self.session_handle {
                Some(h) => Ok(
                    PortalRequest::SelectSources { session_handle: h.clone(), handle_token },
                ),
                None => {
                    proof {
                        assert(false);
                    }
                    Err(PortalError::OutOfOrder)
                },
            },
            _ => Err(PortalError::OutOfOrder),
        }
    }

    /// Builds the start request, scoped to the created session; the
    /// parent-window hint is the fixed placeholder the client sends.
    pub fn start_request(&self, handle_token: String) -> (r: Result<PortalRequest, PortalError>)
        requires
            self.wf(),
        ensures
            self.phase is SourcesSelected ==> (r matches Ok(PortalRequest::Start {
                session_handle,
                parent_window,
                handle_token: ht,
            }) && session_handle == self.session_handle.unwrap() && parent_window@
                == "parent-window?"@ && ht == handle_token),
            !(self.phase is SourcesSelected) ==> r == Err::<PortalRequest, PortalError>(
                PortalError::OutOfOrder,
            ),
    {
        match self.phase {
            Phase::SourcesSelected => match &self.session_handle {
                Some(h) => Ok(
                    PortalRequest::Start {
                        session_handle: h.clone(),
                        parent_window: String::from_str("parent-window?"),
                        handle_token,
                    },
                ),
                None => {
                    proof {
                        assert(false);
                    }
                    Err(PortalError::OutOfOrder)
                },
            },
            _ => Err(PortalError::OutOfOrder),
        }
    }

    /// Builds the direct request that asks the transport to pass the
    /// media descriptor out-of-band.
    pub fn open_pipewire_remote_request(&self) -> (r: Result<PortalRequest, PortalError>)
        requires
            self.wf(),
        ensures
            self.phase is Started ==> (r matches Ok(PortalRequest::OpenPipeWireRemote {
                session_handle,
            }) && session_handle == self.session_handle.unwrap()),
            !(self.phase is Started) ==> r == Err::<PortalRequest, PortalError>(
                PortalError::OutOfOrder,
            ),
    {
        match self.phase {
            Phase::Started => match &self.session_handle {
                Some(h) => Ok(PortalRequest::OpenPipeWireRemote { session_handle: h.clone() }),
                None => {
                    proof {
                        assert(false);
                    }
                    Err(PortalError::OutOfOrder)
                },
            },
            _ => Err(PortalError::OutOfOrder),
        }
    }

    /// Builds the Close call for the session the portal assigned.
    pub fn close_request(&self) -> (r: Result<PortalRequest, PortalError>)
        ensures
            self.session_handle is Some ==> (r matches Ok(PortalRequest::CloseSession {
                session_handle,
            }) && session_handle == self.session_handle.unwrap()),
            self.session_handle is None ==> r == Err::<PortalRequest, PortalError>(
                PortalError::OutOfOrder,
            ),
    {
        match &self.session_handle {
            Some(h) => Ok(PortalRequest::CloseSession { session_handle: h.clone() }),
            None => Err(PortalError::OutOfOrder),
        }
    }

    /// Ends the session.  Returns whether the underlying Close call
    /// must now be issued; it is returned true at most once over the
    /// session's lifetime, so the owner never double-closes.
    pub fn close(&mut self) -> (issue: bool)
        ensures
            (*final(self), issue) == spec_close(*old(self)),
    {

        let issue = self.session_handle.is_some() && !self.close_issued;
        self.close_issued = self.close_issued || issue;
        self.phase = Phase::Closed;
        issue
    }
}

/// What a whole handshake does, against the outcomes a portal yields
/// for each step: the final session, the result, and how many portal
/// requests were issued before the handshake ended.
pub open spec fn spec_handshake(
    s: PortalSession,
    create: RequestOutcome,
    select: RequestOutcome,
    start: RequestOutcome,
    fd: Option<i32>,
) -> (PortalSession, Result<StreamDescriptor, PortalError>, int) {
    let (s1, r1) = spec_create_session(s, create);
    match r1 {
        Err(e) => (s1, Err(e), 1),
        Ok(_) => {
            let (s2, r2) = spec_select_sources(s1, select);
            match r2 {
                Err(e) => (s2, Err(e), 2),
                Ok(_) => {
                    let (s3, r3) = spec_start(s2, start);
                    match r3 {
                        Err(e) => (s3, Err(e), 3),
                        Ok(_) => {
                            let (s4, r4) = spec_open_pipewire_remote(s3, fd);
                            (s4, r4, 4)
                        },
                    }
                },
            }
        },
    }
}

/// Runs the whole handshake against outcomes supplied up front (as a
/// fake portal yields them), stopping at the first failing step.
/// Besides the result it reports how many portal requests were issued.
pub fn run_handshake(
    session: &mut PortalSession,
    create: &RequestOutcome,
    select: &RequestOutcome,
    start: &RequestOutcome,
    fd: Option<i32>,
) -> (out: (Result<StreamDescriptor, PortalError>, usize))
    requires
        old(session).wf(),
    ensures
        ({
            let (s_end, r, n) = spec_handshake(*old(session), *create, *select, *start, fd);
            &&& *final(session) == s_end
            &&& out.0 == r
            &&& out.1 == n
        }),
        final(session).wf(),
{
    match session.create_session(create) {
        Err(e) => {
            return (Err(e), 1);
        },
        Ok(_) => {},
    }
    match session.select_sources(select) {
        Err(e) => {
            return (Err(e), 2);
        },
        Ok(_) => {},
    }
    match session.start(start) {
        Err(e) => {
            return (Err(e), 3);
        },
        Ok(_) => {},
    }
    (session.open_pipewire_remote(fd), 4)
}

/// The handshake is a strict state machine: a step taken in any phase
/// other than its own is rejected as out of order and leaves the
/// session unchanged.
pub proof fn lemma_steps_reject_out_of_order(s: PortalSession, o: RequestOutcome, fd: Option<i32>)
    ensures
        !(s.phase is Idle) ==> spec_create_session(s, o) == (
            s,
            Err::<String, PortalError>(PortalError::OutOfOrder),
        ),
        !(s.phase is Created) ==> spec_select_sources(s, o) == (
            s,
            Err::<(), PortalError>(PortalError::OutOfOrder),
        ),
        !(s.phase is SourcesSelected) ==> spec_start(s, o) == (
            s,
            Err::<u32, PortalError>(PortalError::OutOfOrder),
        ),
        !(s.phase is Started) ==> spec_open_pipewire_remote(s, fd) == (
            s,
            Err::<StreamDescriptor, PortalError>(PortalError::OutOfOrder),
        ),
{
}

/// A non-zero status at any step short-circuits the handshake: the
/// denied step is the last request issued, its denial is the overall
/// result, and the handshake is failed — whatever the outcomes of the
/// later steps would have said.
pub proof fn lemma_denial_short_circuits(
    s: PortalSession,
    create: RequestOutcome,
    select: RequestOutcome,
    start: RequestOutcome,
    fd: Option<i32>,
)
    requires
        s.phase is Idle,
    ensures
        ({
            let (s_end, r, n) = spec_handshake(s, create, select, start, fd);
            &&& create.status != 0 ==> r == Err::<StreamDescriptor, PortalError>(
                PortalError::Denied(create.status),
            ) && n == 1 && s_end.phase is Failed
            &&& create.status == 0 && has_session_handle(create) && select.status != 0 ==> r
                == Err::<StreamDescriptor, PortalError>(PortalError::Denied(select.status)) && n
                == 2 && s_end.phase is Failed
            &&& create.status == 0 && has_session_handle(create) && select.status == 0
                && start.status != 0 ==> r == Err::<StreamDescriptor, PortalError>(
                PortalError::Denied(start.status),
            ) && n == 3 && s_end.phase is Failed
        }),
{
}

/// A handshake against a portal that grants every step issues all four
/// requests and yields exactly the descriptor made of the first
/// announced stream's node identifier and the passed file descriptor.
pub proof fn lemma_handshake_success(
    s: PortalSession,
    create: RequestOutcome,
    select: RequestOutcome,
    start: RequestOutcome,
    fd: i32,
)
    requires
        s.phase is Idle,
        create.status == 0,
        has_session_handle(create),
        select.status == 0,
        start.status == 0,
        first_stream(start) is Some,
    ensures
        ({
            let (s_end, r, n) = spec_handshake(s, create, select, start, Some(fd));
            &&& r == Ok::<StreamDescriptor, PortalError>(
                StreamDescriptor { node_id: first_stream(start).unwrap(), fd },
            )
            &&& n == 4
            &&& s_end.phase is Opened
            &&& s_end.session_handle == Some(session_handle_of(create))
            &&& s_end.node_id == Some(first_stream(start).unwrap())
        }),
{
}

/// Close is owed exactly once: the first close of a session that holds
/// a handle says to issue the underlying call, and every close after
/// it does not.
pub proof fn lemma_close_exactly_once(s: PortalSession)
    ensures
        spec_close(s).1 == (s.session_handle is Some && !s.close_issued),
        !spec_close(spec_close(s).0).1,
{
}

} // verus!
