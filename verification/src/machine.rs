//! The guest-facing socket resource and its lifecycle state machine.
//!
//! Every operation that could block is split into a start/finish pair so
//! the guest can poll: the start call validates and yields what the host
//! must do, the finish call retrieves the outcome or the single try-again
//! signal.  All lifecycle checks are made here, before any system call,
//! and an operation applied in a disallowed state returns its table error
//! without changing the socket.

use vstd::prelude::*;

use crate::address::{AddressFamily, IpSocketAddress};
use crate::error::{ErrorCode, Platform};
use crate::system::{spec_fresh_socket, BindPlan, SystemTcpSocket};

verus! {

/// How far an in-flight `connect` has come: still waiting for the handle
/// to become writable, or resolved with the outcome the next
/// `finish_connect` will report.
#[derive(Clone, Copy, PartialEq, Eq, Debug)]
pub enum ConnectProgress {
    Pending,
    Ready(Result<(), ErrorCode>),
}

/// The lifecycle state of a socket resource.
#[derive(Clone, Copy, PartialEq, Eq, Debug)]
pub enum TcpState {
    /// The initial state of a newly created socket.
    Default,
    /// Binding started; the operating system has accepted the bind.
    BindStarted,
    /// Binding finished: the socket has an address but does not listen.
    Bound,
    /// Listening started; the operating system has accepted the listen.
    ListenStarted,
    /// Listening; `pending` caches the outcome of an accept that a
    /// readiness wait has already observed, for the next `accept` call.
    Listening { pending: Option<Result<(), ErrorCode>> },
    /// An outgoing connection is in flight.
    Connecting { progress: ConnectProgress },
    /// A connection is established.
    Connected,
}

/// What kind of shutdown the guest asked for.
#[derive(Clone, Copy, PartialEq, Eq, Structural, Debug)]
pub enum ShutdownType {
    Receive,
    Send,
    Both,
}

/// What a readiness subscription must wait for in the current state.
#[derive(Clone, Copy, PartialEq, Eq, Structural, Debug)]
pub enum ReadyAction {
    /// No asynchronous operation is in progress; the subscription is
    /// ready at once.
    Immediate,
    /// Wait for the in-flight `connect` to resolve, then report its
    /// outcome through `connect_ready`.
    AwaitConnect,
    /// Wait for an inbound connection, then cache the outcome through
    /// `accept_ready`.
    AwaitAccept,
}

/// What a non-blocking accept poll observed, when `accept` had to poll
/// because no outcome was cached.
#[derive(Clone, Copy, PartialEq, Eq, Debug)]
pub enum AcceptPoll {
    /// The poll completed with this outcome.
    Ready(Result<(), ErrorCode>),
    /// Nothing was ready.
    Pending,
}

/// A guest-facing TCP socket: one backend socket and its lifecycle state.
#[derive(Clone, Copy, PartialEq, Eq, Debug)]
pub struct TcpSocketResource {
    /// The backend socket the resource owns for its entire lifetime.
    pub inner: SystemTcpSocket,
    /// The lifecycle state; transitions happen only on guest calls.
    pub state: TcpState,
}

impl TcpSocketResource {
    /// The resource invariant: the backend is well formed, and the
    /// backend's listening flag holds exactly in the two states that a
    /// successful `listen` call leads to.
    pub open spec fn wf(self) -> bool {
        &&& self.inner.wf()
        &&& self.inner.is_listening <==> (self.state is ListenStarted || self.state is Listening)
    }

    /// The model of a freshly created socket resource.
    pub open spec fn spec_new(family: AddressFamily, platform: Platform) -> TcpSocketResource {
        TcpSocketResource { inner: spec_fresh_socket(family, platform), state: TcpState::Default }
    }

    /// Create a socket resource in the given family, in the initial
    /// state.
    pub fn new(family: AddressFamily, platform: Platform) -> (s: TcpSocketResource)
        ensures
            s == TcpSocketResource::spec_new(family, platform),
            s.wf(),
    {
        TcpSocketResource { inner: SystemTcpSocket::new(family, platform), state: TcpState::Default }
    }

    /// What `start_bind` decides in each state.
    pub open spec fn spec_start_bind(self, local: IpSocketAddress) -> Result<BindPlan, ErrorCode> {
        match self.state {
            TcpState::Default => self.inner.spec_bind(local),
            TcpState::BindStarted => Result::Err(ErrorCode::ConcurrencyConflict),
            _ => Result::Err(ErrorCode::InvalidState),
        }
    }

    /// Start binding: allowed only in the initial state, with a validated
    /// local address.  A second start before the first finished is a
    /// concurrency conflict; every other state is invalid.  On success the
    /// host performs the bind as the plan says and reports back through
    /// `bind_succeeded`; the socket itself is unchanged until then.
    pub fn start_bind(&self, local: &IpSocketAddress) -> (r: Result<BindPlan, ErrorCode>)
        ensures
            r == self.spec_start_bind(*local),
    {
        match self.state {
            TcpState::Default => self.inner.bind(local),
            TcpState::BindStarted => Result::Err(ErrorCode::ConcurrencyConflict),
            _ => Result::Err(ErrorCode::InvalidState),
        }
    }

    /// Record that the operating system accepted the bind.
    pub fn bind_succeeded(&mut self)
        requires
            old(self).state is Default,
        ensures
            *final(self) == (TcpSocketResource { state: TcpState::BindStarted, ..*old(self) }),
            old(self).wf() ==> final(self).wf(),
    {
        self.state = TcpState::BindStarted;
    }

    /// What `finish_bind` decides in each state.
    pub open spec fn spec_finish_bind(self) -> (TcpSocketResource, Result<(), ErrorCode>) {
        if self.state is BindStarted {
            (TcpSocketResource { state: TcpState::Bound, ..self }, Result::Ok(()))
        } else {
            (self, Result::Err(ErrorCode::NotInProgress))
        }
    }

    /// Finish binding: succeeds exactly once after a started bind; in any
    /// other state nothing is in progress and the socket is unchanged.
    pub fn finish_bind(&mut self) -> (r: Result<(), ErrorCode>)
        ensures
            (*final(self), r) == old(self).spec_finish_bind(),
            old(self).wf() ==> final(self).wf(),
    {
        match self.state {
            TcpState::BindStarted => {
                self.state = TcpState::Bound;
                Result::Ok(())
            },
            _ => Result::Err(ErrorCode::NotInProgress),
        }
    }

    /// What `start_connect` decides in each state.
    pub open spec fn spec_start_connect(self, remote: IpSocketAddress) -> Result<(), ErrorCode> {
        match self.state {
            TcpState::Default => if self.inner.spec_connect_allowed(remote) {
                Result::Ok(())
            } else {
                Result::Err(ErrorCode::InvalidArgument)
            },
            TcpState::Connecting { .. } => Result::Err(ErrorCode::ConcurrencyConflict),
            _ => Result::Err(ErrorCode::InvalidState),
        }
    }

    /// Start connecting: allowed only in the initial state, with a
    /// validated remote address.  A second start while one connect is in
    /// flight is a concurrency conflict; every other state is invalid.  A
    /// rejected address never touches the operating system.  On success
    /// the host issues the non-blocking connect and reports back through
    /// `connect_started`; the socket itself is unchanged until then.
    pub fn start_connect(&self, remote: &IpSocketAddress) -> (r: Result<(), ErrorCode>)
        ensures
            r == self.spec_start_connect(*remote),
    {
        match self.state {
            TcpState::Default => self.inner.connect(remote),
            TcpState::Connecting { .. } => Result::Err(ErrorCode::ConcurrencyConflict),
            _ => Result::Err(ErrorCode::InvalidState),
        }
    }

    /// Record that the non-blocking connect was issued: either it
    /// completed at once, or it is in progress and the host will await
    /// writability.  An immediate failure is not recorded here -- the
    /// starting call reports it and the socket stays in its initial
    /// state for a retry.
    pub fn connect_started(&mut self, immediately_connected: bool)
        requires
            old(self).state is Default,
        ensures
            *final(self) == (TcpSocketResource {
                state: TcpState::Connecting {
                    progress: if immediately_connected {
                        ConnectProgress::Ready(Result::Ok(()))
                    } else {
                        ConnectProgress::Pending
                    },
                },
                ..*old(self)
            }),
            old(self).wf() ==> final(self).wf(),
    {
        if immediately_connected {
            self.state = TcpState::Connecting { progress: ConnectProgress::Ready(Result::Ok(())) };
        } else {
            self.state = TcpState::Connecting { progress: ConnectProgress::Pending };
        }
    }

    /// Record the outcome of the awaited connect: the error state the
    /// handle reported once it became writable, or success.
    pub fn connect_ready(&mut self, outcome: Result<(), ErrorCode>)
        requires
            old(self).state matches TcpState::Connecting { progress } && progress is Pending,
        ensures
            *final(self) == (TcpSocketResource {
                state: TcpState::Connecting { progress: ConnectProgress::Ready(outcome) },
                ..*old(self)
            }),
            old(self).wf() ==> final(self).wf(),
    {
        self.state = TcpState::Connecting { progress: ConnectProgress::Ready(outcome) };
    }

    /// What `finish_connect` decides in each state.
    pub open spec fn spec_finish_connect(self) -> (TcpSocketResource, Result<(), ErrorCode>) {
        match self.state {
            TcpState::Connecting { progress } => match progress {
                ConnectProgress::Pending => (self, Result::Err(ErrorCode::WouldBlock)),
                ConnectProgress::Ready(Result::Ok(())) => (
                    TcpSocketResource { state: TcpState::Connected, ..self },
                    Result::Ok(()),
                ),
                ConnectProgress::Ready(Result::Err(e)) => (
                    TcpSocketResource { state: TcpState::Default, ..self },
                    Result::Err(e),
                ),
            },
            _ => (self, Result::Err(ErrorCode::NotInProgress)),
        }
    }

    /// Finish connecting.  Without a started connect nothing is in
    /// progress; while the connect is unresolved the call would block.  On
    /// success the socket is connected and the host hands the guest a
    /// reader and a writer sharing the handle; on failure the socket
    /// returns to its initial state so the guest may retry.
    pub fn finish_connect(&mut self) -> (r: Result<(), ErrorCode>)
        ensures
            (*final(self), r) == old(self).spec_finish_connect(),
            old(self).wf() ==> final(self).wf(),
    {
        match self.state {
            TcpState::Connecting { progress } => match progress {
                ConnectProgress::Pending => Result::Err(ErrorCode::WouldBlock),
                ConnectProgress::Ready(outcome) => match outcome {
                    Result::Ok(()) => {
                        self.state = TcpState::Connected;
                        Result::Ok(())
                    },
                    Result::Err(e) => {
                        self.state = TcpState::Default;
                        Result::Err(e)
                    },
                },
            },
            _ => Result::Err(ErrorCode::NotInProgress),
        }
    }

    /// What `start_listen` decides in each state.
    pub open spec fn spec_start_listen(self) -> Result<i32, ErrorCode> {
        match self.state {
            TcpState::Bound => self.inner.spec_listen(),
            TcpState::Default | TcpState::Connected | TcpState::Listening { .. } => Result::Err(
                ErrorCode::InvalidState,
            ),
            TcpState::ListenStarted | TcpState::Connecting { .. } | TcpState::BindStarted => Result::Err(
                ErrorCode::ConcurrencyConflict,
            ),
        }
    }

    /// Start listening: allowed only on a bound socket, whose invariant
    /// guarantees it does not listen yet.  A started but unfinished bind,
    /// listen or connect is a concurrency conflict; every other state is
    /// invalid.  On success the host applies the returned backlog and
    /// reports back through `listen_succeeded`; the socket itself is
    /// unchanged until then.
    pub fn start_listen(&self) -> (r: Result<i32, ErrorCode>)
        ensures
            r == self.spec_start_listen(),
            self.wf() && self.state is Bound ==> r == Result::<i32, ErrorCode>::Ok(
                self.inner.listen_backlog_size,
            ),
    {
        match self.state {
            TcpState::Bound => self.inner.listen(),
            TcpState::Default | TcpState::Connected | TcpState::Listening { .. } => Result::Err(
                ErrorCode::InvalidState,
            ),
            TcpState::ListenStarted | TcpState::Connecting { .. } | TcpState::BindStarted => Result::Err(
                ErrorCode::ConcurrencyConflict,
            ),
        }
    }

    /// Record that the operating system accepted the `listen` call.
    pub fn listen_succeeded(&mut self)
        requires
            old(self).state is Bound,
        ensures
            *final(self) == (TcpSocketResource {
                inner: SystemTcpSocket { is_listening: true, ..old(self).inner },
                state: TcpState::ListenStarted,
            }),
            old(self).wf() ==> final(self).wf(),
    {
        self.inner.listen_succeeded();
        self.state = TcpState::ListenStarted;
    }

    /// What `finish_listen` decides in each state.
    pub open spec fn spec_finish_listen(self) -> (TcpSocketResource, Result<(), ErrorCode>) {
        if self.state is ListenStarted {
            (
                TcpSocketResource {
                    state: TcpState::Listening { pending: Option::None },
                    ..self
                },
                Result::Ok(()),
            )
        } else {
            (self, Result::Err(ErrorCode::NotInProgress))
        }
    }

    /// Finish listening: succeeds exactly once after a started listen,
    /// with no accept outcome cached yet; in any other state nothing is in
    /// progress and the socket is unchanged.
    pub fn finish_listen(&mut self) -> (r: Result<(), ErrorCode>)
        ensures
            (*final(self), r) == old(self).spec_finish_listen(),
            old(self).wf() ==> final(self).wf(),
    {
        match self.state {
            TcpState::ListenStarted => {
                self.state = TcpState::Listening { pending: None };
                Result::Ok(())
            },
            _ => Result::Err(ErrorCode::NotInProgress),
        }
    }

    /// The model of the child resource a successful accept produces.
    pub open spec fn spec_accepted_resource(self) -> TcpSocketResource {
        TcpSocketResource {
            inner: spec_fresh_socket(self.inner.family, self.inner.platform),
            state: TcpState::Connected,
        }
    }

    /// What `accept` decides, given what a poll observed when no outcome
    /// was cached.
    pub open spec fn spec_accept(self, polled: Option<AcceptPoll>) -> (
        TcpSocketResource,
        Result<TcpSocketResource, ErrorCode>,
    ) {
        match self.state {
            TcpState::Listening { pending } => match pending {
                Option::Some(outcome) => (
                    TcpSocketResource {
                        state: TcpState::Listening { pending: Option::None },
                        ..self
                    },
                    match outcome {
                        Result::Ok(()) => Result::Ok(self.spec_accepted_resource()),
                        Result::Err(e) => Result::Err(e),
                    },
                ),
                Option::None => match polled {
                    Option::Some(AcceptPoll::Ready(Result::Ok(()))) => (
                        self,
                        Result::Ok(self.spec_accepted_resource()),
                    ),
                    Option::Some(AcceptPoll::Ready(Result::Err(e))) => (self, Result::Err(e)),
                    _ => (self, Result::Err(ErrorCode::WouldBlock)),
                },
            },
            _ => (self, Result::Err(ErrorCode::InvalidState)),
        }
    }

    /// Accept an inbound connection: allowed only while listening.  A
    /// cached outcome from an earlier readiness wait is consumed first;
    /// otherwise the host polls once and hands in what it observed, and
    /// nothing ready means the guest must try again.  A successful accept
    /// produces an independent child resource, already connected, whose
    /// handle the host pairs with a reader and a writer; the host also
    /// replays the listener's inherit plan onto the child's handle.
    pub fn accept(&mut self, polled: Option<AcceptPoll>) -> (r: Result<
        TcpSocketResource,
        ErrorCode,
    >)
        ensures
            (*final(self), r) == old(self).spec_accept(polled),
            old(self).wf() ==> final(self).wf(),
            old(self).wf() ==> (r matches Result::Ok(child) ==> child.wf()),
    {
        match self.state {
            TcpState::Listening { pending } => match pending {
                Some(outcome) => {
                    self.state = TcpState::Listening { pending: None };
                    match outcome {
                        Result::Ok(()) => Result::Ok(
                            TcpSocketResource {
                                inner: self.inner.accepted_child(),
                                state: TcpState::Connected,
                            },
                        ),
                        Result::Err(e) => Result::Err(e),
                    }
                },
                None => match polled {
                    Some(AcceptPoll::Ready(outcome)) => match outcome {
                        Result::Ok(()) => Result::Ok(
                            TcpSocketResource {
                                inner: self.inner.accepted_child(),
                                state: TcpState::Connected,
                            },
                        ),
                        Result::Err(e) => Result::Err(e),
                    },
                    _ => Result::Err(ErrorCode::WouldBlock),
                },
            },
            _ => Result::Err(ErrorCode::InvalidState),
        }
    }

    /// Record the accept outcome a readiness wait observed, for the next
    /// `accept` call to consume.
    pub fn accept_ready(&mut self, outcome: Result<(), ErrorCode>)
        requires
            old(self).state matches TcpState::Listening { pending } && pending is None,
        ensures
            *final(self) == (TcpSocketResource {
                state: TcpState::Listening { pending: Option::Some(outcome) },
                ..*old(self)
            }),
            old(self).wf() ==> final(self).wf(),
    {
        self.state = TcpState::Listening { pending: Some(outcome) };
    }

    /// Whether the local address may be queried: not before a bind was
    /// ever attempted, and not while one is half done.
    pub fn local_address(&self) -> (r: Result<(), ErrorCode>)
        ensures
            r == (match self.state {
                TcpState::Default => Result::<(), ErrorCode>::Err(ErrorCode::InvalidState),
                TcpState::BindStarted => Result::<(), ErrorCode>::Err(
                    ErrorCode::ConcurrencyConflict,
                ),
                _ => Result::<(), ErrorCode>::Ok(()),
            }),
    {
        match self.state {
            TcpState::Default => Result::Err(ErrorCode::InvalidState),
            TcpState::BindStarted => Result::Err(ErrorCode::ConcurrencyConflict),
            _ => Result::Ok(()),
        }
    }

    /// Whether the remote address may be queried: only on a connected
    /// socket; while a connect is in flight the call is a concurrency
    /// conflict.
    pub fn remote_address(&self) -> (r: Result<(), ErrorCode>)
        ensures
            r == (match self.state {
                TcpState::Connected => Result::<(), ErrorCode>::Ok(()),
                TcpState::Connecting { .. } => Result::<(), ErrorCode>::Err(
                    ErrorCode::ConcurrencyConflict,
                ),
                _ => Result::<(), ErrorCode>::Err(ErrorCode::InvalidState),
            }),
    {
        match self.state {
            TcpState::Connected => Result::Ok(()),
            TcpState::Connecting { .. } => Result::Err(ErrorCode::ConcurrencyConflict),
            _ => Result::Err(ErrorCode::InvalidState),
        }
    }

    /// Whether the socket is in the listening state.
    pub fn is_listening(&self) -> (r: bool)
        ensures
            r == (self.state is Listening),
    {
        match self.state {
            TcpState::Listening { .. } => true,
            _ => false,
        }
    }

    /// The address family the socket was created in.
    pub fn address_family(&self) -> (r: AddressFamily)
        ensures
            r == self.inner.family,
    {
        self.inner.address_family()
    }

    /// What `shutdown` decides in each state.
    pub open spec fn spec_shutdown(self) -> Result<(), ErrorCode> {
        match self.state {
            TcpState::Connected => Result::Ok(()),
            TcpState::Connecting { .. } => Result::Err(ErrorCode::ConcurrencyConflict),
            _ => Result::Err(ErrorCode::InvalidState),
        }
    }

    /// Shut down one or both directions: allowed only on a connected
    /// socket, which stays connected.  On success the host performs the
    /// shutdown with the given type; dropping a reader or writer never
    /// triggers one.
    pub fn shutdown(&self, how: ShutdownType) -> (r: Result<ShutdownType, ErrorCode>)
        ensures
            r == (match self.spec_shutdown() {
                Result::Ok(()) => Result::<ShutdownType, ErrorCode>::Ok(how),
                Result::Err(e) => Result::<ShutdownType, ErrorCode>::Err(e),
            }),
    {
        match self.state {
            TcpState::Connected => Result::Ok(how),
            TcpState::Connecting { .. } => Result::Err(ErrorCode::ConcurrencyConflict),
            _ => Result::Err(ErrorCode::InvalidState),
        }
    }

    /// What a readiness subscription must wait for: the in-flight
    /// connect, an inbound connection while listening with nothing
    /// cached, and nothing otherwise.
    pub fn ready_action(&self) -> (r: ReadyAction)
        ensures
            r == (match self.state {
                TcpState::Connecting { progress: ConnectProgress::Pending } => ReadyAction::AwaitConnect,
                TcpState::Listening { pending: Option::None } => ReadyAction::AwaitAccept,
                _ => ReadyAction::Immediate,
            }),
    {
        match self.state {
            TcpState::Connecting { progress: ConnectProgress::Pending } => ReadyAction::AwaitConnect,
            TcpState::Listening { pending: None } => ReadyAction::AwaitAccept,
            _ => ReadyAction::Immediate,
        }
    }
}

} // verus!
