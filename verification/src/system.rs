//! The system socket backend, modeled as plain values.
//!
//! The operating-system handle itself lives with the host glue; this model
//! carries everything the backend decides with: the address family, the
//! listen backlog, whether the socket listens, and -- for platforms that do
//! not inherit options onto accepted children -- shadow copies of the
//! explicitly applied options.  Each operation that ends in a system call
//! is split: a verified method validates the request and yields the exact
//! values the call must be made with, and the outcome comes back in as a
//! plain value.

use vstd::prelude::*;

use crate::address::{AddressFamily, IpSocketAddress};
use crate::address::{spec_is_unicast, spec_is_valid_remote, spec_matches_family};
use crate::address::{validate_address_family, validate_remote_address, validate_unicast};
use crate::error::{ErrorCode, Platform};
use crate::sockopt::{
    clamp_keep_alive_count,
    clamp_keep_alive_nanos,
    normalize_get_buffer_size,
    prepare_buffer_size,
    spec_clamp_keep_alive_count,
    spec_clamp_keep_alive_nanos,
    spec_normalize_get_buffer_size,
    spec_prepare_buffer_size,
};

verus! {

/// The default size of the listen backlog.
pub const DEFAULT_LISTEN_BACKLOG: i32 = 128;

/// The largest listen backlog handed to the operating system.
pub const MAX_LISTEN_BACKLOG: i32 = 0x7fff_ffff;

/// How the host must perform a validated `bind`: with address reuse
/// enabled exactly when a specific port was asked for, to bypass the
/// `TIME_WAIT` reservation of that port.
#[derive(Clone, Copy, PartialEq, Eq, Structural, Debug)]
pub struct BindPlan {
    pub reuse_addr: bool,
}

/// Which option a validated hop-limit update must be written through.
#[derive(Clone, Copy, PartialEq, Eq, Structural, Debug)]
pub enum HopLimitPlan {
    V4Ttl(u8),
    V6UnicastHops(u8),
}

/// Which option the hop limit must be read through.
#[derive(Clone, Copy, PartialEq, Eq, Structural, Debug)]
pub enum HopLimitQuery {
    V4Ttl,
    V6UnicastHops,
}

/// What a validated backlog update requires of the host: nothing more when
/// the socket does not listen yet, or a renewed `listen` call with the
/// clamped backlog when it does.
#[derive(Clone, Copy, PartialEq, Eq, Structural, Debug)]
pub enum BacklogAction {
    Stored,
    Relisten(i32),
}

/// The options to replay onto a freshly accepted child, on platforms where
/// the child does not inherit them from the listener.
#[derive(Clone, Copy, PartialEq, Eq, Structural, Debug)]
pub struct AcceptInherit {
    pub receive_buffer_size: Option<usize>,
    pub send_buffer_size: Option<usize>,
    pub hop_limit: Option<u8>,
    pub keep_alive_idle_time: Option<u64>,
}

/// An option the host has applied to the socket, recorded in the shadow
/// state so it can be replayed onto accepted children where needed.  Each
/// variant carries the request as the backend received it: the buffer
/// sizes and the idle time before clamping, the hop limit as given.
#[derive(Clone, Copy, PartialEq, Eq, Structural, Debug)]
pub enum AppliedOption {
    ReceiveBuffer(usize),
    SendBuffer(usize),
    HopLimit(u8),
    KeepAliveIdleTime(u64),
}

/// The backend model of one TCP socket.
#[derive(Clone, Copy, PartialEq, Eq, Debug)]
pub struct SystemTcpSocket {
    /// The target whose quirks apply to this socket's system calls.
    pub platform: Platform,
    /// The address family the socket was created in; immutable.
    pub family: AddressFamily,
    /// The backlog applied at `listen`.
    pub listen_backlog_size: i32,
    /// Whether `listen` has succeeded on this socket.
    pub is_listening: bool,
    /// Shadow copy of an explicitly applied receive buffer size.
    pub receive_buffer_size: Option<usize>,
    /// Shadow copy of an explicitly applied send buffer size.
    pub send_buffer_size: Option<usize>,
    /// Shadow copy of an explicitly applied hop limit.
    pub hop_limit: Option<u8>,
    /// Shadow copy of an explicitly applied keep-alive idle time, in
    /// nanoseconds.
    pub keep_alive_idle_time: Option<u64>,
}

/// The model of a freshly created socket in the given family: the default
/// backlog, not listening, no option applied yet.
pub open spec fn spec_fresh_socket(family: AddressFamily, platform: Platform) -> SystemTcpSocket {
    SystemTcpSocket {
        platform,
        family,
        listen_backlog_size: DEFAULT_LISTEN_BACKLOG as i32,
        is_listening: false,
        receive_buffer_size: Option::None,
        send_buffer_size: Option::None,
        hop_limit: Option::None,
        keep_alive_idle_time: Option::None,
    }
}

impl SystemTcpSocket {
    /// The backlog invariant: it is always in `[1, MAX_LISTEN_BACKLOG]`.
    pub open spec fn wf(self) -> bool {
        1 <= self.listen_backlog_size
    }

    /// Create the model of a fresh socket.  The host creates the handle
    /// non-blocking with close-on-exec, and forces a V6 socket to be
    /// v6-only.
    pub fn new(family: AddressFamily, platform: Platform) -> (s: SystemTcpSocket)
        ensures
            s == spec_fresh_socket(family, platform),
            s.wf(),
    {
        SystemTcpSocket {
            platform,
            family,
            listen_backlog_size: DEFAULT_LISTEN_BACKLOG,
            is_listening: false,
            receive_buffer_size: None,
            send_buffer_size: None,
            hop_limit: None,
            keep_alive_idle_time: None,
        }
    }

    /// What `bind` decides for a local address: rejection, or the plan the
    /// host must perform it with.
    pub open spec fn spec_bind(self, local: IpSocketAddress) -> Result<BindPlan, ErrorCode> {
        if !spec_is_unicast(local) {
            Result::Err(ErrorCode::InvalidArgument)
        } else if !spec_matches_family(local, self.family) {
            Result::Err(ErrorCode::InvalidArgument)
        } else {
            Result::Ok(BindPlan { reuse_addr: local.spec_port() > 0 })
        }
    }

    /// Validate a local address for `bind`.  A non-unicast address or one
    /// of the wrong family is rejected before the operating system is
    /// touched; otherwise the host must enable address reuse exactly when
    /// a specific port was requested, then perform the bind.
    pub fn bind(&self, local: &IpSocketAddress) -> (r: Result<BindPlan, ErrorCode>)
        ensures
            r == self.spec_bind(*local),
    {
        match validate_unicast(local) {
            Result::Ok(()) => {},
            Result::Err(e) => {
                return Result::Err(e);
            },
        }
        match validate_address_family(local, self.family) {
            Result::Ok(()) => {},
            Result::Err(e) => {
                return Result::Err(e);
            },
        }
        Result::Ok(BindPlan { reuse_addr: local.port() > 0 })
    }

    /// What `listen` decides: the backlog to apply, or a rejection when
    /// the socket already listens.
    pub open spec fn spec_listen(self) -> Result<i32, ErrorCode> {
        if self.is_listening {
            Result::Err(ErrorCode::Unknown)
        } else {
            Result::Ok(self.listen_backlog_size)
        }
    }

    /// Validate a `listen` request: a socket that already listens is
    /// rejected; otherwise the host must apply the current backlog.
    pub fn listen(&self) -> (r: Result<i32, ErrorCode>)
        ensures
            r == self.spec_listen(),
    {
        if self.is_listening {
            Result::Err(ErrorCode::Unknown)
        } else {
            Result::Ok(self.listen_backlog_size)
        }
    }

    /// Record that the operating system accepted the `listen` call.
    pub fn listen_succeeded(&mut self)
        ensures
            *final(self) == (SystemTcpSocket { is_listening: true, ..*old(self) }),
    {
        self.is_listening = true;
    }

    /// Whether a remote address passes every validation `connect`
    /// performs: unicast, a reachable remote, and the socket's family.
    pub open spec fn spec_connect_allowed(self, remote: IpSocketAddress) -> bool {
        &&& spec_is_unicast(remote)
        &&& spec_is_valid_remote(remote)
        &&& spec_matches_family(remote, self.family)
    }

    /// Validate a remote address for `connect`: a non-unicast address, an
    /// unspecified one, a zero port, or a family mismatch is rejected
    /// before the operating system is touched.
    pub fn connect(&self, remote: &IpSocketAddress) -> (r: Result<(), ErrorCode>)
        ensures
            r == (if self.spec_connect_allowed(*remote) {
                Result::<(), ErrorCode>::Ok(())
            } else {
                Result::<(), ErrorCode>::Err(ErrorCode::InvalidArgument)
            }),
    {
        match validate_unicast(remote) {
            Result::Ok(()) => {},
            Result::Err(e) => {
                return Result::Err(e);
            },
        }
        match validate_remote_address(remote) {
            Result::Ok(()) => {},
            Result::Err(e) => {
                return Result::Err(e);
            },
        }
        match validate_address_family(remote, self.family) {
            Result::Ok(()) => {},
            Result::Err(e) => {
                return Result::Err(e);
            },
        }
        Result::Ok(())
    }

    /// The model of the child a successful `accept` produces: a fresh
    /// socket of the same family on the same platform.
    pub fn accepted_child(&self) -> (c: SystemTcpSocket)
        ensures
            c == spec_fresh_socket(self.family, self.platform),
            c.wf(),
    {
        SystemTcpSocket::new(self.family, self.platform)
    }

    /// The options to replay onto an accepted child.  Only platforms that
    /// do not inherit listener options -- of the supported ones, only the
    /// macOS targets -- replay anything, and of those the hop limit only
    /// on a V6 socket, whose `IPV6_UNICAST_HOPS` is the one option the
    /// system does not inherit.  Replay failures are ignored by the host.
    pub fn accept_inherit_plan(&self) -> (p: AcceptInherit)
        ensures
            self.platform == Platform::MacOs ==> p == (AcceptInherit {
                receive_buffer_size: self.receive_buffer_size,
                send_buffer_size: self.send_buffer_size,
                hop_limit: if self.family == AddressFamily::V6 {
                    self.hop_limit
                } else {
                    Option::None
                },
                keep_alive_idle_time: self.keep_alive_idle_time,
            }),
            self.platform != Platform::MacOs ==> p == (AcceptInherit {
                receive_buffer_size: Option::<usize>::None,
                send_buffer_size: Option::<usize>::None,
                hop_limit: Option::<u8>::None,
                keep_alive_idle_time: Option::<u64>::None,
            }),
    {
        if self.platform == Platform::MacOs {
            AcceptInherit {
                receive_buffer_size: self.receive_buffer_size,
                send_buffer_size: self.send_buffer_size,
                hop_limit: if self.family == AddressFamily::V6 {
                    self.hop_limit
                } else {
                    None
                },
                keep_alive_idle_time: self.keep_alive_idle_time,
            }
        } else {
            AcceptInherit {
                receive_buffer_size: None,
                send_buffer_size: None,
                hop_limit: None,
                keep_alive_idle_time: None,
            }
        }
    }

    /// The address family the socket was created in.
    pub fn address_family(&self) -> (r: AddressFamily)
        ensures
            r == self.family,
    {
        self.family
    }

    /// What a backlog update decides: rejection of zero, and otherwise the
    /// clamped backlog together with whether it could be stored directly
    /// or must first be re-applied through `listen`.
    pub open spec fn spec_set_listen_backlog_size(self, value: u64) -> (SystemTcpSocket, Result<
        BacklogAction,
        ErrorCode,
    >) {
        if value == 0 {
            (self, Result::Err(ErrorCode::InvalidArgument))
        } else {
            let clamped = if value > MAX_LISTEN_BACKLOG as u64 {
                MAX_LISTEN_BACKLOG as i32
            } else {
                value as i32
            };
            if self.is_listening {
                (self, Result::Ok(BacklogAction::Relisten(clamped)))
            } else {
                (
                    SystemTcpSocket { listen_backlog_size: clamped, ..self },
                    Result::Ok(BacklogAction::Stored),
                )
            }
        }
    }

    /// Update the listen backlog.  Zero is rejected as an invalid
    /// argument; any other value is silently clamped into
    /// `[1, MAX_LISTEN_BACKLOG]`, as operating systems themselves clamp
    /// it.  Before `listen` the clamped value is stored directly; on a
    /// listening socket the host must first re-apply it with a renewed
    /// `listen` call, since not every platform supports that.
    pub fn set_listen_backlog_size(&mut self, value: u64) -> (r: Result<BacklogAction, ErrorCode>)
        ensures
            (*final(self), r) == old(self).spec_set_listen_backlog_size(value),
            old(self).wf() ==> final(self).wf(),
    {
        if value == 0 {
            return Result::Err(ErrorCode::InvalidArgument);
        }
        let clamped: i32 = if value > MAX_LISTEN_BACKLOG as u64 {
            MAX_LISTEN_BACKLOG
        } else {
            value as i32
        };
        if self.is_listening {
            Result::Ok(BacklogAction::Relisten(clamped))
        } else {
            self.listen_backlog_size = clamped;
            Result::Ok(BacklogAction::Stored)
        }
    }

    /// Record the outcome of the renewed `listen` call that a backlog
    /// update on a listening socket requires: on success the clamped value
    /// is stored; any failure is reported as not supported, and the stored
    /// backlog is left as it was.
    pub fn relisten_outcome(&mut self, backlog: i32, succeeded: bool) -> (r: Result<
        (),
        ErrorCode,
    >)
        requires
            1 <= backlog,
        ensures
            succeeded ==> *final(self) == (SystemTcpSocket {
                listen_backlog_size: backlog,
                ..*old(self)
            }) && r == Result::<(), ErrorCode>::Ok(()),
            !succeeded ==> *final(self) == *old(self) && r == Result::<(), ErrorCode>::Err(
                ErrorCode::NotSupported,
            ),
            old(self).wf() ==> final(self).wf(),
    {
        if succeeded {
            self.listen_backlog_size = backlog;
            Result::Ok(())
        } else {
            Result::Err(ErrorCode::NotSupported)
        }
    }

    /// Validate and clamp a receive-buffer-size request for the operating
    /// system; zero is rejected as an invalid argument.
    pub fn set_receive_buffer_size(&self, value: usize) -> (r: Result<usize, ErrorCode>)
        ensures
            r == spec_prepare_buffer_size(value),
    {
        prepare_buffer_size(value)
    }

    /// Validate and clamp a send-buffer-size request for the operating
    /// system; zero is rejected as an invalid argument.
    pub fn set_send_buffer_size(&self, value: usize) -> (r: Result<usize, ErrorCode>)
        ensures
            r == spec_prepare_buffer_size(value),
    {
        prepare_buffer_size(value)
    }

    /// Normalize a receive buffer size read back from the operating
    /// system.
    pub fn receive_buffer_size(&self, raw: usize) -> (r: usize)
        ensures
            r == spec_normalize_get_buffer_size(self.platform, raw),
    {
        normalize_get_buffer_size(self.platform, raw)
    }

    /// Normalize a send buffer size read back from the operating system.
    pub fn send_buffer_size(&self, raw: usize) -> (r: usize)
        ensures
            r == spec_normalize_get_buffer_size(self.platform, raw),
    {
        normalize_get_buffer_size(self.platform, raw)
    }

    /// Validate and clamp a keep-alive idle-time request given in
    /// nanoseconds; zero is rejected as an invalid argument.
    pub fn set_keep_alive_idle_time(&self, nanos: u64) -> (r: Result<u64, ErrorCode>)
        ensures
            r == spec_clamp_keep_alive_nanos(nanos),
    {
        clamp_keep_alive_nanos(nanos)
    }

    /// Validate and clamp a keep-alive interval request given in
    /// nanoseconds; zero is rejected as an invalid argument.
    pub fn set_keep_alive_interval(&self, nanos: u64) -> (r: Result<u64, ErrorCode>)
        ensures
            r == spec_clamp_keep_alive_nanos(nanos),
    {
        clamp_keep_alive_nanos(nanos)
    }

    /// Validate and clamp a keep-alive probe-count request; zero is
    /// rejected as an invalid argument.
    pub fn set_keep_alive_count(&self, value: u32) -> (r: Result<u32, ErrorCode>)
        ensures
            r == spec_clamp_keep_alive_count(value),
    {
        clamp_keep_alive_count(value)
    }

    /// What a hop-limit update decides: zero is rejected, and otherwise
    /// the value goes through `IP_TTL` on a V4 socket and through
    /// `IPV6_UNICAST_HOPS` on a V6 one.
    pub open spec fn spec_set_hop_limit(self, value: u8) -> Result<HopLimitPlan, ErrorCode> {
        if value == 0 {
            Result::Err(ErrorCode::InvalidArgument)
        } else if self.family == AddressFamily::V4 {
            Result::Ok(HopLimitPlan::V4Ttl(value))
        } else {
            Result::Ok(HopLimitPlan::V6UnicastHops(value))
        }
    }

    /// Validate a hop-limit request.  Zero is rejected as an invalid
    /// argument before the operating system is touched: a well-behaved
    /// application never sends packets with a hop limit of zero, and the
    /// operating systems do not validate this consistently themselves.
    pub fn set_hop_limit(&self, value: u8) -> (r: Result<HopLimitPlan, ErrorCode>)
        ensures
            r == self.spec_set_hop_limit(value),
    {
        if value == 0 {
            Result::Err(ErrorCode::InvalidArgument)
        } else if self.family == AddressFamily::V4 {
            Result::Ok(HopLimitPlan::V4Ttl(value))
        } else {
            Result::Ok(HopLimitPlan::V6UnicastHops(value))
        }
    }

    /// Which option the hop limit must be read through: `IP_TTL` on a V4
    /// socket, `IPV6_UNICAST_HOPS` on a V6 one.
    pub fn hop_limit(&self) -> (q: HopLimitQuery)
        ensures
            self.family == AddressFamily::V4 ==> q == HopLimitQuery::V4Ttl,
            self.family == AddressFamily::V6 ==> q == HopLimitQuery::V6UnicastHops,
    {
        if self.family == AddressFamily::V4 {
            HopLimitQuery::V4Ttl
        } else {
            HopLimitQuery::V6UnicastHops
        }
    }

    /// Record an option the host has applied, in the shadow state that
    /// `accept_inherit_plan` replays onto accepted children.
    pub fn record_applied(&mut self, opt: AppliedOption)
        ensures
            *final(self) == (match opt {
                AppliedOption::ReceiveBuffer(v) => SystemTcpSocket {
                    receive_buffer_size: Option::Some(v),
                    ..*old(self)
                },
                AppliedOption::SendBuffer(v) => SystemTcpSocket {
                    send_buffer_size: Option::Some(v),
                    ..*old(self)
                },
                AppliedOption::HopLimit(v) => SystemTcpSocket {
                    hop_limit: Option::Some(v),
                    ..*old(self)
                },
                AppliedOption::KeepAliveIdleTime(v) => SystemTcpSocket {
                    keep_alive_idle_time: Option::Some(v),
                    ..*old(self)
                },
            }),
    {
        match opt {
            AppliedOption::ReceiveBuffer(v) => {
                self.receive_buffer_size = Some(v);
            },
            AppliedOption::SendBuffer(v) => {
                self.send_buffer_size = Some(v);
            },
            AppliedOption::HopLimit(v) => {
                self.hop_limit = Some(v);
            },
            AppliedOption::KeepAliveIdleTime(v) => {
                self.keep_alive_idle_time = Some(v);
            },
        }
    }
}

} // verus!
