//! The laws the socket surface obeys, stated over the spec-level
//! transitions and proved once for all inputs.

use vstd::prelude::*;

use crate::address::IpSocketAddress;
use crate::address::AddressFamily;
use crate::address::{spec_is_deprecated_ipv4_compatible, spec_is_valid_remote};
use crate::error::ErrorCode;
use crate::machine::{AcceptPoll, TcpSocketResource};
use crate::sockopt::{
    spec_clamp_keep_alive_count,
    spec_clamp_keep_alive_nanos,
    spec_prepare_buffer_size,
};
use crate::system::{BacklogAction, BindPlan, HopLimitPlan, SystemTcpSocket};

verus! {

/// Applying an operation in a disallowed state returns exactly the error
/// of the lifecycle table and leaves the socket unchanged.  The operations
/// that only validate take the socket immutably, so only the finishing
/// operations and `accept` have a state to preserve; their unchanged
/// socket is part of the stated equalities.
pub proof fn lemma_disallowed_state_is_rejected(
    s: TcpSocketResource,
    local: IpSocketAddress,
    remote: IpSocketAddress,
    polled: Option<AcceptPoll>,
)
    ensures
        s.state is BindStarted ==> s.spec_start_bind(local) == Result::<BindPlan, ErrorCode>::Err(
            ErrorCode::ConcurrencyConflict,
        ),
        !(s.state is Default || s.state is BindStarted) ==> s.spec_start_bind(local)
            == Result::<BindPlan, ErrorCode>::Err(ErrorCode::InvalidState),
        !(s.state is BindStarted) ==> s.spec_finish_bind() == (
            s,
            Result::<(), ErrorCode>::Err(ErrorCode::NotInProgress),
        ),
        s.state is Connecting ==> s.spec_start_connect(remote) == Result::<(), ErrorCode>::Err(
            ErrorCode::ConcurrencyConflict,
        ),
        !(s.state is Default || s.state is Connecting) ==> s.spec_start_connect(remote)
            == Result::<(), ErrorCode>::Err(ErrorCode::InvalidState),
        !(s.state is Connecting) ==> s.spec_finish_connect() == (
            s,
            Result::<(), ErrorCode>::Err(ErrorCode::NotInProgress),
        ),
        s.state is Default || s.state is Connected || s.state is Listening
            ==> s.spec_start_listen() == Result::<i32, ErrorCode>::Err(ErrorCode::InvalidState),
        s.state is ListenStarted || s.state is Connecting || s.state is BindStarted
            ==> s.spec_start_listen() == Result::<i32, ErrorCode>::Err(
            ErrorCode::ConcurrencyConflict,
        ),
        !(s.state is ListenStarted) ==> s.spec_finish_listen() == (
            s,
            Result::<(), ErrorCode>::Err(ErrorCode::NotInProgress),
        ),
        !(s.state is Listening) ==> s.spec_accept(polled) == (
            s,
            Result::<TcpSocketResource, ErrorCode>::Err(ErrorCode::InvalidState),
        ),
        s.state is Connecting ==> s.spec_shutdown() == Result::<(), ErrorCode>::Err(
            ErrorCode::ConcurrencyConflict,
        ),
        !(s.state is Connected || s.state is Connecting) ==> s.spec_shutdown()
            == Result::<(), ErrorCode>::Err(ErrorCode::InvalidState),
{
}

/// A remote address that fails the remote-address validation makes
/// `start_connect` return `InvalidArgument` without touching the
/// operating system: the start call yields no plan, so no system call is
/// ever issued for it.
pub proof fn lemma_invalid_remote_is_rejected(s: TcpSocketResource, remote: IpSocketAddress)
    requires
        s.state is Default,
        !spec_is_valid_remote(remote),
    ensures
        s.spec_start_connect(remote) == Result::<(), ErrorCode>::Err(ErrorCode::InvalidArgument),
{
}

/// A deprecated IPv4-compatible IPv6 address is rejected by both `bind`
/// and `connect` on a V6 socket, before any system call.
pub proof fn lemma_ipv4_compatible_is_rejected(s: TcpSocketResource, addr: IpSocketAddress)
    requires
        s.inner.family == AddressFamily::V6,
        s.state is Default,
        addr matches IpSocketAddress::V6(a) && spec_is_deprecated_ipv4_compatible(a.address),
    ensures
        s.spec_start_bind(addr) == Result::<BindPlan, ErrorCode>::Err(ErrorCode::InvalidArgument),
        s.spec_start_connect(addr) == Result::<(), ErrorCode>::Err(ErrorCode::InvalidArgument),
{
}

/// A hop limit of zero is rejected as an invalid argument: no plan is
/// produced, so the option the operating system holds is untouched.
pub proof fn lemma_zero_hop_limit_is_rejected(s: SystemTcpSocket)
    ensures
        s.spec_set_hop_limit(0) == Result::<HopLimitPlan, ErrorCode>::Err(
            ErrorCode::InvalidArgument,
        ),
{
}

/// Zero is rejected as an invalid argument by every size and time setter:
/// the keep-alive idle time and interval, the keep-alive count, the send
/// and receive buffer sizes, and the listen backlog, which is also left
/// unchanged.
pub proof fn lemma_zero_value_is_rejected(s: SystemTcpSocket)
    ensures
        spec_clamp_keep_alive_nanos(0) == Result::<u64, ErrorCode>::Err(
            ErrorCode::InvalidArgument,
        ),
        spec_clamp_keep_alive_count(0) == Result::<u32, ErrorCode>::Err(
            ErrorCode::InvalidArgument,
        ),
        spec_prepare_buffer_size(0) == Result::<usize, ErrorCode>::Err(
            ErrorCode::InvalidArgument,
        ),
        s.spec_set_listen_backlog_size(0) == (
            s,
            Result::<BacklogAction, ErrorCode>::Err(ErrorCode::InvalidArgument),
        ),
{
}

/// Finishing a bind is not idempotent in the accepting direction: after a
/// started bind the first `finish_bind` succeeds, and a second one --
/// indeed any `finish_bind` that follows one, whatever state it started
/// from -- reports that nothing is in progress.
pub proof fn lemma_finish_bind_once(s: TcpSocketResource)
    ensures
        s.state is BindStarted ==> s.spec_finish_bind().1 == Result::<(), ErrorCode>::Ok(()),
        s.spec_finish_bind().0.spec_finish_bind().1 == Result::<(), ErrorCode>::Err(
            ErrorCode::NotInProgress,
        ),
{
}

} // verus!
