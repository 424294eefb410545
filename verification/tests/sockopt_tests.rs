use wasi_tcp::address::AddressFamily;
use wasi_tcp::error::{Errno, ErrorCode, Platform};
use wasi_tcp::sockopt::{
    buffer_size_set_result, clamp_keep_alive_count, clamp_keep_alive_nanos,
    normalize_get_buffer_size, normalize_set_buffer_size, prepare_buffer_size, ttl_from_raw,
};
use wasi_tcp::system::{
    AcceptInherit, AppliedOption, BacklogAction, HopLimitPlan, HopLimitQuery, SystemTcpSocket,
};

#[test]
fn hop_limit_round_trip() {
    let s = SystemTcpSocket::new(AddressFamily::V4, Platform::Linux);
    assert_eq!(s.set_hop_limit(64), Ok(HopLimitPlan::V4Ttl(64)));
    assert_eq!(s.hop_limit(), HopLimitQuery::V4Ttl);
    // the value the operating system reports back
    assert_eq!(ttl_from_raw(64), Ok(64));
    // zero is rejected and produces no plan, so the option stays as set
    assert_eq!(s.set_hop_limit(0), Err(ErrorCode::InvalidArgument));
}

#[test]
fn hop_limit_uses_unicast_hops_on_v6() {
    let s = SystemTcpSocket::new(AddressFamily::V6, Platform::Linux);
    assert_eq!(s.set_hop_limit(17), Ok(HopLimitPlan::V6UnicastHops(17)));
    assert_eq!(s.hop_limit(), HopLimitQuery::V6UnicastHops);
}

#[test]
fn ttl_wider_than_a_byte_is_not_supported() {
    assert_eq!(ttl_from_raw(256), Err(ErrorCode::NotSupported));
    assert_eq!(ttl_from_raw(255), Ok(255));
}

#[test]
fn zero_is_rejected_everywhere() {
    let mut s = SystemTcpSocket::new(AddressFamily::V4, Platform::Linux);
    assert_eq!(
        s.set_keep_alive_idle_time(0),
        Err(ErrorCode::InvalidArgument)
    );
    assert_eq!(s.set_keep_alive_interval(0), Err(ErrorCode::InvalidArgument));
    assert_eq!(s.set_keep_alive_count(0), Err(ErrorCode::InvalidArgument));
    assert_eq!(
        s.set_receive_buffer_size(0),
        Err(ErrorCode::InvalidArgument)
    );
    assert_eq!(s.set_send_buffer_size(0), Err(ErrorCode::InvalidArgument));
    assert_eq!(
        s.set_listen_backlog_size(0),
        Err(ErrorCode::InvalidArgument)
    );
    assert_eq!(s.listen_backlog_size, 128);
}

#[test]
fn keep_alive_times_are_clamped_to_whole_seconds() {
    assert_eq!(clamp_keep_alive_nanos(1), Ok(1_000_000_000));
    assert_eq!(clamp_keep_alive_nanos(5_000_000_000), Ok(5_000_000_000));
    assert_eq!(clamp_keep_alive_nanos(u64::MAX), Ok(32_767_000_000_000));
}

#[test]
fn keep_alive_count_is_clamped() {
    assert_eq!(clamp_keep_alive_count(5), Ok(5));
    assert_eq!(clamp_keep_alive_count(200), Ok(127));
}

#[test]
fn buffer_sizes_are_clamped_for_the_operating_system() {
    assert_eq!(prepare_buffer_size(1), Ok(1));
    assert_eq!(prepare_buffer_size(0x8000_0000), Ok(0x7fff_ffff));
    assert_eq!(normalize_set_buffer_size(0), 1);
    assert_eq!(normalize_set_buffer_size(4096), 4096);
    let s = SystemTcpSocket::new(AddressFamily::V4, Platform::Linux);
    assert_eq!(s.set_receive_buffer_size(0x7fff_ffff), Ok(0x7fff_ffff));
    assert_eq!(s.set_send_buffer_size(8192), Ok(8192));
}

#[test]
fn buffer_size_getter_reverses_linux_doubling() {
    // Linux reports the internally doubled value; the getter halves it
    let v: usize = 65536;
    let set = normalize_set_buffer_size(v);
    assert_eq!(normalize_get_buffer_size(Platform::Linux, 2 * set), v);
    assert_eq!(normalize_get_buffer_size(Platform::MacOs, set), v);
    let s = SystemTcpSocket::new(AddressFamily::V4, Platform::Linux);
    assert_eq!(s.receive_buffer_size(2 * set), v);
    assert_eq!(s.send_buffer_size(2 * set), v);
}

#[test]
fn enobufs_from_a_buffer_setter_counts_as_success() {
    assert_eq!(buffer_size_set_result(Ok(())), Ok(()));
    assert_eq!(buffer_size_set_result(Err(Errno::NoBufs)), Ok(()));
    assert_eq!(
        buffer_size_set_result(Err(Errno::Inval)),
        Err(ErrorCode::InvalidArgument)
    );
}

#[test]
fn backlog_is_stored_before_listen() {
    let mut s = SystemTcpSocket::new(AddressFamily::V4, Platform::Linux);
    assert_eq!(s.set_listen_backlog_size(5), Ok(BacklogAction::Stored));
    assert_eq!(s.listen_backlog_size, 5);
    assert_eq!(
        s.set_listen_backlog_size(u64::MAX),
        Ok(BacklogAction::Stored)
    );
    assert_eq!(s.listen_backlog_size, i32::MAX);
}

#[test]
fn backlog_on_a_listening_socket_needs_a_renewed_listen() {
    let mut s = SystemTcpSocket::new(AddressFamily::V4, Platform::Linux);
    assert_eq!(s.listen(), Ok(128));
    s.listen_succeeded();
    assert_eq!(s.set_listen_backlog_size(64), Ok(BacklogAction::Relisten(64)));
    // nothing stored until the renewed listen succeeds
    assert_eq!(s.listen_backlog_size, 128);
    assert_eq!(s.relisten_outcome(64, true), Ok(()));
    assert_eq!(s.listen_backlog_size, 64);
    // a platform that cannot re-apply the backlog reports not-supported
    // and leaves the stored value alone
    assert_eq!(
        s.relisten_outcome(32, false),
        Err(ErrorCode::NotSupported)
    );
    assert_eq!(s.listen_backlog_size, 64);
}

#[test]
fn listening_twice_is_rejected() {
    let mut s = SystemTcpSocket::new(AddressFamily::V4, Platform::Linux);
    assert_eq!(s.listen(), Ok(128));
    s.listen_succeeded();
    assert_eq!(s.listen(), Err(ErrorCode::Unknown));
}

#[test]
fn macos_children_inherit_recorded_options() {
    let mut s = SystemTcpSocket::new(AddressFamily::V6, Platform::MacOs);
    s.record_applied(AppliedOption::ReceiveBuffer(4096));
    s.record_applied(AppliedOption::SendBuffer(8192));
    s.record_applied(AppliedOption::HopLimit(32));
    s.record_applied(AppliedOption::KeepAliveIdleTime(7_000_000_000));
    assert_eq!(
        s.accept_inherit_plan(),
        AcceptInherit {
            receive_buffer_size: Some(4096),
            send_buffer_size: Some(8192),
            hop_limit: Some(32),
            keep_alive_idle_time: Some(7_000_000_000),
        }
    );
}

#[test]
fn macos_v4_children_inherit_the_ttl_from_the_system() {
    // IP_TTL is inherited by the system itself; only IPV6_UNICAST_HOPS
    // needs replaying, so a V4 listener replays no hop limit
    let mut s = SystemTcpSocket::new(AddressFamily::V4, Platform::MacOs);
    s.record_applied(AppliedOption::HopLimit(32));
    let plan = s.accept_inherit_plan();
    assert_eq!(plan.hop_limit, None);
}

#[test]
fn only_macos_replays_options() {
    let mut s = SystemTcpSocket::new(AddressFamily::V6, Platform::Linux);
    s.record_applied(AppliedOption::ReceiveBuffer(4096));
    s.record_applied(AppliedOption::HopLimit(32));
    assert_eq!(
        s.accept_inherit_plan(),
        AcceptInherit {
            receive_buffer_size: None,
            send_buffer_size: None,
            hop_limit: None,
            keep_alive_idle_time: None,
        }
    );
}
