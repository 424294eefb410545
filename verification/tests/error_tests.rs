use wasi_tcp::error::{
    normalize_accept_errno, normalize_bind_errno, normalize_listen_errno, Errno, ErrorCode,
    IoErrorKind, Platform,
};

#[test]
fn errno_table_maps_try_again_family() {
    assert_eq!(ErrorCode::from_errno(Errno::Again), ErrorCode::WouldBlock);
    assert_eq!(ErrorCode::from_errno(Errno::Intr), ErrorCode::WouldBlock);
}

#[test]
fn errno_table_maps_access_and_addresses() {
    assert_eq!(ErrorCode::from_errno(Errno::Perm), ErrorCode::AccessDenied);
    assert_eq!(ErrorCode::from_errno(Errno::Access), ErrorCode::AccessDenied);
    assert_eq!(ErrorCode::from_errno(Errno::AddrInUse), ErrorCode::AddressInUse);
    assert_eq!(
        ErrorCode::from_errno(Errno::AddrNotAvail),
        ErrorCode::AddressNotBindable
    );
}

#[test]
fn errno_table_maps_connection_outcomes() {
    assert_eq!(
        ErrorCode::from_errno(Errno::Already),
        ErrorCode::ConcurrencyConflict
    );
    assert_eq!(ErrorCode::from_errno(Errno::TimedOut), ErrorCode::Timeout);
    assert_eq!(
        ErrorCode::from_errno(Errno::ConnRefused),
        ErrorCode::ConnectionRefused
    );
    assert_eq!(
        ErrorCode::from_errno(Errno::ConnReset),
        ErrorCode::ConnectionReset
    );
    assert_eq!(
        ErrorCode::from_errno(Errno::ConnAborted),
        ErrorCode::ConnectionAborted
    );
}

#[test]
fn errno_table_maps_reachability_to_remote_unreachable() {
    for e in [
        Errno::HostUnreach,
        Errno::HostDown,
        Errno::NetDown,
        Errno::NetUnreach,
        Errno::NoNet,
    ] {
        assert_eq!(ErrorCode::from_errno(e), ErrorCode::RemoteUnreachable);
    }
}

#[test]
fn errno_table_maps_state_and_limits() {
    for e in [Errno::IsConn, Errno::NotConn, Errno::DestAddrReq] {
        assert_eq!(ErrorCode::from_errno(e), ErrorCode::InvalidState);
    }
    assert_eq!(ErrorCode::from_errno(Errno::NFile), ErrorCode::NewSocketLimit);
    assert_eq!(ErrorCode::from_errno(Errno::MFile), ErrorCode::NewSocketLimit);
    assert_eq!(
        ErrorCode::from_errno(Errno::MsgSize),
        ErrorCode::DatagramTooLarge
    );
    assert_eq!(ErrorCode::from_errno(Errno::NoMem), ErrorCode::OutOfMemory);
    assert_eq!(ErrorCode::from_errno(Errno::NoBufs), ErrorCode::OutOfMemory);
}

#[test]
fn errno_table_maps_protocol_support_to_not_supported() {
    for e in [
        Errno::OpNotSupp,
        Errno::NoProtoOpt,
        Errno::PfNoSupport,
        Errno::ProtoNoSupport,
        Errno::ProtoType,
        Errno::SocktNoSupport,
        Errno::AfNoSupport,
    ] {
        assert_eq!(ErrorCode::from_errno(e), ErrorCode::NotSupported);
    }
}

#[test]
fn errno_table_leaves_the_rest_unknown() {
    assert_eq!(ErrorCode::from_errno(Errno::InProgress), ErrorCode::Unknown);
    assert_eq!(ErrorCode::from_errno(Errno::NetReset), ErrorCode::Unknown);
    assert_eq!(ErrorCode::from_errno(Errno::Proto), ErrorCode::Unknown);
    assert_eq!(ErrorCode::from_errno(Errno::Other), ErrorCode::Unknown);
}

#[test]
fn io_kind_table_matches_the_taxonomy() {
    assert_eq!(
        ErrorCode::from_io_kind(IoErrorKind::AddrInUse),
        ErrorCode::AddressInUse
    );
    assert_eq!(
        ErrorCode::from_io_kind(IoErrorKind::AddrNotAvailable),
        ErrorCode::AddressNotBindable
    );
    assert_eq!(
        ErrorCode::from_io_kind(IoErrorKind::Interrupted),
        ErrorCode::WouldBlock
    );
    assert_eq!(
        ErrorCode::from_io_kind(IoErrorKind::InvalidInput),
        ErrorCode::InvalidArgument
    );
    assert_eq!(
        ErrorCode::from_io_kind(IoErrorKind::NotConnected),
        ErrorCode::InvalidState
    );
    assert_eq!(
        ErrorCode::from_io_kind(IoErrorKind::PermissionDenied),
        ErrorCode::AccessDenied
    );
    assert_eq!(
        ErrorCode::from_io_kind(IoErrorKind::TimedOut),
        ErrorCode::Timeout
    );
    assert_eq!(
        ErrorCode::from_io_kind(IoErrorKind::Unsupported),
        ErrorCode::NotSupported
    );
    assert_eq!(
        ErrorCode::from_io_kind(IoErrorKind::WouldBlock),
        ErrorCode::WouldBlock
    );
    assert_eq!(ErrorCode::from_io_kind(IoErrorKind::Other), ErrorCode::Unknown);
}

#[test]
fn io_error_prefers_the_native_errno() {
    assert_eq!(
        ErrorCode::from_io_error(Some(Errno::ConnRefused), IoErrorKind::Other),
        ErrorCode::ConnectionRefused
    );
    assert_eq!(
        ErrorCode::from_io_error(None, IoErrorKind::TimedOut),
        ErrorCode::Timeout
    );
}

#[test]
fn bind_rewrites_enobufs_on_windows_only() {
    assert_eq!(
        normalize_bind_errno(Platform::Windows, Errno::NoBufs),
        Errno::AddrInUse
    );
    assert_eq!(
        normalize_bind_errno(Platform::Linux, Errno::NoBufs),
        Errno::NoBufs
    );
    assert_eq!(
        normalize_bind_errno(Platform::Windows, Errno::AddrInUse),
        Errno::AddrInUse
    );
}

#[test]
fn listen_rewrites_emfile_on_windows_only() {
    assert_eq!(
        normalize_listen_errno(Platform::Windows, Errno::MFile),
        Errno::NoBufs
    );
    assert_eq!(
        normalize_listen_errno(Platform::MacOs, Errno::MFile),
        Errno::MFile
    );
}

#[test]
fn accept_folds_windows_in_progress_into_eintr() {
    assert_eq!(
        normalize_accept_errno(Platform::Windows, Errno::InProgress),
        Errno::Intr
    );
    assert_eq!(
        normalize_accept_errno(Platform::MacOs, Errno::InProgress),
        Errno::InProgress
    );
}

#[test]
fn accept_folds_linux_connection_errors_into_econnaborted() {
    for e in [
        Errno::ConnReset,
        Errno::NetReset,
        Errno::HostUnreach,
        Errno::HostDown,
        Errno::NetDown,
        Errno::NetUnreach,
        Errno::Proto,
        Errno::NoProtoOpt,
        Errno::NoNet,
        Errno::OpNotSupp,
    ] {
        assert_eq!(normalize_accept_errno(Platform::Linux, e), Errno::ConnAborted);
    }
    assert_eq!(
        normalize_accept_errno(Platform::Linux, Errno::Again),
        Errno::Again
    );
    assert_eq!(
        normalize_accept_errno(Platform::OtherUnix, Errno::ConnReset),
        Errno::ConnReset
    );
}
