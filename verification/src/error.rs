//! The closed error taxonomy of the socket surface, and the mapping from
//! native error numbers and generic I/O error kinds onto it.
//!
//! Native errors reach this crate as plain values: the host glue extracts
//! the errno (when one is available) and the generic error kind from the
//! operating-system error and hands them in.  Everything that is decided
//! about them -- the per-errno table, the fallback table on error kinds and
//! the per-platform rewrites around `bind`, `listen` and `accept` -- is
//! verified here.

use vstd::prelude::*;

verus! {

/// The closed set of error codes surfaced to the guest.
#[derive(Clone, Copy, PartialEq, Eq, Structural, Debug)]
pub enum ErrorCode {
    Unknown,
    AccessDenied,
    NotSupported,
    InvalidArgument,
    OutOfMemory,
    Timeout,
    ConcurrencyConflict,
    NotInProgress,
    WouldBlock,
    InvalidState,
    NewSocketLimit,
    AddressNotBindable,
    AddressInUse,
    RemoteUnreachable,
    ConnectionRefused,
    ConnectionReset,
    ConnectionAborted,
    DatagramTooLarge,
}

/// The native error numbers this surface distinguishes.  `Again` stands for
/// both `EAGAIN` and `EWOULDBLOCK`, which share a value on the supported
/// platforms; every errno outside the table is handed in as `Other`.
#[derive(Clone, Copy, PartialEq, Eq, Structural, Debug)]
pub enum Errno {
    Again,
    Intr,
    Perm,
    Access,
    AddrInUse,
    AddrNotAvail,
    Already,
    TimedOut,
    ConnRefused,
    ConnReset,
    ConnAborted,
    Inval,
    HostUnreach,
    HostDown,
    NetDown,
    NetUnreach,
    NetReset,
    NoNet,
    IsConn,
    NotConn,
    DestAddrReq,
    NFile,
    MFile,
    MsgSize,
    NoMem,
    NoBufs,
    OpNotSupp,
    NoProtoOpt,
    PfNoSupport,
    ProtoNoSupport,
    ProtoType,
    SocktNoSupport,
    AfNoSupport,
    InProgress,
    Proto,
    Other,
}

/// The generic I/O error kinds this surface distinguishes; every kind
/// outside the table is handed in as `Other`.
#[derive(Clone, Copy, PartialEq, Eq, Structural, Debug)]
pub enum IoErrorKind {
    AddrInUse,
    AddrNotAvailable,
    ConnectionAborted,
    ConnectionRefused,
    ConnectionReset,
    Interrupted,
    InvalidInput,
    NotConnected,
    OutOfMemory,
    PermissionDenied,
    TimedOut,
    Unsupported,
    WouldBlock,
    Other,
}

/// The targets whose quirks are normalized.  The platform is a plain value
/// so that every rewrite is stated and verified once, for all targets.
#[derive(Clone, Copy, PartialEq, Eq, Structural, Debug)]
pub enum Platform {
    Linux,
    MacOs,
    OtherUnix,
    Windows,
}

/// The error code that a native errno maps to.
pub open spec fn spec_code_of_errno(e: Errno) -> ErrorCode {
    match e {
        Errno::Again => ErrorCode::WouldBlock,
        Errno::Intr => ErrorCode::WouldBlock,
        Errno::Perm => ErrorCode::AccessDenied,
        Errno::Access => ErrorCode::AccessDenied,
        Errno::AddrInUse => ErrorCode::AddressInUse,
        Errno::AddrNotAvail => ErrorCode::AddressNotBindable,
        Errno::Already => ErrorCode::ConcurrencyConflict,
        Errno::TimedOut => ErrorCode::Timeout,
        Errno::ConnRefused => ErrorCode::ConnectionRefused,
        Errno::ConnReset => ErrorCode::ConnectionReset,
        Errno::ConnAborted => ErrorCode::ConnectionAborted,
        Errno::Inval => ErrorCode::InvalidArgument,
        Errno::HostUnreach => ErrorCode::RemoteUnreachable,
        Errno::HostDown => ErrorCode::RemoteUnreachable,
        Errno::NetDown => ErrorCode::RemoteUnreachable,
        Errno::NetUnreach => ErrorCode::RemoteUnreachable,
        Errno::NoNet => ErrorCode::RemoteUnreachable,
        Errno::IsConn => ErrorCode::InvalidState,
        Errno::NotConn => ErrorCode::InvalidState,
        Errno::DestAddrReq => ErrorCode::InvalidState,
        Errno::NFile => ErrorCode::NewSocketLimit,
        Errno::MFile => ErrorCode::NewSocketLimit,
        Errno::MsgSize => ErrorCode::DatagramTooLarge,
        Errno::NoMem => ErrorCode::OutOfMemory,
        Errno::NoBufs => ErrorCode::OutOfMemory,
        Errno::OpNotSupp => ErrorCode::NotSupported,
        Errno::NoProtoOpt => ErrorCode::NotSupported,
        Errno::PfNoSupport => ErrorCode::NotSupported,
        Errno::ProtoNoSupport => ErrorCode::NotSupported,
        Errno::ProtoType => ErrorCode::NotSupported,
        Errno::SocktNoSupport => ErrorCode::NotSupported,
        Errno::AfNoSupport => ErrorCode::NotSupported,
        _ => ErrorCode::Unknown,
    }
}

/// The error code that a generic I/O error kind maps to.
pub open spec fn spec_code_of_io_kind(kind: IoErrorKind) -> ErrorCode {
    match kind {
        IoErrorKind::AddrInUse => ErrorCode::AddressInUse,
        IoErrorKind::AddrNotAvailable => ErrorCode::AddressNotBindable,
        IoErrorKind::ConnectionAborted => ErrorCode::ConnectionAborted,
        IoErrorKind::ConnectionRefused => ErrorCode::ConnectionRefused,
        IoErrorKind::ConnectionReset => ErrorCode::ConnectionReset,
        IoErrorKind::Interrupted => ErrorCode::WouldBlock,
        IoErrorKind::InvalidInput => ErrorCode::InvalidArgument,
        IoErrorKind::NotConnected => ErrorCode::InvalidState,
        IoErrorKind::OutOfMemory => ErrorCode::OutOfMemory,
        IoErrorKind::PermissionDenied => ErrorCode::AccessDenied,
        IoErrorKind::TimedOut => ErrorCode::Timeout,
        IoErrorKind::Unsupported => ErrorCode::NotSupported,
        IoErrorKind::WouldBlock => ErrorCode::WouldBlock,
        IoErrorKind::Other => ErrorCode::Unknown,
    }
}

/// The error code of a generic I/O error: the more detailed native errno
/// wins when one is available, the error kind decides otherwise.
pub open spec fn spec_code_of_io_error(errno: Option<Errno>, kind: IoErrorKind) -> ErrorCode {
    match errno {
        Option::Some(e) => spec_code_of_errno(e),
        Option::None => spec_code_of_io_kind(kind),
    }
}

impl ErrorCode {
    /// Map a native errno to its error code.
    pub fn from_errno(e: Errno) -> (r: ErrorCode)
        ensures
            r == spec_code_of_errno(e),
    {
        match e {
            Errno::Again => ErrorCode::WouldBlock,
            Errno::Intr => ErrorCode::WouldBlock,
            Errno::Perm => ErrorCode::AccessDenied,
            Errno::Access => ErrorCode::AccessDenied,
            Errno::AddrInUse => ErrorCode::AddressInUse,
            Errno::AddrNotAvail => ErrorCode::AddressNotBindable,
            Errno::Already => ErrorCode::ConcurrencyConflict,
            Errno::TimedOut => ErrorCode::Timeout,
            Errno::ConnRefused => ErrorCode::ConnectionRefused,
            Errno::ConnReset => ErrorCode::ConnectionReset,
            Errno::ConnAborted => ErrorCode::ConnectionAborted,
            Errno::Inval => ErrorCode::InvalidArgument,
            Errno::HostUnreach => ErrorCode::RemoteUnreachable,
            Errno::HostDown => ErrorCode::RemoteUnreachable,
            Errno::NetDown => ErrorCode::RemoteUnreachable,
            Errno::NetUnreach => ErrorCode::RemoteUnreachable,
            Errno::NoNet => ErrorCode::RemoteUnreachable,
            Errno::IsConn => ErrorCode::InvalidState,
            Errno::NotConn => ErrorCode::InvalidState,
            Errno::DestAddrReq => ErrorCode::InvalidState,
            Errno::NFile => ErrorCode::NewSocketLimit,
            Errno::MFile => ErrorCode::NewSocketLimit,
            Errno::MsgSize => ErrorCode::DatagramTooLarge,
            Errno::NoMem => ErrorCode::OutOfMemory,
            Errno::NoBufs => ErrorCode::OutOfMemory,
            Errno::OpNotSupp => ErrorCode::NotSupported,
            Errno::NoProtoOpt => ErrorCode::NotSupported,
            Errno::PfNoSupport => ErrorCode::NotSupported,
            Errno::ProtoNoSupport => ErrorCode::NotSupported,
            Errno::ProtoType => ErrorCode::NotSupported,
            Errno::SocktNoSupport => ErrorCode::NotSupported,
            Errno::AfNoSupport => ErrorCode::NotSupported,
            _ => ErrorCode::Unknown,
        }
    }

    /// Map a generic I/O error kind to its error code.
    pub fn from_io_kind(kind: IoErrorKind) -> (r: ErrorCode)
        ensures
            r == spec_code_of_io_kind(kind),
    {
        match kind {
            IoErrorKind::AddrInUse => ErrorCode::AddressInUse,
            IoErrorKind::AddrNotAvailable => ErrorCode::AddressNotBindable,
            IoErrorKind::ConnectionAborted => ErrorCode::ConnectionAborted,
            IoErrorKind::ConnectionRefused => ErrorCode::ConnectionRefused,
            IoErrorKind::ConnectionReset => ErrorCode::ConnectionReset,
            IoErrorKind::Interrupted => ErrorCode::WouldBlock,
            IoErrorKind::InvalidInput => ErrorCode::InvalidArgument,
            IoErrorKind::NotConnected => ErrorCode::InvalidState,
            IoErrorKind::OutOfMemory => ErrorCode::OutOfMemory,
            IoErrorKind::PermissionDenied => ErrorCode::AccessDenied,
            IoErrorKind::TimedOut => ErrorCode::Timeout,
            IoErrorKind::Unsupported => ErrorCode::NotSupported,
            IoErrorKind::WouldBlock => ErrorCode::WouldBlock,
            IoErrorKind::Other => ErrorCode::Unknown,
        }
    }

    /// Map a generic I/O error, given as the optional native errno behind it
    /// and its error kind, to its error code.
    pub fn from_io_error(errno: Option<Errno>, kind: IoErrorKind) -> (r: ErrorCode)
        ensures
            r == spec_code_of_io_error(errno, kind),
    {
        match errno {
            Option::Some(e) => ErrorCode::from_errno(e),
            Option::None => ErrorCode::from_io_kind(kind),
        }
    }
}

/// The errno that a failed `bind` reports, after normalization: Windows
/// reports `ENOBUFS` when the ephemeral ports are exhausted, which every
/// other platform reports as the address being in use.
pub open spec fn spec_normalize_bind_errno(platform: Platform, e: Errno) -> Errno {
    if platform == Platform::Windows && e == Errno::NoBufs {
        Errno::AddrInUse
    } else {
        e
    }
}

/// Normalize the errno of a failed `bind`.
pub fn normalize_bind_errno(platform: Platform, e: Errno) -> (r: Errno)
    ensures
        r == spec_normalize_bind_errno(platform, e),
{
    if platform == Platform::Windows && e == Errno::NoBufs {
        Errno::AddrInUse
    } else {
        e
    }
}

/// The errno that a failed `listen` reports, after normalization: Windows
/// documents `EMFILE` for `listen`, which is rewritten to the less
/// surprising `ENOBUFS` since no new descriptor was requested.
pub open spec fn spec_normalize_listen_errno(platform: Platform, e: Errno) -> Errno {
    if platform == Platform::Windows && e == Errno::MFile {
        Errno::NoBufs
    } else {
        e
    }
}

/// Normalize the errno of a failed `listen`.
pub fn normalize_listen_errno(platform: Platform, e: Errno) -> (r: Errno)
    ensures
        r == spec_normalize_listen_errno(platform, e),
{
    if platform == Platform::Windows && e == Errno::MFile {
        Errno::NoBufs
    } else {
        e
    }
}

/// Whether Linux may report this errno from `accept` for a connection-level
/// failure that the BSDs would swallow into `ECONNABORTED`.
pub open spec fn spec_linux_accept_conn_errno(e: Errno) -> bool {
    ||| e == Errno::ConnReset
    ||| e == Errno::NetReset
    ||| e == Errno::HostUnreach
    ||| e == Errno::HostDown
    ||| e == Errno::NetDown
    ||| e == Errno::NetUnreach
    ||| e == Errno::Proto
    ||| e == Errno::NoProtoOpt
    ||| e == Errno::NoNet
    ||| e == Errno::OpNotSupp
}

/// The errno that a failed `accept` reports, after normalization: Windows
/// can report `EINPROGRESS`-class failures, folded into `EINTR` so that the
/// guest sees its single try-again signal; Linux passes pending network
/// errors of the accepted connection out of `accept` itself, folded into
/// `ECONNABORTED` to match the BSD behavior.
pub open spec fn spec_normalize_accept_errno(platform: Platform, e: Errno) -> Errno {
    if platform == Platform::Windows && e == Errno::InProgress {
        Errno::Intr
    } else if platform == Platform::Linux && spec_linux_accept_conn_errno(e) {
        Errno::ConnAborted
    } else {
        e
    }
}

/// Normalize the errno of a failed `accept`.
pub fn normalize_accept_errno(platform: Platform, e: Errno) -> (r: Errno)
    ensures
        r == spec_normalize_accept_errno(platform, e),
{
    if platform == Platform::Windows && e == Errno::InProgress {
        Errno::Intr
    } else if platform == Platform::Linux && (e == Errno::ConnReset || e == Errno::NetReset
        || e == Errno::HostUnreach || e == Errno::HostDown || e == Errno::NetDown
        || e == Errno::NetUnreach || e == Errno::Proto || e == Errno::NoProtoOpt
        || e == Errno::NoNet || e == Errno::OpNotSupp) {
        Errno::ConnAborted
    } else {
        e
    }
}

} // verus!
