//! What the transport reports, classified: every raw status is a fatal error, a
//! completion code, or a value that the standard does not define. The two tables
//! below are those of the VISA standard.
use crate::text::{decimal, signed_decimal, to_decimal, to_signed_decimal};
use crate::utility::{as_millis, duration_millis};
use vstd::prelude::*;
use vstd::std_specs::convert::TryFromSpecImpl;
use vstd::string::*;

verus! {

// Fatal status values of the VISA standard. Each is the error bit (the sign bit) plus
// 0x3FFF0000 plus an index, the index being given in hexadecimal beside it.
pub const VI_ERROR_SYSTEM_ERROR: i32 = -1073807360;  // 0x00
pub const VI_ERROR_INV_OBJECT: i32 = -1073807346;  // 0x0E
pub const VI_ERROR_RSRC_LOCKED: i32 = -1073807345;  // 0x0F
pub const VI_ERROR_INV_EXPR: i32 = -1073807344;  // 0x10
pub const VI_ERROR_RSRC_NFOUND: i32 = -1073807343;  // 0x11
pub const VI_ERROR_INV_RSRC_NAME: i32 = -1073807342;  // 0x12
pub const VI_ERROR_INV_ACC_MODE: i32 = -1073807341;  // 0x13
pub const VI_ERROR_TMO: i32 = -1073807339;  // 0x15
pub const VI_ERROR_CLOSING_FAILED: i32 = -1073807338;  // 0x16
pub const VI_ERROR_INV_DEGREE: i32 = -1073807333;  // 0x1B
pub const VI_ERROR_INV_JOB_ID: i32 = -1073807332;  // 0x1C
pub const VI_ERROR_NSUP_ATTR: i32 = -1073807331;  // 0x1D
pub const VI_ERROR_NSUP_ATTR_STATE: i32 = -1073807330;  // 0x1E
pub const VI_ERROR_ATTR_READONLY: i32 = -1073807329;  // 0x1F
pub const VI_ERROR_INV_LOCK_TYPE: i32 = -1073807328;  // 0x20
pub const VI_ERROR_INV_ACCESS_KEY: i32 = -1073807327;  // 0x21
pub const VI_ERROR_INV_EVENT: i32 = -1073807322;  // 0x26
pub const VI_ERROR_INV_MECH: i32 = -1073807321;  // 0x27
pub const VI_ERROR_HNDLR_NINSTALLED: i32 = -1073807320;  // 0x28
pub const VI_ERROR_INV_HNDLR_REF: i32 = -1073807319;  // 0x29
pub const VI_ERROR_INV_CONTEXT: i32 = -1073807318;  // 0x2A
pub const VI_ERROR_QUEUE_OVERFLOW: i32 = -1073807315;  // 0x2D
pub const VI_ERROR_NENABLED: i32 = -1073807313;  // 0x2F
pub const VI_ERROR_ABORT: i32 = -1073807312;  // 0x30
pub const VI_ERROR_RAW_WR_PROT_VIOL: i32 = -1073807308;  // 0x34
pub const VI_ERROR_RAW_RD_PROT_VIOL: i32 = -1073807307;  // 0x35
pub const VI_ERROR_OUTP_PROT_VIOL: i32 = -1073807306;  // 0x36
pub const VI_ERROR_INP_PROT_VIOL: i32 = -1073807305;  // 0x37
pub const VI_ERROR_BERR: i32 = -1073807304;  // 0x38
pub const VI_ERROR_IN_PROGRESS: i32 = -1073807303;  // 0x39
pub const VI_ERROR_INV_SETUP: i32 = -1073807302;  // 0x3A
pub const VI_ERROR_QUEUE_ERROR: i32 = -1073807301;  // 0x3B
pub const VI_ERROR_ALLOC: i32 = -1073807300;  // 0x3C
pub const VI_ERROR_INV_MASK: i32 = -1073807299;  // 0x3D
pub const VI_ERROR_IO: i32 = -1073807298;  // 0x3E
pub const VI_ERROR_INV_FMT: i32 = -1073807297;  // 0x3F
pub const VI_ERROR_NSUP_FMT: i32 = -1073807295;  // 0x41
pub const VI_ERROR_LINE_IN_USE: i32 = -1073807294;  // 0x42
pub const VI_ERROR_NSUP_MODE: i32 = -1073807290;  // 0x46
pub const VI_ERROR_SRQ_NOCCURRED: i32 = -1073807286;  // 0x4A
pub const VI_ERROR_INV_SPACE: i32 = -1073807282;  // 0x4E
pub const VI_ERROR_INV_OFFSET: i32 = -1073807279;  // 0x51
pub const VI_ERROR_INV_WIDTH: i32 = -1073807278;  // 0x52
pub const VI_ERROR_NSUP_OFFSET: i32 = -1073807276;  // 0x54
pub const VI_ERROR_NSUP_VAR_WIDTH: i32 = -1073807275;  // 0x55
pub const VI_ERROR_WINDOW_NMAPPED: i32 = -1073807273;  // 0x57
pub const VI_ERROR_RESP_PENDING: i32 = -1073807271;  // 0x59
pub const VI_ERROR_NLISTENERS: i32 = -1073807265;  // 0x5F
pub const VI_ERROR_NCIC: i32 = -1073807264;  // 0x60
pub const VI_ERROR_NSYS_CNTLR: i32 = -1073807263;  // 0x61
pub const VI_ERROR_NSUP_OPER: i32 = -1073807257;  // 0x67
pub const VI_ERROR_INTR_PENDING: i32 = -1073807256;  // 0x68
pub const VI_ERROR_ASRL_PARITY: i32 = -1073807254;  // 0x6A
pub const VI_ERROR_ASRL_FRAMING: i32 = -1073807253;  // 0x6B
pub const VI_ERROR_ASRL_OVERRUN: i32 = -1073807252;  // 0x6C
pub const VI_ERROR_TRIG_NMAPPED: i32 = -1073807250;  // 0x6E
pub const VI_ERROR_NSUP_ALIGN_OFFSET: i32 = -1073807248;  // 0x70
pub const VI_ERROR_USER_BUF: i32 = -1073807247;  // 0x71
pub const VI_ERROR_RSRC_BUSY: i32 = -1073807246;  // 0x72
pub const VI_ERROR_NSUP_WIDTH: i32 = -1073807242;  // 0x76
pub const VI_ERROR_INV_PARAMETER: i32 = -1073807240;  // 0x78
pub const VI_ERROR_INV_PROT: i32 = -1073807239;  // 0x79
pub const VI_ERROR_INV_SIZE: i32 = -1073807237;  // 0x7B
pub const VI_ERROR_WINDOW_MAPPED: i32 = -1073807232;  // 0x80
pub const VI_ERROR_NIMPL_OPER: i32 = -1073807231;  // 0x81
pub const VI_ERROR_INV_LENGTH: i32 = -1073807229;  // 0x83
pub const VI_ERROR_INV_MODE: i32 = -1073807215;  // 0x91
pub const VI_ERROR_SESN_NLOCKED: i32 = -1073807204;  // 0x9C
pub const VI_ERROR_MEM_NSHARED: i32 = -1073807203;  // 0x9D
pub const VI_ERROR_LIBRARY_NFOUND: i32 = -1073807202;  // 0x9E
pub const VI_ERROR_NSUP_INTR: i32 = -1073807201;  // 0x9F
pub const VI_ERROR_INV_LINE: i32 = -1073807200;  // 0xA0
pub const VI_ERROR_FILE_ACCESS: i32 = -1073807199;  // 0xA1
pub const VI_ERROR_FILE_IO: i32 = -1073807198;  // 0xA2
pub const VI_ERROR_NSUP_LINE: i32 = -1073807197;  // 0xA3
pub const VI_ERROR_NSUP_MECH: i32 = -1073807196;  // 0xA4
pub const VI_ERROR_INTF_NUM_NCONFIG: i32 = -1073807195;  // 0xA5
pub const VI_ERROR_CONN_LOST: i32 = -1073807194;  // 0xA6
pub const VI_ERROR_MACHINE_NAVAIL: i32 = -1073807193;  // 0xA7
pub const VI_ERROR_NPERMISSION: i32 = -1073807192;  // 0xA8

// Completion and warning status values of the VISA standard: zero for plain success,
// else 0x3FFF0000 plus the index given in hexadecimal beside it.
pub const VI_SUCCESS: u32 = 0;
pub const VI_SUCCESS_EVENT_EN: u32 = 1073676290;  // 0x02
pub const VI_SUCCESS_EVENT_DIS: u32 = 1073676291;  // 0x03
pub const VI_SUCCESS_QUEUE_EMPTY: u32 = 1073676292;  // 0x04
pub const VI_SUCCESS_TERM_CHAR: u32 = 1073676293;  // 0x05
pub const VI_SUCCESS_MAX_CNT: u32 = 1073676294;  // 0x06
pub const VI_SUCCESS_DEV_NPRESENT: u32 = 1073676413;  // 0x7D
pub const VI_SUCCESS_TRIG_MAPPED: u32 = 1073676414;  // 0x7E
pub const VI_SUCCESS_QUEUE_NEMPTY: u32 = 1073676416;  // 0x80
pub const VI_SUCCESS_NCHAIN: u32 = 1073676440;  // 0x98
pub const VI_SUCCESS_NESTED_SHARED: u32 = 1073676441;  // 0x99
pub const VI_SUCCESS_NESTED_EXCLUSIVE: u32 = 1073676442;  // 0x9A
pub const VI_SUCCESS_SYNC: u32 = 1073676443;  // 0x9B
pub const VI_WARN_QUEUE_OVERFLOW: u32 = 1073676300;  // 0x0C
pub const VI_WARN_CONFIG_NLOADED: u32 = 1073676407;  // 0x77
pub const VI_WARN_NULL_OBJECT: u32 = 1073676418;  // 0x82
pub const VI_WARN_NSUP_ATTR_STATE: u32 = 1073676420;  // 0x84
pub const VI_WARN_UNKNOWN_STATUS: u32 = 1073676421;  // 0x85
pub const VI_WARN_NSUP_BUF: u32 = 1073676424;  // 0x88
pub const VI_WARN_EXT_FUNC_NIMPL: u32 = 1073676457;  // 0xA9

/// Everything that can go wrong: the fatal conditions that the transport reports, by
/// their names in the VISA standard, followed by the failures that this library itself
/// detects.
#[derive(Debug, Clone, PartialEq, Eq)]
pub enum Error {
    System,
    InvalidObject,
    ResourceLocked,
    InvalidExpression,
    ResourceNotFound,
    InvalidResourceName,
    InvalidAccessMode,
    Timeout,
    ClosingFailed,
    InvalidDegree,
    InvalidJobId,
    AttributeNotSupported,
    AttributeStateNotSupported,
    AttibuteReadOnly,
    InvalidLockType,
    InvalidAccessKey,
    InvalidEvent,
    InvalidMechanism,
    HandlerNotInstalled,
    InvalidHandlerReference,
    InvalidContext,
    QueueOverflow,
    NotEnabled,
    Abort,
    RawWriteProtocolViolation,
    RawReadProtocolViolation,
    OutputProtocolViolation,
    InputProtocolViolation,
    Bus,
    InProgress,
    InvalidSetup,
    Queue,
    Allocation,
    InvalidMask,
    Io,
    InvalidFormat,
    FormatNotSupported,
    TriggerLineInUse,
    ModeNotSupported,
    ServiceRequestNotReceived,
    InvalidAddressSpace,
    InvalidOffset,
    InvalidWidth,
    OffsetNotAccessible,
    VariableWidthNotSupported,
    SessionNotMapped,
    ResponsePending,
    NoListeners,
    NotControllerInCharge,
    NotSystemController,
    OperationNotSupported,
    InterruptPending,
    AsrlParity,
    AsrlFraming,
    AsrlOverrun,
    TriggerNotMapped,
    OffsetNotAligned,
    UserBuffer,
    ResourceBusy,
    WidthNotSupported,
    InvalidParameter,
    InvalidProtocol,
    InvalidSize,
    WindowMapped,
    OperationNotImplemented,
    InvalidLength,
    InvalidMode,
    SessionNotLocked,
    MemoryNotShared,
    LibraryNotFound,
    InterruptNotSupported,
    InvalidLine,
    FileAccess,
    FileIo,
    LineNotSupported,
    MechanismNotSupported,
    InterfaceNumberNotConfigured,
    ConnectionLost,
    MachineNotAvailable,
    NoPermission,
    /// A negative status that the standard does not define.
    InvalidErrorCode(i32),
    /// A non-negative status that the standard does not define.
    InvalidCompletionCode(u32),
    /// A custom timeout whose milliseconds do not fit the transport's 32-bit range.
    InvalidTimeout(core::time::Duration),
    /// The transport reported `length` bytes written where `expected` were handed to it.
    WriteLengthMismatch { length: usize, expected: usize },
    InvalidUtf8,
    InvalidNullString,
    IdentityParse(String),
    StandardEventStatusRegisterParse(String),
    StandardEventStatusEnableRegisterParse(String),
    OperationCompleteQueryParse(String),
    StatusByteRegisterQueryParse(String),
    SelfTestParse(String),
    ServiceRequestEnableQueryParse(String),
    /// A chunk read ended with a completion code that neither ends nor continues a message.
    UnexpectedCompletionCode(CompletionCode),
}

/// The ways in which a transport call can end without a fatal error: plain success and
/// the noteworthy completions and warnings of the VISA standard.
#[derive(Debug, Clone, Copy, PartialEq, Eq, Structural)]
pub enum CompletionCode {
    Success,
    EventEnabled,
    EventDisabled,
    QueueEmpty,
    TerminationCharacterRead,
    MaximumCount,
    DeviceNotPresent,
    TrigPathMapped,
    QueueNotEmpty,
    DoNotInvokeHandler,
    NestedSharedLock,
    NestedExclusiveLock,
    AsynchronousOperationHandledSynchronously,
    QueueOverflow,
    ConfigurationNotLoaded,
    NullObject,
    AttributeStateNotSupported,
    UnknownStatus,
    BufferNotSupported,
    ExtendedFunctionNotImplemented,
}

impl Error {
    /// The status value of the standard that a fatal variant stands for; `None` for the
    /// failures that the library itself detects, which no status value produces directly.
    pub open spec fn status(self) -> Option<i32> {
        match self {
            Error::System => Some(VI_ERROR_SYSTEM_ERROR),
            Error::InvalidObject => Some(VI_ERROR_INV_OBJECT),
            Error::ResourceLocked => Some(VI_ERROR_RSRC_LOCKED),
            Error::InvalidExpression => Some(VI_ERROR_INV_EXPR),
            Error::ResourceNotFound => Some(VI_ERROR_RSRC_NFOUND),
            Error::InvalidResourceName => Some(VI_ERROR_INV_RSRC_NAME),
            Error::InvalidAccessMode => Some(VI_ERROR_INV_ACC_MODE),
            Error::Timeout => Some(VI_ERROR_TMO),
            Error::ClosingFailed => Some(VI_ERROR_CLOSING_FAILED),
            Error::InvalidDegree => Some(VI_ERROR_INV_DEGREE),
            Error::InvalidJobId => Some(VI_ERROR_INV_JOB_ID),
            Error::AttributeNotSupported => Some(VI_ERROR_NSUP_ATTR),
            Error::AttributeStateNotSupported => Some(VI_ERROR_NSUP_ATTR_STATE),
            Error::AttibuteReadOnly => Some(VI_ERROR_ATTR_READONLY),
            Error::InvalidLockType => Some(VI_ERROR_INV_LOCK_TYPE),
            Error::InvalidAccessKey => Some(VI_ERROR_INV_ACCESS_KEY),
            Error::InvalidEvent => Some(VI_ERROR_INV_EVENT),
            Error::InvalidMechanism => Some(VI_ERROR_INV_MECH),
            Error::HandlerNotInstalled => Some(VI_ERROR_HNDLR_NINSTALLED),
            Error::InvalidHandlerReference => Some(VI_ERROR_INV_HNDLR_REF),
            Error::InvalidContext => Some(VI_ERROR_INV_CONTEXT),
            Error::QueueOverflow => Some(VI_ERROR_QUEUE_OVERFLOW),
            Error::NotEnabled => Some(VI_ERROR_NENABLED),
            Error::Abort => Some(VI_ERROR_ABORT),
            Error::RawWriteProtocolViolation => Some(VI_ERROR_RAW_WR_PROT_VIOL),
            Error::RawReadProtocolViolation => Some(VI_ERROR_RAW_RD_PROT_VIOL),
            Error::OutputProtocolViolation => Some(VI_ERROR_OUTP_PROT_VIOL),
            Error::InputProtocolViolation => Some(VI_ERROR_INP_PROT_VIOL),
            Error::Bus => Some(VI_ERROR_BERR),
            Error::InProgress => Some(VI_ERROR_IN_PROGRESS),
            Error::InvalidSetup => Some(VI_ERROR_INV_SETUP),
            Error::Queue => Some(VI_ERROR_QUEUE_ERROR),
            Error::Allocation => Some(VI_ERROR_ALLOC),
            Error::InvalidMask => Some(VI_ERROR_INV_MASK),
            Error::Io => Some(VI_ERROR_IO),
            Error::InvalidFormat => Some(VI_ERROR_INV_FMT),
            Error::FormatNotSupported => Some(VI_ERROR_NSUP_FMT),
            Error::TriggerLineInUse => Some(VI_ERROR_LINE_IN_USE),
            Error::ModeNotSupported => Some(VI_ERROR_NSUP_MODE),
            Error::ServiceRequestNotReceived => Some(VI_ERROR_SRQ_NOCCURRED),
            Error::InvalidAddressSpace => Some(VI_ERROR_INV_SPACE),
            Error::InvalidOffset => Some(VI_ERROR_INV_OFFSET),
            Error::InvalidWidth => Some(VI_ERROR_INV_WIDTH),
            Error::OffsetNotAccessible => Some(VI_ERROR_NSUP_OFFSET),
            Error::VariableWidthNotSupported => Some(VI_ERROR_NSUP_VAR_WIDTH),
            Error::SessionNotMapped => Some(VI_ERROR_WINDOW_NMAPPED),
            Error::ResponsePending => Some(VI_ERROR_RESP_PENDING),
            Error::NoListeners => Some(VI_ERROR_NLISTENERS),
            Error::NotControllerInCharge => Some(VI_ERROR_NCIC),
            Error::NotSystemController => Some(VI_ERROR_NSYS_CNTLR),
            Error::OperationNotSupported => Some(VI_ERROR_NSUP_OPER),
            Error::InterruptPending => Some(VI_ERROR_INTR_PENDING),
            Error::AsrlParity => Some(VI_ERROR_ASRL_PARITY),
            Error::AsrlFraming => Some(VI_ERROR_ASRL_FRAMING),
            Error::AsrlOverrun => Some(VI_ERROR_ASRL_OVERRUN),
            Error::TriggerNotMapped => Some(VI_ERROR_TRIG_NMAPPED),
            Error::OffsetNotAligned => Some(VI_ERROR_NSUP_ALIGN_OFFSET),
            Error::UserBuffer => Some(VI_ERROR_USER_BUF),
            Error::ResourceBusy => Some(VI_ERROR_RSRC_BUSY),
            Error::WidthNotSupported => Some(VI_ERROR_NSUP_WIDTH),
            Error::InvalidParameter => Some(VI_ERROR_INV_PARAMETER),
            Error::InvalidProtocol => Some(VI_ERROR_INV_PROT),
            Error::InvalidSize => Some(VI_ERROR_INV_SIZE),
            Error::WindowMapped => Some(VI_ERROR_WINDOW_MAPPED),
            Error::OperationNotImplemented => Some(VI_ERROR_NIMPL_OPER),
            Error::InvalidLength => Some(VI_ERROR_INV_LENGTH),
            Error::InvalidMode => Some(VI_ERROR_INV_MODE),
            Error::SessionNotLocked => Some(VI_ERROR_SESN_NLOCKED),
            Error::MemoryNotShared => Some(VI_ERROR_MEM_NSHARED),
            Error::LibraryNotFound => Some(VI_ERROR_LIBRARY_NFOUND),
            Error::InterruptNotSupported => Some(VI_ERROR_NSUP_INTR),
            Error::InvalidLine => Some(VI_ERROR_INV_LINE),
            Error::FileAccess => Some(VI_ERROR_FILE_ACCESS),
            Error::FileIo => Some(VI_ERROR_FILE_IO),
            Error::LineNotSupported => Some(VI_ERROR_NSUP_LINE),
            Error::MechanismNotSupported => Some(VI_ERROR_NSUP_MECH),
            Error::InterfaceNumberNotConfigured => Some(VI_ERROR_INTF_NUM_NCONFIG),
            Error::ConnectionLost => Some(VI_ERROR_CONN_LOST),
            Error::MachineNotAvailable => Some(VI_ERROR_MACHINE_NAVAIL),
            Error::NoPermission => Some(VI_ERROR_NPERMISSION),
            _ => None,
        }
    }
}

impl CompletionCode {
    /// The status value of the standard that this completion code stands for.
    pub open spec fn status(self) -> u32 {
        match self {
            CompletionCode::Success => VI_SUCCESS,
            CompletionCode::EventEnabled => VI_SUCCESS_EVENT_EN,
            CompletionCode::EventDisabled => VI_SUCCESS_EVENT_DIS,
            CompletionCode::QueueEmpty => VI_SUCCESS_QUEUE_EMPTY,
            CompletionCode::TerminationCharacterRead => VI_SUCCESS_TERM_CHAR,
            CompletionCode::MaximumCount => VI_SUCCESS_MAX_CNT,
            CompletionCode::DeviceNotPresent => VI_SUCCESS_DEV_NPRESENT,
            CompletionCode::TrigPathMapped => VI_SUCCESS_TRIG_MAPPED,
            CompletionCode::QueueNotEmpty => VI_SUCCESS_QUEUE_NEMPTY,
            CompletionCode::DoNotInvokeHandler => VI_SUCCESS_NCHAIN,
            CompletionCode::NestedSharedLock => VI_SUCCESS_NESTED_SHARED,
            CompletionCode::NestedExclusiveLock => VI_SUCCESS_NESTED_EXCLUSIVE,
            CompletionCode::AsynchronousOperationHandledSynchronously => VI_SUCCESS_SYNC,
            CompletionCode::QueueOverflow => VI_WARN_QUEUE_OVERFLOW,
            CompletionCode::ConfigurationNotLoaded => VI_WARN_CONFIG_NLOADED,
            CompletionCode::NullObject => VI_WARN_NULL_OBJECT,
            CompletionCode::AttributeStateNotSupported => VI_WARN_NSUP_ATTR_STATE,
            CompletionCode::UnknownStatus => VI_WARN_UNKNOWN_STATUS,
            CompletionCode::BufferNotSupported => VI_WARN_NSUP_BUF,
            CompletionCode::ExtendedFunctionNotImplemented => VI_WARN_EXT_FUNC_NIMPL,
        }
    }
}

/// Whether the standard defines `status` as a fatal condition.
pub open spec fn is_fatal_status(status: i32) -> bool {
    exists|e: Error| e.status() == Some(status)
}

/// Whether the standard defines `status` as a completion code.
pub open spec fn is_completion_status(status: i32) -> bool {
    status >= 0 && exists|c: CompletionCode| c.status() == status as u32
}

/// The outcome that a raw status of the transport stands for: the fatal variant or the
/// completion code whose status value it is, and an error that carries the raw value
/// where the standard defines none.
pub open spec fn classify(status: i32) -> Result<CompletionCode, Error> {
    if is_fatal_status(status) {
        Err(choose|e: Error| e.status() == Some(status))
    } else if status < 0 {
        Err(Error::InvalidErrorCode(status))
    } else if is_completion_status(status) {
        Ok(choose|c: CompletionCode| c.status() == status as u32)
    } else {
        Err(Error::InvalidCompletionCode(status as u32))
    }
}

/// No two fatal variants share a status value, nor do two completion codes; fatal status
/// values are negative, and those of completion codes fit the non-negative half of `i32`.
pub proof fn lemma_status_distinct()
    ensures
        forall|a: Error, b: Error|
            (#[trigger] a.status()) is Some && a.status() == (#[trigger] b.status()) ==> a == b,
        forall|a: CompletionCode, b: CompletionCode|
            (#[trigger] a.status()) == (#[trigger] b.status()) ==> a == b,
        forall|e: Error| (#[trigger] e.status()) matches Some(s) ==> s < 0,
        forall|c: CompletionCode| (#[trigger] c.status()) <= i32::MAX,
{
}

/// A status value of the fatal table classifies as exactly the variant that it belongs to.
pub proof fn lemma_classify_fatal(e: Error)
    requires
        e.status() is Some,
    ensures
        classify(e.status()->0) == Err::<CompletionCode, Error>(e),
{
    lemma_status_distinct();
}

/// A negative status outside the fatal table classifies as `InvalidErrorCode` and keeps
/// its value.
pub proof fn lemma_classify_undefined_negative(status: i32)
    requires
        status < 0,
        !is_fatal_status(status),
    ensures
        classify(status) == Err::<CompletionCode, Error>(Error::InvalidErrorCode(status)),
{
}

/// The status value of a completion code classifies as exactly that completion code.
pub proof fn lemma_classify_completion(c: CompletionCode)
    ensures
        c.status() <= i32::MAX,
        classify(c.status() as i32) == Ok::<CompletionCode, Error>(c),
{
    lemma_status_distinct();
    assert(!is_fatal_status(c.status() as i32));
    assert(is_completion_status(c.status() as i32));
}

/// A non-negative status outside the completion table classifies as
/// `InvalidCompletionCode` and keeps its value.
pub proof fn lemma_classify_undefined_completion(status: i32)
    requires
        status >= 0,
        !is_completion_status(status),
    ensures
        classify(status) == Err::<CompletionCode, Error>(
            Error::InvalidCompletionCode(status as u32),
        ),
{
    lemma_status_distinct();
}

/// Classification never answers with an error of the library's own kinds other than the
/// two that carry an undefined status.
pub proof fn lemma_classify_error_kinds(status: i32)
    ensures
        classify(status) matches Err(e) ==> e.status() == Some(status) || e
            == Error::InvalidErrorCode(status) || e == Error::InvalidCompletionCode(status as u32),
{
}

impl TryFromSpecImpl<i32> for CompletionCode {
    open spec fn obeys_try_from_spec() -> bool {
        true
    }

    open spec fn try_from_spec(v: i32) -> Result<CompletionCode, Error> {
        classify(v)
    }
}

impl TryFrom<i32> for CompletionCode {
    type Error = Error;

    /// Classifies a raw status of the transport, as `classify` states it.
    fn try_from(value: i32) -> (r: Result<CompletionCode, Error>) {
        proof {
            lemma_status_distinct();
        }
        if value == VI_ERROR_SYSTEM_ERROR {
            assert(Error::System.status() == Some(value));
            Err(Error::System)
        } else if value == VI_ERROR_INV_OBJECT {
            assert(Error::InvalidObject.status() == Some(value));
            Err(Error::InvalidObject)
        } else if value == VI_ERROR_RSRC_LOCKED {
            assert(Error::ResourceLocked.status() == Some(value));
            Err(Error::ResourceLocked)
        } else if value == VI_ERROR_INV_EXPR {
            assert(Error::InvalidExpression.status() == Some(value));
            Err(Error::InvalidExpression)
        } else if value == VI_ERROR_RSRC_NFOUND {
            assert(Error::ResourceNotFound.status() == Some(value));
            Err(Error::ResourceNotFound)
        } else if value == VI_ERROR_INV_RSRC_NAME {
            assert(Error::InvalidResourceName.status() == Some(value));
            Err(Error::InvalidResourceName)
        } else if value == VI_ERROR_INV_ACC_MODE {
            assert(Error::InvalidAccessMode.status() == Some(value));
            Err(Error::InvalidAccessMode)
        } else if value == VI_ERROR_TMO {
            assert(Error::Timeout.status() == Some(value));
            Err(Error::Timeout)
        } else if value == VI_ERROR_CLOSING_FAILED {
            assert(Error::ClosingFailed.status() == Some(value));
            Err(Error::ClosingFailed)
        } else if value == VI_ERROR_INV_DEGREE {
            assert(Error::InvalidDegree.status() == Some(value));
            Err(Error::InvalidDegree)
        } else if value == VI_ERROR_INV_JOB_ID {
            assert(Error::InvalidJobId.status() == Some(value));
            Err(Error::InvalidJobId)
        } else if value == VI_ERROR_NSUP_ATTR {
            assert(Error::AttributeNotSupported.status() == Some(value));
            Err(Error::AttributeNotSupported)
        } else if value == VI_ERROR_NSUP_ATTR_STATE {
            assert(Error::AttributeStateNotSupported.status() == Some(value));
            Err(Error::AttributeStateNotSupported)
        } else if value == VI_ERROR_ATTR_READONLY {
            assert(Error::AttibuteReadOnly.status() == Some(value));
            Err(Error::AttibuteReadOnly)
        } else if value == VI_ERROR_INV_LOCK_TYPE {
            assert(Error::InvalidLockType.status() == Some(value));
            Err(Error::InvalidLockType)
        } else if value == VI_ERROR_INV_ACCESS_KEY {
            assert(Error::InvalidAccessKey.status() == Some(value));
            Err(Error::InvalidAccessKey)
        } else if value == VI_ERROR_INV_EVENT {
            assert(Error::InvalidEvent.status() == Some(value));
            Err(Error::InvalidEvent)
        } else if value == VI_ERROR_INV_MECH {
            assert(Error::InvalidMechanism.status() == Some(value));
            Err(Error::InvalidMechanism)
        } else if value == VI_ERROR_HNDLR_NINSTALLED {
            assert(Error::HandlerNotInstalled.status() == Some(value));
            Err(Error::HandlerNotInstalled)
        } else if value == VI_ERROR_INV_HNDLR_REF {
            assert(Error::InvalidHandlerReference.status() == Some(value));
            Err(Error::InvalidHandlerReference)
        } else if value == VI_ERROR_INV_CONTEXT {
            assert(Error::InvalidContext.status() == Some(value));
            Err(Error::InvalidContext)
        } else if value == VI_ERROR_QUEUE_OVERFLOW {
            assert(Error::QueueOverflow.status() == Some(value));
            Err(Error::QueueOverflow)
        } else if value == VI_ERROR_NENABLED {
            assert(Error::NotEnabled.status() == Some(value));
            Err(Error::NotEnabled)
        } else if value == VI_ERROR_ABORT {
            assert(Error::Abort.status() == Some(value));
            Err(Error::Abort)
        } else if value == VI_ERROR_RAW_WR_PROT_VIOL {
            assert(Error::RawWriteProtocolViolation.status() == Some(value));
            Err(Error::RawWriteProtocolViolation)
        } else if value == VI_ERROR_RAW_RD_PROT_VIOL {
            assert(Error::RawReadProtocolViolation.status() == Some(value));
            Err(Error::RawReadProtocolViolation)
        } else if value == VI_ERROR_OUTP_PROT_VIOL {
            assert(Error::OutputProtocolViolation.status() == Some(value));
            Err(Error::OutputProtocolViolation)
        } else if value == VI_ERROR_INP_PROT_VIOL {
            assert(Error::InputProtocolViolation.status() == Some(value));
            Err(Error::InputProtocolViolation)
        } else if value == VI_ERROR_BERR {
            assert(Error::Bus.status() == Some(value));
            Err(Error::Bus)
        } else if value == VI_ERROR_IN_PROGRESS {
            assert(Error::InProgress.status() == Some(value));
            Err(Error::InProgress)
        } else if value == VI_ERROR_INV_SETUP {
            assert(Error::InvalidSetup.status() == Some(value));
            Err(Error::InvalidSetup)
        } else if value == VI_ERROR_QUEUE_ERROR {
            assert(Error::Queue.status() == Some(value));
            Err(Error::Queue)
        } else if value == VI_ERROR_ALLOC {
            assert(Error::Allocation.status() == Some(value));
            Err(Error::Allocation)
        } else if value == VI_ERROR_INV_MASK {
            assert(Error::InvalidMask.status() == Some(value));
            Err(Error::InvalidMask)
        } else if value == VI_ERROR_IO {
            assert(Error::Io.status() == Some(value));
            Err(Error::Io)
        } else if value == VI_ERROR_INV_FMT {
            assert(Error::InvalidFormat.status() == Some(value));
            Err(Error::InvalidFormat)
        } else if value == VI_ERROR_NSUP_FMT {
            assert(Error::FormatNotSupported.status() == Some(value));
            Err(Error::FormatNotSupported)
        } else if value == VI_ERROR_LINE_IN_USE {
            assert(Error::TriggerLineInUse.status() == Some(value));
            Err(Error::TriggerLineInUse)
        } else if value == VI_ERROR_NSUP_MODE {
            assert(Error::ModeNotSupported.status() == Some(value));
            Err(Error::ModeNotSupported)
        } else if value == VI_ERROR_SRQ_NOCCURRED {
            assert(Error::ServiceRequestNotReceived.status() == Some(value));
            Err(Error::ServiceRequestNotReceived)
        } else if value == VI_ERROR_INV_SPACE {
            assert(Error::InvalidAddressSpace.status() == Some(value));
            Err(Error::InvalidAddressSpace)
        } else if value == VI_ERROR_INV_OFFSET {
            assert(Error::InvalidOffset.status() == Some(value));
            Err(Error::InvalidOffset)
        } else if value == VI_ERROR_INV_WIDTH {
            assert(Error::InvalidWidth.status() == Some(value));
            Err(Error::InvalidWidth)
        } else if value == VI_ERROR_NSUP_OFFSET {
            assert(Error::OffsetNotAccessible.status() == Some(value));
            Err(Error::OffsetNotAccessible)
        } else if value == VI_ERROR_NSUP_VAR_WIDTH {
            assert(Error::VariableWidthNotSupported.status() == Some(value));
            Err(Error::VariableWidthNotSupported)
        } else if value == VI_ERROR_WINDOW_NMAPPED {
            assert(Error::SessionNotMapped.status() == Some(value));
            Err(Error::SessionNotMapped)
        } else if value == VI_ERROR_RESP_PENDING {
            assert(Error::ResponsePending.status() == Some(value));
            Err(Error::ResponsePending)
        } else if value == VI_ERROR_NLISTENERS {
            assert(Error::NoListeners.status() == Some(value));
            Err(Error::NoListeners)
        } else if value == VI_ERROR_NCIC {
            assert(Error::NotControllerInCharge.status() == Some(value));
            Err(Error::NotControllerInCharge)
        } else if value == VI_ERROR_NSYS_CNTLR {
            assert(Error::NotSystemController.status() == Some(value));
            Err(Error::NotSystemController)
        } else if value == VI_ERROR_NSUP_OPER {
            assert(Error::OperationNotSupported.status() == Some(value));
            Err(Error::OperationNotSupported)
        } else if value == VI_ERROR_INTR_PENDING {
            assert(Error::InterruptPending.status() == Some(value));
            Err(Error::InterruptPending)
        } else if value == VI_ERROR_ASRL_PARITY {
            assert(Error::AsrlParity.status() == Some(value));
            Err(Error::AsrlParity)
        } else if value == VI_ERROR_ASRL_FRAMING {
            assert(Error::AsrlFraming.status() == Some(value));
            Err(Error::AsrlFraming)
        } else if value == VI_ERROR_ASRL_OVERRUN {
            assert(Error::AsrlOverrun.status() == Some(value));
            Err(Error::AsrlOverrun)
        } else if value == VI_ERROR_TRIG_NMAPPED {
            assert(Error::TriggerNotMapped.status() == Some(value));
            Err(Error::TriggerNotMapped)
        } else if value == VI_ERROR_NSUP_ALIGN_OFFSET {
            assert(Error::OffsetNotAligned.status() == Some(value));
            Err(Error::OffsetNotAligned)
        } else if value == VI_ERROR_USER_BUF {
            assert(Error::UserBuffer.status() == Some(value));
            Err(Error::UserBuffer)
        } else if value == VI_ERROR_RSRC_BUSY {
            assert(Error::ResourceBusy.status() == Some(value));
            Err(Error::ResourceBusy)
        } else if value == VI_ERROR_NSUP_WIDTH {
            assert(Error::WidthNotSupported.status() == Some(value));
            Err(Error::WidthNotSupported)
        } else if value == VI_ERROR_INV_PARAMETER {
            assert(Error::InvalidParameter.status() == Some(value));
            Err(Error::InvalidParameter)
        } else if value == VI_ERROR_INV_PROT {
            assert(Error::InvalidProtocol.status() == Some(value));
            Err(Error::InvalidProtocol)
        } else if value == VI_ERROR_INV_SIZE {
            assert(Error::InvalidSize.status() == Some(value));
            Err(Error::InvalidSize)
        } else if value == VI_ERROR_WINDOW_MAPPED {
            assert(Error::WindowMapped.status() == Some(value));
            Err(Error::WindowMapped)
        } else if value == VI_ERROR_NIMPL_OPER {
            assert(Error::OperationNotImplemented.status() == Some(value));
            Err(Error::OperationNotImplemented)
        } else if value == VI_ERROR_INV_LENGTH {
            assert(Error::InvalidLength.status() == Some(value));
            Err(Error::InvalidLength)
        } else if value == VI_ERROR_INV_MODE {
            assert(Error::InvalidMode.status() == Some(value));
            Err(Error::InvalidMode)
        } else if value == VI_ERROR_SESN_NLOCKED {
            assert(Error::SessionNotLocked.status() == Some(value));
            Err(Error::SessionNotLocked)
        } else if value == VI_ERROR_MEM_NSHARED {
            assert(Error::MemoryNotShared.status() == Some(value));
            Err(Error::MemoryNotShared)
        } else if value == VI_ERROR_LIBRARY_NFOUND {
            assert(Error::LibraryNotFound.status() == Some(value));
            Err(Error::LibraryNotFound)
        } else if value == VI_ERROR_NSUP_INTR {
            assert(Error::InterruptNotSupported.status() == Some(value));
            Err(Error::InterruptNotSupported)
        } else if value == VI_ERROR_INV_LINE {
            assert(Error::InvalidLine.status() == Some(value));
            Err(Error::InvalidLine)
        } else if value == VI_ERROR_FILE_ACCESS {
            assert(Error::FileAccess.status() == Some(value));
            Err(Error::FileAccess)
        } else if value == VI_ERROR_FILE_IO {
            assert(Error::FileIo.status() == Some(value));
            Err(Error::FileIo)
        } else if value == VI_ERROR_NSUP_LINE {
            assert(Error::LineNotSupported.status() == Some(value));
            Err(Error::LineNotSupported)
        } else if value == VI_ERROR_NSUP_MECH {
            assert(Error::MechanismNotSupported.status() == Some(value));
            Err(Error::MechanismNotSupported)
        } else if value == VI_ERROR_INTF_NUM_NCONFIG {
            assert(Error::InterfaceNumberNotConfigured.status() == Some(value));
            Err(Error::InterfaceNumberNotConfigured)
        } else if value == VI_ERROR_CONN_LOST {
            assert(Error::ConnectionLost.status() == Some(value));
            Err(Error::ConnectionLost)
        } else if value == VI_ERROR_MACHINE_NAVAIL {
            assert(Error::MachineNotAvailable.status() == Some(value));
            Err(Error::MachineNotAvailable)
        } else if value == VI_ERROR_NPERMISSION {
            assert(Error::NoPermission.status() == Some(value));
            Err(Error::NoPermission)
        } else if value < 0 {
            Err(Error::InvalidErrorCode(value))
        } else {
            let code: u32 = value as u32;
            if code == VI_SUCCESS {
                assert(CompletionCode::Success.status() == code);
                Ok(CompletionCode::Success)
            } else if code == VI_SUCCESS_EVENT_EN {
                assert(CompletionCode::EventEnabled.status() == code);
                Ok(CompletionCode::EventEnabled)
            } else if code == VI_SUCCESS_EVENT_DIS {
                assert(CompletionCode::EventDisabled.status() == code);
                Ok(CompletionCode::EventDisabled)
            } else if code == VI_SUCCESS_QUEUE_EMPTY {
                assert(CompletionCode::QueueEmpty.status() == code);
                Ok(CompletionCode::QueueEmpty)
            } else if code == VI_SUCCESS_TERM_CHAR {
                assert(CompletionCode::TerminationCharacterRead.status() == code);
                Ok(CompletionCode::TerminationCharacterRead)
            } else if code == VI_SUCCESS_MAX_CNT {
                assert(CompletionCode::MaximumCount.status() == code);
                Ok(CompletionCode::MaximumCount)
            } else if code == VI_SUCCESS_DEV_NPRESENT {
                assert(CompletionCode::DeviceNotPresent.status() == code);
                Ok(CompletionCode::DeviceNotPresent)
            } else if code == VI_SUCCESS_TRIG_MAPPED {
                assert(CompletionCode::TrigPathMapped.status() == code);
                Ok(CompletionCode::TrigPathMapped)
            } else if code == VI_SUCCESS_QUEUE_NEMPTY {
                assert(CompletionCode::QueueNotEmpty.status() == code);
                Ok(CompletionCode::QueueNotEmpty)
            } else if code == VI_SUCCESS_NCHAIN {
                assert(CompletionCode::DoNotInvokeHandler.status() == code);
                Ok(CompletionCode::DoNotInvokeHandler)
            } else if code == VI_SUCCESS_NESTED_SHARED {
                assert(CompletionCode::NestedSharedLock.status() == code);
                Ok(CompletionCode::NestedSharedLock)
            } else if code == VI_SUCCESS_NESTED_EXCLUSIVE {
                assert(CompletionCode::NestedExclusiveLock.status() == code);
                Ok(CompletionCode::NestedExclusiveLock)
            } else if code == VI_SUCCESS_SYNC {
                assert(CompletionCode::AsynchronousOperationHandledSynchronously.status() == code);
                Ok(CompletionCode::AsynchronousOperationHandledSynchronously)
            } else if code == VI_WARN_QUEUE_OVERFLOW {
                assert(CompletionCode::QueueOverflow.status() == code);
                Ok(CompletionCode::QueueOverflow)
            } else if code == VI_WARN_CONFIG_NLOADED {
                assert(CompletionCode::ConfigurationNotLoaded.status() == code);
                Ok(CompletionCode::ConfigurationNotLoaded)
            } else if code == VI_WARN_NULL_OBJECT {
                assert(CompletionCode::NullObject.status() == code);
                Ok(CompletionCode::NullObject)
            } else if code == VI_WARN_NSUP_ATTR_STATE {
                assert(CompletionCode::AttributeStateNotSupported.status() == code);
                Ok(CompletionCode::AttributeStateNotSupported)
            } else if code == VI_WARN_UNKNOWN_STATUS {
                assert(CompletionCode::UnknownStatus.status() == code);
                Ok(CompletionCode::UnknownStatus)
            } else if code == VI_WARN_NSUP_BUF {
                assert(CompletionCode::BufferNotSupported.status() == code);
                Ok(CompletionCode::BufferNotSupported)
            } else if code == VI_WARN_EXT_FUNC_NIMPL {
                assert(CompletionCode::ExtendedFunctionNotImplemented.status() == code);
                Ok(CompletionCode::ExtendedFunctionNotImplemented)
            } else {
                Err(Error::InvalidCompletionCode(code))
            }
        }
    }
}

impl CompletionCode {
    /// What the standard says of this completion code, in words.
    pub open spec fn description(self) -> Seq<char> {
        match self {
            CompletionCode::Success => "Operation completed successfully."@,
            CompletionCode::EventEnabled => "Specified event is already enabled for at least one of the specified mechanisms."@,
            CompletionCode::EventDisabled => "Specified event is already disabled for at least one of the specified mechanisms."@,
            CompletionCode::QueueEmpty => "Operation completed successfully, but queue was already empty."@,
            CompletionCode::TerminationCharacterRead => "The specified termination character was read."@,
            CompletionCode::MaximumCount => "The number of bytes read is equal to the input count."@,
            CompletionCode::DeviceNotPresent => "Session opened successfully, but the device at the specified address is not responding."@,
            CompletionCode::TrigPathMapped => "The path from trigSrc to trigDest is already mapped."@,
            CompletionCode::QueueNotEmpty => "Wait terminated successfully on receipt of an event notification. There is still at least one more event occurrence of the requested type(s) available for this session."@,
            CompletionCode::DoNotInvokeHandler => "Event handled successfully. Do not invoke any other handlers on this session for this event."@,
            CompletionCode::NestedSharedLock => "Operation completed successfully, and this session has nested shared locks."@,
            CompletionCode::NestedExclusiveLock => "Operation completed successfully, and this session has nested exclusive locks."@,
            CompletionCode::AsynchronousOperationHandledSynchronously => "Asynchronous operation request was actually performed synchronously."@,
            CompletionCode::QueueOverflow => "The event returned is valid. One or more events that occurred have not been raised because there was no room available on the queue at the time of their occurrence. This could happen because VI_ATTR_MAX_QUEUE_LENGTH is not set to a large enough value for your application and/or events are coming in faster than you are servicing them."@,
            CompletionCode::ConfigurationNotLoaded => "The specified configuration either does not exist or could not be loaded; using VISA-specified defaults."@,
            CompletionCode::NullObject => "The specified object reference is uninitialized."@,
            CompletionCode::AttributeStateNotSupported => "Although the specified state of the attribute is valid, it is not supported by this resource implementation."@,
            CompletionCode::UnknownStatus => "The status code passed to the operation could not be interpreted."@,
            CompletionCode::BufferNotSupported => "The specified buffer is not supported."@,
            CompletionCode::ExtendedFunctionNotImplemented => "The operation succeeded, but a lower level driver did not implement the extended functionality."@,
        }
    }

    /// The description of this completion code as text.
    pub fn to_string(&self) -> (r: String)
        ensures
            r@ == self.description(),
    {
        match self {
            CompletionCode::Success => String::from_str("Operation completed successfully."),
            CompletionCode::EventEnabled => String::from_str("Specified event is already enabled for at least one of the specified mechanisms."),
            CompletionCode::EventDisabled => String::from_str("Specified event is already disabled for at least one of the specified mechanisms."),
            CompletionCode::QueueEmpty => String::from_str("Operation completed successfully, but queue was already empty."),
            CompletionCode::TerminationCharacterRead => String::from_str("The specified termination character was read."),
            CompletionCode::MaximumCount => String::from_str("The number of bytes read is equal to the input count."),
            CompletionCode::DeviceNotPresent => String::from_str("Session opened successfully, but the device at the specified address is not responding."),
            CompletionCode::TrigPathMapped => String::from_str("The path from trigSrc to trigDest is already mapped."),
            CompletionCode::QueueNotEmpty => String::from_str("Wait terminated successfully on receipt of an event notification. There is still at least one more event occurrence of the requested type(s) available for this session."),
            CompletionCode::DoNotInvokeHandler => String::from_str("Event handled successfully. Do not invoke any other handlers on this session for this event."),
            CompletionCode::NestedSharedLock => String::from_str("Operation completed successfully, and this session has nested shared locks."),
            CompletionCode::NestedExclusiveLock => String::from_str("Operation completed successfully, and this session has nested exclusive locks."),
            CompletionCode::AsynchronousOperationHandledSynchronously => String::from_str("Asynchronous operation request was actually performed synchronously."),
            CompletionCode::QueueOverflow => String::from_str("The event returned is valid. One or more events that occurred have not been raised because there was no room available on the queue at the time of their occurrence. This could happen because VI_ATTR_MAX_QUEUE_LENGTH is not set to a large enough value for your application and/or events are coming in faster than you are servicing them."),
            CompletionCode::ConfigurationNotLoaded => String::from_str("The specified configuration either does not exist or could not be loaded; using VISA-specified defaults."),
            CompletionCode::NullObject => String::from_str("The specified object reference is uninitialized."),
            CompletionCode::AttributeStateNotSupported => String::from_str("Although the specified state of the attribute is valid, it is not supported by this resource implementation."),
            CompletionCode::UnknownStatus => String::from_str("The status code passed to the operation could not be interpreted."),
            CompletionCode::BufferNotSupported => String::from_str("The specified buffer is not supported."),
            CompletionCode::ExtendedFunctionNotImplemented => String::from_str("The operation succeeded, but a lower level driver did not implement the extended functionality."),
        }
    }
}

impl Error {
    /// What this error says to a reader: for a fatal condition the words of the standard,
    /// for the others a sentence that holds the value which the error carries.
    pub open spec fn description(self) -> Seq<char> {
        match self {
            Error::System => "Unknown system error (miscellaneous error)."@,
            Error::InvalidObject => "The given session or object reference is invalid."@,
            Error::ResourceLocked => "Specified type of lock cannot be obtained or specified operation cannot be performed, because the resource is locked."@,
            Error::InvalidExpression => "Invalid expression specified for search."@,
            Error::ResourceNotFound => "Insufficient location information or the device or resource is not present in the system."@,
            Error::InvalidResourceName => "Invalid resource reference specified. Parsing error."@,
            Error::InvalidAccessMode => "Invalid access mode."@,
            Error::Timeout => "Timeout expired before operation completed."@,
            Error::ClosingFailed => "Unable to deallocate the previously allocated data structures corresponding to this session or object reference."@,
            Error::InvalidDegree => "Specified degree is invalid."@,
            Error::InvalidJobId => "Specified job identifier is invalid."@,
            Error::AttributeNotSupported => "The specified attribute is not defined or supported by the referenced session, event, or find list."@,
            Error::AttributeStateNotSupported => "The specified state of the attribute is not valid, or is not supported as defined by the session, event, or find list."@,
            Error::AttibuteReadOnly => "The specified attribute is Read Only."@,
            Error::InvalidLockType => "The specified type of lock is not supported by this resource."@,
            Error::InvalidAccessKey => "The access key to the resource associated with this session is invalid."@,
            Error::InvalidEvent => "Specified event type is not supported by the resource."@,
            Error::InvalidMechanism => "Invalid mechanism specified."@,
            Error::HandlerNotInstalled => "A handler is not currently installed for the specified event."@,
            Error::InvalidHandlerReference => "The given handler reference is invalid."@,
            Error::InvalidContext => "Specified event context is invalid."@,
            Error::QueueOverflow => "The event queue for the specified type has overflowed (usually due to previous events not having been closed)."@,
            Error::NotEnabled => "The session must be enabled for events of the specified type in order to receive them."@,
            Error::Abort => "The operation was aborted."@,
            Error::RawWriteProtocolViolation => "Violation of raw write protocol occurred during transfer."@,
            Error::RawReadProtocolViolation => "Violation of raw read protocol occurred during transfer."@,
            Error::OutputProtocolViolation => "Device reported an output protocol error during transfer."@,
            Error::InputProtocolViolation => "Device reported an input protocol error during transfer."@,
            Error::Bus => "Bus error occurred during transfer."@,
            Error::InProgress => "Unable to queue the asynchronous operation because there is already an operation in progress."@,
            Error::InvalidSetup => "Unable to start operation because setup is invalid (due to attributes being set to an inconsistent state)."@,
            Error::Queue => "Unable to queue asynchronous operation (usually due to the I/O completion event not being enabled or insufficient space in the session's queue)."@,
            Error::Allocation => "Insufficient system resources to perform necessary memory allocation."@,
            Error::InvalidMask => "Invalid buffer mask specified."@,
            Error::Io => "Could not perform operation because of I/O error."@,
            Error::InvalidFormat => "A format specifier in the format string is invalid."@,
            Error::FormatNotSupported => "A format specifier in the format string is not supported."@,
            Error::TriggerLineInUse => "The specified trigger line is currently in use."@,
            Error::ModeNotSupported => "The specified mode is not supported by this VISA implementation."@,
            Error::ServiceRequestNotReceived => "Service request has not been received for the session."@,
            Error::InvalidAddressSpace => "Invalid address space specified."@,
            Error::InvalidOffset => "Invalid offset specified."@,
            Error::InvalidWidth => "Invalid source or destination width specified."@,
            Error::OffsetNotAccessible => "Specified offset is not accessible from this hardware."@,
            Error::VariableWidthNotSupported => "Cannot support source and destination widths that are different."@,
            Error::SessionNotMapped => "The specified session is not currently mapped."@,
            Error::ResponsePending => "A previous response is still pending, causing a multiple query error."@,
            Error::NoListeners => "No Listeners condition is detected (both NRFD and NDAC are deasserted)."@,
            Error::NotControllerInCharge => "The interface associated with this session is not currently the controller in charge."@,
            Error::NotSystemController => "The interface associated with this session is not the system controller."@,
            Error::OperationNotSupported => "The given session or object reference does not support this operation."@,
            Error::InterruptPending => "An interrupt is still pending from a previous call."@,
            Error::AsrlParity => "A parity error occurred during transfer."@,
            Error::AsrlFraming => "A framing error occurred during transfer."@,
            Error::AsrlOverrun => "An overrun error occurred during transfer. A character was not read from the hardware before the next character arrived."@,
            Error::TriggerNotMapped => "The path from trigSrc to trigDest is not currently mapped."@,
            Error::OffsetNotAligned => "The specified offset is not properly aligned for the access width of the operation."@,
            Error::UserBuffer => "A specified user buffer is not valid or cannot be accessed for the required size."@,
            Error::ResourceBusy => "The resource is valid, but VISA cannot currently access it."@,
            Error::WidthNotSupported => "Specified width is not supported by this hardware."@,
            Error::InvalidParameter => "The value of some parameter—which parameter is not known—is invalid."@,
            Error::InvalidProtocol => "The protocol specified is invalid."@,
            Error::InvalidSize => "Invalid size of window specified."@,
            Error::WindowMapped => "The specified session currently contains a mapped window."@,
            Error::OperationNotImplemented => "The given operation is not implemented."@,
            Error::InvalidLength => "Invalid length specified."@,
            Error::InvalidMode => "The specified mode is invalid."@,
            Error::SessionNotLocked => "The current session did not have any lock on the resource."@,
            Error::MemoryNotShared => "The device does not export any memory."@,
            Error::LibraryNotFound => "A code library required by VISA could not be located or loaded."@,
            Error::InterruptNotSupported => "The interface cannot generate an interrupt on the requested level or with the requested statusID value."@,
            Error::InvalidLine => "The value specified by the line parameter is invalid."@,
            Error::FileAccess => "An error occurred while trying to open the specified file. Possible reasons include an invalid path or lack of access rights."@,
            Error::FileIo => "An error occurred while performing I/O on the specified file."@,
            Error::LineNotSupported => "One of the specified lines (trigSrc or trigDest) is not supported by this VISA implementation, or the combination of lines is not a valid mapping."@,
            Error::MechanismNotSupported => "The specified mechanism is not supported for the given event type."@,
            Error::InterfaceNumberNotConfigured => "The interface type is valid but the specified interface number is not configured."@,
            Error::ConnectionLost => "The connection for the given session has been lost."@,
            Error::MachineNotAvailable => "The remote machine does not exist or is not accepting any connections."@,
            Error::NoPermission => "Access to the resource or remote machine is denied. This is due to lack of sufficient privileges for the current user or machine."@,
            Error::InvalidErrorCode(code) => "Invalid error code supplied from VISA: "@
                + signed_decimal(code as int) + "."@,
            Error::InvalidCompletionCode(code) => "Invalid completion code supplied from VISA: "@
                + decimal(code as nat) + "."@,
            Error::InvalidTimeout(duration) => "Invalid timeout value: "@ + decimal(
                duration_millis(duration),
            ) + "ms."@,
            Error::WriteLengthMismatch { length, expected } => "Write command wrote "@ + decimal(
                length as nat,
            ) + " bytes instead of "@ + decimal(expected as nat) + "."@,
            Error::InvalidUtf8 => "The buffer contains invalid UTF-8 characters."@,
            Error::InvalidNullString => "The string is not null terminated."@,
            Error::IdentityParse(text) => "Invalid identity, the parsed string had more than 4 fields: "@ + text@ + "."@,
            Error::StandardEventStatusRegisterParse(text) => "Invalid Standard Event Status Register (SESR) response: "@ + text@ + "."@,
            Error::StandardEventStatusEnableRegisterParse(text) => "Invalid Standard Event Status Enable Register (SESER) response : "@ + text@ + "."@,
            Error::OperationCompleteQueryParse(text) => "Invalid Operation Complete (*OPC?) response: "@ + text@ + "."@,
            Error::StatusByteRegisterQueryParse(text) => "Invalid Status Byte Register (*STB?) response: "@ + text@ + "."@,
            Error::SelfTestParse(text) => "Invalid Self Test (*TST?) response: "@ + text@ + "."@,
            Error::ServiceRequestEnableQueryParse(text) => "Invalid Service Request Enable (*SRE?) response: "@ + text@ + "."@,
            Error::UnexpectedCompletionCode(code) => "Unexpected completion code: "@
                + code.description(),
        }
    }

    /// The description of this error as text.
    pub fn to_string(&self) -> (r: String)
        ensures
            r@ == self.description(),
    {
        match self {
            Error::System => String::from_str("Unknown system error (miscellaneous error)."),
            Error::InvalidObject => String::from_str("The given session or object reference is invalid."),
            Error::ResourceLocked => String::from_str("Specified type of lock cannot be obtained or specified operation cannot be performed, because the resource is locked."),
            Error::InvalidExpression => String::from_str("Invalid expression specified for search."),
            Error::ResourceNotFound => String::from_str("Insufficient location information or the device or resource is not present in the system."),
            Error::InvalidResourceName => String::from_str("Invalid resource reference specified. Parsing error."),
            Error::InvalidAccessMode => String::from_str("Invalid access mode."),
            Error::Timeout => String::from_str("Timeout expired before operation completed."),
            Error::ClosingFailed => String::from_str("Unable to deallocate the previously allocated data structures corresponding to this session or object reference."),
            Error::InvalidDegree => String::from_str("Specified degree is invalid."),
            Error::InvalidJobId => String::from_str("Specified job identifier is invalid."),
            Error::AttributeNotSupported => String::from_str("The specified attribute is not defined or supported by the referenced session, event, or find list."),
            Error::AttributeStateNotSupported => String::from_str("The specified state of the attribute is not valid, or is not supported as defined by the session, event, or find list."),
            Error::AttibuteReadOnly => String::from_str("The specified attribute is Read Only."),
            Error::InvalidLockType => String::from_str("The specified type of lock is not supported by this resource."),
            Error::InvalidAccessKey => String::from_str("The access key to the resource associated with this session is invalid."),
            Error::InvalidEvent => String::from_str("Specified event type is not supported by the resource."),
            Error::InvalidMechanism => String::from_str("Invalid mechanism specified."),
            Error::HandlerNotInstalled => String::from_str("A handler is not currently installed for the specified event."),
            Error::InvalidHandlerReference => String::from_str("The given handler reference is invalid."),
            Error::InvalidContext => String::from_str("Specified event context is invalid."),
            Error::QueueOverflow => String::from_str("The event queue for the specified type has overflowed (usually due to previous events not having been closed)."),
            Error::NotEnabled => String::from_str("The session must be enabled for events of the specified type in order to receive them."),
            Error::Abort => String::from_str("The operation was aborted."),
            Error::RawWriteProtocolViolation => String::from_str("Violation of raw write protocol occurred during transfer."),
            Error::RawReadProtocolViolation => String::from_str("Violation of raw read protocol occurred during transfer."),
            Error::OutputProtocolViolation => String::from_str("Device reported an output protocol error during transfer."),
            Error::InputProtocolViolation => String::from_str("Device reported an input protocol error during transfer."),
            Error::Bus => String::from_str("Bus error occurred during transfer."),
            Error::InProgress => String::from_str("Unable to queue the asynchronous operation because there is already an operation in progress."),
            Error::InvalidSetup => String::from_str("Unable to start operation because setup is invalid (due to attributes being set to an inconsistent state)."),
            Error::Queue => String::from_str("Unable to queue asynchronous operation (usually due to the I/O completion event not being enabled or insufficient space in the session's queue)."),
            Error::Allocation => String::from_str("Insufficient system resources to perform necessary memory allocation."),
            Error::InvalidMask => String::from_str("Invalid buffer mask specified."),
            Error::Io => String::from_str("Could not perform operation because of I/O error."),
            Error::InvalidFormat => String::from_str("A format specifier in the format string is invalid."),
            Error::FormatNotSupported => String::from_str("A format specifier in the format string is not supported."),
            Error::TriggerLineInUse => String::from_str("The specified trigger line is currently in use."),
            Error::ModeNotSupported => String::from_str("The specified mode is not supported by this VISA implementation."),
            Error::ServiceRequestNotReceived => String::from_str("Service request has not been received for the session."),
            Error::InvalidAddressSpace => String::from_str("Invalid address space specified."),
            Error::InvalidOffset => String::from_str("Invalid offset specified."),
            Error::InvalidWidth => String::from_str("Invalid source or destination width specified."),
            Error::OffsetNotAccessible => String::from_str("Specified offset is not accessible from this hardware."),
            Error::VariableWidthNotSupported => String::from_str("Cannot support source and destination widths that are different."),
            Error::SessionNotMapped => String::from_str("The specified session is not currently mapped."),
            Error::ResponsePending => String::from_str("A previous response is still pending, causing a multiple query error."),
            Error::NoListeners => String::from_str("No Listeners condition is detected (both NRFD and NDAC are deasserted)."),
            Error::NotControllerInCharge => String::from_str("The interface associated with this session is not currently the controller in charge."),
            Error::NotSystemController => String::from_str("The interface associated with this session is not the system controller."),
            Error::OperationNotSupported => String::from_str("The given session or object reference does not support this operation."),
            Error::InterruptPending => String::from_str("An interrupt is still pending from a previous call."),
            Error::AsrlParity => String::from_str("A parity error occurred during transfer."),
            Error::AsrlFraming => String::from_str("A framing error occurred during transfer."),
            Error::AsrlOverrun => String::from_str("An overrun error occurred during transfer. A character was not read from the hardware before the next character arrived."),
            Error::TriggerNotMapped => String::from_str("The path from trigSrc to trigDest is not currently mapped."),
            Error::OffsetNotAligned => String::from_str("The specified offset is not properly aligned for the access width of the operation."),
            Error::UserBuffer => String::from_str("A specified user buffer is not valid or cannot be accessed for the required size."),
            Error::ResourceBusy => String::from_str("The resource is valid, but VISA cannot currently access it."),
            Error::WidthNotSupported => String::from_str("Specified width is not supported by this hardware."),
            Error::InvalidParameter => String::from_str("The value of some parameter—which parameter is not known—is invalid."),
            Error::InvalidProtocol => String::from_str("The protocol specified is invalid."),
            Error::InvalidSize => String::from_str("Invalid size of window specified."),
            Error::WindowMapped => String::from_str("The specified session currently contains a mapped window."),
            Error::OperationNotImplemented => String::from_str("The given operation is not implemented."),
            Error::InvalidLength => String::from_str("Invalid length specified."),
            Error::InvalidMode => String::from_str("The specified mode is invalid."),
            Error::SessionNotLocked => String::from_str("The current session did not have any lock on the resource."),
            Error::MemoryNotShared => String::from_str("The device does not export any memory."),
            Error::LibraryNotFound => String::from_str("A code library required by VISA could not be located or loaded."),
            Error::InterruptNotSupported => String::from_str("The interface cannot generate an interrupt on the requested level or with the requested statusID value."),
            Error::InvalidLine => String::from_str("The value specified by the line parameter is invalid."),
            Error::FileAccess => String::from_str("An error occurred while trying to open the specified file. Possible reasons include an invalid path or lack of access rights."),
            Error::FileIo => String::from_str("An error occurred while performing I/O on the specified file."),
            Error::LineNotSupported => String::from_str("One of the specified lines (trigSrc or trigDest) is not supported by this VISA implementation, or the combination of lines is not a valid mapping."),
            Error::MechanismNotSupported => String::from_str("The specified mechanism is not supported for the given event type."),
            Error::InterfaceNumberNotConfigured => String::from_str("The interface type is valid but the specified interface number is not configured."),
            Error::ConnectionLost => String::from_str("The connection for the given session has been lost."),
            Error::MachineNotAvailable => String::from_str("The remote machine does not exist or is not accepting any connections."),
            Error::NoPermission => String::from_str("Access to the resource or remote machine is denied. This is due to lack of sufficient privileges for the current user or machine."),
            Error::InvalidErrorCode(code) => {
                let number = to_signed_decimal(*code as i64);
                sentence("Invalid error code supplied from VISA: ", number.as_str(), ".")
            },
            Error::InvalidCompletionCode(code) => {
                let number = to_decimal(*code as u128);
                sentence("Invalid completion code supplied from VISA: ", number.as_str(), ".")
            },
            Error::InvalidTimeout(duration) => {
                let number = to_decimal(as_millis(*duration));
                sentence("Invalid timeout value: ", number.as_str(), "ms.")
            },
            Error::WriteLengthMismatch { length, expected } => {
                let wrote = to_decimal(*length as u128);
                let asked = to_decimal(*expected as u128);
                let mut r = sentence("Write command wrote ", wrote.as_str(), " bytes instead of ");
                r.append(asked.as_str());
                r.append(".");
                r
            },
            Error::InvalidUtf8 => String::from_str("The buffer contains invalid UTF-8 characters."),
            Error::InvalidNullString => String::from_str("The string is not null terminated."),
            Error::IdentityParse(text) => sentence(
                "Invalid identity, the parsed string had more than 4 fields: ",
                text.as_str(),
                ".",
            ),
            Error::StandardEventStatusRegisterParse(text) => sentence(
                "Invalid Standard Event Status Register (SESR) response: ",
                text.as_str(),
                ".",
            ),
            Error::StandardEventStatusEnableRegisterParse(text) => sentence(
                "Invalid Standard Event Status Enable Register (SESER) response : ",
                text.as_str(),
                ".",
            ),
            Error::OperationCompleteQueryParse(text) => sentence(
                "Invalid Operation Complete (*OPC?) response: ",
                text.as_str(),
                ".",
            ),
            Error::StatusByteRegisterQueryParse(text) => sentence(
                "Invalid Status Byte Register (*STB?) response: ",
                text.as_str(),
                ".",
            ),
            Error::SelfTestParse(text) => sentence(
                "Invalid Self Test (*TST?) response: ",
                text.as_str(),
                ".",
            ),
            Error::ServiceRequestEnableQueryParse(text) => sentence(
                "Invalid Service Request Enable (*SRE?) response: ",
                text.as_str(),
                ".",
            ),
            Error::UnexpectedCompletionCode(code) => {
                let words = code.to_string();
                String::from_str("Unexpected completion code: ").concat(words.as_str())
            },
        }
    }
}

/// The three parts of a sentence in one text.
fn sentence(head: &str, middle: &str, tail: &str) -> (r: String)
    ensures
        r@ == head@ + middle@ + tail@,
{
    let mut r = String::from_str(head);
    r.append(middle);
    r.append(tail);
    r
}

} // verus!
