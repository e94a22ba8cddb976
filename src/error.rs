//! The kinds of failure the engine reports.
use vstd::prelude::*;

verus! {

/// Why a message was refused or a request did not produce a result.
#[derive(Clone, Copy, Debug, PartialEq, Eq, Structural)]
pub enum ErrorKind {
    /// A request or lifecycle notification arrived before `initialized`.
    NotInitialized,
    /// `initialize` arrived a second time.
    AlreadyInitialized,
    /// A request arrived after `shutdown`.
    ShuttingDown,
    /// `exit` arrived before `shutdown`.
    ExitBeforeShutdown,
    /// A change notification that the negotiated sync mode cannot apply.
    InvalidChange,
    /// A request id that is already in flight.
    DuplicateRequest,
    UnknownDocument,
    DuplicateDocument,
    StaleVersion,
    MethodNotFound,
    AnalysisError,
    Cancelled,
}

/// The protocol-violation kinds: wrong sequencing or malformed usage.
pub open spec fn spec_is_protocol_error(k: ErrorKind) -> bool {
    match k {
        ErrorKind::NotInitialized | ErrorKind::AlreadyInitialized | ErrorKind::ShuttingDown
        | ErrorKind::ExitBeforeShutdown | ErrorKind::InvalidChange
        | ErrorKind::DuplicateRequest => true,
        _ => false,
    }
}

/// The JSON-RPC error code that carries each kind.
pub open spec fn spec_code(k: ErrorKind) -> int {
    match k {
        ErrorKind::NotInitialized => -32002,
        ErrorKind::MethodNotFound => -32601,
        ErrorKind::Cancelled => -32800,
        ErrorKind::AnalysisError => -32803,
        ErrorKind::UnknownDocument | ErrorKind::DuplicateDocument | ErrorKind::StaleVersion
        | ErrorKind::InvalidChange => -32602,
        _ => -32600,
    }
}

impl ErrorKind {
    pub fn is_protocol_error(&self) -> (r: bool)
        ensures
            r == spec_is_protocol_error(*self),
    {
        match self {
            ErrorKind::NotInitialized | ErrorKind::AlreadyInitialized | ErrorKind::ShuttingDown
            | ErrorKind::ExitBeforeShutdown | ErrorKind::InvalidChange
            | ErrorKind::DuplicateRequest => true,
            _ => false,
        }
    }

    pub fn code(&self) -> (r: i64)
        ensures
            r as int == spec_code(*self),
    {
        match self {
            ErrorKind::NotInitialized => -32002,
            ErrorKind::MethodNotFound => -32601,
            ErrorKind::Cancelled => -32800,
            ErrorKind::AnalysisError => -32803,
            ErrorKind::UnknownDocument | ErrorKind::DuplicateDocument | ErrorKind::StaleVersion
            | ErrorKind::InvalidChange => -32602,
            _ => -32600,
        }
    }
}

} // verus!
