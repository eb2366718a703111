//! The error taxonomy of the protocol engine, the ghost view of channel-level
//! failures, and the instrument's execution-error code table.

use vstd::prelude::*;

verus! {

/// One concrete failure of a command or query, as surfaced to callers.
#[derive(Debug)]
pub enum MxError {
    /// Transport-level communication failure; carries the transport's message.
    Io(String),
    /// Text that could not be understood; carries the offending text.
    Parse(String),
    /// The instrument flagged a command syntax error; carries the command.
    CommandError(String),
    /// The instrument flagged an execution error whose code the table resolves.
    ExecutionError { code: i32, error_type: String, description: String },
    /// The instrument flagged a device-dependent fault such as a verify
    /// timeout; carries the command.
    VerifyTimeoutError(String),
    /// The instrument flagged a query sequencing error; carries the command.
    QueryError(String),
    /// The instrument reported an execution-error code absent from the table;
    /// carries the raw code and the command.
    UndefinedDeviceErrorCode(i32, String),
    /// No usable connection.
    NotConnected,
    /// A parameter was rejected before any bytes reached the transport.
    InvalidParameter(String),
    /// The operation is not available on this connection.
    UnsupportedFeature(String),
}

/// Ghost view of a channel-level error, as a connection's event log records it.
pub enum ErrView {
    Io(Seq<char>),
    Parse(Seq<char>),
}

/// The errors a connection itself may produce: communication failures and
/// malformed text.
pub open spec fn is_channel_err(e: &MxError) -> bool {
    e matches MxError::Io(_) || e matches MxError::Parse(_)
}

/// The event-log view of a channel-level error.
pub open spec fn err_view(e: &MxError) -> ErrView {
    match e {
        MxError::Io(m) => ErrView::Io(m@),
        MxError::Parse(m) => ErrView::Parse(m@),
        _ => ErrView::Io(Seq::empty()),
    }
}

/// The fixed table mapping execution-error codes to a category name and a
/// description, as the instrument's handbook defines them.
pub open spec fn error_table_spec(code: int) -> Option<(Seq<char>, Seq<char>)> {
    if code == 0 {
        Some(("OK"@, "No error has occurred since this register was last read."@))
    } else if code == 100 {
        Some(
            (
                "NumericError"@,
                "The parameter value sent was outside the permitted range for the command in the present circumstances."@,
            ),
        )
    } else if code == 102 {
        Some(
            (
                "RecallError"@,
                "A recall of set up data has been requested but the store specified does not contain any data."@,
            ),
        )
    } else if code == 103 {
        Some(
            (
                "CommandInvalid"@,
                "The command is recognised but is not valid in the current circumstances. Typical examples would be trying to change V2 directly while the outputs are in voltage tracking mode with V1 as the master."@,
            ),
        )
    } else if code == 104 {
        Some(
            (
                "RangeChangeError"@,
                "An operation requiring a range change was requested but could not be completed. Typically this occurs because >0.5V was still present on output 1 and/or output 2 terminals at the time the command was executed."@,
            ),
        )
    } else if code == 200 {
        Some(
            (
                "AccessDenied"@,
                "An attempt was made to change the instrument's settings from an interface which is locked out of write privileges by a lock held by another interface."@,
            ),
        )
    } else {
        None
    }
}

/// Looks an execution-error code up in the fixed table.
pub fn lookup_error_code(code: i32) -> (r: Option<(&'static str, &'static str)>)
    ensures
        (r is Some) == (error_table_spec(code as int) is Some),
        r matches Some(p) ==> error_table_spec(code as int) matches Some(q) && p.0@ == q.0 && p.1@
            == q.1,
{
    if code == 0 {
        Some(("OK", "No error has occurred since this register was last read."))
    } else if code == 100 {
        Some(
            (
                "NumericError",
                "The parameter value sent was outside the permitted range for the command in the present circumstances.",
            ),
        )
    } else if code == 102 {
        Some(
            (
                "RecallError",
                "A recall of set up data has been requested but the store specified does not contain any data.",
            ),
        )
    } else if code == 103 {
        Some(
            (
                "CommandInvalid",
                "The command is recognised but is not valid in the current circumstances. Typical examples would be trying to change V2 directly while the outputs are in voltage tracking mode with V1 as the master.",
            ),
        )
    } else if code == 104 {
        Some(
            (
                "RangeChangeError",
                "An operation requiring a range change was requested but could not be completed. Typically this occurs because >0.5V was still present on output 1 and/or output 2 terminals at the time the command was executed.",
            ),
        )
    } else if code == 200 {
        Some(
            (
                "AccessDenied",
                "An attempt was made to change the instrument's settings from an interface which is locked out of write privileges by a lock held by another interface.",
            ),
        )
    } else {
        None
    }
}

} // verus!
