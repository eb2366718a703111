//! The write-then-verify and query-then-recover algorithms, specified as
//! exact relations between the channel events an operation appended and the
//! result it returned.

use vstd::prelude::*;
use crate::connection::{frame_spec, ChannelEvent};
use crate::error::{err_view, error_table_spec, is_channel_err, ErrView, MxError};
use crate::parse::{parse_i32_spec, parse_u8_spec};
use crate::text::trim_spec;

verus! {

/// The status-register query line. Reading the register also clears it.
pub open spec fn esr_query() -> Seq<char> {
    "*ESR?"@
}

/// The execution-error-code query line, valid right after the status
/// register showed the execution-error bit.
pub open spec fn eer_query() -> Seq<char> {
    "EER?"@
}

/// Command-error bit of the status byte: a syntax error in a command.
pub open spec fn syntax_bit(v: u8) -> bool {
    v & 32 != 0
}

/// Execution-error bit of the status byte.
pub open spec fn exec_bit(v: u8) -> bool {
    v & 16 != 0
}

/// Device-dependent-error bit of the status byte (verify timeout).
pub open spec fn device_bit(v: u8) -> bool {
    v & 8 != 0
}

/// Query-error bit of the status byte.
pub open spec fn query_bit(v: u8) -> bool {
    v & 4 != 0
}

/// The verdict forced by the error-code reply `line` (already trimmed), for
/// a verification of `cmd`.
pub open spec fn eer_line_outcome(line: Seq<char>, cmd: Seq<char>, r: Result<(), MxError>) -> bool {
    match parse_i32_spec(line) {
        None => r matches Err(MxError::Parse(s)) && s@ == line,
        Some(code) => match error_table_spec(code as int) {
            Some(entry) => r matches Err(
                MxError::ExecutionError { code: c, error_type, description },
            ) && c == code && error_type@ == entry.0 && description@ == entry.1,
            None => r matches Err(MxError::UndefinedDeviceErrorCode(c, s)) && c == code && s@
                == cmd,
        },
    }
}

/// After the status byte showed the execution-error bit, events `a[2..]` are
/// the error-code query and decide the verdict.
pub open spec fn eer_outcome(a: Seq<ChannelEvent>, cmd: Seq<char>, r: Result<(), MxError>) -> bool {
    ||| (a.len() == 3 && (r matches Err(e) && is_channel_err(&e) && a[2] == ChannelEvent::Failed(
        err_view(&e),
    )))
    ||| (a.len() == 4 && a[2] == ChannelEvent::Sent(frame_spec(eer_query())) && {
        ||| (r matches Err(e) && is_channel_err(&e) && a[3] == ChannelEvent::Failed(err_view(&e)))
        ||| (a[3] matches ChannelEvent::Received(eer_raw) && eer_line_outcome(
            trim_spec(eer_raw),
            cmd,
            r,
        ))
    })
}

/// The verdict forced by a successfully read status line, for a verification
/// of `cmd`: bits are inspected in the fixed precedence order syntax error,
/// execution error, device-dependent error, query error; all other bits are
/// ignored.
pub open spec fn esr_line_outcome(
    a: Seq<ChannelEvent>,
    esr_line: Seq<char>,
    cmd: Seq<char>,
    r: Result<(), MxError>,
) -> bool {
    match parse_u8_spec(esr_line) {
        None => a.len() == 2 && (r matches Err(MxError::Parse(s)) && s@ == esr_line),
        Some(st) => if syntax_bit(st) {
            a.len() == 2 && (r matches Err(MxError::CommandError(s)) && s@ == cmd)
        } else if exec_bit(st) {
            eer_outcome(a, cmd, r)
        } else if device_bit(st) {
            a.len() == 2 && (r matches Err(MxError::VerifyTimeoutError(s)) && s@ == cmd)
        } else if query_bit(st) {
            a.len() == 2 && (r matches Err(MxError::QueryError(s)) && s@ == cmd)
        } else {
            a.len() == 2 && r is Ok
        },
    }
}

/// Full characterization of one status-register interrogation for `cmd`:
/// `a` is the sequence of channel events it appended and `r` its result.
/// The interrogation reads (and thereby clears) the register; if the
/// execution-error bit is set it also queries the error code.
pub open spec fn esr_outcome(a: Seq<ChannelEvent>, cmd: Seq<char>, r: Result<(), MxError>) -> bool {
    ||| (r matches Err(e) && is_channel_err(&e) && {
        ||| a == seq![ChannelEvent::Failed(err_view(&e))]
        ||| (a.len() == 2 && a[0] == ChannelEvent::Sent(frame_spec(esr_query())) && a[1]
            == ChannelEvent::Failed(err_view(&e)))
    })
    ||| (a.len() >= 2 && a[0] == ChannelEvent::Sent(frame_spec(esr_query())) && (
    a[1] matches ChannelEvent::Received(esr_raw) && esr_line_outcome(
        a,
        trim_spec(esr_raw),
        cmd,
        r,
    )))
}

/// Full characterization of one mutating execution of `cmd`: send, settle,
/// then interrogate the status register.
pub open spec fn execute_outcome(
    a: Seq<ChannelEvent>,
    cmd: Seq<char>,
    r: Result<(), MxError>,
) -> bool {
    ||| (r matches Err(e) && is_channel_err(&e) && a == seq![ChannelEvent::Failed(err_view(&e))])
    ||| (a.len() >= 2 && a[0] == ChannelEvent::Sent(frame_spec(cmd)) && a[1]
        == ChannelEvent::Slept(crate::SETTLE_MS) && esr_outcome(a.skip(2), cmd, r))
}

/// After a failed channel-level query whose error had view `v`, events `a2`
/// are the recovery interrogation: a clear register lets the original
/// failure stand, anything else replaces it.
pub open spec fn recovery_outcome(
    a2: Seq<ChannelEvent>,
    v: ErrView,
    cmd: Seq<char>,
    r: Result<String, MxError>,
) -> bool {
    r matches Err(e) && {
        if esr_outcome(a2, cmd, Ok(())) {
            is_channel_err(&e) && err_view(&e) == v
        } else {
            esr_outcome_err(a2, cmd, &e)
        }
    }
}

/// `esr_outcome` specialized to an error result (helper for stating
/// `recovery_outcome` without rebuilding a `Result`).
pub open spec fn esr_outcome_err(a: Seq<ChannelEvent>, cmd: Seq<char>, e: &MxError) -> bool {
    esr_outcome(a, cmd, Err(*e))
}

/// The failing half of a checked query: the channel-level query failed and
/// the recovery interrogation decided what error `e` to surface.
pub open spec fn query_checked_err(a: Seq<ChannelEvent>, cmd: Seq<char>, e: &MxError) -> bool {
    ||| (a.len() >= 1 && (a[0] matches ChannelEvent::Failed(v) && recovery_outcome(
        a.skip(1),
        v,
        cmd,
        Err(*e),
    )))
    ||| (a.len() >= 2 && a[0] == ChannelEvent::Sent(frame_spec(cmd)) && (
    a[1] matches ChannelEvent::Failed(v) && recovery_outcome(a.skip(2), v, cmd, Err(*e))))
}

/// Full characterization of one checked query of `cmd`: a successful
/// channel-level query is returned trimmed, with no status-register read; a
/// failed one is followed by the recovery interrogation.
pub open spec fn query_checked_outcome(
    a: Seq<ChannelEvent>,
    cmd: Seq<char>,
    r: Result<String, MxError>,
) -> bool {
    ||| (a.len() == 2 && a[0] == ChannelEvent::Sent(frame_spec(cmd)) && (
    a[1] matches ChannelEvent::Received(raw) && (r matches Ok(resp) && resp@ == trim_spec(raw))))
    ||| (r matches Err(e) && query_checked_err(a, cmd, &e))
}

/// A successful execution has a fixed event shape: the framed command, the
/// settle pause, the status query, and one clear status line.
pub proof fn lemma_execute_ok_len(a: Seq<ChannelEvent>, cmd: Seq<char>)
    requires
        execute_outcome(a, cmd, Ok(())),
    ensures
        a.len() == 4,
        a[0] == ChannelEvent::Sent(frame_spec(cmd)),
        a[1] == ChannelEvent::Slept(crate::SETTLE_MS),
{
    assert(a.len() >= 2);
    let s = a.skip(2);
    assert(esr_outcome(s, cmd, Ok(())));
    assert(s.len() == 2);
}

/// An interrogation that produced an error cannot also be one that found the
/// register clear: the two verdicts never hold of the same events.
pub proof fn lemma_esr_outcome_exclusive(a: Seq<ChannelEvent>, cmd: Seq<char>, e: &MxError)
    requires
        esr_outcome(a, cmd, Err(*e)),
    ensures
        !esr_outcome(a, cmd, Ok(())),
{
    if esr_outcome(a, cmd, Ok(())) {
        assert(a.len() == 2);
        assert(a[1] is Received);
        assert(false);
    }
}

} // verus!
