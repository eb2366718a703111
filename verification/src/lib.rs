//! Protocol engine for driving an MX-series bench power supply over a
//! line-oriented command/response transport.
//!
//! Every mutating command is followed by a mandatory settle pause and a
//! read-and-clear interrogation of the instrument's event status register;
//! every failed query is followed by the same interrogation, whose verdict,
//! if any, replaces the raw communication failure. The contracts state each
//! operation's behaviour as an exact relation between the channel events it
//! performed and the result it returned.

use vstd::prelude::*;
use vstd::string::StringExecFns;
use crate::connection::{appended, extends, frame_spec, lemma_extends_trans, lemma_query_err_shape,
    lemma_query_ok_shape, ChannelEvent, CommandChannel, Connection};
use crate::error::{err_view, is_channel_err, lookup_error_code, MxError};
use crate::parse::{parse_i32, parse_u8, parse_u8_spec};
use crate::protocol::{esr_query, execute_outcome, lemma_esr_outcome_exclusive,
    query_checked_outcome};
use crate::render::{bin8, bin8_spec};
use crate::text::trim_spec;

pub mod connection;
pub mod error;
pub mod laws;
pub mod mock;
pub mod multi;
pub mod ops;
pub mod parse;
pub mod protocol;
pub mod render;
pub mod text;

verus! {

/// Settle interval, in milliseconds, between a mutating command and the
/// status-register read that verifies it.
pub const SETTLE_MS: u64 = 50;

/// Longer settle interval, in milliseconds, after a reset command.
pub const RESET_SETTLE_MS: u64 = 500;

/// Settle interval, in milliseconds, between a multi-channel action-mode
/// command and the delay-value command that follows it.
pub const MULTI_SETTLE_MS: u64 = 100;

/// A reading of the event status register, in the caller's chosen form.
#[derive(Debug)]
pub enum ESRValue {
    Integer(u8),
    BinaryString(String),
}

/// Actions for multi-channel on/off operations.
#[derive(Debug, Clone, Copy, PartialEq, Eq, Structural)]
pub enum MultiActionType {
    Quick,
    Never,
    Delay,
}

/// Configuration for a multi-channel operation on one channel.
#[derive(Debug, Clone, Copy, PartialEq, Eq, Structural)]
pub enum MultiOperationConfig {
    /// Turn on/off quickly or never. `true` for QUICK, `false` for NEVER.
    Action(bool),
    /// Turn on/off after the given delay in milliseconds.
    DelayMs(u16),
}

/// Averaging settings for the current meter.
#[derive(Debug, Clone, Copy, PartialEq, Eq, Structural)]
pub enum MeterAveraging {
    On,
    Off,
    Low,
    Med,
    High,
}

/// The keyword the instrument uses for each averaging setting.
pub open spec fn damping_word(m: MeterAveraging) -> Seq<char> {
    match m {
        MeterAveraging::On => "ON"@,
        MeterAveraging::Off => "OFF"@,
        MeterAveraging::Low => "LOW"@,
        MeterAveraging::Med => "MED"@,
        MeterAveraging::High => "HIGH"@,
    }
}

impl MeterAveraging {
    /// The keyword sent for this setting.
    pub fn as_str(&self) -> (r: &'static str)
        ensures
            r@ == damping_word(*self),
    {
        match self {
            MeterAveraging::On => "ON",
            MeterAveraging::Off => "OFF",
            MeterAveraging::Low => "LOW",
            MeterAveraging::Med => "MED",
            MeterAveraging::High => "HIGH",
        }
    }
}

/// The keyword the instrument uses for each multi-channel action.
pub open spec fn action_word(a: MultiActionType) -> Seq<char> {
    match a {
        MultiActionType::Quick => "QUICK"@,
        MultiActionType::Never => "NEVER"@,
        MultiActionType::Delay => "DELAY"@,
    }
}

/// What one read of the event status register appends and returns: the raw
/// register byte, or its eight binary digits.
pub open spec fn esr_read_outcome(
    a: Seq<ChannelEvent>,
    as_integer: bool,
    r: Result<ESRValue, MxError>,
) -> bool {
    ||| (r matches Err(e) && is_channel_err(&e) && {
        ||| a == seq![ChannelEvent::Failed(err_view(&e))]
        ||| (a.len() == 2 && a[0] == ChannelEvent::Sent(frame_spec(esr_query())) && a[1]
            == ChannelEvent::Failed(err_view(&e)))
    })
    ||| (a.len() == 2 && a[0] == ChannelEvent::Sent(frame_spec(esr_query())) && (
    a[1] matches ChannelEvent::Received(raw) && {
        let line = trim_spec(raw);
        match parse_u8_spec(line) {
            None => r matches Err(MxError::Parse(s)) && s@ == line,
            Some(v) => if as_integer {
                r == Ok::<ESRValue, MxError>(ESRValue::Integer(v))
            } else {
                r matches Ok(x) && (x matches ESRValue::BinaryString(b) && b@ == bin8_spec(v))
            },
        }
    }))
}

/// The protocol engine for one MX-series instrument: it owns the command
/// channel and applies the write-then-verify and query-then-recover
/// algorithms to every operation.
pub struct MxSeries<C: Connection> {
    /// The command channel owning the transport.
    pub chan: CommandChannel<C>,
}

impl<C: Connection> MxSeries<C> {
    /// The transport's event log.
    pub open spec fn log(&self) -> Seq<ChannelEvent> {
        self.chan.log()
    }

    /// Wraps a transport in a protocol engine.
    pub fn new(conn: C) -> (r: MxSeries<C>)
        ensures
            r.log() == conn.log(),
    {
        MxSeries { chan: CommandChannel::new(conn) }
    }

    /// Sets the communication timeout, in milliseconds, for both directions.
    pub fn set_timeout(&mut self, ms: u64) -> (r: Result<(), MxError>)
        ensures
            r matches Ok(()) ==> final(self).log() == old(self).log().push(
                ChannelEvent::TimeoutSet(ms),
            ),
            r matches Err(e) ==> is_channel_err(&e) && final(self).log() == old(self).log().push(
                ChannelEvent::Failed(err_view(&e)),
            ),
    {
        self.chan.set_timeout(ms)
    }

    /// Interrogates the event status register — which also clears it — and
    /// turns what it reads into a verdict for `command`: syntax error,
    /// execution error (resolved through the code table by a further
    /// error-code query), device-dependent error, query error, or success.
    pub fn check_event_status_register(&mut self, command: &str) -> (r: Result<(), MxError>)
        ensures
            extends(old(self).log(), final(self).log()),
            crate::protocol::esr_outcome(
                appended(old(self).log(), final(self).log()),
                command@,
                r,
            ),
    {
        let ghost l0 = self.log();
        let out = self.chan.query("*ESR?");
        let esr_reply = match out {
            Ok(reply) => reply,
            Err(e) => {
                proof {
                    lemma_query_err_shape(l0, self.log(), "*ESR?"@, &e);
                }
                return Err(e);
            },
        };
        proof {
            lemma_query_ok_shape(l0, self.log(), "*ESR?"@, esr_reply@);
        }
        let ghost la = self.log();
        let status = match parse_u8(esr_reply.as_str()) {
            Some(v) => v,
            None => {
                return Err(MxError::Parse(esr_reply));
            },
        };
        if status & 32 != 0 {
            return Err(MxError::CommandError(command.to_owned()));
        }
        if status & 16 != 0 {
            let out2 = self.chan.query("EER?");
            let eer_reply = match out2 {
                Ok(reply) => reply,
                Err(e) => {
                    proof {
                        lemma_query_err_shape(la, self.log(), "EER?"@, &e);
                        lemma_extends_trans(l0, la, self.log());
                    }
                    return Err(e);
                },
            };
            proof {
                lemma_query_ok_shape(la, self.log(), "EER?"@, eer_reply@);
                lemma_extends_trans(l0, la, self.log());
            }
            let code = match parse_i32(eer_reply.as_str()) {
                Some(c) => c,
                None => {
                    return Err(MxError::Parse(eer_reply));
                },
            };
            match lookup_error_code(code) {
                Some(entry) => {
                    return Err(
                        MxError::ExecutionError {
                            code,
                            error_type: entry.0.to_owned(),
                            description: entry.1.to_owned(),
                        },
                    );
                },
                None => {
                    return Err(MxError::UndefinedDeviceErrorCode(code, command.to_owned()));
                },
            }
        }
        if status & 8 != 0 {
            return Err(MxError::VerifyTimeoutError(command.to_owned()));
        }
        if status & 4 != 0 {
            return Err(MxError::QueryError(command.to_owned()));
        }
        Ok(())
    }

    /// Mutating execution: sends `command`, waits the mandatory settle
    /// interval, then verifies the outcome through the status register.
    pub fn execute(&mut self, command: &str) -> (r: Result<(), MxError>)
        ensures
            extends(old(self).log(), final(self).log()),
            execute_outcome(appended(old(self).log(), final(self).log()), command@, r),
    {
        let ghost l0 = self.log();
        match self.chan.send(command) {
            Ok(()) => {},
            Err(e) => {
                proof {
                    assert(self.log().take(l0.len() as int) =~= l0);
                    assert(appended(l0, self.log()) =~= seq![
                        ChannelEvent::Failed(err_view(&e)),
                    ]);
                }
                return Err(e);
            },
        }
        self.chan.settle(SETTLE_MS);
        let ghost la = self.log();
        proof {
            assert(la.take(l0.len() as int) =~= l0);
            assert(appended(l0, la) =~= seq![
                ChannelEvent::Sent(frame_spec(command@)),
                ChannelEvent::Slept(SETTLE_MS),
            ]);
        }
        let r = self.check_event_status_register(command);
        proof {
            lemma_extends_trans(l0, la, self.log());
            assert(appended(l0, self.log()).skip(2) =~= appended(la, self.log()));
        }
        r
    }

    /// Checked query: a successful channel-level query is returned trimmed,
    /// with no status-register read; a failed one is followed by the
    /// recovery interrogation, whose verdict, if any, replaces the raw
    /// communication failure.
    pub fn query_checked(&mut self, command: &str) -> (r: Result<String, MxError>)
        ensures
            extends(old(self).log(), final(self).log()),
            query_checked_outcome(appended(old(self).log(), final(self).log()), command@, r),
    {
        let ghost l0 = self.log();
        let out = self.chan.query(command);
        match out {
            Ok(response) => {
                proof {
                    lemma_query_ok_shape(l0, self.log(), command@, response@);
                }
                Ok(response)
            },
            Err(e) => {
                proof {
                    lemma_query_err_shape(l0, self.log(), command@, &e);
                }
                let ghost la = self.log();
                let ghost a1 = appended(l0, la);
                let check = self.check_event_status_register(command);
                proof {
                    lemma_extends_trans(l0, la, self.log());
                    assert(appended(l0, self.log()).skip(a1.len() as int) =~= appended(
                        la,
                        self.log(),
                    ));
                }
                match check {
                    Ok(()) => Err(e),
                    Err(esr_err) => {
                        proof {
                            lemma_esr_outcome_exclusive(
                                appended(la, self.log()),
                                command@,
                                &esr_err,
                            );
                        }
                        Err(esr_err)
                    },
                }
            },
        }
    }

    /// Sends the clear command `*CLS`. No verification follows: the command
    /// clears the very register that verification would read.
    pub fn clear(&mut self) -> (r: Result<(), MxError>)
        ensures
            r matches Ok(()) ==> final(self).log() == old(self).log().push(
                ChannelEvent::Sent(frame_spec("*CLS"@)),
            ),
            r matches Err(e) ==> is_channel_err(&e) && final(self).log() == old(self).log().push(
                ChannelEvent::Failed(err_view(&e)),
            ),
    {
        self.chan.send("*CLS")
    }

    /// Sends the reset command `*RST`, then waits the longer reset settle
    /// interval instead of a status check: the instrument cannot answer
    /// status queries meaningfully right after a reset.
    pub fn reset(&mut self) -> (r: Result<(), MxError>)
        ensures
            r matches Ok(()) ==> final(self).log() == old(self).log() + seq![
                ChannelEvent::Sent(frame_spec("*RST"@)),
                ChannelEvent::Slept(RESET_SETTLE_MS),
            ],
            r matches Err(e) ==> is_channel_err(&e) && final(self).log() == old(self).log().push(
                ChannelEvent::Failed(err_view(&e)),
            ),
    {
        match self.chan.send("*RST") {
            Ok(()) => {},
            Err(e) => {
                return Err(e);
            },
        }
        self.chan.settle(RESET_SETTLE_MS);
        proof {
            assert(self.log() =~= old(self).log() + seq![
                ChannelEvent::Sent(frame_spec("*RST"@)),
                ChannelEvent::Slept(RESET_SETTLE_MS),
            ]);
        }
        Ok(())
    }

    /// Reads — and thereby clears — the event status register, returning it
    /// as a byte or as its eight binary digits.
    pub fn event_status_register(&mut self, as_integer: bool) -> (r: Result<ESRValue, MxError>)
        ensures
            extends(old(self).log(), final(self).log()),
            esr_read_outcome(appended(old(self).log(), final(self).log()), as_integer, r),
    {
        let ghost l0 = self.log();
        let out = self.chan.query("*ESR?");
        let val_str = match out {
            Ok(v) => {
                proof {
                    lemma_query_ok_shape(l0, self.log(), "*ESR?"@, v@);
                }
                v
            },
            Err(e) => {
                proof {
                    lemma_query_err_shape(l0, self.log(), "*ESR?"@, &e);
                }
                return Err(e);
            },
        };
        let value = match parse_u8(val_str.as_str()) {
            Some(v) => v,
            None => {
                return Err(MxError::Parse(val_str));
            },
        };
        if as_integer {
            Ok(ESRValue::Integer(value))
        } else {
            Ok(ESRValue::BinaryString(bin8(value)))
        }
    }
}

} // verus!
