//! The operation surface: instrument-specific operations as thin formatters
//! over the protocol engine. Each contract names the exact command text sent
//! and, for queries, the exact parse applied to the reply.

use vstd::prelude::*;
use vstd::string::StringExecFns;
use crate::connection::{appended, extends, frame_spec, ChannelEvent, Connection};
use crate::error::MxError;
use crate::parse::{onoff_spec, pair_milli_spec, parse_i32, parse_i32_spec, parse_onoff,
    parse_pair_milli, parse_protection, parse_unit_milli, protection_spec, unit_milli_spec};
use crate::protocol::{execute_outcome, query_checked_err};
use crate::render::{append_dec, append_dec_i32, append_milli, dec_i32_spec, dec_spec, milli_spec};
use crate::text::trim_spec;
use crate::{damping_word, MeterAveraging, MxSeries};

verus! {

/// Lifts `query_checked_outcome` to an operation that parses the reply: a
/// reply the parse accepts yields its value; one it rejects yields a parse
/// error carrying the reply; a failed query surfaces the recovery verdict.
pub open spec fn parsed_query_outcome<T>(
    a: Seq<ChannelEvent>,
    cmd: Seq<char>,
    parse: spec_fn(Seq<char>) -> Option<T>,
    r: Result<T, MxError>,
) -> bool {
    ||| (a.len() == 2 && a[0] == ChannelEvent::Sent(frame_spec(cmd)) && (
    a[1] matches ChannelEvent::Received(raw) && (match parse(trim_spec(raw)) {
        Some(v) => r == Ok::<T, MxError>(v),
        None => r matches Err(MxError::Parse(s)) && s@ == trim_spec(raw),
    })))
    ||| (r matches Err(e) && query_checked_err(a, cmd, &e))
}

/// Builds `prefix`, the channel number, then `suffix`.
fn ch_cmd(prefix: &str, channel: u8, suffix: &str) -> (r: String)
    ensures
        r@ == prefix@ + dec_spec(channel as nat) + suffix@,
{
    let mut s = prefix.to_owned();
    append_dec(&mut s, channel as u32);
    s.append(suffix);
    proof {
        assert(s@ =~= prefix@ + dec_spec(channel as nat) + suffix@);
    }
    s
}

/// Builds `prefix`, the channel number, `mid`, then a three-decimal value.
fn ch_milli_cmd(prefix: &str, channel: u8, mid: &str, mv: u32) -> (r: String)
    ensures
        r@ == prefix@ + dec_spec(channel as nat) + mid@ + milli_spec(mv as nat),
{
    let mut s = prefix.to_owned();
    append_dec(&mut s, channel as u32);
    s.append(mid);
    append_milli(&mut s, mv);
    proof {
        assert(s@ =~= prefix@ + dec_spec(channel as nat) + mid@ + milli_spec(mv as nat));
    }
    s
}

/// Builds `prefix`, the channel number, `mid`, then a plain decimal value.
fn ch_int_cmd(prefix: &str, channel: u8, mid: &str, v: u32) -> (r: String)
    ensures
        r@ == prefix@ + dec_spec(channel as nat) + mid@ + dec_spec(v as nat),
{
    let mut s = prefix.to_owned();
    append_dec(&mut s, channel as u32);
    s.append(mid);
    append_dec(&mut s, v);
    proof {
        assert(s@ =~= prefix@ + dec_spec(channel as nat) + mid@ + dec_spec(v as nat));
    }
    s
}

impl<C: Connection> MxSeries<C> {
    /// Decrements the current limit of the channel by its step size.
    pub fn decrement_current(&mut self, channel: u8) -> (r: Result<(), MxError>)
        ensures
            extends(old(self).log(), final(self).log()),
            execute_outcome(
                appended(old(self).log(), final(self).log()),
                "DECI"@ + dec_spec(channel as nat),
                r,
            ),
    {
        let cmd = ch_cmd("DECI", channel, "");
        proof {
            reveal_strlit("");
            assert(cmd@ =~= "DECI"@ + dec_spec(channel as nat));
        }
        self.execute(cmd.as_str())
    }

    /// Decrements the voltage of the channel by its step size, optionally
    /// with the verified command variant.
    pub fn decrement_voltage(&mut self, channel: u8, verify: bool) -> (r: Result<(), MxError>)
        ensures
            extends(old(self).log(), final(self).log()),
            execute_outcome(
                appended(old(self).log(), final(self).log()),
                "DECV"@ + dec_spec(channel as nat) + (if verify {
                    "V"@
                } else {
                    Seq::<char>::empty()
                }),
                r,
            ),
    {
        let cmd = if verify {
            ch_cmd("DECV", channel, "V")
        } else {
            ch_cmd("DECV", channel, "")
        };
        proof {
            reveal_strlit("");
            assert(cmd@ =~= "DECV"@ + dec_spec(channel as nat) + (if verify {
                "V"@
            } else {
                Seq::<char>::empty()
            }));
        }
        self.execute(cmd.as_str())
    }

    /// Increments the current limit of the channel by its step size.
    pub fn increment_current(&mut self, channel: u8) -> (r: Result<(), MxError>)
        ensures
            extends(old(self).log(), final(self).log()),
            execute_outcome(
                appended(old(self).log(), final(self).log()),
                "INCI"@ + dec_spec(channel as nat),
                r,
            ),
    {
        let cmd = ch_cmd("INCI", channel, "");
        proof {
            reveal_strlit("");
            assert(cmd@ =~= "INCI"@ + dec_spec(channel as nat));
        }
        self.execute(cmd.as_str())
    }

    /// Increments the voltage of the channel by its step size, optionally
    /// with the verified command variant.
    pub fn increment_voltage(&mut self, channel: u8, verify: bool) -> (r: Result<(), MxError>)
        ensures
            extends(old(self).log(), final(self).log()),
            execute_outcome(
                appended(old(self).log(), final(self).log()),
                "INCV"@ + dec_spec(channel as nat) + (if verify {
                    "V"@
                } else {
                    Seq::<char>::empty()
                }),
                r,
            ),
    {
        let cmd = if verify {
            ch_cmd("INCV", channel, "V")
        } else {
            ch_cmd("INCV", channel, "")
        };
        proof {
            reveal_strlit("");
            assert(cmd@ =~= "INCV"@ + dec_spec(channel as nat) + (if verify {
                "V"@
            } else {
                Seq::<char>::empty()
            }));
        }
        self.execute(cmd.as_str())
    }

    /// Reads the measured output current of the channel, in milliamps.
    pub fn get_current(&mut self, channel: u8) -> (r: Result<u32, MxError>)
        ensures
            extends(old(self).log(), final(self).log()),
            parsed_query_outcome(
                appended(old(self).log(), final(self).log()),
                "I"@ + dec_spec(channel as nat) + "O?"@,
                (|s: Seq<char>| unit_milli_spec(s, 'A')),
                r,
            ),
    {
        let cmd = ch_cmd("I", channel, "O?");
        let reply = match self.query_checked(cmd.as_str()) {
            Ok(v) => v,
            Err(e) => {
                return Err(e);
            },
        };
        match parse_unit_milli(reply.as_str(), 'A') {
            Some(v) => Ok(v),
            None => Err(MxError::Parse(reply)),
        }
    }

    /// Reads the current limit of the channel, in milliamps.
    pub fn get_current_limit(&mut self, channel: u8) -> (r: Result<u32, MxError>)
        ensures
            extends(old(self).log(), final(self).log()),
            parsed_query_outcome(
                appended(old(self).log(), final(self).log()),
                "I"@ + dec_spec(channel as nat) + "?"@,
                (|s: Seq<char>| pair_milli_spec(s)),
                r,
            ),
    {
        let cmd = ch_cmd("I", channel, "?");
        let reply = match self.query_checked(cmd.as_str()) {
            Ok(v) => v,
            Err(e) => {
                return Err(e);
            },
        };
        match parse_pair_milli(reply.as_str()) {
            Some(v) => Ok(v),
            None => Err(MxError::Parse(reply)),
        }
    }

    /// Reads the current step size of the channel, in milliamps.
    pub fn get_current_step_size(&mut self, channel: u8) -> (r: Result<u32, MxError>)
        ensures
            extends(old(self).log(), final(self).log()),
            parsed_query_outcome(
                appended(old(self).log(), final(self).log()),
                "DELTAI"@ + dec_spec(channel as nat) + "?"@,
                (|s: Seq<char>| pair_milli_spec(s)),
                r,
            ),
    {
        let cmd = ch_cmd("DELTAI", channel, "?");
        let reply = match self.query_checked(cmd.as_str()) {
            Ok(v) => v,
            Err(e) => {
                return Err(e);
            },
        };
        match parse_pair_milli(reply.as_str()) {
            Some(v) => Ok(v),
            None => Err(MxError::Parse(reply)),
        }
    }

    /// Reads the over-current protection trip point of the channel, in
    /// milliamps; `None` when the protection is off.
    pub fn get_over_current_protection(&mut self, channel: u8) -> (r: Result<
        Option<u32>,
        MxError,
    >)
        ensures
            extends(old(self).log(), final(self).log()),
            parsed_query_outcome(
                appended(old(self).log(), final(self).log()),
                "OCP"@ + dec_spec(channel as nat) + "?"@,
                (|s: Seq<char>| protection_spec(s)),
                r,
            ),
    {
        let cmd = ch_cmd("OCP", channel, "?");
        let reply = match self.query_checked(cmd.as_str()) {
            Ok(v) => v,
            Err(e) => {
                return Err(e);
            },
        };
        match parse_protection(reply.as_str()) {
            Some(v) => Ok(v),
            None => Err(MxError::Parse(reply)),
        }
    }

    /// Reads the over-voltage protection trip point of the channel, in
    /// millivolts; `None` when the protection is off.
    pub fn get_over_voltage_protection(&mut self, channel: u8) -> (r: Result<
        Option<u32>,
        MxError,
    >)
        ensures
            extends(old(self).log(), final(self).log()),
            parsed_query_outcome(
                appended(old(self).log(), final(self).log()),
                "OVP"@ + dec_spec(channel as nat) + "?"@,
                (|s: Seq<char>| protection_spec(s)),
                r,
            ),
    {
        let cmd = ch_cmd("OVP", channel, "?");
        let reply = match self.query_checked(cmd.as_str()) {
            Ok(v) => v,
            Err(e) => {
                return Err(e);
            },
        };
        match parse_protection(reply.as_str()) {
            Some(v) => Ok(v),
            None => Err(MxError::Parse(reply)),
        }
    }

    /// Reads the measured output voltage of the channel, in millivolts.
    pub fn get_voltage(&mut self, channel: u8) -> (r: Result<u32, MxError>)
        ensures
            extends(old(self).log(), final(self).log()),
            parsed_query_outcome(
                appended(old(self).log(), final(self).log()),
                "V"@ + dec_spec(channel as nat) + "O?"@,
                (|s: Seq<char>| unit_milli_spec(s, 'V')),
                r,
            ),
    {
        let cmd = ch_cmd("V", channel, "O?");
        let reply = match self.query_checked(cmd.as_str()) {
            Ok(v) => v,
            Err(e) => {
                return Err(e);
            },
        };
        match parse_unit_milli(reply.as_str(), 'V') {
            Some(v) => Ok(v),
            None => Err(MxError::Parse(reply)),
        }
    }

    /// Reads the voltage range index of the channel.
    pub fn get_voltage_range(&mut self, channel: u8) -> (r: Result<i32, MxError>)
        ensures
            extends(old(self).log(), final(self).log()),
            parsed_query_outcome(
                appended(old(self).log(), final(self).log()),
                "VRANGE"@ + dec_spec(channel as nat) + "?"@,
                (|s: Seq<char>| parse_i32_spec(s)),
                r,
            ),
    {
        let cmd = ch_cmd("VRANGE", channel, "?");
        let reply = match self.query_checked(cmd.as_str()) {
            Ok(v) => v,
            Err(e) => {
                return Err(e);
            },
        };
        match parse_i32(reply.as_str()) {
            Some(v) => Ok(v),
            None => Err(MxError::Parse(reply)),
        }
    }

    /// Reads the set-point voltage of the channel, in millivolts.
    pub fn get_voltage_setpoint(&mut self, channel: u8) -> (r: Result<u32, MxError>)
        ensures
            extends(old(self).log(), final(self).log()),
            parsed_query_outcome(
                appended(old(self).log(), final(self).log()),
                "V"@ + dec_spec(channel as nat) + "?"@,
                (|s: Seq<char>| pair_milli_spec(s)),
                r,
            ),
    {
        let cmd = ch_cmd("V", channel, "?");
        let reply = match self.query_checked(cmd.as_str()) {
            Ok(v) => v,
            Err(e) => {
                return Err(e);
            },
        };
        match parse_pair_milli(reply.as_str()) {
            Some(v) => Ok(v),
            None => Err(MxError::Parse(reply)),
        }
    }

    /// Reads the voltage step size of the channel, in millivolts.
    pub fn get_voltage_step_size(&mut self, channel: u8) -> (r: Result<u32, MxError>)
        ensures
            extends(old(self).log(), final(self).log()),
            parsed_query_outcome(
                appended(old(self).log(), final(self).log()),
                "DELTAV"@ + dec_spec(channel as nat) + "?"@,
                (|s: Seq<char>| pair_milli_spec(s)),
                r,
            ),
    {
        let cmd = ch_cmd("DELTAV", channel, "?");
        let reply = match self.query_checked(cmd.as_str()) {
            Ok(v) => v,
            Err(e) => {
                return Err(e);
            },
        };
        match parse_pair_milli(reply.as_str()) {
            Some(v) => Ok(v),
            None => Err(MxError::Parse(reply)),
        }
    }

    /// Reads the voltage tracking mode of the unit.
    pub fn get_voltage_tracking_mode(&mut self) -> (r: Result<i32, MxError>)
        ensures
            extends(old(self).log(), final(self).log()),
            parsed_query_outcome(
                appended(old(self).log(), final(self).log()),
                "CONFIG?"@,
                (|s: Seq<char>| parse_i32_spec(s)),
                r,
            ),
    {
        let reply = match self.query_checked("CONFIG?") {
            Ok(v) => v,
            Err(e) => {
                return Err(e);
            },
        };
        match parse_i32(reply.as_str()) {
            Some(v) => Ok(v),
            None => Err(MxError::Parse(reply)),
        }
    }

    /// Tests whether the output of the channel is on.
    pub fn is_output_on(&mut self, channel: u8) -> (r: Result<bool, MxError>)
        ensures
            extends(old(self).log(), final(self).log()),
            parsed_query_outcome(
                appended(old(self).log(), final(self).log()),
                "OP"@ + dec_spec(channel as nat) + "?"@,
                (|s: Seq<char>| onoff_spec(s)),
                r,
            ),
    {
        let cmd = ch_cmd("OP", channel, "?");
        let reply = match self.query_checked(cmd.as_str()) {
            Ok(v) => v,
            Err(e) => {
                return Err(e);
            },
        };
        match parse_onoff(reply.as_str()) {
            Some(v) => Ok(v),
            None => Err(MxError::Parse(reply)),
        }
    }

    /// Turns the output of the channel on.
    pub fn turn_on(&mut self, channel: u8) -> (r: Result<(), MxError>)
        ensures
            extends(old(self).log(), final(self).log()),
            execute_outcome(
                appended(old(self).log(), final(self).log()),
                "OP"@ + dec_spec(channel as nat) + " 1"@,
                r,
            ),
    {
        let cmd = ch_cmd("OP", channel, " 1");
        self.execute(cmd.as_str())
    }

    /// Turns the output of the channel off.
    pub fn turn_off(&mut self, channel: u8) -> (r: Result<(), MxError>)
        ensures
            extends(old(self).log(), final(self).log()),
            execute_outcome(
                appended(old(self).log(), final(self).log()),
                "OP"@ + dec_spec(channel as nat) + " 0"@,
                r,
            ),
    {
        let cmd = ch_cmd("OP", channel, " 0");
        self.execute(cmd.as_str())
    }

    /// Attempts to clear all trip conditions.
    pub fn reset_trip(&mut self) -> (r: Result<(), MxError>)
        ensures
            extends(old(self).log(), final(self).log()),
            execute_outcome(appended(old(self).log(), final(self).log()), "TRIPRST"@, r),
    {
        self.execute("TRIPRST")
    }

    /// Recalls the settings of the channel from store `index` (0 to 49).
    pub fn recall(&mut self, channel: u8, index: u8) -> (r: Result<(), MxError>)
        ensures
            index > 49 ==> final(self).log() == old(self).log() && (r matches Err(
                MxError::InvalidParameter(s),
            ) && s@ == "Store index must be 0-49."@),
            index <= 49 ==> extends(old(self).log(), final(self).log()) && execute_outcome(
                appended(old(self).log(), final(self).log()),
                "RCL"@ + dec_spec(channel as nat) + " "@ + dec_spec(index as nat),
                r,
            ),
    {
        if index > 49 {
            return Err(MxError::InvalidParameter("Store index must be 0-49.".to_owned()));
        }
        let cmd = ch_int_cmd("RCL", channel, " ", index as u32);
        self.execute(cmd.as_str())
    }

    /// Recalls the settings of all channels from store `index` (0 to 49).
    pub fn recall_all(&mut self, index: u8) -> (r: Result<(), MxError>)
        ensures
            index > 49 ==> final(self).log() == old(self).log() && (r matches Err(
                MxError::InvalidParameter(s),
            ) && s@ == "Store index must be 0-49."@),
            index <= 49 ==> extends(old(self).log(), final(self).log()) && execute_outcome(
                appended(old(self).log(), final(self).log()),
                "*RCL "@ + dec_spec(index as nat),
                r,
            ),
    {
        if index > 49 {
            return Err(MxError::InvalidParameter("Store index must be 0-49.".to_owned()));
        }
        let mut cmd = "*RCL ".to_owned();
        append_dec(&mut cmd, index as u32);
        self.execute(cmd.as_str())
    }

    /// Saves the present settings of the channel to store `index` (0 to 49).
    pub fn save(&mut self, channel: u8, index: u8) -> (r: Result<(), MxError>)
        ensures
            index > 49 ==> final(self).log() == old(self).log() && (r matches Err(
                MxError::InvalidParameter(s),
            ) && s@ == "Store index must be 0-49."@),
            index <= 49 ==> extends(old(self).log(), final(self).log()) && execute_outcome(
                appended(old(self).log(), final(self).log()),
                "SAV"@ + dec_spec(channel as nat) + " "@ + dec_spec(index as nat),
                r,
            ),
    {
        if index > 49 {
            return Err(MxError::InvalidParameter("Store index must be 0-49.".to_owned()));
        }
        let cmd = ch_int_cmd("SAV", channel, " ", index as u32);
        self.execute(cmd.as_str())
    }

    /// Saves the settings of all channels to store `index` (0 to 49).
    pub fn save_all(&mut self, index: u8) -> (r: Result<(), MxError>)
        ensures
            index > 49 ==> final(self).log() == old(self).log() && (r matches Err(
                MxError::InvalidParameter(s),
            ) && s@ == "Store index must be 0-49."@),
            index <= 49 ==> extends(old(self).log(), final(self).log()) && execute_outcome(
                appended(old(self).log(), final(self).log()),
                "*SAV "@ + dec_spec(index as nat),
                r,
            ),
    {
        if index > 49 {
            return Err(MxError::InvalidParameter("Store index must be 0-49.".to_owned()));
        }
        let mut cmd = "*SAV ".to_owned();
        append_dec(&mut cmd, index as u32);
        self.execute(cmd.as_str())
    }

    /// Sets the current limit of the channel, in milliamps.
    pub fn set_current_limit(&mut self, channel: u8, milliamps: u32) -> (r: Result<(), MxError>)
        ensures
            extends(old(self).log(), final(self).log()),
            execute_outcome(
                appended(old(self).log(), final(self).log()),
                "I"@ + dec_spec(channel as nat) + " "@ + milli_spec(milliamps as nat),
                r,
            ),
    {
        let cmd = ch_milli_cmd("I", channel, " ", milliamps);
        self.execute(cmd.as_str())
    }

    /// Sets the current meter averaging of the channel.
    pub fn set_current_meter_averaging(&mut self, channel: u8, value: MeterAveraging) -> (r:
        Result<(), MxError>)
        ensures
            extends(old(self).log(), final(self).log()),
            execute_outcome(
                appended(old(self).log(), final(self).log()),
                "DAMPING"@ + dec_spec(channel as nat) + " "@ + damping_word(value),
                r,
            ),
    {
        let mut cmd = "DAMPING".to_owned();
        append_dec(&mut cmd, channel as u32);
        cmd.append(" ");
        cmd.append(value.as_str());
        proof {
            assert(cmd@ =~= "DAMPING"@ + dec_spec(channel as nat) + " "@ + damping_word(value));
        }
        self.execute(cmd.as_str())
    }

    /// Sets the current step size of the channel, in milliamps.
    pub fn set_current_step_size(&mut self, channel: u8, milliamps: u32) -> (r: Result<
        (),
        MxError,
    >)
        ensures
            extends(old(self).log(), final(self).log()),
            execute_outcome(
                appended(old(self).log(), final(self).log()),
                "DELTAI"@ + dec_spec(channel as nat) + " "@ + milli_spec(milliamps as nat),
                r,
            ),
    {
        let cmd = ch_milli_cmd("DELTAI", channel, " ", milliamps);
        self.execute(cmd.as_str())
    }

    /// Sets the over-current protection of the channel: enabled with a trip
    /// point in milliamps, or disabled.
    pub fn set_over_current_protection(
        &mut self,
        channel: u8,
        enable: bool,
        value: Option<u32>,
    ) -> (r: Result<(), MxError>)
        ensures
            enable && value is None ==> final(self).log() == old(self).log() && (r matches Err(
                MxError::InvalidParameter(s),
            ) && s@ == "Must specify OCP value if enabling."@),
            value matches Some(v) ==> enable ==> (extends(old(self).log(), final(self).log())
                && execute_outcome(
                appended(old(self).log(), final(self).log()),
                "OCP"@ + dec_spec(channel as nat) + " ON;OCP"@ + dec_spec(channel as nat) + " "@
                    + milli_spec(v as nat),
                r,
            )),
            !enable ==> extends(old(self).log(), final(self).log()) && execute_outcome(
                appended(old(self).log(), final(self).log()),
                "OCP"@ + dec_spec(channel as nat) + " OFF"@,
                r,
            ),
    {
        if enable {
            let v = match value {
                Some(v) => v,
                None => {
                    return Err(
                        MxError::InvalidParameter("Must specify OCP value if enabling.".to_owned()),
                    );
                },
            };
            let mut cmd = "OCP".to_owned();
            append_dec(&mut cmd, channel as u32);
            cmd.append(" ON;OCP");
            append_dec(&mut cmd, channel as u32);
            cmd.append(" ");
            append_milli(&mut cmd, v);
            proof {
                assert(cmd@ =~= "OCP"@ + dec_spec(channel as nat) + " ON;OCP"@ + dec_spec(
                    channel as nat,
                ) + " "@ + milli_spec(v as nat));
            }
            self.execute(cmd.as_str())
        } else {
            let cmd = ch_cmd("OCP", channel, " OFF");
            self.execute(cmd.as_str())
        }
    }

    /// Sets the over-voltage protection of the channel: enabled with a trip
    /// point in millivolts, or disabled.
    pub fn set_over_voltage_protection(
        &mut self,
        channel: u8,
        enable: bool,
        value: Option<u32>,
    ) -> (r: Result<(), MxError>)
        ensures
            enable && value is None ==> final(self).log() == old(self).log() && (r matches Err(
                MxError::InvalidParameter(s),
            ) && s@ == "Must specify OVP value if enabling."@),
            value matches Some(v) ==> enable ==> (extends(old(self).log(), final(self).log())
                && execute_outcome(
                appended(old(self).log(), final(self).log()),
                "OVP"@ + dec_spec(channel as nat) + " ON;OVP"@ + dec_spec(channel as nat) + " "@
                    + milli_spec(v as nat),
                r,
            )),
            !enable ==> extends(old(self).log(), final(self).log()) && execute_outcome(
                appended(old(self).log(), final(self).log()),
                "OVP"@ + dec_spec(channel as nat) + " OFF"@,
                r,
            ),
    {
        if enable {
            let v = match value {
                Some(v) => v,
                None => {
                    return Err(
                        MxError::InvalidParameter("Must specify OVP value if enabling.".to_owned()),
                    );
                },
            };
            let mut cmd = "OVP".to_owned();
            append_dec(&mut cmd, channel as u32);
            cmd.append(" ON;OVP");
            append_dec(&mut cmd, channel as u32);
            cmd.append(" ");
            append_milli(&mut cmd, v);
            proof {
                assert(cmd@ =~= "OVP"@ + dec_spec(channel as nat) + " ON;OVP"@ + dec_spec(
                    channel as nat,
                ) + " "@ + milli_spec(v as nat));
            }
            self.execute(cmd.as_str())
        } else {
            let cmd = ch_cmd("OVP", channel, " OFF");
            self.execute(cmd.as_str())
        }
    }

    /// Sets the output voltage of the channel, in millivolts, optionally
    /// with the verified command variant.
    pub fn set_voltage(&mut self, channel: u8, millivolts: u32, verify: bool) -> (r: Result<
        (),
        MxError,
    >)
        ensures
            extends(old(self).log(), final(self).log()),
            execute_outcome(
                appended(old(self).log(), final(self).log()),
                "V"@ + dec_spec(channel as nat) + (if verify {
                    "V"@
                } else {
                    Seq::<char>::empty()
                }) + " "@ + milli_spec(millivolts as nat),
                r,
            ),
    {
        let cmd = if verify {
            ch_milli_cmd("V", channel, "V ", millivolts)
        } else {
            ch_milli_cmd("V", channel, " ", millivolts)
        };
        proof {
            reveal_strlit("V ");
            reveal_strlit("V");
            reveal_strlit(" ");
            assert(cmd@ =~= "V"@ + dec_spec(channel as nat) + (if verify {
                "V"@
            } else {
                Seq::<char>::empty()
            }) + " "@ + milli_spec(millivolts as nat));
        }
        self.execute(cmd.as_str())
    }

    /// Sets the voltage range index of the channel.
    pub fn set_voltage_range(&mut self, channel: u8, index: i32) -> (r: Result<(), MxError>)
        ensures
            extends(old(self).log(), final(self).log()),
            execute_outcome(
                appended(old(self).log(), final(self).log()),
                "VRANGE"@ + dec_spec(channel as nat) + " "@ + dec_i32_spec(index as int),
                r,
            ),
    {
        let mut cmd = "VRANGE".to_owned();
        append_dec(&mut cmd, channel as u32);
        cmd.append(" ");
        append_dec_i32(&mut cmd, index);
        proof {
            assert(cmd@ =~= "VRANGE"@ + dec_spec(channel as nat) + " "@ + dec_i32_spec(
                index as int,
            ));
        }
        self.execute(cmd.as_str())
    }

    /// Sets the voltage step size of the channel, in millivolts.
    pub fn set_voltage_step_size(&mut self, channel: u8, millivolts: u32) -> (r: Result<
        (),
        MxError,
    >)
        ensures
            extends(old(self).log(), final(self).log()),
            execute_outcome(
                appended(old(self).log(), final(self).log()),
                "DELTAV"@ + dec_spec(channel as nat) + " "@ + milli_spec(millivolts as nat),
                r,
            ),
    {
        let cmd = ch_milli_cmd("DELTAV", channel, " ", millivolts);
        self.execute(cmd.as_str())
    }

    /// Sets the voltage tracking mode of the unit.
    pub fn set_voltage_tracking_mode(&mut self, mode: i32) -> (r: Result<(), MxError>)
        ensures
            extends(old(self).log(), final(self).log()),
            execute_outcome(
                appended(old(self).log(), final(self).log()),
                "CONFIG "@ + dec_i32_spec(mode as int),
                r,
            ),
    {
        let mut cmd = "CONFIG ".to_owned();
        append_dec_i32(&mut cmd, mode);
        self.execute(cmd.as_str())
    }
}

} // verus!
