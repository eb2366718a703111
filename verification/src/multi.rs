//! The multi-channel sequencer: each channel's quick/never/delay
//! configuration is applied as its own verified command sequence — a delay
//! needs a mode-set command, a settle pause, then the delay value — and the
//! aggregate all-channels command is issued exactly once, after all of them.

use vstd::prelude::*;
use vstd::string::StringExecFns;
use crate::connection::{appended, extends, lemma_extends_trans, ChannelEvent, Connection};
use crate::error::MxError;
use crate::protocol::{execute_outcome, lemma_execute_ok_len};
use crate::render::{append_dec, dec_spec};
use crate::{action_word, MultiActionType, MultiOperationConfig, MxSeries, MULTI_SETTLE_MS};

verus! {

/// The action-mode command for one channel of a multi-channel operation.
pub open spec fn multi_action_cmd(on: bool, ch: nat, act: MultiActionType) -> Seq<char> {
    (if on {
        "ONACTION"@
    } else {
        "OFFACTION"@
    }) + dec_spec(ch) + " "@ + action_word(act)
}

/// The delay-value command for one channel of a multi-channel operation.
pub open spec fn multi_delay_cmd(on: bool, ch: nat, ms: nat) -> Seq<char> {
    (if on {
        "ONDELAY"@
    } else {
        "OFFDELAY"@
    }) + dec_spec(ch) + " "@ + dec_spec(ms)
}

/// The aggregate all-channels command.
pub open spec fn opall_cmd(on: bool) -> Seq<char> {
    if on {
        "OPALL 1"@
    } else {
        "OPALL 0"@
    }
}

/// How many events configuring one channel successfully appends.
pub open spec fn step_len(cfg: MultiOperationConfig) -> int {
    match cfg {
        MultiOperationConfig::Action(_) => 4,
        MultiOperationConfig::DelayMs(_) => 9,
    }
}

/// How many events configuring all of `opts` successfully appends.
pub open spec fn config_len(opts: Seq<(u8, MultiOperationConfig)>) -> int
    decreases opts.len(),
{
    if opts.len() == 0 {
        0
    } else {
        step_len(opts[0].1) + config_len(opts.skip(1))
    }
}

/// A configuration phase appends a non-negative number of events.
pub proof fn lemma_config_len_nonneg(opts: Seq<(u8, MultiOperationConfig)>)
    ensures
        config_len(opts) >= 0,
    decreases opts.len(),
{
    if opts.len() > 0 {
        lemma_config_len_nonneg(opts.skip(1));
    }
}

/// One channel configured successfully: an action is one verified command; a
/// delay is the mode-set command, the settle pause, then the delay value.
pub open spec fn multi_step_ok(
    a: Seq<ChannelEvent>,
    ch: u8,
    cfg: MultiOperationConfig,
    on: bool,
) -> bool {
    match cfg {
        MultiOperationConfig::Action(q) => a.len() == 4 && execute_outcome(
            a,
            multi_action_cmd(
                on,
                ch as nat,
                if q {
                    MultiActionType::Quick
                } else {
                    MultiActionType::Never
                },
            ),
            Ok(()),
        ),
        MultiOperationConfig::DelayMs(ms) => a.len() == 9 && execute_outcome(
            a.take(4),
            multi_action_cmd(on, ch as nat, MultiActionType::Delay),
            Ok(()),
        ) && a[4] == ChannelEvent::Slept(MULTI_SETTLE_MS) && execute_outcome(
            a.skip(5),
            multi_delay_cmd(on, ch as nat, ms as nat),
            Ok(()),
        ),
    }
}

/// All channels of `opts` configured successfully, in order.
pub open spec fn multi_config_ok(
    a: Seq<ChannelEvent>,
    opts: Seq<(u8, MultiOperationConfig)>,
    on: bool,
) -> bool
    decreases opts.len(),
{
    if opts.len() == 0 {
        a.len() == 0
    } else {
        let n = step_len(opts[0].1);
        a.len() >= n && multi_step_ok(a.take(n), opts[0].0, opts[0].1, on) && multi_config_ok(
            a.skip(n),
            opts.skip(1),
            on,
        )
    }
}

/// One channel's configuration failing with `e`: its action command failed,
/// or (for a delay) the mode-set succeeded and the delay command failed.
pub open spec fn multi_step_err(
    a: Seq<ChannelEvent>,
    ch: u8,
    cfg: MultiOperationConfig,
    on: bool,
    e: MxError,
) -> bool {
    match cfg {
        MultiOperationConfig::Action(q) => execute_outcome(
            a,
            multi_action_cmd(
                on,
                ch as nat,
                if q {
                    MultiActionType::Quick
                } else {
                    MultiActionType::Never
                },
            ),
            Err(e),
        ),
        MultiOperationConfig::DelayMs(ms) => {
            ||| execute_outcome(a, multi_action_cmd(on, ch as nat, MultiActionType::Delay), Err(e))
            ||| (a.len() >= 5 && execute_outcome(
                a.take(4),
                multi_action_cmd(on, ch as nat, MultiActionType::Delay),
                Ok(()),
            ) && a[4] == ChannelEvent::Slept(MULTI_SETTLE_MS) && execute_outcome(
                a.skip(5),
                multi_delay_cmd(on, ch as nat, ms as nat),
                Err(e),
            ))
        },
    }
}

/// The per-channel configurations of a multi-channel request, in order.
pub open spec fn opts_view(options: &Option<Vec<(u8, MultiOperationConfig)>>) -> Seq<
    (u8, MultiOperationConfig),
> {
    match options {
        Some(v) => v@,
        None => Seq::empty(),
    }
}

/// Full characterization of a multi-channel on/off operation: every channel
/// configured in order, then exactly one aggregate command; an error stops
/// the sequence where it occurred.
pub open spec fn multi_outcome(
    a: Seq<ChannelEvent>,
    opts: Seq<(u8, MultiOperationConfig)>,
    on: bool,
    r: Result<(), MxError>,
) -> bool {
    ||| (r is Ok && a.len() == config_len(opts) + 4 && multi_config_ok(
        a.take(config_len(opts)),
        opts,
        on,
    ) && execute_outcome(a.skip(config_len(opts)), opall_cmd(on), Ok(())))
    ||| (r matches Err(e) && exists|k: int|
        0 <= k <= opts.len() && {
            let cl = config_len(#[trigger] opts.take(k));
            &&& 0 <= cl <= a.len()
            &&& multi_config_ok(a.take(cl), opts.take(k), on)
            &&& if k < opts.len() {
                multi_step_err(a.skip(cl), opts[k].0, opts[k].1, on, e)
            } else {
                execute_outcome(a.skip(cl), opall_cmd(on), Err(e))
            }
        })
}

/// Appending one successfully configured channel extends a successful
/// configuration prefix.
proof fn lemma_config_snoc(
    a: Seq<ChannelEvent>,
    b: Seq<ChannelEvent>,
    opts: Seq<(u8, MultiOperationConfig)>,
    k: int,
    on: bool,
)
    requires
        0 <= k < opts.len(),
        a.len() == config_len(opts.take(k)),
        multi_config_ok(a, opts.take(k), on),
        multi_step_ok(b, opts[k].0, opts[k].1, on),
    ensures
        multi_config_ok(a + b, opts.take(k + 1), on),
        (a + b).len() == config_len(opts.take(k + 1)),
    decreases k,
{
    let n = step_len(opts[k].1);
    assert(b.len() == n) by {
        match opts[k].1 {
            MultiOperationConfig::Action(_) => {},
            MultiOperationConfig::DelayMs(_) => {},
        }
    }
    if k == 0 {
        assert(opts.take(0).len() == 0);
        assert(a.len() == 0);
        assert(a + b =~= b);
        let o1 = opts.take(1);
        assert(o1[0] == opts[0]);
        assert(o1.skip(1) =~= Seq::<(u8, MultiOperationConfig)>::empty());
        assert(b.take(n) =~= b);
        assert(b.skip(n) =~= Seq::<ChannelEvent>::empty());
        assert(multi_config_ok(b.skip(n), o1.skip(1), on));
        assert(multi_config_ok(b, o1, on));
        assert(config_len(o1) == n + config_len(o1.skip(1)));
    } else {
        let ok = opts.take(k);
        let n0 = step_len(ok[0].1);
        assert(ok[0] == opts[0]);
        let a1 = a.skip(n0);
        assert(multi_config_ok(a1, ok.skip(1), on));
        assert(config_len(ok) == n0 + config_len(ok.skip(1)));
        assert(ok.skip(1) =~= opts.skip(1).take(k - 1));
        assert(opts.skip(1)[k - 1] == opts[k]);
        lemma_config_snoc(a1, b, opts.skip(1), k - 1, on);
        let o1 = opts.take(k + 1);
        assert(o1[0] == opts[0]);
        assert(o1.skip(1) =~= opts.skip(1).take(k));
        assert((a + b).take(n0) =~= a.take(n0));
        assert((a + b).skip(n0) =~= a1 + b);
        assert(multi_config_ok((a + b).skip(n0), o1.skip(1), on));
        assert(multi_step_ok((a + b).take(n0), o1[0].0, o1[0].1, on));
        assert(config_len(o1) == n0 + config_len(o1.skip(1)));
        assert(multi_config_ok(a + b, o1, on));
    }
}

/// Builds the action-mode command for one channel.
fn build_action_cmd(on: bool, channel: u8, act: MultiActionType) -> (r: String)
    ensures
        r@ == multi_action_cmd(on, channel as nat, act),
{
    let mut s = if on {
        "ONACTION".to_owned()
    } else {
        "OFFACTION".to_owned()
    };
    append_dec(&mut s, channel as u32);
    s.append(" ");
    let word = match act {
        MultiActionType::Quick => "QUICK",
        MultiActionType::Never => "NEVER",
        MultiActionType::Delay => "DELAY",
    };
    s.append(word);
    proof {
        assert(s@ =~= multi_action_cmd(on, channel as nat, act));
    }
    s
}

/// Builds the delay-value command for one channel.
fn build_delay_cmd(on: bool, channel: u8, ms: u16) -> (r: String)
    ensures
        r@ == multi_delay_cmd(on, channel as nat, ms as nat),
{
    let mut s = if on {
        "ONDELAY".to_owned()
    } else {
        "OFFDELAY".to_owned()
    };
    append_dec(&mut s, channel as u32);
    s.append(" ");
    append_dec(&mut s, ms as u32);
    proof {
        assert(s@ =~= multi_delay_cmd(on, channel as nat, ms as nat));
    }
    s
}

impl<C: Connection> MxSeries<C> {
    /// Sets the Multi-On action of the channel.
    pub fn set_multi_on_action(&mut self, channel: u8, action: MultiActionType) -> (r: Result<
        (),
        MxError,
    >)
        ensures
            extends(old(self).log(), final(self).log()),
            execute_outcome(
                appended(old(self).log(), final(self).log()),
                multi_action_cmd(true, channel as nat, action),
                r,
            ),
    {
        let cmd = build_action_cmd(true, channel, action);
        self.execute(cmd.as_str())
    }

    /// Sets the Multi-On delay of the channel, in milliseconds.
    pub fn set_multi_on_delay(&mut self, channel: u8, delay_ms: u16) -> (r: Result<(), MxError>)
        ensures
            extends(old(self).log(), final(self).log()),
            execute_outcome(
                appended(old(self).log(), final(self).log()),
                multi_delay_cmd(true, channel as nat, delay_ms as nat),
                r,
            ),
    {
        let cmd = build_delay_cmd(true, channel, delay_ms);
        self.execute(cmd.as_str())
    }

    /// Sets the Multi-Off action of the channel.
    pub fn set_multi_off_action(&mut self, channel: u8, action: MultiActionType) -> (r: Result<
        (),
        MxError,
    >)
        ensures
            extends(old(self).log(), final(self).log()),
            execute_outcome(
                appended(old(self).log(), final(self).log()),
                multi_action_cmd(false, channel as nat, action),
                r,
            ),
    {
        let cmd = build_action_cmd(false, channel, action);
        self.execute(cmd.as_str())
    }

    /// Sets the Multi-Off delay of the channel, in milliseconds.
    pub fn set_multi_off_delay(&mut self, channel: u8, delay_ms: u16) -> (r: Result<(), MxError>)
        ensures
            extends(old(self).log(), final(self).log()),
            execute_outcome(
                appended(old(self).log(), final(self).log()),
                multi_delay_cmd(false, channel as nat, delay_ms as nat),
                r,
            ),
    {
        let cmd = build_delay_cmd(false, channel, delay_ms);
        self.execute(cmd.as_str())
    }

    /// Turns multiple output channels on: applies each channel's
    /// configuration in order, then issues the aggregate command once.
    pub fn turn_on_multi(&mut self, options: Option<Vec<(u8, MultiOperationConfig)>>) -> (r:
        Result<(), MxError>)
        ensures
            extends(old(self).log(), final(self).log()),
            multi_outcome(
                appended(old(self).log(), final(self).log()),
                opts_view(&options),
                true,
                r,
            ),
    {
        self.multi_switch(options, true)
    }

    /// Turns multiple output channels off: applies each channel's
    /// configuration in order, then issues the aggregate command once.
    pub fn turn_off_multi(&mut self, options: Option<Vec<(u8, MultiOperationConfig)>>) -> (r:
        Result<(), MxError>)
        ensures
            extends(old(self).log(), final(self).log()),
            multi_outcome(
                appended(old(self).log(), final(self).log()),
                opts_view(&options),
                false,
                r,
            ),
    {
        self.multi_switch(options, false)
    }

    /// Shared body of the multi-channel operations.
    fn multi_switch(&mut self, options: Option<Vec<(u8, MultiOperationConfig)>>, on: bool) -> (r:
        Result<(), MxError>)
        ensures
            extends(old(self).log(), final(self).log()),
            multi_outcome(
                appended(old(self).log(), final(self).log()),
                opts_view(&options),
                on,
                r,
            ),
    {
        let ghost l0 = self.log();
        let ghost ov = opts_view(&options);
        if let Some(opts) = &options {
            let mut idx: usize = 0;
            proof {
                assert(appended(l0, self.log()) =~= Seq::<ChannelEvent>::empty());
                assert(ov.take(0) =~= Seq::<(u8, MultiOperationConfig)>::empty());
                assert(l0.take(l0.len() as int) =~= l0);
            }
            while idx < opts.len()
                invariant
                    idx <= opts.len(),
                    l0 == old(self).log(),
                    ov == opts@,
                    ov == opts_view(&options),
                    extends(l0, self.log()),
                    appended(l0, self.log()).len() == config_len(ov.take(idx as int)),
                    multi_config_ok(appended(l0, self.log()), ov.take(idx as int), on),
                decreases opts.len() - idx,
            {
                let (channel, config) = opts[idx];
                let ghost lm = self.log();
                match config {
                    MultiOperationConfig::Action(q) => {
                        let act = if q {
                            MultiActionType::Quick
                        } else {
                            MultiActionType::Never
                        };
                        let cmd = build_action_cmd(on, channel, act);
                        match self.execute(cmd.as_str()) {
                            Ok(()) => {
                                proof {
                                    lemma_extends_trans(l0, lm, self.log());
                                    lemma_execute_ok_len(
                                        appended(lm, self.log()),
                                        multi_action_cmd(on, channel as nat, act),
                                    );
                                    lemma_config_snoc(
                                        appended(l0, lm),
                                        appended(lm, self.log()),
                                        ov,
                                        idx as int,
                                        on,
                                    );
                                }
                            },
                            Err(e) => {
                                proof {
                                    lemma_extends_trans(l0, lm, self.log());
                                    let a = appended(l0, self.log());
                                    let k = idx as int;
                                    let cl = config_len(ov.take(k));
                                    assert(a.take(cl) =~= appended(l0, lm));
                                    assert(a.skip(cl) =~= appended(lm, self.log()));
                                    assert(multi_step_err(a.skip(cl), ov[k].0, ov[k].1, on, e));
                                }
                                return Err(e);
                            },
                        }
                    },
                    MultiOperationConfig::DelayMs(ms) => {
                        let cmd = build_action_cmd(on, channel, MultiActionType::Delay);
                        match self.execute(cmd.as_str()) {
                            Ok(()) => {},
                            Err(e) => {
                                proof {
                                    lemma_extends_trans(l0, lm, self.log());
                                    let a = appended(l0, self.log());
                                    let k = idx as int;
                                    let cl = config_len(ov.take(k));
                                    assert(a.take(cl) =~= appended(l0, lm));
                                    assert(a.skip(cl) =~= appended(lm, self.log()));
                                    assert(multi_step_err(a.skip(cl), ov[k].0, ov[k].1, on, e));
                                }
                                return Err(e);
                            },
                        }
                        let ghost la = self.log();
                        proof {
                            lemma_execute_ok_len(
                                appended(lm, la),
                                multi_action_cmd(on, channel as nat, MultiActionType::Delay),
                            );
                        }
                        self.chan.settle(MULTI_SETTLE_MS);
                        let ghost lb = self.log();
                        proof {
                            assert(lb.take(la.len() as int) =~= la);
                            assert(appended(la, lb) =~= seq![
                                ChannelEvent::Slept(MULTI_SETTLE_MS),
                            ]);
                            lemma_extends_trans(lm, la, lb);
                        }
                        let cmd2 = build_delay_cmd(on, channel, ms);
                        match self.execute(cmd2.as_str()) {
                            Ok(()) => {
                                proof {
                                    lemma_extends_trans(lm, lb, self.log());
                                    lemma_extends_trans(l0, lm, self.log());
                                    lemma_execute_ok_len(
                                        appended(lb, self.log()),
                                        multi_delay_cmd(on, channel as nat, ms as nat),
                                    );
                                    let b = appended(lm, self.log());
                                    assert(b.take(4) =~= appended(lm, la));
                                    assert(b[4] == ChannelEvent::Slept(MULTI_SETTLE_MS));
                                    assert(b.skip(5) =~= appended(lb, self.log()));
                                    assert(multi_step_ok(b, channel, config, on));
                                    lemma_config_snoc(appended(l0, lm), b, ov, idx as int, on);
                                }
                            },
                            Err(e) => {
                                proof {
                                    lemma_extends_trans(lm, lb, self.log());
                                    lemma_extends_trans(l0, lm, self.log());
                                    let a = appended(l0, self.log());
                                    let k = idx as int;
                                    let cl = config_len(ov.take(k));
                                    assert(a.take(cl) =~= appended(l0, lm));
                                    assert(a.skip(cl) =~= appended(lm, self.log()));
                                    let b = appended(lm, self.log());
                                    assert(b.take(4) =~= appended(lm, la));
                                    assert(b[4] == ChannelEvent::Slept(MULTI_SETTLE_MS));
                                    assert(b.skip(5) =~= appended(lb, self.log()));
                                    assert(multi_step_err(a.skip(cl), ov[k].0, ov[k].1, on, e));
                                }
                                return Err(e);
                            },
                        }
                    },
                }
                idx = idx + 1;
            }
            let ghost lm = self.log();
            let r = if on {
                self.execute("OPALL 1")
            } else {
                self.execute("OPALL 0")
            };
            proof {
                lemma_extends_trans(l0, lm, self.log());
                let a = appended(l0, self.log());
                let cl = config_len(ov);
                assert(ov.take(ov.len() as int) =~= ov);
                assert(a.take(cl) =~= appended(l0, lm));
                assert(a.skip(cl) =~= appended(lm, self.log()));
                match &r {
                    Ok(_) => {
                        lemma_execute_ok_len(appended(lm, self.log()), opall_cmd(on));
                    },
                    Err(e) => {
                        let k = ov.len() as int;
                        assert(config_len(ov.take(k)) == cl);
                        assert(execute_outcome(a.skip(cl), opall_cmd(on), Err(*e)));
                    },
                }
            }
            r
        } else {
            let ghost lm = self.log();
            let r = if on {
                self.execute("OPALL 1")
            } else {
                self.execute("OPALL 0")
            };
            proof {
                let a = appended(l0, self.log());
                assert(ov.len() == 0);
                assert(config_len(ov) == 0);
                assert(a.take(0) =~= Seq::<ChannelEvent>::empty());
                assert(a.skip(0) =~= a);
                assert(ov.take(0) =~= ov);
                match &r {
                    Ok(_) => {
                        lemma_execute_ok_len(a, opall_cmd(on));
                    },
                    Err(e) => {
                        assert(execute_outcome(a.skip(0), opall_cmd(on), Err(*e)));
                    },
                }
            }
            r
        }
    }
}

} // verus!
