//! The behavioural laws of the protocol engine, proved over the outcome
//! relations that every operation's contract establishes.

use vstd::prelude::*;
use crate::connection::{frame_spec, ChannelEvent};
use crate::error::{err_view, error_table_spec, is_channel_err, ErrView, MxError};
use crate::multi::{config_len, multi_config_ok, multi_outcome, multi_step_ok, opall_cmd,
    multi_action_cmd, multi_delay_cmd, step_len};
use crate::parse::{parse_i32_spec, parse_u8_spec};
use crate::protocol::{eer_query, esr_outcome, esr_query, execute_outcome, query_checked_outcome};
use crate::text::trim_spec;

verus! {

/// For every command: when the events show that the status register was read
/// after the settle pause and none of the inspected error bits (2 to 5) was
/// set, the execution succeeded.
pub proof fn lemma_clear_register_executes_ok(
    a: Seq<ChannelEvent>,
    cmd: Seq<char>,
    r: Result<(), MxError>,
    raw: Seq<char>,
    st: u8,
)
    requires
        execute_outcome(a, cmd, r),
        a.len() == 4,
        a[2] == ChannelEvent::Sent(frame_spec(esr_query())),
        a[3] == ChannelEvent::Received(raw),
        parse_u8_spec(trim_spec(raw)) == Some(st),
        st & 60 == 0,
    ensures
        r is Ok,
{
    let s = a.skip(2);
    assert(s[0] == a[2]);
    assert(s[1] == a[3]);
    assert(st & 32 == 0 && st & 16 == 0 && st & 8 == 0 && st & 4 == 0) by (bit_vector)
        requires
            st & 60 == 0,
    {}
    assert(esr_outcome(s, cmd, r));
}

/// For every command: when the status register showed the execution-error
/// bit (and not the syntax-error bit) and the error-code query returned a
/// code the table resolves, the execution failed with that code's category
/// and description verbatim.
pub proof fn lemma_execution_error_resolved(
    a: Seq<ChannelEvent>,
    cmd: Seq<char>,
    r: Result<(), MxError>,
    raw: Seq<char>,
    st: u8,
    raw2: Seq<char>,
    code: i32,
)
    requires
        execute_outcome(a, cmd, r),
        a.len() == 6,
        a[2] == ChannelEvent::Sent(frame_spec(esr_query())),
        a[3] == ChannelEvent::Received(raw),
        parse_u8_spec(trim_spec(raw)) == Some(st),
        st & 32 == 0,
        st & 16 != 0,
        a[4] == ChannelEvent::Sent(frame_spec(eer_query())),
        a[5] == ChannelEvent::Received(raw2),
        parse_i32_spec(trim_spec(raw2)) == Some(code),
        error_table_spec(code as int) is Some,
    ensures
        r matches Err(e) && (e matches MxError::ExecutionError { code: c, error_type, description }
            && c == code && error_table_spec(code as int) == Some((error_type@, description@))),
{
    let s = a.skip(2);
    assert(s[0] == a[2]);
    assert(s[1] == a[3]);
    assert(s[2] == a[4]);
    assert(s[3] == a[5]);
    assert(esr_outcome(s, cmd, r));
}

/// For every command: when the error-code query returned a code absent from
/// the table, the execution failed with the undefined-code condition
/// carrying the raw code and the command.
pub proof fn lemma_undefined_code_surfaced(
    a: Seq<ChannelEvent>,
    cmd: Seq<char>,
    r: Result<(), MxError>,
    raw: Seq<char>,
    st: u8,
    raw2: Seq<char>,
    code: i32,
)
    requires
        execute_outcome(a, cmd, r),
        a.len() == 6,
        a[2] == ChannelEvent::Sent(frame_spec(esr_query())),
        a[3] == ChannelEvent::Received(raw),
        parse_u8_spec(trim_spec(raw)) == Some(st),
        st & 32 == 0,
        st & 16 != 0,
        a[4] == ChannelEvent::Sent(frame_spec(eer_query())),
        a[5] == ChannelEvent::Received(raw2),
        parse_i32_spec(trim_spec(raw2)) == Some(code),
        error_table_spec(code as int) is None,
    ensures
        r matches Err(e) && (e matches MxError::UndefinedDeviceErrorCode(c, s2) && c == code && s2@
            == cmd),
{
    let s = a.skip(2);
    assert(s[0] == a[2]);
    assert(s[1] == a[3]);
    assert(s[2] == a[4]);
    assert(s[3] == a[5]);
    assert(esr_outcome(s, cmd, r));
}

/// Status-bit precedence: a status byte with the syntax-error bit set makes
/// the execution fail as a syntax rejection, whatever the execution-error
/// bit says — the error-code query is not even issued.
pub proof fn lemma_syntax_precedes_execution(
    a: Seq<ChannelEvent>,
    cmd: Seq<char>,
    r: Result<(), MxError>,
    raw: Seq<char>,
    st: u8,
)
    requires
        execute_outcome(a, cmd, r),
        a.len() >= 4,
        a[2] == ChannelEvent::Sent(frame_spec(esr_query())),
        a[3] == ChannelEvent::Received(raw),
        parse_u8_spec(trim_spec(raw)) == Some(st),
        st & 32 != 0,
    ensures
        a.len() == 4,
        r matches Err(e) && (e matches MxError::CommandError(s2) && s2@ == cmd),
{
    let s = a.skip(2);
    assert(s[0] == a[2]);
    assert(s[1] == a[3]);
    assert(esr_outcome(s, cmd, r));
}

/// A checked query that succeeds returns the trimmed reply unchanged and
/// performs no status-register read: the only events are the framed command
/// and the one received line.
pub proof fn lemma_query_ok_reads_no_register(
    a: Seq<ChannelEvent>,
    cmd: Seq<char>,
    r: Result<String, MxError>,
)
    requires
        query_checked_outcome(a, cmd, r),
        r is Ok,
    ensures
        a.len() == 2,
        a[0] == ChannelEvent::Sent(frame_spec(cmd)),
        a[1] is Received,
        r matches Ok(resp) ==> (a[1] matches ChannelEvent::Received(raw) && resp@ == trim_spec(
            raw,
        )),
{
}

/// A checked query that failed at the channel level, followed by an
/// interrogation that found the register clear, surfaces the original
/// communication failure unchanged.
pub proof fn lemma_recovery_clear_surfaces_original(
    a: Seq<ChannelEvent>,
    cmd: Seq<char>,
    r: Result<String, MxError>,
    v: ErrView,
    raw: Seq<char>,
    st: u8,
)
    requires
        query_checked_outcome(a, cmd, r),
        a.len() == 4,
        a[0] == ChannelEvent::Sent(frame_spec(cmd)),
        a[1] == ChannelEvent::Failed(v),
        a[2] == ChannelEvent::Sent(frame_spec(esr_query())),
        a[3] == ChannelEvent::Received(raw),
        parse_u8_spec(trim_spec(raw)) == Some(st),
        st & 60 == 0,
    ensures
        r matches Err(e) && is_channel_err(&e) && err_view(&e) == v,
{
    let a2 = a.skip(2);
    assert(a2[0] == a[2]);
    assert(a2[1] == a[3]);
    assert(st & 32 == 0 && st & 16 == 0 && st & 8 == 0 && st & 4 == 0) by (bit_vector)
        requires
            st & 60 == 0,
    {}
    assert(esr_outcome(a2, cmd, Ok(())));
    assert(a.skip(1)[0] == a[1]);
}

/// A checked query that failed at the channel level, followed by an
/// interrogation that found the execution-error bit and a resolvable code,
/// surfaces the resolved execution rejection in place of the raw
/// communication failure.
pub proof fn lemma_recovery_replaces_with_device_error(
    a: Seq<ChannelEvent>,
    cmd: Seq<char>,
    r: Result<String, MxError>,
    v: ErrView,
    raw: Seq<char>,
    st: u8,
    raw2: Seq<char>,
    code: i32,
)
    requires
        query_checked_outcome(a, cmd, r),
        a.len() == 6,
        a[0] == ChannelEvent::Sent(frame_spec(cmd)),
        a[1] == ChannelEvent::Failed(v),
        a[2] == ChannelEvent::Sent(frame_spec(esr_query())),
        a[3] == ChannelEvent::Received(raw),
        parse_u8_spec(trim_spec(raw)) == Some(st),
        st & 32 == 0,
        st & 16 != 0,
        a[4] == ChannelEvent::Sent(frame_spec(eer_query())),
        a[5] == ChannelEvent::Received(raw2),
        parse_i32_spec(trim_spec(raw2)) == Some(code),
        error_table_spec(code as int) is Some,
    ensures
        r matches Err(e) && (e matches MxError::ExecutionError { code: c, error_type, description }
            && c == code && error_table_spec(code as int) == Some((error_type@, description@))),
{
    let a2 = a.skip(2);
    assert(a2[0] == a[2]);
    assert(a2[1] == a[3]);
    assert(a2[2] == a[4]);
    assert(a2[3] == a[5]);
    assert(a.skip(1)[0] == a[1]);
    assert(!esr_outcome(a2, cmd, Ok(())));
    if let Err(e) = r {
        assert(esr_outcome(a2, cmd, Err(e)));
    }
}

/// How many times `line` was sent in `a`.
pub open spec fn count_sent(a: Seq<ChannelEvent>, line: Seq<char>) -> int
    decreases a.len(),
{
    if a.len() == 0 {
        0
    } else {
        (if a[0] == ChannelEvent::Sent(line) {
            1int
        } else {
            0int
        }) + count_sent(a.skip(1), line)
    }
}

/// Counting sends distributes over concatenation.
pub proof fn lemma_count_sent_concat(x: Seq<ChannelEvent>, y: Seq<ChannelEvent>, line: Seq<char>)
    ensures
        count_sent(x + y, line) == count_sent(x, line) + count_sent(y, line),
    decreases x.len(),
{
    if x.len() == 0 {
        assert(x + y =~= y);
    } else {
        assert((x + y)[0] == x[0]);
        assert((x + y).skip(1) =~= x.skip(1) + y);
        lemma_count_sent_concat(x.skip(1), y, line);
    }
}

/// In the four events of one successful execution, the framed command is
/// sent once and the framed status query once.
proof fn lemma_execute_ok_count(a: Seq<ChannelEvent>, cmd: Seq<char>, line: Seq<char>)
    requires
        execute_outcome(a, cmd, Ok(())),
    ensures
        count_sent(a, line) == (if frame_spec(cmd) == line {
            1int
        } else {
            0int
        }) + (if frame_spec(esr_query()) == line {
            1int
        } else {
            0int
        }),
{
    crate::protocol::lemma_execute_ok_len(a, cmd);
    let s = a.skip(2);
    assert(esr_outcome(s, cmd, Ok(())));
    assert(s[0] == a[2]);
    assert(s[1] == a[3]);
    assert(a[1] == ChannelEvent::Slept(crate::SETTLE_MS));
    assert(a[3] is Received);
    assert(a.skip(1)[0] == a[1]);
    assert(a.skip(1).skip(1) =~= a.skip(2));
    assert(a.skip(2)[0] == a[2]);
    assert(a.skip(2).skip(1) =~= a.skip(3));
    assert(a.skip(3)[0] == a[3]);
    assert(a.skip(3).skip(1) =~= a.skip(4));
    assert(a.skip(4).len() == 0);
    assert(count_sent(a.skip(4), line) == 0);
    assert(count_sent(a.skip(3), line) == 0);
    assert(count_sent(a.skip(2), line) == (if a[2] == ChannelEvent::Sent(line) {
        1int
    } else {
        0int
    }));
    assert(count_sent(a.skip(1), line) == count_sent(a.skip(2), line));
    assert(count_sent(a, line) == (if a[0] == ChannelEvent::Sent(line) {
        1int
    } else {
        0int
    }) + count_sent(a.skip(1), line));
    assert(a[0] == ChannelEvent::Sent(frame_spec(cmd)));
    assert(a[2] == ChannelEvent::Sent(frame_spec(esr_query())));
}

/// No configuration command of a multi-channel operation is the framed
/// aggregate command, and neither is the status query.
proof fn lemma_opall_distinct(on: bool, on2: bool, ch: nat, act: crate::MultiActionType, ms: nat)
    ensures
        frame_spec(multi_action_cmd(on, ch, act)) != frame_spec(opall_cmd(on2)),
        frame_spec(multi_delay_cmd(on, ch, ms)) != frame_spec(opall_cmd(on2)),
        frame_spec(esr_query()) != frame_spec(opall_cmd(on2)),
    {
    reveal_strlit("ONACTION");
    reveal_strlit("OFFACTION");
    reveal_strlit("ONDELAY");
    reveal_strlit("OFFDELAY");
    reveal_strlit("OPALL 1");
    reveal_strlit("OPALL 0");
    reveal_strlit("*ESR?");
    let p = if on {
        "ONACTION"@
    } else {
        "OFFACTION"@
    };
    let pd = if on {
        "ONDELAY"@
    } else {
        "OFFDELAY"@
    };
    let q = opall_cmd(on2);
    assert(q[1] == 'P');
    assert(frame_spec(q)[1] == 'P');
    assert(multi_action_cmd(on, ch, act)[1] == p[1]);
    assert(p[1] == 'N' || p[1] == 'F');
    assert(frame_spec(multi_action_cmd(on, ch, act))[1] == multi_action_cmd(on, ch, act)[1]);
    assert(multi_delay_cmd(on, ch, ms)[1] == pd[1]);
    assert(pd[1] == 'N' || pd[1] == 'F');
    assert(frame_spec(multi_delay_cmd(on, ch, ms))[1] == multi_delay_cmd(on, ch, ms)[1]);
    assert(frame_spec(esr_query())[0] == '*');
    assert(frame_spec(q)[0] == 'O');
}

/// A successful per-channel configuration sends the aggregate command zero
/// times.
proof fn lemma_step_ok_count(
    b: Seq<ChannelEvent>,
    ch: u8,
    cfg: crate::MultiOperationConfig,
    on: bool,
)
    requires
        multi_step_ok(b, ch, cfg, on),
    ensures
        count_sent(b, frame_spec(opall_cmd(on))) == 0,
{
    match cfg {
        crate::MultiOperationConfig::Action(q) => {
            let act = if q {
                crate::MultiActionType::Quick
            } else {
                crate::MultiActionType::Never
            };
            lemma_opall_distinct(on, on, ch as nat, act, 0);
            lemma_execute_ok_count(b, multi_action_cmd(on, ch as nat, act), frame_spec(
                opall_cmd(on),
            ));
        },
        crate::MultiOperationConfig::DelayMs(ms) => {
            lemma_opall_distinct(on, on, ch as nat, crate::MultiActionType::Delay, ms as nat);
            lemma_execute_ok_count(b.take(4), multi_action_cmd(
                on,
                ch as nat,
                crate::MultiActionType::Delay,
            ), frame_spec(opall_cmd(on)));
            lemma_execute_ok_count(b.skip(5), multi_delay_cmd(on, ch as nat, ms as nat),
                frame_spec(opall_cmd(on)));
            assert(b =~= b.take(4) + seq![b[4]] + b.skip(5));
            lemma_count_sent_concat(b.take(4) + seq![b[4]], b.skip(5), frame_spec(opall_cmd(on)));
            lemma_count_sent_concat(b.take(4), seq![b[4]], frame_spec(opall_cmd(on)));
            assert(seq![b[4]].skip(1) =~= Seq::<ChannelEvent>::empty());
            assert(seq![b[4]][0] == b[4]);
            assert(b[4] == ChannelEvent::Slept(crate::MULTI_SETTLE_MS));
            assert(count_sent(Seq::<ChannelEvent>::empty(), frame_spec(opall_cmd(on))) == 0);
            assert(count_sent(seq![b[4]], frame_spec(opall_cmd(on))) == 0);
        },
    }
}

/// A successful configuration phase sends the aggregate command zero times.
proof fn lemma_config_count(
    a: Seq<ChannelEvent>,
    opts: Seq<(u8, crate::MultiOperationConfig)>,
    on: bool,
)
    requires
        multi_config_ok(a, opts, on),
    ensures
        count_sent(a, frame_spec(opall_cmd(on))) == 0,
    decreases opts.len(),
{
    if opts.len() == 0 {
    } else {
        let n = step_len(opts[0].1);
        lemma_step_ok_count(a.take(n), opts[0].0, opts[0].1, on);
        lemma_config_count(a.skip(n), opts.skip(1), on);
        assert(a =~= a.take(n) + a.skip(n));
        lemma_count_sent_concat(a.take(n), a.skip(n), frame_spec(opall_cmd(on)));
    }
}

/// On a successful multi-channel operation the aggregate all-channels
/// command is sent exactly once — after every per-channel configuration
/// command, never per channel.
pub proof fn lemma_multi_aggregate_once(
    a: Seq<ChannelEvent>,
    opts: Seq<(u8, crate::MultiOperationConfig)>,
    on: bool,
    r: Result<(), MxError>,
)
    requires
        multi_outcome(a, opts, on, r),
        r is Ok,
    ensures
        count_sent(a, frame_spec(opall_cmd(on))) == 1,
        count_sent(a.take(config_len(opts)), frame_spec(opall_cmd(on))) == 0,
        a[config_len(opts)] == ChannelEvent::Sent(frame_spec(opall_cmd(on))),
    {
    let line = frame_spec(opall_cmd(on));
    let cl = config_len(opts);
    crate::multi::lemma_config_len_nonneg(opts);
    lemma_config_count(a.take(cl), opts, on);
    crate::protocol::lemma_execute_ok_len(a.skip(cl), opall_cmd(on));
    lemma_opall_distinct(on, on, 0, crate::MultiActionType::Quick, 0);
    lemma_execute_ok_count(a.skip(cl), opall_cmd(on), line);
    assert(a =~= a.take(cl) + a.skip(cl));
    lemma_count_sent_concat(a.take(cl), a.skip(cl), line);
    assert(a.skip(cl)[0] == a[cl]);
}

} // verus!
