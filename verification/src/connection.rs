//! The transport abstraction: a line-oriented, timeout-bounded channel whose
//! observable behaviour is modelled as a ghost log of events, and the command
//! channel that owns the framing rule on top of it.

use vstd::prelude::*;
use vstd::string::StrSliceExecFns;
use vstd::string::StringExecFns;
use crate::error::{err_view, is_channel_err, ErrView, MxError};
use crate::text::{is_ws, lemma_trim_end_fixed, lemma_trim_end_take, lemma_trim_start_fixed,
    lemma_trim_start_skip, trim_end_spec, trim_spec, trim_start_spec, ws_char};

verus! {

/// One observable interaction with the transport, in order of occurrence.
pub enum ChannelEvent {
    /// Exactly these characters were written to the transport.
    Sent(Seq<char>),
    /// The transport delivered this raw line, terminators included.
    Received(Seq<char>),
    /// A channel-level operation failed with an error of this view.
    Failed(ErrView),
    /// The calling thread was blocked for this many milliseconds so the
    /// instrument could settle.
    Slept(u64),
    /// Read and write deadlines were reconfigured to this many milliseconds.
    TimeoutSet(u64),
}

/// A command as it goes on the wire: the command text and a newline.
pub open spec fn frame_spec(c: Seq<char>) -> Seq<char> {
    c.push('\n')
}

/// A line-oriented, timeout-bounded transport. The ghost `log` records every
/// observable interaction; each method states exactly what it appends.
///
/// The library verifies its own scripted implementation against this
/// contract; implementations over real transports are outside its view and
/// are trusted to report what actually happened on the wire.
pub trait Connection: Sized {
    /// Every observable interaction so far, oldest first. Implementations
    /// override this; the default stands for a transport with no model.
    open spec fn log(&self) -> Seq<ChannelEvent> {
        Seq::empty()
    }

    /// Writes exactly `line` to the transport and flushes it.
    fn write_line(&mut self, line: &str) -> (r: Result<(), MxError>)
        ensures
            r matches Ok(()) ==> final(self).log() == old(self).log().push(
                ChannelEvent::Sent(line@),
            ),
            r matches Err(e) ==> is_channel_err(&e) && final(self).log() == old(self).log().push(
                ChannelEvent::Failed(err_view(&e)),
            ),
    ;

    /// Reads one raw line: blocks until a terminator is seen, the deadline
    /// elapses (yielding the partial buffer collected so far), or the
    /// transport fails.
    fn read_line(&mut self) -> (r: Result<String, MxError>)
        ensures
            r matches Ok(line) ==> final(self).log() == old(self).log().push(
                ChannelEvent::Received(line@),
            ),
            r matches Err(e) ==> is_channel_err(&e) && final(self).log() == old(self).log().push(
                ChannelEvent::Failed(err_view(&e)),
            ),
    ;

    /// Reconfigures both the read and the write deadline, in milliseconds,
    /// for all future operations.
    fn set_timeout(&mut self, ms: u64) -> (r: Result<(), MxError>)
        ensures
            r matches Ok(()) ==> final(self).log() == old(self).log().push(
                ChannelEvent::TimeoutSet(ms),
            ),
            r matches Err(e) ==> is_channel_err(&e) && final(self).log() == old(self).log().push(
                ChannelEvent::Failed(err_view(&e)),
            ),
    ;

    /// Blocks the calling thread for `ms` milliseconds.
    fn settle(&mut self, ms: u64)
        ensures
            final(self).log() == old(self).log().push(ChannelEvent::Slept(ms)),
    ;
}

/// `l1` is `l0` with zero or more events appended.
pub open spec fn extends(l0: Seq<ChannelEvent>, l1: Seq<ChannelEvent>) -> bool {
    l0.len() <= l1.len() && l1.take(l0.len() as int) == l0
}

/// The events appended between `l0` and `l1`.
pub open spec fn appended(l0: Seq<ChannelEvent>, l1: Seq<ChannelEvent>) -> Seq<ChannelEvent> {
    l1.skip(l0.len() as int)
}

/// Chaining two extensions concatenates what they appended.
pub proof fn lemma_extends_trans(
    l0: Seq<ChannelEvent>,
    l1: Seq<ChannelEvent>,
    l2: Seq<ChannelEvent>,
)
    requires
        extends(l0, l1),
        extends(l1, l2),
    ensures
        extends(l0, l2),
        appended(l0, l2) == appended(l0, l1) + appended(l1, l2),
{
    assert forall|i: int| 0 <= i < l0.len() implies l2[i] == l0[i] by {
        assert(l1.take(l0.len() as int)[i] == l1[i]);
        assert(l2.take(l1.len() as int)[i] == l2[i]);
    }
    assert(l2.take(l0.len() as int) =~= l0);
    assert forall|i: int| 0 <= i < l1.len() - l0.len() implies appended(l0, l1)[i] == l2[l0.len()
        + i] by {
        assert(l2.take(l1.len() as int)[l0.len() + i] == l2[l0.len() + i]);
    }
    assert(appended(l0, l2) =~= appended(l0, l1) + appended(l1, l2));
}

/// The result of one successful channel-level query, in terms of the events
/// it appended.
pub open spec fn query_ok_post(
    l0: Seq<ChannelEvent>,
    l1: Seq<ChannelEvent>,
    cmd: Seq<char>,
    resp: Seq<char>,
) -> bool {
    &&& l1.len() == l0.len() + 2
    &&& l1.take(l0.len() as int) == l0
    &&& l1[l0.len() as int] == ChannelEvent::Sent(frame_spec(cmd))
    &&& l1.last() matches ChannelEvent::Received(raw) && resp == trim_spec(raw)
}

/// A failed channel-level query: the send failed outright, or the send went
/// out and the read failed.
pub open spec fn query_err_post(
    l0: Seq<ChannelEvent>,
    l1: Seq<ChannelEvent>,
    cmd: Seq<char>,
    e: &MxError,
) -> bool {
    &&& is_channel_err(e)
    &&& {
        ||| l1 == l0.push(ChannelEvent::Failed(err_view(e)))
        ||| (l1.len() == l0.len() + 2 && l1.take(l0.len() as int) == l0 && l1[l0.len() as int]
            == ChannelEvent::Sent(frame_spec(cmd)) && l1.last() == ChannelEvent::Failed(
            err_view(e),
        ))
    }
}

/// What a successful query appended, seen through `appended`: the framed
/// command and the raw reply.
pub proof fn lemma_query_ok_shape(
    l0: Seq<ChannelEvent>,
    l1: Seq<ChannelEvent>,
    cmd: Seq<char>,
    resp: Seq<char>,
)
    requires
        query_ok_post(l0, l1, cmd, resp),
    ensures
        extends(l0, l1),
        appended(l0, l1).len() == 2,
        appended(l0, l1)[0] == ChannelEvent::Sent(frame_spec(cmd)),
        appended(l0, l1)[1] == l1.last(),
        l1.last() matches ChannelEvent::Received(raw) && resp == trim_spec(raw),
{
    assert(appended(l0, l1)[0] == l1[l0.len() as int]);
    assert(appended(l0, l1)[1] == l1[l0.len() as int + 1]);
}

/// What a failed query appended, seen through `appended`: either the failure
/// alone, or the framed command and then the failure.
pub proof fn lemma_query_err_shape(
    l0: Seq<ChannelEvent>,
    l1: Seq<ChannelEvent>,
    cmd: Seq<char>,
    e: &MxError,
)
    requires
        query_err_post(l0, l1, cmd, e),
    ensures
        extends(l0, l1),
        is_channel_err(e),
        appended(l0, l1) == seq![ChannelEvent::Failed(err_view(e))] || (appended(l0, l1).len() == 2
            && appended(l0, l1)[0] == ChannelEvent::Sent(frame_spec(cmd)) && appended(l0, l1)[1]
            == ChannelEvent::Failed(err_view(e))),
{
    if l1 == l0.push(ChannelEvent::Failed(err_view(e))) {
        assert(l1.take(l0.len() as int) =~= l0);
        assert(appended(l0, l1) =~= seq![ChannelEvent::Failed(err_view(e))]);
    } else {
        assert(appended(l0, l1)[0] == l1[l0.len() as int]);
        assert(appended(l0, l1)[1] == l1[l0.len() as int + 1]);
        assert(l1.last() == l1[l0.len() as int + 1]);
    }
}

/// Wraps a transport and owns the framing rule: a newline is appended on
/// write, and terminators and surrounding whitespace are stripped on read.
pub struct CommandChannel<C: Connection> {
    /// The wrapped transport.
    pub conn: C,
}

impl<C: Connection> CommandChannel<C> {
    /// The transport's event log.
    pub open spec fn log(&self) -> Seq<ChannelEvent> {
        self.conn.log()
    }

    /// Takes ownership of a transport.
    pub fn new(conn: C) -> (r: CommandChannel<C>)
        ensures
            r.log() == conn.log(),
    {
        CommandChannel { conn }
    }

    /// Read access to the underlying transport.
    pub fn connection(&self) -> (r: &C)
        ensures
            r.log() == self.log(),
    {
        &self.conn
    }

    /// Writes one framed command line.
    pub fn send(&mut self, command: &str) -> (r: Result<(), MxError>)
        ensures
            r matches Ok(()) ==> final(self).log() == old(self).log().push(
                ChannelEvent::Sent(frame_spec(command@)),
            ),
            r matches Err(e) ==> is_channel_err(&e) && final(self).log() == old(self).log().push(
                ChannelEvent::Failed(err_view(&e)),
            ),
    {
        let mut line = command.to_owned();
        line.append("\n");
        proof {
            reveal_strlit("\n");
            assert(line@ =~= frame_spec(command@));
        }
        self.conn.write_line(line.as_str())
    }

    /// Reads one line and strips terminators and surrounding whitespace.
    pub fn receive(&mut self) -> (r: Result<String, MxError>)
        ensures
            r matches Ok(resp) ==> final(self).log().len() == old(self).log().len() + 1
                && final(self).log().take(old(self).log().len() as int) == old(self).log()
                && (final(self).log().last() matches ChannelEvent::Received(raw) && resp@
                == trim_spec(raw)),
            r matches Err(e) ==> is_channel_err(&e) && final(self).log() == old(self).log().push(
                ChannelEvent::Failed(err_view(&e)),
            ),
    {
        match self.conn.read_line() {
            Ok(raw) => {
                let trimmed = trim(raw.as_str());
                proof {
                    assert(self.log().take(old(self).log().len() as int) =~= old(self).log());
                }
                Ok(trimmed)
            },
            Err(e) => Err(e),
        }
    }

    /// Sends one command line and reads back one response line.
    pub fn query(&mut self, command: &str) -> (r: Result<String, MxError>)
        ensures
            r matches Ok(resp) ==> query_ok_post(
                old(self).log(),
                final(self).log(),
                command@,
                resp@,
            ),
            r matches Err(e) ==> query_err_post(old(self).log(), final(self).log(), command@, &e),
    {
        let ghost l0 = self.log();
        match self.send(command) {
            Ok(()) => {},
            Err(e) => {
                return Err(e);
            },
        }
        let ghost lm = self.log();
        let out = self.receive();
        proof {
            let l1 = self.log();
            if out is Ok || out is Err {
                assert forall|i: int| 0 <= i < l0.len() implies l1[i] == l0[i] by {
                    if l1.len() == lm.len() + 1 && l1.take(lm.len() as int) == lm {
                        assert(l1.take(lm.len() as int)[i] == l1[i]);
                    } else {
                        assert(l1 == lm.push(ChannelEvent::Failed(err_view(&out->Err_0))));
                    }
                }
            }
        }
        match out {
            Ok(resp) => {
                proof {
                    let l1 = self.log();
                    assert(l1.take(lm.len() as int)[l0.len() as int] == l1[l0.len() as int]);
                    assert(l1.take(l0.len() as int) =~= l0);
                }
                Ok(resp)
            },
            Err(e) => {
                proof {
                    let l1 = self.log();
                    assert(l1.take(l0.len() as int) =~= l0);
                }
                Err(e)
            },
        }
    }

    /// Reconfigures read and write deadlines, in milliseconds.
    pub fn set_timeout(&mut self, ms: u64) -> (r: Result<(), MxError>)
        ensures
            r matches Ok(()) ==> final(self).log() == old(self).log().push(
                ChannelEvent::TimeoutSet(ms),
            ),
            r matches Err(e) ==> is_channel_err(&e) && final(self).log() == old(self).log().push(
                ChannelEvent::Failed(err_view(&e)),
            ),
    {
        self.conn.set_timeout(ms)
    }

    /// Blocks for a settle interval.
    pub fn settle(&mut self, ms: u64)
        ensures
            final(self).log() == old(self).log().push(ChannelEvent::Slept(ms)),
    {
        self.conn.settle(ms)
    }
}

/// Strips leading and trailing whitespace (spaces, tabs, carriage returns,
/// newlines) from a reply line.
pub fn trim(s: &str) -> (r: String)
    ensures
        r@ == trim_spec(s@),
{
    let n: usize = s.unicode_len();
    let mut i: usize = 0;
    while i < n && ws_char(s.get_char(i))
        invariant
            0 <= i <= n,
            n == s@.len(),
            forall|k: int| 0 <= k < i ==> is_ws(#[trigger] s@[k]),
        decreases n - i,
    {
        i = i + 1;
    }
    let mut j: usize = n;
    while j > i && ws_char(s.get_char(j - 1))
        invariant
            i <= j <= n,
            n == s@.len(),
            forall|k: int| j <= k < n ==> is_ws(#[trigger] s@[k]),
        decreases j,
    {
        j = j - 1;
    }
    let out = s.substring_char(i, j).to_owned();
    proof {
        lemma_trim_start_skip(s@, i as int);
        let t = s@.skip(i as int);
        if i < n {
            assert(t[0] == s@[i as int]);
        }
        lemma_trim_start_fixed(t);
        assert forall|k: int| j - i <= k < t.len() implies is_ws(#[trigger] t[k]) by {
            assert(t[k] == s@[i + k]);
        }
        lemma_trim_end_take(t, j - i);
        let u = t.take(j - i);
        if j > i {
            assert(u.last() == s@[j - 1]);
        }
        lemma_trim_end_fixed(u);
        assert(out@ =~= u);
    }
    out
}

} // verus!
