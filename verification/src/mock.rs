//! A scripted connection for exercising the protocol engine without an
//! instrument: reads are answered from a fixed script, and every interaction
//! is recorded for inspection.

use vstd::prelude::*;
use vstd::string::StringExecFns;
use crate::connection::{ChannelEvent, Connection};
use crate::error::{ErrView, MxError};

verus! {

/// One scripted answer to a read: a raw line, a communication failure, or a
/// malformed-text failure.
#[derive(Debug)]
pub enum MockReply {
    /// The next read yields this raw line, terminators included.
    Line(String),
    /// The next read fails with a communication error carrying this message.
    ChannelDown(String),
    /// The next read fails with a malformed-text error carrying this message.
    Garbled(String),
}

/// One recorded interaction, mirroring `ChannelEvent` with executable data.
#[derive(Debug)]
pub enum MockEvent {
    Sent(String),
    Received(String),
    FailedIo(String),
    FailedParse(String),
    Slept(u64),
    TimeoutSet(u64),
}

impl View for MockEvent {
    type V = ChannelEvent;

    open spec fn view(&self) -> ChannelEvent {
        match self {
            MockEvent::Sent(s) => ChannelEvent::Sent(s@),
            MockEvent::Received(s) => ChannelEvent::Received(s@),
            MockEvent::FailedIo(m) => ChannelEvent::Failed(ErrView::Io(m@)),
            MockEvent::FailedParse(m) => ChannelEvent::Failed(ErrView::Parse(m@)),
            MockEvent::Slept(ms) => ChannelEvent::Slept(*ms),
            MockEvent::TimeoutSet(ms) => ChannelEvent::TimeoutSet(*ms),
        }
    }
}

/// A connection that answers reads from a script, in order, and records
/// every interaction. Writes, timeout changes, and settle pauses always
/// succeed; a read past the end of the script fails as a communication
/// error.
pub struct MockConnection {
    /// The scripted replies, consumed front to back.
    pub script: Vec<MockReply>,
    /// Index of the next scripted reply.
    pub cursor: usize,
    /// Every interaction so far, oldest first.
    pub events: Vec<MockEvent>,
}

impl MockConnection {
    /// A connection that will answer reads from `script`, in order.
    pub fn new(script: Vec<MockReply>) -> (r: MockConnection)
        ensures
            r.log() == Seq::<ChannelEvent>::empty(),
            r.script == script,
            r.cursor == 0,
    {
        let r = MockConnection { script, cursor: 0, events: Vec::new() };
        proof {
            assert(r.log() =~= Seq::<ChannelEvent>::empty());
        }
        r
    }
}

impl Connection for MockConnection {
    open spec fn log(&self) -> Seq<ChannelEvent> {
        self.events@.map_values(|e: MockEvent| e@)
    }

    fn write_line(&mut self, line: &str) -> (r: Result<(), MxError>) {
        let ev = MockEvent::Sent(line.to_owned());
        self.events.push(ev);
        proof {
            assert(self.log() =~= old(self).log().push(ChannelEvent::Sent(line@)));
        }
        Ok(())
    }

    fn read_line(&mut self) -> (r: Result<String, MxError>) {
        if self.cursor < self.script.len() {
            let idx: usize = self.cursor;
            self.cursor = idx + 1;
            let (reply, ev) = match &self.script[idx] {
                MockReply::Line(s) => (Ok(s.clone()), MockEvent::Received(s.clone())),
                MockReply::ChannelDown(m) => (
                    Err(MxError::Io(m.clone())),
                    MockEvent::FailedIo(m.clone()),
                ),
                MockReply::Garbled(m) => (
                    Err(MxError::Parse(m.clone())),
                    MockEvent::FailedParse(m.clone()),
                ),
            };
            self.events.push(ev);
            proof {
                match &reply {
                    Ok(line) => {
                        assert(self.log() =~= old(self).log().push(
                            ChannelEvent::Received(line@),
                        ));
                    },
                    Err(e) => {
                        assert(self.log() =~= old(self).log().push(
                            ChannelEvent::Failed(crate::error::err_view(e)),
                        ));
                    },
                }
            }
            reply
        } else {
            let msg = "no scripted reply left";
            let e = MxError::Io(msg.to_owned());
            self.events.push(MockEvent::FailedIo(msg.to_owned()));
            proof {
                assert(self.log() =~= old(self).log().push(
                    ChannelEvent::Failed(crate::error::err_view(&e)),
                ));
            }
            Err(e)
        }
    }

    fn set_timeout(&mut self, ms: u64) -> (r: Result<(), MxError>) {
        self.events.push(MockEvent::TimeoutSet(ms));
        proof {
            assert(self.log() =~= old(self).log().push(ChannelEvent::TimeoutSet(ms)));
        }
        Ok(())
    }

    fn settle(&mut self, ms: u64) {
        self.events.push(MockEvent::Slept(ms));
        proof {
            assert(self.log() =~= old(self).log().push(ChannelEvent::Slept(ms)));
        }
    }
}

} // verus!
