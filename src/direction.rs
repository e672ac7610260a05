use crate::lines::{is_line_split, views, LineBuffer};
use vstd::prelude::*;

verus! {

/// Which way a forwarding direction moves bytes.
#[derive(Clone, Copy, PartialEq, Eq, Debug, Structural)]
pub enum Way {
    /// From the `out` pipe to the connection.
    PipeToSocket,
    /// From the connection to the local observer.
    SocketToOutput,
}

/// What one read from a direction's source gave.
#[derive(Debug)]
pub enum ReadEvent {
    /// These bytes, at least one.
    Data(Vec<u8>),
    /// No bytes: the pipe has no writer, or the peer closed the connection.
    Empty,
    /// The read failed, with the system's message.
    Failed(String),
}

/// How a forwarding direction ended.
#[derive(Debug)]
pub enum DirectionEnd {
    /// The peer closed the connection.
    Closed,
    /// Reading the source failed.
    ReadFailed(String),
    /// Writing to the sink failed.
    WriteFailed(String),
}

/// What the runner of a direction does once the delivered lines are out.
#[derive(Debug)]
pub enum Next {
    /// Read the source again.
    Read,
    /// Wait until the pipe has a writer again, then read.
    AwaitWriter,
    /// Stop this direction, for the reason given.
    Stop(DirectionEnd),
    /// Nothing: the direction had already stopped.
    Halted,
}

/// Lines to hand to the sink, each written and flushed on its own and in
/// order, then what to do next.
#[derive(Debug)]
pub struct Delivery {
    pub lines: Vec<Vec<u8>>,
    pub next: Next,
}

/// The state of one forwarding direction, as the model sees it.
pub struct DirectionView {
    pub way: Way,
    pub pending: Seq<u8>,
    pub stopped: bool,
}

/// One forwarding direction: it frames what its source yields into lines
/// and decides, after each read, what is handed to its sink and whether it
/// goes on. It shares no state with the other direction.
pub struct Direction {
    way: Way,
    buffer: LineBuffer,
    stopped: bool,
}

impl View for Direction {
    type V = DirectionView;

    closed spec fn view(&self) -> DirectionView {
        DirectionView { way: self.way, pending: self.buffer@, stopped: self.stopped }
    }
}

/// What a zero-byte read flushes: the unterminated last line, if any.
pub open spec fn flushed(pending: Seq<u8>) -> Seq<Seq<u8>> {
    if pending.len() == 0 {
        Seq::empty()
    } else {
        seq![pending]
    }
}

impl Direction {
    /// Its buffer holds no complete line.
    pub closed spec fn wf(&self) -> bool {
        self.buffer.wf()
    }

    /// A fresh direction that moves bytes the given way.
    pub fn new(way: Way) -> (r: Direction)
        ensures
            r.wf(),
            r@.way == way,
            r@.pending == Seq::<u8>::empty(),
            !r@.stopped,
    {
        Direction { way, buffer: LineBuffer::new(), stopped: false }
    }

    /// The way this direction moves bytes.
    pub fn way(&self) -> (r: Way)
        ensures
            r == self@.way,
    {
        self.way
    }

    /// Whether this direction has ended.
    pub fn is_stopped(&self) -> (r: bool)
        ensures
            r == self@.stopped,
    {
        self.stopped
    }

    /// Takes the result of one read from the source. Data is cut into lines,
    /// delivered in order and byte for byte; an unterminated tail waits for
    /// its delimiter. A zero-byte read flushes that tail as a last line: on
    /// the pipe it only means that no writer is there, so the direction waits
    /// for one; on the connection it means the peer closed, so the direction
    /// ends without error. A failed read ends the direction. Once ended, the
    /// direction delivers nothing more and never reads again.
    pub fn on_read(&mut self, ev: ReadEvent) -> (d: Delivery)
        requires
            old(self).wf(),
        ensures
            final(self).wf(),
            final(self)@.way == old(self)@.way,
            old(self)@.stopped ==> {
                &&& d.lines@.len() == 0
                &&& d.next is Halted
                &&& final(self)@ == old(self)@
            },
            !old(self)@.stopped ==> match ev {
                ReadEvent::Data(bytes) => {
                    &&& is_line_split(old(self)@.pending + bytes@, views(d.lines@), final(self)@.pending)
                    &&& d.next is Read
                    &&& !final(self)@.stopped
                },
                ReadEvent::Empty => {
                    &&& views(d.lines@) == flushed(old(self)@.pending)
                    &&& final(self)@.pending == Seq::<u8>::empty()
                    &&& old(self)@.way == Way::PipeToSocket ==> d.next is AwaitWriter
                        && !final(self)@.stopped
                    &&& old(self)@.way == Way::SocketToOutput ==> d.next == Next::Stop(
                        DirectionEnd::Closed,
                    ) && final(self)@.stopped
                },
                ReadEvent::Failed(m) => {
                    &&& d.lines@.len() == 0
                    &&& d.next == Next::Stop(DirectionEnd::ReadFailed(m))
                    &&& final(self)@.stopped
                    &&& final(self)@.pending == old(self)@.pending
                },
            },
    {
        if self.stopped {
            return Delivery { lines: Vec::new(), next: Next::Halted };
        }
        match ev {
            ReadEvent::Data(bytes) => {
                let lines = self.buffer.push(bytes.as_slice());
                Delivery { lines, next: Next::Read }
            },
            ReadEvent::Empty => {
                let mut lines: Vec<Vec<u8>> = Vec::new();
                let ghost before = self.buffer@;
                match self.buffer.take_rest() {
                    Some(rest) => {
                        lines.push(rest);
                        assert(views(lines@) =~= flushed(before));
                    },
                    None => {
                        assert(views(lines@) =~= flushed(before));
                    },
                }
                match self.way {
                    Way::PipeToSocket => Delivery { lines, next: Next::AwaitWriter },
                    Way::SocketToOutput => {
                        self.stopped = true;
                        Delivery { lines, next: Next::Stop(DirectionEnd::Closed) }
                    },
                }
            },
            ReadEvent::Failed(m) => {
                self.stopped = true;
                Delivery { lines: Vec::new(), next: Next::Stop(DirectionEnd::ReadFailed(m)) }
            },
        }
    }

    /// Takes the failure of a write or flush to the sink: the direction ends
    /// with that failure, unless it had ended already.
    pub fn on_write_failed(&mut self, detail: String) -> (n: Next)
        requires
            old(self).wf(),
        ensures
            final(self).wf(),
            final(self)@.way == old(self)@.way,
            final(self)@.pending == old(self)@.pending,
            final(self)@.stopped,
            old(self)@.stopped ==> n is Halted,
            !old(self)@.stopped ==> n == Next::Stop(DirectionEnd::WriteFailed(detail)),
    {
        if self.stopped {
            Next::Halted
        } else {
            self.stopped = true;
            Next::Stop(DirectionEnd::WriteFailed(detail))
        }
    }
}

} // verus!
