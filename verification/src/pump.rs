//! The byte pump between the bridge's stdio and the LSP TCP stream.
//!
//! LSP framing is transport-independent, so the pump never parses it: each
//! direction copies raw bytes, flushing after every chunk so that a frame
//! whose JSON body has no trailing newline still reaches the other side at
//! once. The copy loop itself is the state machine [`CopyStream`]; the code
//! that owns the reader and the writer performs the actions it asks for and
//! reports back what happened.

use vstd::prelude::*;

verus! {

/// Buffer size for a single copy chunk. LSP messages are small, so 8 KiB is
/// plenty and keeps latency low.
pub const COPY_BUFFER_SIZE: usize = 8192;

/// Which direction of the pump reached its end first.
#[derive(Clone, Copy, Debug, PartialEq, Eq, Structural)]
pub enum Ending {
    /// stdin reached EOF: the editor closed us.
    StdinClosed,
    /// The LSP TCP stream closed: the kernel's LSP server exited.
    TcpClosed,
}

/// Where a copy loop stands.
#[derive(Clone, Copy, Debug, PartialEq, Eq, Structural)]
pub enum CopyPhase {
    /// Waiting for the next chunk from the reader.
    Reading,
    /// Waiting for the writer to take the whole chunk just read.
    Writing,
    /// Waiting for the writer to flush that chunk.
    Flushing,
    /// The copy is over, with the given outcome.
    Finished(CopyOutcome),
}

/// How a copy loop ended.
#[derive(Clone, Copy, Debug, PartialEq, Eq, Structural)]
pub enum CopyOutcome {
    /// The reader reached its end and everything read was delivered.
    Completed,
    /// A read, write or flush failed.
    Failed,
}

/// What the reader or the writer reports back to the copy loop.
pub enum CopyEvent {
    /// A read returned these bytes; an empty chunk means end of input.
    Read(Vec<u8>),
    /// A read failed.
    ReadFailed,
    /// The whole chunk was written.
    Written,
    /// Writing the chunk failed.
    WriteFailed,
    /// The writer was flushed.
    Flushed,
    /// Flushing failed.
    FlushFailed,
}

/// What the copy loop asks its driver to do next.
pub enum CopyAction {
    /// Read the next chunk (of at most [`COPY_BUFFER_SIZE`] bytes).
    Read,
    /// Write all of these bytes.
    WriteAll(Vec<u8>),
    /// Flush the writer.
    Flush,
    /// Stop copying.
    Finish(CopyOutcome),
}

/// The copy loop between one reader and one writer: read a chunk, write all of
/// it, flush, and repeat until the reader ends or anything fails.
pub struct CopyStream {
    phase: CopyPhase,
    /// Every byte read so far, in order.
    received: Ghost<Seq<u8>>,
    /// Every byte written and flushed so far, in order.
    delivered: Ghost<Seq<u8>>,
    /// The chunk being written or flushed.
    in_flight: Ghost<Seq<u8>>,
}

impl CopyStream {
    /// Where the copy stands.
    pub closed spec fn phase(&self) -> CopyPhase {
        self.phase
    }

    /// Every byte read so far, in order.
    pub closed spec fn received(&self) -> Seq<u8> {
        self.received@
    }

    /// Every byte written and flushed so far, in order.
    pub closed spec fn delivered(&self) -> Seq<u8> {
        self.delivered@
    }

    /// The chunk that is being written or flushed.
    pub closed spec fn in_flight(&self) -> Seq<u8> {
        self.in_flight@
    }

    /// The bookkeeping that holds at every step: bytes are delivered in the
    /// order they were read, and apart from the chunk in flight, all of them.
    pub closed spec fn wf(&self) -> bool {
        match self.phase {
            CopyPhase::Writing | CopyPhase::Flushing => {
                &&& self.in_flight@.len() > 0
                &&& self.delivered@ + self.in_flight@ == self.received@
            },
            CopyPhase::Reading | CopyPhase::Finished(CopyOutcome::Completed) => self.delivered@
                == self.received@,
            CopyPhase::Finished(CopyOutcome::Failed) => self.received@.len() >= self.delivered@.len()
                && self.received@.take(self.delivered@.len() as int) == self.delivered@,
        }
    }

    /// Whether `event` is an answer to the action the copy loop last asked
    /// for; a chunk read is at most [`COPY_BUFFER_SIZE`] bytes long.
    pub open spec fn accepts(&self, event: &CopyEvent) -> bool {
        match self.phase() {
            CopyPhase::Reading => match event {
                CopyEvent::Read(chunk) => chunk@.len() <= COPY_BUFFER_SIZE,
                CopyEvent::ReadFailed => true,
                _ => false,
            },
            CopyPhase::Writing => event is Written || event is WriteFailed,
            CopyPhase::Flushing => event is Flushed || event is FlushFailed,
            CopyPhase::Finished(_) => false,
        }
    }

    /// A copy loop that has not read anything yet; its first action is
    /// [`CopyAction::Read`].
    pub fn new() -> (stream: Self)
        ensures
            stream.wf(),
            stream.phase() == CopyPhase::Reading,
            stream.received() == Seq::<u8>::empty(),
            stream.delivered() == Seq::<u8>::empty(),
    {
        CopyStream {
            phase: CopyPhase::Reading,
            received: Ghost(Seq::empty()),
            delivered: Ghost(Seq::empty()),
            in_flight: Ghost(Seq::empty()),
        }
    }

    /// Whether the copy is over.
    pub fn is_finished(&self) -> (finished: bool)
        ensures
            finished == (self.phase() is Finished),
    {
        match self.phase {
            CopyPhase::Finished(_) => true,
            _ => false,
        }
    }

    /// Take in what the last action gave and decide the next action.
    ///
    /// A non-empty chunk is passed on to be written whole, then flushed, then
    /// the next chunk is read; an empty read ends the copy successfully; any
    /// failure ends it with [`CopyOutcome::Failed`].
    pub fn step(&mut self, event: CopyEvent) -> (action: CopyAction)
        requires
            old(self).wf(),
            old(self).accepts(&event),
        ensures
            final(self).wf(),
            match (old(self).phase(), event) {
                (CopyPhase::Reading, CopyEvent::Read(chunk)) => if chunk@.len() == 0 {
                    &&& action == CopyAction::Finish(CopyOutcome::Completed)
                    &&& final(self).phase() == CopyPhase::Finished(CopyOutcome::Completed)
                    &&& final(self).received() == old(self).received()
                    &&& final(self).delivered() == old(self).delivered()
                } else {
                    &&& action matches CopyAction::WriteAll(bytes) && bytes@ == chunk@
                    &&& final(self).phase() == CopyPhase::Writing
                    &&& final(self).in_flight() == chunk@
                    &&& final(self).received() == old(self).received() + chunk@
                    &&& final(self).delivered() == old(self).delivered()
                },
                (CopyPhase::Writing, CopyEvent::Written) => {
                    &&& action == CopyAction::Flush
                    &&& final(self).phase() == CopyPhase::Flushing
                    &&& final(self).in_flight() == old(self).in_flight()
                    &&& final(self).received() == old(self).received()
                    &&& final(self).delivered() == old(self).delivered()
                },
                (CopyPhase::Flushing, CopyEvent::Flushed) => {
                    &&& action == CopyAction::Read
                    &&& final(self).phase() == CopyPhase::Reading
                    &&& final(self).received() == old(self).received()
                    &&& final(self).delivered() == old(self).delivered() + old(self).in_flight()
                },
                (_, _) => {
                    &&& action == CopyAction::Finish(CopyOutcome::Failed)
                    &&& final(self).phase() == CopyPhase::Finished(CopyOutcome::Failed)
                    &&& final(self).received() == old(self).received()
                    &&& final(self).delivered() == old(self).delivered()
                },
            },
    {
        match event {
            CopyEvent::Read(chunk) => {
                if chunk.len() == 0 {
                    self.phase = CopyPhase::Finished(CopyOutcome::Completed);
                    CopyAction::Finish(CopyOutcome::Completed)
                } else {
                    proof {
                        self.in_flight@ = chunk@;
                        self.received@ = self.received@ + chunk@;
                    }
                    self.phase = CopyPhase::Writing;
                    CopyAction::WriteAll(chunk)
                }
            },
            CopyEvent::Written => {
                self.phase = CopyPhase::Flushing;
                CopyAction::Flush
            },
            CopyEvent::Flushed => {
                proof {
                    self.delivered@ = self.delivered@ + self.in_flight@;
                }
                self.phase = CopyPhase::Reading;
                CopyAction::Read
            },
            _ => {
                proof {
                    let d = self.delivered@;
                    let r = self.received@;
                    assert(r.take(d.len() as int) =~= d);
                }
                self.phase = CopyPhase::Finished(CopyOutcome::Failed);
                CopyAction::Finish(CopyOutcome::Failed)
            },
        }
    }

    /// Law: the copy is transparent. Whenever it is waiting to read, or has
    /// completed, the bytes delivered to the writer are exactly the bytes
    /// read, in the same order; and whatever happens, what was delivered is
    /// a prefix of what was read.
    pub proof fn lemma_transparent(&self)
        requires
            self.wf(),
        ensures
            self.phase() == CopyPhase::Reading || self.phase() == CopyPhase::Finished(
                CopyOutcome::Completed,
            ) ==> self.delivered() == self.received(),
            self.delivered().len() <= self.received().len(),
            self.received().take(self.delivered().len() as int) == self.delivered(),
    {
        match self.phase {
            CopyPhase::Writing | CopyPhase::Flushing => {
                assert(self.received@.take(self.delivered@.len() as int) =~= self.delivered@);
            },
            CopyPhase::Reading | CopyPhase::Finished(CopyOutcome::Completed) => {
                assert(self.received@.take(self.delivered@.len() as int) =~= self.delivered@);
            },
            _ => {},
        }
    }
}

} // verus!
