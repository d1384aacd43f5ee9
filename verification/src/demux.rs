//! The demux loop, as a state machine that performs no I/O.
//!
//! The caller reads a block from its input and hands it to
//! [`Demuxer::step`], with the number of bytes that the read filled. The
//! answer says what to do: open sinks, write to a sink, or flush and stop.
//! One block is dealt with whole before the next is read, so a handler that a
//! table registers is there for the very next packet.

use vstd::prelude::*;
use crate::error::DemuxError;
use crate::packet::{Packet, PACKET_SIZE};
use crate::routing::{dispatch_of, initial_table, Action, ActionView, ProgramMap};
use crate::update::HandlerState;

verus! {

/// Where a run stands.
#[derive(Clone, Copy, Debug, PartialEq, Eq, Structural)]
pub enum DemuxState {
    /// Packets are taken.
    Running,
    /// The input has ended; the run was a success.
    EndOfStream,
    /// The run has failed, for this reason.
    Fatal(DemuxError),
}

/// What a demultiplexer is made of.
pub struct DemuxerView {
    pub state: DemuxState,
    pub programs: Map<u16, HandlerState>,
}

/// The demultiplexer and the answer after one read.
///
/// While it runs, a read that filled a whole packet is dispatched: the routing
/// table moves on if the packet is accepted, and the first failure is fatal.
/// A read that filled less ends the stream. The two other states are final:
/// nothing changes them, and each gives its answer again.
pub open spec fn step_of(demuxer: DemuxerView, block: Seq<u8>, filled: int) -> (
    DemuxerView,
    Result<ActionView, DemuxError>,
) {
    match demuxer.state {
        DemuxState::EndOfStream => (demuxer, Ok(ActionView::Finish)),
        DemuxState::Fatal(e) => (demuxer, Err(e)),
        DemuxState::Running => if filled != PACKET_SIZE {
            (
                DemuxerView { state: DemuxState::EndOfStream, programs: demuxer.programs },
                Ok(ActionView::Finish),
            )
        } else {
            match dispatch_of(demuxer.programs, block) {
                Err(e) => (
                    DemuxerView { state: DemuxState::Fatal(e), programs: demuxer.programs },
                    Err(e),
                ),
                Ok((programs, action)) => (
                    DemuxerView { state: DemuxState::Running, programs },
                    Ok(action),
                ),
            }
        },
    }
}

/// One run over one transport stream.
pub struct Demuxer {
    state: DemuxState,
    programs: ProgramMap,
}

impl View for Demuxer {
    type V = DemuxerView;

    closed spec fn view(&self) -> DemuxerView {
        DemuxerView { state: self.state, programs: self.programs@ }
    }
}

impl Demuxer {
    /// A demultiplexer that runs, with the routing table in which every run
    /// starts.
    pub fn new() -> (demuxer: Demuxer)
        ensures
            demuxer@.state == DemuxState::Running,
            demuxer@.programs == initial_table(),
    {
        Demuxer { state: DemuxState::Running, programs: ProgramMap::new() }
    }

    /// Where the run stands.
    pub fn state(&self) -> (state: DemuxState)
        ensures
            state == self@.state,
    {
        self.state
    }

    /// The routing table.
    pub fn programs(&self) -> (programs: &ProgramMap)
        ensures
            programs@ == self@.programs,
    {
        &self.programs
    }

    /// Takes the block of one read, of which the read filled the first
    /// `filled` bytes, and answers with what the caller has to do.
    pub fn step<'a>(&mut self, block: &'a Packet, filled: usize) -> (r: Result<
        Action<'a>,
        DemuxError,
    >)
        ensures
            final(self)@ == step_of(old(self)@, block@, filled as int).0,
            match r {
                Ok(action) => step_of(old(self)@, block@, filled as int).1 == Ok::<
                    ActionView,
                    DemuxError,
                >(action@),
                Err(e) => step_of(old(self)@, block@, filled as int).1 == Err::<
                    ActionView,
                    DemuxError,
                >(e),
            },
    {
        match self.state {
            DemuxState::EndOfStream => Ok(Action::Finish),
            DemuxState::Fatal(e) => Err(e),
            DemuxState::Running => {
                if filled != PACKET_SIZE {
                    self.state = DemuxState::EndOfStream;
                    return Ok(Action::Finish);
                }
                match self.programs.dispatch(block) {
                    Err(e) => {
                        self.state = DemuxState::Fatal(e);
                        Err(e)
                    },
                    Ok(action) => Ok(action),
                }
            },
        }
    }
}

/// The two final states are final: whatever is read, the demultiplexer stays
/// as it is.
pub proof fn lemma_final_states(demuxer: DemuxerView, block: Seq<u8>, filled: int)
    requires
        demuxer.state != DemuxState::Running,
    ensures
        step_of(demuxer, block, filled).0 == demuxer,
{
}

/// A failure leaves the routing table as it was, and so does the end of the
/// stream.
pub proof fn lemma_step_failure_keeps_table(demuxer: DemuxerView, block: Seq<u8>, filled: int)
    requires
        step_of(demuxer, block, filled).0.state != DemuxState::Running,
    ensures
        step_of(demuxer, block, filled).0.programs == demuxer.programs,
{
}

} // verus!
