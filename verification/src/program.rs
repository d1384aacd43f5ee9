//! The stream handler: checks the continuity counter of each packet of one
//! elementary stream and cuts the packet down to the bytes for the sink.

use vstd::prelude::*;
use crate::error::DemuxError;
use crate::packet::{
    continuity_counter_of, get_continuity_counter, get_payload_offset, get_pusi, payload_offset_of,
    unit_start_of, Packet, PACKET_SIZE, SYNC_BYTE,
};
use crate::pes::{get_pes_header_size, pes_header_size_of};

verus! {

/// The counter that follows `expected`: counters run from 0 to 15 and start
/// over.
pub open spec fn next_counter(expected: nat) -> nat {
    (expected + 1) % 16
}

/// The bytes of the stream packet `p` that go to the sink, for a handler that
/// expects the continuity counter `expected`.
///
/// The packet starts with the sync byte and carries the expected counter. Its
/// payload goes to the sink whole, but in a unit start, where the payload
/// opens with a PES header that is cut off. A PES header that runs past the
/// end of the packet is malformed.
pub open spec fn stream_payload_of(expected: nat, p: Seq<u8>) -> Result<Seq<u8>, DemuxError> {
    if p[0] != SYNC_BYTE {
        Err(DemuxError::FramingError)
    } else if continuity_counter_of(p) != expected {
        Err(DemuxError::ContinuityError)
    } else {
        match payload_offset_of(p) {
            Err(e) => Err(e),
            Ok(offset) => if !unit_start_of(p) {
                Ok(p.subrange(offset as int, PACKET_SIZE as int))
            } else {
                match pes_header_size_of(p.subrange(offset as int, PACKET_SIZE as int)) {
                    Err(e) => Err(e),
                    Ok(header) => if offset + header > PACKET_SIZE {
                        Err(DemuxError::MalformedPes)
                    } else {
                        Ok(p.subrange(offset + header, PACKET_SIZE as int))
                    },
                }
            },
        }
    }
}

/// Where a handler stands after the packets of `packets`, fed in order to a
/// handler that expects `expected`: the counter it expects next, or the
/// failure at the first packet that it does not accept.
pub open spec fn stream_run(expected: nat, packets: Seq<Seq<u8>>) -> Result<nat, DemuxError>
    decreases packets.len(),
{
    if packets.len() == 0 {
        Ok(expected)
    } else {
        match stream_payload_of(expected, packets[0]) {
            Err(e) => Err(e),
            Ok(_) => stream_run(next_counter(expected), packets.skip(1)),
        }
    }
}

/// Nothing is wrong with the stream packet `p` but, perhaps, its place in the
/// sequence: a handler that expects the counter of `p` accepts it.
pub open spec fn sound_stream_packet(p: Seq<u8>) -> bool {
    stream_payload_of(continuity_counter_of(p) as nat, p) is Ok
}

/// A stream handler. It expects the continuity counters of its packets to
/// count up from 0, modulo 16, with none left out and none twice.
#[derive(Debug)]
pub struct Program {
    continuity_counter: u8,
}

impl View for Program {
    type V = nat;

    /// The continuity counter that the handler expects next.
    closed spec fn view(&self) -> nat {
        self.continuity_counter as nat
    }
}

impl Program {
    #[verifier::type_invariant]
    spec fn counter_in_range(self) -> bool {
        self.continuity_counter < 16
    }

    /// A handler that expects the counter 0.
    pub fn new() -> (program: Program)
        ensures
            program@ == 0,
    {
        Program { continuity_counter: 0 }
    }

    /// The continuity counter that the handler expects next.
    pub fn continuity_counter(&self) -> (counter: u8)
        ensures
            counter == self@,
            counter < 16,
    {
        proof {
            use_type_invariant(self);
        }
        self.continuity_counter
    }

    /// Takes one packet of the stream and answers with the bytes of it that go
    /// to the sink. The handler moves on to the next counter if it accepts the
    /// packet, and stays as it is if it does not.
    pub fn process<'a>(&mut self, packet: &'a Packet) -> (r: Result<&'a [u8], DemuxError>)
        ensures
            match r {
                Ok(payload) => stream_payload_of(old(self)@, packet@) == Ok::<
                    Seq<u8>,
                    DemuxError,
                >(payload@) && final(self)@ == next_counter(old(self)@),
                Err(e) => stream_payload_of(old(self)@, packet@) == Err::<Seq<u8>, DemuxError>(e)
                    && final(self)@ == old(self)@,
            },
    {
        proof {
            use_type_invariant(&*self);
        }
        if packet[0] != SYNC_BYTE {
            return Err(DemuxError::FramingError);
        }
        if self.continuity_counter != get_continuity_counter(packet) {
            return Err(DemuxError::ContinuityError);
        }
        let mut offset: usize = match get_payload_offset(packet) {
            Err(e) => {
                return Err(e);
            },
            Ok(offset) => offset,
        };
        let bytes: &[u8] = packet.as_slice();
        if get_pusi(packet) {
            let header: usize = match get_pes_header_size(&bytes[offset..PACKET_SIZE]) {
                Err(e) => {
                    return Err(e);
                },
                Ok(header) => header,
            };
            if header > PACKET_SIZE - offset {
                return Err(DemuxError::MalformedPes);
            }
            offset = offset + header;
        }
        self.continuity_counter = (self.continuity_counter + 1) % 16;
        Ok(&bytes[offset..PACKET_SIZE])
    }
}

/// Counting on from the counter behind `start` is counting on from `start`,
/// one further.
proof fn lemma_count_on(start: nat, i: int)
    requires
        i >= 0,
    ensures
        (next_counter(start) + i) % 16 == (start + i + 1) % 16,
{
}

/// A handler that expects `start` accepts packets, each sound in itself, if
/// and only if their counters count up from `start` modulo 16. If it does
/// not, what stops it is a continuity error.
pub proof fn lemma_stream_run_from(start: nat, packets: Seq<Seq<u8>>)
    requires
        start < 16,
        forall|i: int| 0 <= i < packets.len() ==> sound_stream_packet(#[trigger] packets[i]),
    ensures
        stream_run(start, packets) is Ok <==> forall|i: int|
            0 <= i < packets.len() ==> continuity_counter_of(#[trigger] packets[i]) == (start + i)
                % 16,
        stream_run(start, packets) matches Ok(next) ==> next == (start + packets.len()) % 16,
        stream_run(start, packets) matches Err(e) ==> e == DemuxError::ContinuityError,
    decreases packets.len(),
{
    if packets.len() > 0 {
        let first = packets[0];
        let rest = packets.skip(1);
        let next = next_counter(start);
        assert(sound_stream_packet(first));
        assert forall|i: int| 0 <= i < rest.len() implies sound_stream_packet(
            #[trigger] rest[i],
        ) by {
            assert(rest[i] == packets[i + 1]);
        }
        lemma_stream_run_from(next, rest);
        if continuity_counter_of(first) == start {
            assert(stream_run(start, packets) == stream_run(next, rest));
            lemma_count_on(start, rest.len() as int);
            if stream_run(next, rest) is Ok {
                assert forall|i: int| 0 <= i < packets.len() implies continuity_counter_of(
                    #[trigger] packets[i],
                ) == (start + i) % 16 by {
                    if i > 0 {
                        assert(packets[i] == rest[i - 1]);
                        lemma_count_on(start, i - 1);
                    }
                }
            }
            if forall|i: int|
                0 <= i < packets.len() ==> continuity_counter_of(#[trigger] packets[i]) == (start
                    + i) % 16 {
                assert forall|i: int| 0 <= i < rest.len() implies continuity_counter_of(
                    #[trigger] rest[i],
                ) == (next + i) % 16 by {
                    assert(rest[i] == packets[i + 1]);
                    lemma_count_on(start, i);
                }
            }
        } else {
            assert(stream_run(start, packets) == Err::<nat, DemuxError>(
                DemuxError::ContinuityError,
            ));
        }
    }
}

/// A fresh stream handler accepts exactly the packets whose counters are
/// `0, 1, .., 15, 0, 1, ..`: given packets that are each sound in themselves,
/// it accepts them all if and only if packet `i` carries the counter `i % 16`.
/// A counter that is left out, comes twice or starts over stops it with a
/// continuity error.
pub proof fn lemma_counters_in_sequence(packets: Seq<Seq<u8>>)
    requires
        forall|i: int| 0 <= i < packets.len() ==> sound_stream_packet(#[trigger] packets[i]),
    ensures
        stream_run(0, packets) is Ok <==> forall|i: int|
            0 <= i < packets.len() ==> continuity_counter_of(#[trigger] packets[i]) == i % 16,
        stream_run(0, packets) matches Ok(next) ==> next == packets.len() % 16,
        stream_run(0, packets) matches Err(e) ==> e == DemuxError::ContinuityError,
{
    lemma_stream_run_from(0, packets);
}

/// What goes into a packet behind a PES header comes out again: a unit start
/// that is made of a head up to the payload offset, a PES header of nine bytes
/// and as many more as its byte 8 says, and a body, yields the body and
/// nothing of the header.
pub proof fn lemma_pes_round_trip(
    expected: nat,
    head: Seq<u8>,
    pes_header: Seq<u8>,
    body: Seq<u8>,
)
    requires
        head.len() + pes_header.len() + body.len() == PACKET_SIZE,
        pes_header.len() >= 9,
        pes_header.len() == 9 + pes_header[8],
        pes_header[0] == 0,
        (head + pes_header + body)[0] == SYNC_BYTE,
        continuity_counter_of(head + pes_header + body) == expected,
        unit_start_of(head + pes_header + body),
        payload_offset_of(head + pes_header + body) == Ok::<usize, DemuxError>(
            head.len() as usize,
        ),
    ensures
        stream_payload_of(expected, head + pes_header + body) == Ok::<Seq<u8>, DemuxError>(body),
{
    let p = head + pes_header + body;
    let offset = head.len() as int;
    assert(p.subrange(offset, PACKET_SIZE as int) =~= pes_header + body);
    assert(p.subrange(offset + pes_header.len(), PACKET_SIZE as int) =~= body);
}

} // verus!
