//! The interpreters of the two tables: what a table's data registers.

use vstd::prelude::*;
use crate::bits::{has_111, has_111100, join10, join13, join16, leads_111, leads_111100, read10, read13, read16};
use crate::error::DemuxError;
use crate::update::{
    no_update, stream_type_of, HandlerKind, Registration, StreamType, UpdateProgramMap,
};

verus! {

/// What a program association table says: the program and the PID of its
/// program map table.
#[derive(Clone, Copy, Debug, PartialEq, Eq, Structural)]
pub struct ProgramAssociation {
    pub program_number: u16,
    pub program_pid: u16,
}

/// One elementary stream as a program map table declares it. The stream type
/// is the byte of the record, known or not.
#[derive(Clone, Copy, Debug, PartialEq, Eq, Structural)]
pub struct ElementaryStream {
    pub stream_type: u8,
    pub pid: u16,
}

/// What a program map table says: the PID that carries the program's clock
/// and the streams of the program, in the order of declaration.
#[derive(Debug, PartialEq, Eq)]
pub struct ProgramMapping {
    pub pcr_pid: u16,
    pub streams: Vec<ElementaryStream>,
}

/// What a program map table says.
pub struct ProgramMappingView {
    pub pcr_pid: u16,
    pub streams: Seq<ElementaryStream>,
}

impl View for ProgramMapping {
    type V = ProgramMappingView;

    open spec fn view(&self) -> ProgramMappingView {
        ProgramMappingView { pcr_pid: self.pcr_pid, streams: self.streams@ }
    }
}

/// The data of a program association table are four bytes: the program
/// number, then three reserved bits, all set, and the 13 bits of the PID.
pub open spec fn program_association_of(data: Seq<u8>) -> Result<ProgramAssociation, DemuxError> {
    if data.len() != 4 || !leads_111(data[2]) {
        Err(DemuxError::MalformedTable)
    } else {
        Ok(
            ProgramAssociation {
                program_number: join16(data[0], data[1]) as u16,
                program_pid: join13(data[2], data[3]) as u16,
            },
        )
    }
}

/// A program association table registers a handler for the program map table
/// at the PID that it gives.
pub open spec fn pat_update_of(data: Seq<u8>) -> Result<Seq<Registration>, DemuxError> {
    match program_association_of(data) {
        Err(e) => Err(e),
        Ok(association) => Ok(
            seq![
                (Registration {
                    pid: association.program_pid,
                    kind: HandlerKind::ProgramMapTable,
                }),
            ],
        ),
    }
}

/// The length of the program descriptors, from bytes 2 and 3 of the data.
pub open spec fn program_info_length_of(data: Seq<u8>) -> int {
    join10(data[2], data[3])
}

/// The size of the stream record that starts at `at`: five bytes and its
/// descriptors.
pub open spec fn record_size_at(data: Seq<u8>, at: int) -> int {
    5 + join10(data[at + 3], data[at + 4])
}

/// The stream record at `at` is whole and its reserved bits are as the
/// grammar asks.
pub open spec fn record_at(data: Seq<u8>, at: int) -> bool {
    &&& at + 5 <= data.len()
    &&& leads_111(data[at + 1])
    &&& leads_111100(data[at + 3])
    &&& at + record_size_at(data, at) <= data.len()
}

/// The stream that the record at `at` declares.
pub open spec fn stream_at(data: Seq<u8>, at: int) -> ElementaryStream {
    ElementaryStream { stream_type: data[at], pid: join13(data[at + 1], data[at + 2]) as u16 }
}

/// `streams` in front of what follows, if anything follows.
pub open spec fn followed_by(
    streams: Seq<ElementaryStream>,
    rest: Option<Seq<ElementaryStream>>,
) -> Option<Seq<ElementaryStream>> {
    match rest {
        None => None,
        Some(rest) => Some(streams + rest),
    }
}

/// The streams that the records from `at` to the end of `data` declare. The
/// records have to fill the data to the last byte.
pub open spec fn streams_from(data: Seq<u8>, at: int) -> Option<Seq<ElementaryStream>>
    decreases data.len() - at,
{
    if at >= data.len() {
        Some(Seq::empty())
    } else if !record_at(data, at) {
        None
    } else {
        followed_by(seq![stream_at(data, at)], streams_from(data, at + record_size_at(data, at)))
    }
}

/// What the data of a program map table say.
///
/// The data are longer than four bytes. They start with three reserved bits,
/// all set, and the 13 bits of the PCR PID; then six bits `111100` and the 10
/// bits of the length of the program descriptors. That length has to be below
/// the number of bytes that are left behind these four, so that the
/// descriptors never reach the end of the data. The descriptors are skipped.
/// The rest are stream records.
pub open spec fn program_map_of(data: Seq<u8>) -> Option<ProgramMappingView> {
    if data.len() <= 4 || !leads_111(data[0]) || !leads_111100(data[2]) || 4
        + program_info_length_of(data) >= data.len() {
        None
    } else {
        match streams_from(data, 4 + program_info_length_of(data)) {
            None => None,
            Some(streams) => Some(
                ProgramMappingView { pcr_pid: join13(data[0], data[1]) as u16, streams },
            ),
        }
    }
}

/// The first stream type among `streams` that has no consumer.
pub open spec fn first_unknown(streams: Seq<ElementaryStream>) -> Option<u8>
    decreases streams.len(),
{
    if streams.len() == 0 {
        None
    } else {
        match first_unknown(streams.drop_last()) {
            Some(stream_type) => Some(stream_type),
            None => if stream_type_of(streams.last().stream_type) is None {
                Some(streams.last().stream_type)
            } else {
                None
            },
        }
    }
}

/// The registration that a stream of a known type asks for.
pub open spec fn stream_registration(stream: ElementaryStream) -> Registration {
    Registration {
        pid: stream.pid,
        kind: HandlerKind::ElementaryStream(stream_type_of(stream.stream_type).unwrap()),
    }
}

/// A program map table registers a stream handler for each stream that it
/// declares, in the order of declaration. The grammar is checked on the whole
/// table first, the stream types after it.
pub open spec fn pmt_update_of(data: Seq<u8>) -> Result<Seq<Registration>, DemuxError> {
    match program_map_of(data) {
        None => Err(DemuxError::MalformedTable),
        Some(mapping) => match first_unknown(mapping.streams) {
            Some(stream_type) => Err(DemuxError::UnknownStreamType(stream_type)),
            None => Ok(mapping.streams.map_values(|s: ElementaryStream| stream_registration(s))),
        },
    }
}

/// Reads the data of a program association table.
pub fn program_association(table_data: &[u8]) -> (r: Result<ProgramAssociation, DemuxError>)
    ensures
        r == program_association_of(table_data@),
{
    if table_data.len() != 4 || !has_111(table_data[2]) {
        return Err(DemuxError::MalformedTable);
    }
    Ok(
        ProgramAssociation {
            program_number: read16(table_data[0], table_data[1]),
            program_pid: read13(table_data[2], table_data[3]),
        },
    )
}

/// Interprets the data of a program association table.
pub fn program_association_table(table_data: &[u8]) -> (r: Result<UpdateProgramMap, DemuxError>)
    ensures
        match r {
            Ok(update) => pat_update_of(table_data@) == Ok::<Seq<Registration>, DemuxError>(
                update@,
            ),
            Err(e) => pat_update_of(table_data@) == Err::<Seq<Registration>, DemuxError>(e),
        },
{
    match program_association(table_data) {
        Err(e) => Err(e),
        Ok(association) => {
            let mut update: UpdateProgramMap = no_update();
            update.push(
                Registration { pid: association.program_pid, kind: HandlerKind::ProgramMapTable },
            );
            Ok(update)
        },
    }
}

/// Reads the data of a program map table: the PCR PID and the streams that
/// it declares, or `MalformedTable`.
pub fn program_map(table_data: &[u8]) -> (r: Result<ProgramMapping, DemuxError>)
    ensures
        match r {
            Ok(mapping) => program_map_of(table_data@) == Some(mapping@),
            Err(e) => e == DemuxError::MalformedTable && program_map_of(table_data@) is None,
        },
{
    let len: usize = table_data.len();
    if len <= 4 || !has_111(table_data[0]) || !has_111100(table_data[2]) {
        return Err(DemuxError::MalformedTable);
    }
    let pcr_pid: u16 = read13(table_data[0], table_data[1]);
    let program_info_length: usize = read10(table_data[2], table_data[3]) as usize;
    if 4 + program_info_length >= len {
        return Err(DemuxError::MalformedTable);
    }
    let first: usize = 4 + program_info_length;
    let mut at: usize = first;
    let mut streams: Vec<ElementaryStream> = Vec::new();
    while at < len
        invariant
            len == table_data@.len(),
            first <= at <= len,
            program_map_of(table_data@) is Some <==> streams_from(table_data@, first as int)
                is Some,
            program_map_of(table_data@) matches Some(mapping) ==> mapping.pcr_pid == pcr_pid
                && Some(mapping.streams) == streams_from(table_data@, first as int),
            followed_by(streams@, streams_from(table_data@, at as int)) == streams_from(
                table_data@,
                first as int,
            ),
        decreases len - at,
    {
        if len - at < 5 || !has_111(table_data[at + 1]) || !has_111100(table_data[at + 3]) {
            return Err(DemuxError::MalformedTable);
        }
        let es_info_length: usize = read10(table_data[at + 3], table_data[at + 4]) as usize;
        if 5 + es_info_length > len - at {
            return Err(DemuxError::MalformedTable);
        }
        let stream = ElementaryStream {
            stream_type: table_data[at],
            pid: read13(table_data[at + 1], table_data[at + 2]),
        };
        proof {
            let next = at + 5 + es_info_length;
            assert(streams_from(table_data@, at as int) == followed_by(
                seq![stream],
                streams_from(table_data@, next),
            ));
            if let Some(rest) = streams_from(table_data@, next) {
                assert(streams@.push(stream) + rest =~= streams@ + (seq![stream] + rest));
            }
        }
        streams.push(stream);
        at = at + 5 + es_info_length;
    }
    Ok(ProgramMapping { pcr_pid, streams })
}

/// Interprets the data of a program map table.
pub fn program_map_table(table_data: &[u8]) -> (r: Result<UpdateProgramMap, DemuxError>)
    ensures
        match r {
            Ok(update) => pmt_update_of(table_data@) == Ok::<Seq<Registration>, DemuxError>(
                update@,
            ),
            Err(e) => pmt_update_of(table_data@) == Err::<Seq<Registration>, DemuxError>(e),
        },
{
    let streams: Vec<ElementaryStream> = match program_map(table_data) {
        Err(e) => {
            return Err(e);
        },
        Ok(mapping) => mapping.streams,
    };
    let mut add_programs: UpdateProgramMap = no_update();
    let mut i: usize = 0;
    while i < streams.len()
        invariant
            i <= streams.len(),
            program_map_of(table_data@) matches Some(mapping) && mapping.streams == streams@,
            first_unknown(streams@.take(i as int)) is None,
            add_programs@ == streams@.take(i as int).map_values(
                |s: ElementaryStream| stream_registration(s),
            ),
        decreases streams.len() - i,
    {
        let stream: ElementaryStream = streams[i];
        proof {
            assert(streams@.take(i + 1).drop_last() =~= streams@.take(i as int));
        }
        match StreamType::from_code(stream.stream_type) {
            None => {
                proof {
                    lemma_first_unknown_prefix(streams@, i + 1);
                }
                return Err(DemuxError::UnknownStreamType(stream.stream_type));
            },
            Some(stream_type) => {
                add_programs.push(
                    Registration {
                        pid: stream.pid,
                        kind: HandlerKind::ElementaryStream(stream_type),
                    },
                );
            },
        }
        i = i + 1;
    }
    assert(streams@.take(i as int) =~= streams@);
    Ok(add_programs)
}

/// An unknown stream type that shows among the first `n` streams is the first
/// unknown one of the whole list.
proof fn lemma_first_unknown_prefix(streams: Seq<ElementaryStream>, n: int)
    requires
        0 <= n <= streams.len(),
        first_unknown(streams.take(n)) is Some,
    ensures
        first_unknown(streams) == first_unknown(streams.take(n)),
    decreases streams.len() - n,
{
    if n < streams.len() {
        assert(streams.take(n + 1).drop_last() =~= streams.take(n));
        lemma_first_unknown_prefix(streams, n + 1);
    } else {
        assert(streams.take(n) =~= streams);
    }
}

} // verus!
