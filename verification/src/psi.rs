//! The table handler: finds the one table section of a packet, checks its
//! frame and hands its data to the interpreter of the table.
//!
//! A section has to lie in one packet. The CRC at its end is located and
//! handed out, and never computed.

use vstd::prelude::*;
use crate::bits::{has_1011, has_11, join12, join16, leads_1011, leads_11, read12, read16};
use crate::error::DemuxError;
use crate::packet::{get_payload_offset, get_pusi, payload_offset_of, unit_start_of, Packet};
use crate::tables::{pat_update_of, pmt_update_of, program_association_table, program_map_table};
use crate::update::{Registration, TableKind, UpdateProgramMap};

verus! {

/// The largest section length that the grammar allows.
pub const MAX_SECTION_LENGTH: usize = 1020;

/// The filler byte between the pointer field and the section. As a table id
/// it marks padding, so no section has it.
pub const FILLER: u8 = 0xFF;

/// The three bytes in front of a section.
#[derive(Clone, Copy, Debug, PartialEq, Eq, Structural)]
pub struct TableHeader {
    pub table_id: u8,
    /// How many bytes follow the header, the CRC among them.
    pub section_length: usize,
}

/// One table section, as it lies in the bytes it was read from.
#[derive(Clone, Copy, Debug)]
pub struct TableSection<'a> {
    pub table_id: u8,
    /// How many bytes the section has, from its own header to the end of the
    /// CRC.
    pub section_length: usize,
    pub table_id_extension: u16,
    pub version_number: u8,
    pub section_number: u8,
    pub last_section_number: u8,
    /// What lies between the five bytes of the section's own header and the CRC.
    pub table_data: &'a [u8],
    /// The last four bytes of the section.
    pub crc32: &'a [u8],
}

/// What a table section holds.
pub struct SectionView {
    pub table_id: u8,
    pub section_length: usize,
    pub table_id_extension: u16,
    pub version_number: u8,
    pub section_number: u8,
    pub last_section_number: u8,
    pub table_data: Seq<u8>,
    pub crc32: Seq<u8>,
}

impl<'a> View for TableSection<'a> {
    type V = SectionView;

    open spec fn view(&self) -> SectionView {
        SectionView {
            table_id: self.table_id,
            section_length: self.section_length,
            table_id_extension: self.table_id_extension,
            version_number: self.version_number,
            section_number: self.section_number,
            last_section_number: self.last_section_number,
            table_data: self.table_data@,
            crc32: self.crc32@,
        }
    }
}

/// Where the table header starts in `data`, for a payload that starts at
/// `offset`.
///
/// In a unit start the payload opens with the pointer field: one byte that
/// counts the filler bytes behind it, each of them `0xFF`. The header follows
/// the filler. Elsewhere the header is the first thing in the payload.
pub open spec fn section_start_of(data: Seq<u8>, offset: int, unit_start: bool) -> Option<int> {
    if !unit_start {
        Some(offset)
    } else if offset >= data.len() {
        None
    } else {
        let start = offset + 1 + data[offset];
        if start <= data.len() && forall|i: int| offset < i < start ==> data[i] == FILLER {
            Some(start)
        } else {
            None
        }
    }
}

/// The table header at `at`: a table id other than `0xFF`, four bits `1011`,
/// and the 12 bits of the section length, which is at most 1020.
pub open spec fn table_header_of(data: Seq<u8>, at: int) -> Result<TableHeader, DemuxError> {
    if at + 3 > data.len() || data[at] == FILLER || !leads_1011(data[at + 1]) || join12(
        data[at + 1],
        data[at + 2],
    ) > MAX_SECTION_LENGTH {
        Err(DemuxError::MalformedTable)
    } else {
        Ok(
            TableHeader {
                table_id: data[at],
                section_length: join12(data[at + 1], data[at + 2]) as usize,
            },
        )
    }
}

/// The section of `length` bytes that starts at `body`, behind a header that
/// gave `table_id`.
///
/// Its third byte holds two reserved bits, both set, five bits of version and
/// the bit that tells a current section from a next one. Five bytes of header
/// and four of CRC frame the table's data.
pub open spec fn section_body_of(data: Seq<u8>, table_id: u8, body: int, length: int) -> Result<
    SectionView,
    DemuxError,
> {
    if body + length > data.len() || length < 3 || !leads_11(data[body + 2]) {
        Err(DemuxError::MalformedTable)
    } else if data[body + 2] % 2 != 1 {
        Err(DemuxError::UnsupportedSection)
    } else if length < 9 {
        Err(DemuxError::MalformedTable)
    } else {
        Ok(
            SectionView {
                table_id,
                section_length: length as usize,
                table_id_extension: join16(data[body], data[body + 1]) as u16,
                version_number: ((data[body + 2] / 2) % 32) as u8,
                section_number: data[body + 3],
                last_section_number: data[body + 4],
                table_data: data.subrange(body + 5, body + length - 4),
                crc32: data.subrange(body + length - 4, body + length),
            },
        )
    }
}

/// The table section in `data`, for a payload that starts at `offset`.
pub open spec fn section_of(data: Seq<u8>, offset: int, unit_start: bool) -> Result<
    SectionView,
    DemuxError,
> {
    match section_start_of(data, offset, unit_start) {
        None => Err(DemuxError::MalformedTable),
        Some(start) => match table_header_of(data, start) {
            Err(e) => Err(e),
            Ok(header) => section_body_of(
                data,
                header.table_id,
                start + 3,
                header.section_length as int,
            ),
        },
    }
}

/// What the interpreter of a table of the given kind makes of its data.
pub open spec fn interpretation_of(kind: TableKind, table_data: Seq<u8>) -> Result<
    Seq<Registration>,
    DemuxError,
> {
    match kind {
        TableKind::Pat => pat_update_of(table_data),
        TableKind::Pmt => pmt_update_of(table_data),
    }
}

/// What a table handler of the given kind answers to the packet `p`.
pub open spec fn table_update_of(kind: TableKind, p: Seq<u8>) -> Result<
    Seq<Registration>,
    DemuxError,
> {
    match payload_offset_of(p) {
        Err(e) => Err(e),
        Ok(offset) => match section_of(p, offset as int, unit_start_of(p)) {
            Err(e) => Err(e),
            Ok(section) => interpretation_of(kind, section.table_data),
        },
    }
}

/// Skips the pointer field and the filler of a unit start.
pub fn skip_pointer_field(data: &[u8], offset: usize, unit_start: bool) -> (r: Result<
    usize,
    DemuxError,
>)
    ensures
        match r {
            Ok(start) => section_start_of(data@, offset as int, unit_start) == Some(start as int),
            Err(e) => e == DemuxError::MalformedTable && section_start_of(
                data@,
                offset as int,
                unit_start,
            ) is None,
        },
{
    if !unit_start {
        return Ok(offset);
    }
    let len: usize = data.len();
    if offset >= len {
        return Err(DemuxError::MalformedTable);
    }
    let pointer_field: usize = data[offset] as usize;
    if pointer_field > len - offset - 1 {
        return Err(DemuxError::MalformedTable);
    }
    let start: usize = offset + 1 + pointer_field;
    let mut i: usize = offset + 1;
    while i < start
        invariant
            unit_start,
            offset < i <= start <= len,
            len == data@.len(),
            start == offset + 1 + data@[offset as int],
            forall|j: int| offset < j < i ==> data@[j] == FILLER,
        decreases start - i,
    {
        if data[i] != FILLER {
            return Err(DemuxError::MalformedTable);
        }
        i = i + 1;
    }
    Ok(start)
}

/// Reads the table header at `at`.
pub fn parse_table_header(data: &[u8], at: usize) -> (r: Result<TableHeader, DemuxError>)
    ensures
        r == table_header_of(data@, at as int),
{
    let len: usize = data.len();
    if at > len || len - at < 3 {
        return Err(DemuxError::MalformedTable);
    }
    let table_id: u8 = data[at];
    if table_id == FILLER || !has_1011(data[at + 1]) {
        return Err(DemuxError::MalformedTable);
    }
    let section_length: usize = read12(data[at + 1], data[at + 2]) as usize;
    if section_length > MAX_SECTION_LENGTH {
        return Err(DemuxError::MalformedTable);
    }
    Ok(TableHeader { table_id, section_length })
}

/// Finds and checks the table section in `data`, for a payload that starts at
/// `offset`.
pub fn parse_section<'a>(data: &'a [u8], offset: usize, unit_start: bool) -> (r: Result<
    TableSection<'a>,
    DemuxError,
>)
    ensures
        match r {
            Ok(section) => section_of(data@, offset as int, unit_start) == Ok::<
                SectionView,
                DemuxError,
            >(section@),
            Err(e) => section_of(data@, offset as int, unit_start) == Err::<
                SectionView,
                DemuxError,
            >(e),
        },
{
    let start: usize = match skip_pointer_field(data, offset, unit_start) {
        Err(e) => {
            return Err(e);
        },
        Ok(start) => start,
    };
    let header: TableHeader = match parse_table_header(data, start) {
        Err(e) => {
            return Err(e);
        },
        Ok(header) => header,
    };
    let len: usize = data.len();
    let section_length: usize = header.section_length;
    let body: usize = start + 3;
    if section_length > len - body || section_length < 3 || !has_11(data[body + 2]) {
        return Err(DemuxError::MalformedTable);
    }
    let flags: u8 = data[body + 2];
    let current_indicator: bool = (flags & 0x01) == 1;
    assert(current_indicator == (flags % 2 == 1)) by (bit_vector)
        requires
            current_indicator == ((flags & 0x01) == 1),
    ;
    if !current_indicator {
        return Err(DemuxError::UnsupportedSection);
    }
    if section_length < 9 {
        return Err(DemuxError::MalformedTable);
    }
    let version_number: u8 = (flags & 0b0011_1110) >> 1;
    assert(version_number == (flags / 2) % 32) by (bit_vector)
        requires
            version_number == (flags & 0b0011_1110) >> 1,
    ;
    let end: usize = body + section_length;
    Ok(
        TableSection {
            table_id: header.table_id,
            section_length,
            table_id_extension: read16(data[body], data[body + 1]),
            version_number,
            section_number: data[body + 3],
            last_section_number: data[body + 4],
            table_data: &data[body + 5..end - 4],
            crc32: &data[end - 4..end],
        },
    )
}

/// A table handler. It keeps no state between packets: all that it knows is
/// which table it reads.
#[derive(Clone, Copy, Debug, PartialEq, Eq, Structural)]
pub struct ProgramSpecificInformation {
    pub table_processor: TableKind,
}

impl ProgramSpecificInformation {
    /// The handler of the program association table.
    pub fn new_pat() -> (psi: ProgramSpecificInformation)
        ensures
            psi.table_processor == TableKind::Pat,
    {
        ProgramSpecificInformation { table_processor: TableKind::Pat }
    }

    /// The handler of a program map table.
    pub fn new_pmt() -> (psi: ProgramSpecificInformation)
        ensures
            psi.table_processor == TableKind::Pmt,
    {
        ProgramSpecificInformation { table_processor: TableKind::Pmt }
    }

    /// Hands the data of a table to the interpreter of this handler.
    pub fn interpret(&self, table_data: &[u8]) -> (r: Result<UpdateProgramMap, DemuxError>)
        ensures
            match r {
                Ok(update) => interpretation_of(self.table_processor, table_data@) == Ok::<
                    Seq<Registration>,
                    DemuxError,
                >(update@),
                Err(e) => interpretation_of(self.table_processor, table_data@) == Err::<
                    Seq<Registration>,
                    DemuxError,
                >(e),
            },
    {
        match self.table_processor {
            TableKind::Pat => program_association_table(table_data),
            TableKind::Pmt => program_map_table(table_data),
        }
    }

    /// Reads the table section of `packet` and answers with what it registers.
    pub fn process(&self, packet: &Packet) -> (r: Result<UpdateProgramMap, DemuxError>)
        ensures
            match r {
                Ok(update) => table_update_of(self.table_processor, packet@) == Ok::<
                    Seq<Registration>,
                    DemuxError,
                >(update@),
                Err(e) => table_update_of(self.table_processor, packet@) == Err::<
                    Seq<Registration>,
                    DemuxError,
                >(e),
            },
    {
        let offset: usize = match get_payload_offset(packet) {
            Err(e) => {
                return Err(e);
            },
            Ok(offset) => offset,
        };
        match parse_section(packet.as_slice(), offset, get_pusi(packet)) {
            Err(e) => Err(e),
            Ok(section) => self.interpret(section.table_data),
        }
    }
}

} // verus!
