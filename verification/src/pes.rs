//! The PES stripper: how many bytes of a unit start are PES header.

use vstd::prelude::*;
use crate::error::DemuxError;

verus! {

/// The fixed part of a PES header; byte 8 of it is the length of the optional
/// fields that follow.
pub const PES_FIXED_HEADER: usize = 9;

/// The size of the PES header that `pes` starts with: the fixed part and the
/// optional fields. The first byte has to be the zero that opens the start
/// code prefix; the two bytes behind it are not looked at.
pub open spec fn pes_header_size_of(pes: Seq<u8>) -> Result<usize, DemuxError> {
    if pes.len() < PES_FIXED_HEADER || pes[0] != 0 {
        Err(DemuxError::MalformedPes)
    } else {
        Ok((PES_FIXED_HEADER + pes[8]) as usize)
    }
}

pub fn get_pes_header_size(pes: &[u8]) -> (r: Result<usize, DemuxError>)
    ensures
        r == pes_header_size_of(pes@),
{
    if pes.len() < PES_FIXED_HEADER || pes[0] != 0x00 {
        return Err(DemuxError::MalformedPes);
    }
    let pes_header_length: usize = pes[8] as usize;
    Ok(PES_FIXED_HEADER + pes_header_length)
}

} // verus!
