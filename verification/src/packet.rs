//! The packet framer: the four-byte header of a transport packet.

use vstd::prelude::*;
use crate::bits::{join13, read13};
use crate::error::DemuxError;

verus! {

/// Every transport packet has this many bytes.
pub const PACKET_SIZE: usize = 188;

/// The first byte of every transport packet.
pub const SYNC_BYTE: u8 = 0x47;

pub type Packet = [u8; PACKET_SIZE];

/// The packet identifier: the low five bits of byte 1, then byte 2.
pub open spec fn pid_of(p: Seq<u8>) -> int {
    join13(p[1], p[2])
}

/// The payload unit start indicator: bit `0x40` of byte 1.
pub open spec fn unit_start_of(p: Seq<u8>) -> bool {
    (p[1] / 64) % 2 == 1
}

/// The adaptation field control: bits `0x30` of byte 3, as a number below 4.
pub open spec fn adaptation_control_of(p: Seq<u8>) -> int {
    ((p[3] / 16) % 4) as int
}

/// The continuity counter: the low four bits of byte 3.
pub open spec fn continuity_counter_of(p: Seq<u8>) -> int {
    (p[3] % 16) as int
}

/// Where the payload starts.
///
/// Control `01` is payload only: it starts behind the header. Control `10` is
/// an adaptation field only: the offset is the packet's length, so no payload
/// byte is left. Control `11` is both: byte 4 is the adaptation field's length,
/// and the payload starts behind it, if that is still inside the packet.
/// Control `00` is not a packet of this grammar.
pub open spec fn payload_offset_of(p: Seq<u8>) -> Result<usize, DemuxError> {
    let control = adaptation_control_of(p);
    if control == 1 {
        Ok(4usize)
    } else if control == 2 {
        Ok(PACKET_SIZE)
    } else if control == 3 && 5 + p[4] <= PACKET_SIZE {
        Ok((5 + p[4]) as usize)
    } else {
        Err(DemuxError::FramingError)
    }
}

/// What the framer reads from a packet.
#[derive(Clone, Copy, Debug, PartialEq, Eq, Structural)]
pub struct PacketHeader {
    pub pid: u16,
    pub is_unit_start: bool,
    pub continuity_counter: u8,
    pub payload_offset: usize,
}

/// The header of a packet that starts with the sync byte and whose payload
/// offset is defined.
pub open spec fn header_of(p: Seq<u8>) -> Result<PacketHeader, DemuxError> {
    if p[0] != SYNC_BYTE {
        Err(DemuxError::FramingError)
    } else {
        match payload_offset_of(p) {
            Err(e) => Err(e),
            Ok(offset) => Ok(
                PacketHeader {
                    pid: pid_of(p) as u16,
                    is_unit_start: unit_start_of(p),
                    continuity_counter: continuity_counter_of(p) as u8,
                    payload_offset: offset,
                },
            ),
        }
    }
}

pub fn get_pid(packet: &Packet) -> (pid: u16)
    ensures
        pid == pid_of(packet@),
        pid < 0x2000,
{
    read13(packet[1], packet[2])
}

pub fn get_pusi(packet: &Packet) -> (pusi: bool)
    ensures
        pusi == unit_start_of(packet@),
{
    let b: u8 = packet[1];
    let pusi: u8 = b & 0x40;
    assert((pusi != 0) == ((b / 64) % 2 == 1)) by (bit_vector)
        requires
            pusi == b & 0x40,
    ;
    pusi != 0
}

pub fn get_continuity_counter(packet: &Packet) -> (counter: u8)
    ensures
        counter == continuity_counter_of(packet@),
        counter < 16,
{
    let b: u8 = packet[3];
    let counter: u8 = b & 0x0f;
    assert(counter == b % 16) by (bit_vector)
        requires
            counter == b & 0x0f,
    ;
    counter
}

/// The offset of the payload in `packet`, by the adaptation field control.
/// An offset that is returned never passes the end of the packet.
pub fn get_payload_offset(packet: &Packet) -> (r: Result<usize, DemuxError>)
    ensures
        r == payload_offset_of(packet@),
        r matches Ok(offset) ==> 4 <= offset <= PACKET_SIZE,
{
    let b: u8 = packet[3];
    let adaptation_field_control: u8 = (b & 0x30) >> 4;
    assert(adaptation_field_control == (b / 16) % 4) by (bit_vector)
        requires
            adaptation_field_control == (b & 0x30) >> 4,
    ;
    match adaptation_field_control {
        0b01 => Ok(4),
        0b10 => Ok(PACKET_SIZE),
        0b11 => {
            let adaptation_field_length: usize = packet[4] as usize;
            if adaptation_field_length + 5 <= PACKET_SIZE {
                Ok(adaptation_field_length + 5)
            } else {
                Err(DemuxError::FramingError)
            }
        },
        _ => Err(DemuxError::FramingError),
    }
}

/// Frames one packet: checks the sync byte and reads the header fields.
pub fn frame(packet: &Packet) -> (r: Result<PacketHeader, DemuxError>)
    ensures
        r == header_of(packet@),
{
    if packet[0] != SYNC_BYTE {
        return Err(DemuxError::FramingError);
    }
    match get_payload_offset(packet) {
        Err(e) => Err(e),
        Ok(payload_offset) => Ok(
            PacketHeader {
                pid: get_pid(packet),
                is_unit_start: get_pusi(packet),
                continuity_counter: get_continuity_counter(packet),
                payload_offset,
            },
        ),
    }
}

} // verus!
