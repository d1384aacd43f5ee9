//! Demultiplexer for MPEG-2 transport streams.
//!
//! A transport stream is a run of 188-byte packets, each tagged with a packet
//! identifier (PID). PID 0 carries the program association table, which names
//! the PID of the program map table, which in turn names the PID and the type
//! of every elementary stream. The library frames packets, parses both tables,
//! keeps the routing table from PID to handler, checks continuity counters and
//! strips PES headers. It performs no I/O: [`demux::Demuxer::step`] takes one
//! block that the caller has read and answers with what the caller has to do.

pub mod bits;
pub mod demux;
pub mod error;
pub mod packet;
pub mod pes;
pub mod program;
pub mod psi;
pub mod routing;
pub mod tables;
pub mod update;
