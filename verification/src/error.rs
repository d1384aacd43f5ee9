use vstd::prelude::*;

verus! {

/// Why a run stops. Every failure is fatal: the demultiplexer never skips a
/// packet and never resynchronises.
#[derive(Clone, Copy, Debug, PartialEq, Eq, Structural)]
pub enum DemuxError {
    /// The sync byte is wrong, the adaptation field control is `00`, or the
    /// adaptation field is longer than the packet.
    FramingError,
    /// A stream packet carries another continuity counter than the next one in
    /// sequence.
    ContinuityError,
    /// A unit start does not hold a PES header, or the header runs past the
    /// end of the packet.
    MalformedPes,
    /// A table section breaks the grammar: reserved bits, filler bytes or
    /// lengths are wrong.
    MalformedTable,
    /// A table section is marked "next" and not "current".
    UnsupportedSection,
    /// A program map table declares a stream of a type that has no consumer;
    /// the field is that type.
    UnknownStreamType(u8),
    /// A packet arrived for a PID that no table has announced; the field is
    /// that PID.
    UnknownPid(u16),
}

} // verus!
