use tsdemux::demux::{DemuxState, Demuxer};
use tsdemux::error::DemuxError;
use tsdemux::packet::{Packet, PACKET_SIZE};
use tsdemux::program::Program;
use tsdemux::routing::{Action, Handler, ProgramMap};
use tsdemux::update::{HandlerKind, Registration, StreamType, TableKind};

fn table_packet(pid: u16, table_id: u8, data: &[u8]) -> Packet {
    let mut packet: Packet = [0xFF; PACKET_SIZE];
    packet[0] = 0x47;
    packet[1] = 0x40 | ((pid >> 8) as u8);
    packet[2] = pid as u8;
    packet[3] = 0x10;
    packet[4] = 0x00;
    let length = 5 + data.len() + 4;
    packet[5] = table_id;
    packet[6] = 0xB0 | ((length >> 8) as u8);
    packet[7] = length as u8;
    packet[8..13].copy_from_slice(&[0x00, 0x01, 0xC1, 0x00, 0x00]);
    packet[13..13 + data.len()].copy_from_slice(data);
    packet[13 + data.len()..17 + data.len()].copy_from_slice(&[0, 0, 0, 0]);
    packet
}

fn stream_packet(pid: u16, counter: u8, fill: u8) -> Packet {
    let mut packet: Packet = [fill; PACKET_SIZE];
    packet[0] = 0x47;
    packet[1] = (pid >> 8) as u8;
    packet[2] = pid as u8;
    packet[3] = 0x10 | counter;
    packet
}

fn pes_packet(pid: u16, counter: u8, optional: u8, body: &[u8]) -> Packet {
    let mut packet: Packet = [0xEE; PACKET_SIZE];
    packet[0] = 0x47;
    packet[1] = 0x40 | ((pid >> 8) as u8);
    packet[2] = pid as u8;
    let stuffing = PACKET_SIZE - 4 - 9 - optional as usize - body.len();
    let mut at = 4;
    if stuffing == 0 {
        packet[3] = 0x10 | counter;
    } else {
        packet[3] = 0x30 | counter;
        packet[4] = (stuffing - 1) as u8;
        at = 4 + stuffing;
    }
    packet[at..at + 9].copy_from_slice(&[0, 0, 1, 0xE0, 0, 0, 0x80, 0x80, optional]);
    packet[at + 9 + optional as usize..].copy_from_slice(body);
    packet
}

const PAT: [u8; 4] = [0x00, 0x01, 0xE0, 0x20];
const PMT: [u8; 14] =
    [0xE1, 0x00, 0xF0, 0x00, 0x0F, 0xE0, 0x44, 0xF0, 0x00, 0x1B, 0xE0, 0x45, 0xF0, 0x00];

fn registered(action: Action) -> Vec<Registration> {
    match action {
        Action::Registered(added) => added,
        other => panic!("not a registration: {:?}", other),
    }
}

fn written(action: Action) -> (u16, Vec<u8>) {
    match action {
        Action::Write { pid, payload } => (pid, payload.to_vec()),
        other => panic!("not a write: {:?}", other),
    }
}

fn is_table(programs: &ProgramMap, pid: u16, kind: TableKind) -> bool {
    matches!(programs.get(pid), Some(Handler::Table(psi)) if psi.table_processor == kind)
}

fn expected_counter(programs: &ProgramMap, pid: u16) -> Option<u8> {
    match programs.get(pid) {
        Some(Handler::Stream(program)) => Some(program.continuity_counter()),
        _ => None,
    }
}

#[test]
fn fresh_table_holds_pat_handler_only() {
    let programs = ProgramMap::new();
    assert_eq!(programs.len(), 1);
    assert!(programs.contains(0));
    assert!(is_table(&programs, 0, TableKind::Pat));
    assert!(!programs.contains(0x20));
    assert!(programs.get(0x44).is_none());
}

#[test]
fn handlers_start_fresh() {
    assert!(matches!(
        Handler::new(HandlerKind::ProgramMapTable),
        Handler::Table(psi) if psi.table_processor == TableKind::Pmt
    ));
    assert!(matches!(
        Handler::new(HandlerKind::ElementaryStream(StreamType::Avc)),
        Handler::Stream(program) if program.continuity_counter() == 0
    ));
}

#[test]
fn apply_inserts_only_absent_pids() {
    let mut programs = ProgramMap::new();
    let update = vec![
        Registration { pid: 0x44, kind: HandlerKind::ElementaryStream(StreamType::Aac) },
        Registration { pid: 0, kind: HandlerKind::ProgramMapTable },
        Registration { pid: 0x44, kind: HandlerKind::ProgramMapTable },
        Registration { pid: 0x20, kind: HandlerKind::ProgramMapTable },
    ];
    let added = programs.apply(&update);
    assert_eq!(added, vec![update[0], update[3]]);
    assert_eq!(programs.len(), 3);
    assert!(is_table(&programs, 0, TableKind::Pat));
    assert!(is_table(&programs, 0x20, TableKind::Pmt));
    assert_eq!(expected_counter(&programs, 0x44), Some(0));
}

#[test]
fn apply_twice_is_apply_once() {
    let mut programs = ProgramMap::new();
    let update = vec![
        Registration { pid: 0x44, kind: HandlerKind::ElementaryStream(StreamType::Aac) },
        Registration { pid: 0x45, kind: HandlerKind::ElementaryStream(StreamType::Avc) },
    ];
    assert_eq!(programs.apply(&update), update);
    assert_eq!(programs.apply(&update), vec![]);
    assert_eq!(programs.len(), 3);
}

#[test]
fn apply_empty_update_changes_nothing() {
    let mut programs = ProgramMap::new();
    assert_eq!(programs.apply(&vec![]), vec![]);
    assert_eq!(programs.len(), 1);
}

#[test]
fn packet_for_unregistered_pid() {
    let mut programs = ProgramMap::new();
    let packet = stream_packet(0x044, 0, 0xAB);
    assert_eq!(programs.dispatch(&packet).err(), Some(DemuxError::UnknownPid(0x044)));
    assert_eq!(programs.len(), 1);
}

#[test]
fn dispatch_checks_sync_byte_first() {
    let mut programs = ProgramMap::new();
    let mut packet = stream_packet(0x044, 0, 0xAB);
    packet[0] = 0x46;
    assert_eq!(programs.dispatch(&packet).err(), Some(DemuxError::FramingError));
}

#[test]
fn tables_register_and_streams_flow() {
    let mut programs = ProgramMap::new();
    let pat = table_packet(0, 0x00, &PAT);
    assert_eq!(
        registered(programs.dispatch(&pat).unwrap()),
        vec![Registration { pid: 0x20, kind: HandlerKind::ProgramMapTable }]
    );
    assert!(is_table(&programs, 0x20, TableKind::Pmt));
    let pmt = table_packet(0x20, 0x02, &PMT);
    assert_eq!(
        registered(programs.dispatch(&pmt).unwrap()),
        vec![
            Registration { pid: 0x44, kind: HandlerKind::ElementaryStream(StreamType::Aac) },
            Registration { pid: 0x45, kind: HandlerKind::ElementaryStream(StreamType::Avc) },
        ]
    );
    assert_eq!(programs.len(), 4);
    let first = stream_packet(0x44, 0, 0xAB);
    assert_eq!(written(programs.dispatch(&first).unwrap()), (0x44, vec![0xAB; 184]));
    assert_eq!(expected_counter(&programs, 0x44), Some(1));
    assert_eq!(expected_counter(&programs, 0x45), Some(0));
    let video = stream_packet(0x45, 0, 0xCD);
    assert_eq!(written(programs.dispatch(&video).unwrap()), (0x45, vec![0xCD; 184]));
}

#[test]
fn retransmitted_tables_register_nothing() {
    let mut programs = ProgramMap::new();
    let pat = table_packet(0, 0x00, &PAT);
    let pmt = table_packet(0x20, 0x02, &PMT);
    assert_eq!(registered(programs.dispatch(&pat).unwrap()).len(), 1);
    assert_eq!(registered(programs.dispatch(&pat).unwrap()), vec![]);
    assert_eq!(programs.len(), 2);
    assert_eq!(registered(programs.dispatch(&pmt).unwrap()).len(), 2);
    let audio = stream_packet(0x44, 0, 1);
    programs.dispatch(&audio).unwrap();
    assert_eq!(registered(programs.dispatch(&pmt).unwrap()), vec![]);
    assert_eq!(registered(programs.dispatch(&pat).unwrap()), vec![]);
    assert_eq!(programs.len(), 4);
    assert_eq!(expected_counter(&programs, 0x44), Some(1));
}

#[test]
fn unknown_stream_type_registers_nothing() {
    let mut programs = ProgramMap::new();
    programs.dispatch(&table_packet(0, 0x00, &PAT)).unwrap();
    let pmt = table_packet(0x20, 0x02, &[0xE1, 0x00, 0xF0, 0x00, 0x02, 0xE0, 0x44, 0xF0, 0x00]);
    assert_eq!(programs.dispatch(&pmt).err(), Some(DemuxError::UnknownStreamType(0x02)));
    assert!(!programs.contains(0x44));
    assert_eq!(programs.len(), 2);
}

#[test]
fn failed_stream_packet_leaves_counter() {
    let mut programs = ProgramMap::new();
    programs.apply(&vec![Registration {
        pid: 0x44,
        kind: HandlerKind::ElementaryStream(StreamType::Aac),
    }]);
    assert_eq!(
        programs.dispatch(&stream_packet(0x44, 3, 0)).err(),
        Some(DemuxError::ContinuityError)
    );
    assert_eq!(expected_counter(&programs, 0x44), Some(0));
    assert!(programs.dispatch(&stream_packet(0x44, 0, 0)).is_ok());
}

#[test]
fn stream_accepts_counters_in_sequence() {
    let mut program = Program::new();
    for i in 0..40usize {
        assert_eq!(program.continuity_counter(), (i % 16) as u8);
        let packet = stream_packet(0x44, (i % 16) as u8, i as u8);
        assert_eq!(program.process(&packet), Ok(&[i as u8; 184][..]));
    }
    assert_eq!(program.continuity_counter(), 8);
}

#[test]
fn stream_rejects_skip() {
    let mut program = Program::new();
    program.process(&stream_packet(0x44, 0, 0)).unwrap();
    assert_eq!(program.process(&stream_packet(0x44, 2, 0)), Err(DemuxError::ContinuityError));
    assert_eq!(program.continuity_counter(), 1);
}

#[test]
fn stream_rejects_repeat() {
    let mut program = Program::new();
    program.process(&stream_packet(0x44, 0, 0)).unwrap();
    assert_eq!(program.process(&stream_packet(0x44, 0, 0)), Err(DemuxError::ContinuityError));
}

#[test]
fn stream_rejects_reset() {
    let mut program = Program::new();
    for counter in 0..5u8 {
        program.process(&stream_packet(0x44, counter, 0)).unwrap();
    }
    assert_eq!(program.process(&stream_packet(0x44, 0, 0)), Err(DemuxError::ContinuityError));
}

#[test]
fn stream_rejects_wrong_first_counter() {
    let mut program = Program::new();
    assert_eq!(program.process(&stream_packet(0x44, 1, 0)), Err(DemuxError::ContinuityError));
    assert_eq!(program.process(&stream_packet(0x44, 15, 0)), Err(DemuxError::ContinuityError));
}

#[test]
fn stream_checks_sync_before_counter() {
    let mut program = Program::new();
    let mut packet = stream_packet(0x44, 5, 0);
    packet[0] = 0;
    assert_eq!(program.process(&packet), Err(DemuxError::FramingError));
}

#[test]
fn stream_checks_counter_before_control() {
    let mut program = Program::new();
    let mut packet = stream_packet(0x44, 5, 0);
    packet[3] = 0x05;
    assert_eq!(program.process(&packet), Err(DemuxError::ContinuityError));
    packet[3] = 0x00;
    assert_eq!(program.process(&packet), Err(DemuxError::FramingError));
    assert_eq!(program.continuity_counter(), 0);
}

#[test]
fn pes_header_never_reaches_sink() {
    let body: Vec<u8> = (0..170u8).collect();
    let mut program = Program::new();
    assert_eq!(program.process(&pes_packet(0x44, 0, 5, &body)), Ok(&body[..]));
    let body: Vec<u8> = (0..175u8).collect();
    assert_eq!(program.process(&pes_packet(0x44, 1, 0, &body)), Ok(&body[..]));
}

#[test]
fn pes_header_behind_adaptation_field() {
    let body = [1u8, 2, 3, 4, 5, 6, 7];
    let mut program = Program::new();
    assert_eq!(program.process(&pes_packet(0x44, 0, 10, &body)), Ok(&body[..]));
    assert_eq!(program.process(&pes_packet(0x44, 1, 0, &[])), Ok(&[][..]));
    assert_eq!(program.continuity_counter(), 2);
}

#[test]
fn pes_header_past_packet_end() {
    let mut packet = pes_packet(0x44, 0, 0, &[9u8; 175]);
    packet[12] = 176;
    let mut program = Program::new();
    assert_eq!(program.process(&packet), Err(DemuxError::MalformedPes));
    packet[12] = 175;
    assert_eq!(program.process(&packet), Ok(&[][..]));
}

#[test]
fn unit_start_without_pes_header() {
    let mut packet = stream_packet(0x44, 0, 0x55);
    packet[1] |= 0x40;
    let mut program = Program::new();
    assert_eq!(program.process(&packet), Err(DemuxError::MalformedPes));
    packet[3] = 0x20;
    assert_eq!(program.process(&packet), Err(DemuxError::MalformedPes));
    packet[3] = 0x30;
    packet[4] = 176;
    assert_eq!(program.process(&packet), Err(DemuxError::MalformedPes));
}

#[test]
fn adaptation_only_packet_writes_nothing() {
    let mut packet = stream_packet(0x44, 0, 0x55);
    packet[3] = 0x20;
    let mut program = Program::new();
    assert_eq!(program.process(&packet), Ok(&[][..]));
    assert_eq!(program.continuity_counter(), 1);
}

#[test]
fn demuxer_runs_to_end_of_stream() {
    let mut demuxer = Demuxer::new();
    assert_eq!(demuxer.state(), DemuxState::Running);
    assert_eq!(demuxer.programs().len(), 1);
    let pat = table_packet(0, 0x00, &PAT);
    let pmt = table_packet(0x20, 0x02, &PMT);
    let audio = pes_packet(0x44, 0, 3, &[7u8; 100]);
    assert_eq!(registered(demuxer.step(&pat, 188).unwrap()).len(), 1);
    assert_eq!(registered(demuxer.step(&pmt, 188).unwrap()).len(), 2);
    assert_eq!(written(demuxer.step(&audio, 188).unwrap()), (0x44, vec![7u8; 100]));
    assert_eq!(demuxer.state(), DemuxState::Running);
    assert!(matches!(demuxer.step(&audio, 0), Ok(Action::Finish)));
    assert_eq!(demuxer.state(), DemuxState::EndOfStream);
    assert!(matches!(demuxer.step(&pat, 188), Ok(Action::Finish)));
    assert_eq!(demuxer.state(), DemuxState::EndOfStream);
    assert_eq!(demuxer.programs().len(), 4);
}

#[test]
fn demuxer_short_read_ends_stream() {
    let mut demuxer = Demuxer::new();
    let pat = table_packet(0, 0x00, &PAT);
    assert!(matches!(demuxer.step(&pat, 187), Ok(Action::Finish)));
    assert_eq!(demuxer.state(), DemuxState::EndOfStream);
    assert_eq!(demuxer.programs().len(), 1);
}

#[test]
fn demuxer_first_failure_is_fatal() {
    let mut demuxer = Demuxer::new();
    let pat = table_packet(0, 0x00, &PAT);
    let stray = stream_packet(0x044, 0, 0);
    demuxer.step(&pat, 188).unwrap();
    assert_eq!(demuxer.step(&stray, 188).err(), Some(DemuxError::UnknownPid(0x044)));
    assert_eq!(demuxer.state(), DemuxState::Fatal(DemuxError::UnknownPid(0x044)));
    assert_eq!(demuxer.step(&pat, 188).err(), Some(DemuxError::UnknownPid(0x044)));
    assert_eq!(demuxer.step(&pat, 0).err(), Some(DemuxError::UnknownPid(0x044)));
    assert_eq!(demuxer.state(), DemuxState::Fatal(DemuxError::UnknownPid(0x044)));
    assert_eq!(demuxer.programs().len(), 2);
}

#[test]
fn demuxer_each_error_is_surfaced() {
    let pat = table_packet(0, 0x00, &PAT);
    let mut lost_sync = pat;
    lost_sync[0] = 0;
    assert_eq!(Demuxer::new().step(&lost_sync, 188).err(), Some(DemuxError::FramingError));
    let mut next = pat;
    next[10] = 0xC0;
    assert_eq!(Demuxer::new().step(&next, 188).err(), Some(DemuxError::UnsupportedSection));
    let mut filler = pat;
    filler[4] = 1;
    filler[5] = 0x00;
    assert_eq!(Demuxer::new().step(&filler, 188).err(), Some(DemuxError::MalformedTable));
    let mut demuxer = Demuxer::new();
    demuxer.step(&pat, 188).unwrap();
    demuxer.step(&table_packet(0x20, 0x02, &PMT), 188).unwrap();
    assert_eq!(
        demuxer.step(&stream_packet(0x45, 9, 0), 188).err(),
        Some(DemuxError::ContinuityError)
    );
    let mut demuxer = Demuxer::new();
    demuxer.step(&pat, 188).unwrap();
    demuxer.step(&table_packet(0x20, 0x02, &PMT), 188).unwrap();
    let mut bare = stream_packet(0x45, 0, 0x33);
    bare[1] |= 0x40;
    assert_eq!(demuxer.step(&bare, 188).err(), Some(DemuxError::MalformedPes));
}
