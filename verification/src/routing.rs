//! The routing table: which handler takes the packets of which PID.
//!
//! The table starts with the handler of the program association table at
//! PID 0 and grows as tables are read. A handler is never replaced and never
//! removed.

use std::collections::HashMap;
use vstd::prelude::*;
use crate::error::DemuxError;
use crate::packet::{get_pid, pid_of, Packet, SYNC_BYTE};
use crate::program::{next_counter, stream_payload_of, Program};
use crate::psi::{table_update_of, ProgramSpecificInformation};
use crate::update::{
    initial_state, lemma_register_all_idempotent, lemma_register_all_keeps, newly_registered,
    register, register_all, HandlerKind, HandlerState, Registration, TableKind, UpdateProgramMap,
};

verus! {

/// The PID of the program association table.
pub const PAT_PID: u16 = 0;

/// A handler: it reads tables or it feeds a sink.
#[derive(Debug)]
pub enum Handler {
    Table(ProgramSpecificInformation),
    Stream(Program),
}

impl View for Handler {
    type V = HandlerState;

    open spec fn view(&self) -> HandlerState {
        match self {
            Handler::Table(psi) => HandlerState::Table(psi.table_processor),
            Handler::Stream(program) => HandlerState::Stream(program@),
        }
    }
}

impl Handler {
    /// A handler of the given kind, in the state in which it starts.
    pub fn new(kind: HandlerKind) -> (handler: Handler)
        ensures
            handler@ == initial_state(kind),
    {
        match kind {
            HandlerKind::ProgramMapTable => Handler::Table(ProgramSpecificInformation::new_pmt()),
            HandlerKind::ElementaryStream(_) => Handler::Stream(Program::new()),
        }
    }
}

/// What the caller has to do after a step.
#[derive(Debug)]
pub enum Action<'a> {
    /// A table was read. These registrations added a handler, in this order:
    /// open a sink for each that is an elementary stream.
    Registered(Vec<Registration>),
    /// A stream packet was accepted: append `payload` to the sink of `pid`.
    Write { pid: u16, payload: &'a [u8] },
    /// The input has ended: flush every sink.
    Finish,
}

/// What an action says.
pub enum ActionView {
    Registered(Seq<Registration>),
    Write { pid: u16, payload: Seq<u8> },
    Finish,
}

impl<'a> View for Action<'a> {
    type V = ActionView;

    open spec fn view(&self) -> ActionView {
        match self {
            Action::Registered(added) => ActionView::Registered(added@),
            Action::Write { pid, payload } => ActionView::Write { pid: *pid, payload: payload@ },
            Action::Finish => ActionView::Finish,
        }
    }
}

/// The routing table in which every run starts.
pub open spec fn initial_table() -> Map<u16, HandlerState> {
    Map::<u16, HandlerState>::empty().insert(PAT_PID, HandlerState::Table(TableKind::Pat))
}

/// What becomes of the routing table `table` and what is to be done when the
/// packet `p` is dispatched.
///
/// The packet starts with the sync byte and its PID has a handler. A table
/// handler reads the section and the table takes the registrations. A stream
/// handler hands out the payload and moves on to the next counter.
pub open spec fn dispatch_of(table: Map<u16, HandlerState>, p: Seq<u8>) -> Result<
    (Map<u16, HandlerState>, ActionView),
    DemuxError,
> {
    let pid = pid_of(p) as u16;
    if p[0] != SYNC_BYTE {
        Err(DemuxError::FramingError)
    } else if !table.contains_key(pid) {
        Err(DemuxError::UnknownPid(pid))
    } else {
        match table[pid] {
            HandlerState::Table(kind) => match table_update_of(kind, p) {
                Err(e) => Err(e),
                Ok(update) => Ok(
                    (
                        register_all(table, update),
                        ActionView::Registered(newly_registered(table, update)),
                    ),
                ),
            },
            HandlerState::Stream(expected) => match stream_payload_of(expected, p) {
                Err(e) => Err(e),
                Ok(payload) => Ok(
                    (
                        table.insert(pid, HandlerState::Stream(next_counter(expected))),
                        ActionView::Write { pid, payload },
                    ),
                ),
            },
        }
    }
}

/// The routing table.
pub struct ProgramMap {
    handlers: HashMap<u16, Handler>,
}

impl View for ProgramMap {
    type V = Map<u16, HandlerState>;

    closed spec fn view(&self) -> Map<u16, HandlerState> {
        self.handlers@.map_values(|handler: Handler| handler@)
    }
}

impl ProgramMap {
    /// The table in which a run starts: the handler of the program
    /// association table at PID 0, and nothing else.
    pub fn new() -> (programs: ProgramMap)
        ensures
            programs@ == initial_table(),
    {
        broadcast use vstd::std_specs::hash::group_hash_axioms;

        let mut handlers: HashMap<u16, Handler> = HashMap::new();
        handlers.insert(PAT_PID, Handler::Table(ProgramSpecificInformation::new_pat()));
        ProgramMap { handlers }
    }

    /// Whether `pid` has a handler.
    pub fn contains(&self, pid: u16) -> (present: bool)
        ensures
            present == self@.contains_key(pid),
    {
        broadcast use vstd::std_specs::hash::group_hash_axioms;

        self.handlers.contains_key(&pid)
    }

    /// The handler of `pid`.
    pub fn get(&self, pid: u16) -> (r: Option<&Handler>)
        ensures
            match r {
                Some(handler) => self@.contains_key(pid) && self@[pid] == handler@,
                None => !self@.contains_key(pid),
            },
    {
        broadcast use vstd::std_specs::hash::group_hash_axioms;

        self.handlers.get(&pid)
    }

    /// How many PIDs have a handler.
    pub fn len(&self) -> (n: usize)
        ensures
            n == self@.len(),
    {
        broadcast use vstd::std_specs::hash::group_hash_axioms;

        assert(self@.dom() =~= self.handlers@.dom());
        self.handlers.len()
    }

    /// Applies an update: each registration in order, each only where its PID
    /// has no handler yet. Answers with the registrations that added one.
    pub fn apply(&mut self, update: &UpdateProgramMap) -> (added: Vec<Registration>)
        ensures
            final(self)@ == register_all(old(self)@, update@),
            added@ == newly_registered(old(self)@, update@),
    {
        broadcast use vstd::std_specs::hash::group_hash_axioms;

        let mut added: Vec<Registration> = Vec::new();
        let mut i: usize = 0;
        assert(update@.skip(0) =~= update@);
        while i < update.len()
            invariant
                i <= update.len(),
                register_all(self@, update@.skip(i as int)) == register_all(old(self)@, update@),
                added@ + newly_registered(self@, update@.skip(i as int)) == newly_registered(
                    old(self)@,
                    update@,
                ),
            decreases update.len() - i,
        {
            let registration: Registration = update[i];
            let ghost before = self@;
            let ghost rest = update@.skip(i as int);
            assert(rest.skip(1) =~= update@.skip(i + 1));
            if !self.handlers.contains_key(&registration.pid) {
                self.handlers.insert(registration.pid, Handler::new(registration.kind));
                assert(self@ =~= register(before, registration));
                added.push(registration);
            }
            i = i + 1;
        }
        added
    }

    /// Hands `packet` to the handler of its PID and, where that is a table
    /// handler, applies what it registers. A failure leaves the routing table
    /// as it was.
    pub fn dispatch<'a>(&mut self, packet: &'a Packet) -> (r: Result<Action<'a>, DemuxError>)
        ensures
            match r {
                Ok(action) => dispatch_of(old(self)@, packet@) == Ok::<
                    (Map<u16, HandlerState>, ActionView),
                    DemuxError,
                >((final(self)@, action@)),
                Err(e) => dispatch_of(old(self)@, packet@) == Err::<
                    (Map<u16, HandlerState>, ActionView),
                    DemuxError,
                >(e) && final(self)@ == old(self)@,
            },
    {
        broadcast use vstd::std_specs::hash::group_hash_axioms;

        if packet[0] != SYNC_BYTE {
            return Err(DemuxError::FramingError);
        }
        let pid: u16 = get_pid(packet);
        match self.handlers.remove(&pid) {
            None => Err(DemuxError::UnknownPid(pid)),
            Some(Handler::Table(psi)) => {
                let answer = psi.process(packet);
                self.handlers.insert(pid, Handler::Table(psi));
                assert(self@ =~= old(self)@);
                match answer {
                    Err(e) => Err(e),
                    Ok(update) => {
                        let added: Vec<Registration> = self.apply(&update);
                        Ok(Action::Registered(added))
                    },
                }
            },
            Some(Handler::Stream(mut program)) => {
                let ghost expected = program@;
                let answer = program.process(packet);
                self.handlers.insert(pid, Handler::Stream(program));
                match answer {
                    Err(e) => Err(e),
                    Ok(payload) => {
                        assert(self@ =~= old(self)@.insert(
                            pid,
                            HandlerState::Stream(next_counter(expected)),
                        ));
                        Ok(Action::Write { pid, payload })
                    },
                }
            },
        }
    }
}

/// A table that is sent again changes nothing: once a table packet has been
/// dispatched, dispatching the same packet to the table that came of it
/// leaves that table as it is and registers no handler. Each PID is put in
/// once, and no sink is opened twice.
pub proof fn lemma_retransmission(table: Map<u16, HandlerState>, p: Seq<u8>)
    requires
        dispatch_of(table, p) is Ok,
        table[pid_of(p) as u16] is Table,
    ensures
        dispatch_of(dispatch_of(table, p).unwrap().0, p) == Ok::<
            (Map<u16, HandlerState>, ActionView),
            DemuxError,
        >(
            (
                dispatch_of(table, p).unwrap().0,
                ActionView::Registered(Seq::<Registration>::empty()),
            ),
        ),
{
    let pid = pid_of(p) as u16;
    let kind = table[pid]->Table_0;
    let update = table_update_of(kind, p).unwrap();
    lemma_register_all_keeps(table, update);
    lemma_register_all_idempotent(table, update);
}

/// Dispatching never takes a handler away and never puts another in its
/// place: after a packet of a table, every PID that had a handler has the
/// same one; after a packet of a stream, only the counter of that stream
/// has moved.
pub proof fn lemma_dispatch_keeps(table: Map<u16, HandlerState>, p: Seq<u8>)
    requires
        dispatch_of(table, p) is Ok,
    ensures
        forall|pid: u16|
            table.contains_key(pid) ==> #[trigger] dispatch_of(table, p).unwrap().0.contains_key(
                pid,
            ),
        forall|pid: u16|
            table.contains_key(pid) && pid != pid_of(p) as u16 ==> #[trigger] dispatch_of(
                table,
                p,
            ).unwrap().0[pid] == table[pid],
        table[pid_of(p) as u16] is Table ==> dispatch_of(table, p).unwrap().0[pid_of(p) as u16]
            == table[pid_of(p) as u16],
{
    let pid = pid_of(p) as u16;
    match table[pid] {
        HandlerState::Table(kind) => {
            let update = table_update_of(kind, p).unwrap();
            lemma_register_all_keeps(table, update);
        },
        HandlerState::Stream(_) => {},
    }
}

} // verus!
