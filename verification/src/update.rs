//! Routing updates: what a table asks the routing table to register.
//!
//! A table handler never touches the routing table. It answers with a list of
//! registrations, and the owner of the table applies them in order once the
//! handler is done. A registration only ever adds: a PID that has a handler
//! keeps it.

use vstd::prelude::*;

verus! {

/// The stream types that have a consumer.
#[derive(Clone, Copy, Debug, PartialEq, Eq, Structural)]
pub enum StreamType {
    /// `0x0F`: ADTS AAC audio.
    Aac,
    /// `0x1B`: H.264 video.
    Avc,
}

/// The stream type that the byte `code` stands for in a program map table.
pub open spec fn stream_type_of(code: u8) -> Option<StreamType> {
    if code == 0x0F {
        Some(StreamType::Aac)
    } else if code == 0x1B {
        Some(StreamType::Avc)
    } else {
        None
    }
}

impl StreamType {
    /// The byte that stands for this type in a program map table.
    pub open spec fn spec_code(self) -> u8 {
        match self {
            StreamType::Aac => 0x0F,
            StreamType::Avc => 0x1B,
        }
    }

    pub fn from_code(code: u8) -> (r: Option<StreamType>)
        ensures
            r == stream_type_of(code),
    {
        match code {
            0x0F => Some(StreamType::Aac),
            0x1B => Some(StreamType::Avc),
            _ => None,
        }
    }

    #[verifier::when_used_as_spec(spec_code)]
    pub fn code(self) -> (code: u8)
        ensures
            code == self.spec_code(),
            stream_type_of(code) == Some(self),
    {
        match self {
            StreamType::Aac => 0x0F,
            StreamType::Avc => 0x1B,
        }
    }

    /// The name of the stream class, as a sink is commonly named after it.
    pub fn extension(self) -> (name: &'static str)
        ensures
            name@ == (match self {
                StreamType::Aac => "aac"@,
                StreamType::Avc => "avc"@,
            }),
    {
        match self {
            StreamType::Aac => "aac",
            StreamType::Avc => "avc",
        }
    }

    /// The standard that defines the stream type, for a log line.
    pub fn description(self) -> (text: &'static str)
        ensures
            text@ == (match self {
                StreamType::Aac => "ISO/IEC 13818-7 ADTS AAC / MPEG-2 lower bit-rate audio"@,
                StreamType::Avc => "ISO/IEC 14496-10 / H.264 lower bit-rate video"@,
            }),
    {
        match self {
            StreamType::Aac => "ISO/IEC 13818-7 ADTS AAC / MPEG-2 lower bit-rate audio",
            StreamType::Avc => "ISO/IEC 14496-10 / H.264 lower bit-rate video",
        }
    }
}

/// The two kinds of table that a table handler can interpret.
#[derive(Clone, Copy, Debug, PartialEq, Eq, Structural)]
pub enum TableKind {
    /// The program association table.
    Pat,
    /// The program map table.
    Pmt,
}

/// What a registration puts at its PID.
#[derive(Clone, Copy, Debug, PartialEq, Eq, Structural)]
pub enum HandlerKind {
    /// A table handler that reads the program map table.
    ProgramMapTable,
    /// A stream handler with a fresh continuity counter; its sink is opened
    /// for the PID and this stream type.
    ElementaryStream(StreamType),
}

/// "Put a handler of this kind at this PID, unless the PID has one."
#[derive(Clone, Copy, Debug, PartialEq, Eq, Structural)]
pub struct Registration {
    pub pid: u16,
    pub kind: HandlerKind,
}

/// The registrations of one table section, in the order of declaration.
pub type UpdateProgramMap = Vec<Registration>;

/// What the routing table knows of a handler.
pub enum HandlerState {
    /// A table handler; it has no state of its own.
    Table(TableKind),
    /// A stream handler and the continuity counter that it expects next.
    Stream(nat),
}

/// The state in which a handler of the given kind starts.
pub open spec fn initial_state(kind: HandlerKind) -> HandlerState {
    match kind {
        HandlerKind::ProgramMapTable => HandlerState::Table(TableKind::Pmt),
        HandlerKind::ElementaryStream(_) => HandlerState::Stream(0),
    }
}

/// The routing table after one registration.
pub open spec fn register(table: Map<u16, HandlerState>, r: Registration) -> Map<
    u16,
    HandlerState,
> {
    if table.contains_key(r.pid) {
        table
    } else {
        table.insert(r.pid, initial_state(r.kind))
    }
}

/// The routing table after the registrations of `update`, first to last.
pub open spec fn register_all(table: Map<u16, HandlerState>, update: Seq<Registration>) -> Map<
    u16,
    HandlerState,
>
    decreases update.len(),
{
    if update.len() == 0 {
        table
    } else {
        register_all(register(table, update[0]), update.skip(1))
    }
}

/// The registrations of `update` that add a handler to `table`, first to last:
/// those whose PID neither `table` nor an earlier registration holds.
pub open spec fn newly_registered(table: Map<u16, HandlerState>, update: Seq<Registration>) -> Seq<
    Registration,
>
    decreases update.len(),
{
    if update.len() == 0 {
        Seq::empty()
    } else {
        let rest = newly_registered(register(table, update[0]), update.skip(1));
        if table.contains_key(update[0].pid) {
            rest
        } else {
            seq![update[0]] + rest
        }
    }
}

/// The update that changes nothing.
pub fn no_update() -> (update: UpdateProgramMap)
    ensures
        update@ == Seq::<Registration>::empty(),
{
    Vec::new()
}

/// Some registration of `update` names `pid`.
pub open spec fn names(update: Seq<Registration>, pid: u16) -> bool {
    exists|i: int| 0 <= i < update.len() && (#[trigger] update[i]).pid == pid
}

/// Registration only adds: every PID of `table` is still there, with the
/// handler it had.
pub proof fn lemma_register_all_keeps(table: Map<u16, HandlerState>, update: Seq<Registration>)
    ensures
        forall|pid: u16|
            #![trigger register_all(table, update).contains_key(pid)]
            #![trigger register_all(table, update)[pid]]
            table.contains_key(pid) ==> register_all(table, update).contains_key(pid)
                && register_all(table, update)[pid] == table[pid],
    decreases update.len(),
{
    if update.len() > 0 {
        let first = register(table, update[0]);
        let rest = update.skip(1);
        lemma_register_all_keeps(first, rest);
        assert forall|pid: u16| table.contains_key(pid) implies #[trigger] register_all(
            table,
            update,
        ).contains_key(pid) && register_all(table, update)[pid] == table[pid] by {
            assert(register_all(first, rest)[pid] == first[pid]);
        }
    }
}

/// After an update the PIDs with a handler are those that had one and those
/// that the update names.
pub proof fn lemma_register_all_domain(table: Map<u16, HandlerState>, update: Seq<Registration>)
    ensures
        forall|pid: u16| #[trigger]
            register_all(table, update).contains_key(pid) <==> (table.contains_key(pid) || names(
                update,
                pid,
            )),
    decreases update.len(),
{
    if update.len() > 0 {
        let first = register(table, update[0]);
        let rest = update.skip(1);
        lemma_register_all_domain(first, rest);
        assert forall|pid: u16| #[trigger]
            register_all(table, update).contains_key(pid) <==> (table.contains_key(pid) || names(
                update,
                pid,
            )) by {
            assert(register_all(first, rest).contains_key(pid) <==> (first.contains_key(pid)
                || names(rest, pid)));
            if names(rest, pid) {
                let j = choose|j: int| 0 <= j < rest.len() && (#[trigger] rest[j]).pid == pid;
                assert(update[j + 1].pid == pid);
            }
            if names(update, pid) && update[0].pid != pid {
                let i = choose|i: int| 0 <= i < update.len() && (#[trigger] update[i]).pid == pid;
                assert(rest[i - 1].pid == pid);
            }
        }
    }
}

/// An update whose PIDs all have a handler changes nothing and adds nothing.
pub proof fn lemma_register_all_present(table: Map<u16, HandlerState>, update: Seq<Registration>)
    requires
        forall|i: int| 0 <= i < update.len() ==> table.contains_key(#[trigger] update[i].pid),
    ensures
        register_all(table, update) == table,
        newly_registered(table, update) == Seq::<Registration>::empty(),
    decreases update.len(),
{
    if update.len() > 0 {
        lemma_register_all_present(table, update.skip(1));
    }
}

/// A table that is announced again changes nothing: applying an update a
/// second time leaves the routing table as the first application made it, and
/// registers no handler, so no sink is opened twice.
pub proof fn lemma_register_all_idempotent(table: Map<u16, HandlerState>, update: Seq<Registration>)
    ensures
        register_all(register_all(table, update), update) == register_all(table, update),
        newly_registered(register_all(table, update), update) == Seq::<Registration>::empty(),
{
    lemma_register_all_domain(table, update);
    lemma_register_all_present(register_all(table, update), update);
}

/// Each registration that adds a handler names a PID that had none, and no
/// two of them name the same PID: a PID is registered at most once.
pub proof fn lemma_newly_registered_once(table: Map<u16, HandlerState>, update: Seq<Registration>)
    ensures
        forall|i: int|
            0 <= i < newly_registered(table, update).len() ==> !table.contains_key(
                #[trigger] newly_registered(table, update)[i].pid,
            ),
        forall|i: int, j: int|
            0 <= i < j < newly_registered(table, update).len() ==> newly_registered(
                table,
                update,
            )[i].pid != newly_registered(table, update)[j].pid,
    decreases update.len(),
{
    if update.len() > 0 {
        let first = register(table, update[0]);
        let rest = newly_registered(first, update.skip(1));
        lemma_newly_registered_once(first, update.skip(1));
        if !table.contains_key(update[0].pid) {
            let all = newly_registered(table, update);
            assert(all == seq![update[0]] + rest);
            assert forall|i: int| 0 <= i < all.len() implies !table.contains_key(
                #[trigger] all[i].pid,
            ) by {
                if i > 0 {
                    assert(all[i] == rest[i - 1]);
                }
            }
            assert forall|i: int, j: int| 0 <= i < j < all.len() implies all[i].pid
                != all[j].pid by {
                assert(all[j] == rest[j - 1]);
                if i > 0 {
                    assert(all[i] == rest[i - 1]);
                }
            }
        }
    }
}

} // verus!
