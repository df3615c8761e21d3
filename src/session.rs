//! The room session table and the decisions of the session lifecycle:
//! joining a room, toggling the loop flag, and reacting to a finished track.
use crate::track::TrackRecord;
use vstd::prelude::*;

verus! {

broadcast use vstd::std_specs::hash::group_hash_axioms;

/// The state the player keeps for one room with a live voice connection.
#[derive(Clone, Copy, Debug, PartialEq, Eq, Structural)]
pub struct RoomSession {
    pub loop_enabled: bool,
}

/// What a room's session holds right after joining.
pub open spec fn fresh_session() -> RoomSession {
    RoomSession { loop_enabled: false }
}

/// Whether a join attempt is the one that opens the room's session: it
/// succeeded and no concurrent join created the room's entry first.
pub open spec fn opens_session(t: Map<u64, RoomSession>, room: u64, joined: bool) -> bool {
    joined && !t.contains_key(room)
}

/// The table after a join attempt: the join that opens the session creates
/// the entry with looping off; any other attempt leaves the table as it was,
/// so a concurrent second join keeps the first one's entry and loop flag.
pub open spec fn after_join(t: Map<u64, RoomSession>, room: u64, joined: bool) -> Map<
    u64,
    RoomSession,
> {
    if opens_session(t, room, joined) {
        t.insert(room, fresh_session())
    } else {
        t
    }
}

/// The table after a loop toggle: the room's flag is flipped if it has a session.
pub open spec fn after_toggle(t: Map<u64, RoomSession>, room: u64) -> Map<u64, RoomSession> {
    if t.contains_key(room) {
        t.insert(room, RoomSession { loop_enabled: !t[room].loop_enabled })
    } else {
        t
    }
}

/// The table after a teardown: the room's entry is gone, whether or not the
/// engine's leave call succeeded.
pub open spec fn after_leave(t: Map<u64, RoomSession>, room: u64) -> Map<u64, RoomSession> {
    t.remove(room)
}

/// Whether the room has a session with looping on.
pub open spec fn loop_flag(t: Map<u64, RoomSession>, room: u64) -> bool {
    t.contains_key(room) && t[room].loop_enabled
}

/// The first step of making sure a room has a session.
#[derive(Debug, PartialEq, Eq, Structural)]
pub enum SessionStep {
    /// The engine already holds a connection for the room: nothing to do.
    AlreadyActive,
    /// The requester is in no voice channel: nothing to join.
    NoVoiceChannel,
    /// Ask the engine to join this channel.
    Join(u64),
}

/// How an attempt to make sure a room has a session ended.
#[derive(Debug, PartialEq, Eq)]
pub enum SessionOutcome {
    /// The room already had a session: the engine served it before the
    /// request, or a concurrent join created its entry first.
    AlreadyActive,
    NoVoiceChannel,
    /// A connection was made and the session entry created by this request;
    /// the caller binds the finish handler exactly for this outcome.
    Joined,
    JoinFailed(String),
}

/// The answer to a loop toggle.
#[derive(Debug, PartialEq, Eq, Structural)]
pub enum LoopOutcome {
    NoSession,
    /// The new value of the room's loop flag.
    Looping(bool),
}

/// What to do when a room's current item finishes.
pub enum FinishAction {
    /// Enqueue this fresh record of the finished item again.
    Requeue(TrackRecord),
    /// The queue ran dry: tear the connection down and drop the session.
    Leave,
    /// Nothing: the engine moves on to the next queued item by itself.
    Advance,
}

/// The decision of the finish handler, over plain facts: the room's loop
/// flag as read under the table lock, whether the engine's queue is empty
/// after the finished item left it, and the finished item's record. Looping
/// comes first, then leaving an empty queue; otherwise the engine advances.
pub open spec fn finish_decision(looping: bool, queue_empty: bool, finished: TrackRecord) -> FinishAction {
    if looping {
        FinishAction::Requeue(finished)
    } else if queue_empty {
        FinishAction::Leave
    } else {
        FinishAction::Advance
    }
}

/// The first step of `ensure_session`, taken before any engine call: a room
/// that the engine already serves is left alone, and a requester outside
/// any voice channel gives nothing to join.
pub open spec fn session_step(engine_active: bool, channel: Option<u64>) -> SessionStep {
    if engine_active {
        SessionStep::AlreadyActive
    } else {
        match channel {
            Some(c) => SessionStep::Join(c),
            None => SessionStep::NoVoiceChannel,
        }
    }
}

pub fn plan_session(engine_active: bool, channel: Option<u64>) -> (r: SessionStep)
    ensures
        r == session_step(engine_active, channel),
{
    if engine_active {
        SessionStep::AlreadyActive
    } else {
        match channel {
            Some(c) => SessionStep::Join(c),
            None => SessionStep::NoVoiceChannel,
        }
    }
}

/// The decision of the finish handler over plain facts.
pub fn decide_finish(looping: bool, queue_empty: bool, finished: &TrackRecord) -> (r: FinishAction)
    ensures
        r == finish_decision(looping, queue_empty, *finished),
{
    if looping {
        FinishAction::Requeue(finished.renew())
    } else if queue_empty {
        FinishAction::Leave
    } else {
        FinishAction::Advance
    }
}

/// The process-wide map from room to session state. The caller keeps it
/// behind one lock; each method is one step under that lock.
pub struct SessionTable {
    rooms: std::collections::HashMap<u64, RoomSession>,
}

impl View for SessionTable {
    type V = Map<u64, RoomSession>;

    closed spec fn view(&self) -> Map<u64, RoomSession> {
        self.rooms@
    }
}

impl SessionTable {
    /// An empty table: no room has a session.
    pub fn new() -> (r: SessionTable)
        ensures
            r@ == Map::<u64, RoomSession>::empty(),
    {
        SessionTable { rooms: std::collections::HashMap::new() }
    }

    /// Whether the room has a session.
    pub fn has_session(&self, room: u64) -> (r: bool)
        ensures
            r == self@.contains_key(room),
    {
        self.rooms.contains_key(&room)
    }

    /// The room's loop flag, if it has a session.
    pub fn loop_enabled(&self, room: u64) -> (r: Option<bool>)
        ensures
            r == (if self@.contains_key(room) {
                Some(self@[room].loop_enabled)
            } else {
                None
            }),
    {
        match self.rooms.get(&room) {
            Some(s) => Some(s.loop_enabled),
            None => None,
        }
    }

    /// Records the result of the engine's join call. A success on a room
    /// without an entry creates the entry with looping off and is `Joined`:
    /// the one outcome for which the caller binds the finish handler. A
    /// success on a room whose entry a concurrent join already created
    /// changes nothing and is `AlreadyActive`. On failure the table is
    /// unchanged and the reason is handed back.
    pub fn complete_join(&mut self, room: u64, joined: Result<(), String>) -> (r: SessionOutcome)
        ensures
            final(self)@ == after_join(old(self)@, room, joined is Ok),
            joined is Ok && old(self)@.contains_key(room) ==> r == SessionOutcome::AlreadyActive
                && final(self)@ == old(self)@,
            joined is Ok && !old(self)@.contains_key(room) ==> r == SessionOutcome::Joined
                && final(self)@ == old(self)@.insert(room, fresh_session()),
            match joined {
                Ok(_) => true,
                Err(e) => r == SessionOutcome::JoinFailed(e) && final(self)@ == old(self)@,
            },
    {
        match joined {
            Ok(_) => {
                if self.rooms.contains_key(&room) {
                    SessionOutcome::AlreadyActive
                } else {
                    self.rooms.insert(room, RoomSession { loop_enabled: false });
                    SessionOutcome::Joined
                }
            },
            Err(e) => SessionOutcome::JoinFailed(e),
        }
    }

    /// Flips the room's loop flag in one read-modify-write and returns the
    /// new value; `NoSession` if the room has no session.
    pub fn toggle_loop(&mut self, room: u64) -> (r: LoopOutcome)
        ensures
            final(self)@ == after_toggle(old(self)@, room),
            r == (if old(self)@.contains_key(room) {
                LoopOutcome::Looping(!old(self)@[room].loop_enabled)
            } else {
                LoopOutcome::NoSession
            }),
    {
        match self.rooms.get(&room) {
            Some(s) => {
                let flipped = !s.loop_enabled;
                self.rooms.insert(room, RoomSession { loop_enabled: flipped });
                LoopOutcome::Looping(flipped)
            },
            None => LoopOutcome::NoSession,
        }
    }

    /// The finish handler's decision for a room, reading its loop flag under
    /// the lock. A room without a session counts as not looping.
    pub fn finish_action(&self, room: u64, finished: &TrackRecord, queue_empty: bool) -> (r:
        FinishAction)
        ensures
            r == finish_decision(loop_flag(self@, room), queue_empty, *finished),
    {
        let looping = match self.rooms.get(&room) {
            Some(s) => s.loop_enabled,
            None => false,
        };
        decide_finish(looping, queue_empty, finished)
    }

    /// Drops the room's session after the engine was asked to leave. The entry
    /// goes whether or not the leave call succeeded; its error, if any, is
    /// handed back for the log.
    pub fn complete_leave(&mut self, room: u64, left: Result<(), String>) -> (r: Option<String>)
        ensures
            final(self)@ == after_leave(old(self)@, room),
            match left {
                Ok(_) => r is None,
                Err(e) => r == Some(e),
            },
    {
        self.rooms.remove(&room);
        match left {
            Ok(_) => None,
            Err(e) => Some(e),
        }
    }
}

} // verus!
