//! Laws of the session lifecycle, stated over the same spec functions that
//! the table's methods and the finish decision promise, together with a
//! model of what the media engine does with each action.
use crate::session::{
    after_join, after_leave, after_toggle, finish_decision, fresh_session, loop_flag,
    opens_session, session_step, FinishAction, RoomSession, SessionStep,
};
use crate::track::TrackRecord;
use vstd::prelude::*;

verus! {

/// One thing that happens to a room, as the core and the engine see it.
pub enum RoomEvent {
    /// A member asks for a session from `channel`; if the engine is asked to
    /// join, `join_ok` says whether it succeeded.
    Ensure { room: u64, channel: Option<u64>, join_ok: bool },
    /// A member toggles the loop flag.
    Toggle { room: u64 },
    /// The room's current item finished; `queue_empty` says whether the
    /// engine's queue was empty once it left.
    Finish { room: u64, finished: TrackRecord, queue_empty: bool },
}

/// The session table after an event.
pub open spec fn table_after(t: Map<u64, RoomSession>, active: Set<u64>, e: RoomEvent) -> Map<
    u64,
    RoomSession,
> {
    match e {
        RoomEvent::Ensure { room, channel, join_ok } => match session_step(
            active.contains(room),
            channel,
        ) {
            SessionStep::Join(_) => after_join(t, room, join_ok),
            _ => t,
        },
        RoomEvent::Toggle { room } => after_toggle(t, room),
        RoomEvent::Finish { room, finished, queue_empty } => match finish_decision(
            loop_flag(t, room),
            queue_empty,
            finished,
        ) {
            FinishAction::Leave => after_leave(t, room),
            _ => t,
        },
    }
}

/// The rooms the engine holds a connection for after an event: a successful
/// join adds the room, and a teardown ends its connection.
pub open spec fn active_after(t: Map<u64, RoomSession>, active: Set<u64>, e: RoomEvent) -> Set<
    u64,
> {
    match e {
        RoomEvent::Ensure { room, channel, join_ok } => match session_step(
            active.contains(room),
            channel,
        ) {
            SessionStep::Join(_) => if join_ok {
                active.insert(room)
            } else {
                active
            },
            _ => active,
        },
        RoomEvent::Toggle { room } => active,
        RoomEvent::Finish { room, finished, queue_empty } => match finish_decision(
            loop_flag(t, room),
            queue_empty,
            finished,
        ) {
            FinishAction::Leave => active.remove(room),
            _ => active,
        },
    }
}

/// The table after a run of events.
pub open spec fn table_after_all(t: Map<u64, RoomSession>, active: Set<u64>, es: Seq<RoomEvent>) -> Map<
    u64,
    RoomSession,
>
    decreases es.len(),
{
    if es.len() == 0 {
        t
    } else {
        table_after_all(
            table_after(t, active, es[0]),
            active_after(t, active, es[0]),
            es.drop_first(),
        )
    }
}

/// The engine's live rooms after a run of events.
pub open spec fn active_after_all(t: Map<u64, RoomSession>, active: Set<u64>, es: Seq<RoomEvent>) -> Set<
    u64,
>
    decreases es.len(),
{
    if es.len() == 0 {
        active
    } else {
        active_after_all(
            table_after(t, active, es[0]),
            active_after(t, active, es[0]),
            es.drop_first(),
        )
    }
}

/// A room has a session entry exactly when the engine holds a connection for
/// it, and every event keeps it so.
pub proof fn lemma_session_iff_connection(t: Map<u64, RoomSession>, active: Set<u64>, e: RoomEvent)
    requires
        t.dom() == active,
    ensures
        table_after(t, active, e).dom() == active_after(t, active, e),
{
    match e {
        RoomEvent::Ensure { room, channel, join_ok } => {
            assert(after_join(t, room, true).dom() =~= active.insert(room));
        },
        RoomEvent::Toggle { room } => {
            assert(after_toggle(t, room).dom() =~= t.dom());
        },
        RoomEvent::Finish { room, finished, queue_empty } => {
            assert(after_leave(t, room).dom() =~= active.remove(room));
        },
    }
}

/// A room has a session entry exactly when the engine holds a connection for
/// it, after any run of joins, toggles, finishes and teardowns.
pub proof fn lemma_session_iff_connection_all(
    t: Map<u64, RoomSession>,
    active: Set<u64>,
    es: Seq<RoomEvent>,
)
    requires
        t.dom() == active,
    ensures
        table_after_all(t, active, es).dom() == active_after_all(t, active, es),
    decreases es.len(),
{
    if es.len() > 0 {
        lemma_session_iff_connection(t, active, es[0]);
        lemma_session_iff_connection_all(
            table_after(t, active, es[0]),
            active_after(t, active, es[0]),
            es.drop_first(),
        );
    }
}

/// Whether an event made the caller bind a finish handler: exactly a join
/// that succeeded on a room without a session entry.
pub open spec fn binds_handler(t: Map<u64, RoomSession>, active: Set<u64>, e: RoomEvent) -> bool {
    match e {
        RoomEvent::Ensure { room, channel, join_ok } => match session_step(
            active.contains(room),
            channel,
        ) {
            SessionStep::Join(_) => opens_session(t, room, join_ok),
            _ => false,
        },
        _ => false,
    }
}

/// Two session requests in a row for a room without a connection, from a
/// member in a voice channel, bind one finish handler and leave one entry
/// with looping off; the second request changes nothing.
pub proof fn lemma_ensure_session_twice(
    t: Map<u64, RoomSession>,
    active: Set<u64>,
    room: u64,
    channel: u64,
)
    requires
        t.dom() == active,
        !active.contains(room),
    ensures
        ({
            let e = RoomEvent::Ensure { room, channel: Some(channel), join_ok: true };
            let t1 = table_after(t, active, e);
            let a1 = active_after(t, active, e);
            let t2 = table_after(t1, a1, e);
            &&& binds_handler(t, active, e)
            &&& !binds_handler(t1, a1, e)
            &&& t2 == t1
            &&& active_after(t1, a1, e) == a1
            &&& t2 == t.insert(room, fresh_session())
        }),
{
}

/// Two session requests that race: both saw no connection and asked the
/// engine to join, and both joins succeeded. The first completion opens the
/// session and binds the finish handler. Whatever happened to the table
/// before the second completion (`between`, such as a loop toggle), as long
/// as the room's entry is still there, the second completion binds nothing
/// and leaves the table as it found it, loop flag included.
pub proof fn lemma_racing_joins_bind_once(
    t: Map<u64, RoomSession>,
    room: u64,
    between: Map<u64, RoomSession>,
)
    requires
        !t.contains_key(room),
        between.contains_key(room),
    ensures
        opens_session(t, room, true),
        !opens_session(between, room, true),
        after_join(t, room, true) == t.insert(room, fresh_session()),
        after_join(between, room, true) == between,
{
}

/// The engine's queue after its current item finishes: the item leaves the
/// front, and a requeued record goes to the back.
pub open spec fn queue_after_finish(t: Map<u64, RoomSession>, room: u64, q: Seq<TrackRecord>) -> Seq<
    TrackRecord,
>
    recommends
        q.len() > 0,
{
    let rest = q.drop_first();
    match finish_decision(loop_flag(t, room), rest.len() == 0, q[0]) {
        FinishAction::Requeue(r) => rest.push(r),
        _ => rest,
    }
}

/// The queue after `n` finish events in a row.
pub open spec fn queue_after_finishes(
    t: Map<u64, RoomSession>,
    room: u64,
    q: Seq<TrackRecord>,
    n: nat,
) -> Seq<TrackRecord>
    decreases n,
{
    if n == 0 {
        q
    } else {
        queue_after_finish(t, room, queue_after_finishes(t, room, q, (n - 1) as nat))
    }
}

/// Whether the finish of the queue's current item tears the session down.
pub open spec fn finish_tears_down(t: Map<u64, RoomSession>, room: u64, q: Seq<TrackRecord>) -> bool {
    finish_decision(loop_flag(t, room), q.drop_first().len() == 0, q[0]) is Leave
}

/// With looping on and one item queued, any number of finish events keeps
/// exactly that item queued, and none of them tears the session down.
pub proof fn lemma_loop_keeps_single_item(
    t: Map<u64, RoomSession>,
    room: u64,
    q: Seq<TrackRecord>,
    n: nat,
)
    requires
        loop_flag(t, room),
        q.len() == 1,
    ensures
        queue_after_finishes(t, room, q, n) == q,
        forall|k: nat|
            k < n ==> !finish_tears_down(t, room, #[trigger] queue_after_finishes(t, room, q, k)),
    decreases n,
{
    assert(queue_after_finish(t, room, q) =~= q);
    if n > 0 {
        lemma_loop_keeps_single_item(t, room, q, (n - 1) as nat);
    }
}

/// With looping off, a finish that empties the queue asks the engine to
/// leave, and the room's entry is removed.
pub proof fn lemma_leave_on_empty(t: Map<u64, RoomSession>, room: u64, finished: TrackRecord)
    requires
        !loop_flag(t, room),
    ensures
        finish_decision(loop_flag(t, room), true, finished) is Leave,
        !table_after(
            t,
            t.dom(),
            RoomEvent::Finish { room, finished, queue_empty: true },
        ).contains_key(room),
{
}

/// A finish decision that read looping off stays a non-loop decision even if
/// a toggle turns looping on right after the read; the toggle governs the
/// next finish, which requeues.
pub proof fn lemma_toggle_applies_to_next_finish(
    t: Map<u64, RoomSession>,
    room: u64,
    finished: TrackRecord,
    queue_empty: bool,
    next: TrackRecord,
    next_queue_empty: bool,
)
    requires
        t.contains_key(room),
        !t[room].loop_enabled,
    ensures
        ({
            let decided = finish_decision(loop_flag(t, room), queue_empty, finished);
            let toggled = after_toggle(t, room);
            &&& !(decided is Requeue)
            &&& loop_flag(toggled, room)
            &&& finish_decision(loop_flag(toggled, room), next_queue_empty, next)
                == FinishAction::Requeue(next)
        }),
{
}

} // verus!
