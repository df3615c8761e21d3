use harmony::reply::{now_playing_reply, plan_skip, queued_reply, skip_reply, SkipOutcome};
use harmony::session::{
    decide_finish, plan_session, FinishAction, LoopOutcome, SessionOutcome, SessionStep,
    SessionTable,
};
use harmony::track::TrackRecord;

const R1: u64 = 1;
const C1: u64 = 11;

/// A stand-in for the media engine: the rooms it serves, one room's queue,
/// and counts of the calls made on it.
struct FakeEngine {
    active: Vec<u64>,
    queue: Vec<TrackRecord>,
    joins: usize,
    leaves: usize,
    bindings: usize,
}

impl FakeEngine {
    fn new() -> FakeEngine {
        FakeEngine { active: Vec::new(), queue: Vec::new(), joins: 0, leaves: 0, bindings: 0 }
    }

    fn is_active(&self, room: u64) -> bool {
        self.active.contains(&room)
    }

    /// Runs the session steps the way a play command does.
    fn ensure_session(&mut self, table: &mut SessionTable, room: u64, channel: Option<u64>) -> SessionOutcome {
        match plan_session(self.is_active(room), channel) {
            SessionStep::AlreadyActive => SessionOutcome::AlreadyActive,
            SessionStep::NoVoiceChannel => SessionOutcome::NoVoiceChannel,
            SessionStep::Join(_) => {
                self.joins += 1;
                self.active.push(room);
                let outcome = table.complete_join(room, Ok(()));
                if outcome == SessionOutcome::Joined {
                    self.bindings += 1;
                }
                outcome
            }
        }
    }

    /// The current item finishes; the handler decides and the action is done.
    fn finish(&mut self, table: &mut SessionTable, room: u64) -> &'static str {
        let finished = self.queue.remove(0);
        match table.finish_action(room, &finished, self.queue.is_empty()) {
            FinishAction::Requeue(rec) => {
                self.queue.push(rec);
                "requeue"
            }
            FinishAction::Leave => {
                self.leaves += 1;
                self.active.retain(|r| *r != room);
                assert_eq!(table.complete_leave(room, Ok(())), None);
                "leave"
            }
            FinishAction::Advance => "advance",
        }
    }
}

fn record(title: &str) -> TrackRecord {
    TrackRecord::new(Some(title.to_string()), format!("query for {title}"))
}

#[test]
fn session_entry_matches_engine_connection() {
    let mut table = SessionTable::new();
    let mut engine = FakeEngine::new();
    assert_eq!(table.has_session(R1), engine.is_active(R1));
    engine.ensure_session(&mut table, R1, Some(C1));
    assert_eq!(table.has_session(R1), engine.is_active(R1));
    assert!(table.has_session(R1));
    engine.queue.push(record("a"));
    engine.queue.push(record("b"));
    assert_eq!(engine.finish(&mut table, R1), "advance");
    assert_eq!(table.has_session(R1), engine.is_active(R1));
    assert_eq!(engine.finish(&mut table, R1), "leave");
    assert_eq!(table.has_session(R1), engine.is_active(R1));
    assert!(!table.has_session(R1));
}

#[test]
fn failed_join_creates_no_entry() {
    let mut table = SessionTable::new();
    assert_eq!(plan_session(false, Some(C1)), SessionStep::Join(C1));
    let outcome = table.complete_join(R1, Err("timed out".to_string()));
    assert_eq!(outcome, SessionOutcome::JoinFailed("timed out".to_string()));
    assert!(!table.has_session(R1));
}

#[test]
fn no_voice_channel_makes_no_join() {
    let mut table = SessionTable::new();
    let mut engine = FakeEngine::new();
    assert_eq!(engine.ensure_session(&mut table, R1, None), SessionOutcome::NoVoiceChannel);
    assert_eq!(engine.joins, 0);
    assert!(!table.has_session(R1));
}

#[test]
fn active_room_is_left_alone_even_without_channel() {
    assert_eq!(plan_session(true, None), SessionStep::AlreadyActive);
    assert_eq!(plan_session(true, Some(C1)), SessionStep::AlreadyActive);
}

#[test]
fn ensure_session_twice_binds_once() {
    let mut table = SessionTable::new();
    let mut engine = FakeEngine::new();
    assert_eq!(engine.ensure_session(&mut table, R1, Some(C1)), SessionOutcome::Joined);
    assert_eq!(engine.ensure_session(&mut table, R1, Some(C1 + 1)), SessionOutcome::AlreadyActive);
    assert_eq!(engine.joins, 1);
    assert_eq!(engine.bindings, 1);
    assert_eq!(table.loop_enabled(R1), Some(false));
}

#[test]
fn looping_single_item_never_empties() {
    let mut table = SessionTable::new();
    let mut engine = FakeEngine::new();
    engine.ensure_session(&mut table, R1, Some(C1));
    assert_eq!(table.toggle_loop(R1), LoopOutcome::Looping(true));
    engine.queue.push(record("only"));
    for _ in 0..5 {
        assert_eq!(engine.finish(&mut table, R1), "requeue");
        assert_eq!(engine.queue.len(), 1);
        assert_eq!(engine.queue[0].title.text, "only");
        assert_eq!(engine.queue[0].source.query, "query for only");
    }
    assert_eq!(engine.leaves, 0);
    assert!(table.has_session(R1));
}

#[test]
fn empty_queue_without_loop_leaves() {
    let mut table = SessionTable::new();
    let mut engine = FakeEngine::new();
    engine.ensure_session(&mut table, R1, Some(C1));
    engine.queue.push(record("last"));
    assert_eq!(engine.finish(&mut table, R1), "leave");
    assert_eq!(engine.leaves, 1);
    assert!(!table.has_session(R1));
    assert!(!engine.is_active(R1));
}

#[test]
fn failed_leave_still_drops_entry() {
    let mut table = SessionTable::new();
    table.complete_join(R1, Ok(()));
    let logged = table.complete_leave(R1, Err("gone".to_string()));
    assert_eq!(logged, Some("gone".to_string()));
    assert!(!table.has_session(R1));
}

#[test]
fn toggle_during_finish_applies_to_next_finish() {
    let mut table = SessionTable::new();
    table.complete_join(R1, Ok(()));
    let finished = record("a");
    // The in-flight decision read looping off.
    let looping = table.loop_enabled(R1).unwrap();
    assert!(!looping);
    assert_eq!(table.toggle_loop(R1), LoopOutcome::Looping(true));
    let decided = decide_finish(looping, false, &finished);
    assert!(matches!(decided, FinishAction::Advance));
    let decided = decide_finish(looping, true, &finished);
    assert!(matches!(decided, FinishAction::Leave));
    // The next finish sees the toggle.
    match table.finish_action(R1, &record("b"), true) {
        FinishAction::Requeue(rec) => assert_eq!(rec.title.text, "b"),
        _ => panic!("expected a requeue"),
    }
}

#[test]
fn toggle_without_session() {
    let mut table = SessionTable::new();
    assert_eq!(table.toggle_loop(R1), LoopOutcome::NoSession);
    assert!(!table.has_session(R1));
    table.complete_join(R1, Ok(()));
    assert_eq!(table.toggle_loop(R1), LoopOutcome::Looping(true));
    assert_eq!(table.toggle_loop(R1), LoopOutcome::Looping(false));
    assert_eq!(table.loop_enabled(R1), Some(false));
}

#[test]
fn finish_without_session_counts_as_not_looping() {
    let table = SessionTable::new();
    assert!(matches!(table.finish_action(R1, &record("a"), false), FinishAction::Advance));
}

#[test]
fn play_skip_finish_then_no_session() {
    let mut table = SessionTable::new();
    let mut engine = FakeEngine::new();
    // play("some song"): the resolver gave the title "Song A".
    let rec = TrackRecord::new(Some("Song A".to_string()), "some song".to_string());
    assert_eq!(engine.ensure_session(&mut table, R1, Some(C1)), SessionOutcome::Joined);
    assert_eq!(queued_reply(&rec.title.text), "Queued **Song A**");
    engine.queue.push(rec);
    assert!(table.has_session(R1));
    assert_eq!(engine.queue.len(), 1);
    assert_eq!(engine.queue[0].title.text, "Song A");
    // skip
    let step = plan_skip(table.has_session(R1), engine.queue.len());
    assert_eq!(step, SkipOutcome::Skip);
    assert_eq!(skip_reply(&step), "Skipped");
    // The skipped item's finish event, with looping off.
    assert_eq!(engine.finish(&mut table, R1), "leave");
    assert_eq!(engine.leaves, 1);
    assert!(!table.has_session(R1));
    assert_eq!(now_playing_reply(table.has_session(R1), None), "Not in a call");
}

#[test]
fn racing_joins_bind_once_and_keep_loop_flag() {
    let mut table = SessionTable::new();
    // Both play commands saw no connection before either join returned.
    assert_eq!(plan_session(false, Some(C1)), SessionStep::Join(C1));
    assert_eq!(plan_session(false, Some(C1)), SessionStep::Join(C1));
    assert_eq!(table.complete_join(R1, Ok(())), SessionOutcome::Joined);
    assert_eq!(table.toggle_loop(R1), LoopOutcome::Looping(true));
    assert_eq!(table.complete_join(R1, Ok(())), SessionOutcome::AlreadyActive);
    assert_eq!(table.loop_enabled(R1), Some(true));
}

#[test]
fn failed_join_keeps_existing_session() {
    let mut table = SessionTable::new();
    table.complete_join(R1, Ok(()));
    table.toggle_loop(R1);
    let outcome = table.complete_join(R1, Err("busy".to_string()));
    assert_eq!(outcome, SessionOutcome::JoinFailed("busy".to_string()));
    assert_eq!(table.loop_enabled(R1), Some(true));
}
