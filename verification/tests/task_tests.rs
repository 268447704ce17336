use command_bridge::task::{
    planned_events, progress_event, task_id_for, BackupPayload, Phase, TaskState,
};
use command_bridge::text::{decimal_text, ends_with};

fn progresses(events: &[BackupPayload]) -> Vec<u8> {
    events.iter().map(|e| e.progress).collect()
}

#[test]
fn planned_events_follow_the_phase_order() {
    let events = planned_events("OMEGA-1");
    assert_eq!(events.len(), 20);
    assert_eq!(events[0].phase, Phase::Init);
    assert_eq!(events[1].phase, Phase::Snapshot);
    for e in &events[2..18] {
        assert_eq!(e.phase, Phase::Encrypting);
    }
    assert_eq!(events[18].phase, Phase::Finalizing);
    assert_eq!(events[19].phase, Phase::Done);
}

#[test]
fn planned_events_progress_never_falls_and_ends_at_100() {
    let events = planned_events("OMEGA-1");
    let got = progresses(&events);
    let expected: Vec<u8> =
        vec![0, 10, 15, 20, 25, 30, 35, 40, 45, 50, 55, 60, 65, 70, 75, 80, 85, 90, 95, 100];
    assert_eq!(got, expected);
    for pair in got.windows(2) {
        assert!(pair[0] <= pair[1]);
    }
    assert_eq!(events.last().unwrap().progress, 100);
    assert_eq!(events.last().unwrap().phase, Phase::Done);
}

#[test]
fn every_event_carries_the_task_id() {
    for e in planned_events("OMEGA-42") {
        assert_eq!(e.task_id, "OMEGA-42");
    }
}

#[test]
fn start_task_scenario_ends_with_done() {
    let id = task_id_for(1_700_000_000_000);
    let events = planned_events(&id);
    let last = events.last().unwrap();
    assert_eq!(last.task_id, id);
    assert_eq!(last.phase.name(), "done");
    assert_eq!(last.progress, 100);
    assert_eq!(last.speed, "0 MB/s");
    assert_eq!(last.eta, "0s");
    assert_eq!(last.msg, "Backup secured successfully.");
}

#[test]
fn fixed_phase_payloads() {
    let init = progress_event("t", Phase::Init, 0);
    assert_eq!(init.eta, "CALC...");
    assert_eq!(init.msg, "Initializing Omega Engine...");
    assert_eq!(init.speed, "45 MB/s");
    let snap = progress_event("t", Phase::Snapshot, 10);
    assert_eq!(snap.eta, "15s");
    assert_eq!(snap.msg, "Taking atomic snapshot (VACUUM INTO)...");
    let fin = progress_event("t", Phase::Finalizing, 95);
    assert_eq!(fin.eta, "1-2s");
    assert_eq!(fin.msg, "Verifying Poly1305 MAC...");
    assert_eq!(fin.speed, "45 MB/s");
}

#[test]
fn encrypting_payload_formulas() {
    let e = progress_event("t", Phase::Encrypting, 15);
    assert_eq!(e.eta, "7-9s");
    assert_eq!(e.msg, "Encrypting chunk #15...");
    assert_eq!(e.speed, "45 MB/s");
    let e = progress_event("t", Phase::Encrypting, 90);
    assert_eq!(e.eta, "0-0s");
    assert_eq!(e.msg, "Encrypting chunk #90...");
    let e = progress_event("t", Phase::Encrypting, 50);
    assert_eq!(e.eta, "4-5s");
}

#[test]
fn phase_names() {
    assert_eq!(Phase::Init.name(), "init");
    assert_eq!(Phase::Snapshot.name(), "snapshot");
    assert_eq!(Phase::Encrypting.name(), "encrypting");
    assert_eq!(Phase::Finalizing.name(), "finalizing");
    assert_eq!(Phase::Done.name(), "done");
}

#[test]
fn advance_walks_the_state_machine() {
    let s = TaskState::start();
    assert_eq!(s, TaskState::Init);
    let step = s.advance("t");
    assert_eq!(step.next, TaskState::Snapshot);
    assert_eq!(step.pause_ms, 800);
    assert_eq!(step.event.unwrap().phase, Phase::Init);
    let step = step.next.advance("t");
    assert_eq!(step.next, TaskState::Encrypting(11));
    assert_eq!(step.pause_ms, 1000);
    let step = step.next.advance("t");
    assert_eq!(step.next, TaskState::Encrypting(12));
    assert_eq!(step.pause_ms, 50);
    assert!(step.event.is_none());
    let step = TaskState::Encrypting(90).advance("t");
    assert_eq!(step.next, TaskState::Finalizing);
    assert_eq!(step.event.unwrap().progress, 90);
    let step = TaskState::Finalizing.advance("t");
    assert_eq!(step.next, TaskState::Done);
    assert_eq!(step.pause_ms, 800);
    let step = TaskState::Done.advance("t");
    assert_eq!(step.next, TaskState::Finished);
    assert_eq!(step.pause_ms, 0);
    assert_eq!(step.event.unwrap().progress, 100);
}

#[test]
fn finished_is_terminal() {
    assert!(TaskState::Finished.is_finished());
    assert!(!TaskState::Done.is_finished());
    let step = TaskState::Finished.advance("t");
    assert_eq!(step.next, TaskState::Finished);
    assert!(step.event.is_none());
    assert_eq!(step.pause_ms, 0);
}

#[test]
fn stepping_from_start_takes_84_steps() {
    let mut state = TaskState::start();
    let mut steps = 0;
    let mut pause_total: u64 = 0;
    while !state.is_finished() {
        let step = state.advance("t");
        pause_total += step.pause_ms;
        state = step.next;
        steps += 1;
    }
    assert_eq!(steps, 84);
    assert_eq!(pause_total, 800 + 1000 + 80 * 50 + 800);
}

#[test]
fn task_id_is_prefix_and_decimal_instant() {
    assert_eq!(task_id_for(0), "OMEGA-0");
    assert_eq!(task_id_for(1_700_000_000_123), "OMEGA-1700000000123");
    assert_eq!(
        task_id_for(u128::MAX),
        "OMEGA-340282366920938463463374607431768211455"
    );
}

#[test]
fn task_ids_of_different_instants_differ() {
    assert_ne!(task_id_for(1_700_000_000_000), task_id_for(1_700_000_000_001));
    assert_ne!(task_id_for(1), task_id_for(10));
    assert_ne!(task_id_for(0), task_id_for(100));
}

#[test]
fn decimal_text_matches_std() {
    for n in [0u128, 7, 9, 10, 11, 99, 100, 101, 12345, 1 << 64, u128::MAX] {
        assert_eq!(decimal_text(n), n.to_string());
    }
}

#[test]
fn ends_with_compares_the_last_characters() {
    assert!(ends_with("backup.cvbak", ".cvbak"));
    assert!(ends_with(".cvbak", ".cvbak"));
    assert!(ends_with("anything", ""));
    assert!(!ends_with("cvbak", ".cvbak"));
    assert!(!ends_with("backup.cvbak.txt", ".cvbak"));
    assert!(!ends_with("backup.CVBAK", ".cvbak"));
    assert!(ends_with("d\u{e9}j\u{e0}.cvbak", ".cvbak"));
    assert!(!ends_with("", "x"));
}

#[test]
fn publish_without_subscribers_returns_normally() {
    let event = progress_event("t", Phase::Init, 0);
    let channel = command_bridge::task::publish(7u8, event, &|channel: u8, _e: BackupPayload| {
        (channel, Err("no subscriber".to_string()))
    });
    assert_eq!(channel, 7);
}

#[test]
fn publish_hands_the_payload_to_the_channel() {
    let event = progress_event("t", Phase::Encrypting, 35);
    let log = command_bridge::task::publish(
        Vec::new(),
        event,
        &|mut log: Vec<u8>, e: BackupPayload| {
            log.push(e.progress);
            (log, Ok(()))
        },
    );
    assert_eq!(log, vec![35]);
    assert_eq!(command_bridge::task::progress_channel(), "backup_progress");
}

#[test]
fn worker_publishes_every_planned_event_in_order() {
    let waited = std::cell::RefCell::new(Vec::new());
    let seen = command_bridge::task::run_worker(
        "OMEGA-9",
        Vec::new(),
        |mut log: Vec<BackupPayload>, e: BackupPayload| {
            log.push(e);
            (log, Ok(()))
        },
        |millis: u64| waited.borrow_mut().push(millis),
    );
    let planned = planned_events("OMEGA-9");
    assert_eq!(seen.len(), 20);
    assert_eq!(seen.len(), planned.len());
    for (a, b) in seen.iter().zip(planned.iter()) {
        assert_eq!(a.task_id, b.task_id);
        assert_eq!(a.phase, b.phase);
        assert_eq!(a.progress, b.progress);
        assert_eq!(a.speed, b.speed);
        assert_eq!(a.eta, b.eta);
        assert_eq!(a.msg, b.msg);
    }
    let waited = waited.into_inner();
    assert_eq!(waited.len(), 83);
    assert_eq!(waited[0], 800);
    assert_eq!(waited[1], 1000);
    assert!(waited[2..82].iter().all(|ms| *ms == 50));
    assert_eq!(waited[82], 800);
}

#[test]
fn worker_runs_to_completion_without_subscribers() {
    let handed = command_bridge::task::run_worker(
        "OMEGA-9",
        0usize,
        |count: usize, _e: BackupPayload| (count + 1, Err("no subscriber".to_string())),
        |_millis: u64| {},
    );
    assert_eq!(handed, 20);
}
