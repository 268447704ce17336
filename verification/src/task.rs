//! The background task: its identifier, the fixed sequence of phases that a
//! worker runs through, and the progress payload it emits at each of them.
//!
//! The library decides; the caller spawns the worker, sleeps and emits. A
//! worker starts in `TaskState::Init` and calls `TaskState::advance` until the
//! state is `TaskState::Finished`.

use vstd::prelude::*;
use vstd::string::*;
use crate::text::{decimal_digits, decimal_text, lemma_decimal_digits_injective};

verus! {

/// The phase that a progress payload reports.
#[derive(Clone, Copy, PartialEq, Eq, Structural, Debug)]
pub enum Phase {
    Init,
    Snapshot,
    Encrypting,
    Finalizing,
    Done,
}

impl Phase {
    /// The name under which the phase is published.
    pub open spec fn name_spec(self) -> Seq<char> {
        match self {
            Phase::Init => "init"@,
            Phase::Snapshot => "snapshot"@,
            Phase::Encrypting => "encrypting"@,
            Phase::Finalizing => "finalizing"@,
            Phase::Done => "done"@,
        }
    }

    pub fn name(self) -> (s: &'static str)
        ensures
            s@ == self.name_spec(),
    {
        match self {
            Phase::Init => "init",
            Phase::Snapshot => "snapshot",
            Phase::Encrypting => "encrypting",
            Phase::Finalizing => "finalizing",
            Phase::Done => "done",
        }
    }
}

/// One progress payload of a task. `progress` is a percentage, 0 to 100.
#[derive(Clone, Debug)]
pub struct BackupPayload {
    pub task_id: String,
    pub phase: Phase,
    pub progress: u8,
    pub speed: String,
    pub eta: String,
    pub msg: String,
}

/// What a payload holds, as plain values.
pub struct PayloadView {
    pub task_id: Seq<char>,
    pub phase: Phase,
    pub progress: nat,
    pub speed: Seq<char>,
    pub eta: Seq<char>,
    pub msg: Seq<char>,
}

impl View for BackupPayload {
    type V = PayloadView;

    open spec fn view(&self) -> PayloadView {
        PayloadView {
            task_id: self.task_id@,
            phase: self.phase,
            progress: self.progress as nat,
            speed: self.speed@,
            eta: self.eta@,
            msg: self.msg@,
        }
    }
}

/// The chunks still to encrypt when `progress` percent are done: encryption
/// ends at 90 percent.
pub open spec fn chunks_left(progress: nat) -> nat {
    if progress <= 90 {
        (90 - progress) as nat
    } else {
        0
    }
}

/// The throughput shown: a fixed figure while the task runs, none once it is
/// complete.
pub open spec fn speed_spec(progress: nat) -> Seq<char> {
    if progress < 100 {
        "45 MB/s"@
    } else {
        "0 MB/s"@
    }
}

/// The estimate of the time left that is shown in a phase.
pub open spec fn eta_spec(phase: Phase, progress: nat) -> Seq<char> {
    match phase {
        Phase::Init => "CALC..."@,
        Phase::Snapshot => "15s"@,
        Phase::Encrypting => decimal_digits(chunks_left(progress) / 10) + "-"@ + decimal_digits(
            chunks_left(progress) / 8,
        ) + "s"@,
        Phase::Finalizing => "1-2s"@,
        Phase::Done => "0s"@,
    }
}

/// The message shown in a phase.
pub open spec fn message_spec(phase: Phase, progress: nat) -> Seq<char> {
    match phase {
        Phase::Init => "Initializing Omega Engine..."@,
        Phase::Snapshot => "Taking atomic snapshot (VACUUM INTO)..."@,
        Phase::Encrypting => "Encrypting chunk #"@ + decimal_digits(progress) + "..."@,
        Phase::Finalizing => "Verifying Poly1305 MAC..."@,
        Phase::Done => "Backup secured successfully."@,
    }
}

/// The payload of a task at a phase and a percentage.
pub open spec fn payload_spec(task_id: Seq<char>, phase: Phase, progress: nat) -> PayloadView {
    PayloadView {
        task_id,
        phase,
        progress,
        speed: speed_spec(progress),
        eta: eta_spec(phase, progress),
        msg: message_spec(phase, progress),
    }
}

/// Builds the payload that a task publishes at a phase and a percentage, 0 to
/// 100.
pub fn progress_event(task_id: &str, phase: Phase, progress: u8) -> (p: BackupPayload)
    requires
        progress <= 100,
    ensures
        p@ == payload_spec(task_id@, phase, progress as nat),
        p.progress <= 100,
{
    let speed = if progress < 100 {
        "45 MB/s"
    } else {
        "0 MB/s"
    };
    let left: u8 = if progress <= 90 {
        90 - progress
    } else {
        0
    };
    let eta = match phase {
        Phase::Init => "CALC...".to_owned(),
        Phase::Snapshot => "15s".to_owned(),
        Phase::Encrypting => {
            let low = decimal_text((left / 10) as u128);
            let high = decimal_text((left / 8) as u128);
            low.concat("-").concat(high.as_str()).concat("s")
        },
        Phase::Finalizing => "1-2s".to_owned(),
        Phase::Done => "0s".to_owned(),
    };
    let msg = match phase {
        Phase::Init => "Initializing Omega Engine...".to_owned(),
        Phase::Snapshot => "Taking atomic snapshot (VACUUM INTO)...".to_owned(),
        Phase::Encrypting => {
            let chunk = decimal_text(progress as u128);
            "Encrypting chunk #".to_owned().concat(chunk.as_str()).concat("...")
        },
        Phase::Finalizing => "Verifying Poly1305 MAC...".to_owned(),
        Phase::Done => "Backup secured successfully.".to_owned(),
    };
    BackupPayload {
        task_id: task_id.to_owned(),
        phase,
        progress,
        speed: speed.to_owned(),
        eta,
        msg,
    }
}

/// Where a worker stands: the step it takes next. `Encrypting` holds the
/// chunk, 11 to 90, that the next step works on; `Finished` is terminal.
#[derive(Clone, Copy, PartialEq, Eq, Structural, Debug)]
pub enum TaskState {
    Init,
    Snapshot,
    Encrypting(u8),
    Finalizing,
    Done,
    Finished,
}

/// What one step of a worker asks of its caller: publish `event` if there is
/// one, then wait `pause_ms` milliseconds, then go on from `next`.
pub struct Step {
    pub next: TaskState,
    pub event: Option<BackupPayload>,
    pub pause_ms: u64,
}

/// The view of a payload that may be absent.
pub open spec fn view_of(event: Option<BackupPayload>) -> Option<PayloadView> {
    match event {
        Some(p) => Some(p@),
        None => None,
    }
}

impl TaskState {
    /// The chunk of an `Encrypting` state lies in 11 to 90.
    pub open spec fn wf(self) -> bool {
        match self {
            TaskState::Encrypting(chunk) => 11 <= chunk <= 90,
            _ => true,
        }
    }

    /// The state after the next step.
    pub open spec fn successor(self) -> TaskState {
        match self {
            TaskState::Init => TaskState::Snapshot,
            TaskState::Snapshot => TaskState::Encrypting(11),
            TaskState::Encrypting(chunk) => if chunk < 90 {
                TaskState::Encrypting((chunk + 1) as u8)
            } else {
                TaskState::Finalizing
            },
            TaskState::Finalizing => TaskState::Done,
            TaskState::Done => TaskState::Finished,
            TaskState::Finished => TaskState::Finished,
        }
    }

    /// The phase and percentage that the next step publishes, if it publishes:
    /// while encrypting, only every fifth chunk is reported.
    pub open spec fn emits(self) -> Option<(Phase, nat)> {
        match self {
            TaskState::Init => Some((Phase::Init, 0nat)),
            TaskState::Snapshot => Some((Phase::Snapshot, 10nat)),
            TaskState::Encrypting(chunk) => if chunk % 5 == 0 {
                Some((Phase::Encrypting, chunk as nat))
            } else {
                None
            },
            TaskState::Finalizing => Some((Phase::Finalizing, 95nat)),
            TaskState::Done => Some((Phase::Done, 100nat)),
            TaskState::Finished => None,
        }
    }

    /// The payload that the next step publishes for a task, if it publishes.
    pub open spec fn event_spec(self, task_id: Seq<char>) -> Option<PayloadView> {
        match self.emits() {
            Some(e) => Some(payload_spec(task_id, e.0, e.1)),
            None => None,
        }
    }

    /// The milliseconds to wait after the next step.
    pub open spec fn pause(self) -> nat {
        match self {
            TaskState::Init => 800,
            TaskState::Snapshot => 1000,
            TaskState::Encrypting(_) => 50,
            TaskState::Finalizing => 800,
            TaskState::Done => 0,
            TaskState::Finished => 0,
        }
    }

    /// The number of steps until `Finished`.
    pub open spec fn steps_left(self) -> nat {
        match self {
            TaskState::Init => 84,
            TaskState::Snapshot => 83,
            TaskState::Encrypting(chunk) => if chunk <= 90 {
                (93 - chunk) as nat
            } else {
                3
            },
            TaskState::Finalizing => 2,
            TaskState::Done => 1,
            TaskState::Finished => 0,
        }
    }

    /// The state in which every worker starts.
    pub fn start() -> (s: TaskState)
        ensures
            s == TaskState::Init,
    {
        TaskState::Init
    }

    /// Whether the worker is through: nothing is published after that.
    pub fn is_finished(self) -> (b: bool)
        ensures
            b == (self == TaskState::Finished),
    {
        match self {
            TaskState::Finished => true,
            _ => false,
        }
    }

    /// Takes one step for the task `task_id`. From `Finished` the step
    /// publishes nothing, waits for nothing and stays in `Finished`.
    pub fn advance(self, task_id: &str) -> (step: Step)
        requires
            self.wf(),
        ensures
            step.next == self.successor(),
            step.next.wf(),
            step.next.steps_left() < self.steps_left() || self == TaskState::Finished,
            view_of(step.event) == self.event_spec(task_id@),
            step.pause_ms == self.pause(),
    {
        match self {
            TaskState::Init => Step {
                next: TaskState::Snapshot,
                event: Some(progress_event(task_id, Phase::Init, 0)),
                pause_ms: 800,
            },
            TaskState::Snapshot => Step {
                next: TaskState::Encrypting(11),
                event: Some(progress_event(task_id, Phase::Snapshot, 10)),
                pause_ms: 1000,
            },
            TaskState::Encrypting(chunk) => {
                let event = if chunk % 5 == 0 {
                    Some(progress_event(task_id, Phase::Encrypting, chunk))
                } else {
                    None
                };
                let next = if chunk < 90 {
                    TaskState::Encrypting(chunk + 1)
                } else {
                    TaskState::Finalizing
                };
                Step { next, event, pause_ms: 50 }
            },
            TaskState::Finalizing => Step {
                next: TaskState::Done,
                event: Some(progress_event(task_id, Phase::Finalizing, 95)),
                pause_ms: 800,
            },
            TaskState::Done => Step {
                next: TaskState::Finished,
                event: Some(progress_event(task_id, Phase::Done, 100)),
                pause_ms: 0,
            },
            TaskState::Finished => Step { next: TaskState::Finished, event: None, pause_ms: 0 },
        }
    }
}

/// The payloads that a worker publishes for a task from a state on, in the
/// order in which it publishes them.
pub open spec fn event_trace(task_id: Seq<char>, state: TaskState) -> Seq<PayloadView>
    decreases state.steps_left(),
{
    if state == TaskState::Finished || !state.wf() {
        Seq::empty()
    } else {
        match state.event_spec(task_id) {
            Some(p) => seq![p] + event_trace(task_id, state.successor()),
            None => event_trace(task_id, state.successor()),
        }
    }
}

/// The views of a sequence of payloads.
pub open spec fn views_of(events: Seq<BackupPayload>) -> Seq<PayloadView> {
    events.map_values(|p: BackupPayload| p@)
}

/// Runs a worker through all its steps without waiting and returns what it
/// publishes, in order.
pub fn planned_events(task_id: &str) -> (events: Vec<BackupPayload>)
    ensures
        views_of(events@) == event_trace(task_id@, TaskState::Init),
{
    let mut state = TaskState::start();
    let mut events: Vec<BackupPayload> = Vec::new();
    assert(views_of(events@) =~= Seq::<PayloadView>::empty());
    while !state.is_finished()
        invariant
            state.wf(),
            views_of(events@) + event_trace(task_id@, state) == event_trace(
                task_id@,
                TaskState::Init,
            ),
        decreases state.steps_left(),
    {
        let ghost before = views_of(events@);
        let step = state.advance(task_id);
        match step.event {
            Some(p) => {
                events.push(p);
                assert(views_of(events@) =~= before.push(p@));
                assert(before.push(p@) + event_trace(task_id@, step.next) =~= before + (seq![p@]
                    + event_trace(task_id@, step.next)));
            },
            None => {},
        }
        state = step.next;
    }
    assert(event_trace(task_id@, state) =~= Seq::<PayloadView>::empty());
    assert(views_of(events@) + Seq::<PayloadView>::empty() =~= views_of(events@));
    events
}

/// What is required of the payloads of one task, in the order of their
/// publication: the first reports `Init`, the second `Snapshot`, the last but
/// one `Finalizing`, the last `Done` at 100 percent, all between the second
/// and the last but one `Encrypting`; and the percentage never falls.
pub open spec fn well_ordered(t: Seq<PayloadView>) -> bool {
    &&& t.len() >= 4
    &&& t[0].phase == Phase::Init
    &&& t[1].phase == Phase::Snapshot
    &&& forall|i: int| 2 <= i < t.len() - 2 ==> (#[trigger] t[i]).phase == Phase::Encrypting
    &&& t[t.len() - 2].phase == Phase::Finalizing
    &&& t[t.len() - 1].phase == Phase::Done
    &&& t[t.len() - 1].progress == 100
    &&& forall|i: int, j: int|
        0 <= i <= j < t.len() ==> (#[trigger] t[i]).progress <= (#[trigger] t[j]).progress
}

/// What a worker publishes from an `Encrypting` state on.
proof fn lemma_encrypting_trace(task_id: Seq<char>, chunk: u8)
    requires
        11 <= chunk <= 90,
    ensures
        ({
            let t = event_trace(task_id, TaskState::Encrypting(chunk));
            &&& t.len() == 21 - (chunk + 4) / 5
            &&& forall|i: int|
                0 <= i < t.len() - 2 ==> (#[trigger] t[i]).phase == Phase::Encrypting && chunk
                    <= t[i].progress <= 90
            &&& t[t.len() - 2].phase == Phase::Finalizing
            &&& t[t.len() - 2].progress == 95
            &&& t[t.len() - 1].phase == Phase::Done
            &&& t[t.len() - 1].progress == 100
            &&& forall|i: int, j: int|
                0 <= i <= j < t.len() ==> (#[trigger] t[i]).progress <= (#[trigger] t[j]).progress
            &&& forall|i: int| 0 <= i < t.len() ==> (#[trigger] t[i]).task_id == task_id
        }),
    decreases 90 - chunk,
{
    let state = TaskState::Encrypting(chunk);
    let t = event_trace(task_id, state);
    let rest = event_trace(task_id, state.successor());
    if chunk == 90 {
        let done = event_trace(task_id, TaskState::Done);
        assert(event_trace(task_id, TaskState::Finished) =~= Seq::<PayloadView>::empty());
        assert(done =~= seq![payload_spec(task_id, Phase::Done, 100)]);
        assert(rest =~= seq![
            payload_spec(task_id, Phase::Finalizing, 95),
            payload_spec(task_id, Phase::Done, 100),
        ]);
        assert(t =~= seq![payload_spec(task_id, Phase::Encrypting, 90)] + rest);
    } else {
        lemma_encrypting_trace(task_id, (chunk + 1) as u8);
        if chunk % 5 == 0 {
            let head = payload_spec(task_id, Phase::Encrypting, chunk as nat);
            assert(t =~= seq![head] + rest);
            assert(forall|i: int| 1 <= i < t.len() ==> t[i] == rest[i - 1]);
        } else {
            assert(t =~= rest);
        }
    }
}

/// Phase ordering: whatever the task, a worker publishes twenty payloads:
/// `Init`, `Snapshot`, then only `Encrypting`, then `Finalizing` and at last
/// `Done`; the percentage never falls, never exceeds 100 and ends at exactly
/// 100; every payload carries the task's identifier.
pub proof fn lemma_events_well_ordered(task_id: Seq<char>)
    ensures
        well_ordered(event_trace(task_id, TaskState::Init)),
        event_trace(task_id, TaskState::Init).len() == 20,
        forall|i: int|
            0 <= i < event_trace(task_id, TaskState::Init).len() ==> (#[trigger] event_trace(
                task_id,
                TaskState::Init,
            )[i]).task_id == task_id && event_trace(task_id, TaskState::Init)[i].progress <= 100,
{
    let t = event_trace(task_id, TaskState::Init);
    let s = event_trace(task_id, TaskState::Snapshot);
    let e = event_trace(task_id, TaskState::Encrypting(11));
    lemma_encrypting_trace(task_id, 11);
    assert(s =~= seq![payload_spec(task_id, Phase::Snapshot, 10)] + e);
    assert(t =~= seq![payload_spec(task_id, Phase::Init, 0)] + s);
    assert(forall|i: int| 2 <= i < t.len() ==> t[i] == e[i - 2]);
}

/// Nothing follows `Done`: from `Finished` a worker publishes nothing, and it
/// stays there.
pub proof fn lemma_finished_is_terminal(task_id: Seq<char>)
    ensures
        TaskState::Finished.successor() == TaskState::Finished,
        event_trace(task_id, TaskState::Finished) == Seq::<PayloadView>::empty(),
        event_trace(task_id, TaskState::Done) == seq![payload_spec(task_id, Phase::Done, 100)],
{
    assert(event_trace(task_id, TaskState::Finished) =~= Seq::<PayloadView>::empty());
    assert(event_trace(task_id, TaskState::Done) =~= seq![
        payload_spec(task_id, Phase::Done, 100),
    ]);
}

/// The name of the one channel on which every task publishes.
pub fn progress_channel() -> (name: &'static str)
    ensures
        name@ == "backup_progress"@,
{
    "backup_progress"
}

/// Publishes a payload on a channel and forgets it: `emit` is called once
/// with the channel and the payload and gives the channel back with what it
/// reports; the report, delivery or the lack of anyone to deliver to, is
/// dropped. Publishing never fails.
pub fn publish<S, E>(channel: S, event: BackupPayload, emit: &E) -> (after: S) where
    E: Fn(S, BackupPayload) -> (S, Result<(), String>),

    requires
        call_requires(*emit, (channel, event)),
    ensures
        exists|report: Result<(), String>| call_ensures(*emit, (channel, event), (after, report)),
{
    let (after, report) = emit(channel, event);
    assert(call_ensures(*emit, (channel, event), (after, report)));
    after
}

/// Whether handing the given payloads to `emit` one after the other, in their
/// order, each on the channel that the one before gave back, leads from the
/// channel `before` to the channel `after`.
pub open spec fn delivered<S, E: Fn(S, BackupPayload) -> (S, Result<(), String>)>(
    emit: E,
    before: S,
    payloads: Seq<PayloadView>,
    after: S,
) -> bool
    decreases payloads.len(),
{
    if payloads.len() == 0 {
        after == before
    } else {
        exists|mid: S, event: BackupPayload, report: Result<(), String>|
            delivered(emit, before, payloads.drop_last(), mid) && event@ == payloads.last()
                && #[trigger] call_ensures(emit, (mid, event), (after, report))
    }
}

/// Runs a worker for a task from start to finish: at each step it publishes
/// the payload, if the step has one, on the channel through `emit`, then
/// waits with `wait` for the step's pause, if it has one. The worker always
/// runs to completion. The payloads that `event_trace` lists, all of them and
/// no others, are handed to `emit` in the order of the list; the channel as
/// the last of them left it is returned.
pub fn run_worker<S, E, W>(task_id: &str, channel: S, emit: E, wait: W) -> (after: S) where
    E: Fn(S, BackupPayload) -> (S, Result<(), String>),
    W: Fn(u64) -> (),

    requires
        forall|channel: S, event: BackupPayload| call_requires(emit, (channel, event)),
        forall|millis: u64| call_requires(wait, (millis,)),
    ensures
        delivered(emit, channel, event_trace(task_id@, TaskState::Init), after),
{
    let ghost all = event_trace(task_id@, TaskState::Init);
    let ghost start = channel;
    let mut state = TaskState::start();
    let mut channel = channel;
    let ghost mut done: Seq<PayloadView> = Seq::empty();
    assert(done + event_trace(task_id@, state) =~= all);
    while !state.is_finished()
        invariant
            state.wf(),
            all == event_trace(task_id@, TaskState::Init),
            done + event_trace(task_id@, state) == all,
            delivered(emit, start, done, channel),
            forall|channel: S, event: BackupPayload| call_requires(emit, (channel, event)),
            forall|millis: u64| call_requires(wait, (millis,)),
        decreases state.steps_left(),
    {
        let step = state.advance(task_id);
        match step.event {
            Some(event) => {
                let ghost shown = event@;
                let ghost mid = channel;
                channel = publish(channel, event, &emit);
                proof {
                    assert(done.push(shown) + event_trace(task_id@, step.next) =~= done + (
                    seq![shown] + event_trace(task_id@, step.next)));
                    assert(done.push(shown).drop_last() =~= done);
                    assert(done.push(shown).last() == shown);
                    let report = choose|report: Result<(), String>|
                        call_ensures(emit, (mid, event), (channel, report));
                    assert(call_ensures(emit, (mid, event), (channel, report)));
                    assert(delivered(emit, start, done.push(shown), channel));
                    done = done.push(shown);
                }
            },
            None => {},
        }
        if step.pause_ms > 0 {
            wait(step.pause_ms);
        }
        state = step.next;
    }
    assert(event_trace(task_id@, state) =~= Seq::<PayloadView>::empty());
    assert(done + Seq::<PayloadView>::empty() =~= done);
    channel
}

/// The identifier of the task started at `millis` milliseconds after the
/// epoch: a fixed prefix and the instant in base ten.
pub open spec fn task_id_spec(millis: nat) -> Seq<char> {
    "OMEGA-"@ + decimal_digits(millis)
}

/// Makes the identifier of the task started at the given instant.
pub fn task_id_for(millis: u128) -> (id: String)
    ensures
        id@ == task_id_spec(millis as nat),
{
    "OMEGA-".to_owned().concat(decimal_text(millis).as_str())
}

/// The command that starts a backup. It reads the instant from `clock`, in
/// milliseconds since the epoch, makes the identifier of the new task from it,
/// hands the identifier to `spawn`, which starts the worker and does not wait
/// for it, and answers with the identifier: the caller has it before any work
/// is done. The target directory is accepted and not used.
pub fn cmd_backup_start<C, S>(clock: C, _target_dir: Option<String>, spawn: S) -> (r: Result<
    String,
    String,
>) where C: FnOnce() -> u128, S: FnOnce(String) -> ()
    requires
        call_requires(clock, ()),
        forall|id: String| call_requires(spawn, (id,)),
    ensures
        r is Ok,
        exists|now: u128, handed: String|
            call_ensures(clock, (), now) && handed@ == task_id_spec(now as nat) && call_ensures(
                spawn,
                (handed,),
                (),
            ) && r.unwrap()@ == task_id_spec(now as nat),
{
    let now = clock();
    let task_id = task_id_for(now);
    let handed = task_id.clone();
    spawn(handed);
    let r = Ok(task_id);
    assert(call_ensures(clock, (), now) && handed@ == task_id_spec(now as nat) && call_ensures(
        spawn,
        (handed,),
        (),
    ) && r.unwrap()@ == task_id_spec(now as nat));
    r
}

/// Uniqueness: tasks started at different instants have different
/// identifiers.
pub proof fn lemma_task_ids_distinct(a: nat, b: nat)
    requires
        a != b,
    ensures
        task_id_spec(a) != task_id_spec(b),
{
    if task_id_spec(a) == task_id_spec(b) {
        let p = "OMEGA-"@;
        assert(task_id_spec(a).subrange(p.len() as int, task_id_spec(a).len() as int)
            =~= decimal_digits(a));
        assert(task_id_spec(b).subrange(p.len() as int, task_id_spec(b).len() as int)
            =~= decimal_digits(b));
        lemma_decimal_digits_injective(a, b);
    }
}

} // verus!
