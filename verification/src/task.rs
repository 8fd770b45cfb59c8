use vstd::prelude::*;

verus! {

/// Number of retries a task may spend after its first fetch attempt; a task
/// gives up when a fetch fails and this many retries are already behind it,
/// so a permanently failing fetch is attempted `RETRY_COUNT + 1` times.
pub const RETRY_COUNT: u8 = 8;

/// Where a per-post download task stands. The task suspends between steps
/// (the fixed delay and the fetch are the only blocking points); every other
/// decision is made here, synchronously.
#[derive(Clone, Copy, Debug, PartialEq, Eq, Structural)]
pub enum TaskPhase {
    /// About to wait the fixed inter-attempt delay, then read the shared
    /// stamp (checkpoint before fetching).
    BeforeDelay,
    /// About to perform one fetch attempt.
    BeforeFetch,
    /// Fetch succeeded; about to re-read the shared stamp (checkpoint
    /// between the slow network step and the file write).
    AfterFetchCheck,
    /// Both checkpoints passed; about to transform and write the file.
    WriteFile,
    /// Terminal: the task reports `downloaded` to the coordinator once.
    /// `cancelled` records that the task stopped because a stamp checkpoint
    /// saw the batch superseded: such a task writes nothing further, the
    /// sidecar included.
    Done { downloaded: bool, cancelled: bool },
}

/// The whole state a task carries between suspension points: its phase, how
/// many fetch attempts are behind it, and the stamp it captured when the
/// batch was launched.
#[derive(Clone, Copy, Debug, PartialEq, Eq, Structural)]
pub struct TaskState {
    pub phase: TaskPhase,
    pub attempts: u8,
    pub initial_stamp: u64,
}

/// What the host reports back after carrying out the action a phase asks
/// for.
#[derive(Clone, Copy, Debug, PartialEq, Eq, Structural)]
pub enum TaskEvent {
    /// The shared cancellation stamp read after the delay, or after a
    /// successful fetch.
    StampRead(u64),
    FetchSucceeded,
    FetchFailed,
    FileWritten,
}

/// What the host must do next for a task in a given phase.
#[derive(Clone, Copy, Debug, PartialEq, Eq, Structural)]
pub enum TaskAction {
    SleepThenReadStamp,
    Fetch,
    ReadStamp,
    TransformAndWrite,
    Report { downloaded: bool, cancelled: bool },
}

impl TaskState {
    pub open spec fn wf(self) -> bool {
        self.attempts <= RETRY_COUNT
    }

    /// The state a task starts in. A post without a resource URL, or whose
    /// image file is already on disk, is over before it begins: outcome
    /// "not downloaded", and in particular no fetch is ever issued for it.
    pub open spec fn begin_spec(has_url: bool, file_exists: bool, initial_stamp: u64) -> TaskState {
        TaskState {
            phase: if !has_url || file_exists {
                TaskPhase::Done { downloaded: false, cancelled: false }
            } else {
                TaskPhase::BeforeDelay
            },
            attempts: 0,
            initial_stamp,
        }
    }

    /// Which event the task is waiting for; `Done` waits for none.
    pub open spec fn accepts(self, event: TaskEvent) -> bool {
        match self.phase {
            TaskPhase::BeforeDelay => event is StampRead,
            TaskPhase::BeforeFetch => event is FetchSucceeded || event is FetchFailed,
            TaskPhase::AfterFetchCheck => event is StampRead,
            TaskPhase::WriteFile => event is FileWritten,
            TaskPhase::Done { .. } => false,
        }
    }

    /// The task's transition function. A stamp unequal to the captured one
    /// ends the task at once (cancelled, counted as not downloaded, and in
    /// the post-fetch case: nothing written); a failed fetch retries until
    /// the budget is spent. An event the phase is not waiting for changes
    /// nothing.
    pub open spec fn step_spec(self, event: TaskEvent) -> TaskState {
        match (self.phase, event) {
            (TaskPhase::BeforeDelay, TaskEvent::StampRead(current)) => {
                if current != self.initial_stamp {
                    TaskState {
                        phase: TaskPhase::Done { downloaded: false, cancelled: true },
                        ..self
                    }
                } else {
                    TaskState { phase: TaskPhase::BeforeFetch, ..self }
                }
            },
            (TaskPhase::BeforeFetch, TaskEvent::FetchSucceeded) => {
                TaskState { phase: TaskPhase::AfterFetchCheck, ..self }
            },
            (TaskPhase::BeforeFetch, TaskEvent::FetchFailed) => {
                if self.attempts == RETRY_COUNT {
                    TaskState {
                        phase: TaskPhase::Done { downloaded: false, cancelled: false },
                        ..self
                    }
                } else {
                    TaskState {
                        phase: TaskPhase::BeforeDelay,
                        attempts: (self.attempts + 1) as u8,
                        ..self
                    }
                }
            },
            (TaskPhase::AfterFetchCheck, TaskEvent::StampRead(current)) => {
                if current != self.initial_stamp {
                    TaskState {
                        phase: TaskPhase::Done { downloaded: false, cancelled: true },
                        ..self
                    }
                } else {
                    TaskState { phase: TaskPhase::WriteFile, ..self }
                }
            },
            (TaskPhase::WriteFile, TaskEvent::FileWritten) => {
                TaskState { phase: TaskPhase::Done { downloaded: true, cancelled: false }, ..self }
            },
            _ => self,
        }
    }

    /// Start the task for one post, from what the host already knows: does
    /// the post carry a resource URL, and does its image file already exist.
    pub fn begin(has_url: bool, file_exists: bool, initial_stamp: u64) -> (s: TaskState)
        ensures
            s == TaskState::begin_spec(has_url, file_exists, initial_stamp),
            s.wf(),
    {
        TaskState {
            phase: if !has_url || file_exists {
                TaskPhase::Done { downloaded: false, cancelled: false }
            } else {
                TaskPhase::BeforeDelay
            },
            attempts: 0,
            initial_stamp,
        }
    }

    /// Advance the task by one observed event.
    pub fn step(self, event: TaskEvent) -> (s: TaskState)
        requires
            self.wf(),
        ensures
            s == self.step_spec(event),
            s.wf(),
    {
        match (self.phase, event) {
            (TaskPhase::BeforeDelay, TaskEvent::StampRead(current)) => {
                if current != self.initial_stamp {
                    TaskState {
                        phase: TaskPhase::Done { downloaded: false, cancelled: true },
                        ..self
                    }
                } else {
                    TaskState { phase: TaskPhase::BeforeFetch, ..self }
                }
            },
            (TaskPhase::BeforeFetch, TaskEvent::FetchSucceeded) => {
                TaskState { phase: TaskPhase::AfterFetchCheck, ..self }
            },
            (TaskPhase::BeforeFetch, TaskEvent::FetchFailed) => {
                if self.attempts == RETRY_COUNT {
                    TaskState {
                        phase: TaskPhase::Done { downloaded: false, cancelled: false },
                        ..self
                    }
                } else {
                    TaskState { phase: TaskPhase::BeforeDelay, attempts: self.attempts + 1, ..self }
                }
            },
            (TaskPhase::AfterFetchCheck, TaskEvent::StampRead(current)) => {
                if current != self.initial_stamp {
                    TaskState {
                        phase: TaskPhase::Done { downloaded: false, cancelled: true },
                        ..self
                    }
                } else {
                    TaskState { phase: TaskPhase::WriteFile, ..self }
                }
            },
            (TaskPhase::WriteFile, TaskEvent::FileWritten) => {
                TaskState { phase: TaskPhase::Done { downloaded: true, cancelled: false }, ..self }
            },
            _ => self,
        }
    }

    /// The action a task in the current phase asks of its host.
    pub fn next_action(&self) -> (a: TaskAction)
        ensures
            a == match self.phase {
                TaskPhase::BeforeDelay => TaskAction::SleepThenReadStamp,
                TaskPhase::BeforeFetch => TaskAction::Fetch,
                TaskPhase::AfterFetchCheck => TaskAction::ReadStamp,
                TaskPhase::WriteFile => TaskAction::TransformAndWrite,
                TaskPhase::Done { downloaded, cancelled } => TaskAction::Report {
                    downloaded,
                    cancelled,
                },
            },
    {
        match self.phase {
            TaskPhase::BeforeDelay => TaskAction::SleepThenReadStamp,
            TaskPhase::BeforeFetch => TaskAction::Fetch,
            TaskPhase::AfterFetchCheck => TaskAction::ReadStamp,
            TaskPhase::WriteFile => TaskAction::TransformAndWrite,
            TaskPhase::Done { downloaded, cancelled } => TaskAction::Report {
                downloaded,
                cancelled,
            },
        }
    }
}

/// Whether the sidecar tag file should be written once the image branch of a
/// task has resolved: only if saving tags is switched on, the post had a
/// resource URL at all, the sidecar file is not already on disk (it is never
/// overwritten), and the task was not cancelled. Independent of whether the
/// image itself was downloaded — a skipped or retry-exhausted image still
/// gets its tags saved — but a cancelled batch produces no further file
/// writes of any kind, so a task that stopped at a stamp checkpoint writes
/// no sidecar either.
pub fn sidecar_wanted(save_tags: bool, had_url: bool, sidecar_exists: bool, cancelled: bool) -> (r:
    bool)
    ensures
        r == (save_tags && had_url && !sidecar_exists && !cancelled),
{
    save_tags && had_url && !sidecar_exists && !cancelled
}

/// The state a task reaches after a whole sequence of events.
pub open spec fn run_spec(s: TaskState, events: Seq<TaskEvent>) -> TaskState
    decreases events.len(),
{
    if events.len() == 0 {
        s
    } else {
        run_spec(s.step_spec(events[0]), events.drop_first())
    }
}

/// How many fetch attempts a task makes along a sequence of events.
pub open spec fn fetches_along(s: TaskState, events: Seq<TaskEvent>) -> nat
    decreases events.len(),
{
    if events.len() == 0 {
        0
    } else {
        (if s.phase is BeforeFetch && (events[0] is FetchSucceeded || events[0] is FetchFailed) {
            1nat
        } else {
            0nat
        }) + fetches_along(s.step_spec(events[0]), events.drop_first())
    }
}

/// Whether a task ever stands in the write phase along a sequence of events
/// (that is, whether it ever writes an image file).
pub open spec fn writes_along(s: TaskState, events: Seq<TaskEvent>) -> bool
    decreases events.len(),
{
    s.phase is WriteFile || (events.len() > 0 && writes_along(
        s.step_spec(events[0]),
        events.drop_first(),
    ))
}

/// A finished task stays finished: no event moves it, it fetches nothing
/// and writes nothing.
pub proof fn lemma_done_stays_done(s: TaskState, events: Seq<TaskEvent>)
    requires
        s.phase is Done,
    ensures
        run_spec(s, events) == s,
        fetches_along(s, events) == 0,
        !writes_along(s, events),
    decreases events.len(),
{
    if events.len() > 0 {
        assert(s.step_spec(events[0]) == s);
        lemma_done_stays_done(s, events.drop_first());
    }
}

/// `k` rounds of "delay passes with the batch still valid, then the fetch
/// fails transiently": what a permanently failing fetch looks like to a
/// task.
pub open spec fn failing_rounds(k: nat, stamp: u64) -> Seq<TaskEvent>
    decreases k,
{
    if k == 0 {
        Seq::empty()
    } else {
        seq![TaskEvent::StampRead(stamp), TaskEvent::FetchFailed] + failing_rounds(
            (k - 1) as nat,
            stamp,
        )
    }
}

/// Unfold a run over its first two events.
proof fn lemma_two_step_run(s: TaskState, e1: TaskEvent, e2: TaskEvent, rest: Seq<TaskEvent>)
    ensures
        run_spec(s, seq![e1, e2] + rest) == run_spec(s.step_spec(e1).step_spec(e2), rest),
        fetches_along(s, seq![e1, e2] + rest) == (if s.phase is BeforeFetch && (e1
            is FetchSucceeded || e1 is FetchFailed) {
            1nat
        } else {
            0nat
        }) + (if s.step_spec(e1).phase is BeforeFetch && (e2 is FetchSucceeded || e2
            is FetchFailed) {
            1nat
        } else {
            0nat
        }) + fetches_along(s.step_spec(e1).step_spec(e2), rest),
{
    let evs = seq![e1, e2] + rest;
    let s1 = s.step_spec(e1);
    let s2 = s1.step_spec(e2);
    let evs1 = evs.drop_first();
    assert(evs.len() == 2 + rest.len());
    assert(evs[0] == e1);
    assert(evs1 =~= seq![e2] + rest);
    assert(run_spec(s, evs) == run_spec(s1, evs1));
    assert(evs1[0] == e2);
    assert(evs1.drop_first() =~= rest);
    assert(run_spec(s1, evs1) == run_spec(s2, rest));
    assert(fetches_along(s, evs) == (if s.phase is BeforeFetch && (evs[0] is FetchSucceeded
        || evs[0] is FetchFailed) {
        1nat
    } else {
        0nat
    }) + fetches_along(s1, evs1));
    assert(fetches_along(s1, evs1) == (if s1.phase is BeforeFetch && (evs1[0] is FetchSucceeded
        || evs1[0] is FetchFailed) {
        1nat
    } else {
        0nat
    }) + fetches_along(s2, rest));
}

proof fn lemma_failing_rounds_exhaust(s: TaskState, stamp: u64)
    requires
        s.wf(),
        s.phase is BeforeDelay,
        s.initial_stamp == stamp,
    ensures
        run_spec(s, failing_rounds((RETRY_COUNT + 1 - s.attempts) as nat, stamp)).phase == (
        TaskPhase::Done { downloaded: false, cancelled: false }),
        fetches_along(s, failing_rounds((RETRY_COUNT + 1 - s.attempts) as nat, stamp))
            == RETRY_COUNT + 1 - s.attempts,
    decreases RETRY_COUNT + 1 - s.attempts,
{
    let k = (RETRY_COUNT + 1 - s.attempts) as nat;
    let s1 = s.step_spec(TaskEvent::StampRead(stamp));
    let s2 = s1.step_spec(TaskEvent::FetchFailed);
    lemma_two_step_run(s, TaskEvent::StampRead(stamp), TaskEvent::FetchFailed, failing_rounds(
        (k - 1) as nat,
        stamp,
    ));
    if s.attempts == RETRY_COUNT {
        assert(s2.phase == (TaskPhase::Done { downloaded: false, cancelled: false }));
    } else {
        lemma_failing_rounds_exhaust(s2, stamp);
    }
}

/// Retry exhaustion: a task whose post has a resource URL and no local file
/// yet, whose batch is never cancelled, and whose every fetch fails
/// transiently, makes exactly `RETRY_COUNT + 1` fetch attempts and then ends
/// with outcome "not downloaded".
pub proof fn lemma_retry_exhaustion(stamp: u64)
    ensures
        run_spec(
            TaskState::begin_spec(true, false, stamp),
            failing_rounds((RETRY_COUNT + 1) as nat, stamp),
        ).phase == (TaskPhase::Done { downloaded: false, cancelled: false }),
        fetches_along(
            TaskState::begin_spec(true, false, stamp),
            failing_rounds((RETRY_COUNT + 1) as nat, stamp),
        ) == RETRY_COUNT + 1,
{
    lemma_failing_rounds_exhaust(TaskState::begin_spec(true, false, stamp), stamp);
}

/// Every stamp read in `events` differs from `stamp`: what the rest of a
/// task's life looks like once the batch's token has been overwritten.
pub open spec fn stamps_all_differ(events: Seq<TaskEvent>, stamp: u64) -> bool {
    forall|i: int|
        0 <= i < events.len() ==> ((#[trigger] events[i]) matches TaskEvent::StampRead(v) ==> v
            != stamp)
}

/// A stamp checkpoint that sees the batch superseded ends the task at once,
/// marked cancelled: outcome "not downloaded", and nothing written by it
/// from here on, the sidecar included (`sidecar_wanted` is false for a
/// cancelled task).
pub proof fn lemma_stale_stamp_cancels(s: TaskState, current: u64)
    requires
        s.phase is BeforeDelay || s.phase is AfterFetchCheck,
        current != s.initial_stamp,
    ensures
        s.step_spec(TaskEvent::StampRead(current)).phase == (TaskPhase::Done {
            downloaded: false,
            cancelled: true,
        }),
{
}

/// Cancellation blocks writes: a task that has not yet passed its post-fetch
/// checkpoint, and from now on only ever reads stamps unequal to the one it
/// captured (as after a cancellation), never reaches the write phase. It
/// also begins no fetch beyond the one it was already committed to, and
/// none at all if a checkpoint still stands before its next fetch.
pub proof fn lemma_stale_stamp_blocks_writes(s: TaskState, events: Seq<TaskEvent>)
    requires
        !(s.phase is WriteFile),
        stamps_all_differ(events, s.initial_stamp),
    ensures
        !writes_along(s, events),
        fetches_along(s, events) <= 1,
        !(s.phase is BeforeFetch) ==> fetches_along(s, events) == 0,
    decreases events.len(),
{
    if events.len() > 0 {
        let s2 = s.step_spec(events[0]);
        assert(!(s2.phase is WriteFile));
        assert(s2.initial_stamp == s.initial_stamp);
        assert forall|i: int|
            0 <= i < events.drop_first().len() implies ((#[trigger] events.drop_first()[i]) matches
            TaskEvent::StampRead(v) ==> v != s2.initial_stamp) by {
            assert(events.drop_first()[i] == events[i + 1]);
        }
        lemma_stale_stamp_blocks_writes(s2, events.drop_first());
        if s.phase is BeforeFetch && (events[0] is FetchSucceeded || events[0] is FetchFailed) {
            assert(!(s2.phase is BeforeFetch));
        } else if !(s.phase is BeforeFetch) {
            assert(!(s2.phase is BeforeFetch));
        }
    }
}

} // verus!
