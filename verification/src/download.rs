//! Download with bounded retry, as a machine that decides and leaves the
//! work to its driver: the driver performs the pending action and hands back
//! what came of it.

use crate::outcome::DownloadOutcome;
use vstd::prelude::*;

verus! {

/// The number of attempts that the standard policy allows.
pub const MAX_ATTEMPTS: u32 = 5;

/// The pause between two attempts under the standard policy, in milliseconds.
pub const PAUSE_MILLIS: u64 = 500;

/// How often a download is attempted, and how long it rests between attempts.
#[derive(Clone, Copy, Debug, PartialEq, Eq, Structural)]
pub struct RetryPolicy {
    /// The number of attempts after which the download gives up.
    pub max_attempts: u32,
    /// The pause before every attempt but the first, in milliseconds.
    pub pause_millis: u64,
}

/// Where a download stands.
#[derive(Clone, Copy, Debug, PartialEq, Eq, Structural)]
pub enum Stage {
    /// The destination file is being created.
    Opening,
    /// A request for the resource is under way.
    Fetching,
    /// A successful response is being written to the destination file.
    Saving,
    /// The download has ended.
    Finished(DownloadOutcome),
}

/// What the driver reports back.
#[derive(Clone, Copy, Debug, PartialEq, Eq, Structural)]
pub enum DownloadEvent {
    /// The destination file was created.
    FileOpened,
    /// The destination file could not be created.
    FileOpenFailed,
    /// The remote answered with this status code.
    Responded { status: u16 },
    /// The request failed before any answer arrived.
    TransportFailed,
    /// The body was written to the destination file.
    BodySaved,
    /// The body could not be written to the destination file.
    BodySaveFailed,
}

/// What the driver is asked to do.
#[derive(Clone, Copy, Debug, PartialEq, Eq, Structural)]
pub enum DownloadAction {
    /// Create the destination file.
    OpenFile,
    /// Request the resource at once.
    Fetch,
    /// Rest for so many milliseconds, then request the resource.
    PauseThenFetch { millis: u64 },
    /// Write the body of the response to the destination file.
    SaveBody,
    /// Release the destination file if it is open; the download has ended.
    Finish(DownloadOutcome),
}

/// The state of one download: its policy, its stage and the number of
/// requests issued so far.
#[derive(Clone, Copy, Debug, PartialEq, Eq, Structural)]
pub struct RetryState {
    pub policy: RetryPolicy,
    pub stage: Stage,
    pub attempts: u32,
}

/// Whether a status code reports success: the codes from 200 to 299.
pub open spec fn is_success(status: u16) -> bool {
    200 <= status < 300
}

/// Whether an event reports a failed attempt: no answer, or an answer
/// without success.
pub open spec fn is_failed_attempt(event: DownloadEvent) -> bool {
    match event {
        DownloadEvent::TransportFailed => true,
        DownloadEvent::Responded { status } => !is_success(status),
        _ => false,
    }
}

impl RetryPolicy {
    /// Five attempts, half a second apart.
    pub open spec fn standard_spec() -> RetryPolicy {
        RetryPolicy { max_attempts: MAX_ATTEMPTS, pause_millis: PAUSE_MILLIS }
    }

    /// Five attempts, half a second apart.
    #[verifier::when_used_as_spec(standard_spec)]
    pub fn standard() -> (policy: RetryPolicy)
        ensures
            policy == RetryPolicy::standard_spec(),
    {
        RetryPolicy { max_attempts: MAX_ATTEMPTS, pause_millis: PAUSE_MILLIS }
    }
}

impl RetryState {
    /// A download that has not begun: it waits for its destination file.
    pub open spec fn start(policy: RetryPolicy) -> RetryState {
        RetryState { policy, stage: Stage::Opening, attempts: 0 }
    }

    /// The action whose result the machine waits for.
    pub open spec fn pending(self) -> DownloadAction {
        match self.stage {
            Stage::Opening => DownloadAction::OpenFile,
            Stage::Fetching => if self.attempts <= 1 {
                DownloadAction::Fetch
            } else {
                DownloadAction::PauseThenFetch { millis: self.policy.pause_millis }
            },
            Stage::Saving => DownloadAction::SaveBody,
            Stage::Finished(outcome) => DownloadAction::Finish(outcome),
        }
    }

    /// The state after a failed attempt: one more attempt while the policy
    /// allows it, the end otherwise.
    pub open spec fn after_failure(self) -> RetryState {
        if self.attempts < self.policy.max_attempts {
            RetryState { attempts: (self.attempts + 1) as u32, ..self }
        } else {
            RetryState { stage: Stage::Finished(DownloadOutcome::RetriesExhausted), ..self }
        }
    }

    /// The state after an event. An event that does not answer the pending
    /// action changes nothing.
    pub open spec fn next(self, event: DownloadEvent) -> RetryState {
        match (self.stage, event) {
            (Stage::Opening, DownloadEvent::FileOpened) => if self.policy.max_attempts == 0 {
                RetryState { stage: Stage::Finished(DownloadOutcome::RetriesExhausted), ..self }
            } else {
                RetryState { stage: Stage::Fetching, attempts: 1, ..self }
            },
            (Stage::Opening, DownloadEvent::FileOpenFailed) => RetryState {
                stage: Stage::Finished(DownloadOutcome::FilesystemError),
                ..self
            },
            (Stage::Fetching, DownloadEvent::Responded { status }) => if is_success(status) {
                RetryState { stage: Stage::Saving, ..self }
            } else {
                self.after_failure()
            },
            (Stage::Fetching, DownloadEvent::TransportFailed) => self.after_failure(),
            (Stage::Saving, DownloadEvent::BodySaved) => RetryState {
                stage: Stage::Finished(DownloadOutcome::Success),
                ..self
            },
            (Stage::Saving, DownloadEvent::BodySaveFailed) => RetryState {
                stage: Stage::Finished(DownloadOutcome::FilesystemError),
                ..self
            },
            _ => self,
        }
    }

    /// The state after a run of events, oldest first.
    pub open spec fn after(self, events: Seq<DownloadEvent>) -> RetryState
        decreases events.len(),
    {
        if events.len() == 0 {
            self
        } else {
            self.after(events.drop_last()).next(events.last())
        }
    }

    /// The actions asked for in answer to a run of events, one per event.
    pub open spec fn answers(self, events: Seq<DownloadEvent>) -> Seq<DownloadAction> {
        Seq::new(events.len(), |i: int| self.after(events.take(i + 1)).pending())
    }

    /// The outcome, once the download has ended.
    pub open spec fn outcome_spec(self) -> Option<DownloadOutcome> {
        match self.stage {
            Stage::Finished(outcome) => Some(outcome),
            _ => None,
        }
    }

    /// The number of attempts that have failed so far.
    pub open spec fn failed_attempts_spec(self) -> nat {
        if self.attempts == 0 || self.stage == Stage::Finished(DownloadOutcome::RetriesExhausted) {
            self.attempts as nat
        } else {
            (self.attempts - 1) as nat
        }
    }

    /// A download that has not begun.
    pub fn begin(policy: RetryPolicy) -> (state: RetryState)
        ensures
            state == RetryState::start(policy),
    {
        RetryState { policy, stage: Stage::Opening, attempts: 0 }
    }

    /// The action whose result the machine waits for.
    pub fn pending_action(&self) -> (action: DownloadAction)
        ensures
            action == self.pending(),
    {
        match self.stage {
            Stage::Opening => DownloadAction::OpenFile,
            Stage::Fetching => if self.attempts <= 1 {
                DownloadAction::Fetch
            } else {
                DownloadAction::PauseThenFetch { millis: self.policy.pause_millis }
            },
            Stage::Saving => DownloadAction::SaveBody,
            Stage::Finished(outcome) => DownloadAction::Finish(outcome),
        }
    }

    /// Takes in what came of the pending action and says what to do next.
    pub fn step(&mut self, event: DownloadEvent) -> (action: DownloadAction)
        ensures
            *final(self) == old(self).next(event),
            action == final(self).pending(),
    {
        match (self.stage, event) {
            (Stage::Opening, DownloadEvent::FileOpened) => {
                if self.policy.max_attempts == 0 {
                    self.stage = Stage::Finished(DownloadOutcome::RetriesExhausted);
                } else {
                    self.stage = Stage::Fetching;
                    self.attempts = 1;
                }
            },
            (Stage::Opening, DownloadEvent::FileOpenFailed) => {
                self.stage = Stage::Finished(DownloadOutcome::FilesystemError);
            },
            (Stage::Fetching, DownloadEvent::Responded { status }) => {
                if 200 <= status && status < 300 {
                    self.stage = Stage::Saving;
                } else {
                    self.fail();
                }
            },
            (Stage::Fetching, DownloadEvent::TransportFailed) => {
                self.fail();
            },
            (Stage::Saving, DownloadEvent::BodySaved) => {
                self.stage = Stage::Finished(DownloadOutcome::Success);
            },
            (Stage::Saving, DownloadEvent::BodySaveFailed) => {
                self.stage = Stage::Finished(DownloadOutcome::FilesystemError);
            },
            _ => {},
        }
        self.pending_action()
    }

    /// Records a failed attempt.
    fn fail(&mut self)
        ensures
            *final(self) == old(self).after_failure(),
    {
        if self.attempts < self.policy.max_attempts {
            self.attempts = self.attempts + 1;
        } else {
            self.stage = Stage::Finished(DownloadOutcome::RetriesExhausted);
        }
    }

    /// The outcome, once the download has ended.
    pub fn outcome(&self) -> (outcome: Option<DownloadOutcome>)
        ensures
            outcome == self.outcome_spec(),
    {
        match self.stage {
            Stage::Finished(outcome) => Some(outcome),
            _ => None,
        }
    }

    /// The number of attempts that have failed so far.
    pub fn failed_attempts(&self) -> (failed: u32)
        ensures
            failed == self.failed_attempts_spec(),
    {
        let exhausted = match self.stage {
            Stage::Finished(DownloadOutcome::RetriesExhausted) => true,
            _ => false,
        };
        if self.attempts == 0 || exhausted {
            self.attempts
        } else {
            self.attempts - 1
        }
    }
}

/// The action that asks for attempt number `number`, counted from one: the
/// first goes out at once, each later one after the policy's pause.
pub open spec fn attempt_action(policy: RetryPolicy, number: int) -> DownloadAction {
    if number <= 1 {
        DownloadAction::Fetch
    } else {
        DownloadAction::PauseThenFetch { millis: policy.pause_millis }
    }
}

/// The events of a download whose file opens and whose attempts then end as
/// `results` say.
pub open spec fn opened_then(results: Seq<DownloadEvent>) -> Seq<DownloadEvent> {
    seq![DownloadEvent::FileOpened] + results
}

/// Events taken in two runs leave the machine where one run of all of them
/// leaves it.
pub proof fn lemma_after_concat(state: RetryState, first: Seq<DownloadEvent>, second: Seq<DownloadEvent>)
    ensures
        state.after(first + second) == state.after(first).after(second),
    decreases second.len(),
{
    if second.len() == 0 {
        assert(first + second =~= first);
    } else {
        assert((first + second).drop_last() =~= first + second.drop_last());
        assert((first + second).last() == second.last());
        lemma_after_concat(state, first, second.drop_last());
    }
}

/// While the policy allows another attempt, each failed attempt leads to
/// the next one: after the file has opened and `failed` attempts have
/// failed, attempt number `failed + 1` is under way.
pub proof fn lemma_failures_lead_on(policy: RetryPolicy, results: Seq<DownloadEvent>)
    requires
        results.len() < policy.max_attempts,
        forall|i: int| 0 <= i < results.len() ==> is_failed_attempt(#[trigger] results[i]),
    ensures
        RetryState::start(policy).after(opened_then(results)) == (RetryState {
            policy,
            stage: Stage::Fetching,
            attempts: (results.len() + 1) as u32,
        }),
    decreases results.len(),
{
    let start = RetryState::start(policy);
    let events = opened_then(results);
    if results.len() == 0 {
        assert(events.drop_last() =~= Seq::<DownloadEvent>::empty());
        assert(start.after(events.drop_last()) == start);
    } else {
        assert(events.drop_last() =~= opened_then(results.drop_last()));
        assert(events.last() == results.last());
        lemma_failures_lead_on(policy, results.drop_last());
    }
}

/// A download whose every attempt fails ends as `RetriesExhausted` after
/// exactly as many attempts as the policy allows: the first request goes out
/// at once, each later one after a pause, and the last failure ends the
/// download. Under the standard policy that is five requests and four pauses.
pub proof fn lemma_all_failures_exhaust(policy: RetryPolicy, results: Seq<DownloadEvent>)
    requires
        results.len() == policy.max_attempts,
        forall|i: int| 0 <= i < results.len() ==> is_failed_attempt(#[trigger] results[i]),
    ensures
        ({
            let start = RetryState::start(policy);
            let end = start.after(opened_then(results));
            let asked = start.answers(opened_then(results));
            &&& end.stage == Stage::Finished(DownloadOutcome::RetriesExhausted)
            &&& end.attempts == policy.max_attempts
            &&& end.failed_attempts_spec() == policy.max_attempts
            &&& asked.len() == policy.max_attempts + 1
            &&& forall|i: int|
                0 <= i < policy.max_attempts ==> #[trigger] asked[i] == attempt_action(policy, i + 1)
            &&& asked.last() == DownloadAction::Finish(DownloadOutcome::RetriesExhausted)
        }),
{
    let start = RetryState::start(policy);
    let events = opened_then(results);
    let asked = start.answers(events);
    assert forall|i: int| 0 <= i < policy.max_attempts implies #[trigger] asked[i] == attempt_action(
        policy,
        i + 1,
    ) by {
        assert(events.take(i + 1) =~= opened_then(results.take(i)));
        lemma_failures_lead_on(policy, results.take(i));
    }
    if results.len() == 0 {
        assert(events.drop_last() =~= Seq::<DownloadEvent>::empty());
        assert(start.after(events.drop_last()) == start);
    } else {
        assert(events.drop_last() =~= opened_then(results.drop_last()));
        assert(events.last() == results.last());
        lemma_failures_lead_on(policy, results.drop_last());
    }
    assert(events.take(events.len() as int) =~= events);
}

/// Under the standard policy a resource that never answers with success
/// costs five requests and four pauses of half a second, and not one more.
pub proof fn lemma_standard_policy_exhausts(results: Seq<DownloadEvent>)
    requires
        results.len() == 5,
        forall|i: int| 0 <= i < results.len() ==> is_failed_attempt(#[trigger] results[i]),
    ensures
        RetryState::start(RetryPolicy::standard()).answers(opened_then(results)) == seq![
            DownloadAction::Fetch,
            DownloadAction::PauseThenFetch { millis: 500 },
            DownloadAction::PauseThenFetch { millis: 500 },
            DownloadAction::PauseThenFetch { millis: 500 },
            DownloadAction::PauseThenFetch { millis: 500 },
            DownloadAction::Finish(DownloadOutcome::RetriesExhausted),
        ],
        RetryState::start(RetryPolicy::standard()).after(opened_then(results)).outcome_spec()
            == Some(DownloadOutcome::RetriesExhausted),
{
    let policy = RetryPolicy::standard();
    let asked = RetryState::start(policy).answers(opened_then(results));
    lemma_all_failures_exhaust(policy, results);
    assert(asked[0] == attempt_action(policy, 1));
    assert(asked[1] == attempt_action(policy, 2));
    assert(asked[2] == attempt_action(policy, 3));
    assert(asked[3] == attempt_action(policy, 4));
    assert(asked[4] == attempt_action(policy, 5));
    assert(asked[5] == asked.last());
    assert(asked =~= seq![
        DownloadAction::Fetch,
        DownloadAction::PauseThenFetch { millis: 500 },
        DownloadAction::PauseThenFetch { millis: 500 },
        DownloadAction::PauseThenFetch { millis: 500 },
        DownloadAction::PauseThenFetch { millis: 500 },
        DownloadAction::Finish(DownloadOutcome::RetriesExhausted),
    ]);
}

/// A download whose attempt number `failures.len() + 1` is answered with
/// success, after all earlier ones failed, ends as `Success`: that many
/// failed attempts are on record, the body is saved, and nothing is
/// requested after the success.
pub proof fn lemma_success_ends_retrying(
    policy: RetryPolicy,
    failures: Seq<DownloadEvent>,
    status: u16,
)
    requires
        failures.len() < policy.max_attempts,
        forall|i: int| 0 <= i < failures.len() ==> is_failed_attempt(#[trigger] failures[i]),
        is_success(status),
    ensures
        ({
            let start = RetryState::start(policy);
            let events = opened_then(failures) + seq![
                DownloadEvent::Responded { status },
                DownloadEvent::BodySaved,
            ];
            let end = start.after(events);
            let asked = start.answers(events);
            &&& end.stage == Stage::Finished(DownloadOutcome::Success)
            &&& end.attempts == failures.len() + 1
            &&& end.failed_attempts_spec() == failures.len()
            &&& asked.len() == failures.len() + 3
            &&& forall|i: int|
                0 <= i <= failures.len() ==> #[trigger] asked[i] == attempt_action(policy, i + 1)
            &&& asked[failures.len() as int + 1] == DownloadAction::SaveBody
            &&& asked[failures.len() as int + 2] == DownloadAction::Finish(DownloadOutcome::Success)
        }),
{
    let start = RetryState::start(policy);
    let answered = seq![DownloadEvent::Responded { status }];
    let saved = seq![DownloadEvent::BodySaved];
    let events = opened_then(failures) + seq![
        DownloadEvent::Responded { status },
        DownloadEvent::BodySaved,
    ];
    let asked = start.answers(events);
    let n = failures.len() as int;
    let fetching = RetryState { policy, stage: Stage::Fetching, attempts: (n + 1) as u32 };
    let saving = RetryState { stage: Stage::Saving, ..fetching };
    lemma_failures_lead_on(policy, failures);
    assert(fetching.after(answered) == saving) by {
        assert(answered.drop_last() =~= Seq::<DownloadEvent>::empty());
        assert(fetching.after(answered.drop_last()) == fetching);
    }
    assert forall|i: int| 0 <= i <= n implies #[trigger] asked[i] == attempt_action(policy, i + 1) by {
        assert(events.take(i + 1) =~= opened_then(failures.take(i)));
        lemma_failures_lead_on(policy, failures.take(i));
    }
    assert(start.after(events.take(n + 2)) == saving) by {
        assert(events.take(n + 2) =~= opened_then(failures) + answered);
        lemma_after_concat(start, opened_then(failures), answered);
    }
    assert(start.after(events) == saving.next(DownloadEvent::BodySaved)) by {
        assert(events.drop_last() =~= events.take(n + 2));
        assert(events.last() == DownloadEvent::BodySaved);
    }
    assert(events.take(n + 3) =~= events);
}

/// The attempt counter never passes the policy's maximum, whatever is
/// reported to the download.
pub proof fn lemma_attempts_within_policy(policy: RetryPolicy, events: Seq<DownloadEvent>)
    ensures
        RetryState::start(policy).after(events).attempts <= policy.max_attempts,
        RetryState::start(policy).after(events).policy == policy,
    decreases events.len(),
{
    if events.len() > 0 {
        lemma_attempts_within_policy(policy, events.drop_last());
    }
}

/// A download that has ended stays as it is whatever is reported to it, and
/// asks for nothing but to finish.
pub proof fn lemma_finished_is_final(state: RetryState, events: Seq<DownloadEvent>)
    requires
        state.stage is Finished,
    ensures
        state.after(events) == state,
        state.pending() == DownloadAction::Finish(state.stage->Finished_0),
    decreases events.len(),
{
    if events.len() > 0 {
        lemma_finished_is_final(state, events.drop_last());
    }
}

} // verus!
