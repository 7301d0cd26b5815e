use web_crawler::download::{
    DownloadAction, DownloadEvent, RetryPolicy, RetryState, Stage, MAX_ATTEMPTS, PAUSE_MILLIS,
};
use web_crawler::outcome::DownloadOutcome;

/// Drives a download with the results of its attempts, as a driver would,
/// and returns every action that was asked for.
fn drive(policy: RetryPolicy, attempts: &[DownloadEvent], save: DownloadEvent) -> (RetryState, Vec<DownloadAction>) {
    let mut state = RetryState::begin(policy);
    let mut asked = vec![state.pending_action()];
    let mut next_attempt = 0;
    loop {
        let event = match *asked.last().unwrap() {
            DownloadAction::OpenFile => DownloadEvent::FileOpened,
            DownloadAction::Fetch | DownloadAction::PauseThenFetch { .. } => {
                let event = attempts[next_attempt];
                next_attempt += 1;
                event
            }
            DownloadAction::SaveBody => save,
            DownloadAction::Finish(_) => return (state, asked),
        };
        asked.push(state.step(event));
    }
}

fn pauses(asked: &[DownloadAction]) -> Vec<u64> {
    asked
        .iter()
        .filter_map(|action| match action {
            DownloadAction::PauseThenFetch { millis } => Some(*millis),
            _ => None,
        })
        .collect()
}

fn requests(asked: &[DownloadAction]) -> usize {
    asked
        .iter()
        .filter(|action| matches!(action, DownloadAction::Fetch | DownloadAction::PauseThenFetch { .. }))
        .count()
}

#[test]
fn standard_policy_is_five_attempts_half_a_second_apart() {
    let policy = RetryPolicy::standard();
    assert_eq!(policy.max_attempts, 5);
    assert_eq!(policy.pause_millis, 500);
    assert_eq!(MAX_ATTEMPTS, 5);
    assert_eq!(PAUSE_MILLIS, 500);
}

#[test]
fn a_download_begins_by_opening_its_file() {
    let state = RetryState::begin(RetryPolicy::standard());
    assert_eq!(state.stage, Stage::Opening);
    assert_eq!(state.attempts, 0);
    assert_eq!(state.pending_action(), DownloadAction::OpenFile);
    assert_eq!(state.outcome(), None);
    assert_eq!(state.failed_attempts(), 0);
}

#[test]
fn always_failing_resource_exhausts_after_five_attempts_and_four_pauses() {
    let refusals = [DownloadEvent::Responded { status: 403 }; 8];
    let (state, asked) = drive(RetryPolicy::standard(), &refusals, DownloadEvent::BodySaved);
    assert_eq!(state.outcome(), Some(DownloadOutcome::RetriesExhausted));
    assert_eq!(state.attempts, 5);
    assert_eq!(state.failed_attempts(), 5);
    assert_eq!(requests(&asked), 5);
    assert_eq!(pauses(&asked), vec![500, 500, 500, 500]);
    assert_eq!(pauses(&asked).iter().sum::<u64>(), 2000);
    assert_eq!(
        asked,
        vec![
            DownloadAction::OpenFile,
            DownloadAction::Fetch,
            DownloadAction::PauseThenFetch { millis: 500 },
            DownloadAction::PauseThenFetch { millis: 500 },
            DownloadAction::PauseThenFetch { millis: 500 },
            DownloadAction::PauseThenFetch { millis: 500 },
            DownloadAction::Finish(DownloadOutcome::RetriesExhausted),
        ]
    );
}

#[test]
fn success_on_the_third_attempt_records_two_failures_and_stops() {
    let results = [
        DownloadEvent::Responded { status: 403 },
        DownloadEvent::Responded { status: 500 },
        DownloadEvent::Responded { status: 200 },
        DownloadEvent::Responded { status: 200 },
        DownloadEvent::Responded { status: 200 },
    ];
    let (mut state, asked) = drive(RetryPolicy::standard(), &results, DownloadEvent::BodySaved);
    assert_eq!(state.outcome(), Some(DownloadOutcome::Success));
    assert_eq!(state.attempts, 3);
    assert_eq!(state.failed_attempts(), 2);
    assert_eq!(
        asked,
        vec![
            DownloadAction::OpenFile,
            DownloadAction::Fetch,
            DownloadAction::PauseThenFetch { millis: 500 },
            DownloadAction::PauseThenFetch { millis: 500 },
            DownloadAction::SaveBody,
            DownloadAction::Finish(DownloadOutcome::Success),
        ]
    );
    for event in [
        DownloadEvent::Responded { status: 403 },
        DownloadEvent::TransportFailed,
        DownloadEvent::FileOpened,
        DownloadEvent::BodySaveFailed,
    ] {
        assert_eq!(state.step(event), DownloadAction::Finish(DownloadOutcome::Success));
        assert_eq!(state.attempts, 3);
    }
}

#[test]
fn success_on_the_first_attempt_needs_no_pause() {
    let (state, asked) = drive(
        RetryPolicy::standard(),
        &[DownloadEvent::Responded { status: 200 }],
        DownloadEvent::BodySaved,
    );
    assert_eq!(state.outcome(), Some(DownloadOutcome::Success));
    assert_eq!(state.failed_attempts(), 0);
    assert_eq!(pauses(&asked), Vec::<u64>::new());
    assert_eq!(requests(&asked), 1);
}

#[test]
fn success_on_the_last_attempt_still_succeeds() {
    let results = [
        DownloadEvent::TransportFailed,
        DownloadEvent::TransportFailed,
        DownloadEvent::TransportFailed,
        DownloadEvent::TransportFailed,
        DownloadEvent::Responded { status: 204 },
    ];
    let (state, asked) = drive(RetryPolicy::standard(), &results, DownloadEvent::BodySaved);
    assert_eq!(state.outcome(), Some(DownloadOutcome::Success));
    assert_eq!(state.attempts, 5);
    assert_eq!(state.failed_attempts(), 4);
    assert_eq!(requests(&asked), 5);
}

#[test]
fn transport_failures_consume_attempts_and_do_not_end_the_download_early() {
    let results = [DownloadEvent::TransportFailed; 5];
    let (state, asked) = drive(RetryPolicy::standard(), &results, DownloadEvent::BodySaved);
    assert_eq!(state.outcome(), Some(DownloadOutcome::RetriesExhausted));
    assert_eq!(requests(&asked), 5);
    assert_eq!(pauses(&asked).len(), 4);
}

#[test]
fn a_file_that_cannot_be_created_ends_the_download_at_once() {
    let mut state = RetryState::begin(RetryPolicy::standard());
    let action = state.step(DownloadEvent::FileOpenFailed);
    assert_eq!(action, DownloadAction::Finish(DownloadOutcome::FilesystemError));
    assert_eq!(state.outcome(), Some(DownloadOutcome::FilesystemError));
    assert_eq!(state.attempts, 0);
    assert_eq!(state.failed_attempts(), 0);
}

#[test]
fn a_body_that_cannot_be_saved_is_a_filesystem_error_and_is_not_retried() {
    let (state, asked) = drive(
        RetryPolicy::standard(),
        &[DownloadEvent::Responded { status: 200 }; 5],
        DownloadEvent::BodySaveFailed,
    );
    assert_eq!(state.outcome(), Some(DownloadOutcome::FilesystemError));
    assert_eq!(requests(&asked), 1);
    assert_eq!(asked.last(), Some(&DownloadAction::Finish(DownloadOutcome::FilesystemError)));
}

#[test]
fn only_codes_from_200_to_299_are_success() {
    for (status, success) in [(100, false), (199, false), (200, true), (204, true), (299, true), (300, false), (403, false), (404, false), (500, false), (0, false), (u16::MAX, false)] {
        let mut state = RetryState::begin(RetryPolicy::standard());
        state.step(DownloadEvent::FileOpened);
        let action = state.step(DownloadEvent::Responded { status });
        if success {
            assert_eq!(action, DownloadAction::SaveBody);
            assert_eq!(state.stage, Stage::Saving);
        } else {
            assert_eq!(action, DownloadAction::PauseThenFetch { millis: 500 });
            assert_eq!(state.attempts, 2);
        }
    }
}

#[test]
fn an_event_that_answers_nothing_changes_nothing() {
    let mut state = RetryState::begin(RetryPolicy::standard());
    for event in [
        DownloadEvent::Responded { status: 200 },
        DownloadEvent::TransportFailed,
        DownloadEvent::BodySaved,
        DownloadEvent::BodySaveFailed,
    ] {
        let before = state;
        assert_eq!(state.step(event), DownloadAction::OpenFile);
        assert_eq!(state, before);
    }
    state.step(DownloadEvent::FileOpened);
    for event in [DownloadEvent::FileOpened, DownloadEvent::FileOpenFailed, DownloadEvent::BodySaved, DownloadEvent::BodySaveFailed] {
        let before = state;
        assert_eq!(state.step(event), DownloadAction::Fetch);
        assert_eq!(state, before);
    }
}

#[test]
fn a_policy_of_one_attempt_never_pauses() {
    let policy = RetryPolicy { max_attempts: 1, pause_millis: 500 };
    let (state, asked) = drive(policy, &[DownloadEvent::Responded { status: 503 }], DownloadEvent::BodySaved);
    assert_eq!(state.outcome(), Some(DownloadOutcome::RetriesExhausted));
    assert_eq!(
        asked,
        vec![
            DownloadAction::OpenFile,
            DownloadAction::Fetch,
            DownloadAction::Finish(DownloadOutcome::RetriesExhausted),
        ]
    );
}

#[test]
fn a_policy_without_attempts_gives_up_once_the_file_is_open() {
    let policy = RetryPolicy { max_attempts: 0, pause_millis: 500 };
    let (state, asked) = drive(policy, &[], DownloadEvent::BodySaved);
    assert_eq!(state.outcome(), Some(DownloadOutcome::RetriesExhausted));
    assert_eq!(state.attempts, 0);
    assert_eq!(
        asked,
        vec![DownloadAction::OpenFile, DownloadAction::Finish(DownloadOutcome::RetriesExhausted)]
    );
}

#[test]
fn the_pause_is_the_policys() {
    let policy = RetryPolicy { max_attempts: 3, pause_millis: 42 };
    let (_, asked) = drive(policy, &[DownloadEvent::TransportFailed; 3], DownloadEvent::BodySaved);
    assert_eq!(pauses(&asked), vec![42, 42]);
}

#[test]
fn the_attempt_counter_does_not_overflow() {
    let policy = RetryPolicy { max_attempts: u32::MAX, pause_millis: 0 };
    let mut state = RetryState { policy, stage: Stage::Fetching, attempts: u32::MAX };
    let action = state.step(DownloadEvent::TransportFailed);
    assert_eq!(action, DownloadAction::Finish(DownloadOutcome::RetriesExhausted));
    assert_eq!(state.attempts, u32::MAX);
    assert_eq!(state.failed_attempts(), u32::MAX);
}
