use nativelink_retry::codes::{Code, ErrorCode};
use nativelink_retry::config::{JitterAmount, Retry};
use nativelink_retry::duration::Duration;
use nativelink_retry::error::Error;
use nativelink_retry::retrier::{Retrier, RetryResult};
use nativelink_retry::step::Step;
use std::sync::Arc;

fn config(max_retries: usize, delay: u64, listed: Option<Vec<ErrorCode>>) -> Retry {
    Retry { max_retries, delay, jitter: JitterAmount { bits: 0 }, retry_on_errors: listed }
}

fn error(code: Code, message: &str) -> Error {
    Error::new(code, message.to_string())
}

fn texts(error: &Error) -> Vec<&str> {
    error.messages.iter().map(|message| message.as_str()).collect()
}

/// Runs a retrier over what its attempts come to. The wait of a pause is the
/// pause itself, so what comes back are the pauses, the number of attempts and
/// the result.
fn run(config: Retry, polls: Vec<Option<RetryResult<u32>>>) -> (Vec<Duration>, usize, Option<Result<u32, Error>>) {
    let retrier = Retrier::new(
        Arc::new(|pause: Duration| pause),
        Arc::new(|delay: Duration| delay),
        config,
    );
    let mut progress = retrier.start();
    let mut pauses = Vec::new();
    let mut attempts = 0;
    for polled in polls {
        attempts += 1;
        assert!(retrier.has_room(&progress, &polled));
        match retrier.retry(&mut progress, polled) {
            Step::Done(result) => return (pauses, attempts, Some(result)),
            Step::Sleep(pause) => pauses.push(pause),
        }
        assert_eq!(progress.attempt() as usize, attempts);
    }
    (pauses, attempts, None)
}

fn again(code: Code) -> Option<RetryResult<u32>> {
    Some(RetryResult::Retry(error(code, "busy")))
}

#[test]
fn success_comes_back_at_once() {
    let (pauses, attempts, result) = run(config(5, 1, None), vec![Some(RetryResult::Success(7)), None]);
    assert_eq!(pauses, vec![]);
    assert_eq!(attempts, 1);
    assert_eq!(result, Some(Ok(7)));
}

#[test]
fn success_after_retries_comes_back() {
    let polls = vec![again(Code::Unavailable), again(Code::Aborted), Some(RetryResult::Success(7))];
    let (pauses, attempts, result) = run(config(2, 100, None), polls);
    assert_eq!(pauses, vec![Duration::from_millis(200), Duration::from_millis(400)]);
    assert_eq!(attempts, 3);
    assert_eq!(result, Some(Ok(7)));
}

#[test]
fn last_error_comes_back_when_retries_are_used_up() {
    let polls = vec![again(Code::Unavailable), again(Code::Unavailable), again(Code::Internal), again(Code::Unavailable)];
    let (pauses, attempts, result) = run(config(2, 1, None), polls);
    assert_eq!(pauses, vec![Duration::from_millis(2), Duration::from_millis(4)]);
    assert_eq!(attempts, 3);
    let failed = result.unwrap().unwrap_err();
    assert_eq!(failed.code, Code::Internal);
    assert_eq!(texts(&failed), vec!["busy", "On attempt 3"]);
}

#[test]
fn no_retries_still_make_one_attempt() {
    let (pauses, attempts, result) = run(config(0, 1, None), vec![again(Code::Unavailable)]);
    assert_eq!(pauses, vec![]);
    assert_eq!(attempts, 1);
    assert_eq!(texts(&result.unwrap().unwrap_err()), vec!["busy", "On attempt 1"]);
}

#[test]
fn final_error_names_the_attempt() {
    let polls = vec![again(Code::Unavailable), Some(RetryResult::Failure(error(Code::DataLoss, "gone")))];
    let (pauses, _, result) = run(config(9, 1, None), polls);
    assert_eq!(pauses.len(), 1);
    let failed = result.unwrap().unwrap_err();
    assert_eq!(failed.code, Code::DataLoss);
    assert_eq!(texts(&failed), vec!["gone", "On attempt 2"]);
}

#[test]
fn permanent_error_comes_back_unchanged() {
    let (pauses, attempts, result) = run(config(9, 1, None), vec![again(Code::Aborted), again(Code::NotFound)]);
    assert_eq!(pauses.len(), 1);
    assert_eq!(attempts, 2);
    assert_eq!(result, Some(Err(error(Code::NotFound, "busy"))));
}

#[test]
fn ended_stream_is_an_internal_error() {
    let (_, attempts, result) = run(config(9, 1, None), vec![again(Code::Aborted), None]);
    assert_eq!(attempts, 2);
    assert_eq!(
        result,
        Some(Err(error(Code::Internal, "Retry stream ended abruptly on attempt 2")))
    );
}

#[test]
fn unfinished_run_has_no_result() {
    let (pauses, _, result) = run(config(9, 1, None), vec![again(Code::Aborted), again(Code::Aborted)]);
    assert_eq!(pauses.len(), 2);
    assert_eq!(result, None);
}

#[test]
fn jitter_and_sleep_get_the_delay_one_after_the_other() {
    let retrier = Retrier::new(
        Arc::new(|pause: Duration| (pause.as_secs(), pause.subsec_nanos())),
        Arc::new(|delay: Duration| Duration::new(delay.as_secs() + 1, delay.subsec_nanos())),
        config(3, 750, None),
    );
    let mut progress = retrier.start();
    let waits: Vec<(u64, u32)> = (0..3)
        .map(|_| match retrier.retry(&mut progress, again(Code::Aborted)) {
            Step::Sleep(wait) => wait,
            Step::Done(_) => panic!("retries are left"),
        })
        .collect();
    assert_eq!(waits, vec![(2, 500_000_000), (4, 0), (7, 0)]);
}

#[test]
fn retry_config_yields_jittered_pauses() {
    let retrier = Retrier::new(
        Arc::new(()),
        Arc::new(|delay: Duration| Duration::new(delay.as_secs(), 5)),
        config(2, 500, None),
    );
    let mut durations = retrier.get_retry_config();
    assert_eq!(durations.next(), Some(Duration::new(1, 5)));
    assert_eq!(durations.next(), Some(Duration::new(2, 5)));
    assert_eq!(durations.next(), None);
}

#[test]
fn default_codes_are_the_temporary_ones() {
    let retrier = Retrier::new(Arc::new(()), Arc::new(()), config(1, 1, None));
    for code in [
        Code::Success,
        Code::InvalidArgument,
        Code::FailedPrecondition,
        Code::OutOfRange,
        Code::Unimplemented,
        Code::NotFound,
        Code::AlreadyExists,
        Code::PermissionDenied,
        Code::Unauthenticated,
    ] {
        assert!(!retrier.should_retry(&code));
    }
    for code in [
        Code::Cancelled,
        Code::Unknown,
        Code::DeadlineExceeded,
        Code::ResourceExhausted,
        Code::Aborted,
        Code::Internal,
        Code::Unavailable,
        Code::DataLoss,
    ] {
        assert!(retrier.should_retry(&code));
    }
}

#[test]
fn listed_codes_replace_the_default_ones() {
    let listed = Some(vec![ErrorCode::NotFound, ErrorCode::Unknown]);
    let retrier = Retrier::new(Arc::new(()), Arc::new(()), config(1, 1, listed));
    assert!(retrier.should_retry(&Code::NotFound));
    assert!(retrier.should_retry(&Code::Unknown));
    assert!(!retrier.should_retry(&Code::Unavailable));
    assert!(!retrier.should_retry(&Code::Success));
    let none = Retrier::new(Arc::new(()), Arc::new(()), config(1, 1, Some(vec![])));
    assert!(!none.should_retry(&Code::Unavailable));
}

#[test]
fn room_runs_out_with_the_range_of_durations() {
    let retrier = Retrier::new(
        Arc::new(|_: Duration| ()),
        Arc::new(|delay: Duration| delay),
        config(1000, u64::MAX, None),
    );
    let mut progress = retrier.start();
    let mut retries = 0;
    while retrier.has_room(&progress, &again(Code::Aborted)) {
        retrier.retry(&mut progress, again(Code::Aborted));
        retries += 1;
    }
    assert_eq!(retries, 9);
    assert!(retrier.has_room(&progress, &again(Code::NotFound)));
    assert!(retrier.has_room::<u32>(&progress, &None));
}

#[test]
fn clones_decide_alike() {
    let listed = Some(vec![ErrorCode::NotFound]);
    let retrier = Retrier::new(
        Arc::new(|pause: Duration| pause),
        Arc::new(|delay: Duration| delay),
        config(1, 3, listed),
    );
    let copy = retrier.clone();
    assert!(copy.should_retry(&Code::NotFound));
    assert!(!copy.should_retry(&Code::Unavailable));
    let mut progress = copy.start();
    match copy.retry(&mut progress, again(Code::NotFound)) {
        Step::Sleep(pause) => assert_eq!(pause, Duration::from_millis(6)),
        Step::Done(_) => panic!("a retry is left"),
    }
}

#[test]
fn results_compare_by_content() {
    let a: RetryResult<u32> = RetryResult::Retry(error(Code::Aborted, "x"));
    assert_eq!(a, RetryResult::Retry(error(Code::Aborted, "x")));
    assert_ne!(a, RetryResult::Failure(error(Code::Aborted, "x")));
}
