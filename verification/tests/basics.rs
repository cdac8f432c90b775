use nativelink_retry::backoff::{BackoffSchedule, ExponentialBackoff};
use nativelink_retry::cell::RetryCell;
use nativelink_retry::codes::{is_covered, to_error_code, Code, ErrorCode};
use nativelink_retry::config::{JitterAmount, Retry};
use nativelink_retry::duration::Duration;
use nativelink_retry::error::{ended_abruptly, on_attempt, Error};

const STATUSES: [Code; 17] = [
    Code::Success,
    Code::Cancelled,
    Code::Unknown,
    Code::InvalidArgument,
    Code::DeadlineExceeded,
    Code::NotFound,
    Code::AlreadyExists,
    Code::PermissionDenied,
    Code::ResourceExhausted,
    Code::FailedPrecondition,
    Code::Aborted,
    Code::OutOfRange,
    Code::Unimplemented,
    Code::Internal,
    Code::Unavailable,
    Code::DataLoss,
    Code::Unauthenticated,
];

fn config(max_retries: usize, delay: u64) -> Retry {
    Retry { max_retries, delay, jitter: JitterAmount { bits: 0 }, retry_on_errors: None }
}

fn parts(d: Duration) -> (u64, u32) {
    (d.as_secs(), d.subsec_nanos())
}

#[test]
fn duration_from_millis_splits_into_seconds_and_nanoseconds() {
    assert_eq!(parts(Duration::from_millis(0)), (0, 0));
    assert_eq!(parts(Duration::from_millis(1)), (0, 1_000_000));
    assert_eq!(parts(Duration::from_millis(2_345)), (2, 345_000_000));
    assert_eq!(
        parts(Duration::from_millis(u64::MAX)),
        (18_446_744_073_709_551, 615_000_000)
    );
}

#[test]
fn duration_agrees_with_std() {
    for millis in [0u64, 1, 999, 1000, 1001, 123_456_789, u64::MAX] {
        let ours = Duration::from_millis(millis);
        let std = std::time::Duration::from_millis(millis);
        assert_eq!(parts(ours), (std.as_secs(), std.subsec_nanos()));
        assert_eq!(Duration::new(std.as_secs(), std.subsec_nanos()), ours);
        let twice = std * 2;
        assert_eq!(
            ours.checked_double().map(parts),
            Some((twice.as_secs(), twice.subsec_nanos()))
        );
    }
}

#[test]
fn duration_doubles_up_to_the_longest_span() {
    let longest = Duration::new(u64::MAX, 999_999_999);
    assert_eq!(parts(longest), (u64::MAX, 999_999_999));
    assert_eq!(longest.checked_double(), None);
    let half = Duration::new(u64::MAX / 2, 999_999_999);
    assert_eq!(half.checked_double().map(parts), Some((u64::MAX, 999_999_998)));
    let just_over = Duration::new(u64::MAX / 2 + 1, 0);
    assert_eq!(just_over.checked_double(), None);
}

#[test]
fn backoff_starts_at_twice_the_base_and_doubles() {
    let mut backoff = ExponentialBackoff::new(Duration::from_millis(100));
    assert_eq!(backoff.next(), Some(Duration::from_millis(200)));
    assert_eq!(backoff.next(), Some(Duration::from_millis(400)));
    assert_eq!(backoff.next(), Some(Duration::from_millis(800)));
}

#[test]
fn backoff_of_nothing_stays_nothing() {
    let mut backoff = ExponentialBackoff::new(Duration::from_millis(0));
    for _ in 0..1000 {
        assert!(backoff.has_room());
        assert_eq!(backoff.next(), Some(Duration::from_millis(0)));
    }
}

#[test]
fn backoff_knows_when_it_runs_out_of_range() {
    let mut backoff = ExponentialBackoff::new(Duration::from_millis(1));
    let mut std = std::time::Duration::from_millis(1);
    let mut doublings = 0;
    while backoff.has_room() {
        std = std.checked_mul(2).unwrap();
        assert_eq!(backoff.next().map(parts), Some((std.as_secs(), std.subsec_nanos())));
        doublings += 1;
    }
    assert!(std.checked_mul(2).is_none());
    assert_eq!(doublings, 73);
}

#[test]
fn schedule_has_one_delay_for_each_retry() {
    let mut schedule = BackoffSchedule::new(&config(3, 5));
    assert_eq!(schedule.next(), Some(Duration::from_millis(10)));
    assert_eq!(schedule.next(), Some(Duration::from_millis(20)));
    assert_eq!(schedule.next(), Some(Duration::from_millis(40)));
    assert_eq!(schedule.retries_made(), 3);
    assert_eq!(schedule.next(), None);
    assert_eq!(schedule.next(), None);
    assert_eq!(schedule.retries_made(), 3);
}

#[test]
fn schedule_without_retries_always_has_room() {
    let schedule = BackoffSchedule::new(&config(0, u64::MAX));
    assert!(schedule.has_room());
}

#[test]
fn schedule_is_empty_without_retries() {
    let mut schedule = BackoffSchedule::new(&config(0, 5));
    assert_eq!(schedule.next(), None);
}

#[test]
fn error_codes_name_the_same_status() {
    assert_eq!(to_error_code(&Code::Cancelled), ErrorCode::Cancelled);
    assert_eq!(to_error_code(&Code::Unknown), ErrorCode::Unknown);
    assert_eq!(to_error_code(&Code::InvalidArgument), ErrorCode::InvalidArgument);
    assert_eq!(to_error_code(&Code::DeadlineExceeded), ErrorCode::DeadlineExceeded);
    assert_eq!(to_error_code(&Code::NotFound), ErrorCode::NotFound);
    assert_eq!(to_error_code(&Code::AlreadyExists), ErrorCode::AlreadyExists);
    assert_eq!(to_error_code(&Code::PermissionDenied), ErrorCode::PermissionDenied);
    assert_eq!(to_error_code(&Code::ResourceExhausted), ErrorCode::ResourceExhausted);
    assert_eq!(to_error_code(&Code::FailedPrecondition), ErrorCode::FailedPrecondition);
    assert_eq!(to_error_code(&Code::Aborted), ErrorCode::Aborted);
    assert_eq!(to_error_code(&Code::OutOfRange), ErrorCode::OutOfRange);
    assert_eq!(to_error_code(&Code::Unimplemented), ErrorCode::Unimplemented);
    assert_eq!(to_error_code(&Code::Internal), ErrorCode::Internal);
    assert_eq!(to_error_code(&Code::Unavailable), ErrorCode::Unavailable);
    assert_eq!(to_error_code(&Code::DataLoss), ErrorCode::DataLoss);
    assert_eq!(to_error_code(&Code::Unauthenticated), ErrorCode::Unauthenticated);
}

#[test]
fn success_goes_under_unknown() {
    assert_eq!(to_error_code(&Code::Success), ErrorCode::Unknown);
}

#[test]
fn only_success_and_unknown_share_an_error_code() {
    for (i, a) in STATUSES.iter().enumerate() {
        for b in STATUSES.iter().skip(i + 1) {
            let shared = *a == Code::Success && *b == Code::Unknown;
            assert_eq!(to_error_code(a) == to_error_code(b), shared);
        }
    }
}

#[test]
fn a_list_covers_what_it_names() {
    let listed = vec![ErrorCode::NotFound, ErrorCode::Unknown];
    for code in STATUSES {
        let expected = matches!(code, Code::NotFound | Code::Unknown | Code::Success);
        assert_eq!(is_covered(&listed, &code), expected);
        assert!(!is_covered(&vec![], &code));
    }
}

#[test]
fn cell_over_borrowed_data_reaches_the_lender() {
    let mut results = [None, Some(3usize)];
    {
        let mut cell = RetryCell::new(&mut results);
        cell.get()[0] = Some(1);
        assert_eq!(cell.get()[0], Some(1));
        cell.get()[1] = None;
    }
    assert_eq!(results, [Some(1), None]);
}

#[test]
fn cell_keeps_what_an_attempt_left() {
    let mut cell = RetryCell::owned(vec![1u8]);
    cell.get().push(2);
    assert_eq!(*cell.get(), vec![1u8, 2]);
}

#[test]
fn attempt_messages_count_in_decimal() {
    assert_eq!(on_attempt(0), "On attempt 0");
    assert_eq!(on_attempt(7), "On attempt 7");
    assert_eq!(on_attempt(10), "On attempt 10");
    assert_eq!(on_attempt(1234567890), "On attempt 1234567890");
    assert_eq!(ended_abruptly(1), "Retry stream ended abruptly on attempt 1");
    assert_eq!(
        ended_abruptly(2147483647),
        "Retry stream ended abruptly on attempt 2147483647"
    );
}

#[test]
fn messages_are_appended_in_order() {
    let error = Error::new(Code::Aborted, "first".to_string()).append("second".to_string());
    assert_eq!(error.code, Code::Aborted);
    assert_eq!(error.messages, vec!["first".to_string(), "second".to_string()]);
}

#[test]
fn copied_configuration_is_the_same() {
    let mut original = config(3, 7);
    original.retry_on_errors = Some(vec![ErrorCode::Aborted, ErrorCode::Internal]);
    assert_eq!(original.clone(), original);
    assert_eq!(config(1, 2).clone(), config(1, 2));
}

#[test]
fn schedule_whose_last_delay_is_in_range_always_has_room() {
    let mut schedule = BackoffSchedule::new(&config(73, 1));
    for _ in 0..73 {
        assert!(schedule.has_room());
        assert!(schedule.next().is_some());
    }
    assert!(schedule.has_room());
    assert_eq!(schedule.next(), None);
    let mut longer = BackoffSchedule::new(&config(74, 1));
    for _ in 0..73 {
        assert!(longer.has_room());
        longer.next();
    }
    assert!(!longer.has_room());
}
