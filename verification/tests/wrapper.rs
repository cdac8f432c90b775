use nativelink_retry::codes::{Code, ErrorCode};
use nativelink_retry::config::{JitterAmount, Retry};
use nativelink_retry::duration::Duration;
use nativelink_retry::error::Error;
use nativelink_retry::hooks::{RetryJitterFn, RetrySleepFn};
use nativelink_retry::step::Step;
use nativelink_retry::wrapper::{Failure, RetryWrapper};
use std::sync::Mutex;

/// Notes the pauses instead of waiting.
#[derive(Default)]
struct Notes {
    pauses: Mutex<Vec<Duration>>,
}

impl RetrySleepFn for Notes {
    type Fut = std::future::Ready<()>;

    fn sleep(&self, duration: Duration) -> Self::Fut {
        self.pauses.lock().unwrap().push(duration);
        std::future::ready(())
    }
}

/// Adds as many nanoseconds as the jitter amount has for its bits.
#[derive(Default)]
struct AddBits;

impl RetryJitterFn for AddBits {
    fn jitter(&self, delay: Duration, jitter_amt: JitterAmount) -> Duration {
        Duration::new(delay.as_secs(), delay.subsec_nanos() + jitter_amt.bits)
    }
}

fn config(max_retries: usize, listed: Option<Vec<ErrorCode>>) -> Retry {
    Retry { max_retries, delay: 10, jitter: JitterAmount { bits: 3 }, retry_on_errors: listed }
}

fn failure(code: Code, unrecoverable: bool) -> Failure {
    Failure { error: Error::new(code, "failed".to_string()), unrecoverable }
}

type Wrapper = RetryWrapper<Notes, AddBits, u8>;

fn pause(millis: u64) -> Duration {
    let exact = Duration::from_millis(millis);
    Duration::new(exact.as_secs(), exact.subsec_nanos() + 3)
}

fn run(wrapper: &Wrapper, outcomes: Vec<Result<u32, Failure>>) -> Option<Result<u32, Error>> {
    let mut durations = wrapper.backoff_durations();
    for outcome in outcomes {
        assert!(wrapper.has_room(&durations, &outcome));
        match wrapper.retry(&mut durations, outcome) {
            Step::Done(result) => return Some(result),
            Step::Sleep(_) => {}
        }
    }
    None
}

#[test]
fn value_comes_back_after_retries() {
    let wrapper = Wrapper::new(config(2, None), 0);
    let outcomes = vec![
        Err(failure(Code::Unavailable, false)),
        Err(failure(Code::Unavailable, false)),
        Ok(5),
    ];
    assert_eq!(run(&wrapper, outcomes), Some(Ok(5)));
}

#[test]
fn pauses_are_jittered_and_slept() {
    let notes = Notes::default();
    let wrapper = RetryWrapper::new_with_fns(config(3, None), 0u8, notes, AddBits);
    let mut durations = wrapper.backoff_durations();
    assert_eq!(durations.next(), Some(pause(20)));
    assert_eq!(durations.next(), Some(pause(40)));
    assert_eq!(durations.next(), Some(pause(80)));
    assert_eq!(durations.next(), None);
}

#[test]
fn sleep_gets_the_jittered_pause() {
    struct Shared(std::sync::Arc<Notes>);
    impl RetrySleepFn for Shared {
        type Fut = std::future::Ready<()>;

        fn sleep(&self, duration: Duration) -> Self::Fut {
            self.0.sleep(duration)
        }
    }
    let notes = std::sync::Arc::new(Notes::default());
    let wrapper = RetryWrapper::new_with_fns(config(2, None), 0u8, Shared(notes.clone()), AddBits);
    let mut durations = wrapper.backoff_durations();
    for _ in 0..2 {
        let step = wrapper.retry::<u32>(&mut durations, Err(failure(Code::Aborted, false)));
        assert!(matches!(step, Step::Sleep(_)));
    }
    assert_eq!(*notes.pauses.lock().unwrap(), vec![pause(20), pause(40)]);
    match wrapper.retry::<u32>(&mut durations, Err(failure(Code::Aborted, false))) {
        Step::Done(result) => {
            assert_eq!(result, Err(Error::new(Code::Aborted, "failed".to_string())));
        }
        Step::Sleep(_) => panic!("no retry is left"),
    }
    assert_eq!(notes.pauses.lock().unwrap().len(), 2);
}

#[test]
fn unrecoverable_error_comes_back_at_once() {
    let wrapper = Wrapper::new(config(5, None), 0);
    let outcomes = vec![Err(failure(Code::NotFound, true)), Ok(5)];
    assert_eq!(
        run(&wrapper, outcomes),
        Some(Err(Error::new(Code::NotFound, "failed".to_string())))
    );
}

#[test]
fn should_retry_goes_by_list_and_recoverability() {
    let plain = Wrapper::new(config(5, None), 0);
    assert!(plain.should_retry(&failure(Code::Unavailable, false)));
    assert!(!plain.should_retry(&failure(Code::Unavailable, true)));
    assert!(!plain.should_retry(&failure(Code::Success, false)));
    let listed = Wrapper::new(config(5, Some(vec![ErrorCode::NotFound])), 0);
    assert!(listed.should_retry(&failure(Code::NotFound, true)));
    assert!(listed.should_retry(&failure(Code::Unavailable, false)));
    assert!(!listed.should_retry(&failure(Code::DataLoss, true)));
    assert!(!listed.should_retry(&failure(Code::Success, false)));
    let unknown = Wrapper::new(config(5, Some(vec![ErrorCode::Unknown])), 0);
    assert!(unknown.should_retry(&failure(Code::Success, false)));
}

#[test]
fn store_is_the_one_handed_in() {
    let wrapper = Wrapper::new(config(0, None), 42);
    assert_eq!(**wrapper.store(), 42);
}

#[test]
fn room_is_only_needed_for_a_retry() {
    let mut wide = config(1, None);
    wide.delay = u64::MAX;
    let wrapper = Wrapper::new(wide, 0);
    let mut durations = wrapper.backoff_durations();
    assert!(wrapper.has_room::<u32>(&durations, &Err(failure(Code::Aborted, false))));
    let mut huge = config(100, None);
    huge.delay = u64::MAX;
    huge.jitter = JitterAmount { bits: 0 };
    let wrapper = Wrapper::new(huge, 0);
    durations = wrapper.backoff_durations();
    let mut retries = 0;
    while wrapper.has_room::<u32>(&durations, &Err(failure(Code::Aborted, false))) {
        wrapper.retry::<u32>(&mut durations, Err(failure(Code::Aborted, false)));
        retries += 1;
    }
    assert_eq!(retries, 9);
    assert!(wrapper.has_room(&durations, &Ok(1u32)));
    assert!(wrapper.has_room::<u32>(&durations, &Err(failure(Code::Aborted, true))));
}

#[test]
fn functions_can_wait_and_vary_pauses() {
    let slept = Mutex::new(Vec::new());
    let waits = |duration: Duration| {
        slept.lock().unwrap().push(duration);
        std::future::ready(())
    };
    let varies = |delay: Duration, jitter_amt: JitterAmount| {
        Duration::new(0, delay.subsec_nanos() + jitter_amt.bits * 1_000_000)
    };
    let wrapper = RetryWrapper::new_with_fns(config(1, None), 0u8, waits, varies);
    let mut durations = wrapper.backoff_durations();
    let step = wrapper.retry::<u32>(&mut durations, Err(failure(Code::Aborted, false)));
    assert!(matches!(step, Step::Sleep(_)));
    assert_eq!(*slept.lock().unwrap(), vec![Duration::from_millis(23)]);
}

#[test]
fn functions_are_hooks_themselves() {
    let twice = |delay: Duration, _: JitterAmount| delay.checked_double().unwrap();
    assert_eq!(
        twice.jitter(Duration::from_millis(3), JitterAmount { bits: 0 }),
        Duration::from_millis(6)
    );
    let noted = Mutex::new(None);
    let waits = |duration: Duration| {
        *noted.lock().unwrap() = Some(duration);
        std::future::ready(())
    };
    waits.sleep(Duration::from_millis(4));
    assert_eq!(*noted.lock().unwrap(), Some(Duration::from_millis(4)));
}

#[test]
fn durations_count_the_retries_made() {
    let wrapper = Wrapper::new(config(2, None), 0);
    let mut durations = wrapper.backoff_durations();
    assert_eq!(durations.retries_made(), 0);
    wrapper.retry(&mut durations, Ok(1u32));
    assert_eq!(durations.retries_made(), 0);
    for made in [1, 2, 2] {
        wrapper.retry::<u32>(&mut durations, Err(failure(Code::Aborted, false)));
        assert_eq!(durations.retries_made(), made);
    }
}
