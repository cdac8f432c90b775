use nativelink_retry::codes::Code;
use nativelink_retry::config::{JitterAmount, Retry};
use nativelink_retry::duration::Duration;
use nativelink_retry::error::Error;
use nativelink_retry::file::{FileEvent, FilePart, FilePhase, FileRetry, FileStep};
use nativelink_retry::hooks::{RetryJitterFn, RetrySleepFn};
use nativelink_retry::wrapper::{Failure, RetryWrapper};

struct PauseItself;

impl RetrySleepFn for PauseItself {
    type Fut = std::future::Ready<()>;

    fn sleep(&self, _duration: Duration) -> Self::Fut {
        std::future::ready(())
    }
}

struct NoJitter;

impl RetryJitterFn for NoJitter {
    fn jitter(&self, delay: Duration, _jitter_amt: JitterAmount) -> Duration {
        delay
    }
}

type Wrapper = RetryWrapper<PauseItself, NoJitter, ()>;

fn wrapper(max_retries: usize) -> Wrapper {
    let config = Retry {
        max_retries,
        delay: 1,
        jitter: JitterAmount { bits: 0 },
        retry_on_errors: None,
    };
    RetryWrapper::new_with_fns(config, (), PauseItself, NoJitter)
}

fn failure(code: Code) -> Failure {
    Failure { error: Error::new(code, "oops".to_string()), unrecoverable: code == Code::NotFound }
}

fn step(
    wrapper: &Wrapper,
    state: &mut FileRetry<'_, NoJitter>,
    event: FileEvent<u32>,
) -> FileStep<u32, std::future::Ready<()>> {
    wrapper.retry_with_file(state, event)
}

/// Brings an operation to its first opening of the file for an attempt.
fn prepare(wrapper: &Wrapper, state: &mut FileRetry<'_, NoJitter>) {
    assert_eq!(state.phase(), FilePhase::Reader);
    assert!(matches!(
        step(wrapper, state, FileEvent::ReaderReady { limit: 100 }),
        FileStep::GetPosition
    ));
    assert!(matches!(step(wrapper, state, FileEvent::Position(40)), FileStep::Close));
    assert!(matches!(
        step(wrapper, state, FileEvent::Closed),
        FileStep::Open { read_limit: u64::MAX }
    ));
}

/// Brings an operation from an opened file to an attempt.
fn attempt(wrapper: &Wrapper, state: &mut FileRetry<'_, NoJitter>) {
    assert!(matches!(step(wrapper, state, FileEvent::Opened), FileStep::GetReader));
    assert!(matches!(
        step(wrapper, state, FileEvent::ReaderReady { limit: u64::MAX }),
        FileStep::Seek(40)
    ));
    assert!(matches!(
        step(wrapper, state, FileEvent::Sought(40)),
        FileStep::Attempt { limit: 100 }
    ));
}

#[test]
fn every_attempt_reads_the_same_part() {
    let wrapper = wrapper(3);
    let mut state = wrapper.start_with_file();
    prepare(&wrapper, &mut state);
    for _ in 0..3 {
        attempt(&wrapper, &mut state);
        let outcome = Err(failure(Code::Unavailable));
        assert!(wrapper.has_room(state.pauses(), &outcome));
        assert!(matches!(
            step(&wrapper, &mut state, FileEvent::Finished(outcome)),
            FileStep::Sleep(_)
        ));
        assert_eq!(state.phase(), FilePhase::Pause(FilePart { start: 40, limit: 100 }));
        assert!(matches!(
            step(&wrapper, &mut state, FileEvent::Woke),
            FileStep::Open { read_limit: u64::MAX }
        ));
    }
    attempt(&wrapper, &mut state);
    match step(&wrapper, &mut state, FileEvent::Finished(Ok(9))) {
        FileStep::Done(result) => assert_eq!(result, Ok(9)),
        _ => panic!("a success ends the operation"),
    }
    assert_eq!(state.phase(), FilePhase::Ended);
}

#[test]
fn failed_preparation_ends_with_a_note() {
    for prepared in 0..3 {
        let wrapper = wrapper(3);
        let mut state = wrapper.start_with_file();
        if prepared > 0 {
            step(&wrapper, &mut state, FileEvent::ReaderReady { limit: 100 });
        }
        if prepared > 1 {
            step(&wrapper, &mut state, FileEvent::Position(40));
        }
        match step(&wrapper, &mut state, FileEvent::Failed(failure(Code::Unavailable))) {
            FileStep::Done(Err(error)) => {
                assert_eq!(error.code, Code::Unavailable);
                assert_eq!(
                    error.messages,
                    vec!["oops".to_string(), "in RetryWrapper::retry_with_file".to_string()]
                );
            }
            _ => panic!("the operation ends"),
        }
        assert_eq!(state.phase(), FilePhase::Ended);
    }
}

#[test]
fn failed_opening_is_a_failed_attempt() {
    for opened in 0..3 {
        let wrapper = wrapper(1);
        let mut state = wrapper.start_with_file();
        prepare(&wrapper, &mut state);
        for last in [false, true] {
            if opened > 0 {
                step(&wrapper, &mut state, FileEvent::Opened);
            }
            if opened > 1 {
                step(&wrapper, &mut state, FileEvent::ReaderReady { limit: u64::MAX });
            }
            match step(&wrapper, &mut state, FileEvent::Failed(failure(Code::Unavailable))) {
                FileStep::Sleep(_) => assert!(!last),
                FileStep::Done(result) => {
                    assert!(last);
                    assert_eq!(result, Err(Error::new(Code::Unavailable, "oops".to_string())));
                }
                _ => panic!("an attempt ends with a pause or a result"),
            }
            if !last {
                step(&wrapper, &mut state, FileEvent::Woke);
            }
        }
    }
}

#[test]
fn unrecoverable_failure_ends_the_operation() {
    let wrapper = wrapper(5);
    let mut state = wrapper.start_with_file();
    prepare(&wrapper, &mut state);
    match step(&wrapper, &mut state, FileEvent::Failed(failure(Code::NotFound))) {
        FileStep::Done(result) => {
            assert_eq!(result, Err(Error::new(Code::NotFound, "oops".to_string())));
        }
        _ => panic!("the operation ends"),
    }
}

#[test]
fn only_events_that_can_happen_have_room() {
    let wrapper = wrapper(1);
    let mut state = wrapper.start_with_file();
    assert!(wrapper.file_has_room::<u32>(&state, &FileEvent::ReaderReady { limit: 1 }));
    assert!(wrapper.file_has_room::<u32>(&state, &FileEvent::Failed(failure(Code::Aborted))));
    assert!(!wrapper.file_has_room::<u32>(&state, &FileEvent::Position(1)));
    assert!(!wrapper.file_has_room::<u32>(&state, &FileEvent::Woke));
    prepare(&wrapper, &mut state);
    step(&wrapper, &mut state, FileEvent::Opened);
    step(&wrapper, &mut state, FileEvent::ReaderReady { limit: u64::MAX });
    assert!(wrapper.file_has_room::<u32>(&state, &FileEvent::Sought(40)));
    assert!(!wrapper.file_has_room::<u32>(&state, &FileEvent::Sought(41)));
    step(&wrapper, &mut state, FileEvent::Sought(40));
    assert!(wrapper.file_has_room(&state, &FileEvent::Finished(Ok(1u32))));
    assert!(!wrapper.file_has_room::<u32>(&state, &FileEvent::Failed(failure(Code::Aborted))));
    step(&wrapper, &mut state, FileEvent::Finished(Ok(1)));
    assert!(!wrapper.file_has_room(&state, &FileEvent::Finished(Ok(1u32))));
}

#[test]
fn failed_attempt_needs_room_for_its_pause() {
    let config = Retry {
        max_retries: 100,
        delay: u64::MAX,
        jitter: JitterAmount { bits: 0 },
        retry_on_errors: None,
    };
    let wrapper: Wrapper = RetryWrapper::new_with_fns(config, (), PauseItself, NoJitter);
    let mut state = wrapper.start_with_file();
    prepare(&wrapper, &mut state);
    for _ in 0..9 {
        let event = FileEvent::Failed(failure(Code::Unavailable));
        assert!(wrapper.file_has_room::<u32>(&state, &event));
        step(&wrapper, &mut state, event);
        step(&wrapper, &mut state, FileEvent::Woke);
    }
    assert!(!wrapper.file_has_room::<u32>(&state, &FileEvent::Failed(failure(Code::Unavailable))));
    assert!(wrapper.file_has_room::<u32>(&state, &FileEvent::Failed(failure(Code::NotFound))));
}

#[test]
fn file_operation_makes_one_attempt_more_than_retries() {
    let wrapper = wrapper(2);
    let mut state = wrapper.start_with_file();
    prepare(&wrapper, &mut state);
    let mut attempts = 0;
    loop {
        attempt(&wrapper, &mut state);
        attempts += 1;
        match step(&wrapper, &mut state, FileEvent::Finished(Err(failure(Code::Aborted)))) {
            FileStep::Sleep(_) => {
                step(&wrapper, &mut state, FileEvent::Woke);
            }
            _ => break,
        }
    }
    assert_eq!(attempts, 3);
    assert_eq!(state.phase(), FilePhase::Ended);
}
