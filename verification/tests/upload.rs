use bytes::Bytes;
use nativelink_retry::codes::Code;
use nativelink_retry::config::{JitterAmount, Retry};
use nativelink_retry::duration::Duration;
use nativelink_retry::error::Error;
use nativelink_retry::hooks::{RetryJitterFn, RetrySleepFn};
use nativelink_retry::reader::RetriableReader;
use nativelink_retry::upload::{ReaderEvent, ReaderPhase, ReaderStep};
use nativelink_retry::wrapper::{Failure, RetryWrapper};

struct NoSleep;

impl RetrySleepFn for NoSleep {
    type Fut = std::future::Ready<()>;

    fn sleep(&self, _duration: Duration) -> Self::Fut {
        std::future::ready(())
    }
}

struct NoJitter;

impl RetryJitterFn for NoJitter {
    fn jitter(&self, delay: Duration, _jitter_amt: JitterAmount) -> Duration {
        delay
    }
}

fn wrapper(max_retries: usize) -> RetryWrapper<NoSleep, NoJitter, ()> {
    let config = Retry {
        max_retries,
        delay: 1,
        jitter: JitterAmount { bits: 0 },
        retry_on_errors: None,
    };
    RetryWrapper::new_with_fns(config, (), NoSleep, NoJitter)
}

fn failed() -> Result<u32, Failure> {
    Err(Failure {
        error: Error::new(Code::Unavailable, "broke off".to_string()),
        unrecoverable: false,
    })
}

#[test]
fn reader_replays_what_it_recorded() {
    let mut source = vec![1u8];
    let mut reader = RetriableReader::new(&mut source);
    assert!(reader.get().is_empty());
    reader.record(Bytes::from_static(b"ab"));
    reader.record(Bytes::from_static(b"c"));
    assert_eq!(reader.get(), vec![Bytes::from_static(b"ab"), Bytes::from_static(b"c")]);
    assert_eq!(reader.get().len(), 2);
}

#[test]
fn reader_leaves_out_empty_chunks() {
    let mut source = ();
    let mut reader = RetriableReader::new(&mut source);
    reader.record(Bytes::new());
    reader.record(Bytes::from_static(b"x"));
    reader.record(Bytes::new());
    reader.record(Bytes::from(vec![7u8, 8]));
    assert_eq!(reader.get(), vec![Bytes::from_static(b"x"), Bytes::from(vec![7u8, 8])]);
}

#[test]
fn reader_hands_out_its_source() {
    let mut source = vec![1u8, 2];
    {
        let mut reader = RetriableReader::new(&mut source);
        assert_eq!(reader.source().pop(), Some(2));
        reader.source().push(9);
    }
    assert_eq!(source, vec![1u8, 9]);
}

#[test]
fn every_attempt_is_sent_all_data() {
    let wrapper = wrapper(2);
    let mut source: Vec<Bytes> = vec![
        Bytes::new(),
        Bytes::from_static(b"!"),
        Bytes::from_static(b"world"),
        Bytes::from_static(b"hello "),
    ];
    let mut state = wrapper.start_with_reader(&mut source);
    let mut received: Vec<Vec<u8>> = Vec::new();
    for taken in [1usize, 1, 2] {
        let mut data: Vec<u8> = Vec::new();
        match wrapper.retry_with_reader::<u32, Vec<Bytes>>(&mut state, ReaderEvent::Begin) {
            ReaderStep::Replay(chunks) => {
                for chunk in chunks {
                    assert!(!chunk.is_empty());
                    data.extend_from_slice(&chunk);
                }
            }
            _ => panic!("an attempt starts with a replay"),
        }
        for _ in 0..taken {
            let chunk = state.source().pop().unwrap();
            match wrapper.retry_with_reader::<u32, Vec<Bytes>>(&mut state, ReaderEvent::Chunk(chunk)) {
                ReaderStep::Forward(chunk) => data.extend_from_slice(&chunk),
                _ => panic!("a chunk is forwarded"),
            }
        }
        received.push(data);
        let outcome = if received.len() < 3 { failed() } else { Ok(3) };
        let event = ReaderEvent::Finished(outcome);
        assert!(wrapper.reader_has_room(&state, &event));
        match wrapper.retry_with_reader(&mut state, event) {
            ReaderStep::Sleep(_) => assert!(received.len() < 3),
            ReaderStep::Done(result) => {
                assert_eq!(received.len(), 3);
                assert_eq!(result, Ok(3));
            }
            _ => panic!("an attempt ends with a pause or a result"),
        }
    }
    assert_eq!(
        received,
        vec![b"hello ".to_vec(), b"hello world".to_vec(), b"hello world!".to_vec()]
    );
    assert!(source.is_empty());
}

#[test]
fn upload_gives_up_with_the_last_error() {
    let wrapper = wrapper(1);
    let mut source = ();
    let mut state = wrapper.start_with_reader(&mut source);
    wrapper.retry_with_reader::<u32, ()>(&mut state, ReaderEvent::Begin);
    let step = wrapper.retry_with_reader(&mut state, ReaderEvent::Finished(failed()));
    assert!(matches!(step, ReaderStep::Sleep(_)));
    wrapper.retry_with_reader::<u32, ()>(&mut state, ReaderEvent::Begin);
    match wrapper.retry_with_reader(&mut state, ReaderEvent::Finished(failed())) {
        ReaderStep::Done(result) => {
            assert_eq!(result, Err(Error::new(Code::Unavailable, "broke off".to_string())));
        }
        _ => panic!("no retry is left"),
    }
}

#[test]
fn upload_makes_one_attempt_more_than_retries() {
    let wrapper = wrapper(4);
    let mut source = ();
    let mut state = wrapper.start_with_reader(&mut source);
    let mut begins = 0;
    let result = loop {
        wrapper.retry_with_reader::<u32, ()>(&mut state, ReaderEvent::Begin);
        begins += 1;
        match wrapper.retry_with_reader(&mut state, ReaderEvent::Finished(failed())) {
            ReaderStep::Sleep(_) => assert_eq!(state.pauses().retries_made(), begins),
            ReaderStep::Done(result) => break result,
            _ => panic!("an attempt ends with a pause or a result"),
        }
    };
    assert!(result.is_err());
    assert_eq!(begins, 5);
}

#[test]
fn only_reader_events_that_can_happen_have_room() {
    let wrapper = wrapper(1);
    let mut source = ();
    let mut state = wrapper.start_with_reader(&mut source);
    let chunk = || ReaderEvent::<u32>::Chunk(Bytes::from_static(b"x"));
    let begin = || ReaderEvent::<u32>::Begin;
    assert_eq!(state.phase(), ReaderPhase::Ready);
    assert!(wrapper.reader_has_room(&state, &begin()));
    assert!(!wrapper.reader_has_room(&state, &chunk()));
    assert!(!wrapper.reader_has_room(&state, &ReaderEvent::Finished(failed())));
    wrapper.retry_with_reader(&mut state, begin());
    assert_eq!(state.phase(), ReaderPhase::Running);
    assert!(!wrapper.reader_has_room(&state, &begin()));
    assert!(wrapper.reader_has_room(&state, &chunk()));
    assert!(wrapper.reader_has_room(&state, &ReaderEvent::Finished(failed())));
    wrapper.retry_with_reader(&mut state, ReaderEvent::Finished(failed()));
    assert_eq!(state.phase(), ReaderPhase::Ready);
    wrapper.retry_with_reader(&mut state, begin());
    wrapper.retry_with_reader(&mut state, ReaderEvent::Finished(Ok(1)));
    assert_eq!(state.phase(), ReaderPhase::Ended);
    assert!(!wrapper.reader_has_room(&state, &begin()));
    assert!(!wrapper.reader_has_room(&state, &chunk()));
    assert!(!wrapper.reader_has_room(&state, &ReaderEvent::Finished(Ok(1u32))));
}

#[test]
fn failed_upload_needs_room_for_its_pause() {
    let config = Retry {
        max_retries: 100,
        delay: u64::MAX,
        jitter: JitterAmount { bits: 0 },
        retry_on_errors: None,
    };
    let wrapper = RetryWrapper::new_with_fns(config, (), NoSleep, NoJitter);
    let mut source = ();
    let mut state = wrapper.start_with_reader(&mut source);
    for _ in 0..9 {
        wrapper.retry_with_reader::<u32, ()>(&mut state, ReaderEvent::Begin);
        assert!(wrapper.reader_has_room(&state, &ReaderEvent::Finished(failed())));
        wrapper.retry_with_reader(&mut state, ReaderEvent::Finished(failed()));
    }
    wrapper.retry_with_reader::<u32, ()>(&mut state, ReaderEvent::Begin);
    assert!(!wrapper.reader_has_room(&state, &ReaderEvent::Finished(failed())));
    assert!(wrapper.reader_has_room(&state, &ReaderEvent::Finished(Ok(1u32))));
}
