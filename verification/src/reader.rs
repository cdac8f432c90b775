//! A source of chunks that every attempt can read from the beginning.
use crate::cell::{law_lender_gets_data_back, RetryCell};
use crate::chunk::{
    bytes_content, contents, law_chunks_with_bytes_stay, law_contents_keep_their_places, non_empty,
};
use bytes::Bytes;
use vstd::prelude::*;

verus! {

/// A source of chunks that keeps what it has given out, so that an attempt after
/// a failed one still gets all the data. The view is what it has given out so
/// far, chunk by chunk.
pub struct RetriableReader<'a, R> {
    inner: RetryCell<&'a mut R>,
    cache: RetryCell<Vec<Bytes>>,
}

impl<'a, R> View for RetriableReader<'a, R> {
    type V = Seq<Seq<u8>>;

    closed spec fn view(&self) -> Seq<Seq<u8>> {
        contents(self.cache.value()@)
    }
}

impl<'a, R> RetriableReader<'a, R> {
    /// The source.
    pub closed spec fn inner(self) -> &'a mut R {
        self.inner.value()
    }

    /// A reader over a source that has given out nothing yet.
    pub fn new(rx: &'a mut R) -> (reader: Self)
        ensures
            reader@ == Seq::<Seq<u8>>::empty(),
            *reader.inner() == *old(rx),
            *final(reader.inner()) == *final(rx),
    {
        let reader = RetriableReader {
            inner: RetryCell::new(rx),
            cache: RetryCell::owned(Vec::new()),
        };
        assert(contents(reader.cache.value()@) =~= Seq::<Seq<u8>>::empty());
        reader
    }

    /// What an attempt has to be sent before it can go on with the source: the
    /// chunks that earlier attempts took from it, without the empty ones.
    pub fn get(&mut self) -> (replay: Vec<Bytes>)
        ensures
            contents(replay@) == non_empty(old(self)@),
            final(self)@ == old(self)@,
            final(self).inner() == old(self).inner(),
    {
        let cache: &mut Vec<Bytes> = self.cache.get();
        let mut replay: Vec<Bytes> = Vec::new();
        let ghost all = contents(cache@);
        assert(contents(replay@) =~= non_empty(all.take(0))) by {
            reveal(Seq::filter);
        }
        for i in 0..cache.len()
            invariant
                all == contents(cache@),
                contents(replay@) == non_empty(all.take(i as int)),
        {
            let ghost before = replay@;
            proof {
                reveal(Seq::filter);
                assert(all.take(i + 1).drop_last() =~= all.take(i as int));
            }
            if !cache[i].is_empty() {
                replay.push(cache[i].clone());
                assert(contents(replay@) =~= contents(before).push(all[i as int]));
            }
        }
        assert(all.take(all.len() as int) =~= all);
        replay
    }

    /// Keeps a chunk that the source has just given out.
    pub fn record(&mut self, chunk: Bytes)
        ensures
            final(self)@ == old(self)@.push(bytes_content(chunk)),
            final(self).inner() == old(self).inner(),
    {
        let ghost given = self@;
        self.cache.get().push(chunk);
        assert(self@ =~= given.push(bytes_content(chunk)));
    }

    /// Access to the source for one attempt.
    pub fn source(&mut self) -> (source: &mut R)
        ensures
            *source == *old(self).inner(),
            *final(self).inner() == *final(source),
            *final(final(self).inner()) == *final(old(self).inner()),
            final(self)@ == old(self)@,
    {
        &mut **self.inner.get()
    }
}

/// What the source holds when the reader is used for the last time is what the
/// lender gets back.
pub proof fn law_lender_gets_source_back<R>(reader: RetriableReader<'_, R>)
    requires
        has_resolved(reader),
    ensures
        *final(reader.inner()) == *reader.inner(),
{
    law_lender_gets_data_back(reader.inner);
}

/// An attempt on a source that has given out nothing is sent nothing before what
/// the source gives out.
pub proof fn law_first_attempt_needs_no_replay<'a, R>(
    rx: &'a mut R,
    reader: RetriableReader<'a, R>,
    get: &mut RetriableReader<'a, R>,
    replay: Vec<Bytes>,
)
    requires
        call_ensures(RetriableReader::<'a, R>::new, (rx,), reader),
        *old(get) == reader,
        call_ensures(RetriableReader::<'a, R>::get, (get,), replay),
    ensures
        replay@.len() == 0,
        call_requires(RetriableReader::<'a, R>::new, (rx,)),
        call_requires(RetriableReader::<'a, R>::get, (get,)),
{
    reveal(Seq::filter);
    law_contents_keep_their_places(replay@);
    law_chunks_with_bytes_stay(reader@, seq![]);
}

/// A chunk that is kept is sent again after all that was to be sent before it was
/// kept, and what was to be sent keeps its order. An empty chunk is not sent again.
pub proof fn law_kept_chunk_is_replayed_last<'a, R>(
    get: &mut RetriableReader<'a, R>,
    replay: Vec<Bytes>,
    record: &mut RetriableReader<'a, R>,
    chunk: Bytes,
    get_again: &mut RetriableReader<'a, R>,
    replay_again: Vec<Bytes>,
)
    requires
        call_ensures(RetriableReader::<'a, R>::get, (get,), replay),
        *old(record) == *final(get),
        call_ensures(RetriableReader::<'a, R>::record, (record, chunk), ()),
        *old(get_again) == *final(record),
        call_ensures(RetriableReader::<'a, R>::get, (get_again,), replay_again),
    ensures
        bytes_content(chunk).len() > 0 ==> {
            &&& replay_again@.len() == replay@.len() + 1
            &&& bytes_content(replay_again@.last()) == bytes_content(chunk)
        },
        bytes_content(chunk).len() == 0 ==> replay_again@.len() == replay@.len(),
        forall|i: int|
            0 <= i < replay@.len() ==> bytes_content(#[trigger] replay_again@[i]) == bytes_content(
                replay@[i],
            ),
        call_requires(RetriableReader::<'a, R>::record, (record, chunk)),
{
    let given = old(get)@;
    law_contents_keep_their_places(replay@);
    law_contents_keep_their_places(replay_again@);
    law_chunks_with_bytes_stay(given, bytes_content(chunk));
    assert forall|i: int| 0 <= i < replay@.len() implies bytes_content(
        #[trigger] replay_again@[i],
    ) == bytes_content(replay@[i]) by {
        assert(contents(replay_again@)[i] == contents(replay@)[i]);
    }
    if bytes_content(chunk).len() > 0 {
        assert(contents(replay_again@)[replay@.len() as int] == bytes_content(chunk));
    }
}

/// Working with the source in between changes nothing of what is to be sent again.
pub proof fn law_source_access_keeps_the_replay<'a, R>(
    get: &mut RetriableReader<'a, R>,
    replay: Vec<Bytes>,
    access: &mut RetriableReader<'a, R>,
    source: &mut R,
    get_again: &mut RetriableReader<'a, R>,
    replay_again: Vec<Bytes>,
)
    requires
        call_ensures(RetriableReader::<'a, R>::get, (get,), replay),
        *old(access) == *final(get),
        call_ensures(RetriableReader::<'a, R>::source, (access,), source),
        *old(get_again) == *final(access),
        call_ensures(RetriableReader::<'a, R>::get, (get_again,), replay_again),
    ensures
        replay_again@.len() == replay@.len(),
        forall|i: int|
            0 <= i < replay@.len() ==> bytes_content(#[trigger] replay_again@[i]) == bytes_content(
                replay@[i],
            ),
{
    law_contents_keep_their_places(replay@);
    law_contents_keep_their_places(replay_again@);
    assert forall|i: int| 0 <= i < replay@.len() implies bytes_content(
        #[trigger] replay_again@[i],
    ) == bytes_content(replay@[i]) by {
        assert(contents(replay_again@)[i] == contents(replay@)[i]);
    }
}

} // verus!
