use std::collections::VecDeque;
use std::time::Duration;
use vstd::prelude::*;

verus! {

/// A source of batches. Each call returns the next batch, possibly empty, or
/// an error after which the source is not asked again.
pub trait Fetcher<T, E> {
    fn fetch(&mut self) -> Result<Vec<T>, E>;
}

/// What one pull hands to the consumer.
pub enum PullResult<T> {
    /// The next item.
    Item(T),
    /// Nothing yet: the consumer should pull again later.
    NotReady,
    /// The stream is over, for good.
    Ended,
}

/// The state of a stream, as the consumer may observe it.
#[derive(PartialEq, Eq, Structural, Debug, Clone, Copy)]
pub enum StreamState {
    /// Items are waiting in the buffer.
    Buffered,
    /// The buffer is empty: the next pull waits for the timer.
    WaitingForTick,
    /// The producer has failed.
    Ended,
}

/// The items of `batches`, one batch after the other.
pub open spec fn flatten<T>(batches: Seq<Seq<T>>) -> Seq<T>
    decreases batches.len(),
{
    if batches.len() == 0 {
        Seq::empty()
    } else {
        flatten(batches.drop_last()) + batches.last()
    }
}

/// The abstract state of a stream, with its history.
pub struct StreamModel<T> {
    /// Items fetched and not yet delivered, front first.
    pub buffered: Seq<T>,
    /// Whether the producer has failed.
    pub ended: bool,
    /// Every batch the producer returned, in order.
    pub batches: Seq<Seq<T>>,
    /// Every item handed to the consumer, in order.
    pub delivered: Seq<T>,
}

impl<T> StreamModel<T> {
    /// What has been delivered, followed by what is buffered, is exactly what
    /// was fetched; a stream that ended holds nothing.
    pub open spec fn wf(self) -> bool {
        &&& self.delivered + self.buffered == flatten(self.batches)
        &&& self.ended ==> self.buffered.len() == 0
    }

    /// How many producer results the stream has taken in: one per batch, and
    /// one more for the failure that ended it. `poll_next` calls the producer
    /// once for each result it hands to `absorb`, and at no other time.
    pub open spec fn fetch_count(self) -> nat {
        self.batches.len() + if self.ended { 1nat } else { 0nat }
    }

    /// Whether a pull with the given tick calls the producer.
    pub open spec fn fetches_on(self, tick: bool) -> bool {
        !self.ended && self.buffered.len() == 0 && tick
    }

    /// The state that a consumer observes.
    pub open spec fn state(self) -> StreamState {
        if self.ended {
            StreamState::Ended
        } else if self.buffered.len() > 0 {
            StreamState::Buffered
        } else {
            StreamState::WaitingForTick
        }
    }

    /// Hand out the front of a non-empty buffer.
    pub open spec fn take_front(self) -> (StreamModel<T>, PullResult<T>)
        recommends
            self.buffered.len() > 0,
    {
        (
            StreamModel {
                buffered: self.buffered.drop_first(),
                delivered: self.delivered.push(self.buffered[0]),
                ..self
            },
            PullResult::Item(self.buffered[0]),
        )
    }

    /// A pull that does not call the producer.
    pub open spec fn pull_without_fetch(self) -> (StreamModel<T>, PullResult<T>) {
        if self.ended {
            (self, PullResult::Ended)
        } else if self.buffered.len() > 0 {
            self.take_front()
        } else {
            (self, PullResult::NotReady)
        }
    }

    /// A pull whose producer call returned `batch`.
    pub open spec fn after_batch(self, batch: Seq<T>) -> (StreamModel<T>, PullResult<T>) {
        let next = StreamModel {
            buffered: self.buffered + batch,
            batches: self.batches.push(batch),
            ..self
        };
        if next.buffered.len() == 0 {
            (next, PullResult::NotReady)
        } else {
            next.take_front()
        }
    }

    /// A pull whose producer call failed.
    pub open spec fn after_failure(self) -> (StreamModel<T>, PullResult<T>) {
        (StreamModel { ended: true, ..self }, PullResult::Ended)
    }
}

/// A stream that holds a producer and a buffer. Each pull hands out the front
/// of the buffer; only when the buffer is empty and the timer has ticked does
/// it call the producer, once, and buffer what came back.
pub struct ScheduledStream<T, E, F> {
    period: Duration,
    buffer: VecDeque<T>,
    fetcher: F,
    ended: bool,
    batches: Ghost<Seq<Seq<T>>>,
    delivered: Ghost<Seq<T>>,
    failure: Option<E>,
}

impl<T, E, F: Fetcher<T, E>> View for ScheduledStream<T, E, F> {
    type V = StreamModel<T>;

    closed spec fn view(&self) -> StreamModel<T> {
        StreamModel {
            buffered: self.buffer@,
            ended: self.ended,
            batches: self.batches@,
            delivered: self.delivered@,
        }
    }
}

impl<T, E, F: Fetcher<T, E>> ScheduledStream<T, E, F> {
    /// The model's law holds, and the producer's error is kept exactly when
    /// the stream has ended.
    pub closed spec fn wf(&self) -> bool {
        &&& self@.wf()
        &&& self.failure is Some <==> self.ended
    }

    pub closed spec fn spec_failure(&self) -> Option<E> {
        self.failure
    }

    pub closed spec fn spec_period(&self) -> Duration {
        self.period
    }

    pub closed spec fn spec_fetcher(&self) -> F {
        self.fetcher
    }

    /// A stream with an empty buffer, that refills every `duration`.
    pub fn new(duration: Duration, fetcher: F) -> (r: Self)
        ensures
            r.wf(),
            r@.buffered.len() == 0,
            !r@.ended,
            r@.batches.len() == 0,
            r@.delivered.len() == 0,
            r.spec_period() == duration,
            r.spec_fetcher() == fetcher,
            r.spec_failure() is None,
    {
        ScheduledStream {
            period: duration,
            buffer: VecDeque::new(),
            fetcher,
            ended: false,
            batches: Ghost(Seq::empty()),
            delivered: Ghost(Seq::empty()),
            failure: None,
        }
    }

    /// How long the timer waits between refills.
    pub fn period(&self) -> (r: Duration)
        ensures
            r == self.spec_period(),
    {
        self.period
    }

    /// The error with which the producer ended the stream, if it has.
    pub fn failure(&self) -> (r: &Option<E>)
        ensures
            *r == self.spec_failure(),
    {
        &self.failure
    }

    /// Which of its three states the stream is in.
    pub fn state(&self) -> (r: StreamState)
        ensures
            r == self@.state(),
    {
        if self.ended {
            StreamState::Ended
        } else if self.buffer.len() > 0 {
            StreamState::Buffered
        } else {
            StreamState::WaitingForTick
        }
    }

    /// Whether the next pull has to wait for the timer to tick.
    pub fn awaits_tick(&self) -> (r: bool)
        ensures
            r == (self@.state() == StreamState::WaitingForTick),
    {
        !self.ended && self.buffer.len() == 0
    }

    /// Hands out the front of a non-empty buffer.
    fn take_front(&mut self) -> (r: PullResult<T>)
        requires
            old(self).wf(),
            old(self)@.buffered.len() > 0,
        ensures
            final(self).wf(),
            (final(self)@, r) == old(self)@.take_front(),
            final(self).spec_period() == old(self).spec_period(),
            final(self).spec_fetcher() == old(self).spec_fetcher(),
            final(self).spec_failure() == old(self).spec_failure(),
    {
        proof {
            lemma_pull_keeps_order(self@, Seq::empty());
        }
        match self.buffer.pop_front() {
            Some(item) => {
                self.delivered = Ghost(self.delivered@.push(item));
                PullResult::Item(item)
            },
            None => PullResult::NotReady,
        }
    }

    /// Takes in what one producer call returned, on a pull that found the
    /// stream live and its buffer empty. A batch is buffered in order and its
    /// first item handed out, or, if it is empty, nothing is ready yet; an
    /// error ends the stream and is kept.
    pub fn absorb(&mut self, res: Result<Vec<T>, E>) -> (r: PullResult<T>)
        requires
            old(self).wf(),
            old(self)@.fetches_on(true),
        ensures
            final(self).wf(),
            final(self).spec_period() == old(self).spec_period(),
            final(self).spec_fetcher() == old(self).spec_fetcher(),
            res matches Ok(b) ==> (final(self)@, r) == old(self)@.after_batch(b@),
            res matches Err(e) ==> (final(self)@, r) == old(self)@.after_failure()
                && final(self).spec_failure() == Some(e),
    {
        match res {
            Ok(batch) => {
                proof {
                    lemma_pull_keeps_order(self@, batch@);
                }
                let ghost before = self@;
                self.batches = Ghost(self.batches@.push(batch@));
                push_all(&mut self.buffer, batch);
                proof {
                    lemma_flatten_push(before.batches, batch@);
                    assert(before.buffered + batch@ =~= batch@);
                    assert(self@.delivered + self@.buffered =~= flatten(self@.batches));
                }
                if self.buffer.len() == 0 {
                    PullResult::NotReady
                } else {
                    self.take_front()
                }
            },
            Err(e) => {
                self.failure = Some(e);
                self.ended = true;
                PullResult::Ended
            },
        }
    }

    /// One pull. `tick` says whether the timer's next tick has come. A
    /// buffered item is handed out at once; an empty buffer is refilled by one
    /// call of the producer, and only on a tick, whose result `absorb` takes
    /// in. A pull that does not call the producer leaves it untouched.
    pub fn poll_next(&mut self, tick: bool) -> (r: PullResult<T>)
        requires
            old(self).wf(),
        ensures
            final(self).wf(),
            final(self).spec_period() == old(self).spec_period(),
            !old(self)@.fetches_on(tick) ==> (final(self)@, r) == old(self)@.pull_without_fetch(),
            !old(self)@.fetches_on(tick) ==> final(self).spec_fetcher() == old(self).spec_fetcher(),
            old(self)@.fetches_on(tick) ==> {
                ||| (final(self)@, r) == old(self)@.after_failure()
                ||| final(self)@.batches.len() > 0 && (final(self)@, r) == old(
                    self,
                )@.after_batch(final(self)@.batches.last())
            },
            final(self)@.fetch_count() == old(self)@.fetch_count() + if old(self)@.fetches_on(
                tick,
            ) {
                1nat
            } else {
                0nat
            },
            old(self)@.buffered.len() > 0 || !tick ==> final(self)@.fetch_count() == old(
                self,
            )@.fetch_count(),
            old(self)@.ended ==> r == PullResult::<T>::Ended && final(self)@ == old(self)@,
            old(self)@.ended ==> final(self).spec_failure() == old(self).spec_failure(),
            !old(self)@.ended ==> (final(self).spec_failure() is Some <==> final(self)@.ended),
    {
        if self.ended {
            return PullResult::Ended;
        }
        if self.buffer.len() > 0 {
            return self.take_front();
        }
        if !tick {
            return PullResult::NotReady;
        }
        let res = self.fetcher.fetch();
        self.absorb(res)
    }
}

/// Appends the items of `batch` to `buffer`, in order.
fn push_all<T>(buffer: &mut VecDeque<T>, batch: Vec<T>)
    ensures
        final(buffer)@ == old(buffer)@ + batch@,
{
    let ghost start = buffer@;
    for item in it: batch.into_iter()
        invariant
            it.seq() == batch@,
            buffer@ == start + batch@.take(it.index() as int),
    {
        proof {
            assert(batch@.take(it.index() + 1) =~= batch@.take(it.index() as int).push(item));
        }
        buffer.push_back(item);
    }
    assert(batch@.take(batch@.len() as int) =~= batch@);
}

proof fn lemma_flatten_push<T>(batches: Seq<Seq<T>>, batch: Seq<T>)
    ensures
        flatten(batches.push(batch)) == flatten(batches) + batch,
{
    assert(batches.push(batch).drop_last() =~= batches);
}

/// Every kind of pull keeps the order law: what has been delivered, then what
/// is buffered, is what the producer returned, batch after batch, whatever
/// the batches' sizes.
pub proof fn lemma_pull_keeps_order<T>(m: StreamModel<T>, batch: Seq<T>)
    requires
        m.wf(),
    ensures
        m.pull_without_fetch().0.wf(),
        m.fetches_on(true) ==> m.after_batch(batch).0.wf(),
        m.fetches_on(true) ==> m.after_failure().0.wf(),
{
    lemma_flatten_push(m.batches, batch);
    if m.buffered.len() > 0 {
        let (n, _) = m.take_front();
        assert(n.delivered + n.buffered =~= m.delivered + m.buffered);
    }
    if m.fetches_on(true) && batch.len() > 0 {
        let (n, _) = m.after_batch(batch);
        assert(m.buffered + batch =~= batch);
        assert(n.delivered + n.buffered =~= m.delivered + batch);
    }
    if m.fetches_on(true) && batch.len() == 0 {
        assert(m.buffered + batch =~= m.buffered);
    }
}

/// The ordering law, as it stands for a stream: the items delivered so far are
/// the start of everything the producer returned, in the order of the batches
/// and of the items within each batch, and the buffer holds the rest.
pub proof fn lemma_delivery_order<T, E, F: Fetcher<T, E>>(s: &ScheduledStream<T, E, F>)
    requires
        s.wf(),
    ensures
        s@.delivered + s@.buffered == flatten(s@.batches),
        s@.delivered.len() <= flatten(s@.batches).len(),
        s@.delivered == flatten(s@.batches).take(s@.delivered.len() as int),
{
    assert((s@.delivered + s@.buffered).take(s@.delivered.len() as int) =~= s@.delivered);
}

/// The model after `n` pulls on ticks whose producer calls each returned an
/// empty batch.
pub open spec fn after_empty_batches<T>(m: StreamModel<T>, n: nat) -> StreamModel<T>
    decreases n,
{
    if n == 0 {
        m
    } else {
        after_empty_batches(m, (n - 1) as nat).after_batch(Seq::empty()).0
    }
}

/// Empty batches never end a stream. Starting from a live stream with an
/// empty buffer, `n` empty batches in a row leave it live and empty, with
/// nothing more delivered and exactly `n` more producer calls; each of those
/// pulls reports that nothing is ready. The next non-empty batch is then
/// delivered from its first item, by producer call `n + 1`.
pub proof fn lemma_empty_batches<T>(m: StreamModel<T>, n: nat, batch: Seq<T>)
    requires
        m.wf(),
        !m.ended,
        m.buffered.len() == 0,
        batch.len() > 0,
    ensures
        after_empty_batches(m, n).wf(),
        after_empty_batches(m, n).fetches_on(true),
        after_empty_batches(m, n).delivered == m.delivered,
        after_empty_batches(m, n).fetch_count() == m.fetch_count() + n,
        forall|k: nat|
            k < n ==> (#[trigger] after_empty_batches(m, k)).after_batch(Seq::empty()).1
                == PullResult::<T>::NotReady,
        after_empty_batches(m, n).after_batch(batch).1 == PullResult::Item(batch[0]),
        after_empty_batches(m, n).after_batch(batch).0.fetch_count() == m.fetch_count() + n + 1,
    decreases n,
{
    if n > 0 {
        lemma_empty_batches(m, (n - 1) as nat, batch);
        let prev = after_empty_batches(m, (n - 1) as nat);
        lemma_pull_keeps_order(prev, Seq::empty());
        assert(prev.buffered + Seq::<T>::empty() =~= prev.buffered);
        assert forall|k: nat| k < n implies (#[trigger] after_empty_batches(m, k)).after_batch(
            Seq::empty(),
        ).1 == PullResult::<T>::NotReady by {
            if k < n - 1 {
            } else {
                assert(k == n - 1);
            }
        }
    }
    let e = after_empty_batches(m, n);
    assert(e.buffered + batch =~= batch);
}

} // verus!
