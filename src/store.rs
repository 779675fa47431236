use vstd::prelude::*;
use crate::error::AggregateError;
use crate::events::{models, BankAccountEvent, EnvelopeModel, EventEnvelope};
use crate::metadata::Metadata;

verus! {

/// The events of stream `id` within `log`, in the order they were appended.
pub open spec fn stream_of(log: Seq<EnvelopeModel>, id: Seq<char>) -> Seq<EnvelopeModel>
    decreases log.len(),
{
    if log.len() == 0 {
        Seq::empty()
    } else {
        let prior = stream_of(log.drop_last(), id);
        if log.last().aggregate_id == id {
            prior.push(log.last())
        } else {
            prior
        }
    }
}

/// Every stream numbers its events 1, 2, 3, ... with no gap and no repeat.
pub open spec fn well_sequenced(log: Seq<EnvelopeModel>) -> bool {
    forall|id: Seq<char>, j: int|
        0 <= j < stream_of(log, id).len() ==> #[trigger] stream_of(log, id)[j].sequence == j + 1
}

/// The envelopes that carry `events` as stream `id` from sequence `last + 1`
/// on, each with `metadata`.
pub open spec fn envelopes_for(
    id: Seq<char>,
    last: u64,
    events: Seq<BankAccountEvent>,
    metadata: Map<Seq<char>, Seq<char>>,
) -> Seq<EnvelopeModel> {
    Seq::new(
        events.len(),
        |k: int|
            EnvelopeModel {
                aggregate_id: id,
                sequence: (last + k + 1) as u64,
                payload: events[k],
                metadata,
            },
    )
}

/// An append that expects stream `id` to end at `expected` finds that
/// another writer got there first.
pub open spec fn conflicts(log: Seq<EnvelopeModel>, id: Seq<char>, expected: u64) -> bool {
    stream_of(log, id).len() != expected
}

/// Appending `count` events after `expected` would run out of sequence numbers.
pub open spec fn exhausts_sequence(expected: u64, count: nat) -> bool {
    expected + count > u64::MAX
}

/// The streams of a log that grew by `batch`: each extended by its part of it.
pub proof fn lemma_stream_of_concat(log: Seq<EnvelopeModel>, batch: Seq<EnvelopeModel>, id: Seq<char>)
    ensures
        stream_of(log + batch, id) == stream_of(log, id) + stream_of(batch, id),
    decreases batch.len(),
{
    if batch.len() == 0 {
        assert(log + batch =~= log);
        assert(stream_of(log, id) + stream_of(batch, id) =~= stream_of(log, id));
    } else {
        lemma_stream_of_concat(log, batch.drop_last(), id);
        assert((log + batch).drop_last() =~= log + batch.drop_last());
        if batch.last().aggregate_id == id {
            assert(stream_of(log, id) + stream_of(batch, id) =~= (stream_of(log, id)
                + stream_of(batch.drop_last(), id)).push(batch.last()));
        }
    }
}

/// A batch that belongs to one stream is that stream, and no other's.
pub proof fn lemma_stream_of_single_id(batch: Seq<EnvelopeModel>, id: Seq<char>, other: Seq<char>)
    requires
        forall|k: int| 0 <= k < batch.len() ==> (#[trigger] batch[k]).aggregate_id == id,
    ensures
        stream_of(batch, id) == batch,
        other != id ==> stream_of(batch, other) == Seq::<EnvelopeModel>::empty(),
    decreases batch.len(),
{
    if batch.len() == 0 {
        assert(batch =~= Seq::<EnvelopeModel>::empty());
    } else {
        lemma_stream_of_single_id(batch.drop_last(), id, other);
        assert(batch.drop_last().push(batch.last()) =~= batch);
    }
}

/// Appending envelopes numbered on from the end of their stream keeps every
/// stream numbered without gap or repeat.
pub proof fn lemma_append_keeps_sequencing(
    log: Seq<EnvelopeModel>,
    id: Seq<char>,
    events: Seq<BankAccountEvent>,
    metadata: Map<Seq<char>, Seq<char>>,
)
    requires
        well_sequenced(log),
        !conflicts(log, id, stream_of(log, id).len() as u64),
        !exhausts_sequence(stream_of(log, id).len() as u64, events.len()),
    ensures
        well_sequenced(log + envelopes_for(id, stream_of(log, id).len() as u64, events, metadata)),
        stream_of(log + envelopes_for(id, stream_of(log, id).len() as u64, events, metadata), id)
            == stream_of(log, id) + envelopes_for(
            id,
            stream_of(log, id).len() as u64,
            events,
            metadata,
        ),
{
    let expected = stream_of(log, id).len() as u64;
    let batch = envelopes_for(id, expected, events, metadata);
    let after = log + batch;
    lemma_stream_of_single_id(batch, id, id);
    lemma_stream_of_concat(log, batch, id);
    assert forall|other: Seq<char>, j: int|
        0 <= j < stream_of(after, other).len() implies #[trigger] stream_of(after, other)[j].sequence
        == j + 1 by {
        lemma_stream_of_concat(log, batch, other);
        lemma_stream_of_single_id(batch, id, other);
        if other != id {
            assert(stream_of(after, other) =~= stream_of(log, other));
        } else if j >= expected {
            assert(stream_of(after, other)[j] == batch[j - expected]);
        } else {
            assert(stream_of(after, other)[j] == stream_of(log, other)[j]);
        }
    }
}

/// Two writers that loaded the same stream and append to it one after the
/// other, each expecting the end it loaded: the first commits, the second is
/// told of the conflict, and no sequence number is ever claimed twice.
pub proof fn lemma_optimistic_concurrency(
    log: Seq<EnvelopeModel>,
    id: Seq<char>,
    expected: u64,
    first: Seq<BankAccountEvent>,
    metadata: Map<Seq<char>, Seq<char>>,
)
    requires
        well_sequenced(log),
        stream_of(log, id).len() == expected,
        first.len() > 0,
        !exhausts_sequence(expected, first.len()),
    ensures
        !conflicts(log, id, expected),
        well_sequenced(log + envelopes_for(id, expected, first, metadata)),
        conflicts(log + envelopes_for(id, expected, first, metadata), id, expected),
{
    lemma_append_keeps_sequencing(log, id, first, metadata);
}

/// An in-memory event store: one append-only log of envelopes, holding every
/// stream in commit order.
pub struct MemStore {
    log: Vec<EventEnvelope>,
}

impl View for MemStore {
    type V = Seq<EnvelopeModel>;

    closed spec fn view(&self) -> Seq<EnvelopeModel> {
        models(self.log@)
    }
}

impl MemStore {
    /// The store's invariant: its streams are numbered without gaps.
    pub open spec fn wf(&self) -> bool {
        well_sequenced(self@)
    }

    pub fn new() -> (r: MemStore)
        ensures
            r@ == Seq::<EnvelopeModel>::empty(),
            r.wf(),
    {
        let r = MemStore { log: Vec::new() };
        assert(r@ =~= Seq::<EnvelopeModel>::empty());
        r
    }

    /// All events of stream `id`, in ascending sequence; empty for an id that
    /// has none.
    pub fn load(&self, id: &String) -> (r: Vec<EventEnvelope>)
        ensures
            models(r@) == stream_of(self@, id@),
    {
        let mut r: Vec<EventEnvelope> = Vec::new();
        let mut i: usize = 0;
        while i < self.log.len()
            invariant
                i <= self.log@.len(),
                models(r@) == stream_of(self@.take(i as int), id@),
            decreases self.log@.len() - i,
        {
            proof {
                assert(self@.take(i + 1).drop_last() =~= self@.take(i as int));
            }
            if self.log[i].aggregate_id == *id {
                let e = self.log[i].duplicate();
                r.push(e);
                proof {
                    assert(models(r@) =~= stream_of(self@.take(i as int), id@).push(e@));
                }
            }
            i = i + 1;
        }
        proof {
            assert(self@.take(i as int) =~= self@);
        }
        r
    }

    /// The sequence number of the last event of stream `id`, 0 if it has none.
    pub fn last_sequence(&self, id: &String) -> (r: u64)
        requires
            self.wf(),
        ensures
            r == stream_of(self@, id@).len(),
    {
        let mut last: u64 = 0;
        let mut i: usize = 0;
        while i < self.log.len()
            invariant
                i <= self.log@.len(),
                self.wf(),
                last == stream_of(self@.take(i as int), id@).len(),
                last <= i,
            decreases self.log@.len() - i,
        {
            proof {
                assert(self@.take(i + 1).drop_last() =~= self@.take(i as int));
            }
            if self.log[i].aggregate_id == *id {
                last = last + 1;
            }
            i = i + 1;
        }
        proof {
            assert(self@.take(i as int) =~= self@);
        }
        last
    }

    /// Appends `events` to stream `id` as one unit, provided that the stream
    /// still ends at `expected`: the events take the sequence numbers
    /// `expected + 1` on and each carries `metadata`. Returns the envelopes
    /// committed. On a conflict, or where sequence numbers would run out,
    /// nothing is appended.
    pub fn commit(
        &mut self,
        id: &String,
        expected: u64,
        events: &Vec<BankAccountEvent>,
        metadata: &Metadata,
    ) -> (r: Result<Vec<EventEnvelope>, AggregateError>)
        requires
            old(self).wf(),
        ensures
            final(self).wf(),
            conflicts(old(self)@, id@, expected) ==> r == Err::<
                Vec<EventEnvelope>,
                AggregateError,
            >(AggregateError::AggregateConflict) && final(self)@ == old(self)@,
            !conflicts(old(self)@, id@, expected) && exhausts_sequence(expected, events@.len())
                ==> r is Err && r->Err_0 is StorageError && final(self)@ == old(self)@,
            !conflicts(old(self)@, id@, expected) && !exhausts_sequence(expected, events@.len())
                ==> r is Ok && models(r->Ok_0@) == envelopes_for(id@, expected, events@, metadata@)
                && final(self)@ == old(self)@ + envelopes_for(id@, expected, events@, metadata@),
    {
        let last = self.last_sequence(id);
        if last != expected {
            return Err(AggregateError::AggregateConflict);
        }
        if events.len() as u64 > u64::MAX - expected {
            return Err(AggregateError::StorageError("sequence numbers exhausted".to_string()));
        }
        let ghost batch = envelopes_for(id@, expected, events@, metadata@);
        let mut committed: Vec<EventEnvelope> = Vec::new();
        let mut i: usize = 0;
        while i < events.len()
            invariant
                i <= events@.len(),
                expected + events@.len() <= u64::MAX,
                batch == envelopes_for(id@, expected, events@, metadata@),
                self@ == old(self)@ + batch.take(i as int),
                models(committed@) == batch.take(i as int),
            decreases events@.len() - i,
        {
            let env = EventEnvelope {
                aggregate_id: id.clone(),
                sequence: expected + i as u64 + 1,
                payload: events[i].duplicate(),
                metadata: metadata.duplicate(),
            };
            assert(env@ == batch[i as int]);
            committed.push(env.duplicate());
            let ghost prev = self@;
            let ghost added = env@;
            self.log.push(env);
            proof {
                assert(self@ =~= prev.push(added));
                assert(models(committed@) =~= batch.take(i + 1));
                assert(self@ =~= old(self)@ + batch.take(i + 1));
            }
            i = i + 1;
        }
        proof {
            assert(batch.take(i as int) =~= batch);
            lemma_append_keeps_sequencing(old(self)@, id@, events@, metadata@);
        }
        Ok(committed)
    }
}

} // verus!
