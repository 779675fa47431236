use vstd::prelude::*;
use crate::aggregate::{decide_with_verdict, replay_spec, BankAccount};
use crate::commands::BankAccountCommand;
use crate::error::{AggregateError, DomainError};
use crate::events::{models, BankAccountEvent, EnvelopeModel, EventEnvelope};
use crate::metadata::Metadata;
use crate::services::BankAccountServices;
use crate::queries::{
    empty_view, lemma_project_all_split, project_all, AccountQuery, BankAccountView, ViewModel,
};
use crate::store::{
    conflicts, envelopes_for, exhausts_sequence, lemma_append_keeps_sequencing,
    lemma_stream_of_concat, lemma_stream_of_single_id, stream_of, MemStore,
};

verus! {

/// The events carried by a run of envelopes.
pub open spec fn payloads(envelopes: Seq<EnvelopeModel>) -> Seq<BankAccountEvent> {
    envelopes.map_values(|e: EnvelopeModel| e.payload)
}

/// What `command` decides against the state that stream `id` of `log`
/// replays to, where the outside service answers `approved`.
pub open spec fn decision(
    log: Seq<EnvelopeModel>,
    id: Seq<char>,
    command: BankAccountCommand,
    approved: bool,
) -> Result<Seq<BankAccountEvent>, DomainError> {
    decide_with_verdict(replay_spec(payloads(stream_of(log, id))), command, approved)
}

/// Every view is the projection of its account's whole committed stream, and
/// a view exists exactly for the accounts that have events.
pub open spec fn views_follow_events(
    log: Seq<EnvelopeModel>,
    views: Map<Seq<char>, ViewModel>,
) -> bool {
    forall|id: Seq<char>|
        #[trigger] views.contains_key(id) == (stream_of(log, id).len() > 0) && (views.contains_key(
            id,
        ) ==> views[id] == project_all(empty_view(), stream_of(log, id)))
}

/// The executor's state: the committed log and the account views.
pub struct FrameworkModel {
    pub events: Seq<EnvelopeModel>,
    pub views: Map<Seq<char>, ViewModel>,
}

/// `r` is what preparing `command` for stream `id` of `log` gives, where the
/// outside service answers `approved`.
pub open spec fn prepared(
    log: Seq<EnvelopeModel>,
    id: Seq<char>,
    command: BankAccountCommand,
    metadata: Map<Seq<char>, Seq<char>>,
    approved: bool,
    r: Result<Decided, AggregateError>,
) -> bool {
    match decision(log, id, command, approved) {
        Ok(events) => r is Ok && r->Ok_0.aggregate_id@ == id && r->Ok_0.expected_sequence
            == stream_of(log, id).len() && r->Ok_0.events@ == events && r->Ok_0.metadata@
            == metadata,
        Err(e) => r == Err::<Decided, AggregateError>(AggregateError::UserError(e)),
    }
}

/// `r` and `after` are what executing `command` against account `id` from
/// `before` gives, where the outside service answers `approved`: a refused
/// command changes nothing; an accepted one commits its events after the
/// account's last one, each carrying `metadata`, unless sequence numbers
/// would run out.
pub open spec fn executed(
    before: FrameworkModel,
    after: FrameworkModel,
    id: Seq<char>,
    command: BankAccountCommand,
    metadata: Map<Seq<char>, Seq<char>>,
    approved: bool,
    r: Result<Vec<EventEnvelope>, AggregateError>,
) -> bool {
    match decision(before.events, id, command, approved) {
        Err(e) => r == Err::<Vec<EventEnvelope>, AggregateError>(AggregateError::UserError(e))
            && after == before,
        Ok(events) => {
            let last = stream_of(before.events, id).len() as u64;
            if exhausts_sequence(last, events.len()) {
                r is Err && r->Err_0 is StorageError && after == before
            } else {
                r is Ok && models(r->Ok_0@) == envelopes_for(id, last, events, metadata)
                    && after.events == before.events + models(r->Ok_0@)
            }
        },
    }
}

/// A command decided against a loaded history: the events to append, the
/// sequence the stream is expected to still end at, and the metadata that
/// each event will carry.
#[derive(Debug)]
pub struct Decided {
    pub aggregate_id: String,
    pub expected_sequence: u64,
    pub events: Vec<BankAccountEvent>,
    pub metadata: Metadata,
}

/// Runs commands against bank accounts: load the history, replay it, decide,
/// append under the optimistic-concurrency guard and, once committed, project
/// the new events onto the account views.
pub struct CqrsFramework<S: BankAccountServices> {
    store: MemStore,
    account_query: AccountQuery,
    services: S,
}

impl<S: BankAccountServices> View for CqrsFramework<S> {
    type V = FrameworkModel;

    closed spec fn view(&self) -> FrameworkModel {
        FrameworkModel { events: self.store@, views: self.account_query@ }
    }
}

fn payloads_of(envelopes: &Vec<EventEnvelope>) -> (r: Vec<BankAccountEvent>)
    ensures
        r@ == payloads(models(envelopes@)),
{
    let mut r: Vec<BankAccountEvent> = Vec::new();
    let mut i: usize = 0;
    while i < envelopes.len()
        invariant
            i <= envelopes@.len(),
            r@ == payloads(models(envelopes@)).take(i as int),
        decreases envelopes@.len() - i,
    {
        r.push(envelopes[i].payload.duplicate());
        assert(r@ =~= payloads(models(envelopes@)).take(i + 1));
        i = i + 1;
    }
    assert(payloads(models(envelopes@)).take(i as int) =~= payloads(models(envelopes@)));
    r
}

impl<S: BankAccountServices> CqrsFramework<S> {
    /// The store and the views are each well formed, and the views follow
    /// the committed events.
    pub closed spec fn wf(&self) -> bool {
        &&& self.store.wf()
        &&& self.account_query.wf()
        &&& views_follow_events(self.store@, self.account_query@)
    }

    /// An executor with no events and no views, that decides with `services`.
    pub fn new(services: S) -> (r: CqrsFramework<S>)
        ensures
            r.wf(),
            r@.events == Seq::<EnvelopeModel>::empty(),
            r@.views == Map::<Seq<char>, ViewModel>::empty(),
    {
        let r = CqrsFramework { store: MemStore::new(), account_query: AccountQuery::new(), services };
        assert forall|id: Seq<char>|
            #[trigger] r@.views.contains_key(id) == (stream_of(r@.events, id).len() > 0) by {
            assert(stream_of(r@.events, id) == Seq::<EnvelopeModel>::empty());
        }
        r
    }

    /// All committed events of account `id`, in ascending sequence.
    pub fn load_events(&self, id: &String) -> (r: Vec<EventEnvelope>)
        ensures
            models(r@) == stream_of(self@.events, id@),
    {
        self.store.load(id)
    }

    /// The view of account `id`: none before its first committed event,
    /// else the projection of all its committed events.
    pub fn load_view(&self, id: &String) -> (r: Option<&BankAccountView>)
        requires
            self.wf(),
        ensures
            r is Some <==> stream_of(self@.events, id@).len() > 0,
            r is Some ==> r->Some_0@ == project_all(empty_view(), stream_of(self@.events, id@)),
            r is Some ==> r->Some_0@ == self@.views[id@],
    {
        self.account_query.load(id)
    }

    /// Loads and replays account `id`, and decides `command` against it.
    /// Changes nothing.
    pub fn prepare(&self, id: &String, command: BankAccountCommand, metadata: Metadata) -> (r:
        Result<Decided, AggregateError>)
        requires
            self.wf(),
        ensures
            prepared(self@.events, id@, command, metadata@, true, r) || prepared(
                self@.events,
                id@,
                command,
                metadata@,
                false,
                r,
            ),
    {
        let expected = self.store.last_sequence(id);
        let history = self.store.load(id);
        let state = BankAccount::replay(&payloads_of(&history));
        match state.handle_with_services(command, &self.services) {
            Ok(events) => Ok(
                Decided { aggregate_id: id.clone(), expected_sequence: expected, events, metadata },
            ),
            Err(e) => Err(AggregateError::UserError(e)),
        }
    }

    /// Appends what was decided, provided that no other writer has appended
    /// to the stream since it was loaded, then projects the committed events
    /// onto the account's view. Returns the committed envelopes.
    pub fn commit(&mut self, decided: Decided) -> (r: Result<Vec<EventEnvelope>, AggregateError>)
        requires
            old(self).wf(),
        ensures
            final(self).wf(),
            conflicts(old(self)@.events, decided.aggregate_id@, decided.expected_sequence) ==> r
                == Err::<Vec<EventEnvelope>, AggregateError>(AggregateError::AggregateConflict)
                && final(self)@ == old(self)@,
            !conflicts(old(self)@.events, decided.aggregate_id@, decided.expected_sequence)
                && exhausts_sequence(decided.expected_sequence, decided.events@.len()) ==> r is Err
                && r->Err_0 is StorageError && final(self)@ == old(self)@,
            !conflicts(old(self)@.events, decided.aggregate_id@, decided.expected_sequence)
                && !exhausts_sequence(decided.expected_sequence, decided.events@.len()) ==> r is Ok
                && models(r->Ok_0@) == envelopes_for(
                decided.aggregate_id@,
                decided.expected_sequence,
                decided.events@,
                decided.metadata@,
            ) && final(self)@.events == old(self)@.events + models(r->Ok_0@),
    {
        let ghost id = decided.aggregate_id@;
        let ghost old_log = self.store@;
        let ghost old_views = self.account_query@;
        let committed = self.store.commit(
            &decided.aggregate_id,
            decided.expected_sequence,
            &decided.events,
            &decided.metadata,
        );
        match committed {
            Ok(envelopes) => {
                self.account_query.dispatch(&decided.aggregate_id, &envelopes);
                proof {
                    let batch = models(envelopes@);
                    lemma_append_keeps_sequencing(
                        old_log,
                        id,
                        decided.events@,
                        decided.metadata@,
                    );
                    lemma_stream_of_single_id(batch, id, id);
                    lemma_project_all_split(empty_view(), stream_of(old_log, id), batch);
                    assert forall|other: Seq<char>| #[trigger]
                        self.account_query@.contains_key(other) == (stream_of(self.store@, other).len()
                            > 0) && (self.account_query@.contains_key(other)
                            ==> self.account_query@[other] == project_all(
                            empty_view(),
                            stream_of(self.store@, other),
                        )) by {
                        lemma_stream_of_concat(old_log, batch, other);
                        lemma_stream_of_single_id(batch, id, other);
                        if other != id {
                            assert(stream_of(self.store@, other) =~= stream_of(old_log, other));
                        } else if batch.len() == 0 {
                            assert(stream_of(self.store@, other) =~= stream_of(old_log, other));
                        } else if !old_views.contains_key(id) {
                            assert(stream_of(old_log, id) =~= Seq::<EnvelopeModel>::empty());
                            assert(stream_of(old_log, id) + batch =~= batch);
                        }
                    }
                }
                Ok(envelopes)
            },
            Err(e) => Err(e),
        }
    }

    /// Runs `command` against account `id`: load, replay, decide, append, and
    /// project. The result is the one for whichever answer the outside
    /// service gave.
    pub fn execute_with_metadata(
        &mut self,
        id: &String,
        command: BankAccountCommand,
        metadata: Metadata,
    ) -> (r: Result<Vec<EventEnvelope>, AggregateError>)
        requires
            old(self).wf(),
        ensures
            final(self).wf(),
            executed(old(self)@, final(self)@, id@, command, metadata@, true, r) || executed(
                old(self)@,
                final(self)@,
                id@,
                command,
                metadata@,
                false,
                r,
            ),
    {
        match self.prepare(id, command, metadata) {
            Ok(decided) => self.commit(decided),
            Err(e) => Err(e),
        }
    }

    /// Runs `command` against account `id` with empty metadata.
    pub fn execute(&mut self, id: &String, command: BankAccountCommand) -> (r: Result<
        Vec<EventEnvelope>,
        AggregateError,
    >)
        requires
            old(self).wf(),
        ensures
            final(self).wf(),
            executed(old(self)@, final(self)@, id@, command, Map::empty(), true, r) || executed(
                old(self)@,
                final(self)@,
                id@,
                command,
                Map::empty(),
                false,
                r,
            ),
    {
        self.execute_with_metadata(id, command, Metadata::new())
    }
}

} // verus!
