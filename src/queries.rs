use vstd::prelude::*;
use crate::events::{models, BankAccountEvent, EnvelopeModel, EventEnvelope};
use vstd::string::StringExecFns;

verus! {

/// What an account view holds, with its strings as values.
pub struct ViewModel {
    pub account_id: Option<Seq<char>>,
    pub balance: u64,
    pub written_checks: Seq<Seq<char>>,
    pub last_sequence: u64,
}

/// The view of an account to which no event has been applied.
pub open spec fn empty_view() -> ViewModel {
    ViewModel { account_id: None, balance: 0, written_checks: Seq::empty(), last_sequence: 0 }
}

/// The projection rule: an event at or below the view's last applied
/// sequence changes nothing; a later one updates what it speaks of and
/// becomes the last applied.
pub open spec fn project(view: ViewModel, event: EnvelopeModel) -> ViewModel {
    if event.sequence <= view.last_sequence {
        view
    } else {
        let updated = match event.payload {
            BankAccountEvent::AccountOpened { account_id } => ViewModel {
                account_id: Some(account_id@),
                ..view
            },
            BankAccountEvent::CustomerDepositedMoney { balance, .. } => ViewModel {
                balance,
                ..view
            },
            BankAccountEvent::CustomerWithdrewCash { balance, .. } => ViewModel {
                balance,
                ..view
            },
            BankAccountEvent::CustomerWroteCheck { check_number, balance, .. } => ViewModel {
                balance,
                written_checks: view.written_checks.push(check_number@),
                ..view
            },
        };
        ViewModel { last_sequence: event.sequence, ..updated }
    }
}

/// The view after projecting `events` in order.
pub open spec fn project_all(view: ViewModel, events: Seq<EnvelopeModel>) -> ViewModel
    decreases events.len(),
{
    if events.len() == 0 {
        view
    } else {
        project(project_all(view, events.drop_last()), events.last())
    }
}

/// Re-applying an event at or below the view's last applied sequence leaves
/// the view as it is; so applying any event a second time changes nothing,
/// and the last applied sequence never goes down.
pub proof fn lemma_projection_idempotent(view: ViewModel, event: EnvelopeModel)
    ensures
        event.sequence <= view.last_sequence ==> project(view, event) == view,
        project(project(view, event), event) == project(view, event),
        project(view, event).last_sequence >= view.last_sequence,
{
}

/// Projecting a run of events in two parts, the second onto the result of
/// the first, gives the view of projecting it whole.
pub proof fn lemma_project_all_split(
    view: ViewModel,
    first: Seq<EnvelopeModel>,
    second: Seq<EnvelopeModel>,
)
    ensures
        project_all(view, first + second) == project_all(project_all(view, first), second),
    decreases second.len(),
{
    if second.len() == 0 {
        assert(first + second =~= first);
    } else {
        lemma_project_all_split(view, first, second.drop_last());
        assert((first + second).drop_last() =~= first + second.drop_last());
    }
}

/// The read model of one account: its identity once opened, its balance in
/// cents, the checks written on it, and the last event sequence applied.
#[derive(Debug)]
pub struct BankAccountView {
    account_id: Option<String>,
    balance: u64,
    written_checks: Vec<String>,
    last_sequence: u64,
}

impl View for BankAccountView {
    type V = ViewModel;

    closed spec fn view(&self) -> ViewModel {
        ViewModel {
            account_id: match self.account_id {
                Some(s) => Some(s@),
                None => None,
            },
            balance: self.balance,
            written_checks: self.written_checks@.map_values(|s: String| s@),
            last_sequence: self.last_sequence,
        }
    }
}

impl Default for BankAccountView {
    fn default() -> (r: BankAccountView)
        ensures
            r@ == empty_view(),
    {
        let r = BankAccountView {
            account_id: None,
            balance: 0,
            written_checks: Vec::new(),
            last_sequence: 0,
        };
        assert(r@.written_checks =~= Seq::<Seq<char>>::empty());
        r
    }
}

impl BankAccountView {
    pub fn account_id(&self) -> (r: Option<&String>)
        ensures
            r is Some <==> self@.account_id is Some,
            r is Some ==> r->Some_0@ == self@.account_id->Some_0,
    {
        match &self.account_id {
            Some(s) => Some(s),
            None => None,
        }
    }

    /// The balance in cents.
    pub fn balance(&self) -> (r: u64)
        ensures
            r == self@.balance,
    {
        self.balance
    }

    /// The numbers of the checks written, oldest first.
    pub fn written_checks(&self) -> (r: &Vec<String>)
        ensures
            r@.map_values(|s: String| s@) == self@.written_checks,
    {
        &self.written_checks
    }

    /// The sequence of the last event applied; 0 before any.
    pub fn last_sequence(&self) -> (r: u64)
        ensures
            r == self@.last_sequence,
    {
        self.last_sequence
    }

    /// Applies one committed event, skipping it if it was applied before.
    pub fn update(&mut self, event: &EventEnvelope)
        ensures
            final(self)@ == project(old(self)@, event@),
    {
        if event.sequence <= self.last_sequence {
            return;
        }
        match &event.payload {
            BankAccountEvent::AccountOpened { account_id } => {
                self.account_id = Some(account_id.clone());
            },
            BankAccountEvent::CustomerDepositedMoney { balance, .. } => {
                self.balance = *balance;
            },
            BankAccountEvent::CustomerWithdrewCash { balance, .. } => {
                self.balance = *balance;
            },
            BankAccountEvent::CustomerWroteCheck { check_number, balance, .. } => {
                self.balance = *balance;
                self.written_checks.push(check_number.clone());
                assert(self@.written_checks =~= old(self)@.written_checks.push(check_number@));
            },
        }
        self.last_sequence = event.sequence;
    }

    /// Applies committed events in order, skipping those applied before.
    pub fn apply_events(&mut self, events: &Vec<EventEnvelope>)
        ensures
            final(self)@ == project_all(old(self)@, models(events@)),
    {
        let mut i: usize = 0;
        while i < events.len()
            invariant
                i <= events@.len(),
                self@ == project_all(old(self)@, models(events@).take(i as int)),
            decreases events@.len() - i,
        {
            assert(models(events@).take(i + 1).drop_last() =~= models(events@).take(i as int));
            self.update(&events[i]);
            i = i + 1;
        }
        assert(models(events@).take(i as int) =~= models(events@));
    }

    /// A copy holding the same contents.
    pub fn duplicate(&self) -> (r: BankAccountView)
        ensures
            r@ == self@,
    {
        let mut checks: Vec<String> = Vec::new();
        let mut i: usize = 0;
        while i < self.written_checks.len()
            invariant
                i <= self.written_checks@.len(),
                checks@ == self.written_checks@.take(i as int),
            decreases self.written_checks@.len() - i,
        {
            checks.push(self.written_checks[i].clone());
            assert(checks@ =~= self.written_checks@.take(i + 1));
            i = i + 1;
        }
        assert(self.written_checks@.take(i as int) =~= self.written_checks@);
        let account_id = match &self.account_id {
            Some(s) => Some(s.clone()),
            None => None,
        };
        BankAccountView {
            account_id,
            balance: self.balance,
            written_checks: checks,
            last_sequence: self.last_sequence,
        }
    }
}

/// The view that events for `id` are projected onto: the stored one, or an
/// empty view if none exists yet.
pub open spec fn view_or_empty(views: Map<Seq<char>, ViewModel>, id: Seq<char>) -> ViewModel {
    if views.contains_key(id) {
        views[id]
    } else {
        empty_view()
    }
}

/// Materialized account views, one per aggregate id, each kept up to date by
/// projecting that account's committed events.
pub struct AccountQuery {
    ids: Vec<String>,
    views: Vec<BankAccountView>,
    contents: Ghost<Map<Seq<char>, ViewModel>>,
}

impl View for AccountQuery {
    type V = Map<Seq<char>, ViewModel>;

    closed spec fn view(&self) -> Map<Seq<char>, ViewModel> {
        self.contents@
    }
}

impl AccountQuery {
    /// Each stored view sits under one id, and the map lists exactly those.
    pub closed spec fn wf(&self) -> bool {
        &&& self.ids@.len() == self.views@.len()
        &&& forall|i: int, j: int|
            0 <= i < j < self.ids@.len() ==> #[trigger] self.ids@[i]@ != #[trigger] self.ids@[j]@
        &&& forall|i: int|
            0 <= i < self.ids@.len() ==> self.contents@.contains_key(#[trigger] self.ids@[i]@)
                && self.contents@[self.ids@[i]@] == self.views@[i]@
        &&& forall|k: Seq<char>|
            #[trigger] self.contents@.contains_key(k) ==> exists|i: int|
                0 <= i < self.ids@.len() && self.ids@[i]@ == k
    }

    pub fn new() -> (r: AccountQuery)
        ensures
            r.wf(),
            r@ == Map::<Seq<char>, ViewModel>::empty(),
    {
        AccountQuery { ids: Vec::new(), views: Vec::new(), contents: Ghost(Map::empty()) }
    }

    fn position(&self, id: &String) -> (r: Option<usize>)
        requires
            self.wf(),
        ensures
            r is Some ==> r->Some_0 < self.ids@.len() && self.ids@[r->Some_0 as int]@ == id@,
            r is None ==> !self@.contains_key(id@),
    {
        let mut i: usize = 0;
        while i < self.ids.len()
            invariant
                i <= self.ids@.len(),
                forall|j: int| 0 <= j < i ==> #[trigger] self.ids@[j]@ != id@,
            decreases self.ids@.len() - i,
        {
            if self.ids[i] == *id {
                return Some(i);
            }
            i = i + 1;
        }
        None
    }

    /// The view of account `id`; none if no event of it was ever projected.
    pub fn load(&self, id: &String) -> (r: Option<&BankAccountView>)
        requires
            self.wf(),
        ensures
            r is Some <==> self@.contains_key(id@),
            r is Some ==> r->Some_0@ == self@[id@],
    {
        match self.position(id) {
            Some(i) => Some(&self.views[i]),
            None => None,
        }
    }

    /// Projects the committed `events` of account `id` onto its view, which
    /// is created on the first delivery.
    pub fn dispatch(&mut self, id: &String, events: &Vec<EventEnvelope>)
        requires
            old(self).wf(),
        ensures
            final(self).wf(),
            events@.len() == 0 ==> final(self)@ == old(self)@,
            events@.len() > 0 ==> final(self)@ == old(self)@.insert(
                id@,
                project_all(view_or_empty(old(self)@, id@), models(events@)),
            ),
    {
        if events.len() == 0 {
            return;
        }
        match self.position(id) {
            Some(i) => {
                let mut view = self.views[i].duplicate();
                view.apply_events(events);
                self.views.set(i, view);
                proof {
                    self.contents@ = self.contents@.insert(id@, view@);
                }
                assert forall|k: Seq<char>| #[trigger]
                    self.contents@.contains_key(k) implies exists|j: int|
                    0 <= j < self.ids@.len() && self.ids@[j]@ == k by {
                    if k != id@ {
                        assert(old(self).contents@.contains_key(k));
                        let j = choose|j: int|
                            0 <= j < old(self).ids@.len() && old(self).ids@[j]@ == k;
                        assert(self.ids@[j]@ == k);
                    } else {
                        assert(self.ids@[i as int]@ == k);
                    }
                }
            },
            None => {
                let mut view = BankAccountView::default();
                view.apply_events(events);
                self.ids.push(id.clone());
                self.views.push(view);
                proof {
                    self.contents@ = self.contents@.insert(id@, view@);
                }
                assert forall|k: Seq<char>| #[trigger]
                    self.contents@.contains_key(k) implies exists|j: int|
                    0 <= j < self.ids@.len() && self.ids@[j]@ == k by {
                    if k != id@ {
                        assert(old(self).contents@.contains_key(k));
                        let j = choose|j: int| 0 <= j < old(self).ids@.len() && old(self).ids@[j]@ == k;
                        assert(self.ids@[j] == old(self).ids@[j]);
                    } else {
                        assert(self.ids@[old(self).ids@.len() as int]@ == k);
                    }
                }
            },
        }
    }
}

/// The decimal digits of `n`, most significant first, with no sign or padding.
pub open spec fn decimal(n: nat) -> Seq<char>
    decreases n,
{
    if n < 10 {
        seq!["0123456789"@[n as int]]
    } else {
        decimal(n / 10).push("0123456789"@[(n % 10) as int])
    }
}

/// Relies on `u64`'s `to_string` (its `Display`): the number in decimal
/// digits, with no sign or padding.
#[verifier::external_body]
fn decimal_string(n: u64) -> (r: String)
    ensures
        r@ == decimal(n as nat),
{
    n.to_string()
}

/// The heading under which an event is logged: its stream and its sequence.
pub open spec fn log_heading(event: EnvelopeModel) -> Seq<char> {
    event.aggregate_id + "-"@ + decimal(event.sequence as nat)
}

/// A query that records each committed event as it is processed; useful for
/// debugging only.
pub struct SimpleLoggingQuery {}

impl SimpleLoggingQuery {
    /// One heading per event, `<aggregate id>-<sequence>`, in the order the
    /// events were committed; the caller prints each with its payload.
    pub fn dispatch(&self, events: &Vec<EventEnvelope>) -> (r: Vec<String>)
        ensures
            r@.len() == events@.len(),
            forall|i: int| 0 <= i < r@.len() ==> #[trigger] r@[i]@ == log_heading(events@[i]@),
    {
        let mut r: Vec<String> = Vec::new();
        let mut i: usize = 0;
        while i < events.len()
            invariant
                i <= events@.len(),
                r@.len() == i,
                forall|j: int| 0 <= j < i ==> #[trigger] r@[j]@ == log_heading(events@[j]@),
            decreases events@.len() - i,
        {
            let event = &events[i];
            let mut line = event.aggregate_id.clone();
            line.append("-");
            line.append(decimal_string(event.sequence).as_str());
            r.push(line);
            i = i + 1;
        }
        r
    }
}

} // verus!
