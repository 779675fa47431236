use vstd::prelude::*;
use crate::metadata::Metadata;

verus! {

/// An immutable fact about one bank account. Amounts and balances are in
/// cents; each money event carries the balance that results from it.
#[derive(Debug, Clone, PartialEq, Eq)]
pub enum BankAccountEvent {
    AccountOpened { account_id: String },
    CustomerDepositedMoney { amount: u64, balance: u64 },
    CustomerWithdrewCash { amount: u64, balance: u64 },
    CustomerWroteCheck { check_number: String, amount: u64, balance: u64 },
}

impl BankAccountEvent {
    /// The name of the event's variant, as persisted beside its payload.
    pub open spec fn kind_name(self) -> Seq<char> {
        match self {
            BankAccountEvent::AccountOpened { .. } => "AccountOpened"@,
            BankAccountEvent::CustomerDepositedMoney { .. } => "CustomerDepositedMoney"@,
            BankAccountEvent::CustomerWithdrewCash { .. } => "CustomerWithdrewCash"@,
            BankAccountEvent::CustomerWroteCheck { .. } => "CustomerWroteCheck"@,
        }
    }

    pub fn event_type(&self) -> (r: String)
        ensures
            r@ == self.kind_name(),
    {
        match self {
            BankAccountEvent::AccountOpened { .. } => "AccountOpened".to_string(),
            BankAccountEvent::CustomerDepositedMoney { .. } => "CustomerDepositedMoney".to_string(),
            BankAccountEvent::CustomerWithdrewCash { .. } => "CustomerWithdrewCash".to_string(),
            BankAccountEvent::CustomerWroteCheck { .. } => "CustomerWroteCheck".to_string(),
        }
    }

    /// Every event of this aggregate is at schema version "1.0".
    pub fn event_version(&self) -> (r: String)
        ensures
            r@ == "1.0"@,
    {
        "1.0".to_string()
    }

    /// A copy of the event, field for field.
    pub fn duplicate(&self) -> (r: BankAccountEvent)
        ensures
            r == *self,
    {
        match self {
            BankAccountEvent::AccountOpened { account_id } => BankAccountEvent::AccountOpened {
                account_id: account_id.clone(),
            },
            BankAccountEvent::CustomerDepositedMoney { amount, balance } => {
                BankAccountEvent::CustomerDepositedMoney { amount: *amount, balance: *balance }
            },
            BankAccountEvent::CustomerWithdrewCash { amount, balance } => {
                BankAccountEvent::CustomerWithdrewCash { amount: *amount, balance: *balance }
            },
            BankAccountEvent::CustomerWroteCheck { check_number, amount, balance } => {
                BankAccountEvent::CustomerWroteCheck {
                    check_number: check_number.clone(),
                    amount: *amount,
                    balance: *balance,
                }
            },
        }
    }
}

/// What an envelope holds, with its strings and metadata as values.
pub struct EnvelopeModel {
    pub aggregate_id: Seq<char>,
    pub sequence: u64,
    pub payload: BankAccountEvent,
    pub metadata: Map<Seq<char>, Seq<char>>,
}

/// A committed event: the stream it belongs to, its place in that stream
/// (starting at 1), the event itself and the metadata of the command
/// execution that produced it.
#[derive(Debug)]
pub struct EventEnvelope {
    pub aggregate_id: String,
    pub sequence: u64,
    pub payload: BankAccountEvent,
    pub metadata: Metadata,
}

impl View for EventEnvelope {
    type V = EnvelopeModel;

    open spec fn view(&self) -> EnvelopeModel {
        EnvelopeModel {
            aggregate_id: self.aggregate_id@,
            sequence: self.sequence,
            payload: self.payload,
            metadata: self.metadata@,
        }
    }
}

/// The contents of a run of envelopes.
pub open spec fn models(envelopes: Seq<EventEnvelope>) -> Seq<EnvelopeModel> {
    envelopes.map_values(|e: EventEnvelope| e@)
}

impl EventEnvelope {
    /// The name of the payload's variant.
    pub fn event_type(&self) -> (r: String)
        ensures
            r@ == self.payload.kind_name(),
    {
        self.payload.event_type()
    }

    /// The schema version of the payload.
    pub fn event_version(&self) -> (r: String)
        ensures
            r@ == "1.0"@,
    {
        self.payload.event_version()
    }

    /// A copy with the same contents.
    pub fn duplicate(&self) -> (r: EventEnvelope)
        ensures
            r@ == self@,
    {
        EventEnvelope {
            aggregate_id: self.aggregate_id.clone(),
            sequence: self.sequence,
            payload: self.payload.duplicate(),
            metadata: self.metadata.duplicate(),
        }
    }
}

} // verus!
