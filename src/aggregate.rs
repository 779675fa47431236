use vstd::prelude::*;
use crate::commands::BankAccountCommand;
use crate::error::DomainError;
use crate::events::BankAccountEvent;
use crate::services::BankAccountServices;

verus! {

/// What a bank account is, as far as decisions go.
pub struct AccountModel {
    pub account_id: Seq<char>,
    pub balance: u64,
}

/// The zero state: no identity, no money.
pub open spec fn initial_account() -> AccountModel {
    AccountModel { account_id: Seq::empty(), balance: 0 }
}

/// The events that `command` yields against `state`, or the business rule it breaks.
pub open spec fn decide(state: AccountModel, command: BankAccountCommand) -> Result<
    Seq<BankAccountEvent>,
    DomainError,
> {
    match command {
        BankAccountCommand::OpenAccount(c) => Ok(
            seq![BankAccountEvent::AccountOpened { account_id: c.account_id }],
        ),
        BankAccountCommand::DepositMoney(c) => {
            if state.balance + c.amount > u64::MAX {
                Err(DomainError::BalanceOverflow)
            } else {
                Ok(
                    seq![
                        BankAccountEvent::CustomerDepositedMoney {
                            amount: c.amount,
                            balance: (state.balance + c.amount) as u64,
                        },
                    ],
                )
            }
        },
        BankAccountCommand::WithdrawMoney(c) => {
            if state.balance < c.amount {
                Err(DomainError::FundsNotAvailable)
            } else {
                Ok(
                    seq![
                        BankAccountEvent::CustomerWithdrewCash {
                            amount: c.amount,
                            balance: (state.balance - c.amount) as u64,
                        },
                    ],
                )
            }
        },
        BankAccountCommand::WriteCheck(c) => {
            if state.balance < c.amount {
                Err(DomainError::FundsNotAvailable)
            } else {
                Ok(
                    seq![
                        BankAccountEvent::CustomerWroteCheck {
                            check_number: c.check_number,
                            amount: c.amount,
                            balance: (state.balance - c.amount) as u64,
                        },
                    ],
                )
            }
        },
    }
}

/// Withdrawals and checks also need the approval of an outside service.
pub open spec fn needs_approval(command: BankAccountCommand) -> bool {
    command is WithdrawMoney || command is WriteCheck
}

/// The error for a command whose service refused it.
pub open spec fn refusal(command: BankAccountCommand) -> DomainError {
    if command is WithdrawMoney {
        DomainError::AtmRuleViolation
    } else {
        DomainError::CheckInvalid
    }
}

/// The decision once the outside service has answered `approved`: the
/// balance rules come first, and the service is heard only on what they accept.
pub open spec fn decide_with_verdict(
    state: AccountModel,
    command: BankAccountCommand,
    approved: bool,
) -> Result<Seq<BankAccountEvent>, DomainError> {
    match decide(state, command) {
        Ok(events) => if needs_approval(command) && !approved {
            Err(refusal(command))
        } else {
            Ok(events)
        },
        Err(e) => Err(e),
    }
}

/// One step of the fold: the state after `event`.
pub open spec fn apply_event(state: AccountModel, event: BankAccountEvent) -> AccountModel {
    match event {
        BankAccountEvent::AccountOpened { account_id } => AccountModel {
            account_id: account_id@,
            ..state
        },
        BankAccountEvent::CustomerDepositedMoney { balance, .. } => AccountModel {
            balance: balance,
            ..state
        },
        BankAccountEvent::CustomerWithdrewCash { balance, .. } => AccountModel {
            balance: balance,
            ..state
        },
        BankAccountEvent::CustomerWroteCheck { balance, .. } => AccountModel {
            balance: balance,
            ..state
        },
    }
}

/// The state reached from `state` by applying `events` in order.
pub open spec fn replay_from(state: AccountModel, events: Seq<BankAccountEvent>) -> AccountModel
    decreases events.len(),
{
    if events.len() == 0 {
        state
    } else {
        apply_event(replay_from(state, events.drop_last()), events.last())
    }
}

/// The state of an account whose history is `events`.
pub open spec fn replay_spec(events: Seq<BankAccountEvent>) -> AccountModel {
    replay_from(initial_account(), events)
}

/// How much `command` asks to move the balance, in cents.
pub open spec fn balance_change(command: BankAccountCommand) -> int {
    match command {
        BankAccountCommand::OpenAccount(_) => 0,
        BankAccountCommand::DepositMoney(c) => c.amount as int,
        BankAccountCommand::WithdrawMoney(c) => -(c.amount as int),
        BankAccountCommand::WriteCheck(c) => -(c.amount as int),
    }
}

/// The history committed when `commands` are decided in order from `state`,
/// each against the state that the history so far replays to; a rejected
/// command adds nothing.
pub open spec fn committed_history(
    state: AccountModel,
    commands: Seq<BankAccountCommand>,
) -> Seq<BankAccountEvent>
    decreases commands.len(),
{
    if commands.len() == 0 {
        Seq::empty()
    } else {
        let prior = committed_history(state, commands.drop_last());
        match decide(replay_from(state, prior), commands.last()) {
            Ok(events) => prior + events,
            Err(_) => prior,
        }
    }
}

/// Replaying a history in two parts, the second from where the first left
/// off, gives the state of replaying it whole: the state depends on the
/// events alone.
pub proof fn lemma_replay_split(
    state: AccountModel,
    first: Seq<BankAccountEvent>,
    second: Seq<BankAccountEvent>,
)
    ensures
        replay_from(state, first + second) == replay_from(replay_from(state, first), second),
    decreases second.len(),
{
    if second.len() == 0 {
        assert(first + second =~= first);
    } else {
        lemma_replay_split(state, first, second.drop_last());
        assert((first + second).drop_last() =~= first + second.drop_last());
    }
}

/// Replaying one history twice gives identical states: two accounts that
/// each hold what `BankAccount::replay` promises for `history` are equal.
pub proof fn lemma_replay_deterministic(
    history: Seq<BankAccountEvent>,
    first: AccountModel,
    second: AccountModel,
)
    requires
        first == replay_spec(history),
        second == replay_spec(history),
    ensures
        first == second,
{
}

/// Balance rule for one command: a command that would take the balance below
/// zero is refused with "funds not available" and yields no events; one that
/// is accepted moves the replayed balance by exactly its amount.
pub proof fn lemma_decide_keeps_balance(state: AccountModel, command: BankAccountCommand)
    ensures
        state.balance + balance_change(command) < 0 ==> decide(state, command) == Err::<
            Seq<BankAccountEvent>,
            DomainError,
        >(DomainError::FundsNotAvailable),
        decide(state, command) is Ok ==> replay_from(state, decide(state, command)->Ok_0).balance
            == state.balance + balance_change(command),
{
    if decide(state, command) is Ok {
        let events = decide(state, command)->Ok_0;
        assert(events.drop_last() =~= Seq::<BankAccountEvent>::empty());
        assert(replay_from(state, events.drop_last()) == state);
    }
}

/// Balance invariant over any run of commands from the zero state: at every
/// step the committed history replays to a balance that the next command
/// either moves by exactly its amount, staying at or above zero, or, where it
/// would go below zero, leaves with no event added.
pub proof fn lemma_balance_invariant(commands: Seq<BankAccountCommand>, i: int)
    requires
        0 <= i < commands.len(),
    ensures
        ({
            let before = committed_history(initial_account(), commands.take(i));
            let after = committed_history(initial_account(), commands.take(i + 1));
            let balance = replay_spec(before).balance;
            &&& balance + balance_change(commands[i]) < 0 ==> after == before
                && decide(replay_spec(before), commands[i]) == Err::<
                Seq<BankAccountEvent>,
                DomainError,
            >(DomainError::FundsNotAvailable)
            &&& decide(replay_spec(before), commands[i]) is Ok ==> replay_spec(after).balance
                == balance + balance_change(commands[i]) >= 0
        }),
{
    let before = committed_history(initial_account(), commands.take(i));
    let prefix = commands.take(i + 1);
    assert(prefix.drop_last() =~= commands.take(i));
    assert(prefix.last() == commands[i]);
    let s = replay_spec(before);
    lemma_decide_keeps_balance(s, commands[i]);
    if decide(s, commands[i]) is Ok {
        lemma_replay_split(initial_account(), before, decide(s, commands[i])->Ok_0);
    }
}

/// The state of one bank account, rebuilt from its history on every command.
#[derive(Debug)]
pub struct BankAccount {
    account_id: String,
    balance: u64,
}

impl View for BankAccount {
    type V = AccountModel;

    closed spec fn view(&self) -> AccountModel {
        AccountModel { account_id: self.account_id@, balance: self.balance }
    }
}

impl Default for BankAccount {
    fn default() -> (r: BankAccount)
        ensures
            r@ == initial_account(),
    {
        BankAccount { account_id: String::new(), balance: 0 }
    }
}

/// Whether the balance rules alone accept `command`.
fn decide_balance_only(account: &BankAccount, command: &BankAccountCommand) -> (r: bool)
    ensures
        r == decide(account@, *command) is Ok,
{
    match command {
        BankAccountCommand::OpenAccount(_) => true,
        BankAccountCommand::DepositMoney(c) => account.balance.checked_add(c.amount).is_some(),
        BankAccountCommand::WithdrawMoney(c) => account.balance >= c.amount,
        BankAccountCommand::WriteCheck(c) => account.balance >= c.amount,
    }
}

impl BankAccount {
    /// The name under which accounts are stored; unique within the system.
    pub fn aggregate_type() -> (r: &'static str)
        ensures
            r@ == "account"@,
    {
        "account"
    }

    pub fn account_id(&self) -> (r: &String)
        ensures
            r@ == self@.account_id,
    {
        &self.account_id
    }

    /// The balance in cents.
    pub fn balance(&self) -> (r: u64)
        ensures
            r == self@.balance,
    {
        self.balance
    }

    /// Decides `command` against the current state without changing it.
    pub fn handle(&self, command: BankAccountCommand) -> (r: Result<
        Vec<BankAccountEvent>,
        DomainError,
    >)
        ensures
            match decide(self@, command) {
                Ok(events) => r is Ok && r->Ok_0@ == events,
                Err(e) => r == Err::<Vec<BankAccountEvent>, DomainError>(e),
            },
    {
        match command {
            BankAccountCommand::OpenAccount(c) => {
                Ok(vec![BankAccountEvent::AccountOpened { account_id: c.account_id }])
            },
            BankAccountCommand::DepositMoney(c) => {
                match self.balance.checked_add(c.amount) {
                    Some(balance) => Ok(
                        vec![BankAccountEvent::CustomerDepositedMoney { amount: c.amount, balance }],
                    ),
                    None => Err(DomainError::BalanceOverflow),
                }
            },
            BankAccountCommand::WithdrawMoney(c) => {
                if self.balance < c.amount {
                    return Err(DomainError::FundsNotAvailable);
                }
                let balance = self.balance - c.amount;
                Ok(vec![BankAccountEvent::CustomerWithdrewCash { amount: c.amount, balance }])
            },
            BankAccountCommand::WriteCheck(c) => {
                if self.balance < c.amount {
                    return Err(DomainError::FundsNotAvailable);
                }
                let balance = self.balance - c.amount;
                Ok(
                    vec![
                        BankAccountEvent::CustomerWroteCheck {
                            check_number: c.check_number,
                            amount: c.amount,
                            balance,
                        },
                    ],
                )
            },
        }
    }

    /// Decides `command` given the outside service's answer `approved`.
    pub fn handle_with_verdict(&self, command: BankAccountCommand, approved: bool) -> (r: Result<
        Vec<BankAccountEvent>,
        DomainError,
    >)
        ensures
            match decide_with_verdict(self@, command, approved) {
                Ok(events) => r is Ok && r->Ok_0@ == events,
                Err(e) => r == Err::<Vec<BankAccountEvent>, DomainError>(e),
            },
    {
        let needs = match &command {
            BankAccountCommand::WithdrawMoney(_) => true,
            BankAccountCommand::WriteCheck(_) => true,
            _ => false,
        };
        let refused = match &command {
            BankAccountCommand::WithdrawMoney(_) => DomainError::AtmRuleViolation,
            _ => DomainError::CheckInvalid,
        };
        match self.handle(command) {
            Ok(events) => {
                if needs && !approved {
                    Err(refused)
                } else {
                    Ok(events)
                }
            },
            Err(e) => Err(e),
        }
    }

    /// Decides `command`, asking `services` for approval where the balance
    /// rules accept a withdrawal or a check. The result is the decision for
    /// whichever answer the service gave.
    pub fn handle_with_services<S: BankAccountServices>(
        &self,
        command: BankAccountCommand,
        services: &S,
    ) -> (r: Result<Vec<BankAccountEvent>, DomainError>)
        ensures
            match decide_with_verdict(self@, command, true) {
                Ok(events) => r is Ok && r->Ok_0@ == events,
                Err(e) => r == Err::<Vec<BankAccountEvent>, DomainError>(e),
            } || match decide_with_verdict(self@, command, false) {
                Ok(events) => r is Ok && r->Ok_0@ == events,
                Err(e) => r == Err::<Vec<BankAccountEvent>, DomainError>(e),
            },
    {
        let accepted = decide_balance_only(self, &command);
        let approved = if !accepted {
            true
        } else {
            match &command {
                BankAccountCommand::WithdrawMoney(c) => services.atm_withdrawal(
                    &self.account_id,
                    c.amount,
                ).is_ok(),
                BankAccountCommand::WriteCheck(c) => services.validate_check(
                    &self.account_id,
                    &c.check_number,
                ).is_ok(),
                _ => true,
            }
        };
        self.handle_with_verdict(command, approved)
    }

    /// Folds one event into the state.
    pub fn apply(&mut self, event: BankAccountEvent)
        ensures
            final(self)@ == apply_event(old(self)@, event),
    {
        match event {
            BankAccountEvent::AccountOpened { account_id } => {
                self.account_id = account_id;
            },
            BankAccountEvent::CustomerDepositedMoney { balance, .. } => {
                self.balance = balance;
            },
            BankAccountEvent::CustomerWithdrewCash { balance, .. } => {
                self.balance = balance;
            },
            BankAccountEvent::CustomerWroteCheck { balance, .. } => {
                self.balance = balance;
            },
        }
    }

    /// The state of an account whose history is `events`, oldest first.
    pub fn replay(events: &Vec<BankAccountEvent>) -> (r: BankAccount)
        ensures
            r@ == replay_spec(events@),
    {
        let mut state = BankAccount::default();
        let mut i: usize = 0;
        while i < events.len()
            invariant
                i <= events@.len(),
                state@ == replay_spec(events@.subrange(0, i as int)),
            decreases events@.len() - i,
        {
            proof {
                assert(events@.subrange(0, i + 1).drop_last() =~= events@.subrange(0, i as int));
            }
            state.apply(events[i].duplicate());
            i = i + 1;
        }
        proof {
            assert(events@.subrange(0, i as int) =~= events@);
        }
        state
    }
}

} // verus!
