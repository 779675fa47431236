use cqrs_demo::aggregate::BankAccount;
use cqrs_demo::commands::{BankAccountCommand, DepositMoney, OpenAccount, WithdrawMoney, WriteCheck};
use cqrs_demo::error::DomainError;
use cqrs_demo::events::BankAccountEvent;
use cqrs_demo::services::{AtmError, BankAccountServices, CheckingError, HappyPathBankAccountServices};

fn given(events: Vec<BankAccountEvent>) -> BankAccount {
    BankAccount::replay(&events)
}

fn when(account: &BankAccount, command: BankAccountCommand) -> Result<Vec<BankAccountEvent>, DomainError> {
    account.handle_with_services(command, &HappyPathBankAccountServices)
}

struct RefusingServices;

impl BankAccountServices for RefusingServices {
    fn atm_withdrawal(&self, _account_id: &String, _amount: u64) -> Result<(), AtmError> {
        Err(AtmError)
    }

    fn validate_check(&self, _account_id: &String, _check_number: &String) -> Result<(), CheckingError> {
        Err(CheckingError)
    }
}

#[test]
fn test_deposit_money() {
    let expected = BankAccountEvent::CustomerDepositedMoney { amount: 200_00, balance: 200_00 };
    let account = given(vec![]);
    let result = when(&account, BankAccountCommand::DepositMoney(DepositMoney { amount: 200_00 }));
    assert_eq!(result, Ok(vec![expected]));
}

#[test]
fn test_deposit_money_with_balance() {
    let previous = BankAccountEvent::CustomerDepositedMoney { amount: 200_00, balance: 200_00 };
    let expected = BankAccountEvent::CustomerDepositedMoney { amount: 200_00, balance: 400_00 };
    let account = given(vec![previous]);
    let result = when(&account, BankAccountCommand::DepositMoney(DepositMoney { amount: 200_00 }));
    assert_eq!(result, Ok(vec![expected]));
}

#[test]
fn test_withdraw_money() {
    let previous = BankAccountEvent::CustomerDepositedMoney { amount: 200_00, balance: 200_00 };
    let expected = BankAccountEvent::CustomerWithdrewCash { amount: 100_00, balance: 100_00 };
    let account = given(vec![previous]);
    let result = when(&account, BankAccountCommand::WithdrawMoney(WithdrawMoney { amount: 100_00 }));
    assert_eq!(result, Ok(vec![expected]));
}

#[test]
fn test_withdraw_money_funds_not_available() {
    let account = given(vec![]);
    let result = when(&account, BankAccountCommand::WithdrawMoney(WithdrawMoney { amount: 200_00 }));
    let error = result.unwrap_err();
    assert_eq!(error, DomainError::FundsNotAvailable);
    assert_eq!(error.reason(), "funds not available");
}

#[test]
fn test_wrote_check() {
    let previous = BankAccountEvent::CustomerDepositedMoney { amount: 200_00, balance: 200_00 };
    let expected = BankAccountEvent::CustomerWroteCheck {
        check_number: "1170".to_string(),
        amount: 100_00,
        balance: 100_00,
    };
    let account = given(vec![previous]);
    let result = when(
        &account,
        BankAccountCommand::WriteCheck(WriteCheck { check_number: "1170".to_string(), amount: 100_00 }),
    );
    assert_eq!(result, Ok(vec![expected]));
}

#[test]
fn test_wrote_check_funds_not_available() {
    let account = given(vec![]);
    let result = when(
        &account,
        BankAccountCommand::WriteCheck(WriteCheck { check_number: "1170".to_string(), amount: 100_00 }),
    );
    let error = result.unwrap_err();
    assert_eq!(error, DomainError::FundsNotAvailable);
    assert_eq!(error.reason(), "funds not available");
}

#[test]
fn open_account_records_identity() {
    let account = given(vec![]);
    let result = account.handle(BankAccountCommand::OpenAccount(OpenAccount { account_id: "ACC-1".to_string() }));
    let events = result.unwrap();
    assert_eq!(events, vec![BankAccountEvent::AccountOpened { account_id: "ACC-1".to_string() }]);
    let opened = given(events);
    assert_eq!(opened.account_id(), "ACC-1");
    assert_eq!(opened.balance(), 0);
}

#[test]
fn deposit_past_largest_balance_is_refused() {
    let account = given(vec![BankAccountEvent::CustomerDepositedMoney { amount: u64::MAX, balance: u64::MAX }]);
    let result = account.handle(BankAccountCommand::DepositMoney(DepositMoney { amount: 1 }));
    let error = result.unwrap_err();
    assert_eq!(error, DomainError::BalanceOverflow);
    assert_eq!(error.reason(), "balance overflow");
}

#[test]
fn withdrawing_the_whole_balance_leaves_zero() {
    let account = given(vec![BankAccountEvent::CustomerDepositedMoney { amount: 50, balance: 50 }]);
    let result = account.handle(BankAccountCommand::WithdrawMoney(WithdrawMoney { amount: 50 }));
    assert_eq!(result, Ok(vec![BankAccountEvent::CustomerWithdrewCash { amount: 50, balance: 0 }]));
}

#[test]
fn refused_atm_withdrawal_is_a_domain_error() {
    let account = given(vec![BankAccountEvent::CustomerDepositedMoney { amount: 500, balance: 500 }]);
    let result = account.handle_with_services(
        BankAccountCommand::WithdrawMoney(WithdrawMoney { amount: 100 }),
        &RefusingServices,
    );
    let error = result.unwrap_err();
    assert_eq!(error, DomainError::AtmRuleViolation);
    assert_eq!(error.reason(), "atm rule violation");
}

#[test]
fn refused_check_is_a_domain_error() {
    let account = given(vec![BankAccountEvent::CustomerDepositedMoney { amount: 500, balance: 500 }]);
    let result = account.handle_with_services(
        BankAccountCommand::WriteCheck(WriteCheck { check_number: "7".to_string(), amount: 100 }),
        &RefusingServices,
    );
    let error = result.unwrap_err();
    assert_eq!(error, DomainError::CheckInvalid);
    assert_eq!(error.reason(), "check invalid");
}

#[test]
fn balance_rules_come_before_the_service() {
    let account = given(vec![]);
    let result = account.handle_with_services(
        BankAccountCommand::WithdrawMoney(WithdrawMoney { amount: 100 }),
        &RefusingServices,
    );
    assert_eq!(result, Err(DomainError::FundsNotAvailable));
}

#[test]
fn verdict_decides_only_where_needed() {
    let account = given(vec![BankAccountEvent::CustomerDepositedMoney { amount: 500, balance: 500 }]);
    let deposit = account.handle_with_verdict(BankAccountCommand::DepositMoney(DepositMoney { amount: 5 }), false);
    assert_eq!(deposit, Ok(vec![BankAccountEvent::CustomerDepositedMoney { amount: 5, balance: 505 }]));
    let withdraw = account.handle_with_verdict(BankAccountCommand::WithdrawMoney(WithdrawMoney { amount: 5 }), false);
    assert_eq!(withdraw, Err(DomainError::AtmRuleViolation));
    let approved = account.handle_with_verdict(BankAccountCommand::WithdrawMoney(WithdrawMoney { amount: 5 }), true);
    assert_eq!(approved, Ok(vec![BankAccountEvent::CustomerWithdrewCash { amount: 5, balance: 495 }]));
}

#[test]
fn replay_twice_gives_the_same_state() {
    let history = vec![
        BankAccountEvent::AccountOpened { account_id: "X".to_string() },
        BankAccountEvent::CustomerDepositedMoney { amount: 300, balance: 300 },
        BankAccountEvent::CustomerWroteCheck { check_number: "9".to_string(), amount: 120, balance: 180 },
    ];
    let first = BankAccount::replay(&history);
    let second = BankAccount::replay(&history);
    assert_eq!(first.balance(), 180);
    assert_eq!(first.balance(), second.balance());
    assert_eq!(first.account_id(), second.account_id());
}

#[test]
fn balance_never_goes_negative_over_a_run() {
    let commands = vec![
        BankAccountCommand::DepositMoney(DepositMoney { amount: 100 }),
        BankAccountCommand::WithdrawMoney(WithdrawMoney { amount: 150 }),
        BankAccountCommand::WriteCheck(WriteCheck { check_number: "1".to_string(), amount: 60 }),
        BankAccountCommand::WithdrawMoney(WithdrawMoney { amount: 41 }),
        BankAccountCommand::WithdrawMoney(WithdrawMoney { amount: 40 }),
    ];
    let mut history: Vec<BankAccountEvent> = vec![];
    let mut refused = 0;
    for command in commands {
        let state = BankAccount::replay(&history);
        match state.handle(command) {
            Ok(events) => history.extend(events),
            Err(e) => {
                assert_eq!(e, DomainError::FundsNotAvailable);
                refused += 1;
            }
        }
    }
    assert_eq!(refused, 2);
    assert_eq!(history.len(), 3);
    assert_eq!(BankAccount::replay(&history).balance(), 0);
}

#[test]
fn aggregate_type_and_names() {
    assert_eq!(BankAccount::aggregate_type(), "account");
    let command = BankAccountCommand::WriteCheck(WriteCheck { check_number: "1".to_string(), amount: 1 });
    assert_eq!(command.command_type(), "WriteCheck");
    assert_eq!(BankAccountCommand::OpenAccount(OpenAccount { account_id: "a".to_string() }).command_type(), "OpenAccount");
    let event = BankAccountEvent::CustomerWithdrewCash { amount: 1, balance: 2 };
    assert_eq!(event.event_type(), "CustomerWithdrewCash");
    assert_eq!(event.event_version(), "1.0");
    assert_eq!(event.duplicate(), event);
}
