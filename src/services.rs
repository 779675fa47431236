use vstd::prelude::*;
use crate::commands::BankAccountCommand;

verus! {

/// The ATM network refused a withdrawal.
#[derive(Debug, Clone, Copy, PartialEq, Eq, Structural)]
pub struct AtmError;

/// The checking service refused a check.
#[derive(Debug, Clone, Copy, PartialEq, Eq, Structural)]
pub struct CheckingError;

/// Outside services consulted while a command is decided, after the balance
/// rules have accepted it. What they answer is up to them.
pub trait BankAccountServices {
    /// Asks the ATM network to pay out `amount` cents from account `account_id`.
    fn atm_withdrawal(&self, account_id: &String, amount: u64) -> Result<(), AtmError>;

    /// Asks the checking service whether check `check_number` of account
    /// `account_id` may be paid.
    fn validate_check(&self, account_id: &String, check_number: &String) -> Result<
        (),
        CheckingError,
    >;
}

/// Services that approve every request.
pub struct HappyPathBankAccountServices;

impl BankAccountServices for HappyPathBankAccountServices {
    fn atm_withdrawal(&self, account_id: &String, amount: u64) -> Result<(), AtmError> {
        Ok(())
    }

    fn validate_check(&self, account_id: &String, check_number: &String) -> Result<
        (),
        CheckingError,
    > {
        Ok(())
    }
}

/// A command together with the services that it is decided with.
pub struct CommandWithServices<S> {
    pub payload: BankAccountCommand,
    pub services: S,
}

/// Pairs commands with services that approve everything.
pub struct HappyPathServicesFactory;

impl HappyPathServicesFactory {
    pub fn wrap_bank_account_command(&self, command: BankAccountCommand) -> (r: CommandWithServices<
        HappyPathBankAccountServices,
    >)
        ensures
            r.payload == command,
    {
        CommandWithServices { payload: command, services: HappyPathBankAccountServices }
    }
}

} // verus!
