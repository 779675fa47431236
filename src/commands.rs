use vstd::prelude::*;

verus! {

/// Opens the account under the given identity.
#[derive(Debug, Clone, PartialEq, Eq)]
pub struct OpenAccount {
    pub account_id: String,
}

/// Adds `amount` (in cents) to the balance.
#[derive(Debug, Clone, PartialEq, Eq)]
pub struct DepositMoney {
    pub amount: u64,
}

/// Takes `amount` (in cents) out as cash.
#[derive(Debug, Clone, PartialEq, Eq)]
pub struct WithdrawMoney {
    pub amount: u64,
}

/// Pays `amount` (in cents) by the check numbered `check_number`.
#[derive(Debug, Clone, PartialEq, Eq)]
pub struct WriteCheck {
    pub check_number: String,
    pub amount: u64,
}

/// A request to change one bank account. It carries only what the decision
/// needs: the resulting balance is computed, never supplied.
#[derive(Debug, Clone, PartialEq, Eq)]
pub enum BankAccountCommand {
    OpenAccount(OpenAccount),
    DepositMoney(DepositMoney),
    WithdrawMoney(WithdrawMoney),
    WriteCheck(WriteCheck),
}

impl BankAccountCommand {
    /// The name of the command's variant.
    pub open spec fn kind_name(self) -> Seq<char> {
        match self {
            BankAccountCommand::OpenAccount(_) => "OpenAccount"@,
            BankAccountCommand::DepositMoney(_) => "DepositMoney"@,
            BankAccountCommand::WithdrawMoney(_) => "WithdrawMoney"@,
            BankAccountCommand::WriteCheck(_) => "WriteCheck"@,
        }
    }

    pub fn command_type(&self) -> (r: &'static str)
        ensures
            r@ == self.kind_name(),
    {
        match self {
            BankAccountCommand::OpenAccount(_) => "OpenAccount",
            BankAccountCommand::DepositMoney(_) => "DepositMoney",
            BankAccountCommand::WithdrawMoney(_) => "WithdrawMoney",
            BankAccountCommand::WriteCheck(_) => "WriteCheck",
        }
    }
}

} // verus!
