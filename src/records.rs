//! Records of the API that carry no amounts or times.
use vstd::prelude::*;

verus! {

/// The answer to cancelling an order.
#[derive(Debug, Clone, Copy, PartialEq, Eq, Structural)]
pub struct CancelResult {
    pub success: bool,
    pub id: u64,
}

/// A bank account registered for JPY withdrawals.
#[derive(Debug, PartialEq, Eq)]
pub struct BankAccount {
    pub id: u64,
    pub bank_name: String,
    pub branch_name: String,
    pub bank_account_type: String,
    pub number: String,
    pub name: String,
}

/// The registered bank accounts.
#[derive(Debug, PartialEq, Eq)]
pub struct BankAccounts {
    pub success: bool,
    pub data: Vec<BankAccount>,
}

} // verus!
