use vstd::prelude::*;

verus! {

/// The five kinds of transaction record the ledger understands.
#[derive(Clone, Copy, Debug, PartialEq, Eq, Structural)]
pub enum TransactionType {
    Deposit,
    Withdrawal,
    Dispute,
    Resolve,
    Chargeback,
}

impl TransactionType {
    /// The kind's name as it is shown in diagnostics.
    pub open spec fn spec_kind_name(self) -> Seq<char> {
        match self {
            TransactionType::Deposit => "Deposit"@,
            TransactionType::Withdrawal => "Withdrawal"@,
            TransactionType::Dispute => "Dispute"@,
            TransactionType::Resolve => "Resolve"@,
            TransactionType::Chargeback => "Chargeback"@,
        }
    }

    /// The kind's name as it is shown in diagnostics.
    pub fn kind_name(&self) -> (r: &'static str)
        ensures
            r@ == self.spec_kind_name(),
    {
        match self {
            TransactionType::Deposit => "Deposit",
            TransactionType::Withdrawal => "Withdrawal",
            TransactionType::Dispute => "Dispute",
            TransactionType::Resolve => "Resolve",
            TransactionType::Chargeback => "Chargeback",
        }
    }
}

/// One input record. Monetary amounts are exact fixed-point decimals with
/// four fractional digits, stored as a signed count of ten-thousandths of a
/// currency unit (so `10.0000` is `100_000`). The amount is present for
/// deposits and withdrawals and absent for the dispute-family kinds; a
/// genuine zero amount is distinct from an absent one.
#[derive(Clone, Copy, Debug)]
pub struct TransactionRecord {
    pub transaction_type: TransactionType,
    pub client_id: u16,
    pub transaction_id: u32,
    pub amount: Option<i64>,
}

/// One client's account. Balances use the same fixed-point representation as
/// `TransactionRecord::amount`, widened so that sums of many transaction
/// amounts still fit.
#[derive(Clone, Copy, Debug, PartialEq, Eq, Structural)]
pub struct Account {
    /// Funds the client may withdraw or have disputed.
    pub available: i128,
    /// Funds temporarily frozen due to open disputes.
    pub held: i128,
    /// The account's full balance: `available + held`.
    pub total: i128,
    /// Set by the first chargeback against the account, never cleared;
    /// blocks further deposits and withdrawals.
    pub locked: bool,
}

impl Account {
    /// The state of a freshly created account: zero balances, unlocked.
    pub open spec fn initial() -> Account {
        Account { available: 0, held: 0, total: 0, locked: false }
    }

    /// Initializes a new account with zero balances and unlocked state.
    pub fn new() -> (r: Account)
        ensures
            r == Account::initial(),
    {
        Account { available: 0, held: 0, total: 0, locked: false }
    }

    /// The account invariant: `total` is exactly `available + held`.
    pub open spec fn balanced(self) -> bool {
        self.total == self.available + self.held
    }
}

} // verus!
