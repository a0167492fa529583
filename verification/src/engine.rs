use vstd::prelude::*;
use std::collections::HashMap;
use std::collections::HashSet;
use crate::error::ApplicationError;
use crate::model::Account;
use crate::model::TransactionRecord;
use crate::model::TransactionType;

verus! {

broadcast use vstd::std_specs::hash::group_hash_axioms;

/// The mathematical state of the ledger: account balances keyed by client
/// id, the permanent index from transaction id to the deposit or withdrawal
/// record applied under it, and the set of transaction ids currently under
/// open dispute.
#[verifier::ext_equal]
pub ghost struct EngineView {
    pub accounts: Map<u16, Account>,
    pub transactions: Map<u32, TransactionRecord>,
    pub disputes: Set<u32>,
}

/// Whether a mathematical balance still fits the engine's `i128` balance
/// fields. A record whose application would take a balance outside this
/// range is soft-rejected, so the engine never overflows and never panics.
pub open spec fn fits(v: int) -> bool {
    i128::MIN <= v <= i128::MAX
}

/// The transition taken by a deposit: create the account if absent, then
/// soft-reject if the amount is missing, the account is locked, or the
/// transaction id was already consumed; otherwise increase `available` and
/// `total` by the amount and record the transaction under its id.
pub open spec fn step_deposit(s: EngineView, rec: TransactionRecord) -> (EngineView, Result<
    (),
    ApplicationError,
>) {
    match rec.amount {
        None => (s, Ok(())),
        Some(amount) => {
            let account = if s.accounts.contains_key(rec.client_id) {
                s.accounts[rec.client_id]
            } else {
                Account::initial()
            };
            let accounts1 = if s.accounts.contains_key(rec.client_id) {
                s.accounts
            } else {
                s.accounts.insert(rec.client_id, Account::initial())
            };
            let skipped = EngineView { accounts: accounts1, ..s };
            if account.locked {
                (skipped, Ok(()))
            } else if s.transactions.contains_key(rec.transaction_id) {
                (skipped, Ok(()))
            } else if !fits(account.available + amount) || !fits(account.total + amount) {
                (skipped, Ok(()))
            } else {
                (
                    EngineView {
                        accounts: accounts1.insert(
                            rec.client_id,
                            Account {
                                available: (account.available + amount) as i128,
                                held: account.held,
                                total: (account.total + amount) as i128,
                                locked: account.locked,
                            },
                        ),
                        transactions: s.transactions.insert(rec.transaction_id, rec),
                        ..s
                    },
                    Ok(()),
                )
            }
        },
    }
}

/// The transition taken by a withdrawal: soft-reject if the amount is
/// missing, the account does not exist, the account is locked, the
/// transaction id was already consumed, or `available` is less than the
/// amount (the boundary is inclusive: an amount equal to `available`
/// succeeds); otherwise decrease `available` and `total` by the amount and
/// record the transaction under its id.
pub open spec fn step_withdrawal(s: EngineView, rec: TransactionRecord) -> (EngineView, Result<
    (),
    ApplicationError,
>) {
    match rec.amount {
        None => (s, Ok(())),
        Some(amount) => {
            if !s.accounts.contains_key(rec.client_id) {
                (s, Ok(()))
            } else {
                let account = s.accounts[rec.client_id];
                if account.locked {
                    (s, Ok(()))
                } else if s.transactions.contains_key(rec.transaction_id) {
                    (s, Ok(()))
                } else if account.available >= amount {
                    if !fits(account.available - amount) || !fits(account.total - amount) {
                        (s, Ok(()))
                    } else {
                        (
                            EngineView {
                                accounts: s.accounts.insert(
                                    rec.client_id,
                                    Account {
                                        available: (account.available - amount) as i128,
                                        held: account.held,
                                        total: (account.total - amount) as i128,
                                        locked: account.locked,
                                    },
                                ),
                                transactions: s.transactions.insert(rec.transaction_id, rec),
                                ..s
                            },
                            Ok(()),
                        )
                    }
                } else {
                    (s, Ok(()))
                }
            }
        },
    }
}

/// The transition taken by a dispute: soft-reject if the referenced
/// transaction id is unknown, already under open dispute, or carries a
/// client id different from the record's. A known transaction whose client
/// has no account is a structural error. Otherwise move the original amount
/// from `available` to `held` (`total` unchanged) and open the dispute.
pub open spec fn step_dispute(s: EngineView, rec: TransactionRecord) -> (EngineView, Result<
    (),
    ApplicationError,
>) {
    if !s.transactions.contains_key(rec.transaction_id) {
        (s, Ok(()))
    } else if s.disputes.contains(rec.transaction_id) {
        (s, Ok(()))
    } else {
        let stored = s.transactions[rec.transaction_id];
        if rec.client_id != stored.client_id {
            (s, Ok(()))
        } else if !s.accounts.contains_key(stored.client_id) {
            (
                s,
                Err(
                    ApplicationError::AccountNotFound {
                        client_id: rec.client_id,
                        transaction_type: TransactionType::Dispute,
                    },
                ),
            )
        } else {
            match stored.amount {
                None => (s, Ok(())),
                Some(amount) => {
                    let account = s.accounts[stored.client_id];
                    if !fits(account.available - amount) || !fits(account.held + amount) {
                        (s, Ok(()))
                    } else {
                        (
                            EngineView {
                                accounts: s.accounts.insert(
                                    stored.client_id,
                                    Account {
                                        available: (account.available - amount) as i128,
                                        held: (account.held + amount) as i128,
                                        total: account.total,
                                        locked: account.locked,
                                    },
                                ),
                                disputes: s.disputes.insert(rec.transaction_id),
                                ..s
                            },
                            Ok(()),
                        )
                    }
                },
            }
        }
    }
}

/// The transition taken by a resolve: soft-reject if the transaction id is
/// not currently under open dispute or carries a client id different from
/// the record's. A disputed id whose record or whose client's account is
/// missing is a structural error. Otherwise move the amount back from `held`
/// to `available` (`total` unchanged) and close the dispute.
pub open spec fn step_resolve(s: EngineView, rec: TransactionRecord) -> (EngineView, Result<
    (),
    ApplicationError,
>) {
    if !s.disputes.contains(rec.transaction_id) {
        (s, Ok(()))
    } else if !s.transactions.contains_key(rec.transaction_id) {
        (
            s,
            Err(
                ApplicationError::TransactionNotFound {
                    transaction_id: rec.transaction_id,
                    transaction_type: TransactionType::Dispute,
                },
            ),
        )
    } else {
        let stored = s.transactions[rec.transaction_id];
        if rec.client_id != stored.client_id {
            (s, Ok(()))
        } else if !s.accounts.contains_key(stored.client_id) {
            (
                s,
                Err(
                    ApplicationError::AccountNotFound {
                        client_id: rec.client_id,
                        transaction_type: TransactionType::Resolve,
                    },
                ),
            )
        } else {
            match stored.amount {
                None => (s, Ok(())),
                Some(amount) => {
                    let account = s.accounts[stored.client_id];
                    if !fits(account.held - amount) || !fits(account.available + amount) {
                        (s, Ok(()))
                    } else {
                        (
                            EngineView {
                                accounts: s.accounts.insert(
                                    stored.client_id,
                                    Account {
                                        available: (account.available + amount) as i128,
                                        held: (account.held - amount) as i128,
                                        total: account.total,
                                        locked: account.locked,
                                    },
                                ),
                                disputes: s.disputes.remove(rec.transaction_id),
                                ..s
                            },
                            Ok(()),
                        )
                    }
                },
            }
        }
    }
}

/// The transition taken by a chargeback: the same gating as a resolve. On
/// success decrease both `held` and `total` by the amount (the money
/// permanently leaves the ledger), set `locked` on the account, and close
/// the dispute. Chargeback is the only transition that sets `locked`, and
/// nothing ever clears it.
pub open spec fn step_chargeback(s: EngineView, rec: TransactionRecord) -> (EngineView, Result<
    (),
    ApplicationError,
>) {
    if !s.disputes.contains(rec.transaction_id) {
        (s, Ok(()))
    } else if !s.transactions.contains_key(rec.transaction_id) {
        (
            s,
            Err(
                ApplicationError::TransactionNotFound {
                    transaction_id: rec.transaction_id,
                    transaction_type: TransactionType::Chargeback,
                },
            ),
        )
    } else {
        let stored = s.transactions[rec.transaction_id];
        if rec.client_id != stored.client_id {
            (s, Ok(()))
        } else if !s.accounts.contains_key(stored.client_id) {
            (
                s,
                Err(
                    ApplicationError::AccountNotFound {
                        client_id: rec.client_id,
                        transaction_type: TransactionType::Resolve,
                    },
                ),
            )
        } else {
            match stored.amount {
                None => (s, Ok(())),
                Some(amount) => {
                    let account = s.accounts[stored.client_id];
                    if !fits(account.held - amount) || !fits(account.total - amount) {
                        (s, Ok(()))
                    } else {
                        (
                            EngineView {
                                accounts: s.accounts.insert(
                                    stored.client_id,
                                    Account {
                                        available: account.available,
                                        held: (account.held - amount) as i128,
                                        total: (account.total - amount) as i128,
                                        locked: true,
                                    },
                                ),
                                disputes: s.disputes.remove(rec.transaction_id),
                                ..s
                            },
                            Ok(()),
                        )
                    }
                },
            }
        }
    }
}

/// The full transition relation of the ledger: the state after applying one
/// record to `s`, and the result handed back to the caller. `Ok` covers both
/// an applied record and a soft rejection; `Err` is a structural error, and
/// the state is unchanged whenever one is returned.
pub open spec fn step(s: EngineView, rec: TransactionRecord) -> (EngineView, Result<
    (),
    ApplicationError,
>) {
    match rec.transaction_type {
        TransactionType::Deposit => step_deposit(s, rec),
        TransactionType::Withdrawal => step_withdrawal(s, rec),
        TransactionType::Dispute => step_dispute(s, rec),
        TransactionType::Resolve => step_resolve(s, rec),
        TransactionType::Chargeback => step_chargeback(s, rec),
    }
}

/// The ledger engine. It owns the three pieces of state for its whole
/// lifetime and mutates them only through `process_transaction`, which an
/// external driver calls once per input record, in input order; after the
/// stream is exhausted the driver reads `accounts` back out for reporting.
pub struct Engine {
    pub accounts: HashMap<u16, Account>,
    pub transactions: HashMap<u32, TransactionRecord>,
    pub disputes: HashSet<u32>,
}

impl View for Engine {
    type V = EngineView;

    open spec fn view(&self) -> EngineView {
        EngineView {
            accounts: self.accounts@,
            transactions: self.transactions@,
            disputes: self.disputes@,
        }
    }
}

impl Engine {
    /// Creates an engine with no accounts, no recorded transactions and no
    /// open disputes.
    pub fn new() -> (r: Engine)
        ensures
            r@.accounts == Map::<u16, Account>::empty(),
            r@.transactions == Map::<u32, TransactionRecord>::empty(),
            r@.disputes == Set::<u32>::empty(),
    {
        Engine {
            accounts: HashMap::new(),
            transactions: HashMap::new(),
            disputes: HashSet::new(),
        }
    }

    /// Applies one transaction record: the state afterwards and the result
    /// are exactly those of the `step` transition relation. Soft rejections
    /// return `Ok` with the record skipped; `Err` is returned only for the
    /// structural errors, with the state unchanged.
    pub fn process_transaction(&mut self, record: TransactionRecord) -> (r: Result<
        (),
        ApplicationError,
    >)
        ensures
            final(self)@ == step(old(self)@, record).0,
            r == step(old(self)@, record).1,
    {
        match record.transaction_type {
            TransactionType::Deposit => self.apply_deposit(record),
            TransactionType::Withdrawal => self.apply_withdrawal(record),
            TransactionType::Dispute => self.apply_dispute(record),
            TransactionType::Resolve => self.apply_resolve(record),
            TransactionType::Chargeback => self.apply_chargeback(record),
        }
    }

    fn apply_deposit(&mut self, record: TransactionRecord) -> (r: Result<(), ApplicationError>)
        requires
            record.transaction_type is Deposit,
        ensures
            final(self)@ == step_deposit(old(self)@, record).0,
            r == step_deposit(old(self)@, record).1,
    {
        let amount = match record.amount {
            Some(amount) => amount,
            None => {
                return Ok(());
            },
        };

        // Create the account if it does not exist yet; the account stays
        // even when a later gate skips the record.
        let (account, existed) = match self.accounts.get(&record.client_id) {
            Some(account) => (*account, true),
            None => (Account::new(), false),
        };
        if !existed {
            self.accounts.insert(record.client_id, account);
        }

        if account.locked {
            return Ok(());
        }
        if self.transactions.contains_key(&record.transaction_id) {
            return Ok(());
        }

        let new_available = account.available.checked_add(amount as i128);
        let new_total = account.total.checked_add(amount as i128);
        match (new_available, new_total) {
            (Some(available), Some(total)) => {
                self.accounts.insert(
                    record.client_id,
                    Account { available, held: account.held, total, locked: account.locked },
                );
                self.transactions.insert(record.transaction_id, record);
            },
            _ => {},
        }
        Ok(())
    }

    fn apply_withdrawal(&mut self, record: TransactionRecord) -> (r: Result<(), ApplicationError>)
        requires
            record.transaction_type is Withdrawal,
        ensures
            final(self)@ == step_withdrawal(old(self)@, record).0,
            r == step_withdrawal(old(self)@, record).1,
    {
        let amount = match record.amount {
            Some(amount) => amount,
            None => {
                return Ok(());
            },
        };

        let account = match self.accounts.get(&record.client_id) {
            Some(account) => *account,
            None => {
                return Ok(());
            },
        };

        if account.locked {
            return Ok(());
        }
        if self.transactions.contains_key(&record.transaction_id) {
            return Ok(());
        }

        if account.available >= amount as i128 {
            let new_available = account.available.checked_sub(amount as i128);
            let new_total = account.total.checked_sub(amount as i128);
            match (new_available, new_total) {
                (Some(available), Some(total)) => {
                    self.accounts.insert(
                        record.client_id,
                        Account { available, held: account.held, total, locked: account.locked },
                    );
                    self.transactions.insert(record.transaction_id, record);
                },
                _ => {},
            }
        }
        Ok(())
    }

    fn apply_dispute(&mut self, record: TransactionRecord) -> (r: Result<(), ApplicationError>)
        requires
            record.transaction_type is Dispute,
        ensures
            final(self)@ == step_dispute(old(self)@, record).0,
            r == step_dispute(old(self)@, record).1,
    {
        let stored = match self.transactions.get(&record.transaction_id) {
            Some(stored) => *stored,
            None => {
                return Ok(());
            },
        };

        if self.disputes.contains(&record.transaction_id) {
            return Ok(());
        }

        // A mismatched client id is bad input, not something to correct from
        // the stored record: skip.
        if record.client_id != stored.client_id {
            return Ok(());
        }

        let account = match self.accounts.get(&stored.client_id) {
            Some(account) => *account,
            None => {
                return Err(ApplicationError::AccountNotFound {
                    client_id: record.client_id,
                    transaction_type: TransactionType::Dispute,
                });
            },
        };

        if let Some(amount) = stored.amount {
            let new_available = account.available.checked_sub(amount as i128);
            let new_held = account.held.checked_add(amount as i128);
            match (new_available, new_held) {
                (Some(available), Some(held)) => {
                    self.accounts.insert(
                        stored.client_id,
                        Account { available, held, total: account.total, locked: account.locked },
                    );
                    self.disputes.insert(record.transaction_id);
                },
                _ => {},
            }
        }
        Ok(())
    }

    fn apply_resolve(&mut self, record: TransactionRecord) -> (r: Result<(), ApplicationError>)
        requires
            record.transaction_type is Resolve,
        ensures
            final(self)@ == step_resolve(old(self)@, record).0,
            r == step_resolve(old(self)@, record).1,
    {
        if !self.disputes.contains(&record.transaction_id) {
            return Ok(());
        }

        let stored = match self.transactions.get(&record.transaction_id) {
            Some(stored) => *stored,
            None => {
                return Err(ApplicationError::TransactionNotFound {
                    transaction_id: record.transaction_id,
                    transaction_type: TransactionType::Dispute,
                });
            },
        };

        if record.client_id != stored.client_id {
            return Ok(());
        }

        let account = match self.accounts.get(&stored.client_id) {
            Some(account) => *account,
            None => {
                return Err(ApplicationError::AccountNotFound {
                    client_id: record.client_id,
                    transaction_type: TransactionType::Resolve,
                });
            },
        };

        if let Some(amount) = stored.amount {
            let new_held = account.held.checked_sub(amount as i128);
            let new_available = account.available.checked_add(amount as i128);
            match (new_held, new_available) {
                (Some(held), Some(available)) => {
                    self.accounts.insert(
                        stored.client_id,
                        Account { available, held, total: account.total, locked: account.locked },
                    );
                    self.disputes.remove(&record.transaction_id);
                },
                _ => {},
            }
        }
        Ok(())
    }

    fn apply_chargeback(&mut self, record: TransactionRecord) -> (r: Result<(), ApplicationError>)
        requires
            record.transaction_type is Chargeback,
        ensures
            final(self)@ == step_chargeback(old(self)@, record).0,
            r == step_chargeback(old(self)@, record).1,
    {
        if !self.disputes.contains(&record.transaction_id) {
            return Ok(());
        }

        let stored = match self.transactions.get(&record.transaction_id) {
            Some(stored) => *stored,
            None => {
                return Err(ApplicationError::TransactionNotFound {
                    transaction_id: record.transaction_id,
                    transaction_type: TransactionType::Chargeback,
                });
            },
        };

        if record.client_id != stored.client_id {
            return Ok(());
        }

        let account = match self.accounts.get(&stored.client_id) {
            Some(account) => *account,
            None => {
                return Err(ApplicationError::AccountNotFound {
                    client_id: record.client_id,
                    transaction_type: TransactionType::Resolve,
                });
            },
        };

        if let Some(amount) = stored.amount {
            let new_held = account.held.checked_sub(amount as i128);
            let new_total = account.total.checked_sub(amount as i128);
            match (new_held, new_total) {
                (Some(held), Some(total)) => {
                    self.accounts.insert(
                        stored.client_id,
                        Account { available: account.available, held, total, locked: true },
                    );
                    self.disputes.remove(&record.transaction_id);
                },
                _ => {},
            }
        }
        Ok(())
    }
}

} // verus!
