//! Laws of the ledger's transition relation. Each proof function here states
//! one property of `step` — the spec that `Engine::process_transaction` is
//! proved to implement — so every property carries over to any sequence of
//! `process_transaction` calls.

use vstd::prelude::*;
use crate::engine::EngineView;
use crate::engine::fits;
use crate::engine::step;
use crate::error::ApplicationError;
use crate::model::TransactionRecord;

verus! {

/// Every account in the state satisfies the balance equation
/// `total == available + held`.
pub open spec fn accounts_balanced(s: EngineView) -> bool {
    forall|c: u16| #[trigger] s.accounts.contains_key(c) ==> s.accounts[c].balanced()
}

/// The engine's internal consistency: every transaction id under open
/// dispute has a recorded transaction, and every recorded transaction's
/// client has an account. The structural errors report exactly the
/// violations of this condition.
pub open spec fn wf(s: EngineView) -> bool {
    &&& forall|t: u32| #[trigger] s.disputes.contains(t) ==> s.transactions.contains_key(t)
    &&& forall|t: u32| #[trigger] s.transactions.contains_key(t) ==> s.accounts.contains_key(
        s.transactions[t].client_id,
    )
}

/// The state a fresh engine starts in.
pub open spec fn initial_state() -> EngineView {
    EngineView {
        accounts: Map::<u16, crate::model::Account>::empty(),
        transactions: Map::<u32, TransactionRecord>::empty(),
        disputes: Set::<u32>::empty(),
    }
}

/// A fresh engine is well formed and all of its (zero) accounts are
/// balanced: the base case of every invariant below.
pub proof fn lemma_initial_state_well_formed()
    ensures
        wf(initial_state()),
        accounts_balanced(initial_state()),
{
}

/// Invariant: every step preserves the balance equation
/// `total == available + held` on every account.
pub proof fn lemma_step_preserves_balance(s: EngineView, rec: TransactionRecord)
    requires
        accounts_balanced(s),
    ensures
        accounts_balanced(step(s, rec).0),
{
}

/// Invariant: `locked` is monotonic. An account locked before a step is
/// still present and still locked after it.
pub proof fn lemma_step_preserves_locked(s: EngineView, rec: TransactionRecord)
    ensures
        forall|c: u16|
            s.accounts.contains_key(c) && (#[trigger] s.accounts[c]).locked ==> step(
                s,
                rec,
            ).0.accounts.contains_key(c) && step(s, rec).0.accounts[c].locked,
{
}

/// Invariant: the applied-transaction index is permanent. A transaction id,
/// once consumed by a deposit or withdrawal, keeps its original record
/// forever — so it can never be consumed again.
pub proof fn lemma_transactions_permanent(s: EngineView, rec: TransactionRecord)
    ensures
        forall|t: u32| #[trigger] s.transactions.contains_key(t) ==> step(
            s,
            rec,
        ).0.transactions.contains_key(t) && step(s, rec).0.transactions[t] == s.transactions[t],
{
}

/// Invariant: a deposit or withdrawal whose transaction id was already
/// consumed is soft-rejected: it records nothing, opens or closes no
/// dispute, and changes no existing account.
pub proof fn lemma_consumed_id_rejected(s: EngineView, rec: TransactionRecord)
    requires
        rec.transaction_type is Deposit || rec.transaction_type is Withdrawal,
        s.transactions.contains_key(rec.transaction_id),
    ensures
        step(s, rec).0.transactions == s.transactions,
        step(s, rec).0.disputes == s.disputes,
        forall|c: u16| #[trigger] s.accounts.contains_key(c) ==> step(
            s,
            rec,
        ).0.accounts.contains_key(c) && step(s, rec).0.accounts[c] == s.accounts[c],
{
}

/// Replaying the same dispute record twice has the same effect as applying
/// it once: if the first application opened the dispute, the second is
/// soft-rejected as already disputed, and funds are never moved twice.
pub proof fn lemma_dispute_replay_is_noop(s: EngineView, rec: TransactionRecord)
    requires
        rec.transaction_type is Dispute,
    ensures
        step(step(s, rec).0, rec).0 == step(s, rec).0,
{
}

/// The conditions under which a dispute record is applied rather than
/// soft-rejected or raised as a structural error.
pub open spec fn dispute_applies(s: EngineView, rec: TransactionRecord) -> bool {
    &&& s.transactions.contains_key(rec.transaction_id)
    &&& !s.disputes.contains(rec.transaction_id)
    &&& s.transactions[rec.transaction_id].client_id == rec.client_id
    &&& s.accounts.contains_key(rec.client_id)
    &&& match s.transactions[rec.transaction_id].amount {
        Some(amount) => fits(s.accounts[rec.client_id].available - amount) && fits(
            s.accounts[rec.client_id].held + amount,
        ),
        None => false,
    }
}

/// Round trip: a dispute followed immediately by a resolve of the same id
/// returns the state to exactly what it was — the account regains its
/// pre-dispute `available`/`held` split, and the id leaves the open-dispute
/// set, eligible to be disputed again.
pub proof fn lemma_dispute_then_resolve_round_trip(
    s: EngineView,
    d: TransactionRecord,
    r: TransactionRecord,
)
    requires
        d.transaction_type is Dispute,
        r.transaction_type is Resolve,
        r.transaction_id == d.transaction_id,
        r.client_id == d.client_id,
        dispute_applies(s, d),
    ensures
        step(step(s, d).0, r).0 == s,
        step(step(s, d).0, r).1 == Ok::<(), ApplicationError>(()),
{
    let s1 = step(s, d).0;
    let s2 = step(s1, r).0;
    assert(s2.accounts =~= s.accounts);
    assert(s2.disputes =~= s.disputes);
    assert(s2 =~= s);
}

/// Boundary: a withdrawal of exactly the available balance succeeds and
/// leaves `available == 0`, with `held` untouched and the id consumed.
pub proof fn lemma_withdrawal_exact_empties_available(s: EngineView, rec: TransactionRecord)
    requires
        rec.transaction_type is Withdrawal,
        s.accounts.contains_key(rec.client_id),
        !s.accounts[rec.client_id].locked,
        !s.transactions.contains_key(rec.transaction_id),
        s.accounts[rec.client_id].balanced(),
        rec.amount matches Some(amount) && s.accounts[rec.client_id].available == amount,
    ensures
        step(s, rec).0.accounts[rec.client_id].available == 0,
        step(s, rec).0.accounts[rec.client_id].held == s.accounts[rec.client_id].held,
        step(s, rec).0.accounts[rec.client_id].balanced(),
        step(s, rec).0.transactions.contains_key(rec.transaction_id),
{
}

/// Boundary: a withdrawal of more than the available balance — one unit
/// above is already enough — is soft-rejected with no state change at all.
pub proof fn lemma_withdrawal_insufficient_rejected(s: EngineView, rec: TransactionRecord)
    requires
        rec.transaction_type is Withdrawal,
        s.accounts.contains_key(rec.client_id),
        rec.amount matches Some(amount) && s.accounts[rec.client_id].available < amount,
    ensures
        step(s, rec).0 == s,
        step(s, rec).1 == Ok::<(), ApplicationError>(()),
{
}

/// Every step preserves well-formedness, and on a well-formed state no step
/// ever returns a structural error: starting from a fresh engine, the `Err`
/// branches of `process_transaction` are unreachable.
pub proof fn lemma_step_preserves_wf(s: EngineView, rec: TransactionRecord)
    requires
        wf(s),
    ensures
        wf(step(s, rec).0),
        step(s, rec).1 is Ok,
{
}

} // verus!
