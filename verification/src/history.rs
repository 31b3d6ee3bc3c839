use vstd::prelude::*;
use crate::address::Address;
use crate::error::VaultError;
use crate::record::VaultMeta;
use crate::rules::{
    after_deduct, after_deposit, after_set_allowed_depositor, deduct_error, deposit_error,
};
use crate::settlement::TransferOutcome;

verus! {

/// A deposit or a single deduction, as one entry in the history of a vault.
pub enum Entry {
    Deposit { caller: Address, amount: i128, pulled: TransferOutcome },
    Deduct { caller: Address, amount: i128 },
}

impl Entry {
    /// Whether a vault in `state` accepts the entry.
    pub open spec fn accepted(self, state: Option<VaultMeta>) -> bool {
        match self {
            Entry::Deposit { caller, amount, pulled } => deposit_error(
                state,
                caller,
                amount,
                pulled,
            ) is None,
            Entry::Deduct { caller, amount } => deduct_error(state, caller, amount) is None,
        }
    }

    /// The state that the entry leaves of a vault in `state`.
    pub open spec fn apply(self, state: Option<VaultMeta>) -> Option<VaultMeta> {
        match self {
            Entry::Deposit { caller, amount, pulled } => after_deposit(
                state,
                caller,
                amount,
                pulled,
            ),
            Entry::Deduct { caller, amount } => after_deduct(state, caller, amount),
        }
    }

    /// What the entry adds to the balance of a vault in `state`.
    pub open spec fn credit(self, state: Option<VaultMeta>) -> int {
        match self {
            Entry::Deposit { amount, .. } => if self.accepted(state) {
                amount as int
            } else {
                0
            },
            Entry::Deduct { .. } => 0,
        }
    }

    /// What the entry takes from the balance of a vault in `state`.
    pub open spec fn debit(self, state: Option<VaultMeta>) -> int {
        match self {
            Entry::Deposit { .. } => 0,
            Entry::Deduct { amount, .. } => if self.accepted(state) {
                amount as int
            } else {
                0
            },
        }
    }
}

/// The state of a vault that was in `state` before the entries of `history`
/// were attempted on it, one after the other.
pub open spec fn replay(state: Option<VaultMeta>, history: Seq<Entry>) -> Option<VaultMeta>
    decreases history.len(),
{
    if history.len() == 0 {
        state
    } else {
        history.last().apply(replay(state, history.drop_last()))
    }
}

/// The sum of the deposits of `history` that were accepted.
pub open spec fn credited(state: Option<VaultMeta>, history: Seq<Entry>) -> int
    decreases history.len(),
{
    if history.len() == 0 {
        0
    } else {
        credited(state, history.drop_last()) + history.last().credit(
            replay(state, history.drop_last()),
        )
    }
}

/// The sum of the deductions of `history` that were accepted.
pub open spec fn debited(state: Option<VaultMeta>, history: Seq<Entry>) -> int
    decreases history.len(),
{
    if history.len() == 0 {
        0
    } else {
        debited(state, history.drop_last()) + history.last().debit(
            replay(state, history.drop_last()),
        )
    }
}

/// Whatever deposits and deductions are attempted on a vault, in whatever
/// order, its balance is the balance it started with, plus the deposits that
/// were accepted, minus the deductions that were accepted. Nothing but the
/// balance changes, and the record stays valid, so the balance is never
/// negative.
pub proof fn lemma_balance_is_sum_of_history(record: VaultMeta, history: Seq<Entry>)
    requires
        record.valid(),
    ensures
        replay(Some(record), history) matches Some(end) && {
            &&& end.balance == record.balance + credited(Some(record), history) - debited(
                Some(record),
                history,
            )
            &&& end == VaultMeta { balance: end.balance, ..record }
            &&& end.valid()
        },
    decreases history.len(),
{
    if history.len() > 0 {
        lemma_balance_is_sum_of_history(record, history.drop_last());
    }
}

/// At every point of a history of deposits and deductions the balance is
/// not negative.
pub proof fn lemma_balance_never_negative(record: VaultMeta, history: Seq<Entry>, k: int)
    requires
        record.valid(),
        0 <= k <= history.len(),
    ensures
        replay(Some(record), history.take(k)) matches Some(then) && then.balance >= 0,
{
    lemma_balance_is_sum_of_history(record, history.take(k));
}

/// Once the owner has cleared the depositor grant, whoever held it is
/// denied a deposit, whatever the amount, unless it is the owner.
pub proof fn lemma_revoked_depositor_is_denied(
    record: VaultMeta,
    depositor: Address,
    amount: i128,
    pulled: TransferOutcome,
)
    requires
        depositor != record.owner,
    ensures
        deposit_error(
            after_set_allowed_depositor(Some(record), record.owner, None),
            depositor,
            amount,
            pulled,
        ) == Some(VaultError::Unauthorized),
{
}

} // verus!
