use vstd::prelude::*;
use crate::access::{denial, Operation};
use crate::address::Address;
use crate::error::VaultError;
use crate::ledger::{batch_refusal, credit_refusal, debit_refusal, deducted, withdraw_refusal};
use crate::record::{DeductItem, VaultMeta, DEFAULT_MAX_DEDUCT};
use crate::settlement::{Action, AuditEvent, Transfer, TransferOutcome};

verus! {

/// The value of a setting that may be left out.
pub open spec fn or_default(setting: Option<i128>, default: i128) -> i128 {
    match setting {
        Some(value) => value,
        None => default,
    }
}

/// `record` with `balance` in place of its balance.
pub open spec fn with_balance(record: VaultMeta, balance: int) -> VaultMeta {
    VaultMeta { balance: balance as i128, ..record }
}

/// The record that a vault is created with: the owner is also its first
/// admin, and nobody else may deposit yet.
pub open spec fn init_record(
    owner: Address,
    usdc_token: Address,
    initial_balance: Option<i128>,
    min_deposit: Option<i128>,
    revenue_pool: Option<Address>,
    max_deduct: Option<i128>,
) -> VaultMeta {
    VaultMeta {
        owner,
        balance: or_default(initial_balance, 0),
        min_deposit: or_default(min_deposit, 0),
        max_deduct: or_default(max_deduct, DEFAULT_MAX_DEDUCT),
        admin: owner,
        revenue_pool,
        allowed_depositor: None,
        usdc_token,
    }
}

/// Why a vault in `state` cannot be created with these settings, if it
/// cannot: it has a record already; the initial balance is negative, or is
/// not covered by `custody`, which is what the token gateway holds for the
/// vault; the minimum deposit is negative; or the cap on a deduction is not
/// positive.
pub open spec fn init_error(
    state: Option<VaultMeta>,
    initial_balance: Option<i128>,
    min_deposit: Option<i128>,
    max_deduct: Option<i128>,
    custody: i128,
) -> Option<VaultError> {
    let balance = or_default(initial_balance, 0);
    if state is Some {
        Some(VaultError::AlreadyInitialized)
    } else if balance < 0 {
        Some(VaultError::InvalidArgument)
    } else if balance > 0 && custody < balance {
        Some(VaultError::InsufficientBalance)
    } else if or_default(min_deposit, 0) < 0 {
        Some(VaultError::InvalidArgument)
    } else if or_default(max_deduct, DEFAULT_MAX_DEDUCT) <= 0 {
        Some(VaultError::InvalidArgument)
    } else {
        None
    }
}

/// The state that the creation of a vault leaves.
pub open spec fn after_init(
    state: Option<VaultMeta>,
    owner: Address,
    usdc_token: Address,
    initial_balance: Option<i128>,
    min_deposit: Option<i128>,
    revenue_pool: Option<Address>,
    max_deduct: Option<i128>,
    custody: i128,
) -> Option<VaultMeta> {
    if init_error(state, initial_balance, min_deposit, max_deduct, custody) is None {
        Some(
            init_record(owner, usdc_token, initial_balance, min_deposit, revenue_pool, max_deduct),
        )
    } else {
        state
    }
}

/// Why a deposit is turned down before any token has moved, if it is.
pub open spec fn deposit_request_error(state: Option<VaultMeta>, caller: Address, amount: i128) -> Option<
    VaultError,
> {
    match denial(state, Operation::Deposit, caller) {
        Some(e) => Some(e),
        None => credit_refusal(
            state.unwrap().balance as int,
            state.unwrap().min_deposit as int,
            amount as int,
        ),
    }
}

/// Why a deposit is turned down, if it is; `pulled` is what the token
/// gateway answered when it was asked to pull the amount into custody.
pub open spec fn deposit_error(
    state: Option<VaultMeta>,
    caller: Address,
    amount: i128,
    pulled: TransferOutcome,
) -> Option<VaultError> {
    match deposit_request_error(state, caller, amount) {
        Some(e) => Some(e),
        None => if pulled == TransferOutcome::Failed {
            Some(VaultError::ExternalTransferFailed)
        } else {
            None
        },
    }
}

/// The state that a deposit leaves.
pub open spec fn after_deposit(
    state: Option<VaultMeta>,
    caller: Address,
    amount: i128,
    pulled: TransferOutcome,
) -> Option<VaultMeta> {
    if deposit_error(state, caller, amount, pulled) is None {
        Some(with_balance(state.unwrap(), state.unwrap().balance + amount))
    } else {
        state
    }
}

/// Why a single deduction is turned down, if it is.
pub open spec fn deduct_error(state: Option<VaultMeta>, caller: Address, amount: i128) -> Option<
    VaultError,
> {
    match denial(state, Operation::Deduct, caller) {
        Some(e) => Some(e),
        None => debit_refusal(
            state.unwrap().balance as int,
            state.unwrap().max_deduct as int,
            amount as int,
        ),
    }
}

/// The state that a single deduction leaves.
pub open spec fn after_deduct(state: Option<VaultMeta>, caller: Address, amount: i128) -> Option<
    VaultMeta,
> {
    if deduct_error(state, caller, amount) is None {
        Some(with_balance(state.unwrap(), state.unwrap().balance - amount))
    } else {
        state
    }
}

/// What an accepted deduction leaves to do on a vault that had `record`:
/// the transfer to the revenue pool, where there is one, and then the event.
pub open spec fn deduct_actions(
    record: VaultMeta,
    caller: Address,
    amount: i128,
    request_id: Option<String>,
) -> Seq<Action> {
    let event = Action::Emit(
        AuditEvent::Deduct {
            caller,
            request_id,
            amount,
            balance: (record.balance - amount) as i128,
        },
    );
    match record.revenue_pool {
        Some(pool) => seq![Action::Transfer(Transfer::Out { to: pool, amount }), event],
        None => seq![event],
    }
}

/// Why a batch of deductions is turned down, if it is.
pub open spec fn batch_deduct_error(
    state: Option<VaultMeta>,
    caller: Address,
    items: Seq<DeductItem>,
) -> Option<VaultError> {
    match denial(state, Operation::BatchDeduct, caller) {
        Some(e) => Some(e),
        None => batch_refusal(
            state.unwrap().balance as int,
            state.unwrap().max_deduct as int,
            items,
        ),
    }
}

/// The state that a batch of deductions leaves.
pub open spec fn after_batch_deduct(
    state: Option<VaultMeta>,
    caller: Address,
    items: Seq<DeductItem>,
) -> Option<VaultMeta> {
    if batch_deduct_error(state, caller, items) is None {
        Some(
            with_balance(
                state.unwrap(),
                state.unwrap().balance - deducted(items, items.len() as int),
            ),
        )
    } else {
        state
    }
}

/// The event of item `i` of an accepted batch: it carries the balance that
/// the items up to and including `i` leave.
pub open spec fn batch_event(record: VaultMeta, caller: Address, items: Seq<DeductItem>, i: int) -> Action {
    Action::Emit(
        AuditEvent::Deduct {
            caller,
            request_id: items[i].request_id,
            amount: items[i].amount,
            balance: (record.balance - deducted(items, i + 1)) as i128,
        },
    )
}

/// What an accepted batch leaves to do on a vault that had `record`: one
/// event for each item, in the order of the list, and after them, where
/// there is a revenue pool, one transfer of the sum of the amounts.
pub open spec fn batch_actions(record: VaultMeta, caller: Address, items: Seq<DeductItem>) -> Seq<
    Action,
> {
    let events = Seq::new(items.len(), |i: int| batch_event(record, caller, items, i));
    match record.revenue_pool {
        Some(pool) => events.push(
            Action::Transfer(
                Transfer::Out { to: pool, amount: deducted(items, items.len() as int) as i128 },
            ),
        ),
        None => events,
    }
}

/// Why `caller` cannot take `amount` out of the vault under `operation`, if
/// it cannot: a withdrawal by the owner or a distribution by the admin.
pub open spec fn payout_error(
    state: Option<VaultMeta>,
    operation: Operation,
    caller: Address,
    amount: i128,
) -> Option<VaultError> {
    match denial(state, operation, caller) {
        Some(e) => Some(e),
        None => withdraw_refusal(state.unwrap().balance as int, amount as int),
    }
}

/// The state that a withdrawal or a distribution leaves.
pub open spec fn after_payout(
    state: Option<VaultMeta>,
    operation: Operation,
    caller: Address,
    amount: i128,
) -> Option<VaultMeta> {
    if payout_error(state, operation, caller, amount) is None {
        Some(with_balance(state.unwrap(), state.unwrap().balance - amount))
    } else {
        state
    }
}

/// The state that a change of the depositor grant leaves.
pub open spec fn after_set_allowed_depositor(
    state: Option<VaultMeta>,
    caller: Address,
    depositor: Option<Address>,
) -> Option<VaultMeta> {
    if denial(state, Operation::SetAllowedDepositor, caller) is None {
        Some(VaultMeta { allowed_depositor: depositor, ..state.unwrap() })
    } else {
        state
    }
}

/// Why the ownership cannot pass to `new_owner`, if it cannot.
pub open spec fn transfer_ownership_error(
    state: Option<VaultMeta>,
    caller: Address,
    new_owner: Address,
) -> Option<VaultError> {
    match denial(state, Operation::TransferOwnership, caller) {
        Some(e) => Some(e),
        None => if new_owner == state.unwrap().owner {
            Some(VaultError::InvalidArgument)
        } else {
            None
        },
    }
}

/// The state that a transfer of the ownership leaves.
pub open spec fn after_transfer_ownership(
    state: Option<VaultMeta>,
    caller: Address,
    new_owner: Address,
) -> Option<VaultMeta> {
    if transfer_ownership_error(state, caller, new_owner) is None {
        Some(VaultMeta { owner: new_owner, ..state.unwrap() })
    } else {
        state
    }
}

/// The state that a transfer of the admin role leaves.
pub open spec fn after_transfer_admin(
    state: Option<VaultMeta>,
    caller: Address,
    new_admin: Address,
) -> Option<VaultMeta> {
    if denial(state, Operation::TransferAdmin, caller) is None {
        Some(VaultMeta { admin: new_admin, ..state.unwrap() })
    } else {
        state
    }
}

} // verus!
