use vstd::prelude::*;
use crate::address::Address;
use crate::error::VaultError;
use crate::record::VaultMeta;

verus! {

/// The operations of a vault, as the access rules tell them apart.
#[derive(Clone, Copy, Debug, PartialEq, Eq, Structural)]
pub enum Operation {
    /// Create the vault's record.
    Initialize,
    /// Add to the balance.
    Deposit,
    /// Take a single amount from the balance for metered use.
    Deduct,
    /// Take several amounts from the balance for metered use, all or none.
    BatchDeduct,
    /// Grant, pass on or clear the right to deposit.
    SetAllowedDepositor,
    /// Take from the balance to the owner.
    Withdraw,
    /// Take from the balance to an address that the owner names.
    WithdrawTo,
    /// Hand the vault over to a new owner.
    TransferOwnership,
    /// Hand the admin role over to a new admin.
    TransferAdmin,
    /// Take from the balance to a payee that the admin names.
    Distribute,
}

/// Who may deposit: the owner, and the allowed depositor while one is set.
pub open spec fn may_deposit(record: VaultMeta, caller: Address) -> bool {
    caller == record.owner || record.allowed_depositor == Some(caller)
}

/// Why `caller` is denied `operation` on a vault in `state`, if it is.
///
/// Before the vault has a record only `Initialize` is open, to anyone, and
/// afterwards it is closed. A deposit is for the owner and the allowed
/// depositor. Deductions, single or in a batch, are open to every
/// authenticated caller: the vault itself does not tell a trusted backend
/// from anyone else, so whoever deploys it must see to that. The depositor
/// grant, withdrawals and the transfer of ownership are for the owner;
/// distribution and the transfer of the admin role are for the admin.
pub open spec fn denial(state: Option<VaultMeta>, operation: Operation, caller: Address) -> Option<
    VaultError,
> {
    match state {
        None => match operation {
            Operation::Initialize => None,
            _ => Some(VaultError::NotInitialized),
        },
        Some(record) => match operation {
            Operation::Initialize => Some(VaultError::AlreadyInitialized),
            Operation::Deposit => if may_deposit(record, caller) {
                None
            } else {
                Some(VaultError::Unauthorized)
            },
            Operation::Deduct | Operation::BatchDeduct => None,
            Operation::SetAllowedDepositor
            | Operation::Withdraw
            | Operation::WithdrawTo
            | Operation::TransferOwnership => if caller == record.owner {
                None
            } else {
                Some(VaultError::Unauthorized)
            },
            Operation::TransferAdmin | Operation::Distribute => if caller == record.admin {
                None
            } else {
                Some(VaultError::Unauthorized)
            },
        },
    }
}

impl Operation {
    /// The text that tells the caller of this operation why it failed with
    /// `error`. Where the operation makes the kind of failure more specific,
    /// the text says so: which role was asked for, which argument was wrong,
    /// which balance fell short. Elsewhere it is the text of the kind.
    pub open spec fn failure_text(self, error: VaultError) -> Seq<char> {
        match (self, error) {
            (Operation::Deposit, VaultError::Unauthorized) => "unauthorized: only owner or allowed depositor can deposit"@,
            (
                Operation::SetAllowedDepositor
                | Operation::Withdraw
                | Operation::WithdrawTo
                | Operation::TransferOwnership,
                VaultError::Unauthorized,
            ) => "unauthorized: owner only"@,
            (
                Operation::TransferAdmin | Operation::Distribute,
                VaultError::Unauthorized,
            ) => "unauthorized: caller is not admin"@,
            (Operation::TransferOwnership, VaultError::InvalidArgument) => "new_owner must be different from current owner"@,
            (Operation::Initialize, VaultError::InvalidArgument) => "initial_balance and min_deposit must not be negative, max_deduct must be positive"@,
            (Operation::Initialize, VaultError::InsufficientBalance) => "insufficient USDC in contract for initial_balance"@,
            (Operation::Distribute, VaultError::InsufficientBalance) => "insufficient USDC balance"@,
            _ => error.reason_text(),
        }
    }

    /// The reason to report to the caller of this operation when it failed
    /// with `error`.
    pub fn failure_reason(&self, error: VaultError) -> (text: &'static str)
        ensures
            text@ == self.failure_text(error),
    {
        match (*self, error) {
            (Operation::Deposit, VaultError::Unauthorized) => "unauthorized: only owner or allowed depositor can deposit",
            (
                Operation::SetAllowedDepositor
                | Operation::Withdraw
                | Operation::WithdrawTo
                | Operation::TransferOwnership,
                VaultError::Unauthorized,
            ) => "unauthorized: owner only",
            (
                Operation::TransferAdmin | Operation::Distribute,
                VaultError::Unauthorized,
            ) => "unauthorized: caller is not admin",
            (Operation::TransferOwnership, VaultError::InvalidArgument) => "new_owner must be different from current owner",
            (Operation::Initialize, VaultError::InvalidArgument) => "initial_balance and min_deposit must not be negative, max_deduct must be positive",
            (Operation::Initialize, VaultError::InsufficientBalance) => "insufficient USDC in contract for initial_balance",
            (Operation::Distribute, VaultError::InsufficientBalance) => "insufficient USDC balance",
            _ => error.reason(),
        }
    }
}

impl VaultMeta {
    /// Whether `caller` may deposit into the vault of this record.
    pub fn is_authorized_depositor(&self, caller: &Address) -> (ok: bool)
        ensures
            ok == may_deposit(*self, *caller),
    {
        if *caller == self.owner {
            return true;
        }
        match self.allowed_depositor {
            Some(allowed) => *caller == allowed,
            None => false,
        }
    }

    /// Passes the owner and nobody else.
    pub fn require_owner(&self, caller: &Address) -> (r: Result<(), VaultError>)
        ensures
            r == if *caller == self.owner {
                Ok::<(), VaultError>(())
            } else {
                Err::<(), VaultError>(VaultError::Unauthorized)
            },
    {
        if *caller == self.owner {
            Ok(())
        } else {
            Err(VaultError::Unauthorized)
        }
    }

    /// Passes the admin and nobody else.
    pub fn require_admin(&self, caller: &Address) -> (r: Result<(), VaultError>)
        ensures
            r == if *caller == self.admin {
                Ok::<(), VaultError>(())
            } else {
                Err::<(), VaultError>(VaultError::Unauthorized)
            },
    {
        if *caller == self.admin {
            Ok(())
        } else {
            Err(VaultError::Unauthorized)
        }
    }
}

/// Decides whether `caller` may perform `operation` on a vault in `state`.
pub fn authorize(state: &Option<VaultMeta>, operation: Operation, caller: &Address) -> (r: Result<
    (),
    VaultError,
>)
    ensures
        r == match denial(*state, operation, *caller) {
            Some(e) => Err::<(), VaultError>(e),
            None => Ok::<(), VaultError>(()),
        },
{
    match state {
        None => match operation {
            Operation::Initialize => Ok(()),
            _ => Err(VaultError::NotInitialized),
        },
        Some(record) => match operation {
            Operation::Initialize => Err(VaultError::AlreadyInitialized),
            Operation::Deposit => if record.is_authorized_depositor(caller) {
                Ok(())
            } else {
                Err(VaultError::Unauthorized)
            },
            Operation::Deduct | Operation::BatchDeduct => Ok(()),
            Operation::SetAllowedDepositor
            | Operation::Withdraw
            | Operation::WithdrawTo
            | Operation::TransferOwnership => record.require_owner(caller),
            Operation::TransferAdmin | Operation::Distribute => record.require_admin(caller),
        },
    }
}

} // verus!
