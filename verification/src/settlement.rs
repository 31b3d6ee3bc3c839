use vstd::prelude::*;
use crate::address::Address;
use crate::error::VaultError;

verus! {

/// A movement of tokens that the vault asks of the token gateway.
#[derive(Clone, Copy, Debug, PartialEq, Eq)]
pub enum Transfer {
    /// Pull `amount` from `from` into the vault's custody.
    IntoCustody { from: Address, amount: i128 },
    /// Send `amount` from the vault's custody to `to`.
    Out { to: Address, amount: i128 },
}

/// What the token gateway answered to a transfer.
#[derive(Clone, Copy, Debug, PartialEq, Eq, Structural)]
pub enum TransferOutcome {
    /// The tokens have moved.
    Confirmed,
    /// The tokens have not moved.
    Failed,
}

/// A completed change of the vault, as it is told to the audit sink.
#[derive(Clone, Debug, PartialEq, Eq)]
pub enum AuditEvent {
    /// The vault was created for `owner` with `balance`.
    Init { owner: Address, balance: i128 },
    /// `from` deposited `amount`.
    Deposit { from: Address, amount: i128 },
    /// `caller` deducted `amount` under the tag `request_id`, which left
    /// `balance`.
    Deduct { caller: Address, request_id: Option<String>, amount: i128, balance: i128 },
    /// `owner` withdrew `amount`, which left `balance`.
    Withdraw { owner: Address, amount: i128, balance: i128 },
    /// `owner` withdrew `amount` to `to`, which left `balance`.
    WithdrawTo { owner: Address, to: Address, amount: i128, balance: i128 },
    /// The admin distributed `amount` to `to`.
    Distribute { to: Address, amount: i128 },
    /// The vault passed from `old_owner` to `new_owner`.
    TransferOwnership { old_owner: Address, new_owner: Address },
}

impl AuditEvent {
    /// The topic under which each kind of event is filed.
    pub open spec fn topic_text(self) -> Seq<char> {
        match self {
            AuditEvent::Init { .. } => "init"@,
            AuditEvent::Deposit { .. } => "deposit"@,
            AuditEvent::Deduct { .. } => "deduct"@,
            AuditEvent::Withdraw { .. } => "withdraw"@,
            AuditEvent::WithdrawTo { .. } => "withdraw_to"@,
            AuditEvent::Distribute { .. } => "distribute"@,
            AuditEvent::TransferOwnership { .. } => "transfer_ownership"@,
        }
    }

    /// The event's topic.
    pub fn topic(&self) -> (text: &'static str)
        ensures
            text@ == self.topic_text(),
    {
        match self {
            AuditEvent::Init { .. } => "init",
            AuditEvent::Deposit { .. } => "deposit",
            AuditEvent::Deduct { .. } => "deduct",
            AuditEvent::Withdraw { .. } => "withdraw",
            AuditEvent::WithdrawTo { .. } => "withdraw_to",
            AuditEvent::Distribute { .. } => "distribute",
            AuditEvent::TransferOwnership { .. } => "transfer_ownership",
        }
    }
}

/// One thing to do outside the vault once an operation has been accepted.
#[derive(Clone, Debug, PartialEq, Eq)]
pub enum Action {
    /// Ask the token gateway for a transfer.
    Transfer(Transfer),
    /// Tell the audit sink of an event.
    Emit(AuditEvent),
}

/// What an accepted operation leaves to do: the balance it produced and the
/// actions to carry out, in this order.
#[derive(Clone, Debug, PartialEq, Eq)]
pub struct Receipt {
    /// The balance that the operation left.
    pub balance: i128,
    /// What to do outside the vault, first to last.
    pub actions: Vec<Action>,
}

impl Receipt {
    /// The receipt holds this balance and these actions.
    pub open spec fn holds(self, balance: int, actions: Seq<Action>) -> bool {
        self.balance == balance && self.actions@ == actions
    }

    /// What to report once the gateway has answered a transfer that the
    /// receipt asked for: the balance, or that the transfer failed. The
    /// balance has been committed by then, and a failure does not undo it.
    pub fn settle(&self, outcome: TransferOutcome) -> (r: Result<i128, VaultError>)
        ensures
            r == match outcome {
                TransferOutcome::Confirmed => Ok::<i128, VaultError>(self.balance),
                TransferOutcome::Failed => Err::<i128, VaultError>(VaultError::ExternalTransferFailed),
            },
    {
        match outcome {
            TransferOutcome::Confirmed => Ok(self.balance),
            TransferOutcome::Failed => Err(VaultError::ExternalTransferFailed),
        }
    }
}

} // verus!
