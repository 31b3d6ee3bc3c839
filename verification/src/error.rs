use vstd::prelude::*;

verus! {

/// Why an operation on the vault was turned down.
#[derive(Clone, Copy, Debug, PartialEq, Eq, Structural)]
pub enum VaultError {
    /// The vault has no record yet.
    NotInitialized,
    /// The vault already has a record.
    AlreadyInitialized,
    /// The caller does not hold the role the operation asks for.
    Unauthorized,
    /// The amount is zero or negative.
    AmountNotPositive,
    /// The deposit is smaller than the vault's minimum deposit.
    BelowMinimum,
    /// The deduction is larger than the vault's cap on a single deduction.
    ExceedsCap,
    /// The amount is larger than the balance it is drawn from.
    InsufficientBalance,
    /// A batch of deductions holds no item.
    EmptyBatch,
    /// The balance would leave the range of the ledger's integers.
    Overflow,
    /// An argument contradicts the record or the record's invariants.
    InvalidArgument,
    /// The token gateway did not carry out a transfer.
    ExternalTransferFailed,
}

impl VaultError {
    /// The stable text that names each kind of failure.
    pub open spec fn reason_text(self) -> Seq<char> {
        match self {
            VaultError::NotInitialized => "vault not initialized"@,
            VaultError::AlreadyInitialized => "vault already initialized"@,
            VaultError::Unauthorized => "unauthorized"@,
            VaultError::AmountNotPositive => "amount must be positive"@,
            VaultError::BelowMinimum => "deposit below minimum"@,
            VaultError::ExceedsCap => "deduct amount exceeds max_deduct"@,
            VaultError::InsufficientBalance => "insufficient balance"@,
            VaultError::EmptyBatch => "batch_deduct requires at least one item"@,
            VaultError::Overflow => "balance overflow"@,
            VaultError::InvalidArgument => "invalid argument"@,
            VaultError::ExternalTransferFailed => "external transfer failed"@,
        }
    }

    /// The reason to report to the caller, by the kind of failure alone.
    /// `Operation::failure_reason` is more specific where the operation is
    /// known.
    pub fn reason(&self) -> (text: &'static str)
        ensures
            text@ == self.reason_text(),
    {
        match self {
            VaultError::NotInitialized => "vault not initialized",
            VaultError::AlreadyInitialized => "vault already initialized",
            VaultError::Unauthorized => "unauthorized",
            VaultError::AmountNotPositive => "amount must be positive",
            VaultError::BelowMinimum => "deposit below minimum",
            VaultError::ExceedsCap => "deduct amount exceeds max_deduct",
            VaultError::InsufficientBalance => "insufficient balance",
            VaultError::EmptyBatch => "batch_deduct requires at least one item",
            VaultError::Overflow => "balance overflow",
            VaultError::InvalidArgument => "invalid argument",
            VaultError::ExternalTransferFailed => "external transfer failed",
        }
    }
}

} // verus!
