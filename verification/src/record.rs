use vstd::prelude::*;
use crate::address::Address;

verus! {

/// The cap on a single deduction of a vault that was created without one: no cap.
pub const DEFAULT_MAX_DEDUCT: i128 = i128::MAX;

/// The record of one vault.
#[derive(Clone, Copy, Debug, PartialEq, Eq)]
pub struct VaultMeta {
    /// Who controls the vault: withdrawals, the depositor grant, ownership.
    pub owner: Address,
    /// The value in custody, in the smallest unit of the asset.
    pub balance: i128,
    /// The smallest deposit that is accepted.
    pub min_deposit: i128,
    /// The largest single deduction that is accepted.
    pub max_deduct: i128,
    /// Who may distribute value out of the vault.
    pub admin: Address,
    /// Where deducted value is sent; when absent, deducted value is spent.
    pub revenue_pool: Option<Address>,
    /// Who, besides the owner, may deposit.
    pub allowed_depositor: Option<Address>,
    /// The token in which the vault's value is held.
    pub usdc_token: Address,
}

impl VaultMeta {
    /// What holds of the record of every vault: the balance and the minimum
    /// deposit are not negative, and the cap on a deduction is positive.
    pub open spec fn valid(self) -> bool {
        &&& self.balance >= 0
        &&& self.min_deposit >= 0
        &&& self.max_deduct > 0
    }

    /// Whether the record could be the record of a vault.
    pub fn is_valid(&self) -> (ok: bool)
        ensures
            ok == self.valid(),
    {
        self.balance >= 0 && self.min_deposit >= 0 && self.max_deduct > 0
    }
}

/// The slots in which a vault is kept between operations.
#[derive(Clone, Copy, Debug, PartialEq, Eq, Structural)]
pub enum StorageKey {
    /// The vault's record.
    Meta,
    /// The depositor grant.
    AllowedDepositor,
}

/// One deduction of a batch.
#[derive(Clone, Debug, PartialEq, Eq)]
pub struct DeductItem {
    /// The amount to deduct.
    pub amount: i128,
    /// The tag under which the caller accounts for the deduction.
    pub request_id: Option<String>,
}

} // verus!
