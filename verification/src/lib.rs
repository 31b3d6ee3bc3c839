//! A custodial balance ledger.
//!
//! A vault holds the balance that an owner has put into custody. A backend
//! draws the balance down for metered use, the owner withdraws from it, and
//! an admin distributes it to payees. The vault decides who may do what and
//! what the balance becomes; moving tokens, keeping the record between
//! operations, authenticating callers and publishing events are left to
//! whoever runs the vault, who is told through a receipt what to do and in
//! which order.
//!
//! - [`vault`]: the vault and its operations.
//! - [`access`]: who may perform which operation.
//! - [`ledger`]: what a credit, a debit or a batch of debits does to a balance.
//! - [`rules`]: what each operation accepts and what it leaves.
//! - [`settlement`]: receipts, transfers and audit events.
//! - [`history`]: what holds of every sequence of deposits and deductions.
//! - [`record`], [`address`], [`error`]: the data.

pub mod access;
pub mod address;
pub mod error;
pub mod history;
pub mod ledger;
pub mod record;
pub mod rules;
pub mod settlement;
pub mod vault;

pub use access::Operation;
pub use address::Address;
pub use error::VaultError;
pub use record::{DeductItem, StorageKey, VaultMeta, DEFAULT_MAX_DEDUCT};
pub use settlement::{Action, AuditEvent, Receipt, Transfer, TransferOutcome};
pub use vault::CalloraVault;
