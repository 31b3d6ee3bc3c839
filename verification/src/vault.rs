use vstd::prelude::*;
use crate::access::{authorize, denial, may_deposit, Operation};
use crate::address::Address;
use crate::error::VaultError;
use crate::ledger::{
    batch_debit, credit, debit, deducted, item_refusal, lemma_accepted_items_are_covered,
    lemma_batch_accepted, withdraw,
};
use crate::record::{DeductItem, StorageKey, VaultMeta, DEFAULT_MAX_DEDUCT};
use crate::rules::{
    after_batch_deduct, after_deduct, after_deposit, after_init, after_payout,
    after_set_allowed_depositor, after_transfer_admin, after_transfer_ownership, batch_actions,
    batch_deduct_error, batch_event, deduct_actions, deduct_error, deposit_error,
    deposit_request_error, init_error, or_default, payout_error, transfer_ownership_error,
};
use crate::settlement::{Action, AuditEvent, Receipt, Transfer, TransferOutcome};

verus! {

/// A vault: nothing before it is initialized, and one record from then on.
///
/// Every operation first decides whether the caller may perform it, then
/// whether its arguments are acceptable, and only then changes the record.
/// An operation that is turned down leaves the vault as it was. An operation
/// that is accepted hands back a receipt: the balance it left, and what is
/// to be done outside the vault, in order.
#[derive(Debug)]
pub struct CalloraVault {
    meta: Option<VaultMeta>,
}

impl View for CalloraVault {
    type V = Option<VaultMeta>;

    closed spec fn view(&self) -> Option<VaultMeta> {
        self.meta
    }
}

fn copy_request_id(request_id: &Option<String>) -> (copy: Option<String>)
    ensures
        copy == *request_id,
{
    match request_id {
        Some(id) => Some(id.clone()),
        None => None,
    }
}

impl CalloraVault {
    #[verifier::type_invariant]
    spec fn well_formed(self) -> bool {
        self.meta matches Some(record) ==> record.valid()
    }

    /// A vault that has not been initialized.
    pub fn new() -> (vault: CalloraVault)
        ensures
            vault@ is None,
    {
        CalloraVault { meta: None }
    }

    /// The vault that has `meta` for its record, as it is taken up again
    /// after it was put away between two operations.
    pub fn from_meta(meta: VaultMeta) -> (r: Result<CalloraVault, VaultError>)
        ensures
            meta.valid() ==> (r matches Ok(vault) && vault@ == Some(meta)),
            !meta.valid() ==> (r matches Err(e) && e == VaultError::InvalidArgument),
    {
        if meta.is_valid() {
            Ok(CalloraVault { meta: Some(meta) })
        } else {
            Err(VaultError::InvalidArgument)
        }
    }

    /// Whether the vault holds something to keep in the slot `key`: a record,
    /// or a depositor grant.
    pub fn has(&self, key: StorageKey) -> (present: bool)
        ensures
            present == match key {
                StorageKey::Meta => self@ is Some,
                StorageKey::AllowedDepositor => self@ matches Some(record)
                    && record.allowed_depositor is Some,
            },
    {
        match self.meta {
            Some(record) => match key {
                StorageKey::Meta => true,
                StorageKey::AllowedDepositor => record.allowed_depositor.is_some(),
            },
            None => false,
        }
    }

    /// Decides whether `caller` may perform `operation` on this vault.
    pub fn authorize(&self, operation: Operation, caller: Address) -> (r: Result<(), VaultError>)
        ensures
            r == match denial(self@, operation, caller) {
                Some(e) => Err::<(), VaultError>(e),
                None => Ok::<(), VaultError>(()),
            },
    {
        authorize(&self.meta, operation, &caller)
    }

    /// The vault's record.
    pub fn get_meta(&self) -> (r: Result<VaultMeta, VaultError>)
        ensures
            r == match self@ {
                Some(record) => Ok::<VaultMeta, VaultError>(record),
                None => Err::<VaultMeta, VaultError>(VaultError::NotInitialized),
            },
            r matches Ok(record) ==> record.valid(),
    {
        proof {
            use_type_invariant(self);
        }
        match self.meta {
            Some(record) => Ok(record),
            None => Err(VaultError::NotInitialized),
        }
    }

    /// The balance in custody. It is never negative.
    pub fn balance(&self) -> (r: Result<i128, VaultError>)
        ensures
            r == match self@ {
                Some(record) => Ok::<i128, VaultError>(record.balance),
                None => Err::<i128, VaultError>(VaultError::NotInitialized),
            },
            r matches Ok(balance) ==> balance >= 0,
    {
        proof {
            use_type_invariant(self);
        }
        match self.meta {
            Some(record) => Ok(record.balance),
            None => Err(VaultError::NotInitialized),
        }
    }

    /// The largest amount that a single deduction may take.
    pub fn get_max_deduct(&self) -> (r: Result<i128, VaultError>)
        ensures
            r == match self@ {
                Some(record) => Ok::<i128, VaultError>(record.max_deduct),
                None => Err::<i128, VaultError>(VaultError::NotInitialized),
            },
            r matches Ok(cap) ==> cap > 0,
    {
        proof {
            use_type_invariant(self);
        }
        match self.meta {
            Some(record) => Ok(record.max_deduct),
            None => Err(VaultError::NotInitialized),
        }
    }

    /// Where deducted value is sent: the revenue pool, or nowhere. A vault
    /// without a pool is told apart from a vault without a record.
    pub fn get_revenue_pool(&self) -> (r: Result<Option<Address>, VaultError>)
        ensures
            r == match self@ {
                Some(record) => Ok::<Option<Address>, VaultError>(record.revenue_pool),
                None => Err::<Option<Address>, VaultError>(VaultError::NotInitialized),
            },
    {
        match self.meta {
            Some(record) => Ok(record.revenue_pool),
            None => Err(VaultError::NotInitialized),
        }
    }

    /// Whether `caller` may deposit: the owner and the allowed depositor may.
    pub fn is_authorized_depositor(&self, caller: Address) -> (r: Result<bool, VaultError>)
        ensures
            r == match self@ {
                Some(record) => Ok::<bool, VaultError>(may_deposit(record, caller)),
                None => Err::<bool, VaultError>(VaultError::NotInitialized),
            },
    {
        match self.meta {
            Some(record) => Ok(record.is_authorized_depositor(&caller)),
            None => Err(VaultError::NotInitialized),
        }
    }

    /// Creates the vault's record. `custody` is the amount of the token that
    /// the gateway holds for the vault: an initial balance must be covered
    /// by it. The owner is also the first admin.
    pub fn init(
        &mut self,
        owner: Address,
        usdc_token: Address,
        initial_balance: Option<i128>,
        min_deposit: Option<i128>,
        revenue_pool: Option<Address>,
        max_deduct: Option<i128>,
        custody: i128,
    ) -> (r: Result<Receipt, VaultError>)
        ensures
            r is Err ==> final(self)@ == old(self)@,
            final(self)@ == after_init(
                old(self)@,
                owner,
                usdc_token,
                initial_balance,
                min_deposit,
                revenue_pool,
                max_deduct,
                custody,
            ),
            match init_error(old(self)@, initial_balance, min_deposit, max_deduct, custody) {
                Some(e) => r == Err::<Receipt, VaultError>(e),
                None => r matches Ok(receipt) && receipt.holds(
                    or_default(initial_balance, 0) as int,
                    seq![
                        Action::Emit(
                            AuditEvent::Init { owner, balance: or_default(initial_balance, 0) },
                        ),
                    ],
                ),
            },
            final(self)@ matches Some(record) ==> record.valid(),
    {
        proof {
            use_type_invariant(&*self);
        }
        if let Err(e) = authorize(&self.meta, Operation::Initialize, &owner) {
            return Err(e);
        }
        let balance = match initial_balance {
            Some(value) => value,
            None => 0,
        };
        if balance < 0 {
            return Err(VaultError::InvalidArgument);
        }
        if balance > 0 && custody < balance {
            return Err(VaultError::InsufficientBalance);
        }
        let min_deposit = match min_deposit {
            Some(value) => value,
            None => 0,
        };
        if min_deposit < 0 {
            return Err(VaultError::InvalidArgument);
        }
        let max_deduct = match max_deduct {
            Some(value) => value,
            None => DEFAULT_MAX_DEDUCT,
        };
        if max_deduct <= 0 {
            return Err(VaultError::InvalidArgument);
        }
        self.meta = Some(
            VaultMeta {
                owner,
                balance,
                min_deposit,
                max_deduct,
                admin: owner,
                revenue_pool,
                allowed_depositor: None,
                usdc_token,
            },
        );
        let mut actions: Vec<Action> = Vec::new();
        actions.push(Action::Emit(AuditEvent::Init { owner, balance }));
        assert(actions@ =~= seq![Action::Emit(AuditEvent::Init { owner, balance })]);
        Ok(Receipt { balance, actions })
    }

    /// Grants the right to deposit to `depositor`, in place of whoever had
    /// it, or to nobody. Only the owner may.
    pub fn set_allowed_depositor(&mut self, caller: Address, depositor: Option<Address>) -> (r:
        Result<(), VaultError>)
        ensures
            r is Err ==> final(self)@ == old(self)@,
            final(self)@ == after_set_allowed_depositor(old(self)@, caller, depositor),
            r == match denial(old(self)@, Operation::SetAllowedDepositor, caller) {
                Some(e) => Err::<(), VaultError>(e),
                None => Ok::<(), VaultError>(()),
            },
            final(self)@ matches Some(record) ==> record.valid(),
    {
        proof {
            use_type_invariant(&*self);
        }
        if let Err(e) = authorize(&self.meta, Operation::SetAllowedDepositor, &caller) {
            return Err(e);
        }
        let record = self.meta.unwrap();
        self.meta = Some(VaultMeta { allowed_depositor: depositor, ..record });
        Ok(())
    }

    /// The transfer to ask of the token gateway before a deposit: the amount
    /// is pulled from the depositor into custody first, and `deposit` then
    /// takes the gateway's answer. The vault is not changed.
    pub fn deposit_request(&self, caller: Address, amount: i128) -> (r: Result<Transfer, VaultError>)
        ensures
            r == match deposit_request_error(self@, caller, amount) {
                Some(e) => Err::<Transfer, VaultError>(e),
                None => Ok::<Transfer, VaultError>(Transfer::IntoCustody { from: caller, amount }),
            },
    {
        if let Err(e) = authorize(&self.meta, Operation::Deposit, &caller) {
            return Err(e);
        }
        let record = self.meta.unwrap();
        match credit(record.balance, record.min_deposit, amount) {
            Ok(_) => Ok(Transfer::IntoCustody { from: caller, amount }),
            Err(e) => Err(e),
        }
    }

    /// Credits a deposit of `amount` by `caller`. Only the owner and the
    /// allowed depositor may deposit. `pulled` is the gateway's answer to the
    /// transfer of `deposit_request`: where it failed, nothing is credited.
    pub fn deposit(&mut self, caller: Address, amount: i128, pulled: TransferOutcome) -> (r: Result<
        Receipt,
        VaultError,
    >)
        ensures
            r is Err ==> final(self)@ == old(self)@,
            (old(self)@ matches Some(record) && !may_deposit(record, caller)) ==> r == Err::<
                Receipt,
                VaultError,
            >(VaultError::Unauthorized),
            final(self)@ == after_deposit(old(self)@, caller, amount, pulled),
            match deposit_error(old(self)@, caller, amount, pulled) {
                Some(e) => r == Err::<Receipt, VaultError>(e),
                None => r matches Ok(receipt) && receipt.holds(
                    old(self)@.unwrap().balance + amount,
                    seq![Action::Emit(AuditEvent::Deposit { from: caller, amount })],
                ),
            },
            final(self)@ matches Some(record) ==> record.valid(),
    {
        proof {
            use_type_invariant(&*self);
        }
        if let Err(e) = authorize(&self.meta, Operation::Deposit, &caller) {
            return Err(e);
        }
        let record = self.meta.unwrap();
        let balance = match credit(record.balance, record.min_deposit, amount) {
            Ok(balance) => balance,
            Err(e) => {
                return Err(e);
            },
        };
        match pulled {
            TransferOutcome::Confirmed => {},
            TransferOutcome::Failed => {
                return Err(VaultError::ExternalTransferFailed);
            },
        }
        self.meta = Some(VaultMeta { balance, ..record });
        let mut actions: Vec<Action> = Vec::new();
        actions.push(Action::Emit(AuditEvent::Deposit { from: caller, amount }));
        assert(actions@ =~= seq![Action::Emit(AuditEvent::Deposit { from: caller, amount })]);
        Ok(Receipt { balance, actions })
    }

    /// Deducts `amount` for metered use, for any caller. The balance is
    /// reduced first; the receipt then asks for the transfer to the revenue
    /// pool, where there is one, and for the event.
    pub fn deduct(&mut self, caller: Address, amount: i128, request_id: Option<String>) -> (r:
        Result<Receipt, VaultError>)
        ensures
            r is Err ==> final(self)@ == old(self)@,
            final(self)@ == after_deduct(old(self)@, caller, amount),
            match deduct_error(old(self)@, caller, amount) {
                Some(e) => r == Err::<Receipt, VaultError>(e),
                None => r matches Ok(receipt) && receipt.holds(
                    old(self)@.unwrap().balance - amount,
                    deduct_actions(old(self)@.unwrap(), caller, amount, request_id),
                ),
            },
            final(self)@ matches Some(record) ==> record.valid(),
    {
        proof {
            use_type_invariant(&*self);
        }
        if let Err(e) = authorize(&self.meta, Operation::Deduct, &caller) {
            return Err(e);
        }
        let record = self.meta.unwrap();
        let balance = match debit(record.balance, record.max_deduct, amount) {
            Ok(balance) => balance,
            Err(e) => {
                return Err(e);
            },
        };
        self.meta = Some(VaultMeta { balance, ..record });
        let mut actions: Vec<Action> = Vec::new();
        if let Some(pool) = record.revenue_pool {
            actions.push(Action::Transfer(Transfer::Out { to: pool, amount }));
        }
        actions.push(Action::Emit(AuditEvent::Deduct { caller, request_id, amount, balance }));
        assert(actions@ =~= deduct_actions(record, caller, amount, request_id));
        Ok(Receipt { balance, actions })
    }

    /// Deducts every item of `items`, or none, for any caller. The items are
    /// first held, in the order of the list, against the balance that the
    /// items before them leave. Where one of them fails, the batch is turned
    /// down and the balance stays. Where all pass, the balance is reduced,
    /// once, by their sum; the receipt then asks for one event for each item
    /// and, where there is a revenue pool, for one transfer of the sum.
    pub fn batch_deduct(&mut self, caller: Address, items: Vec<DeductItem>) -> (r: Result<
        Receipt,
        VaultError,
    >)
        ensures
            r is Err ==> final(self)@ == old(self)@,
            (old(self)@ matches Some(record) && exists|i: int|
                0 <= i < items@.len() && item_refusal(
                    record.balance as int,
                    record.max_deduct as int,
                    items@,
                    i,
                ) is Some) ==> r is Err,
            final(self)@ == after_batch_deduct(old(self)@, caller, items@),
            match batch_deduct_error(old(self)@, caller, items@) {
                Some(e) => r == Err::<Receipt, VaultError>(e),
                None => r matches Ok(receipt) && receipt.holds(
                    old(self)@.unwrap().balance - deducted(items@, items@.len() as int),
                    batch_actions(old(self)@.unwrap(), caller, items@),
                ),
            },
            final(self)@ matches Some(record) ==> record.valid(),
    {
        proof {
            use_type_invariant(&*self);
        }
        if let Err(e) = authorize(&self.meta, Operation::BatchDeduct, &caller) {
            return Err(e);
        }
        let record = self.meta.unwrap();
        proof {
            lemma_batch_accepted(record.balance as int, record.max_deduct as int, items@);
        }
        let balance = match batch_debit(record.balance, record.max_deduct, &items) {
            Ok(balance) => balance,
            Err(e) => {
                return Err(e);
            },
        };
        proof {
            lemma_accepted_items_are_covered(
                record.balance as int,
                record.max_deduct as int,
                items@,
                items@.len() as int,
            );
        }
        let n = items.len();
        let mut actions: Vec<Action> = Vec::new();
        let mut running: i128 = record.balance;
        let mut i: usize = 0;
        while i < n
            invariant
                n == items@.len(),
                i <= n,
                forall|j: int|
                    0 <= j < n ==> item_refusal(
                        record.balance as int,
                        record.max_deduct as int,
                        items@,
                        j,
                    ) is None,
                running == record.balance - deducted(items@, i as int),
                actions@ =~= Seq::new(i as nat, |k: int| batch_event(record, caller, items@, k)),
            decreases n - i,
        {
            assert(item_refusal(record.balance as int, record.max_deduct as int, items@, i as int)
                is None);
            running = running - items[i].amount;
            actions.push(
                Action::Emit(
                    AuditEvent::Deduct {
                        caller,
                        request_id: copy_request_id(&items[i].request_id),
                        amount: items[i].amount,
                        balance: running,
                    },
                ),
            );
            i += 1;
        }
        if let Some(pool) = record.revenue_pool {
            actions.push(
                Action::Transfer(Transfer::Out { to: pool, amount: record.balance - balance }),
            );
        }
        self.meta = Some(VaultMeta { balance, ..record });
        assert(actions@ =~= batch_actions(record, caller, items@));
        Ok(Receipt { balance, actions })
    }

    /// Takes `amount` out of the balance under `operation`, which decides who
    /// may: the balance that is left.
    fn pay_out(&mut self, operation: Operation, caller: Address, amount: i128) -> (r: Result<
        i128,
        VaultError,
    >)
        requires
            operation != Operation::Initialize,
        ensures
            r is Err ==> final(self)@ == old(self)@,
            final(self)@ == after_payout(old(self)@, operation, caller, amount),
            match payout_error(old(self)@, operation, caller, amount) {
                Some(e) => r == Err::<i128, VaultError>(e),
                None => r matches Ok(balance) && balance == old(self)@.unwrap().balance - amount,
            },
            final(self)@ matches Some(record) ==> record.valid(),
    {
        proof {
            use_type_invariant(&*self);
        }
        if let Err(e) = authorize(&self.meta, operation, &caller) {
            return Err(e);
        }
        let record = self.meta.unwrap();
        let balance = match withdraw(record.balance, amount) {
            Ok(balance) => balance,
            Err(e) => {
                return Err(e);
            },
        };
        self.meta = Some(VaultMeta { balance, ..record });
        Ok(balance)
    }

    /// Withdraws `amount` to the owner. Only the owner may. The balance is
    /// reduced first; the receipt then asks for the transfer and the event.
    pub fn withdraw(&mut self, caller: Address, amount: i128) -> (r: Result<Receipt, VaultError>)
        ensures
            r is Err ==> final(self)@ == old(self)@,
            final(self)@ == after_payout(old(self)@, Operation::Withdraw, caller, amount),
            match payout_error(old(self)@, Operation::Withdraw, caller, amount) {
                Some(e) => r == Err::<Receipt, VaultError>(e),
                None => r matches Ok(receipt) && receipt.holds(
                    old(self)@.unwrap().balance - amount,
                    seq![
                        Action::Transfer(Transfer::Out { to: caller, amount }),
                        Action::Emit(
                            AuditEvent::Withdraw { owner: caller, amount, balance: receipt.balance },
                        ),
                    ],
                ),
            },
            final(self)@ matches Some(record) ==> record.valid(),
    {
        let balance = match self.pay_out(Operation::Withdraw, caller, amount) {
            Ok(balance) => balance,
            Err(e) => {
                return Err(e);
            },
        };
        let mut actions: Vec<Action> = Vec::new();
        actions.push(Action::Transfer(Transfer::Out { to: caller, amount }));
        actions.push(Action::Emit(AuditEvent::Withdraw { owner: caller, amount, balance }));
        assert(actions@ =~= seq![
            Action::Transfer(Transfer::Out { to: caller, amount }),
            Action::Emit(AuditEvent::Withdraw { owner: caller, amount, balance }),
        ]);
        Ok(Receipt { balance, actions })
    }

    /// Withdraws `amount` to `to`. Only the owner may. The balance is reduced
    /// first; the receipt then asks for the transfer and the event.
    pub fn withdraw_to(&mut self, caller: Address, to: Address, amount: i128) -> (r: Result<
        Receipt,
        VaultError,
    >)
        ensures
            r is Err ==> final(self)@ == old(self)@,
            final(self)@ == after_payout(old(self)@, Operation::WithdrawTo, caller, amount),
            match payout_error(old(self)@, Operation::WithdrawTo, caller, amount) {
                Some(e) => r == Err::<Receipt, VaultError>(e),
                None => r matches Ok(receipt) && receipt.holds(
                    old(self)@.unwrap().balance - amount,
                    seq![
                        Action::Transfer(Transfer::Out { to, amount }),
                        Action::Emit(
                            AuditEvent::WithdrawTo {
                                owner: caller,
                                to,
                                amount,
                                balance: receipt.balance,
                            },
                        ),
                    ],
                ),
            },
            final(self)@ matches Some(record) ==> record.valid(),
    {
        let balance = match self.pay_out(Operation::WithdrawTo, caller, amount) {
            Ok(balance) => balance,
            Err(e) => {
                return Err(e);
            },
        };
        let mut actions: Vec<Action> = Vec::new();
        actions.push(Action::Transfer(Transfer::Out { to, amount }));
        actions.push(Action::Emit(AuditEvent::WithdrawTo { owner: caller, to, amount, balance }));
        assert(actions@ =~= seq![
            Action::Transfer(Transfer::Out { to, amount }),
            Action::Emit(AuditEvent::WithdrawTo { owner: caller, to, amount, balance }),
        ]);
        Ok(Receipt { balance, actions })
    }

    /// Distributes `amount` out of the vault to `to`. Only the admin may. The
    /// balance is reduced first; the receipt then asks for the transfer and
    /// the event.
    pub fn distribute(&mut self, caller: Address, to: Address, amount: i128) -> (r: Result<
        Receipt,
        VaultError,
    >)
        ensures
            r is Err ==> final(self)@ == old(self)@,
            final(self)@ == after_payout(old(self)@, Operation::Distribute, caller, amount),
            match payout_error(old(self)@, Operation::Distribute, caller, amount) {
                Some(e) => r == Err::<Receipt, VaultError>(e),
                None => r matches Ok(receipt) && receipt.holds(
                    old(self)@.unwrap().balance - amount,
                    seq![
                        Action::Transfer(Transfer::Out { to, amount }),
                        Action::Emit(AuditEvent::Distribute { to, amount }),
                    ],
                ),
            },
            final(self)@ matches Some(record) ==> record.valid(),
    {
        let balance = match self.pay_out(Operation::Distribute, caller, amount) {
            Ok(balance) => balance,
            Err(e) => {
                return Err(e);
            },
        };
        let mut actions: Vec<Action> = Vec::new();
        actions.push(Action::Transfer(Transfer::Out { to, amount }));
        actions.push(Action::Emit(AuditEvent::Distribute { to, amount }));
        assert(actions@ =~= seq![
            Action::Transfer(Transfer::Out { to, amount }),
            Action::Emit(AuditEvent::Distribute { to, amount }),
        ]);
        Ok(Receipt { balance, actions })
    }

    /// Hands the vault over to `new_owner`, who must be someone else than
    /// the owner. Only the owner may. The admin stays.
    pub fn transfer_ownership(&mut self, caller: Address, new_owner: Address) -> (r: Result<
        Receipt,
        VaultError,
    >)
        ensures
            r is Err ==> final(self)@ == old(self)@,
            (old(self)@ matches Some(record) && caller == record.owner && new_owner
                == record.owner) ==> r == Err::<Receipt, VaultError>(VaultError::InvalidArgument),
            final(self)@ == after_transfer_ownership(old(self)@, caller, new_owner),
            match transfer_ownership_error(old(self)@, caller, new_owner) {
                Some(e) => r == Err::<Receipt, VaultError>(e),
                None => r matches Ok(receipt) && receipt.holds(
                    old(self)@.unwrap().balance as int,
                    seq![
                        Action::Emit(
                            AuditEvent::TransferOwnership { old_owner: caller, new_owner },
                        ),
                    ],
                ),
            },
            final(self)@ matches Some(record) ==> record.valid(),
    {
        proof {
            use_type_invariant(&*self);
        }
        if let Err(e) = authorize(&self.meta, Operation::TransferOwnership, &caller) {
            return Err(e);
        }
        let record = self.meta.unwrap();
        if new_owner == record.owner {
            return Err(VaultError::InvalidArgument);
        }
        self.meta = Some(VaultMeta { owner: new_owner, ..record });
        let mut actions: Vec<Action> = Vec::new();
        actions.push(Action::Emit(AuditEvent::TransferOwnership { old_owner: caller, new_owner }));
        assert(actions@ =~= seq![
            Action::Emit(AuditEvent::TransferOwnership { old_owner: caller, new_owner }),
        ]);
        Ok(Receipt { balance: record.balance, actions })
    }

    /// Hands the admin role over to `new_admin`. Only the admin may. The
    /// owner stays.
    pub fn transfer_admin(&mut self, caller: Address, new_admin: Address) -> (r: Result<
        (),
        VaultError,
    >)
        ensures
            r is Err ==> final(self)@ == old(self)@,
            final(self)@ == after_transfer_admin(old(self)@, caller, new_admin),
            r == match denial(old(self)@, Operation::TransferAdmin, caller) {
                Some(e) => Err::<(), VaultError>(e),
                None => Ok::<(), VaultError>(()),
            },
            final(self)@ matches Some(record) ==> record.valid(),
    {
        proof {
            use_type_invariant(&*self);
        }
        if let Err(e) = authorize(&self.meta, Operation::TransferAdmin, &caller) {
            return Err(e);
        }
        let record = self.meta.unwrap();
        self.meta = Some(VaultMeta { admin: new_admin, ..record });
        Ok(())
    }
}

impl Default for CalloraVault {
    /// A vault that has not been initialized.
    fn default() -> (vault: CalloraVault)
        ensures
            vault@ is None,
    {
        CalloraVault::new()
    }
}

} // verus!
