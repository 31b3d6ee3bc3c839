use vstd::prelude::*;
use crate::error::VaultError;
use crate::record::DeductItem;

verus! {

/// Why a credit of `amount` to `balance` is turned down, if it is.
pub open spec fn credit_refusal(balance: int, min_deposit: int, amount: int) -> Option<VaultError> {
    if amount <= 0 {
        Some(VaultError::AmountNotPositive)
    } else if amount < min_deposit {
        Some(VaultError::BelowMinimum)
    } else if balance + amount > i128::MAX {
        Some(VaultError::Overflow)
    } else {
        None
    }
}

/// Why a single deduction of `amount` from `balance` is turned down, if it is.
pub open spec fn debit_refusal(balance: int, max_deduct: int, amount: int) -> Option<VaultError> {
    if amount <= 0 {
        Some(VaultError::AmountNotPositive)
    } else if amount > max_deduct {
        Some(VaultError::ExceedsCap)
    } else if amount > balance {
        Some(VaultError::InsufficientBalance)
    } else {
        None
    }
}

/// Why a withdrawal of `amount` from `balance` is turned down, if it is.
pub open spec fn withdraw_refusal(balance: int, amount: int) -> Option<VaultError> {
    if amount <= 0 {
        Some(VaultError::AmountNotPositive)
    } else if amount > balance {
        Some(VaultError::InsufficientBalance)
    } else {
        None
    }
}

/// The sum of the amounts of the first `k` items.
pub open spec fn deducted(items: Seq<DeductItem>, k: int) -> int
    decreases k,
{
    if k <= 0 {
        0
    } else {
        deducted(items, k - 1) + items[k - 1].amount
    }
}

/// Why item `i` of a batch is turned down, if it is: the item is held against
/// the balance that the items before it leave.
pub open spec fn item_refusal(balance: int, max_deduct: int, items: Seq<DeductItem>, i: int) -> Option<
    VaultError,
> {
    debit_refusal(balance - deducted(items, i), max_deduct, items[i].amount as int)
}

/// Item `i` is turned down and no item before it is.
pub open spec fn first_refused(balance: int, max_deduct: int, items: Seq<DeductItem>, i: int) -> bool {
    &&& 0 <= i < items.len()
    &&& item_refusal(balance, max_deduct, items, i) is Some
    &&& forall|j: int| 0 <= j < i ==> item_refusal(balance, max_deduct, items, j) is None
}

/// Why a batch is turned down, if it is: it is empty, or one of its items is
/// turned down, and then the first such item gives the reason.
pub open spec fn batch_refusal(balance: int, max_deduct: int, items: Seq<DeductItem>) -> Option<
    VaultError,
> {
    if items.len() == 0 {
        Some(VaultError::EmptyBatch)
    } else if exists|i: int| first_refused(balance, max_deduct, items, i) {
        item_refusal(
            balance,
            max_deduct,
            items,
            choose|i: int| first_refused(balance, max_deduct, items, i),
        )
    } else {
        None
    }
}

/// At most one item is the first to be turned down.
pub proof fn lemma_first_refused_unique(
    balance: int,
    max_deduct: int,
    items: Seq<DeductItem>,
    i: int,
    j: int,
)
    requires
        first_refused(balance, max_deduct, items, i),
        first_refused(balance, max_deduct, items, j),
    ensures
        i == j,
{
    if i < j {
        assert(item_refusal(balance, max_deduct, items, i) is None);
    } else if j < i {
        assert(item_refusal(balance, max_deduct, items, j) is None);
    }
}

/// A batch whose first refused item is `i` is turned down for that item's reason.
pub proof fn lemma_batch_refused_at(balance: int, max_deduct: int, items: Seq<DeductItem>, i: int)
    requires
        first_refused(balance, max_deduct, items, i),
    ensures
        batch_refusal(balance, max_deduct, items) == item_refusal(balance, max_deduct, items, i),
{
    let c = choose|k: int| first_refused(balance, max_deduct, items, k);
    lemma_first_refused_unique(balance, max_deduct, items, i, c);
}

/// A batch is accepted exactly when it is not empty and each of its items is
/// positive, within the cap, and covered by what the items before it leave.
pub proof fn lemma_batch_accepted(balance: int, max_deduct: int, items: Seq<DeductItem>)
    ensures
        batch_refusal(balance, max_deduct, items) is None <==> {
            &&& items.len() > 0
            &&& forall|i: int|
                0 <= i < items.len() ==> item_refusal(balance, max_deduct, items, i) is None
        },
{
    if items.len() > 0 && exists|i: int|
        0 <= i < items.len() && item_refusal(balance, max_deduct, items, i) is Some {
        let w = choose|i: int|
            0 <= i < items.len() && item_refusal(balance, max_deduct, items, i) is Some;
        lemma_some_item_is_first(balance, max_deduct, items, w);
    }
}

/// Where an item is turned down, some item is the first to be turned down.
proof fn lemma_some_item_is_first(balance: int, max_deduct: int, items: Seq<DeductItem>, i: int)
    requires
        0 <= i < items.len(),
        item_refusal(balance, max_deduct, items, i) is Some,
    ensures
        exists|k: int| first_refused(balance, max_deduct, items, k),
    decreases i,
{
    if exists|j: int| 0 <= j < i && item_refusal(balance, max_deduct, items, j) is Some {
        let j = choose|j: int| 0 <= j < i && item_refusal(balance, max_deduct, items, j) is Some;
        lemma_some_item_is_first(balance, max_deduct, items, j);
    } else {
        assert(first_refused(balance, max_deduct, items, i));
    }
}

/// Items that are all accepted take something, and no more than the balance.
pub proof fn lemma_accepted_items_are_covered(
    balance: int,
    max_deduct: int,
    items: Seq<DeductItem>,
    k: int,
)
    requires
        0 <= k <= items.len(),
        forall|i: int| 0 <= i < k ==> item_refusal(balance, max_deduct, items, i) is None,
    ensures
        0 <= deducted(items, k),
        k > 0 ==> 0 < deducted(items, k) <= balance,
    decreases k,
{
    if k > 0 {
        lemma_accepted_items_are_covered(balance, max_deduct, items, k - 1);
        assert(item_refusal(balance, max_deduct, items, k - 1) is None);
    }
}

/// Adds `amount` to `balance`.
pub fn credit(balance: i128, min_deposit: i128, amount: i128) -> (r: Result<i128, VaultError>)
    ensures
        match credit_refusal(balance as int, min_deposit as int, amount as int) {
            Some(e) => r == Err::<i128, VaultError>(e),
            None => r matches Ok(b) && b == balance + amount,
        },
{
    if amount <= 0 {
        return Err(VaultError::AmountNotPositive);
    }
    if amount < min_deposit {
        return Err(VaultError::BelowMinimum);
    }
    match balance.checked_add(amount) {
        Some(b) => Ok(b),
        None => Err(VaultError::Overflow),
    }
}

/// Takes a single deduction of `amount` from `balance`.
pub fn debit(balance: i128, max_deduct: i128, amount: i128) -> (r: Result<i128, VaultError>)
    ensures
        match debit_refusal(balance as int, max_deduct as int, amount as int) {
            Some(e) => r == Err::<i128, VaultError>(e),
            None => r matches Ok(b) && b == balance - amount,
        },
{
    if amount <= 0 {
        return Err(VaultError::AmountNotPositive);
    }
    if amount > max_deduct {
        return Err(VaultError::ExceedsCap);
    }
    if amount > balance {
        return Err(VaultError::InsufficientBalance);
    }
    Ok(balance - amount)
}

/// Takes a withdrawal of `amount` from `balance`.
pub fn withdraw(balance: i128, amount: i128) -> (r: Result<i128, VaultError>)
    ensures
        match withdraw_refusal(balance as int, amount as int) {
            Some(e) => r == Err::<i128, VaultError>(e),
            None => r matches Ok(b) && b == balance - amount,
        },
{
    if amount <= 0 {
        return Err(VaultError::AmountNotPositive);
    }
    if amount > balance {
        return Err(VaultError::InsufficientBalance);
    }
    Ok(balance - amount)
}

/// Holds every item of a batch against the balance that the items before it
/// leave, in the order of the list, and gives the balance that the whole
/// batch leaves. Nothing is committed here: one refused item refuses the batch.
pub fn batch_debit(balance: i128, max_deduct: i128, items: &Vec<DeductItem>) -> (r: Result<
    i128,
    VaultError,
>)
    ensures
        match batch_refusal(balance as int, max_deduct as int, items@) {
            Some(e) => r == Err::<i128, VaultError>(e),
            None => r matches Ok(b) && b == balance - deducted(items@, items@.len() as int),
        },
{
    let n = items.len();
    if n == 0 {
        return Err(VaultError::EmptyBatch);
    }
    let mut running: i128 = balance;
    let mut i: usize = 0;
    while i < n
        invariant
            n == items@.len(),
            n > 0,
            i <= n,
            running == balance - deducted(items@, i as int),
            forall|j: int|
                0 <= j < i ==> item_refusal(balance as int, max_deduct as int, items@, j) is None,
        decreases n - i,
    {
        match debit(running, max_deduct, items[i].amount) {
            Ok(left) => {
                running = left;
            },
            Err(e) => {
                proof {
                    lemma_batch_refused_at(balance as int, max_deduct as int, items@, i as int);
                }
                return Err(e);
            },
        }
        i += 1;
    }
    proof {
        lemma_batch_accepted(balance as int, max_deduct as int, items@);
    }
    Ok(running)
}

} // verus!
