//! The escrow vault: a counter-indexed store of transactions. A buyer
//! deposits native value, which locks the transaction; a designated approver
//! may release the funds to the seller, but only within a fixed settlement
//! window measured from the deposit.

use vstd::prelude::*;

use crate::AccountId;
use crate::Error;

verus! {

/// The settlement window: an approval is accepted until exactly this many
/// seconds after the deposit, inclusive.
pub const SETTLEMENT_WINDOW_SECS: u64 = 86400;

/// One escrow transaction. The three roles are fixed at creation; the
/// balance, timestamp and flags evolve through deposit and approval.
#[derive(Debug)]
pub struct Transaction {
    /// The creator of the transaction, the only identity that may deposit.
    pub buyer: AccountId,
    /// The identity the funds are released to at settlement.
    pub seller: AccountId,
    /// The only identity that may approve the release.
    pub approver: AccountId,
    /// The deposited native value currently held; zero whenever unlocked.
    pub native_balance: u128,
    /// Per-asset deposited amounts; declared for observers but never
    /// populated by any operation.
    pub token_balances: Vec<(AccountId, u128)>,
    /// The asset contracts deposited so far; declared but never populated.
    pub deposited_tokens: Vec<AccountId>,
    /// The time of the accepted deposit; zero until a deposit occurs.
    pub deposit_timestamp: u64,
    /// Set on a successful deposit; cleared once settlement completes.
    pub is_locked: bool,
    /// Set exactly once, on a successful approval, and never reverted.
    pub is_approved: bool,
}

/// Notification that a transaction was created and its roles fixed.
#[derive(Clone, Copy, Debug, PartialEq, Eq, Structural)]
pub struct RolesAssigned {
    pub transaction_id: u128,
    pub buyer: AccountId,
    pub seller: AccountId,
    pub approver: AccountId,
}

/// Notification that value was deposited; `token` is the asset contract for
/// a token deposit and `None` for a native-value deposit.
#[derive(Clone, Copy, Debug, PartialEq, Eq, Structural)]
pub struct Deposited {
    pub transaction_id: u128,
    pub token: Option<AccountId>,
    pub from: AccountId,
    pub amount: u128,
}

/// Notification that a transaction was approved.
#[derive(Clone, Copy, Debug, PartialEq, Eq, Structural)]
pub struct Approved {
    pub transaction_id: u128,
}

/// Notification of a rejection; declared for observers but never emitted by
/// any operation.
#[derive(Clone, Copy, Debug, PartialEq, Eq, Structural)]
pub struct Rejected {
    pub transaction_id: u128,
}

/// Notification of a cancellation; declared but never emitted.
#[derive(Clone, Copy, Debug, PartialEq, Eq, Structural)]
pub struct Cancelled {
    pub transaction_id: u128,
}

/// Notification that the held native value was released to `to`.
#[derive(Clone, Copy, Debug, PartialEq, Eq, Structural)]
pub struct FundsTransferred {
    pub transaction_id: u128,
    pub to: AccountId,
    pub amount: u128,
}

/// Notification of a token release; declared but never emitted.
#[derive(Clone, Copy, Debug, PartialEq, Eq, Structural)]
pub struct TokensTransferred {
    pub transaction_id: u128,
    pub token: AccountId,
    pub to: AccountId,
    pub amount: u128,
}

/// A request to the external native-value transfer collaborator: send
/// `amount` to `to`. The host performs it and aborts the whole call if the
/// collaborator reports failure.
#[derive(Clone, Copy, Debug, PartialEq, Eq, Structural)]
pub struct NativeTransferRequest {
    pub to: AccountId,
    pub amount: u128,
}

/// The escrow vault: every transaction ever created, keyed by id, and the
/// count from which the next id is assigned.
pub struct Vault {
    /// The transaction with id `i` is `transactions[i - 1]`; ids start at 1.
    pub transactions: Vec<Transaction>,
    /// How many transactions exist; the next id assigned is this plus one.
    pub transaction_count: u128,
}

impl Transaction {
    /// The per-transaction invariant: the vault holds value exactly while
    /// locked, and the token-deposit features stay inert.
    pub open spec fn inv(self) -> bool {
        &&& self.is_locked <==> self.native_balance > 0
        &&& self.token_balances@.len() == 0
        &&& self.deposited_tokens@.len() == 0
    }
}

impl Vault {
    /// The vault's invariant: the count equals the number of stored
    /// transactions, so the ids assigned so far are exactly 1 ..=
    /// transaction_count, and every transaction satisfies its own invariant.
    pub open spec fn wf(self) -> bool {
        &&& self.transaction_count == self.transactions@.len()
        &&& forall|j: int|
            0 <= j < self.transactions@.len() ==> (#[trigger] self.transactions@[j]).inv()
    }

    /// Whether a transaction with this id exists.
    pub open spec fn has_txn(self, transaction_id: u128) -> bool {
        &&& 1 <= transaction_id
        &&& transaction_id as int - 1 < self.transactions@.len()
    }

    /// The stored transaction with this id.
    pub open spec fn txn_at(self, transaction_id: u128) -> Transaction {
        self.transactions@[transaction_id as int - 1]
    }

    /// The error, if any, with which a deposit of `value` into
    /// `transaction_id` by `caller` fails. Checked in this order: the
    /// transaction must exist, the caller must be its buyer, it must not
    /// already be locked, and the attached value must be positive.
    pub open spec fn deposit_err(
        self,
        caller: AccountId,
        transaction_id: u128,
        value: u128,
    ) -> Option<Error> {
        if !self.has_txn(transaction_id) {
            Some(Error::NotFound)
        } else if caller != self.txn_at(transaction_id).buyer {
            Some(Error::Unauthorized)
        } else if self.txn_at(transaction_id).is_locked {
            Some(Error::InvalidState)
        } else if value == 0 {
            Some(Error::InvalidInput)
        } else {
            None
        }
    }

    /// The error, if any, with which an approval of `transaction_id` by
    /// `caller` at time `now` fails. Checked in this order: the transaction
    /// must exist, the caller must be its approver, funds must be locked in,
    /// and the settlement deadline — the deposit time plus the settlement
    /// window, inclusive — must not have passed.
    pub open spec fn approve_err(
        self,
        caller: AccountId,
        transaction_id: u128,
        now: u64,
    ) -> Option<Error> {
        if !self.has_txn(transaction_id) {
            Some(Error::NotFound)
        } else if caller != self.txn_at(transaction_id).approver {
            Some(Error::Unauthorized)
        } else if !self.txn_at(transaction_id).is_locked {
            Some(Error::InvalidState)
        } else if now > self.txn_at(transaction_id).deposit_timestamp
            + SETTLEMENT_WINDOW_SECS {
            Some(Error::Expired)
        } else {
            None
        }
    }

    /// A fresh vault with no transactions and the count at 0, so the first
    /// assigned id is 1.
    pub fn new() -> (vault: Self)
        ensures
            vault.wf(),
            vault.transaction_count == 0,
            vault.transactions@.len() == 0,
    {
        Vault { transactions: Vec::new(), transaction_count: 0 }
    }

    /// Creates a transaction: the caller becomes the buyer, the two given
    /// identities become seller and approver, and the new id — one more than
    /// the previous count — is returned with the notification to emit. All
    /// balances and flags start at their defaults. Never fails.
    pub fn create_transaction(
        &mut self,
        caller: AccountId,
        seller: AccountId,
        approver: AccountId,
    ) -> (r: (u128, RolesAssigned))
        requires
            old(self).wf(),
        ensures
            final(self).wf(),
            r.0 == old(self).transaction_count + 1,
            final(self).transaction_count == old(self).transaction_count + 1,
            final(self).transactions@.len() == old(self).transactions@.len() + 1,
            forall|j: int|
                0 <= j < old(self).transactions@.len()
                    ==> final(self).transactions@[j] == old(self).transactions@[j],
            final(self).has_txn(r.0),
            ({
                let t = final(self).txn_at(r.0);
                &&& t.buyer == caller
                &&& t.seller == seller
                &&& t.approver == approver
                &&& t.native_balance == 0
                &&& t.token_balances@.len() == 0
                &&& t.deposited_tokens@.len() == 0
                &&& t.deposit_timestamp == 0
                &&& !t.is_locked
                &&& !t.is_approved
            }),
            r.1 == (RolesAssigned { transaction_id: r.0, buyer: caller, seller, approver }),
    {
        proof {
            assert(self.transactions.len() == self.transactions@.len());
        }
        let transaction_id = self.transaction_count + 1;
        self.transaction_count = transaction_id;
        let txn = Transaction {
            buyer: caller,
            seller,
            approver,
            native_balance: 0,
            token_balances: Vec::new(),
            deposited_tokens: Vec::new(),
            deposit_timestamp: 0,
            is_locked: false,
            is_approved: false,
        };
        self.transactions.push(txn);
        (transaction_id, RolesAssigned { transaction_id, buyer: caller, seller, approver })
    }

    /// Deposits the value attached to the call into a transaction: adds it
    /// to the held balance (which is zero beforehand, so the balance becomes
    /// exactly the attached value), locks the transaction, and records the
    /// deposit time. Fails as `deposit_err` says; a failed call changes
    /// nothing.
    pub fn deposit_eth(
        &mut self,
        caller: AccountId,
        transaction_id: u128,
        value: u128,
        now: u64,
    ) -> (r: Result<Deposited, Error>)
        requires
            old(self).wf(),
        ensures
            final(self).wf(),
            r is Err <==> old(self).deposit_err(caller, transaction_id, value) is Some,
            old(self).deposit_err(caller, transaction_id, value) matches Some(e)
                ==> r == Err::<Deposited, Error>(e) && *final(self) == *old(self),
            old(self).deposit_err(caller, transaction_id, value) is None ==> ({
                let t0 = old(self).txn_at(transaction_id);
                let t1 = final(self).txn_at(transaction_id);
                &&& r == Ok::<Deposited, Error>(
                    Deposited { transaction_id, token: None, from: caller, amount: value },
                )
                &&& t1.native_balance == t0.native_balance + value
                &&& t1.native_balance == value
                &&& t1.is_locked
                &&& t1.deposit_timestamp == now
                &&& t1.buyer == t0.buyer
                &&& t1.seller == t0.seller
                &&& t1.approver == t0.approver
                &&& t1.is_approved == t0.is_approved
                &&& t1.token_balances == t0.token_balances
                &&& t1.deposited_tokens == t0.deposited_tokens
                &&& final(self).transaction_count == old(self).transaction_count
                &&& final(self).transactions@.len() == old(self).transactions@.len()
                &&& forall|j: int|
                    0 <= j < old(self).transactions@.len() && j != transaction_id as int - 1
                        ==> final(self).transactions@[j] == old(self).transactions@[j]
            }),
    {
        if transaction_id < 1 || transaction_id > self.transaction_count {
            return Err(Error::NotFound);
        }
        proof {
            assert(self.transactions.len() == self.transactions@.len());
        }
        let idx = (transaction_id - 1) as usize;
        if caller != self.transactions[idx].buyer {
            return Err(Error::Unauthorized);
        }
        if self.transactions[idx].is_locked {
            return Err(Error::InvalidState);
        }
        if value == 0 {
            return Err(Error::InvalidInput);
        }
        let balance = self.transactions[idx].native_balance;
        self.transactions[idx].native_balance = balance + value;
        self.transactions[idx].is_locked = true;
        self.transactions[idx].deposit_timestamp = now;
        Ok(Deposited { transaction_id, token: None, from: caller, amount: value })
    }

    /// Approves a transaction within the settlement window: marks it
    /// approved, then settles at once — the full held balance is zeroed,
    /// released to the seller through the external transfer collaborator,
    /// and the lock is cleared. Fails as `approve_err` says; a failed call
    /// changes nothing. On success the returned request and notifications
    /// carry the full previously held amount, addressed to the seller.
    pub fn approve(
        &mut self,
        caller: AccountId,
        transaction_id: u128,
        now: u64,
    ) -> (r: Result<(Approved, Option<(NativeTransferRequest, FundsTransferred)>), Error>)
        requires
            old(self).wf(),
        ensures
            final(self).wf(),
            r is Err <==> old(self).approve_err(caller, transaction_id, now) is Some,
            old(self).approve_err(caller, transaction_id, now) matches Some(e)
                ==> r == Err::<(Approved, Option<(NativeTransferRequest, FundsTransferred)>), Error>(e)
                    && *final(self) == *old(self),
            old(self).approve_err(caller, transaction_id, now) is None ==> ({
                let t0 = old(self).txn_at(transaction_id);
                let t1 = final(self).txn_at(transaction_id);
                &&& r == Ok::<(Approved, Option<(NativeTransferRequest, FundsTransferred)>), Error>(
                    (
                        Approved { transaction_id },
                        Some((
                            NativeTransferRequest { to: t0.seller, amount: t0.native_balance },
                            FundsTransferred {
                                transaction_id,
                                to: t0.seller,
                                amount: t0.native_balance,
                            },
                        )),
                    ),
                )
                &&& t0.native_balance > 0
                &&& t1.native_balance == 0
                &&& !t1.is_locked
                &&& t1.is_approved
                &&& t1.buyer == t0.buyer
                &&& t1.seller == t0.seller
                &&& t1.approver == t0.approver
                &&& t1.deposit_timestamp == t0.deposit_timestamp
                &&& t1.token_balances == t0.token_balances
                &&& t1.deposited_tokens == t0.deposited_tokens
                &&& final(self).transaction_count == old(self).transaction_count
                &&& final(self).transactions@.len() == old(self).transactions@.len()
                &&& forall|j: int|
                    0 <= j < old(self).transactions@.len() && j != transaction_id as int - 1
                        ==> final(self).transactions@[j] == old(self).transactions@[j]
            }),
    {
        if transaction_id < 1 || transaction_id > self.transaction_count {
            return Err(Error::NotFound);
        }
        proof {
            assert(self.transactions.len() == self.transactions@.len());
        }
        let idx = (transaction_id - 1) as usize;
        if caller != self.transactions[idx].approver {
            return Err(Error::Unauthorized);
        }
        if !self.transactions[idx].is_locked {
            return Err(Error::InvalidState);
        }
        let deposit_timestamp = self.transactions[idx].deposit_timestamp;
        if (now as u128) > (deposit_timestamp as u128) + (SETTLEMENT_WINDOW_SECS as u128) {
            return Err(Error::Expired);
        }
        self.transactions[idx].is_approved = true;
        let transfer = self.transfer_funds(transaction_id);
        Ok((Approved { transaction_id }, transfer))
    }

    /// Settlement: if the transaction holds native value, zero the balance
    /// and request its transfer to the seller; unconditionally clear the
    /// lock. Returns the transfer request and notification, or nothing when
    /// no value was held.
    fn transfer_funds(&mut self, transaction_id: u128) -> (r: Option<
        (NativeTransferRequest, FundsTransferred),
    >)
        requires
            old(self).wf(),
            old(self).has_txn(transaction_id),
        ensures
            final(self).wf(),
            final(self).transaction_count == old(self).transaction_count,
            final(self).transactions@.len() == old(self).transactions@.len(),
            forall|j: int|
                0 <= j < old(self).transactions@.len() && j != transaction_id as int - 1
                    ==> final(self).transactions@[j] == old(self).transactions@[j],
            ({
                let t0 = old(self).txn_at(transaction_id);
                let t1 = final(self).txn_at(transaction_id);
                &&& t1.native_balance == 0
                &&& !t1.is_locked
                &&& t1.buyer == t0.buyer
                &&& t1.seller == t0.seller
                &&& t1.approver == t0.approver
                &&& t1.deposit_timestamp == t0.deposit_timestamp
                &&& t1.is_approved == t0.is_approved
                &&& t1.token_balances == t0.token_balances
                &&& t1.deposited_tokens == t0.deposited_tokens
                &&& t0.native_balance > 0 ==> r == Some(
                    (
                        NativeTransferRequest { to: t0.seller, amount: t0.native_balance },
                        FundsTransferred { transaction_id, to: t0.seller, amount: t0.native_balance },
                    ),
                )
                &&& t0.native_balance == 0 ==> r is None
            }),
    {
        proof {
            assert(self.transactions.len() == self.transactions@.len());
        }
        let idx = (transaction_id - 1) as usize;
        let balance = self.transactions[idx].native_balance;
        let result: Option<(NativeTransferRequest, FundsTransferred)> = if balance > 0 {
            let seller = self.transactions[idx].seller;
            self.transactions[idx].native_balance = 0;
            Some((
                NativeTransferRequest { to: seller, amount: balance },
                FundsTransferred { transaction_id, to: seller, amount: balance },
            ))
        } else {
            None
        };
        self.transactions[idx].is_locked = false;
        result
    }
}

/// In a well-formed vault the assigned transaction ids are exactly 1 through
/// the count. Together with `create_transaction`'s contract — each call
/// assigns one more than the previous count — the ids handed out over any
/// sequence of creations are 1, 2, 3, ...: starting at 1 and increasing by
/// one per call.
pub proof fn lemma_transaction_ids_are_counter_range(vault: Vault)
    requires
        vault.wf(),
    ensures
        forall|transaction_id: u128|
            vault.has_txn(transaction_id) <==> 1 <= transaction_id
                && transaction_id as int <= vault.transaction_count as int,
{
}

/// A deposit of zero value by the buyer into an unlocked transaction fails
/// with the invalid-input error.
pub proof fn lemma_zero_deposit_is_invalid_input(
    vault: Vault,
    caller: AccountId,
    transaction_id: u128,
)
    requires
        vault.has_txn(transaction_id),
        caller == vault.txn_at(transaction_id).buyer,
        !vault.txn_at(transaction_id).is_locked,
    ensures
        vault.deposit_err(caller, transaction_id, 0) == Some(Error::InvalidInput),
{
}

/// A second deposit by the buyer into an already-locked transaction fails
/// with the invalid-state error, whatever the attached value.
pub proof fn lemma_deposit_while_locked_is_invalid_state(
    vault: Vault,
    caller: AccountId,
    transaction_id: u128,
    value: u128,
)
    requires
        vault.has_txn(transaction_id),
        caller == vault.txn_at(transaction_id).buyer,
        vault.txn_at(transaction_id).is_locked,
    ensures
        vault.deposit_err(caller, transaction_id, value) == Some(Error::InvalidState),
{
}

/// An approval by any identity other than the transaction's approver — the
/// buyer and the seller included — fails with the unauthorized error.
pub proof fn lemma_non_approver_is_unauthorized(
    vault: Vault,
    caller: AccountId,
    transaction_id: u128,
    now: u64,
)
    requires
        vault.has_txn(transaction_id),
        caller != vault.txn_at(transaction_id).approver,
    ensures
        vault.approve_err(caller, transaction_id, now) == Some(Error::Unauthorized),
{
}

/// The settlement deadline is inclusive: an approval by the approver of a
/// locked transaction at exactly the deposit time plus the settlement window
/// is not refused, while one second later it fails with the expired error.
pub proof fn lemma_settlement_deadline_boundary(
    vault: Vault,
    caller: AccountId,
    transaction_id: u128,
    at_deadline: u64,
    past_deadline: u64,
)
    requires
        vault.has_txn(transaction_id),
        caller == vault.txn_at(transaction_id).approver,
        vault.txn_at(transaction_id).is_locked,
        at_deadline == vault.txn_at(transaction_id).deposit_timestamp
            + SETTLEMENT_WINDOW_SECS,
        past_deadline == vault.txn_at(transaction_id).deposit_timestamp
            + SETTLEMENT_WINDOW_SECS + 1,
    ensures
        vault.approve_err(caller, transaction_id, at_deadline) is None,
        vault.approve_err(caller, transaction_id, past_deadline) == Some(Error::Expired),
{
}

} // verus!
