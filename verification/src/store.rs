//! The record store: settlement records and buyer accounts.
//!
//! One settlement record per payment identifier is the idempotency
//! invariant: a resubmitted claim with the same identifier can never
//! create a second record. One buyer account per wallet address is the
//! matching invariant for users. Records are created in the pending
//! state, move exactly once to confirmed or failed, and are never
//! deleted: they are the audit trail.

use vstd::prelude::*;
use crate::bytes::{bytes_eq, copy_bytes};
use crate::claim::PaymentMethod;
use crate::user::UserAccount;

verus! {

/// Where a settlement record stands in its lifecycle.
#[derive(Clone, Copy, PartialEq, Eq, Structural, Debug)]
pub enum SettlementStatus {
    /// Created after verification, before the transfer is attempted.
    Pending,
    /// Tokens delivered; terminal.
    Confirmed,
    /// Transfer definitively failed; terminal, flagged for remediation.
    Failed,
}

impl SettlementStatus {
    /// A terminal status admits no further transition.
    pub open spec fn is_terminal(&self) -> bool {
        *self is Confirmed || *self is Failed
    }
}

/// The persisted outcome of one settlement, keyed uniquely by payment
/// identifier.
pub struct SettlementRecord {
    pub id: u64,
    pub user_id: u64,
    pub payment_identifier: Vec<u8>,
    /// Whole presale tokens bought.
    pub token_amount: u64,
    /// Native base units paid for them.
    pub native_amount: u64,
    pub payment_method: PaymentMethod,
    pub status: SettlementStatus,
    /// The slot of the delivery transaction, once confirmed.
    pub ledger_slot: Option<u64>,
    /// The delivery transaction's signature, once confirmed.
    pub confirmation_signature: Option<Vec<u8>>,
    /// When the record left the pending state.
    pub processed_at: Option<u64>,
    pub created_at: u64,
}

/// Why an insert was refused.
#[derive(Clone, Copy, PartialEq, Eq, Structural, Debug)]
pub enum InsertError {
    /// A record with this payment identifier already exists.
    DuplicateKey,
}

/// Why a status update was refused.
#[derive(Clone, Copy, PartialEq, Eq, Structural, Debug)]
pub enum UpdateError {
    /// No record carries the given identifier.
    RecordNotFound,
    /// The record is already confirmed or failed; terminal states admit
    /// no further transition.
    AlreadyTerminal,
}

/// The store of settlement records and buyer accounts. The deployment's
/// relational store enforces the same two uniqueness keys; this is its
/// verified model, and the coordinator's single source of mutual
/// exclusion.
pub struct RecordStore {
    pub records: Vec<SettlementRecord>,
    pub users: Vec<UserAccount>,
    pub next_record_id: u64,
    pub next_user_id: u64,
}

/// The record `before`, moved to `status` with the given proof data at
/// time `now`; everything else unchanged.
pub open spec fn record_updated(
    before: SettlementRecord,
    after: SettlementRecord,
    status: SettlementStatus,
    ledger_slot: Option<u64>,
    confirmation_signature: Option<Vec<u8>>,
    now: u64,
) -> bool {
    &&& after.id == before.id
    &&& after.user_id == before.user_id
    &&& after.payment_identifier@ == before.payment_identifier@
    &&& after.token_amount == before.token_amount
    &&& after.native_amount == before.native_amount
    &&& after.payment_method == before.payment_method
    &&& after.status == status
    &&& after.ledger_slot == ledger_slot
    &&& after.confirmation_signature == confirmation_signature
    &&& after.processed_at == Some(now)
    &&& after.created_at == before.created_at
}

impl RecordStore {
    /// The store's invariant: payment identifiers and record ids are
    /// unique, record ids stay below the next free one, and the same
    /// holds for wallet addresses and user ids.
    pub open spec fn wf(&self) -> bool {
        &&& forall|i: int, j: int|
            #![trigger self.records@[i], self.records@[j]]
            0 <= i < j < self.records@.len() ==> self.records@[i].payment_identifier@
                != self.records@[j].payment_identifier@ && self.records@[i].id
                != self.records@[j].id
        &&& forall|i: int|
            0 <= i < self.records@.len() ==> (#[trigger] self.records@[i]).id
                < self.next_record_id
        &&& forall|i: int, j: int|
            #![trigger self.users@[i], self.users@[j]]
            0 <= i < j < self.users@.len() ==> self.users@[i].wallet_address@
                != self.users@[j].wallet_address@ && self.users@[i].id != self.users@[j].id
        &&& forall|i: int|
            0 <= i < self.users@.len() ==> (#[trigger] self.users@[i]).id < self.next_user_id
    }

    /// Some record carries this payment identifier.
    pub open spec fn spec_has_record_for(&self, pid: Seq<u8>) -> bool {
        exists|i: int|
            0 <= i < self.records@.len() && (#[trigger] self.records@[i]).payment_identifier@
                == pid
    }

    /// The position of the record carrying this payment identifier.
    pub open spec fn spec_record_index_for(&self, pid: Seq<u8>) -> int {
        choose|i: int|
            0 <= i < self.records@.len() && (#[trigger] self.records@[i]).payment_identifier@
                == pid
    }

    /// The record carrying this payment identifier.
    pub open spec fn spec_record_for(&self, pid: Seq<u8>) -> SettlementRecord {
        self.records@[self.spec_record_index_for(pid)]
    }

    /// Some record carries this id.
    pub open spec fn spec_has_record_with_id(&self, id: u64) -> bool {
        exists|i: int| 0 <= i < self.records@.len() && (#[trigger] self.records@[i]).id == id
    }

    /// The position of the record carrying this id.
    pub open spec fn spec_record_index_with_id(&self, id: u64) -> int {
        choose|i: int| 0 <= i < self.records@.len() && (#[trigger] self.records@[i]).id == id
    }

    /// The record carrying this id.
    pub open spec fn spec_record_with_id(&self, id: u64) -> SettlementRecord {
        self.records@[self.spec_record_index_with_id(id)]
    }

    /// Some account owns this wallet address.
    pub open spec fn spec_has_user_for(&self, wallet: Seq<u8>) -> bool {
        exists|i: int|
            0 <= i < self.users@.len() && (#[trigger] self.users@[i]).wallet_address@ == wallet
    }

    /// The position of the account owning this wallet address.
    pub open spec fn spec_user_index_for(&self, wallet: Seq<u8>) -> int {
        choose|i: int|
            0 <= i < self.users@.len() && (#[trigger] self.users@[i]).wallet_address@ == wallet
    }

    /// The account owning this wallet address.
    pub open spec fn spec_user_for(&self, wallet: Seq<u8>) -> UserAccount {
        self.users@[self.spec_user_index_for(wallet)]
    }

    /// Some account carries this id.
    pub open spec fn spec_has_user_with_id(&self, id: u64) -> bool {
        exists|i: int| 0 <= i < self.users@.len() && (#[trigger] self.users@[i]).id == id
    }

    /// The position of the account carrying this id.
    pub open spec fn spec_user_index_with_id(&self, id: u64) -> int {
        choose|i: int| 0 <= i < self.users@.len() && (#[trigger] self.users@[i]).id == id
    }

    /// The account carrying this id.
    pub open spec fn spec_user_with_id(&self, id: u64) -> UserAccount {
        self.users@[self.spec_user_index_with_id(id)]
    }

    /// Law: one record per payment identifier. In a well-formed store,
    /// two records carrying the same payment identifier are one and the
    /// same record — the invariant that makes resettling an identifier
    /// answer from the stored record instead of minting again.
    pub proof fn lemma_one_record_per_identifier(&self, i: int, j: int)
        requires
            self.wf(),
            0 <= i < self.records@.len(),
            0 <= j < self.records@.len(),
            self.records@[i].payment_identifier@ == self.records@[j].payment_identifier@,
        ensures
            i == j,
    {
        if i < j {
            assert(self.records@[i].payment_identifier@ != self.records@[j].payment_identifier@);
        }
        if j < i {
            assert(self.records@[j].payment_identifier@ != self.records@[i].payment_identifier@);
        }
    }

    /// An empty store.
    pub fn new() -> (s: RecordStore)
        ensures
            s.wf(),
            s.records@.len() == 0,
            s.users@.len() == 0,
            s.next_record_id == 1,
            s.next_user_id == 1,
    {
        RecordStore { records: Vec::new(), users: Vec::new(), next_record_id: 1, next_user_id: 1 }
    }

    /// In a well-formed store, a record matching a payment identifier at
    /// position `i` is the record the lookup functions speak of.
    pub proof fn lemma_record_index_for_is(&self, pid: Seq<u8>, i: int)
        requires
            self.wf(),
            0 <= i < self.records@.len(),
            self.records@[i].payment_identifier@ == pid,
        ensures
            self.spec_has_record_for(pid),
            self.spec_record_index_for(pid) == i,
            self.spec_record_for(pid) == self.records@[i],
    {
        assert(self.spec_has_record_for(pid));
        let c = self.spec_record_index_for(pid);
        if c != i {
            assert(self.records@[c].payment_identifier@ == pid);
            if c < i {
                assert(self.records@[c].payment_identifier@ != self.records@[i].payment_identifier@);
            } else {
                assert(self.records@[i].payment_identifier@ != self.records@[c].payment_identifier@);
            }
        }
    }

    /// In a well-formed store, a record matching an id at position `i` is
    /// the record the lookup functions speak of.
    pub proof fn lemma_record_index_with_id_is(&self, id: u64, i: int)
        requires
            self.wf(),
            0 <= i < self.records@.len(),
            self.records@[i].id == id,
        ensures
            self.spec_has_record_with_id(id),
            self.spec_record_index_with_id(id) == i,
            self.spec_record_with_id(id) == self.records@[i],
    {
        assert(self.spec_has_record_with_id(id));
        let c = self.spec_record_index_with_id(id);
        if c != i {
            assert(self.records@[c].id == id);
            if c < i {
                assert(self.records@[c].id != self.records@[i].id);
            } else {
                assert(self.records@[i].id != self.records@[c].id);
            }
        }
    }

    /// In a well-formed store, an account matching a wallet at position
    /// `i` is the account the lookup functions speak of.
    pub proof fn lemma_user_index_for_is(&self, wallet: Seq<u8>, i: int)
        requires
            self.wf(),
            0 <= i < self.users@.len(),
            self.users@[i].wallet_address@ == wallet,
        ensures
            self.spec_has_user_for(wallet),
            self.spec_user_index_for(wallet) == i,
            self.spec_user_for(wallet) == self.users@[i],
    {
        assert(self.spec_has_user_for(wallet));
        let c = self.spec_user_index_for(wallet);
        if c != i {
            assert(self.users@[c].wallet_address@ == wallet);
            if c < i {
                assert(self.users@[c].wallet_address@ != self.users@[i].wallet_address@);
            } else {
                assert(self.users@[i].wallet_address@ != self.users@[c].wallet_address@);
            }
        }
    }

    /// In a well-formed store, an account matching an id at position `i`
    /// is the account the lookup functions speak of.
    pub proof fn lemma_user_index_with_id_is(&self, id: u64, i: int)
        requires
            self.wf(),
            0 <= i < self.users@.len(),
            self.users@[i].id == id,
        ensures
            self.spec_has_user_with_id(id),
            self.spec_user_index_with_id(id) == i,
            self.spec_user_with_id(id) == self.users@[i],
    {
        assert(self.spec_has_user_with_id(id));
        let c = self.spec_user_index_with_id(id);
        if c != i {
            assert(self.users@[c].id == id);
            if c < i {
                assert(self.users@[c].id != self.users@[i].id);
            } else {
                assert(self.users@[i].id != self.users@[c].id);
            }
        }
    }

    /// Looks a settlement record up by its payment identifier.
    pub fn find_by_payment_identifier(&self, payment_identifier: &Vec<u8>) -> (r: Option<
        &SettlementRecord,
    >)
        requires
            self.wf(),
        ensures
            r is Some <==> self.spec_has_record_for(payment_identifier@),
            r matches Some(rec) ==> *rec == self.spec_record_for(payment_identifier@),
    {
        let mut k: usize = 0;
        while k < self.records.len()
            invariant
                self.wf(),
                k <= self.records@.len(),
                forall|j: int|
                    0 <= j < k ==> (#[trigger] self.records@[j]).payment_identifier@
                        != payment_identifier@,
            decreases self.records@.len() - k,
        {
            if bytes_eq(&self.records[k].payment_identifier, payment_identifier) {
                proof {
                    self.lemma_record_index_for_is(payment_identifier@, k as int);
                }
                return Some(&self.records[k]);
            }
            k = k + 1;
        }
        None
    }

    /// Looks a settlement record up by its id.
    pub fn record_by_id(&self, id: u64) -> (r: Option<&SettlementRecord>)
        requires
            self.wf(),
        ensures
            r is Some <==> self.spec_has_record_with_id(id),
            r matches Some(rec) ==> *rec == self.spec_record_with_id(id),
    {
        let mut k: usize = 0;
        while k < self.records.len()
            invariant
                self.wf(),
                k <= self.records@.len(),
                forall|j: int| 0 <= j < k ==> (#[trigger] self.records@[j]).id != id,
            decreases self.records@.len() - k,
        {
            if self.records[k].id == id {
                proof {
                    self.lemma_record_index_with_id_is(id, k as int);
                }
                return Some(&self.records[k]);
            }
            k = k + 1;
        }
        None
    }

    /// Looks a buyer account up by its id.
    pub fn user_by_id(&self, id: u64) -> (r: Option<&UserAccount>)
        requires
            self.wf(),
        ensures
            r is Some <==> self.spec_has_user_with_id(id),
            r matches Some(u) ==> *u == self.spec_user_with_id(id),
    {
        let mut k: usize = 0;
        while k < self.users.len()
            invariant
                self.wf(),
                k <= self.users@.len(),
                forall|j: int| 0 <= j < k ==> (#[trigger] self.users@[j]).id != id,
            decreases self.users@.len() - k,
        {
            if self.users[k].id == id {
                proof {
                    self.lemma_user_index_with_id_is(id, k as int);
                }
                return Some(&self.users[k]);
            }
            k = k + 1;
        }
        None
    }

    /// Resolves the buyer account for a wallet, creating it on first
    /// contact: the idempotent upsert keyed on wallet address. A created
    /// account starts unwhitelisted, tier zero, unreferred, carrying the
    /// given fresh referral code. Returns the account's id; settlement
    /// records are never touched.
    pub fn find_or_create_user(&mut self, wallet_address: &Vec<u8>, referral_code: Vec<u8>) -> (id:
        u64)
        requires
            old(self).wf(),
            old(self).next_user_id < u64::MAX,
        ensures
            final(self).wf(),
            final(self).records@ == old(self).records@,
            final(self).next_record_id == old(self).next_record_id,
            old(self).spec_has_user_for(wallet_address@) ==> *final(self) == *old(self) && id == old(self).spec_user_for(wallet_address@).id,
            !old(self).spec_has_user_for(wallet_address@) ==> {
                &&& id == old(self).next_user_id
                &&& final(self).next_user_id == old(self).next_user_id + 1
                &&& final(self).users@.len() == old(self).users@.len() + 1
                &&& forall|k: int|
                    0 <= k < old(self).users@.len() ==> final(self).users@[k] == old(self).users@[k]
                &&& final(self).users@.last() == (UserAccount {
                    id,
                    wallet_address: final(self).users@.last().wallet_address,
                    is_whitelisted: false,
                    whitelist_tier: 0,
                    referred_by: None,
                    referral_code,
                })
                &&& final(self).users@.last().wallet_address@ == wallet_address@
            },
            final(self).spec_has_user_for(wallet_address@),
            final(self).spec_user_for(wallet_address@).id == id,
            final(self).spec_has_user_with_id(id),
            final(self).spec_user_with_id(id) == final(self).spec_user_for(wallet_address@),
    {
        let mut k: usize = 0;
        while k < self.users.len()
            invariant
                self.wf(),
                k <= self.users@.len(),
                forall|j: int|
                    0 <= j < k ==> (#[trigger] self.users@[j]).wallet_address@
                        != wallet_address@,
            decreases self.users@.len() - k,
        {
            if bytes_eq(&self.users[k].wallet_address, wallet_address) {
                let id = self.users[k].id;
                proof {
                    self.lemma_user_index_for_is(wallet_address@, k as int);
                    self.lemma_user_index_with_id_is(id, k as int);
                }
                return id;
            }
            k = k + 1;
        }
        let id = self.next_user_id;
        let user = UserAccount {
            id,
            wallet_address: copy_bytes(wallet_address),
            is_whitelisted: false,
            whitelist_tier: 0,
            referred_by: None,
            referral_code,
        };
        self.users.push(user);
        self.next_user_id = self.next_user_id + 1;
        proof {
            let n = old(self).users@.len() as int;
            assert forall|i: int, j: int|
                0 <= i < j < self.users@.len() implies (#[trigger] self.users@[i]).wallet_address@
                != (#[trigger] self.users@[j]).wallet_address@ && self.users@[i].id
                != self.users@[j].id by {
                if j < n {
                } else {
                    assert(self.users@[j] == self.users@.last());
                    assert(self.users@[i] == old(self).users@[i]);
                    assert(old(self).users@[i].id < old(self).next_user_id);
                    assert(old(self).users@[i].wallet_address@ != wallet_address@);
                }
            }
            self.lemma_user_index_for_is(wallet_address@, n);
            self.lemma_user_index_with_id_is(id, n);
        }
        id
    }

    /// Creates the pending settlement record for a verified claim,
    /// enforcing the idempotency key: if any record already carries this
    /// payment identifier, nothing is written and the duplicate is
    /// reported. On success the fresh record's id is returned.
    pub fn insert_pending(
        &mut self,
        user_id: u64,
        payment_identifier: Vec<u8>,
        token_amount: u64,
        native_amount: u64,
        payment_method: PaymentMethod,
        now: u64,
    ) -> (r: Result<u64, InsertError>)
        requires
            old(self).wf(),
            old(self).next_record_id < u64::MAX,
        ensures
            final(self).wf(),
            final(self).users@ == old(self).users@,
            final(self).next_user_id == old(self).next_user_id,
            r is Ok <==> !old(self).spec_has_record_for(payment_identifier@),
            r matches Err(e) ==> *final(self) == *old(self) && e == InsertError::DuplicateKey,
            r matches Ok(id) ==> {
                &&& id == old(self).next_record_id
                &&& final(self).next_record_id == old(self).next_record_id + 1
                &&& final(self).records@ == old(self).records@.push(
                    SettlementRecord {
                        id,
                        user_id,
                        payment_identifier,
                        token_amount,
                        native_amount,
                        payment_method,
                        status: SettlementStatus::Pending,
                        ledger_slot: None,
                        confirmation_signature: None,
                        processed_at: None,
                        created_at: now,
                    },
                )
                &&& final(self).spec_has_record_for(payment_identifier@)
                &&& final(self).spec_record_for(payment_identifier@) == final(self).records@.last()
                &&& final(self).spec_has_record_with_id(id)
                &&& final(self).spec_record_with_id(id) == final(self).records@.last()
            },
    {
        let mut k: usize = 0;
        while k < self.records.len()
            invariant
                self.wf(),
                k <= self.records@.len(),
                forall|j: int|
                    0 <= j < k ==> (#[trigger] self.records@[j]).payment_identifier@
                        != payment_identifier@,
            decreases self.records@.len() - k,
        {
            if bytes_eq(&self.records[k].payment_identifier, &payment_identifier) {
                proof {
                    self.lemma_record_index_for_is(payment_identifier@, k as int);
                }
                return Err(InsertError::DuplicateKey);
            }
            k = k + 1;
        }
        let id = self.next_record_id;
        let record = SettlementRecord {
            id,
            user_id,
            payment_identifier,
            token_amount,
            native_amount,
            payment_method,
            status: SettlementStatus::Pending,
            ledger_slot: None,
            confirmation_signature: None,
            processed_at: None,
            created_at: now,
        };
        self.records.push(record);
        self.next_record_id = self.next_record_id + 1;
        proof {
            let n = old(self).records@.len() as int;
            assert forall|i: int, j: int|
                0 <= i < j < self.records@.len() implies (#[trigger] self.records@[i]).payment_identifier@
                != (#[trigger] self.records@[j]).payment_identifier@ && self.records@[i].id
                != self.records@[j].id by {
                if j < n {
                } else {
                    assert(self.records@[j] == self.records@.last());
                    assert(self.records@[i] == old(self).records@[i]);
                    assert(old(self).records@[i].id < old(self).next_record_id);
                }
            }
            self.lemma_record_index_for_is(payment_identifier@, n);
            self.lemma_record_index_with_id_is(id, n);
        }
        Ok(id)
    }

    /// Moves the record with `record_id` out of the pending state. This
    /// is the only transition the store admits: a record that is already
    /// confirmed or failed is terminal, and the update is refused with
    /// the store unchanged. The delivery proof (slot and signature) and
    /// the processing time are written with the new status.
    pub fn update_status(
        &mut self,
        record_id: u64,
        status: SettlementStatus,
        ledger_slot: Option<u64>,
        confirmation_signature: Option<Vec<u8>>,
        now: u64,
    ) -> (r: Result<(), UpdateError>)
        requires
            old(self).wf(),
            status.is_terminal(),
        ensures
            final(self).wf(),
            final(self).users@ == old(self).users@,
            final(self).next_user_id == old(self).next_user_id,
            final(self).next_record_id == old(self).next_record_id,
            r is Ok <==> old(self).spec_has_record_with_id(record_id) && old(self).spec_record_with_id(record_id).status is Pending,
            r matches Err(e) ==> *final(self) == *old(self) && {
                &&& e == UpdateError::RecordNotFound <==> !old(self).spec_has_record_with_id(
                    record_id,
                )
                &&& e == UpdateError::AlreadyTerminal <==> old(self).spec_has_record_with_id(
                    record_id,
                ) && old(self).spec_record_with_id(record_id).status.is_terminal()
            },
            r is Ok ==> {
                &&& final(self).records@.len() == old(self).records@.len()
                &&& forall|k: int|
                    0 <= k < old(self).records@.len() && k != old(self).spec_record_index_with_id(
                        record_id,
                    ) ==> final(self).records@[k] == old(self).records@[k]
                &&& record_updated(
                    old(self).records@[old(self).spec_record_index_with_id(record_id)],
                    final(self).records@[old(self).spec_record_index_with_id(record_id)],
                    status,
                    ledger_slot,
                    confirmation_signature,
                    now,
                )
                &&& final(self).spec_record_index_with_id(record_id) == old(self).spec_record_index_with_id(record_id)
                &&& final(self).spec_record_with_id(record_id).status == status
            },
    {
        let position = self.record_position(record_id);
        let k = match position {
            Some(k) => k,
            None => {
                return Err(UpdateError::RecordNotFound);
            },
        };
        if !matches!(self.records[k].status, SettlementStatus::Pending) {
            return Err(UpdateError::AlreadyTerminal);
        }
        let before = &self.records[k];
        let updated = SettlementRecord {
            id: before.id,
            user_id: before.user_id,
            payment_identifier: copy_bytes(&before.payment_identifier),
            token_amount: before.token_amount,
            native_amount: before.native_amount,
            payment_method: before.payment_method,
            status,
            ledger_slot,
            confirmation_signature,
            processed_at: Some(now),
            created_at: before.created_at,
        };
        self.records[k] = updated;
        proof {
            assert forall|i: int, j: int|
                0 <= i < j < self.records@.len() implies (
            #[trigger] self.records@[i]).payment_identifier@ != (
            #[trigger] self.records@[j]).payment_identifier@ && self.records@[i].id
                != self.records@[j].id by {
                assert(old(self).records@[i].payment_identifier@ != old(
                    self,
                ).records@[j].payment_identifier@);
                assert(old(self).records@[i].id != old(self).records@[j].id);
            }
            self.lemma_record_index_with_id_is(record_id, k as int);
        }
        Ok(())
    }

    /// Records what the whitelist collaborator knows of a buyer: the
    /// whitelist flag, the tier, and the referral link. The account's
    /// identity — id, wallet address, referral code — never changes, no
    /// other account is touched, and settlement records are never
    /// touched. Returns whether the account exists; when it does not,
    /// nothing changes.
    pub fn update_user_profile(
        &mut self,
        user_id: u64,
        is_whitelisted: bool,
        whitelist_tier: u32,
        referred_by: Option<u64>,
    ) -> (found: bool)
        requires
            old(self).wf(),
        ensures
            final(self).wf(),
            final(self).records@ == old(self).records@,
            final(self).next_record_id == old(self).next_record_id,
            final(self).next_user_id == old(self).next_user_id,
            found <==> old(self).spec_has_user_with_id(user_id),
            !found ==> *final(self) == *old(self),
            found ==> {
                &&& final(self).users@.len() == old(self).users@.len()
                &&& forall|k: int|
                    0 <= k < old(self).users@.len() && k != old(self).spec_user_index_with_id(
                        user_id,
                    ) ==> final(self).users@[k] == old(self).users@[k]
                &&& {
                    let before = old(self).users@[old(self).spec_user_index_with_id(user_id)];
                    let after = final(self).users@[old(self).spec_user_index_with_id(user_id)];
                    &&& after.id == before.id
                    &&& after.wallet_address@ == before.wallet_address@
                    &&& after.referral_code@ == before.referral_code@
                    &&& after.is_whitelisted == is_whitelisted
                    &&& after.whitelist_tier == whitelist_tier
                    &&& after.referred_by == referred_by
                }
                &&& final(self).spec_user_index_with_id(user_id) == old(
                    self,
                ).spec_user_index_with_id(user_id)
                &&& final(self).spec_user_with_id(user_id).is_whitelisted == is_whitelisted
                &&& final(self).spec_user_with_id(user_id).referred_by == referred_by
            },
    {
        let position = self.user_position(user_id);
        let k = match position {
            Some(k) => k,
            None => {
                return false;
            },
        };
        let before = &self.users[k];
        let updated = UserAccount {
            id: before.id,
            wallet_address: copy_bytes(&before.wallet_address),
            is_whitelisted,
            whitelist_tier,
            referred_by,
            referral_code: copy_bytes(&before.referral_code),
        };
        self.users[k] = updated;
        proof {
            assert forall|i: int, j: int|
                0 <= i < j < self.users@.len() implies (
            #[trigger] self.users@[i]).wallet_address@ != (
            #[trigger] self.users@[j]).wallet_address@ && self.users@[i].id
                != self.users@[j].id by {
                assert(old(self).users@[i].wallet_address@ != old(
                    self,
                ).users@[j].wallet_address@);
                assert(old(self).users@[i].id != old(self).users@[j].id);
            }
            self.lemma_user_index_with_id_is(user_id, k as int);
        }
        true
    }

    /// The position of the account carrying `user_id`, if any.
    fn user_position(&self, user_id: u64) -> (r: Option<usize>)
        requires
            self.wf(),
        ensures
            r is Some <==> self.spec_has_user_with_id(user_id),
            r matches Some(k) ==> k < self.users@.len() && self.users@[k as int].id == user_id
                && self.spec_user_index_with_id(user_id) == k,
    {
        let mut k: usize = 0;
        while k < self.users.len()
            invariant
                self.wf(),
                k <= self.users@.len(),
                forall|j: int| 0 <= j < k ==> (#[trigger] self.users@[j]).id != user_id,
            decreases self.users@.len() - k,
        {
            if self.users[k].id == user_id {
                proof {
                    self.lemma_user_index_with_id_is(user_id, k as int);
                }
                return Some(k);
            }
            k = k + 1;
        }
        None
    }

    /// The position of the record carrying `record_id`, if any.
    fn record_position(&self, record_id: u64) -> (r: Option<usize>)
        requires
            self.wf(),
        ensures
            r is Some <==> self.spec_has_record_with_id(record_id),
            r matches Some(k) ==> k < self.records@.len() && self.records@[k as int].id
                == record_id && self.spec_record_index_with_id(record_id) == k,
    {
        let mut k: usize = 0;
        while k < self.records.len()
            invariant
                self.wf(),
                k <= self.records@.len(),
                forall|j: int| 0 <= j < k ==> (#[trigger] self.records@[j]).id != record_id,
            decreases self.records@.len() - k,
        {
            if self.records[k].id == record_id {
                proof {
                    self.lemma_record_index_with_id_is(record_id, k as int);
                }
                return Some(k);
            }
            k = k + 1;
        }
        None
    }
}

} // verus!
