//! The settlement coordinator.
//!
//! Settling a claim is a two-step state machine around one outside
//! action. `begin_settlement` runs everything up to the transfer:
//! validation, account resolution, eligibility, verification, and the
//! atomic creation of the pending record that is the idempotency
//! guarantee — a rejected claim leaves no record behind, and a duplicate
//! identifier is answered from the stored record without a second mint.
//! The caller then performs the one mint-and-deliver operation exactly
//! when told to proceed, and hands its outcome to
//! `complete_settlement`, which moves the record to its terminal state —
//! or, for an unconfirmed transfer, leaves it pending and flags it for an
//! operator's reconciliation instead of guessing. Side effects are
//! strictly ordered: the record exists before the transfer is attempted,
//! so a crash between the steps leaves a recoverable pending record,
//! never an untracked mint.

use vstd::prelude::*;
use crate::amounts::{
    expected_base_units, pow10, referral_bonus_base_units, spec_referral_bonus, to_base_units,
};
use crate::bytes::copy_bytes;
use crate::claim::{valid_address, valid_claim, valid_identifier, PurchaseClaim};
use crate::eligibility::{check_eligible, spec_eligible, AllocationEntry};
use crate::errors::{ClaimError, EligibilityError, InputError};
use crate::ledger::{FetchResult, MintOutcome};
use crate::store::{record_updated, RecordStore, SettlementRecord, SettlementStatus};
use crate::user::UserAccount;
use crate::verify::{
    spec_expected_units, spec_verification_error, verification_accepts, verify, SettlementConfig,
};

verus! {

/// The outbound result of a settlement, shaped for the caller: which
/// record it is, where it stands, and the delivery proof if there is one.
pub struct SettlementSummary {
    pub settlement_id: u64,
    pub status: SettlementStatus,
    pub ledger_signature: Option<Vec<u8>>,
    pub token_amount: u64,
    pub native_amount: u64,
}

/// The summary reports exactly this record.
pub open spec fn summary_matches(s: SettlementSummary, rec: SettlementRecord) -> bool {
    &&& s.settlement_id == rec.id
    &&& s.status == rec.status
    &&& (s.ledger_signature is Some <==> rec.confirmation_signature is Some)
    &&& (s.ledger_signature matches Some(sig) ==> rec.confirmation_signature matches Some(rs)
        && sig@ == rs@)
    &&& s.token_amount == rec.token_amount
    &&& s.native_amount == rec.native_amount
}

/// What `begin_settlement` decided.
pub enum BeginOutcome {
    /// The claim is rejected; no settlement record was created.
    Rejected(ClaimError),
    /// A record for this payment identifier already exists: its stored
    /// outcome is returned and nothing is minted again.
    AlreadyProcessed(SettlementSummary),
    /// A pending record was created; the caller must now perform one
    /// mint-and-deliver of `mint_base_units` to `recipient` and report
    /// the outcome to `complete_settlement` under `record_id`, together
    /// with `payment_slot`, the slot of the verified payment.
    Proceed { record_id: u64, recipient: Vec<u8>, mint_base_units: u64, payment_slot: u64 },
}

/// The allocation entry as a value, for specifications.
pub open spec fn alloc_val(allocation: Option<&AllocationEntry>) -> Option<AllocationEntry> {
    match allocation {
        Some(a) => Some(*a),
        None => None,
    }
}

/// The whitelist flag the claim is judged by: the stored flag when the
/// wallet is known, and false for the account that would be created on
/// first contact.
pub open spec fn resolved_whitelisted(store: &RecordStore, wallet: Seq<u8>) -> bool {
    store.spec_has_user_for(wallet) && store.spec_user_for(wallet).is_whitelisted
}

/// Whether the claim passes the eligibility gate against this store.
pub open spec fn spec_claim_eligible(
    store: &RecordStore,
    claim: &PurchaseClaim,
    allocation: Option<AllocationEntry>,
    config: &SettlementConfig,
) -> bool {
    spec_eligible(
        config.whitelist_enabled,
        resolved_whitelisted(store, claim.buyer_address@),
        allocation,
        claim.claimed_token_amount,
    )
}

/// The claim's priced and minted amounts fit the ledger's 64-bit base
/// units.
pub open spec fn amounts_fit(claim: &PurchaseClaim, config: &SettlementConfig) -> bool {
    &&& spec_expected_units(claim, config) <= u64::MAX
    &&& claim.claimed_token_amount * pow10(config.mint_decimals as nat) <= u64::MAX
}

/// A claim that settles: well-formed, eligible, supported by the
/// on-chain evidence, and within the machine's amount range.
pub open spec fn spec_claim_admissible(
    store: &RecordStore,
    claim: &PurchaseClaim,
    allocation: Option<AllocationEntry>,
    fetch: &FetchResult,
    config: &SettlementConfig,
) -> bool {
    &&& valid_claim(claim)
    &&& spec_claim_eligible(store, claim, allocation, config)
    &&& verification_accepts(claim, fetch, config)
    &&& amounts_fit(claim, config)
}

/// Builds the caller-facing summary of a stored record.
fn summarize(rec: &SettlementRecord) -> (s: SettlementSummary)
    ensures
        summary_matches(s, *rec),
{
    SettlementSummary {
        settlement_id: rec.id,
        status: rec.status,
        ledger_signature: match &rec.confirmation_signature {
            Some(sig) => Some(copy_bytes(sig)),
            None => None,
        },
        token_amount: rec.token_amount,
        native_amount: rec.native_amount,
    }
}

/// Runs a purchase claim up to the transfer: validates it, resolves or
/// creates the buyer's account, checks eligibility, verifies the payment
/// on-chain, and creates the pending settlement record under the unique
/// payment identifier. Exactly one of three things comes back: a
/// rejection (and then no record was created), the stored outcome of an
/// already-settled identifier (and then nothing may be minted again), or
/// the instruction to proceed with one mint (and then the pending record
/// already exists). Existing records are never modified.
pub fn begin_settlement(
    store: &mut RecordStore,
    claim: &PurchaseClaim,
    allocation: Option<&AllocationEntry>,
    fetch: &FetchResult,
    config: &SettlementConfig,
    now: u64,
) -> (r: BeginOutcome)
    requires
        old(store).wf(),
        old(store).next_record_id < u64::MAX,
        old(store).next_user_id < u64::MAX,
        allocation matches Some(a) ==> a.wf(),
    ensures
        final(store).wf(),
        // Id growth is bounded, so a caller can re-establish the
        // id-headroom preconditions for a later call from this contract
        // alone: each id counter grows by at most one per call, records
        // only on a Proceed, users only when the wallet is new.
        final(store).next_user_id >= old(store).next_user_id,
        final(store).next_record_id >= old(store).next_record_id,
        final(store).next_record_id <= old(store).next_record_id + 1,
        final(store).next_user_id <= old(store).next_user_id + 1,
        !(r is Proceed) ==> final(store).next_record_id == old(store).next_record_id,
        old(store).spec_has_user_for(claim.buyer_address@) ==> final(store).users@ == old(
            store,
        ).users@ && final(store).next_user_id == old(store).next_user_id,
        // No silent partial state: only a Proceed changes the records.
        !(r is Proceed) ==> final(store).records@ == old(store).records@,
        // Existing records are never modified, whatever the outcome.
        forall|k: int|
            0 <= k < old(store).records@.len() ==> final(store).records@[k] == old(
                store,
            ).records@[k],
        // The three outcomes partition the inputs.
        r is Rejected <==> !spec_claim_admissible(
            old(store),
            claim,
            alloc_val(allocation),
            fetch,
            config,
        ),
        r is AlreadyProcessed <==> spec_claim_admissible(
            old(store),
            claim,
            alloc_val(allocation),
            fetch,
            config,
        ) && old(store).spec_has_record_for(claim.payment_identifier@),
        r is Proceed <==> spec_claim_admissible(
            old(store),
            claim,
            alloc_val(allocation),
            fetch,
            config,
        ) && !old(store).spec_has_record_for(claim.payment_identifier@),
        // Idempotency: a duplicate identifier answers from the stored
        // record, unchanged.
        r matches BeginOutcome::AlreadyProcessed(s) ==> summary_matches(
            s,
            old(store).spec_record_for(claim.payment_identifier@),
        ),
        // A Proceed has created exactly the pending record.
        r matches BeginOutcome::Proceed { record_id, recipient, mint_base_units, payment_slot }
            ==> {
            &&& record_id == old(store).next_record_id
            &&& (fetch matches FetchResult::Finalized(tx) && payment_slot == tx.slot)
            &&& final(store).records@.len() == old(store).records@.len() + 1
            &&& final(store).spec_has_record_for(claim.payment_identifier@)
            &&& final(store).spec_has_record_with_id(record_id)
            &&& final(store).spec_record_with_id(record_id) == final(store).spec_record_for(
                claim.payment_identifier@,
            )
            &&& {
                let rec = final(store).spec_record_for(claim.payment_identifier@);
                &&& rec.id == record_id
                &&& rec.status is Pending
                &&& rec.payment_identifier@ == claim.payment_identifier@
                &&& rec.token_amount == claim.claimed_token_amount
                &&& rec.native_amount == spec_expected_units(claim, config)
                &&& rec.payment_method == claim.payment_method
                &&& rec.created_at == now
                &&& rec.ledger_slot is None
                &&& rec.confirmation_signature is None
                &&& rec.processed_at is None
                &&& final(store).spec_has_user_for(claim.buyer_address@)
                &&& rec.user_id == final(store).spec_user_for(claim.buyer_address@).id
            }
            &&& recipient@ == claim.buyer_address@
            &&& mint_base_units == claim.claimed_token_amount * pow10(config.mint_decimals as nat)
        },
        // Which rejection comes for which claim.
        r == BeginOutcome::Rejected(ClaimError::Input(InputError::MalformedIdentifier))
            <==> !valid_identifier(claim.payment_identifier@),
        r == BeginOutcome::Rejected(ClaimError::Input(InputError::MalformedAddress))
            <==> valid_identifier(claim.payment_identifier@) && !valid_address(
            claim.buyer_address@,
        ),
        r == BeginOutcome::Rejected(ClaimError::Input(InputError::AmountZero))
            <==> valid_identifier(claim.payment_identifier@) && valid_address(claim.buyer_address@)
            && claim.claimed_token_amount == 0,
        r == BeginOutcome::Rejected(ClaimError::Input(InputError::AmountOverflow)) <==> valid_claim(
            claim,
        ) && spec_claim_eligible(old(store), claim, alloc_val(allocation), config)
            && verification_accepts(claim, fetch, config) && !amounts_fit(claim, config),
        r == BeginOutcome::Rejected(ClaimError::Eligibility(EligibilityError::NotWhitelisted))
            <==> valid_claim(claim) && config.whitelist_enabled && !resolved_whitelisted(
            old(store),
            claim.buyer_address@,
        ),
        r matches BeginOutcome::Rejected(ClaimError::Eligibility(
            EligibilityError::ExceedsAllocation { remaining },
        )) ==> valid_claim(claim) && config.whitelist_enabled && resolved_whitelisted(
            old(store),
            claim.buyer_address@,
        ) && (alloc_val(allocation) matches Some(a) && claim.claimed_token_amount
            > a.spec_remaining() && remaining == a.spec_remaining()),
        valid_claim(claim) && spec_claim_eligible(old(store), claim, alloc_val(allocation), config)
            && !verification_accepts(claim, fetch, config) ==> r == BeginOutcome::Rejected(
            ClaimError::Verification(spec_verification_error(claim, fetch, config)),
        ),
        r matches BeginOutcome::Rejected(ClaimError::Verification(e)) ==> valid_claim(claim)
            && spec_claim_eligible(old(store), claim, alloc_val(allocation), config)
            && !verification_accepts(claim, fetch, config) && e == spec_verification_error(
            claim,
            fetch,
            config,
        ),
{
    // Input validation: rejected before any account or ledger work.
    if let Err(e) = claim.validate() {
        return BeginOutcome::Rejected(ClaimError::Input(e));
    }
    // Resolve or create the buyer's account (idempotent upsert on the
    // wallet address; never touches settlement records).
    let code = UserAccount::generate_referral_code();
    let user_id = store.find_or_create_user(&claim.buyer_address, code);
    let ghost mid = *store;
    let is_whitelisted = match store.user_by_id(user_id) {
        Some(u) => u.is_whitelisted,
        None => unreached(),
    };
    // Eligibility, before any ledger work is spent on the claim.
    if let Err(e) = check_eligible(
        config.whitelist_enabled,
        is_whitelisted,
        allocation,
        claim.claimed_token_amount,
    ) {
        return BeginOutcome::Rejected(ClaimError::Eligibility(e));
    }
    // The on-chain evidence must support the claim.
    let payment_slot = match verify(claim, fetch, config) {
        Ok(v) => v.ledger_slot,
        Err(e) => {
            return BeginOutcome::Rejected(ClaimError::Verification(e));
        },
    };
    // The priced and minted amounts must fit the ledger's base units.
    let expected = expected_base_units(claim.claimed_token_amount, config.token_price_base_units);
    if expected > u64::MAX as u128 {
        return BeginOutcome::Rejected(ClaimError::Input(InputError::AmountOverflow));
    }
    let native_amount = expected as u64;
    let mint_base_units = match to_base_units(claim.claimed_token_amount, config.mint_decimals) {
        Some(v) => v,
        None => {
            return BeginOutcome::Rejected(ClaimError::Input(InputError::AmountOverflow));
        },
    };
    // Record before transfer: create the pending record under the unique
    // payment identifier, or short-circuit to the stored outcome.
    match store.insert_pending(
        user_id,
        copy_bytes(&claim.payment_identifier),
        claim.claimed_token_amount,
        native_amount,
        claim.payment_method,
        now,
    ) {
        Ok(record_id) => {
            proof {
                let widx = mid.spec_user_index_for(claim.buyer_address@);
                assert(store.users@ == mid.users@);
                assert(store.users@[widx].wallet_address@ == claim.buyer_address@);
                store.lemma_user_index_for_is(claim.buyer_address@, widx);
            }
            BeginOutcome::Proceed {
                record_id,
                recipient: copy_bytes(&claim.buyer_address),
                mint_base_units,
                payment_slot,
            }
        },
        Err(_) => {
            let existing = match store.find_by_payment_identifier(&claim.payment_identifier) {
                Some(rec) => {
                    proof {
                        let i = store.spec_record_index_for(claim.payment_identifier@);
                        assert(store.records@ == old(store).records@);
                        old(store).lemma_record_index_for_is(claim.payment_identifier@, i);
                    }
                    summarize(rec)
                },
                None => unreached(),
            };
            BeginOutcome::AlreadyProcessed(existing)
        },
    }
}

/// Law: the same claim submitted twice mints at most once. Of two
/// successive coordinator decisions for one claim, at most one proceeds
/// to the transfer; and once the first has proceeded, the second is
/// answered from the stored record. The argument — a `Proceed` requires
/// the identifier to be absent, a `Proceed` leaves a record under it,
/// and no operation removes records — extends unchanged to any number of
/// repeated submissions.
pub fn settle_claim_twice(
    store: &mut RecordStore,
    claim: &PurchaseClaim,
    allocation: Option<&AllocationEntry>,
    fetch: &FetchResult,
    config: &SettlementConfig,
    now_first: u64,
    now_second: u64,
) -> (r: (BeginOutcome, BeginOutcome))
    requires
        old(store).wf(),
        old(store).next_record_id + 1 < u64::MAX,
        old(store).next_user_id + 1 < u64::MAX,
        allocation matches Some(a) ==> a.wf(),
    ensures
        final(store).wf(),
        !(r.0 is Proceed && r.1 is Proceed),
        r.0 is Proceed ==> r.1 is AlreadyProcessed,
{
    let r1 = begin_settlement(store, claim, allocation, fetch, config, now_first);
    let ghost mid = *store;
    let r2 = begin_settlement(store, claim, allocation, fetch, config, now_second);
    proof {
        if r1 is Proceed {
            // The first call created the record, so the identifier is
            // present when the second call runs.
            assert(mid.spec_has_record_for(claim.payment_identifier@));
            // The second call is still admissible: claim, evidence and
            // configuration are unchanged, and so is the buyer's account
            // — a whitelisted buyer existed before the first call, whose
            // ensures then say the accounts were left alone.
            if config.whitelist_enabled {
                let w = claim.buyer_address@;
                assert(resolved_whitelisted(old(store), w));
                let i = old(store).spec_user_index_for(w);
                assert(mid.users@ == old(store).users@);
                mid.lemma_user_index_for_is(w, i);
            }
            assert(spec_claim_eligible(&mid, claim, alloc_val(allocation), config));
        }
    }
    (r1, r2)
}

/// A best-effort credit owed to the referrer after a confirmed
/// settlement; crediting it is the caller's job and its failure never
/// rolls the confirmed settlement back. The bonus is counted in mint
/// base units, fine enough that accrual over many settlements is exact.
pub struct ReferralCredit {
    pub referrer_id: u64,
    pub bonus_base_units: u64,
}

/// What `complete_settlement` recorded and what the caller still owes.
pub struct CompletionResult {
    pub summary: SettlementSummary,
    /// The referral bonus to credit, when the buyer was referred and the
    /// bonus is computable.
    pub referral: Option<ReferralCredit>,
    /// True exactly for an unconfirmed transfer: the record stays
    /// pending and an operator must reconcile it — a blind retry could
    /// mint twice.
    pub needs_reconciliation: bool,
}

/// The referral credit a confirmed settlement of `rec` gives rise to:
/// the buyer's referrer, if there is one, is owed the configured percent
/// of the purchased amount, in mint base units (and nothing when that
/// bonus does not fit the machine's integers).
pub open spec fn spec_referral_credit(
    store: &RecordStore,
    rec: SettlementRecord,
    config: &SettlementConfig,
) -> Option<ReferralCredit> {
    let bonus = spec_referral_bonus(
        rec.token_amount as int,
        config.mint_decimals as nat,
        config.referral_bonus_percent as int,
    );
    if store.spec_has_user_with_id(rec.user_id) && store.spec_user_with_id(
        rec.user_id,
    ).referred_by is Some && rec.token_amount * pow10(config.mint_decimals as nat) <= u64::MAX
        && bonus <= u64::MAX {
        Some(
            ReferralCredit {
                referrer_id: store.spec_user_with_id(rec.user_id).referred_by->Some_0,
                bonus_base_units: bonus as u64,
            },
        )
    } else {
        None
    }
}

/// Records how the one mint-and-deliver operation ended, for a record
/// that is still pending. A delivered transfer confirms the record with
/// the payment's slot and the delivery signature and computes the
/// referral credit; a failed transfer moves the record to failed (the
/// buyer's payment stands, so the record is kept for remediation); an
/// unconfirmed transfer changes nothing and flags the record for an
/// operator instead. Either way the record persists, and no other record
/// or account is touched.
pub fn complete_settlement(
    store: &mut RecordStore,
    record_id: u64,
    payment_slot: u64,
    outcome: MintOutcome,
    config: &SettlementConfig,
    now: u64,
) -> (r: CompletionResult)
    requires
        old(store).wf(),
        old(store).spec_has_record_with_id(record_id),
        old(store).spec_record_with_id(record_id).status is Pending,
    ensures
        final(store).wf(),
        final(store).users@ == old(store).users@,
        final(store).next_user_id == old(store).next_user_id,
        final(store).next_record_id == old(store).next_record_id,
        final(store).records@.len() == old(store).records@.len(),
        forall|k: int|
            0 <= k < old(store).records@.len() && k != old(store).spec_record_index_with_id(
                record_id,
            ) ==> final(store).records@[k] == old(store).records@[k],
        final(store).spec_has_record_with_id(record_id),
        final(store).spec_record_index_with_id(record_id) == old(store).spec_record_index_with_id(
            record_id,
        ),
        summary_matches(r.summary, final(store).spec_record_with_id(record_id)),
        r.needs_reconciliation <==> outcome is TransferUnconfirmed,
        outcome matches MintOutcome::Delivered { signature } ==> {
            &&& record_updated(
                old(store).spec_record_with_id(record_id),
                final(store).spec_record_with_id(record_id),
                SettlementStatus::Confirmed,
                Some(payment_slot),
                Some(signature),
                now,
            )
            &&& r.referral == spec_referral_credit(
                old(store),
                old(store).spec_record_with_id(record_id),
                config,
            )
        },
        outcome is TransferFailed ==> record_updated(
            old(store).spec_record_with_id(record_id),
            final(store).spec_record_with_id(record_id),
            SettlementStatus::Failed,
            None,
            None,
            now,
        ) && r.referral is None,
        outcome is TransferUnconfirmed ==> final(store).records@ == old(store).records@
            && r.referral is None && final(store).spec_record_with_id(record_id).status is Pending,
{
    let (user_id, token_amount) = match store.record_by_id(record_id) {
        Some(rec) => (rec.user_id, rec.token_amount),
        None => unreached(),
    };
    match outcome {
        MintOutcome::Delivered { signature } => {
            let updated = store.update_status(
                record_id,
                SettlementStatus::Confirmed,
                Some(payment_slot),
                Some(signature),
                now,
            );
            proof {
                assert(updated is Ok);
            }
            let summary = match store.record_by_id(record_id) {
                Some(rec) => summarize(rec),
                None => unreached(),
            };
            let referral = match store.user_by_id(user_id) {
                Some(u) => {
                    proof {
                        let widx = store.spec_user_index_with_id(user_id);
                        assert(old(store).users@[widx] == store.users@[widx]);
                        old(store).lemma_user_index_with_id_is(user_id, widx);
                    }
                    match u.referred_by {
                        Some(referrer_id) => {
                            match referral_bonus_base_units(
                                token_amount,
                                config.mint_decimals,
                                config.referral_bonus_percent,
                            ) {
                                Some(bonus_base_units) => Some(
                                    ReferralCredit { referrer_id, bonus_base_units },
                                ),
                                None => None,
                            }
                        },
                        None => None,
                    }
                },
                None => {
                    proof {
                        if old(store).spec_has_user_with_id(user_id) {
                            let widx = old(store).spec_user_index_with_id(user_id);
                            assert(store.users@[widx] == old(store).users@[widx]);
                            store.lemma_user_index_with_id_is(user_id, widx);
                        }
                    }
                    None
                },
            };
            CompletionResult { summary, referral, needs_reconciliation: false }
        },
        MintOutcome::TransferFailed => {
            let updated = store.update_status(
                record_id,
                SettlementStatus::Failed,
                None,
                None,
                now,
            );
            proof {
                assert(updated is Ok);
            }
            let summary = match store.record_by_id(record_id) {
                Some(rec) => summarize(rec),
                None => unreached(),
            };
            CompletionResult { summary, referral: None, needs_reconciliation: false }
        },
        MintOutcome::TransferUnconfirmed => {
            let summary = match store.record_by_id(record_id) {
                Some(rec) => summarize(rec),
                None => unreached(),
            };
            CompletionResult { summary, referral: None, needs_reconciliation: true }
        },
    }
}

} // verus!
