//! The payment verifier.
//!
//! Given a claim and the gateway's fetch result, decides whether the
//! on-chain evidence supports the claim: the identifier must be
//! well-formed, the transaction finalized and successful, the presale's
//! recipient address must appear with balance data, the recipient's
//! balance delta must reach the tolerance band around the expected
//! price, and the transaction's declared sender must be the claimed
//! buyer. The verifier is read-only: it never touches the record store.

use vstd::prelude::*;
use crate::amounts::{expected_base_units, meets_tolerance, spec_meets_tolerance};
use crate::bytes::copy_bytes;
use crate::claim::{valid_identifier, PurchaseClaim};
use crate::errors::VerificationError;
use crate::ledger::{
    address_has_balance_data, get_account_balance_delta, spec_balance_delta, spec_keys,
    FetchResult, LedgerTransaction,
};

verus! {

/// The settlement configuration, built once at startup and passed in
/// explicitly: where payments must arrive, what a token costs in native
/// base units (supplied by the pricing collaborator, already scaled), the
/// mint's decimal precision, and the whitelist and referral settings.
pub struct SettlementConfig {
    /// The presale's treasury address, which payments must reach.
    pub recipient_address: Vec<u8>,
    /// Native base units owed per whole token.
    pub token_price_base_units: u64,
    /// Decimal precision of the presale token's mint.
    pub mint_decimals: u8,
    /// Whether the whitelist gate is on.
    pub whitelist_enabled: bool,
    /// Referral bonus, in whole percent of the purchased amount.
    pub referral_bonus_percent: u64,
}

/// Evidence that a claimed payment really happened: produced only by the
/// verifier, never persisted.
pub struct VerifiedPayment {
    pub payment_identifier: Vec<u8>,
    /// The slot the transaction landed in; kept as the settlement proof.
    pub ledger_slot: u64,
    /// The claimed token amount the evidence supports.
    pub token_amount: u64,
    /// The recipient's observed balance delta, in native base units.
    pub paid_native_units: i128,
    pub sender_address: Vec<u8>,
    pub recipient_address: Vec<u8>,
}

/// The native base units a claim owes: amount times price.
pub open spec fn spec_expected_units(claim: &PurchaseClaim, config: &SettlementConfig) -> int {
    claim.claimed_token_amount * config.token_price_base_units
}

/// The transaction's declared sender is the claimed buyer.
pub open spec fn sender_matches(tx: &LedgerTransaction, claim: &PurchaseClaim) -> bool {
    spec_keys(tx).len() > 0 && spec_keys(tx)[0] == claim.buyer_address@
}

/// Whether the on-chain evidence supports the claim: well-formed
/// identifier, a finalized and successful transaction, the recipient
/// present with balance data, a delta within tolerance of the expected
/// price, and the declared sender equal to the claimed buyer.
pub open spec fn verification_accepts(
    claim: &PurchaseClaim,
    fetch: &FetchResult,
    config: &SettlementConfig,
) -> bool {
    &&& valid_identifier(claim.payment_identifier@)
    &&& fetch matches FetchResult::Finalized(tx)
    &&& !tx.failed
    &&& address_has_balance_data(tx, config.recipient_address@)
    &&& spec_meets_tolerance(
        spec_balance_delta(tx, config.recipient_address@),
        spec_expected_units(claim, config),
    )
    &&& sender_matches(tx, claim)
}

/// The error a rejected claim is rejected with: the first failing check,
/// in the verifier's order. Meaningful when `verification_accepts` is
/// false.
pub open spec fn spec_verification_error(
    claim: &PurchaseClaim,
    fetch: &FetchResult,
    config: &SettlementConfig,
) -> VerificationError {
    if !valid_identifier(claim.payment_identifier@) {
        VerificationError::InvalidIdentifier
    } else {
        match fetch {
            FetchResult::NotFound => VerificationError::PaymentNotFound,
            FetchResult::Unavailable => VerificationError::GatewayUnavailable,
            FetchResult::Finalized(tx) => {
                if tx.failed {
                    VerificationError::OnChainFailure
                } else if !address_has_balance_data(tx, config.recipient_address@) {
                    VerificationError::RecipientNotFound
                } else if !spec_meets_tolerance(
                    spec_balance_delta(tx, config.recipient_address@),
                    spec_expected_units(claim, config),
                ) {
                    VerificationError::InsufficientPayment {
                        expected_base_units: spec_expected_units(claim, config) as u128,
                        actual_delta: spec_balance_delta(tx, config.recipient_address@) as i128,
                    }
                } else {
                    VerificationError::SenderMismatch
                }
            },
        }
    }
}

/// Verifies a claim against the gateway's fetch result. Accepts exactly
/// the claims whose on-chain evidence supports them, and names for every
/// rejected claim the first check that failed, in this order: identifier
/// shape, fetch outcome, on-chain execution, recipient presence, paid
/// amount, sender. Re-verifying the same claim against the same fetch
/// result yields the same answer.
pub fn verify(claim: &PurchaseClaim, fetch: &FetchResult, config: &SettlementConfig) -> (r: Result<
    VerifiedPayment,
    VerificationError,
>)
    ensures
        r is Ok <==> verification_accepts(claim, fetch, config),
        r matches Err(e) ==> e == spec_verification_error(claim, fetch, config),
        r matches Ok(v) ==> fetch matches FetchResult::Finalized(tx) && {
            &&& v.payment_identifier@ == claim.payment_identifier@
            &&& v.ledger_slot == tx.slot
            &&& v.token_amount == claim.claimed_token_amount
            &&& v.paid_native_units == spec_balance_delta(tx, config.recipient_address@)
            &&& v.sender_address@ == claim.buyer_address@
            &&& v.recipient_address@ == config.recipient_address@
        },
        r == Err::<VerifiedPayment, VerificationError>(VerificationError::InvalidIdentifier)
            <==> !valid_identifier(claim.payment_identifier@),
        r == Err::<VerifiedPayment, VerificationError>(VerificationError::PaymentNotFound)
            <==> valid_identifier(claim.payment_identifier@) && fetch is NotFound,
        r == Err::<VerifiedPayment, VerificationError>(VerificationError::GatewayUnavailable)
            <==> valid_identifier(claim.payment_identifier@) && fetch is Unavailable,
        r == Err::<VerifiedPayment, VerificationError>(VerificationError::OnChainFailure)
            <==> valid_identifier(claim.payment_identifier@) && (fetch matches
        FetchResult::Finalized(tx) && tx.failed),
        r == Err::<VerifiedPayment, VerificationError>(VerificationError::RecipientNotFound)
            <==> valid_identifier(claim.payment_identifier@) && (fetch matches
        FetchResult::Finalized(tx) && !tx.failed && !address_has_balance_data(
            tx,
            config.recipient_address@,
        )),
        r matches Err(VerificationError::InsufficientPayment { expected_base_units, actual_delta })
            ==> valid_identifier(claim.payment_identifier@) && (fetch matches
        FetchResult::Finalized(tx) && {
            &&& !tx.failed
            &&& address_has_balance_data(tx, config.recipient_address@)
            &&& !spec_meets_tolerance(
                spec_balance_delta(tx, config.recipient_address@),
                spec_expected_units(claim, config),
            )
            &&& expected_base_units == spec_expected_units(claim, config)
            &&& actual_delta == spec_balance_delta(tx, config.recipient_address@)
        }),
        (r is Err && r->Err_0 is InsufficientPayment) <==> valid_identifier(
            claim.payment_identifier@,
        ) && (fetch matches FetchResult::Finalized(tx) && !tx.failed && address_has_balance_data(
            tx,
            config.recipient_address@,
        ) && !spec_meets_tolerance(
            spec_balance_delta(tx, config.recipient_address@),
            spec_expected_units(claim, config),
        )),
        r == Err::<VerifiedPayment, VerificationError>(VerificationError::SenderMismatch)
            <==> valid_identifier(claim.payment_identifier@) && (fetch matches
        FetchResult::Finalized(tx) && {
            &&& !tx.failed
            &&& address_has_balance_data(tx, config.recipient_address@)
            &&& spec_meets_tolerance(
                spec_balance_delta(tx, config.recipient_address@),
                spec_expected_units(claim, config),
            )
            &&& !sender_matches(tx, claim)
        }),
{
    if claim.payment_identifier.len() == 0 || claim.payment_identifier.len()
        > crate::claim::MAX_IDENTIFIER_LEN || !crate::claim::all_reference_bytes(
        &claim.payment_identifier,
    ) {
        return Err(VerificationError::InvalidIdentifier);
    }
    let tx = match fetch {
        FetchResult::Finalized(tx) => tx,
        FetchResult::NotFound => {
            return Err(VerificationError::PaymentNotFound);
        },
        FetchResult::Unavailable => {
            return Err(VerificationError::GatewayUnavailable);
        },
    };
    if tx.failed {
        return Err(VerificationError::OnChainFailure);
    }
    let delta = match get_account_balance_delta(tx, &config.recipient_address) {
        Ok(d) => d,
        Err(_) => {
            return Err(VerificationError::RecipientNotFound);
        },
    };
    let expected = expected_base_units(claim.claimed_token_amount, config.token_price_base_units);
    if !meets_tolerance(delta, expected) {
        return Err(
            VerificationError::InsufficientPayment {
                expected_base_units: expected,
                actual_delta: delta,
            },
        );
    }
    // The recipient occurs among the participants, so the key list is not
    // empty and the declared sender (its first entry) exists.
    let sender = &tx.account_keys[0];
    if !crate::bytes::bytes_eq(sender, &claim.buyer_address) {
        return Err(VerificationError::SenderMismatch);
    }
    Ok(
        VerifiedPayment {
            payment_identifier: copy_bytes(&claim.payment_identifier),
            ledger_slot: tx.slot,
            token_amount: claim.claimed_token_amount,
            paid_native_units: delta,
            sender_address: copy_bytes(&claim.buyer_address),
            recipient_address: copy_bytes(&config.recipient_address),
        },
    )
}

/// Law: a verified payment is bound to its sender. Whenever the fetched
/// transaction's declared sender differs from the claimed buyer, the
/// verifier rejects the claim — however exactly the paid amount matches.
pub proof fn lemma_sender_binding(
    claim: &PurchaseClaim,
    fetch: &FetchResult,
    config: &SettlementConfig,
)
    requires
        fetch matches FetchResult::Finalized(tx) ==> !sender_matches(tx, claim),
    ensures
        !verification_accepts(claim, fetch, config),
{
}

} // verus!
