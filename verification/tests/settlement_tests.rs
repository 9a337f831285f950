use presale_settlement::claim::{PaymentMethod, PurchaseClaim};
use presale_settlement::eligibility::AllocationEntry;
use presale_settlement::errors::{ClaimError, EligibilityError, VerificationError};
use presale_settlement::ledger::{FetchResult, LedgerTransaction, MintOutcome};
use presale_settlement::settlement::{
    begin_settlement, complete_settlement, settle_claim_twice, BeginOutcome,
};
use presale_settlement::store::{RecordStore, SettlementStatus};
use presale_settlement::verify::{verify, SettlementConfig};

fn bytes(s: &str) -> Vec<u8> {
    s.as_bytes().to_vec()
}

fn claim(identifier: &str, buyer: &str, amount: u64) -> PurchaseClaim {
    PurchaseClaim {
        payment_identifier: bytes(identifier),
        buyer_address: bytes(buyer),
        claimed_token_amount: amount,
        payment_method: PaymentMethod::Native,
    }
}

fn config() -> SettlementConfig {
    SettlementConfig {
        recipient_address: bytes("Treasury"),
        token_price_base_units: 45_000,
        mint_decimals: 9,
        whitelist_enabled: false,
        referral_bonus_percent: 5,
    }
}

/// A finalized transaction in which `sender` paid `paid` native base
/// units to the treasury.
fn payment_tx(sender: &str, paid: u64) -> LedgerTransaction {
    LedgerTransaction {
        slot: 7,
        failed: false,
        account_keys: vec![bytes(sender), bytes("Treasury")],
        pre_balances: vec![10_000_000, 0],
        post_balances: vec![10_000_000 - paid, paid],
    }
}

#[test]
fn full_payment_settles_once() {
    // A ledger payment covering the claim in full: the record is created
    // once, pending, then confirmed, and tokens are minted once.
    let mut store = RecordStore::new();
    let c = claim("sigABC", "Wallet1", 100);
    let fetch = FetchResult::Finalized(payment_tx("Wallet1", 4_500_000));
    let outcome = begin_settlement(&mut store, &c, None, &fetch, &config(), 1000);
    let (record_id, recipient, mint_base_units, payment_slot) = match outcome {
        BeginOutcome::Proceed { record_id, recipient, mint_base_units, payment_slot } => {
            (record_id, recipient, mint_base_units, payment_slot)
        },
        _ => panic!("a covered claim proceeds to the mint"),
    };
    assert_eq!(recipient, bytes("Wallet1"));
    assert_eq!(mint_base_units, 100_000_000_000);
    assert_eq!(payment_slot, 7);
    assert_eq!(store.records.len(), 1);
    assert_eq!(store.records[0].status, SettlementStatus::Pending);

    let done = complete_settlement(
        &mut store,
        record_id,
        payment_slot,
        MintOutcome::Delivered { signature: bytes("mintsig") },
        &config(),
        2000,
    );
    assert_eq!(done.summary.status, SettlementStatus::Confirmed);
    assert_eq!(done.summary.settlement_id, record_id);
    assert_eq!(done.summary.ledger_signature, Some(bytes("mintsig")));
    assert_eq!(done.summary.token_amount, 100);
    assert_eq!(done.summary.native_amount, 4_500_000);
    assert!(!done.needs_reconciliation);
    assert_eq!(store.records.len(), 1);
    assert_eq!(store.records[0].status, SettlementStatus::Confirmed);
    assert_eq!(store.records[0].ledger_slot, Some(7));
}

#[test]
fn duplicate_claim_settles_exactly_once() {
    // The same claim submitted twice: exactly one mint, both callers see
    // the same settlement id and outcome.
    let mut store = RecordStore::new();
    let c = claim("sigABC", "Wallet1", 100);
    let fetch = FetchResult::Finalized(payment_tx("Wallet1", 4_500_000));

    let mut proceeds: u32 = 0;
    let first = begin_settlement(&mut store, &c, None, &fetch, &config(), 1000);
    let record_id = match first {
        BeginOutcome::Proceed { record_id, .. } => {
            proceeds += 1;
            record_id
        },
        _ => panic!("the first submission proceeds"),
    };
    let done = complete_settlement(
        &mut store,
        record_id,
        7,
        MintOutcome::Delivered { signature: bytes("mintsig") },
        &config(),
        2000,
    );
    assert_eq!(done.summary.status, SettlementStatus::Confirmed);

    let second = begin_settlement(&mut store, &c, None, &fetch, &config(), 3000);
    match second {
        BeginOutcome::AlreadyProcessed(summary) => {
            assert_eq!(summary.settlement_id, record_id);
            assert_eq!(summary.status, SettlementStatus::Confirmed);
            assert_eq!(summary.ledger_signature, Some(bytes("mintsig")));
        },
        BeginOutcome::Proceed { .. } => {
            proceeds += 1;
            panic!("a settled identifier never proceeds to a second mint");
        },
        BeginOutcome::Rejected(e) => panic!("unexpected rejection: {:?}", e),
    }
    assert_eq!(proceeds, 1);
    assert_eq!(store.records.len(), 1);
}

#[test]
fn resubmission_while_pending_is_answered_from_the_record() {
    // Two concurrent submissions in the sequential model: the second one
    // arrives while the record is still pending and observes it instead
    // of creating another.
    let mut store = RecordStore::new();
    let c = claim("sigABC", "Wallet1", 100);
    let fetch = FetchResult::Finalized(payment_tx("Wallet1", 4_500_000));
    let first = begin_settlement(&mut store, &c, None, &fetch, &config(), 1000);
    assert!(matches!(first, BeginOutcome::Proceed { .. }));
    let second = begin_settlement(&mut store, &c, None, &fetch, &config(), 1001);
    match second {
        BeginOutcome::AlreadyProcessed(summary) => {
            assert_eq!(summary.status, SettlementStatus::Pending);
        },
        _ => panic!("the overlapping submission observes the pending record"),
    }
    assert_eq!(store.records.len(), 1);
}

#[test]
fn half_payment_is_rejected_without_a_record() {
    // The on-chain delta covers only half of the expected amount.
    let mut store = RecordStore::new();
    let c = claim("sigABC", "Wallet1", 100);
    let fetch = FetchResult::Finalized(payment_tx("Wallet1", 2_250_000));
    let outcome = begin_settlement(&mut store, &c, None, &fetch, &config(), 1000);
    match outcome {
        BeginOutcome::Rejected(ClaimError::Verification(VerificationError::InsufficientPayment {
            expected_base_units,
            actual_delta,
        })) => {
            assert_eq!(expected_base_units, 4_500_000);
            assert_eq!(actual_delta, 2_250_000);
        },
        _ => panic!("an insufficient payment is rejected"),
    }
    // No silent partial state: no record was created.
    assert_eq!(store.records.len(), 0);
}

#[test]
fn tolerance_boundary_through_the_verifier() {
    let c = claim("sigABC", "Wallet1", 100);
    let cfg = config();
    // Exactly ninety-nine percent of the expected amount is accepted.
    let at_boundary = FetchResult::Finalized(payment_tx("Wallet1", 4_455_000));
    assert!(verify(&c, &at_boundary, &cfg).is_ok());
    // Ninety-eight point nine percent is rejected.
    let below = FetchResult::Finalized(payment_tx("Wallet1", 4_450_500));
    match verify(&c, &below, &cfg) {
        Err(VerificationError::InsufficientPayment { .. }) => {},
        _ => panic!("below the tolerance band the payment is insufficient"),
    }
}

#[test]
fn mismatched_sender_is_rejected_even_with_exact_amount() {
    // The payment is exact, but it came from another wallet.
    let mut store = RecordStore::new();
    let c = claim("sigABC", "Wallet1", 100);
    let fetch = FetchResult::Finalized(payment_tx("Mallory9", 4_500_000));
    let outcome = begin_settlement(&mut store, &c, None, &fetch, &config(), 1000);
    assert!(matches!(
        outcome,
        BeginOutcome::Rejected(ClaimError::Verification(VerificationError::SenderMismatch))
    ));
    assert_eq!(store.records.len(), 0);
}

#[test]
fn failed_on_chain_execution_is_rejected() {
    let mut store = RecordStore::new();
    let c = claim("sigABC", "Wallet1", 100);
    let mut t = payment_tx("Wallet1", 4_500_000);
    t.failed = true;
    let outcome = begin_settlement(&mut store, &c, None, &FetchResult::Finalized(t), &config(), 1);
    assert!(matches!(
        outcome,
        BeginOutcome::Rejected(ClaimError::Verification(VerificationError::OnChainFailure))
    ));
}

#[test]
fn missing_recipient_is_rejected() {
    let mut store = RecordStore::new();
    let c = claim("sigABC", "Wallet1", 100);
    let t = LedgerTransaction {
        slot: 7,
        failed: false,
        account_keys: vec![bytes("Wallet1"), bytes("Elsewhere")],
        pre_balances: vec![10, 0],
        post_balances: vec![5, 5],
    };
    let outcome = begin_settlement(&mut store, &c, None, &FetchResult::Finalized(t), &config(), 1);
    assert!(matches!(
        outcome,
        BeginOutcome::Rejected(ClaimError::Verification(VerificationError::RecipientNotFound))
    ));
}

#[test]
fn not_found_and_unavailable_are_distinguished() {
    let mut store = RecordStore::new();
    let c = claim("sigABC", "Wallet1", 100);
    let outcome = begin_settlement(&mut store, &c, None, &FetchResult::NotFound, &config(), 1);
    assert!(matches!(
        outcome,
        BeginOutcome::Rejected(ClaimError::Verification(VerificationError::PaymentNotFound))
    ));
    let outcome = begin_settlement(&mut store, &c, None, &FetchResult::Unavailable, &config(), 1);
    assert!(matches!(
        outcome,
        BeginOutcome::Rejected(ClaimError::Verification(VerificationError::GatewayUnavailable))
    ));
    assert_eq!(store.records.len(), 0);
}

#[test]
fn malformed_claim_is_rejected_before_any_ledger_work() {
    let mut store = RecordStore::new();
    let c = claim("sig ABC", "Wallet1", 100);
    // Even with a covering payment attached, the malformed identifier is
    // rejected first.
    let fetch = FetchResult::Finalized(payment_tx("Wallet1", 4_500_000));
    let outcome = begin_settlement(&mut store, &c, None, &fetch, &config(), 1);
    match outcome {
        BeginOutcome::Rejected(ClaimError::Input(_)) => {},
        _ => panic!("a malformed claim is an input error"),
    }
    assert_eq!(store.records.len(), 0);
}

#[test]
fn unwhitelisted_buyer_is_rejected_before_verification() {
    let mut store = RecordStore::new();
    let mut cfg = config();
    cfg.whitelist_enabled = true;
    let c = claim("sigABC", "Wallet1", 100);
    let fetch = FetchResult::Finalized(payment_tx("Wallet1", 4_500_000));
    let outcome = begin_settlement(&mut store, &c, None, &fetch, &cfg, 1);
    assert!(matches!(
        outcome,
        BeginOutcome::Rejected(ClaimError::Eligibility(EligibilityError::NotWhitelisted))
    ));
    assert_eq!(store.records.len(), 0);
}

#[test]
fn claim_over_the_allocation_is_rejected() {
    let mut store = RecordStore::new();
    let mut cfg = config();
    cfg.whitelist_enabled = true;
    // The wallet is known and whitelisted, but its allocation is spent.
    let user_id = store.find_or_create_user(&bytes("Wallet1"), bytes("AAAA0000"));
    assert!(store.update_user_profile(user_id, true, 1, None));
    let allocation = AllocationEntry { user_id, max_allocation: 150, used_allocation: 100 };
    let c = claim("sigABC", "Wallet1", 100);
    let fetch = FetchResult::Finalized(payment_tx("Wallet1", 4_500_000));
    let outcome = begin_settlement(&mut store, &c, Some(&allocation), &fetch, &cfg, 1);
    match outcome {
        BeginOutcome::Rejected(ClaimError::Eligibility(EligibilityError::ExceedsAllocation {
            remaining,
        })) => assert_eq!(remaining, 50),
        _ => panic!("a claim over the allocation is rejected"),
    }
    assert_eq!(store.records.len(), 0);
}

#[test]
fn failed_transfer_marks_the_record_failed() {
    let mut store = RecordStore::new();
    let c = claim("sigABC", "Wallet1", 100);
    let fetch = FetchResult::Finalized(payment_tx("Wallet1", 4_500_000));
    let record_id = match begin_settlement(&mut store, &c, None, &fetch, &config(), 1000) {
        BeginOutcome::Proceed { record_id, .. } => record_id,
        _ => panic!("the claim proceeds"),
    };
    let done = complete_settlement(
        &mut store,
        record_id,
        7,
        MintOutcome::TransferFailed,
        &config(),
        2000,
    );
    assert_eq!(done.summary.status, SettlementStatus::Failed);
    assert_eq!(done.summary.ledger_signature, None);
    assert!(!done.needs_reconciliation);
    assert!(done.referral.is_none());
    // The record persists as the audit trail.
    assert_eq!(store.records.len(), 1);
    assert_eq!(store.records[0].status, SettlementStatus::Failed);
}

#[test]
fn unconfirmed_transfer_stays_pending_for_reconciliation() {
    let mut store = RecordStore::new();
    let c = claim("sigABC", "Wallet1", 100);
    let fetch = FetchResult::Finalized(payment_tx("Wallet1", 4_500_000));
    let record_id = match begin_settlement(&mut store, &c, None, &fetch, &config(), 1000) {
        BeginOutcome::Proceed { record_id, .. } => record_id,
        _ => panic!("the claim proceeds"),
    };
    let done = complete_settlement(
        &mut store,
        record_id,
        7,
        MintOutcome::TransferUnconfirmed,
        &config(),
        2000,
    );
    assert_eq!(done.summary.status, SettlementStatus::Pending);
    assert!(done.needs_reconciliation);
    assert_eq!(store.records[0].status, SettlementStatus::Pending);
    // After the operator reconciles (the mint did land), the record can
    // still be confirmed exactly once.
    let done = complete_settlement(
        &mut store,
        record_id,
        7,
        MintOutcome::Delivered { signature: bytes("mintsig") },
        &config(),
        3000,
    );
    assert_eq!(done.summary.status, SettlementStatus::Confirmed);
    assert_eq!(store.records[0].status, SettlementStatus::Confirmed);
}

#[test]
fn referred_buyer_earns_the_referrer_a_bonus() {
    let mut store = RecordStore::new();
    let user_id = store.find_or_create_user(&bytes("Wallet1"), bytes("AAAA0000"));
    assert!(store.update_user_profile(user_id, false, 0, Some(99)));
    let c = claim("sigABC", "Wallet1", 100);
    let fetch = FetchResult::Finalized(payment_tx("Wallet1", 4_500_000));
    let record_id = match begin_settlement(&mut store, &c, None, &fetch, &config(), 1000) {
        BeginOutcome::Proceed { record_id, .. } => record_id,
        _ => panic!("the claim proceeds"),
    };
    let done = complete_settlement(
        &mut store,
        record_id,
        7,
        MintOutcome::Delivered { signature: bytes("mintsig") },
        &config(),
        2000,
    );
    let credit = done.referral.expect("a referred buyer earns a bonus");
    assert_eq!(credit.referrer_id, 99);
    // Five percent of one hundred tokens, in base units of the
    // nine-decimal mint: five whole tokens.
    assert_eq!(credit.bonus_base_units, 5_000_000_000);
}

#[test]
fn unreferred_buyer_earns_nobody_a_bonus() {
    let mut store = RecordStore::new();
    let c = claim("sigABC", "Wallet1", 100);
    let fetch = FetchResult::Finalized(payment_tx("Wallet1", 4_500_000));
    let record_id = match begin_settlement(&mut store, &c, None, &fetch, &config(), 1000) {
        BeginOutcome::Proceed { record_id, .. } => record_id,
        _ => panic!("the claim proceeds"),
    };
    let done = complete_settlement(
        &mut store,
        record_id,
        7,
        MintOutcome::Delivered { signature: bytes("mintsig") },
        &config(),
        2000,
    );
    assert!(done.referral.is_none());
}

#[test]
fn settling_twice_in_one_breath_mints_once() {
    let mut store = RecordStore::new();
    let c = claim("sigABC", "Wallet1", 100);
    let fetch = FetchResult::Finalized(payment_tx("Wallet1", 4_500_000));
    let (first, second) = settle_claim_twice(&mut store, &c, None, &fetch, &config(), 1000, 1001);
    assert!(matches!(first, BeginOutcome::Proceed { .. }));
    match second {
        BeginOutcome::AlreadyProcessed(summary) => {
            assert_eq!(summary.status, SettlementStatus::Pending);
        }
        _ => panic!("the repeated submission is answered from the record"),
    }
    assert_eq!(store.records.len(), 1);

    // A rejected claim is rejected both times, with no record either way.
    let mut store = RecordStore::new();
    let short = claim("sigABC", "Wallet1", 100);
    let (first, second) =
        settle_claim_twice(&mut store, &short, None, &FetchResult::NotFound, &config(), 1, 2);
    assert!(matches!(first, BeginOutcome::Rejected(_)));
    assert!(matches!(second, BeginOutcome::Rejected(_)));
    assert_eq!(store.records.len(), 0);
}
