use presale_settlement::claim::{PaymentMethod, PurchaseClaim};
use presale_settlement::errors::InputError;
use presale_settlement::user::UserAccount;

fn claim(identifier: &str, buyer: &str, amount: u64) -> PurchaseClaim {
    PurchaseClaim {
        payment_identifier: identifier.as_bytes().to_vec(),
        buyer_address: buyer.as_bytes().to_vec(),
        claimed_token_amount: amount,
        payment_method: PaymentMethod::Native,
    }
}

#[test]
fn well_formed_claim_validates() {
    assert_eq!(claim("sigABC", "Wallet1", 100).validate(), Ok(()));
}

#[test]
fn empty_identifier_is_malformed() {
    assert_eq!(
        claim("", "Wallet1", 100).validate(),
        Err(InputError::MalformedIdentifier)
    );
}

#[test]
fn identifier_with_bad_byte_is_malformed() {
    assert_eq!(
        claim("sig!ABC", "Wallet1", 100).validate(),
        Err(InputError::MalformedIdentifier)
    );
    assert_eq!(
        claim("sig ABC", "Wallet1", 100).validate(),
        Err(InputError::MalformedIdentifier)
    );
}

#[test]
fn overlong_identifier_is_malformed() {
    let long = "a".repeat(129);
    assert_eq!(
        claim(&long, "Wallet1", 100).validate(),
        Err(InputError::MalformedIdentifier)
    );
    let just_fits = "a".repeat(128);
    assert_eq!(claim(&just_fits, "Wallet1", 100).validate(), Ok(()));
}

#[test]
fn bad_address_is_malformed() {
    assert_eq!(
        claim("sigABC", "", 100).validate(),
        Err(InputError::MalformedAddress)
    );
    assert_eq!(
        claim("sigABC", "Wallet#1", 100).validate(),
        Err(InputError::MalformedAddress)
    );
    let long = "W".repeat(65);
    assert_eq!(
        claim("sigABC", &long, 100).validate(),
        Err(InputError::MalformedAddress)
    );
}

#[test]
fn zero_amount_is_rejected() {
    assert_eq!(
        claim("sigABC", "Wallet1", 0).validate(),
        Err(InputError::AmountZero)
    );
}

#[test]
fn identifier_checked_before_address() {
    assert_eq!(
        claim("", "", 0).validate(),
        Err(InputError::MalformedIdentifier)
    );
}

#[test]
fn referral_code_has_fixed_length_and_alphabet() {
    for _ in 0..20 {
        let code = UserAccount::generate_referral_code();
        assert_eq!(code.len(), 8);
        for b in code {
            assert!(b.is_ascii_uppercase() || b.is_ascii_digit());
        }
    }
}
