use presale_settlement::eligibility::{check_eligible, AllocationEntry};
use presale_settlement::errors::EligibilityError;

#[test]
fn disabled_whitelist_admits_everyone() {
    assert_eq!(check_eligible(false, false, None, 1_000_000), Ok(()));
}

#[test]
fn enabled_whitelist_requires_the_flag() {
    assert_eq!(
        check_eligible(true, false, None, 1),
        Err(EligibilityError::NotWhitelisted)
    );
    assert_eq!(check_eligible(true, true, None, 1), Ok(()));
}

#[test]
fn allocation_bounds_the_claim() {
    let entry = AllocationEntry { user_id: 1, max_allocation: 150, used_allocation: 100 };
    assert_eq!(check_eligible(true, true, Some(&entry), 50), Ok(()));
    assert_eq!(
        check_eligible(true, true, Some(&entry), 51),
        Err(EligibilityError::ExceedsAllocation { remaining: 50 })
    );
    // With the whitelist disabled the allocation is not consulted.
    assert_eq!(check_eligible(false, false, Some(&entry), 51), Ok(()));
}

#[test]
fn consume_books_a_purchase_against_the_allocation() {
    let mut entry = AllocationEntry { user_id: 1, max_allocation: 150, used_allocation: 100 };
    assert_eq!(entry.consume(50), Ok(()));
    assert_eq!(entry.used_allocation, 150);
    // The invariant holds: nothing more can be booked...
    assert_eq!(
        entry.consume(1),
        Err(EligibilityError::ExceedsAllocation { remaining: 0 })
    );
    // ...and the refused booking changed nothing.
    assert_eq!(entry.used_allocation, 150);
    assert_eq!(entry.max_allocation, 150);
}
