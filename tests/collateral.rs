use indexer_tap::address::Address;
use indexer_tap::collateral::{AdapterError, CollateralAdapter};

fn gateway() -> Address {
    Address::from_hex("0x9858effd232b4033e47d90003d41ec34ecaeda94").unwrap()
}

#[test]
fn unknown_gateway_has_no_collateral() {
    let ledger = CollateralAdapter::new();
    assert_eq!(ledger.get_available_collateral(&gateway()), 0);
}

#[test]
fn subtraction_decrements_balance() {
    let mut ledger = CollateralAdapter::new();
    ledger.set_collateral(&gateway(), 1000);
    assert_eq!(ledger.subtract_collateral(&gateway(), 300), Ok(()));
    assert_eq!(ledger.get_available_collateral(&gateway()), 700);
    assert_eq!(ledger.subtract_collateral(&gateway(), 700), Ok(()));
    assert_eq!(ledger.get_available_collateral(&gateway()), 0);
}

#[test]
fn excess_subtractions_fail_and_balance_stays_nonnegative() {
    let mut ledger = CollateralAdapter::new();
    ledger.set_collateral(&gateway(), 100);
    let amounts = [30u128, 30, 30, 30, 30];
    let mut granted = 0u128;
    let mut refused = 0;
    for a in amounts {
        match ledger.subtract_collateral(&gateway(), a) {
            Ok(()) => granted += a,
            Err(AdapterError::InsufficientCollateral { available, requested }) => {
                assert_eq!(requested, a);
                assert_eq!(available, 10);
                refused += 1;
            }
        }
    }
    assert_eq!(granted, 90);
    assert_eq!(refused, 2);
    assert_eq!(ledger.get_available_collateral(&gateway()), 10);
}

#[test]
fn insufficient_collateral_leaves_balance() {
    let mut ledger = CollateralAdapter::new();
    assert_eq!(
        ledger.subtract_collateral(&gateway(), 1),
        Err(AdapterError::InsufficientCollateral { available: 0, requested: 1 })
    );
    ledger.set_collateral(&gateway(), u128::MAX);
    assert_eq!(ledger.subtract_collateral(&gateway(), u128::MAX), Ok(()));
    assert_eq!(ledger.get_available_collateral(&gateway()), 0);
    let other = Address::new([1u8; 20]);
    ledger.set_collateral(&other, 5);
    assert_eq!(ledger.get_available_collateral(&gateway()), 0);
    assert_eq!(ledger.get_available_collateral(&other), 5);
}
