use gateway_fees::fees::{fee_is_covered, split_amount};
use gateway_fees::{Address, Split, TokenId};

#[test]
fn fee_is_rounded_down() {
    assert_eq!(
        split_amount(1000, 12),
        Split {
            fees_amount: 120,
            rest_amount: 880
        }
    );
    assert_eq!(
        split_amount(99, 1),
        Split {
            fees_amount: 0,
            rest_amount: 99
        }
    );
    assert_eq!(
        split_amount(199, 1),
        Split {
            fees_amount: 1,
            rest_amount: 198
        }
    );
    assert_eq!(
        split_amount(101, 12),
        Split {
            fees_amount: 12,
            rest_amount: 89
        }
    );
    assert_eq!(
        split_amount(7, 99),
        Split {
            fees_amount: 6,
            rest_amount: 1
        }
    );
    assert_eq!(
        split_amount(1_000_000_000_000_000_000, 33),
        Split {
            fees_amount: 330_000_000_000_000_000,
            rest_amount: 670_000_000_000_000_000
        }
    );
}

#[test]
fn fee_of_nothing_is_nothing() {
    for percent in [0u128, 1, 100, 101, 250, u128::MAX] {
        assert!(fee_is_covered(0, percent));
        assert_eq!(
            split_amount(0, percent),
            Split {
                fees_amount: 0,
                rest_amount: 0
            }
        );
    }
}

#[test]
fn fee_agrees_with_the_formula_on_small_values() {
    for percent in 0u128..=100 {
        for amount in 0u128..=300 {
            let split = split_amount(amount, percent);
            assert_eq!(split.fees_amount, amount * percent / 100);
            assert_eq!(split.rest_amount, amount - amount * percent / 100);
        }
    }
}

#[test]
fn fee_never_shrinks_as_the_deposit_grows() {
    for percent in [1u128, 12, 50, 100] {
        let mut last = 0u128;
        for amount in 0u128..=500 {
            let fee = split_amount(amount, percent).fees_amount;
            assert!(fee >= last);
            last = fee;
        }
    }
}

#[test]
fn fee_is_covered_up_to_hundred_percent() {
    for percent in [0u128, 1, 12, 99, 100] {
        for amount in [0u128, 1, 99, 100, 12345, u128::MAX] {
            assert!(fee_is_covered(amount, percent));
        }
    }
}

#[test]
fn fee_above_hundred_percent_is_covered_only_while_it_rounds_down_to_the_deposit() {
    for percent in 101u128..=400 {
        for amount in 0u128..=250 {
            assert_eq!(
                fee_is_covered(amount, percent),
                amount * percent / 100 <= amount
            );
        }
    }
    assert!(fee_is_covered(99, 101));
    assert!(!fee_is_covered(100, 101));
    assert!(fee_is_covered(1, 199));
    assert!(!fee_is_covered(1, 200));
    assert!(!fee_is_covered(u128::MAX, 101));
    assert!(!fee_is_covered(1, u128::MAX));
    assert!(!fee_is_covered(u128::MAX, u128::MAX));
}

#[test]
fn covered_fee_above_hundred_percent_takes_the_whole_deposit() {
    assert_eq!(
        split_amount(99, 101),
        Split {
            fees_amount: 99,
            rest_amount: 0
        }
    );
    assert_eq!(
        split_amount(1, 199),
        Split {
            fees_amount: 1,
            rest_amount: 0
        }
    );
}

#[test]
fn same_token_goes_by_the_name() {
    let egld = TokenId::egld();
    assert!(egld.same_token(&TokenId::from_bytes(b"EGLD".to_vec())));
    assert!(egld.same_token(&egld));
    assert!(!egld.same_token(&TokenId::from_bytes(b"egld".to_vec())));
    assert!(!egld.same_token(&TokenId::from_bytes(b"EGLD-123456".to_vec())));
    assert!(!egld.same_token(&TokenId::from_bytes(Vec::new())));
    assert!(TokenId::from_bytes(Vec::new()).same_token(&TokenId::from_bytes(Vec::new())));
    assert_eq!(egld.as_bytes().as_slice(), &b"EGLD"[..]);
}

#[test]
fn address_keeps_its_bytes() {
    let mut key = [0u8; 32];
    for (i, byte) in key.iter_mut().enumerate() {
        *byte = i as u8;
    }
    assert_eq!(Address::from_bytes(key).to_bytes(), key);
}
