use atomus_ai_agent::wallet::{tip_affordable, Wei};

fn wei(high: u128, low: u128) -> Wei {
    Wei { high, low }
}

#[test]
fn balance_must_exceed_the_tip() {
    assert!(tip_affordable(wei(0, 11), wei(0, 10)));
    assert!(!tip_affordable(wei(0, 10), wei(0, 10)));
    assert!(!tip_affordable(wei(0, 9), wei(0, 10)));
    assert!(!tip_affordable(wei(0, 0), wei(0, 0)));
    assert!(tip_affordable(wei(0, 1), wei(0, 0)));
}

#[test]
fn high_half_decides_first() {
    assert!(tip_affordable(wei(1, 0), wei(0, u128::MAX)));
    assert!(!tip_affordable(wei(0, u128::MAX), wei(1, 0)));
    assert!(tip_affordable(wei(2, 5), wei(2, 4)));
    assert!(!tip_affordable(wei(2, 4), wei(2, 4)));
    assert!(!tip_affordable(wei(2, 4), wei(3, 0)));
    assert!(tip_affordable(wei(u128::MAX, u128::MAX), wei(u128::MAX, u128::MAX - 1)));
    assert!(!tip_affordable(wei(u128::MAX, u128::MAX), wei(u128::MAX, u128::MAX)));
}
