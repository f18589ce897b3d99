use agent_factory::errors::AgentFactoryError;
use agent_factory::fees::{FeeRates, FeeSplit};

#[test]
fn default_rates_take_one_percent_each() {
    let rates = FeeRates::default();
    assert_eq!(rates.platform_fee_bps, 100);
    assert_eq!(rates.creator_fee_bps, 100);
    assert_eq!(
        rates.split(1_000_000_000),
        Ok(FeeSplit { platform_fee: 10_000_000, creator_fee: 10_000_000, net_amount: 980_000_000 })
    );
}

#[test]
fn small_amounts_pay_no_fee() {
    let rates = FeeRates::default();
    assert_eq!(rates.split(99), Ok(FeeSplit { platform_fee: 0, creator_fee: 0, net_amount: 99 }));
    assert_eq!(rates.split(0), Ok(FeeSplit { platform_fee: 0, creator_fee: 0, net_amount: 0 }));
}

#[test]
fn parts_add_up_to_the_gross_amount() {
    let max = u64::MAX / 20_000;
    for rates in [
        FeeRates::default(),
        FeeRates { platform_fee_bps: 250, creator_fee_bps: 75 },
        FeeRates { platform_fee_bps: 10_000, creator_fee_bps: 0 },
        FeeRates { platform_fee_bps: 3_333, creator_fee_bps: 6_667 },
    ] {
        for gross in [0u64, 1, 99, 12_345, 1_000_000_007, max - 1, max] {
            let s = rates.split(gross).unwrap();
            assert_eq!(s.platform_fee + s.creator_fee + s.net_amount, gross);
        }
    }
}

#[test]
fn independent_rates_are_applied_separately() {
    let rates = FeeRates { platform_fee_bps: 250, creator_fee_bps: 75 };
    assert_eq!(
        rates.split(10_000),
        Ok(FeeSplit { platform_fee: 250, creator_fee: 75, net_amount: 9_675 })
    );
}

#[test]
fn fee_overflow_is_math_overflow() {
    let rates = FeeRates::default();
    assert_eq!(rates.split(u64::MAX), Err(AgentFactoryError::MathOverflow));
    let greedy = FeeRates { platform_fee_bps: 6_000, creator_fee_bps: 6_000 };
    assert_eq!(greedy.split(10_000), Err(AgentFactoryError::MathOverflow));
}
