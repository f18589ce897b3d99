use vstd::prelude::*;

use crate::errors::AgentFactoryError;

verus! {

/// Denominator of fee rates: rates are in basis points.
pub const BPS_SCALE: u64 = 10_000;

/// Default platform and creator fee: one percent each.
pub const DEFAULT_FEE_BPS: u64 = 100;

/// Platform and creator fee rates, in basis points of a settled amount.
#[derive(Debug, Clone, Copy, PartialEq, Eq, Structural)]
pub struct FeeRates {
    pub platform_fee_bps: u64,
    pub creator_fee_bps: u64,
}

/// A settled amount split into its three parts.
#[derive(Debug, Clone, Copy, PartialEq, Eq, Structural)]
pub struct FeeSplit {
    pub platform_fee: u64,
    pub creator_fee: u64,
    pub net_amount: u64,
}

impl FeeRates {
    /// The rates take together at most the whole amount.
    pub open spec fn wf(self) -> bool {
        self.platform_fee_bps + self.creator_fee_bps <= BPS_SCALE
    }

    /// What `split` returns: each fee is `gross * bps / 10000` after a
    /// checked multiply, and the rest is the net amount.
    pub open spec fn split_of(self, gross: u64) -> Result<FeeSplit, AgentFactoryError> {
        if gross * self.platform_fee_bps > u64::MAX || gross * self.creator_fee_bps > u64::MAX {
            Err(AgentFactoryError::MathOverflow)
        } else {
            let platform = gross * self.platform_fee_bps / BPS_SCALE as int;
            let creator = gross * self.creator_fee_bps / BPS_SCALE as int;
            if platform + creator > gross {
                Err(AgentFactoryError::MathOverflow)
            } else {
                Ok(FeeSplit {
                    platform_fee: platform as u64,
                    creator_fee: creator as u64,
                    net_amount: (gross - platform - creator) as u64,
                })
            }
        }
    }

    /// Splits `gross` into platform fee, creator fee and net amount.
    pub fn split(&self, gross: u64) -> (r: Result<FeeSplit, AgentFactoryError>)
        ensures
            r == self.split_of(gross),
            r matches Ok(s) ==> s.platform_fee + s.creator_fee + s.net_amount == gross,
    {
        let platform_scaled = match gross.checked_mul(self.platform_fee_bps) {
            Some(v) => v,
            None => return Err(AgentFactoryError::MathOverflow),
        };
        let creator_scaled = match gross.checked_mul(self.creator_fee_bps) {
            Some(v) => v,
            None => return Err(AgentFactoryError::MathOverflow),
        };
        let platform_fee = platform_scaled / BPS_SCALE;
        let creator_fee = creator_scaled / BPS_SCALE;
        if platform_fee > gross || creator_fee > gross - platform_fee {
            return Err(AgentFactoryError::MathOverflow);
        }
        Ok(FeeSplit { platform_fee, creator_fee, net_amount: gross - platform_fee - creator_fee })
    }
}

impl Default for FeeRates {
    fn default() -> (r: FeeRates)
        ensures
            r.platform_fee_bps == DEFAULT_FEE_BPS,
            r.creator_fee_bps == DEFAULT_FEE_BPS,
    {
        FeeRates { platform_fee_bps: DEFAULT_FEE_BPS, creator_fee_bps: DEFAULT_FEE_BPS }
    }
}

/// For every amount up to `u64::MAX / 20000` and rates that take together at
/// most the whole amount, the split succeeds and its three parts add up to the
/// amount exactly.
pub proof fn lemma_fee_identity(rates: FeeRates, gross: u64)
    requires
        rates.wf(),
        gross <= u64::MAX / 20_000,
    ensures
        rates.split_of(gross) matches Ok(s)
            && s.platform_fee + s.creator_fee + s.net_amount == gross,
{
    let p = rates.platform_fee_bps as int;
    let c = rates.creator_fee_bps as int;
    let g = gross as int;
    assert(g * p <= u64::MAX && g * c <= u64::MAX) by (nonlinear_arith)
        requires 0 <= g <= u64::MAX / 20_000, 0 <= p <= 10_000, 0 <= c <= 10_000;
    assert(g * p + g * c <= g * 10_000) by (nonlinear_arith)
        requires 0 <= g, 0 <= p, 0 <= c, p + c <= 10_000;
    vstd::arithmetic::div_mod::lemma_div_is_ordered(g * p, g * 10_000 - g * c, 10_000);
    vstd::arithmetic::div_mod::lemma_fundamental_div_mod(g * p, 10_000);
    vstd::arithmetic::div_mod::lemma_fundamental_div_mod(g * c, 10_000);
    assert(g * p / 10_000 + g * c / 10_000 <= g);
}

} // verus!
