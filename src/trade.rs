use vstd::prelude::*;

use crate::agent::Agent;
use crate::errors::AgentFactoryError;
use crate::fees::{FeeRates, FeeSplit};

verus! {

/// A priced buy, checked against the buyer's bound, ready to settle: the buyer
/// pays `fees.net_amount` into the pool and each fee to its receiver,
/// `tokens_out` tokens are minted to the buyer, and the reserves move by the
/// full `sol_amount` that was quoted.
#[derive(Debug, Clone, Copy, PartialEq, Eq, Structural)]
pub struct BuyPlan {
    pub sol_amount: u64,
    pub tokens_out: u64,
    pub fees: FeeSplit,
}

/// A priced sale, checked against the seller's bound, ready to settle:
/// `token_amount` tokens are burnt, the pool pays `fees.net_amount` to the
/// seller and each fee to its receiver, `sol_out` lamports in all.
#[derive(Debug, Clone, Copy, PartialEq, Eq, Structural)]
pub struct SellPlan {
    pub token_amount: u64,
    pub sol_out: u64,
    pub fees: FeeSplit,
}

/// What `prepare_buy` returns: the checks in order, the first that fails
/// giving the error.
pub open spec fn buy_plan_of(agent: Agent, sol_amount: u64, min_tokens_out: u64, rates: FeeRates) -> Result<BuyPlan, AgentFactoryError> {
    if sol_amount == 0 {
        Err(AgentFactoryError::InvalidBuyAmount)
    } else if agent.is_graduated {
        Err(AgentFactoryError::AlreadyGraduated)
    } else {
        match agent.bonding_curve.buy_quote(sol_amount) {
            Err(e) => Err(e),
            Ok(tokens_out) => if tokens_out < min_tokens_out {
                Err(AgentFactoryError::SlippageExceeded)
            } else {
                match rates.split_of(sol_amount) {
                    Err(e) => Err(e),
                    Ok(fees) => match agent.bonding_curve.after_buy(sol_amount, tokens_out) {
                        Err(e) => Err(e),
                        Ok(_) => Ok(BuyPlan { sol_amount, tokens_out, fees }),
                    },
                }
            },
        }
    }
}

/// What `prepare_sell` returns: the checks in order, the first that fails
/// giving the error.
pub open spec fn sell_plan_of(agent: Agent, token_amount: u64, min_sol_out: u64, rates: FeeRates) -> Result<SellPlan, AgentFactoryError> {
    if token_amount == 0 {
        Err(AgentFactoryError::InvalidSellAmount)
    } else if agent.is_graduated {
        Err(AgentFactoryError::AlreadyGraduated)
    } else {
        match agent.bonding_curve.sell_quote(token_amount) {
            Err(e) => Err(e),
            Ok(sol_out) => if sol_out < min_sol_out {
                Err(AgentFactoryError::SlippageExceeded)
            } else {
                match rates.split_of(sol_out) {
                    Err(e) => Err(e),
                    Ok(fees) => if sol_out > agent.bonding_curve.real_sol_reserves {
                        Err(AgentFactoryError::InsufficientLiquidity)
                    } else {
                        match agent.bonding_curve.after_sell(token_amount, sol_out) {
                            Err(e) => Err(e),
                            Ok(_) => Ok(SellPlan { token_amount, sol_out, fees }),
                        }
                    }
                }
            },
        }
    }
}

/// Prices a buy of `sol_amount` lamports and checks everything that could
/// make it fail, before any value moves. The agent is not changed.
pub fn prepare_buy(agent: &Agent, sol_amount: u64, min_tokens_out: u64, rates: FeeRates) -> (r: Result<BuyPlan, AgentFactoryError>)
    ensures
        r == buy_plan_of(*agent, sol_amount, min_tokens_out, rates),
{
    if sol_amount == 0 {
        return Err(AgentFactoryError::InvalidBuyAmount);
    }
    if agent.is_graduated {
        return Err(AgentFactoryError::AlreadyGraduated);
    }
    let tokens_out = match agent.bonding_curve.calculate_buy(sol_amount) {
        Ok(t) => t,
        Err(e) => return Err(e),
    };
    if tokens_out < min_tokens_out {
        return Err(AgentFactoryError::SlippageExceeded);
    }
    let fees = match rates.split(sol_amount) {
        Ok(s) => s,
        Err(e) => return Err(e),
    };
    let mut next = agent.bonding_curve;
    match next.update_after_buy(sol_amount, tokens_out) {
        Ok(()) => {},
        Err(e) => return Err(e),
    }
    Ok(BuyPlan { sol_amount, tokens_out, fees })
}

/// Commits a buy whose value has moved: the SOL reserves grow by the quoted
/// gross amount and the token reserves give up the tokens. On failure the agent is unchanged.
pub fn settle_buy(agent: &mut Agent, plan: &BuyPlan) -> (r: Result<(), AgentFactoryError>)
    ensures
        old(agent).is_graduated ==> r == Err::<(), AgentFactoryError>(AgentFactoryError::AlreadyGraduated)
            && *final(agent) == *old(agent),
        !old(agent).is_graduated ==> match old(agent).bonding_curve.after_buy(plan.sol_amount, plan.tokens_out) {
            Ok(next) => r is Ok && *final(agent) == (Agent { bonding_curve: next, ..*old(agent) }),
            Err(e) => r == Err::<(), AgentFactoryError>(e) && *final(agent) == *old(agent),
        },
{
    if agent.is_graduated {
        return Err(AgentFactoryError::AlreadyGraduated);
    }
    agent.bonding_curve.update_after_buy(plan.sol_amount, plan.tokens_out)
}

/// Prices a sale of `token_amount` tokens and checks everything that could
/// make it fail, the pool's liquidity included, before any value moves. The
/// agent is not changed.
pub fn prepare_sell(agent: &Agent, token_amount: u64, min_sol_out: u64, rates: FeeRates) -> (r: Result<SellPlan, AgentFactoryError>)
    ensures
        r == sell_plan_of(*agent, token_amount, min_sol_out, rates),
{
    if token_amount == 0 {
        return Err(AgentFactoryError::InvalidSellAmount);
    }
    if agent.is_graduated {
        return Err(AgentFactoryError::AlreadyGraduated);
    }
    let sol_out = match agent.bonding_curve.calculate_sell(token_amount) {
        Ok(s) => s,
        Err(e) => return Err(e),
    };
    if sol_out < min_sol_out {
        return Err(AgentFactoryError::SlippageExceeded);
    }
    let fees = match rates.split(sol_out) {
        Ok(s) => s,
        Err(e) => return Err(e),
    };
    if sol_out > agent.bonding_curve.real_sol_reserves {
        return Err(AgentFactoryError::InsufficientLiquidity);
    }
    let mut next = agent.bonding_curve;
    match next.update_after_sell(token_amount, sol_out) {
        Ok(()) => {},
        Err(e) => return Err(e),
    }
    Ok(SellPlan { token_amount, sol_out, fees })
}

/// Commits a sale whose value has moved: the pool takes the tokens back and
/// gives up the whole `sol_out`. On failure the agent is unchanged.
pub fn settle_sell(agent: &mut Agent, plan: &SellPlan) -> (r: Result<(), AgentFactoryError>)
    ensures
        old(agent).is_graduated ==> r == Err::<(), AgentFactoryError>(AgentFactoryError::AlreadyGraduated)
            && *final(agent) == *old(agent),
        !old(agent).is_graduated ==> match old(agent).bonding_curve.after_sell(plan.token_amount, plan.sol_out) {
            Ok(next) => r is Ok && *final(agent) == (Agent { bonding_curve: next, ..*old(agent) }),
            Err(e) => r == Err::<(), AgentFactoryError>(e) && *final(agent) == *old(agent),
        },
{
    if agent.is_graduated {
        return Err(AgentFactoryError::AlreadyGraduated);
    }
    agent.bonding_curve.update_after_sell(plan.token_amount, plan.sol_out)
}

/// A trade that was prepared settles on the agent it was prepared from:
/// every failure is found before any value moves, and the settled reserves
/// are the quoted ones.
pub proof fn lemma_prepared_trades_settle(agent: Agent, amount: u64, min_out: u64, rates: FeeRates)
    ensures
        buy_plan_of(agent, amount, min_out, rates) matches Ok(plan) ==> {
            &&& !agent.is_graduated
            &&& agent.bonding_curve.after_buy(plan.sol_amount, plan.tokens_out) is Ok
            &&& plan.sol_amount == amount
            &&& plan.tokens_out >= min_out
            &&& Ok::<u64, AgentFactoryError>(plan.tokens_out) == agent.bonding_curve.buy_quote(amount)
            &&& Ok::<FeeSplit, AgentFactoryError>(plan.fees) == rates.split_of(amount)
        },
        sell_plan_of(agent, amount, min_out, rates) matches Ok(plan) ==> {
            &&& !agent.is_graduated
            &&& agent.bonding_curve.after_sell(plan.token_amount, plan.sol_out) is Ok
            &&& plan.token_amount == amount
            &&& plan.sol_out >= min_out
            &&& Ok::<u64, AgentFactoryError>(plan.sol_out) == agent.bonding_curve.sell_quote(amount)
            &&& Ok::<FeeSplit, AgentFactoryError>(plan.fees) == rates.split_of(plan.sol_out)
        },
{
}

/// Once an agent has graduated, every buy and every sale of a nonzero amount
/// fails with `AlreadyGraduated`, settling fails the same way, and the agent
/// cannot graduate again.
pub proof fn lemma_graduated_market_is_closed(agent: Agent, amount: u64, min_out: u64, rates: FeeRates)
    requires
        agent.is_graduated,
        amount > 0,
    ensures
        buy_plan_of(agent, amount, min_out, rates) == Err::<BuyPlan, AgentFactoryError>(AgentFactoryError::AlreadyGraduated),
        sell_plan_of(agent, amount, min_out, rates) == Err::<SellPlan, AgentFactoryError>(AgentFactoryError::AlreadyGraduated),
        !agent.graduation_ready(),
{
}

} // verus!
