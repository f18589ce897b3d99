use vstd::prelude::*;

use crate::agent::{profile_check, Address, Agent, AgentProfile};
use crate::bonding_curve::BondingCurve;
use crate::errors::AgentFactoryError;

verus! {

/// Registry of agents: who administers it, where fees go, and how many agents
/// it has created.
#[derive(Debug, Clone, Copy)]
pub struct AgentFactory {
    pub authority: Address,
    pub platform_treasury: Address,
    pub creation_fee: u64,
    pub total_agents: u64,
    pub bump: u8,
}

impl AgentFactory {
    /// A factory with no agents yet.
    pub fn new(authority: Address, platform_treasury: Address, creation_fee: u64, bump: u8) -> (r: AgentFactory)
        ensures
            r == (AgentFactory { authority, platform_treasury, creation_fee, total_agents: 0, bump }),
    {
        AgentFactory { authority, platform_treasury, creation_fee, total_agents: 0, bump }
    }

    /// Sets the creation fee and returns the previous one.
    pub fn set_creation_fee(&mut self, new_fee: u64) -> (r: u64)
        ensures
            r == old(self).creation_fee,
            *final(self) == (AgentFactory { creation_fee: new_fee, ..*old(self) }),
    {
        let previous = self.creation_fee;
        self.creation_fee = new_fee;
        previous
    }

    /// Creates the next agent from a checked profile: it takes the current
    /// agent count as its id, starts ungraduated on a launch-state curve, and
    /// the count goes up by one. On failure the factory is unchanged.
    pub fn create_agent(
        &mut self,
        profile: AgentProfile,
        mint: Address,
        creator: Address,
        created_at: i64,
        bump: u8,
    ) -> (r: Result<Agent, AgentFactoryError>)
        ensures
            profile_check(profile.name@, profile.symbol@, profile.description@, profile.instructions@)
                matches Err(e) ==> r == Err::<Agent, AgentFactoryError>(e) && *final(self) == *old(self),
            profile_check(profile.name@, profile.symbol@, profile.description@, profile.instructions@)
                is Ok && old(self).total_agents == u64::MAX ==> r == Err::<Agent, AgentFactoryError>(
                AgentFactoryError::MathOverflow,
            ) && *final(self) == *old(self),
            r matches Ok(agent) ==> {
                &&& profile_check(profile.name@, profile.symbol@, profile.description@, profile.instructions@) is Ok
                &&& *final(self) == (AgentFactory { total_agents: (old(self).total_agents + 1) as u64, ..*old(self) })
                &&& agent.agent_id == old(self).total_agents
                &&& agent.mint == mint
                &&& agent.creator == creator
                &&& agent.name@ == profile.name@
                &&& agent.symbol@ == profile.symbol@
                &&& agent.description@ == profile.description@
                &&& agent.instructions@ == profile.instructions@
                &&& agent.model@ == profile.model@
                &&& agent.category@ == profile.category@
                &&& agent.created_at == created_at
                &&& !agent.is_graduated
                &&& agent.bonding_curve == BondingCurve::launch()
                &&& agent.bump == bump
            },
            profile_check(profile.name@, profile.symbol@, profile.description@, profile.instructions@) is Ok
                && old(self).total_agents < u64::MAX ==> r is Ok,
    {
        match profile.validate() {
            Ok(()) => {},
            Err(e) => return Err(e),
        }
        if self.total_agents == u64::MAX {
            return Err(AgentFactoryError::MathOverflow);
        }
        let agent_id = self.total_agents;
        self.total_agents = self.total_agents + 1;
        Ok(Agent {
            agent_id,
            mint,
            creator,
            name: profile.name,
            symbol: profile.symbol,
            description: profile.description,
            instructions: profile.instructions,
            model: profile.model,
            category: profile.category,
            created_at,
            is_graduated: false,
            bonding_curve: BondingCurve::new(),
            bump,
        })
    }
}

} // verus!
