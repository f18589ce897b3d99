use vstd::prelude::*;

use crate::bonding_curve::BondingCurve;
use crate::errors::AgentFactoryError;

verus! {

/// A 32-byte account address.
pub type Address = [u8; 32];

/// Longest name, in bytes.
pub const MAX_NAME_LEN: usize = 32;

/// Longest token symbol, in bytes.
pub const MAX_SYMBOL_LEN: usize = 10;

/// Longest description, in bytes.
pub const MAX_DESCRIPTION_LEN: usize = 200;

/// Longest instructions text, in bytes.
pub const MAX_INSTRUCTIONS_LEN: usize = 500;

/// Length in bytes of the UTF-8 encoding of a text held in memory.
pub open spec fn byte_len(s: Seq<char>) -> usize {
    vstd::utf8::encode_utf8(s).len() as usize
}

/// What an agent's creator describes it by.
#[derive(Debug, Clone)]
pub struct AgentProfile {
    pub name: String,
    pub symbol: String,
    pub description: String,
    pub instructions: String,
    pub model: String,
    pub category: String,
}

/// An AI agent with its own token, traded on its bonding curve until it
/// graduates.
#[derive(Debug, Clone)]
pub struct Agent {
    pub agent_id: u64,
    pub mint: Address,
    pub creator: Address,
    pub name: String,
    pub symbol: String,
    pub description: String,
    pub instructions: String,
    pub model: String,
    pub category: String,
    pub created_at: i64,
    pub is_graduated: bool,
    pub bonding_curve: BondingCurve,
    pub bump: u8,
}

/// The check of a profile: which length limit it breaks first, if any.
pub open spec fn profile_check(name: Seq<char>, symbol: Seq<char>, description: Seq<char>, instructions: Seq<char>) -> Result<(), AgentFactoryError> {
    if byte_len(name) == 0 || byte_len(name) > MAX_NAME_LEN {
        Err(AgentFactoryError::InvalidName)
    } else if byte_len(symbol) == 0 || byte_len(symbol) > MAX_SYMBOL_LEN {
        Err(AgentFactoryError::InvalidSymbol)
    } else if byte_len(description) > MAX_DESCRIPTION_LEN {
        Err(AgentFactoryError::DescriptionTooLong)
    } else if byte_len(instructions) > MAX_INSTRUCTIONS_LEN {
        Err(AgentFactoryError::InstructionsTooLong)
    } else {
        Ok(())
    }
}

impl AgentProfile {
    /// Checks the length limits: a name of 1 to 32 bytes, a symbol of 1 to 10
    /// bytes, a description of at most 200 and instructions of at most 500.
    pub fn validate(&self) -> (r: Result<(), AgentFactoryError>)
        ensures
            r == profile_check(self.name@, self.symbol@, self.description@, self.instructions@),
    {
        let name_len = self.name.as_str().len();
        let symbol_len = self.symbol.as_str().len();
        if name_len == 0 || name_len > MAX_NAME_LEN {
            return Err(AgentFactoryError::InvalidName);
        }
        if symbol_len == 0 || symbol_len > MAX_SYMBOL_LEN {
            return Err(AgentFactoryError::InvalidSymbol);
        }
        if self.description.as_str().len() > MAX_DESCRIPTION_LEN {
            return Err(AgentFactoryError::DescriptionTooLong);
        }
        if self.instructions.as_str().len() > MAX_INSTRUCTIONS_LEN {
            return Err(AgentFactoryError::InstructionsTooLong);
        }
        Ok(())
    }
}

impl Agent {
    /// The agent may graduate: not yet graduated, and its pool holds at least
    /// the graduation threshold.
    pub open spec fn graduation_ready(&self) -> bool {
        !self.is_graduated
            && self.bonding_curve.real_sol_reserves >= self.bonding_curve.graduation_threshold
    }

    /// Whether the agent can graduate now.
    pub fn can_graduate(&self) -> (r: bool)
        ensures
            r == self.graduation_ready(),
    {
        !self.is_graduated
            && self.bonding_curve.real_sol_reserves >= self.bonding_curve.graduation_threshold
    }

    /// Ends trading on the curve for good, once the threshold is reached.
    pub fn graduate(&mut self) -> (r: Result<(), AgentFactoryError>)
        ensures
            old(self).graduation_ready() ==> r is Ok
                && *final(self) == (Agent { is_graduated: true, ..*old(self) }),
            !old(self).graduation_ready() ==> r == Err::<(), AgentFactoryError>(
                AgentFactoryError::CannotGraduate,
            ) && *final(self) == *old(self),
    {
        if !self.can_graduate() {
            return Err(AgentFactoryError::CannotGraduate);
        }
        self.is_graduated = true;
        Ok(())
    }
}

} // verus!
