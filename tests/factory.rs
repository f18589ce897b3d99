use agent_factory::agent::AgentProfile;
use agent_factory::bonding_curve::BondingCurve;
use agent_factory::errors::AgentFactoryError;
use agent_factory::factory::AgentFactory;

fn profile(name: &str, symbol: &str) -> AgentProfile {
    AgentProfile {
        name: name.to_string(),
        symbol: symbol.to_string(),
        description: String::new(),
        instructions: String::new(),
        model: "m".to_string(),
        category: "c".to_string(),
    }
}

#[test]
fn new_factory_has_no_agents() {
    let f = AgentFactory::new([1u8; 32], [2u8; 32], 500, 7);
    assert_eq!(f.authority, [1u8; 32]);
    assert_eq!(f.platform_treasury, [2u8; 32]);
    assert_eq!(f.creation_fee, 500);
    assert_eq!(f.total_agents, 0);
    assert_eq!(f.bump, 7);
}

#[test]
fn set_creation_fee_returns_the_old_one() {
    let mut f = AgentFactory::new([1u8; 32], [2u8; 32], 500, 7);
    assert_eq!(f.set_creation_fee(900), 500);
    assert_eq!(f.creation_fee, 900);
}

#[test]
fn agents_get_consecutive_ids() {
    let mut f = AgentFactory::new([1u8; 32], [2u8; 32], 0, 7);
    let a = f.create_agent(profile("One", "ONE"), [3u8; 32], [4u8; 32], 11, 1).unwrap();
    let b = f.create_agent(profile("Two", "TWO"), [5u8; 32], [6u8; 32], 12, 2).unwrap();
    assert_eq!(a.agent_id, 0);
    assert_eq!(b.agent_id, 1);
    assert_eq!(f.total_agents, 2);
    assert_eq!(a.name, "One");
    assert_eq!(a.symbol, "ONE");
    assert_eq!(a.model, "m");
    assert_eq!(a.category, "c");
    assert_eq!(a.mint, [3u8; 32]);
    assert_eq!(a.creator, [4u8; 32]);
    assert_eq!(a.created_at, 11);
    assert_eq!(a.bump, 1);
    assert!(!a.is_graduated);
    assert_eq!(a.bonding_curve, BondingCurve::new());
}

#[test]
fn profile_limits_are_checked_in_order() {
    let mut f = AgentFactory::new([1u8; 32], [2u8; 32], 0, 7);
    assert_eq!(f.create_agent(profile("", "S"), [0; 32], [0; 32], 0, 0).unwrap_err(), AgentFactoryError::InvalidName);
    assert_eq!(
        f.create_agent(profile(&"n".repeat(33), ""), [0; 32], [0; 32], 0, 0).unwrap_err(),
        AgentFactoryError::InvalidName
    );
    assert_eq!(f.create_agent(profile("N", ""), [0; 32], [0; 32], 0, 0).unwrap_err(), AgentFactoryError::InvalidSymbol);
    assert_eq!(
        f.create_agent(profile("N", &"s".repeat(11)), [0; 32], [0; 32], 0, 0).unwrap_err(),
        AgentFactoryError::InvalidSymbol
    );
    let mut p = profile(&"n".repeat(32), &"s".repeat(10));
    p.description = "d".repeat(201);
    assert_eq!(f.create_agent(p.clone(), [0; 32], [0; 32], 0, 0).unwrap_err(), AgentFactoryError::DescriptionTooLong);
    p.description = "d".repeat(200);
    p.instructions = "i".repeat(501);
    assert_eq!(f.create_agent(p.clone(), [0; 32], [0; 32], 0, 0).unwrap_err(), AgentFactoryError::InstructionsTooLong);
    assert_eq!(f.total_agents, 0);
    p.instructions = "i".repeat(500);
    assert!(f.create_agent(p, [0; 32], [0; 32], 0, 0).is_ok());
    assert_eq!(f.total_agents, 1);
}

#[test]
fn name_limit_counts_bytes() {
    let mut f = AgentFactory::new([1u8; 32], [2u8; 32], 0, 7);
    // Seventeen two-byte characters: 34 bytes.
    assert_eq!(
        f.create_agent(profile(&"\u{e9}".repeat(17), "S"), [0; 32], [0; 32], 0, 0).unwrap_err(),
        AgentFactoryError::InvalidName
    );
    assert!(f.create_agent(profile(&"\u{e9}".repeat(16), "S"), [0; 32], [0; 32], 0, 0).is_ok());
}

#[test]
fn agent_count_overflow_is_math_overflow() {
    let mut f = AgentFactory::new([1u8; 32], [2u8; 32], 0, 7);
    f.total_agents = u64::MAX;
    assert_eq!(f.create_agent(profile("N", "S"), [0; 32], [0; 32], 0, 0).unwrap_err(), AgentFactoryError::MathOverflow);
    assert_eq!(f.total_agents, u64::MAX);
}
