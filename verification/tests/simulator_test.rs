//! Tests for the variety navigation simulator.

use domovoi::simulator::{VarietyNavigationSimulator, DomovaiConfig, TestCondition};
use domovoi::agents::{TestAgent, AgentArchetype, AnyAgent};
use domovoi::events::IECColor;

#[test]
fn test_basic_simulation() {
    // Create simulator with 8 dimensions.
    let mut sim = VarietyNavigationSimulator::new(8);

    // Add a protective agent.
    let protective = TestAgent::new(
        8,
        AgentArchetype::Protective {
            guards: vec!["network integrity".to_string()],
            warns_of: vec!["variety attacks".to_string()],
        },
    );
    let _protective_id = sim.add_agent(AnyAgent::Test(protective)).unwrap();

    // Add a neutral agent.
    let neutral = TestAgent::new(
        8,
        AgentArchetype::Neutral {
            bridges_between: ("A2A".to_string(), "CAN Bus".to_string()),
            transformation_type: "protocol translation".to_string(),
        },
    );
    let _neutral_id = sim.add_agent(AnyAgent::Test(neutral)).unwrap();

    // Run for 10 steps.
    let result = sim.run(10).unwrap();

    assert_eq!(result.total_steps, 10);
    assert_eq!(result.step_results.len(), 10);

    // Check that events were generated.
    assert!(!result.final_event_log.is_empty());
}

#[test]
fn test_domovoi_protection() {
    let mut sim = VarietyNavigationSimulator::new(8);

    // Enable Domovoi protection.
    sim.enable_protection(DomovaiConfig::default()).unwrap();

    // Add a malevolent agent.
    let kikimora = TestAgent::new(
        8,
        AgentArchetype::Malevolent {
            attack_patterns: vec!["sleep paralysis".to_string(), "dish breaking".to_string()],
            persistence: 900,
        },
    );
    let _kikimora_id = sim.add_agent(AnyAgent::Test(kikimora)).unwrap();

    // Test DDoS condition: intensity 0.8, five ticks.
    let ddos_result = sim
        .test_condition(TestCondition::DDoS { intensity: 800, duration: 5 })
        .unwrap();

    assert_eq!(ddos_result.condition, "DDoS");
    assert!(ddos_result.success); // Protection was enabled.
    assert_eq!(ddos_result.events_generated, 5);
}

#[test]
fn test_intensive_variety_bomb() {
    let mut sim = VarietyNavigationSimulator::new(8);

    // Test without protection first.
    let bomb_result = sim.test_condition(TestCondition::IntensiveVarietyBomb).unwrap();

    assert_eq!(bomb_result.condition, "Intensive Variety Bomb");
    assert_eq!(bomb_result.iec_classification, IECColor::Red);
}

#[test]
fn test_mixed_agent_ecosystem() {
    let mut sim = VarietyNavigationSimulator::new(8);

    // Create a diverse ecosystem.
    let agents = vec![
        TestAgent::new(
            8,
            AgentArchetype::Protective {
                guards: vec!["consciousness coherence".to_string()],
                warns_of: vec!["reality tears".to_string()],
            },
        ),
        TestAgent::new(
            8,
            AgentArchetype::Malevolent {
                attack_patterns: vec!["variety exhaustion".to_string()],
                persistence: 700,
            },
        ),
        TestAgent::new(
            8,
            AgentArchetype::Neutral {
                bridges_between: ("Human".to_string(), "AI".to_string()),
                transformation_type: "consciousness bridge".to_string(),
            },
        ),
        TestAgent::new(
            8,
            AgentArchetype::Ancestral {
                protocol_age: "30 years".to_string(),
                seeking: "protection and modernization".to_string(),
            },
        ),
    ];

    for agent in agents {
        sim.add_agent(AnyAgent::Test(agent)).unwrap();
    }

    // Enable protection with a tighter loss threshold of 0.2.
    sim.enable_protection(DomovaiConfig {
        allow_extensive: true,
        monitor_intensive: true,
        block_entropic: true,
        max_coherence_loss: 200,
    })
    .unwrap();

    // Run simulation.
    let result = sim.run(20).unwrap();

    // Check coherence didn't collapse (above 0.5).
    let final_coherence = result.step_results.last().unwrap().coherence_average;
    assert!(final_coherence > 500, "Coherence collapsed: {}", final_coherence);
}
