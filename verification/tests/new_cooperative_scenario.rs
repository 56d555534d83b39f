//! Scenarios modelled on a cooperative whose credential variety collapsed,
//! showing how variety regulation changes the outcome.

use domovoi::simulator::{VarietyNavigationSimulator, DomovaiConfig};
use domovoi::agents::{TestAgent, AgentArchetype, AnyAgent};

#[test]
fn test_variety_collapse_detection() {
    // Simulate the cooperative's actual vulnerability.
    let mut sim = VarietyNavigationSimulator::new(8);

    // Create 120 employee agents with collapsed variety (same password).
    for _i in 0..120 {
        let employee = TestAgent::new(
            8,
            AgentArchetype::Ancestral {
                protocol_age: "pre-security-awareness".to_string(),
                seeking: "convenience over security".to_string(),
            },
        );

        // Simulate password variety collapse.
        let mut agent = employee;
        agent.pattern.intensive_potential = 0; // No variety generation.
        agent.pattern.coherence = 100; // Poor security coherence (0.1).

        sim.add_agent(AnyAgent::Test(agent)).unwrap();
    }

    // WITHOUT variety regulation.
    let unprotected = sim.run(5).unwrap();
    let avg_coherence = unprotected.step_results.last().unwrap().coherence_average;

    assert!(avg_coherence < 200, "Unprotected system has collapsed variety");
}

#[test]
fn test_a2a_variety_enforcement() {
    let mut sim = VarietyNavigationSimulator::new(8);

    // Enable variety regulation.
    sim.enable_protection(DomovaiConfig {
        allow_extensive: false,  // Don't allow password reuse.
        monitor_intensive: true, // Watch for variety generation.
        block_entropic: true,    // Block coherence collapse.
        max_coherence_loss: 50,  // Tight variety control (0.05).
    })
    .unwrap();

    // Add variety-aware authentication agent.
    let auth_system = TestAgent::new(
        8,
        AgentArchetype::Protective {
            guards: vec!["password variety".to_string(), "credential uniqueness".to_string()],
            warns_of: vec!["variety collapse".to_string(), "credential reuse".to_string()],
        },
    );
    sim.add_agent(AnyAgent::Test(auth_system)).unwrap();

    // Try to add low-variety credentials.
    let weak_cred = TestAgent::new(
        8,
        AgentArchetype::Neutral {
            bridges_between: ("User".to_string(), "System".to_string()),
            transformation_type: "authentication".to_string(),
        },
    );

    // Regulation should detect and regulate this.
    sim.add_agent(AnyAgent::Test(weak_cred)).unwrap();

    let protected = sim.run(5).unwrap();
    let final_coherence = protected.step_results.last().unwrap().coherence_average;

    assert!(final_coherence > 700, "A2A maintains variety despite attack vectors");
}

#[test]
fn test_vsm_cascade_prevention() {
    // Test how an attack on one node threatens the entire structure.
    let mut sim = VarietyNavigationSimulator::new(8);

    // Create the agricultural management structure.
    let system_5 = TestAgent::new(
        8,
        AgentArchetype::Protective {
            guards: vec!["food security".to_string()],
            warns_of: vec!["systemic threats".to_string()],
        },
    );

    let system_4 = TestAgent::new(
        8,
        AgentArchetype::Neutral {
            bridges_between: ("Market".to_string(), "Operations".to_string()),
            transformation_type: "intelligence gathering".to_string(),
        },
    );

    let system_3 = TestAgent::new(
        8,
        AgentArchetype::Protective {
            guards: vec!["operational control".to_string()],
            warns_of: vec!["cascade failures".to_string()],
        },
    );

    let system_2_a2a = TestAgent::new(
        8,
        AgentArchetype::Protective {
            guards: vec!["inter-system coordination".to_string()],
            warns_of: vec!["variety channel attacks".to_string()],
        },
    );

    sim.add_agent(AnyAgent::Test(system_5)).unwrap();
    sim.add_agent(AnyAgent::Test(system_4)).unwrap();
    sim.add_agent(AnyAgent::Test(system_3)).unwrap();
    sim.add_agent(AnyAgent::Test(system_2_a2a)).unwrap();

    // Enable structure-aware protection.
    sim.enable_protection(DomovaiConfig {
        allow_extensive: true,
        monitor_intensive: true,
        block_entropic: true,
        max_coherence_loss: 100,
    })
    .unwrap();

    // Run simulation.
    let result = sim.run(20).unwrap();

    // Check the structure maintained viability (above 0.8 throughout).
    assert!(
        result.step_results.iter().all(|step| step.coherence_average > 800),
        "VSM maintains viability through A2A variety regulation"
    );
}

#[test]
fn test_real_world_improvements() {
    // What the cooperative should have had.
    let mut sim = VarietyNavigationSimulator::new(8);

    // 1. Variety-enforcing authentication.
    let variety_auth = TestAgent::new(
        8,
        AgentArchetype::Protective {
            guards: vec!["credential variety".to_string()],
            warns_of: vec!["password reuse".to_string()],
        },
    );

    // 2. Coordination between systems.
    let a2a_coordinator = TestAgent::new(
        8,
        AgentArchetype::Protective {
            guards: vec!["system coordination".to_string()],
            warns_of: vec!["single point failures".to_string()],
        },
    );

    // 3. Variety monitoring for anomalies.
    let variety_monitor = TestAgent::new(
        8,
        AgentArchetype::Protective {
            guards: vec!["variety patterns".to_string()],
            warns_of: vec!["variety collapse".to_string(), "intensive attacks".to_string()],
        },
    );

    sim.add_agent(AnyAgent::Test(variety_auth)).unwrap();
    sim.add_agent(AnyAgent::Test(a2a_coordinator)).unwrap();
    sim.add_agent(AnyAgent::Test(variety_monitor)).unwrap();

    sim.enable_protection(DomovaiConfig::default()).unwrap();

    // Simulate operations.
    let result = sim.run(100).unwrap();

    // Should maintain high coherence even under attack (above 0.85).
    let min_coherence = result
        .step_results
        .iter()
        .map(|s| s.coherence_average)
        .min()
        .unwrap();

    assert!(
        min_coherence > 850,
        "With proper A2A variety regulation, the cooperative maintains operations"
    );
}

#[test]
fn test_sector_wide_protection() {
    // How regulation prevents sector-wide threats.
    let mut sim = VarietyNavigationSimulator::new(8);

    // Multiple cooperative nodes.
    for i in 0..10 {
        let coop_node = TestAgent::new(
            8,
            AgentArchetype::Protective {
                guards: vec![format!("coop_{}_operations", i)],
                warns_of: vec!["cross-coop attacks".to_string()],
            },
        );
        sim.add_agent(AnyAgent::Test(coop_node)).unwrap();
    }

    // Sector-wide coordination.
    let sector_a2a = TestAgent::new(
        8,
        AgentArchetype::Protective {
            guards: vec!["agricultural sector integrity".to_string()],
            warns_of: vec!["cascade attacks".to_string(), "sector manipulation".to_string()],
        },
    );
    sim.add_agent(AnyAgent::Test(sector_a2a)).unwrap();

    // Very tight control for critical infrastructure (0.05).
    sim.enable_protection(DomovaiConfig {
        allow_extensive: true,
        monitor_intensive: true,
        block_entropic: true,
        max_coherence_loss: 50,
    })
    .unwrap();

    let result = sim.run(50).unwrap();

    // No single attack can compromise the sector.
    assert!(
        result.step_results.last().unwrap().total_agents >= 10,
        "All cooperatives maintain operations despite targeted attacks"
    );
}
