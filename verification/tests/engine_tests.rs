//! Engine-level tests: edge cases, error variants, exact classification
//! and distance values, and the scripted examples from the design.

use domovoi::simulator::{
    VarietyNavigationSimulator, DomovaiConfig, DomovaiPattern, RegulationDecision, TestCondition,
};
use domovoi::agents::{TestAgent, AgentArchetype, AnyAgent, ScriptedAgent, BlackMatter, VirtualAgent};
use domovoi::events::{EventType, IECColor, VarietyEvent};
use domovoi::variety::{
    VarietyPattern, VarietySpace, VarietyTransformation, NavigationResult, VarietyError,
};

fn neutral_archetype() -> AgentArchetype {
    AgentArchetype::Neutral {
        bridges_between: ("A".to_string(), "B".to_string()),
        transformation_type: "test".to_string(),
    }
}

#[test]
fn test_empty_population_run() {
    // Dimensionality 8, zero agents, five steps: every summary reports
    // mean coherence exactly 1.0 and population 0.
    let mut sim = VarietyNavigationSimulator::new(8);
    let result = sim.run(5).unwrap();

    assert_eq!(result.total_steps, 5);
    assert_eq!(result.step_results.len(), 5);
    for step in &result.step_results {
        assert_eq!(step.coherence_average, 1000);
        assert_eq!(step.total_agents, 0);
    }
}

#[test]
fn test_blocked_entropic_run() {
    // One agent fixed to always propose a 0.5-loss, 0.1-risk entropic
    // transformation, with a 0.2 loss threshold: three blocked events,
    // coherence reported unchanged across all steps.
    let mut sim = VarietyNavigationSimulator::new(8);
    let agent = ScriptedAgent::new(
        8,
        VarietyTransformation::Entropic { coherence_loss: 500, reality_tear_risk: 100 },
    );
    sim.add_agent(AnyAgent::Scripted(agent)).unwrap();
    sim.enable_protection(DomovaiConfig {
        allow_extensive: true,
        monitor_intensive: true,
        block_entropic: true,
        max_coherence_loss: 200,
    })
    .unwrap();

    let result = sim.run(3).unwrap();

    let blocks = result
        .final_event_log
        .iter()
        .filter(|e| matches!(e.event_type, EventType::MalevolentAction { .. }))
        .count();
    assert_eq!(blocks, 3);

    // A scripted agent starts at full coherence; with every proposal
    // blocked, the reported mean (the one agent's coherence) never moves.
    for step in &result.step_results {
        assert_eq!(step.coherence_average, 1000);
    }
}

#[test]
fn test_instability_aborts_run() {
    // An entropic proposal with instability risk above 0.8 aborts the run.
    let mut sim = VarietyNavigationSimulator::new(8);
    let agent = ScriptedAgent::new(
        8,
        VarietyTransformation::Entropic { coherence_loss: 500, reality_tear_risk: 900 },
    );
    sim.add_agent(AnyAgent::Scripted(agent)).unwrap();

    let result = sim.run(2);
    assert!(matches!(result, Err(VarietyError::RealityTear)));
}

#[test]
fn test_instability_aborts_with_lenient_protection() {
    // A configuration whose threshold admits the loss still lets the
    // instability through, and the run aborts.
    let mut sim = VarietyNavigationSimulator::new(8);
    let agent = ScriptedAgent::new(
        8,
        VarietyTransformation::Entropic { coherence_loss: 500, reality_tear_risk: 900 },
    );
    sim.add_agent(AnyAgent::Scripted(agent)).unwrap();
    sim.enable_protection(DomovaiConfig {
        allow_extensive: true,
        monitor_intensive: true,
        block_entropic: true,
        max_coherence_loss: 600,
    })
    .unwrap();

    let result = sim.run(2);
    assert!(matches!(result, Err(VarietyError::RealityTear)));
}

#[test]
fn test_blocking_prevents_instability_abort() {
    // The same unstable proposal is blocked outright by a tight threshold,
    // so the run completes.
    let mut sim = VarietyNavigationSimulator::new(8);
    let agent = ScriptedAgent::new(
        8,
        VarietyTransformation::Entropic { coherence_loss: 900, reality_tear_risk: 900 },
    );
    sim.add_agent(AnyAgent::Scripted(agent)).unwrap();
    sim.enable_protection(DomovaiConfig {
        allow_extensive: true,
        monitor_intensive: true,
        block_entropic: true,
        max_coherence_loss: 200,
    })
    .unwrap();

    let result = sim.run(2).unwrap();
    assert_eq!(result.total_steps, 2);
}

#[test]
fn test_dimension_mismatch_rejected() {
    let mut sim = VarietyNavigationSimulator::new(8);
    let agent = TestAgent::new(4, neutral_archetype());
    let r = sim.add_agent(AnyAgent::Test(agent));
    assert_eq!(r, Err(VarietyError::DimensionMismatch));
}

#[test]
fn test_invalid_pattern_rejected() {
    let mut sim = VarietyNavigationSimulator::new(8);
    let mut agent = TestAgent::new(8, neutral_archetype());
    agent.pattern.coherence = 2000; // Outside the unit interval.
    let r = sim.add_agent(AnyAgent::Test(agent));
    assert_eq!(r, Err(VarietyError::InvalidThreshold));
}

#[test]
fn test_invalid_threshold_rejected() {
    let mut sim = VarietyNavigationSimulator::new(8);
    let r = sim.enable_protection(DomovaiConfig {
        allow_extensive: true,
        monitor_intensive: true,
        block_entropic: true,
        max_coherence_loss: 2000, // Outside the unit interval.
    });
    assert_eq!(r, Err(VarietyError::InvalidThreshold));
}

#[test]
fn test_assigned_ids_are_sequential() {
    let mut sim = VarietyNavigationSimulator::new(8);
    let a = sim.add_agent(AnyAgent::Test(TestAgent::new(8, neutral_archetype()))).unwrap();
    let b = sim.add_agent(AnyAgent::Test(TestAgent::new(8, neutral_archetype()))).unwrap();
    let c = sim.add_agent(AnyAgent::Test(TestAgent::new(8, neutral_archetype()))).unwrap();
    assert_eq!((a, b, c), (0, 1, 2));
}

#[test]
fn test_classification_rules() {
    // Coherence shifts: Critical exactly below 0.3.
    let critical = EventType::CoherenceShift { agent: 1, old_coherence: 1000, new_coherence: 299 };
    assert_eq!(critical.classify(), IECColor::Red);
    let warning = EventType::CoherenceShift { agent: 1, old_coherence: 1000, new_coherence: 300 };
    assert_eq!(warning.classify(), IECColor::Yellow);

    // Malevolent actions: Critical exactly above 0.7.
    let red = EventType::MalevolentAction { attack_type: "x".to_string(), severity: 701 };
    assert_eq!(red.classify(), IECColor::Red);
    let yellow = EventType::MalevolentAction { attack_type: "x".to_string(), severity: 700 };
    assert_eq!(yellow.classify(), IECColor::Yellow);

    // The remaining kinds.
    let nav_ok = EventType::Navigation { from_pattern: 1, to_pattern: 2, success: true };
    assert_eq!(nav_ok.classify(), IECColor::Green);
    let nav_fail = EventType::Navigation { from_pattern: 1, to_pattern: 2, success: false };
    assert_eq!(nav_fail.classify(), IECColor::Yellow);
    let intensive =
        EventType::IntensiveTransform { description: "x".to_string(), penny_to_gorilla: false };
    assert_eq!(intensive.classify(), IECColor::Blue);
    let jump = EventType::DimensionalJump { from_sheet: 0, to_sheet: 2, energy_cost: 2000 };
    assert_eq!(jump.classify(), IECColor::Blue);
}

#[test]
fn test_event_construction() {
    let e = VarietyEvent::new(
        7,
        EventType::MalevolentAction { attack_type: "probe".to_string(), severity: 800 },
        vec![3, 4],
    );
    assert_eq!(e.id, 7);
    assert_eq!(e.actors, vec![3, 4]);
    assert!(e.variety_delta.is_none());
    assert_eq!(e.iec_classification, IECColor::Red);
}

#[test]
fn test_regulation_decisions() {
    let engine = DomovaiPattern::new(DomovaiConfig {
        allow_extensive: true,
        monitor_intensive: true,
        block_entropic: true,
        max_coherence_loss: 300,
    });
    let proposer = VarietyPattern::new(8);

    // Entropic above the threshold: blocked, with the canonical reason.
    let heavy = VarietyTransformation::Entropic { coherence_loss: 500, reality_tear_risk: 100 };
    match engine.regulate(&heavy, &proposer) {
        RegulationDecision::Block(reason) => {
            assert_eq!(reason, "Coherence loss exceeds threshold");
        }
        other => panic!("expected a block, got {:?}", other),
    }

    // Entropic at or below the threshold: monitored.
    let light = VarietyTransformation::Entropic { coherence_loss: 300, reality_tear_risk: 100 };
    assert!(matches!(engine.regulate(&light, &proposer), RegulationDecision::Monitor));

    // Extensive: allowed.
    let ext = VarietyTransformation::Extensive { multiplier: 3000, preserves_quality: true };
    assert!(matches!(engine.regulate(&ext, &proposer), RegulationDecision::Allow));

    // Intensive: monitored when so configured, else allowed.
    let intense = VarietyTransformation::Intensive {
        quality_shift: "shift".to_string(),
        dimensional_creation: false,
    };
    assert!(matches!(engine.regulate(&intense, &proposer), RegulationDecision::Monitor));
    let lax = DomovaiPattern::new(DomovaiConfig {
        allow_extensive: true,
        monitor_intensive: false,
        block_entropic: true,
        max_coherence_loss: 300,
    });
    assert!(matches!(lax.regulate(&intense, &proposer), RegulationDecision::Allow));

    // Navigation: allowed.
    let nav = VarietyTransformation::Navigation { path: vec![1], maintains_identity: true };
    assert!(matches!(engine.regulate(&nav, &proposer), RegulationDecision::Allow));
}

#[test]
fn test_ddos_event_count_with_and_without_protection() {
    // With protection: success reported, exactly the duration's events.
    let mut protected = VarietyNavigationSimulator::new(8);
    protected.enable_protection(DomovaiConfig::default()).unwrap();
    let with = protected
        .test_condition(TestCondition::DDoS { intensity: 900, duration: 7 })
        .unwrap();
    assert!(with.success);
    assert_eq!(with.events_generated, 7);

    // Without: no success, but still the same number of events.
    let mut unprotected = VarietyNavigationSimulator::new(8);
    let without = unprotected
        .test_condition(TestCondition::DDoS { intensity: 900, duration: 7 })
        .unwrap();
    assert!(!without.success);
    assert_eq!(without.events_generated, 7);

    // The synthesized events carry the intensity as severity: 0.9 is
    // critical.
    let run = unprotected.run(0).unwrap();
    assert_eq!(run.final_event_log.len(), 7);
    for e in &run.final_event_log {
        assert!(matches!(e.event_type, EventType::MalevolentAction { .. }));
        assert_eq!(e.iec_classification, IECColor::Red);
    }
}

#[test]
fn test_log_size_lower_bound() {
    // Registering three agents then running four steps logs one event per
    // registration and one per agent per step: 3 + 4*3 in all.
    let mut sim = VarietyNavigationSimulator::new(8);
    for _ in 0..3 {
        sim.add_agent(AnyAgent::Test(TestAgent::new(8, neutral_archetype()))).unwrap();
    }
    let result = sim.run(4).unwrap();
    assert_eq!(result.final_event_log.len(), 3 + 4 * 3);
}

#[test]
fn test_protection_idempotent() {
    // Installing the same configuration twice yields the same decisions
    // as installing it once.
    let config = DomovaiConfig {
        allow_extensive: true,
        monitor_intensive: true,
        block_entropic: true,
        max_coherence_loss: 200,
    };

    let mut once = VarietyNavigationSimulator::new(8);
    once.add_agent(AnyAgent::Scripted(ScriptedAgent::new(
        8,
        VarietyTransformation::Entropic { coherence_loss: 500, reality_tear_risk: 100 },
    )))
    .unwrap();
    once.enable_protection(config).unwrap();

    let mut twice = VarietyNavigationSimulator::new(8);
    twice
        .add_agent(AnyAgent::Scripted(ScriptedAgent::new(
            8,
            VarietyTransformation::Entropic { coherence_loss: 500, reality_tear_risk: 100 },
        )))
        .unwrap();
    twice.enable_protection(config).unwrap();
    twice.enable_protection(config).unwrap();

    let ra = once.run(3).unwrap();
    let rb = twice.run(3).unwrap();

    let blocks = |log: &Vec<VarietyEvent>| {
        log.iter()
            .filter(|e| matches!(e.event_type, EventType::MalevolentAction { .. }))
            .count()
    };
    assert_eq!(blocks(&ra.final_event_log), blocks(&rb.final_event_log));
    assert_eq!(blocks(&ra.final_event_log), 3);
}

#[test]
fn test_navigate_direct_path_distance() {
    let space = VarietySpace::new(2);
    let mut from = VarietyPattern::new(2);
    let mut to = VarietyPattern::new(2);
    from.tensor = vec![3, 4];
    to.tensor = vec![0, 0];

    match space.navigate(&from, &to) {
        NavigationResult::DirectPath { distance } => assert_eq!(distance, 5),
        other => panic!("expected a direct path, got {:?}", other),
    }

    // Distance is zero exactly for equal blobs.
    match space.navigate(&from, &from) {
        NavigationResult::DirectPath { distance } => assert_eq!(distance, 0),
        other => panic!("expected a direct path, got {:?}", other),
    }

    // And symmetric.
    match space.navigate(&to, &from) {
        NavigationResult::DirectPath { distance } => assert_eq!(distance, 5),
        other => panic!("expected a direct path, got {:?}", other),
    }
}

#[test]
fn test_navigate_sheet_jump() {
    let space = VarietySpace::new(2);
    let mut from = VarietyPattern::new(2);
    let mut to = VarietyPattern::new(2);
    from.dimensional_sheet = 1;
    to.dimensional_sheet = 4;

    match space.navigate(&from, &to) {
        NavigationResult::SheetJump { energy_required, coherence_risk } => {
            assert_eq!(energy_required, 3000); // Three sheets crossed.
            assert_eq!(coherence_risk, 300); // A tenth of that.
        }
        other => panic!("expected a sheet jump, got {:?}", other),
    }
}

#[test]
fn test_add_pattern_validation() {
    let mut space = VarietySpace::new(8);

    // A fresh pattern of the right dimensionality registers.
    assert_eq!(space.add_pattern(VarietyPattern::new(8)), Ok(()));

    // The wrong dimensionality is rejected.
    assert_eq!(space.add_pattern(VarietyPattern::new(4)), Err(VarietyError::DimensionMismatch));

    // A pattern outside the unit-interval bounds is rejected.
    let mut bad = VarietyPattern::new(8);
    bad.intensive_potential = 1500;
    assert_eq!(space.add_pattern(bad), Err(VarietyError::InvalidThreshold));
}

#[test]
fn test_can_intensive_transform() {
    let mut p = VarietyPattern::new(4);
    assert!(!p.can_intensive_transform()); // Fresh pattern: no potential.
    p.intensive_potential = 600;
    p.coherence = 800;
    assert!(p.can_intensive_transform());
    p.intensive_potential = 500; // Boundary: strictly above 0.5 required.
    assert!(!p.can_intensive_transform());
    p.intensive_potential = 600;
    p.coherence = 700; // Boundary: strictly above 0.7 required.
    assert!(!p.can_intensive_transform());
}

#[test]
fn test_blackmatter_exploits() {
    let bm = BlackMatter::new(8);
    assert!(bm.intensive_capability());
    assert_eq!(bm.consciousness_type(), "BlackMatter - Ransomware Consciousness");

    // Average collapse factor is (0.9 + 0.8 + 1.0) / 3 = 0.9 > 0.7:
    // catastrophic transformation possible.
    match bm.exploit_collapse() {
        VarietyTransformation::Intensive { quality_shift, dimensional_creation } => {
            assert_eq!(quality_shift, "operational_paralysis");
            assert!(dimensional_creation);
        }
        other => panic!("expected an intensive transformation, got {:?}", other),
    }

    match bm.threaten_sector_collapse() {
        VarietyTransformation::Intensive { quality_shift, .. } => {
            assert_eq!(quality_shift, "sector_wide_paralysis");
        }
        other => panic!("expected an intensive transformation, got {:?}", other),
    }

    // The named constants, in fixed-point.
    assert_eq!(bm.password_variety_collapse(), 8); // 1/120, rounded down.
    assert_eq!(bm.supply_chain_leverage(), 400);
    assert_eq!(bm.harvest_timing_attack(), 900);
}

#[test]
fn test_mean_coherence_mixed_population() {
    let mut sim = VarietyNavigationSimulator::new(8);
    let mut low = TestAgent::new(8, neutral_archetype());
    low.pattern.coherence = 400;
    sim.add_agent(AnyAgent::Test(low)).unwrap();
    sim.add_agent(AnyAgent::Test(TestAgent::new(8, neutral_archetype()))).unwrap();

    let result = sim.run(1).unwrap();
    assert_eq!(result.step_results[0].coherence_average, 700); // (400+1000)/2.
    assert_eq!(result.step_results[0].total_agents, 2);
    assert_eq!(result.step_results[0].time_step, 1);
}

#[test]
fn test_protocol_abuse_condition() {
    let mut sim = VarietyNavigationSimulator::new(8);
    sim.enable_protection(DomovaiConfig::default()).unwrap();
    let r = sim
        .test_condition(TestCondition::ProtocolAbuse { abuse_type: "replay".to_string() })
        .unwrap();
    assert_eq!(r.condition, "Protocol Abuse");
    assert!(r.success);
    assert_eq!(r.events_generated, 1);
    assert_eq!(r.iec_classification, IECColor::Yellow);

    // The synthesized event carries the prefixed category at severity 0.7,
    // which classifies as a warning.
    let run = sim.run(0).unwrap();
    match &run.final_event_log[0].event_type {
        EventType::MalevolentAction { attack_type, severity } => {
            assert_eq!(attack_type, "Protocol Abuse: replay");
            assert_eq!(*severity, 700);
        }
        other => panic!("expected a malevolent action, got {:?}", other),
    }
    assert_eq!(run.final_event_log[0].iec_classification, IECColor::Yellow);
}

#[test]
fn test_coherence_attack_condition() {
    let mut sim = VarietyNavigationSimulator::new(8);
    let target = sim.add_agent(AnyAgent::Test(TestAgent::new(8, neutral_archetype()))).unwrap();
    let r = sim.test_condition(TestCondition::CoherenceAttack { target }).unwrap();
    assert_eq!(r.condition, "Coherence Attack");
    assert!(!r.success); // No protection installed.
    assert_eq!(r.events_generated, 1);
    assert_eq!(r.iec_classification, IECColor::Red);

    // The synthesized shift drops coherence to 0.1: critical.
    let run = sim.run(0).unwrap();
    let last = run.final_event_log.last().unwrap();
    match last.event_type {
        EventType::CoherenceShift { agent, old_coherence, new_coherence } => {
            assert_eq!(agent, target);
            assert_eq!(old_coherence, 1000);
            assert_eq!(new_coherence, 100);
        }
        _ => panic!("expected a coherence shift"),
    }
    assert_eq!(last.iec_classification, IECColor::Red);
    assert_eq!(last.actors, vec![target]);
}

#[test]
fn test_entropic_effect_logged_coherence() {
    // An accepted entropic proposal logs a shift from a full 1.0 down to
    // one minus the loss, ignoring the proposer's actual prior coherence.
    let mut sim = VarietyNavigationSimulator::new(8);
    sim.add_agent(AnyAgent::Scripted(ScriptedAgent::new(
        8,
        VarietyTransformation::Entropic { coherence_loss: 400, reality_tear_risk: 100 },
    )))
    .unwrap();

    let result = sim.run(1).unwrap();
    let last = result.final_event_log.last().unwrap();
    match last.event_type {
        EventType::CoherenceShift { old_coherence, new_coherence, .. } => {
            assert_eq!(old_coherence, 1000);
            assert_eq!(new_coherence, 600);
        }
        _ => panic!("expected a coherence shift"),
    }
}

#[test]
fn test_registration_event_logged() {
    let mut sim = VarietyNavigationSimulator::new(8);
    let id = sim.add_agent(AnyAgent::Test(TestAgent::new(8, neutral_archetype()))).unwrap();
    let run = sim.run(0).unwrap();
    assert_eq!(run.final_event_log.len(), 1);
    let e = &run.final_event_log[0];
    match e.event_type {
        EventType::Navigation { from_pattern, to_pattern, success } => {
            assert_eq!(from_pattern, id);
            assert_eq!(to_pattern, id);
            assert!(success);
        }
        _ => panic!("expected a navigation event"),
    }
    assert_eq!(e.iec_classification, IECColor::Green);
    assert_eq!(e.id, 0);
}
