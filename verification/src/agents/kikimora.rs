//! Kikimora: the phantom-sensor spirit. A malevolent agent that fabricates
//! sensor ghosts, injects false variety, and adapts its attack mode as its
//! attempts are blocked.
//!
//! Sensor coordinates are held in milli-degrees and sensor readings in
//! fixed-point thousandths, like every other scalar of the engine.

use vstd::prelude::*;
use crate::variety::{VarietyPattern, VarietySpace, VarietyTransformation, TransformModel};
use crate::agents::{VirtualAgent, AgentId, saturated_scale};

verus! {

/// Kikimora's current attack mode.
#[derive(Debug, Clone, Copy, PartialEq, Eq, Structural)]
pub enum KikimoraMode {
    /// Creating false sensor readings.
    SensorHaunting,
    /// Timing attacks on market data.
    TemporalManipulation,
    /// Causing swarm confusion.
    SwarmDisruption,
    /// Economic variety attacks.
    MarketSiren,
}

/// A fabricated sensor: location in milli-degrees, readings in fixed-point
/// thousandths.
#[derive(Debug)]
pub struct PhantomSensor {
    pub id: u64,
    pub location: (i64, i64),
    pub sensor_type: String,
    pub false_readings: Vec<i64>,
}

/// Kikimora: creates phantom sensors and false data.
#[derive(Debug)]
pub struct Kikimora {
    pub id: AgentId,
    pub pattern: VarietyPattern,
    /// Phantom sensors she has created.
    pub phantom_sensors: Vec<PhantomSensor>,
    /// Current attack mode.
    pub attack_mode: KikimoraMode,
    /// Persistence level (how hard to remove), fixed-point in [0, SCALE].
    pub persistence: u32,
}

/// The attack mode chosen after the given number of blocked attempts.
pub open spec fn adapted_mode(blocked_attempts: nat) -> KikimoraMode {
    if blocked_attempts <= 2 {
        KikimoraMode::SensorHaunting
    } else if blocked_attempts <= 5 {
        KikimoraMode::TemporalManipulation
    } else if blocked_attempts <= 8 {
        KikimoraMode::SwarmDisruption
    } else {
        KikimoraMode::MarketSiren
    }
}

impl Kikimora {
    /// Create a Kikimora: high intensive potential (0.9), low coherence
    /// (0.4, chaotic nature), living on sheet 2, starting in sensor-haunting
    /// mode with persistence 0.9.
    pub fn new(dimensions: usize) -> (r: Self)
        ensures
            r.id == 0,
            r.pattern.id == 0,
            r.pattern.tensor@ == Seq::<i64>::new(dimensions as nat, |i: int| 0i64),
            r.pattern.intensive_potential == 900,
            r.pattern.coherence == 400,
            r.pattern.dimensional_sheet == 2,
            r.pattern.metadata@.len() == 2,
            r.pattern.metadata@[0].0@ == "spirit_type"@,
            r.pattern.metadata@[0].1@ == "malevolent"@,
            r.pattern.metadata@[1].0@ == "origin"@,
            r.pattern.metadata@[1].1@ == "swamp"@,
            r.pattern.wf(),
            r.phantom_sensors@.len() == 0,
            r.attack_mode == KikimoraMode::SensorHaunting,
            r.persistence == 900,
    {
        let mut pattern = VarietyPattern::new(dimensions);
        pattern.intensive_potential = 900;
        pattern.coherence = 400;
        pattern.dimensional_sheet = 2;
        pattern.metadata.push(("spirit_type".to_string(), "malevolent".to_string()));
        pattern.metadata.push(("origin".to_string(), "swamp".to_string()));
        Kikimora {
            id: 0,
            pattern,
            phantom_sensors: Vec::new(),
            attack_mode: KikimoraMode::SensorHaunting,
            persistence: 900,
        }
    }

    /// Create a phantom sensor at the given location (milli-degrees),
    /// carrying three plausible false readings (a temperature of 23.5, a
    /// humidity of 65.0 and a pH of 7.2, in fixed-point thousandths).
    pub fn create_phantom_sensor(&mut self, lat_milli: i64, lon_milli: i64, sensor_type: &str)
        ensures
            final(self).phantom_sensors@.len() == old(self).phantom_sensors@.len() + 1,
            forall|k: int|
                0 <= k < old(self).phantom_sensors@.len()
                    ==> #[trigger] final(self).phantom_sensors@[k]
                    == old(self).phantom_sensors@[k],
            final(self).phantom_sensors@.last().id == old(self).phantom_sensors@.len(),
            final(self).phantom_sensors@.last().location == (lat_milli, lon_milli),
            final(self).phantom_sensors@.last().sensor_type@ == sensor_type@,
            final(self).phantom_sensors@.last().false_readings@ == seq![
                23500i64,
                65000i64,
                7200i64,
            ],
            final(self).id == old(self).id,
            final(self).pattern == old(self).pattern,
            final(self).attack_mode == old(self).attack_mode,
            final(self).persistence == old(self).persistence,
    {
        let mut false_readings: Vec<i64> = Vec::new();
        false_readings.push(23500);
        false_readings.push(65000);
        false_readings.push(7200);
        proof {
            assert(false_readings@ =~= seq![23500i64, 65000i64, 7200i64]);
        }
        let phantom = PhantomSensor {
            id: self.phantom_sensors.len() as u64,
            location: (lat_milli, lon_milli),
            sensor_type: sensor_type.to_string(),
            false_readings,
        };
        self.phantom_sensors.push(phantom);
    }

    /// Generate false variety that looks legitimate: what is proposed is a
    /// pure function of the attack mode and the number of phantom sensors.
    pub fn generate_false_variety(&self) -> (t: VarietyTransformation)
        ensures
            t@ == self.proposal(),
    {
        match self.attack_mode {
            KikimoraMode::SensorHaunting => {
                let n = self.phantom_sensors.len();
                let multiplier: i64 = if (n as u64) <= 9_223_372_036_854_775u64 {
                    (n as i64) * 1000
                } else {
                    i64::MAX
                };
                VarietyTransformation::Extensive { multiplier, preserves_quality: false }
            },
            KikimoraMode::TemporalManipulation => VarietyTransformation::Intensive {
                quality_shift: "temporal_desync".to_string(),
                dimensional_creation: true,
            },
            KikimoraMode::SwarmDisruption => VarietyTransformation::Entropic {
                coherence_loss: 700,
                reality_tear_risk: 300,
            },
            KikimoraMode::MarketSiren => VarietyTransformation::Intensive {
                quality_shift: "false_scarcity".to_string(),
                dimensional_creation: true,
            },
        }
    }

    /// Switch attack modes based on how many attempts have been blocked.
    pub fn adapt_attack(&mut self, blocked_attempts: usize)
        ensures
            final(self).attack_mode == adapted_mode(blocked_attempts as nat),
            final(self).id == old(self).id,
            final(self).pattern == old(self).pattern,
            final(self).phantom_sensors == old(self).phantom_sensors,
            final(self).persistence == old(self).persistence,
    {
        self.attack_mode = if blocked_attempts <= 2 {
            KikimoraMode::SensorHaunting
        } else if blocked_attempts <= 5 {
            KikimoraMode::TemporalManipulation
        } else if blocked_attempts <= 8 {
            KikimoraMode::SwarmDisruption
        } else {
            KikimoraMode::MarketSiren
        };
    }

    /// The "sleep paralysis" attack: freezes sensor updates, with no
    /// coherence loss and no instability risk.
    pub fn sleep_paralysis_attack(&self) -> (t: VarietyTransformation)
        ensures
            t@ == (TransformModel::Entropic { coherence_loss: 0, reality_tear_risk: 0 }),
    {
        VarietyTransformation::Entropic { coherence_loss: 0, reality_tear_risk: 0 }
    }

    /// The "dish breaking" attack: corrupts data formats (negative variety).
    pub fn dish_breaking_attack(&self) -> (t: VarietyTransformation)
        ensures
            t@ == (TransformModel::Extensive { multiplier: -1000i64, preserves_quality: false }),
    {
        VarietyTransformation::Extensive { multiplier: -1000, preserves_quality: false }
    }

    /// The "night whistling" attack: covert channel creation by a
    /// shape-shifting navigation.
    pub fn night_whistling_attack(&self) -> (t: VarietyTransformation)
        ensures
            t@ == (TransformModel::Navigation {
                path: seq![self.id],
                maintains_identity: false,
            }),
    {
        let mut path: Vec<u64> = Vec::new();
        path.push(self.id);
        proof {
            assert(path@ =~= seq![self.id]);
        }
        VarietyTransformation::Navigation { path, maintains_identity: false }
    }
}

impl VirtualAgent for Kikimora {
    open spec fn proposal(&self) -> TransformModel {
        match self.attack_mode {
            KikimoraMode::SensorHaunting => TransformModel::Extensive {
                multiplier: saturated_scale(self.phantom_sensors@.len()),
                preserves_quality: false,
            },
            KikimoraMode::TemporalManipulation => TransformModel::Intensive {
                quality_shift: "temporal_desync"@,
                dimensional_creation: true,
            },
            KikimoraMode::SwarmDisruption => TransformModel::Entropic {
                coherence_loss: 700,
                reality_tear_risk: 300,
            },
            KikimoraMode::MarketSiren => TransformModel::Intensive {
                quality_shift: "false_scarcity"@,
                dimensional_creation: true,
            },
        }
    }

    open spec fn after_navigate(&self) -> Self {
        *self
    }

    open spec fn signature_spec(&self) -> VarietyPattern {
        self.pattern
    }

    open spec fn intensive_spec(&self) -> bool {
        true
    }

    open spec fn kind_name(&self) -> Seq<char> {
        "Kikimora - Phantom Sensor Spirit"@
    }

    fn navigate(&mut self, _space: &VarietySpace) -> (t: VarietyTransformation) {
        self.generate_false_variety()
    }

    fn variety_signature(&self) -> (p: &VarietyPattern) {
        &self.pattern
    }

    fn intensive_capability(&self) -> (r: bool) {
        true
    }

    fn consciousness_type(&self) -> (s: &str) {
        "Kikimora - Phantom Sensor Spirit"
    }

    fn coherence(&self) -> (c: u32) {
        self.pattern.coherence
    }
}

} // verus!
