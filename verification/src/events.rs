//! The event system: an immutable record of everything that happens in a
//! simulation, each event carrying a deterministic severity classification
//! (IEC 60073 colors) derived purely from the event kind's fields.

use vstd::prelude::*;
use crate::agents::AgentId;

verus! {

/// IEC 60073 color classifications.
#[derive(Debug, Clone, Copy, PartialEq, Eq, Structural)]
pub enum IECColor {
    /// Red: emergency/danger/fault.
    Red,
    /// Yellow: warning/caution/abnormal.
    Yellow,
    /// Green: safe/normal.
    Green,
    /// Blue: mandatory/compliance.
    Blue,
    /// White: general/neutral.
    White,
}

/// Types of agent interactions.
#[derive(Debug, Clone, Copy, PartialEq, Eq, Structural)]
pub enum InteractionType {
    /// Direct variety exchange.
    VarietyExchange,
    /// Pattern synchronization attempt.
    Synchronization,
    /// Competitive variety consumption.
    Competition,
    /// Parasitic variety extraction.
    Parasitism,
    /// Mutualistic variety amplification.
    Mutualism,
}

/// Changes in variety patterns; scalar fields are fixed-point.
#[derive(Debug, Clone, Copy, PartialEq, Eq, Structural)]
pub struct VarietyDelta {
    /// Amount of variety created or destroyed.
    pub variety_change: i64,
    /// New dimensions created.
    pub dimensions_created: usize,
    /// Coherence impact.
    pub coherence_impact: i64,
}

/// Types of events. Scalars are fixed-point; coherence values in a shift
/// event may lie outside the unit interval (an entropic loss greater than
/// one drives the recorded value negative), so they are signed.
#[derive(Debug)]
pub enum EventType {
    /// An agent navigates variety-space.
    Navigation { from_pattern: AgentId, to_pattern: AgentId, success: bool },
    /// Intensive variety transformation attempt.
    IntensiveTransform { description: String, penny_to_gorilla: bool },
    /// Agent interaction/communication.
    AgentInteraction { interaction_type: InteractionType, variety_exchanged: i64 },
    /// Coherence change event.
    CoherenceShift { agent: AgentId, old_coherence: i64, new_coherence: i64 },
    /// Sheet-jumping between dimensional layers.
    DimensionalJump { from_sheet: u32, to_sheet: u32, energy_cost: u64 },
    /// Malevolent action detected.
    MalevolentAction { attack_type: String, severity: u32 },
}

/// Mathematical model of an event type; string payloads are sequences of
/// characters.
pub enum EventModel {
    Navigation { from_pattern: AgentId, to_pattern: AgentId, success: bool },
    IntensiveTransform { description: Seq<char>, penny_to_gorilla: bool },
    AgentInteraction { interaction_type: InteractionType, variety_exchanged: i64 },
    CoherenceShift { agent: AgentId, old_coherence: i64, new_coherence: i64 },
    DimensionalJump { from_sheet: u32, to_sheet: u32, energy_cost: u64 },
    MalevolentAction { attack_type: Seq<char>, severity: u32 },
}

impl View for EventType {
    type V = EventModel;

    open spec fn view(&self) -> EventModel {
        match self {
            EventType::Navigation { from_pattern, to_pattern, success } => EventModel::Navigation {
                from_pattern: *from_pattern,
                to_pattern: *to_pattern,
                success: *success,
            },
            EventType::IntensiveTransform { description, penny_to_gorilla } =>
                EventModel::IntensiveTransform {
                description: description@,
                penny_to_gorilla: *penny_to_gorilla,
            },
            EventType::AgentInteraction { interaction_type, variety_exchanged } =>
                EventModel::AgentInteraction {
                interaction_type: *interaction_type,
                variety_exchanged: *variety_exchanged,
            },
            EventType::CoherenceShift { agent, old_coherence, new_coherence } =>
                EventModel::CoherenceShift {
                agent: *agent,
                old_coherence: *old_coherence,
                new_coherence: *new_coherence,
            },
            EventType::DimensionalJump { from_sheet, to_sheet, energy_cost } =>
                EventModel::DimensionalJump {
                from_sheet: *from_sheet,
                to_sheet: *to_sheet,
                energy_cost: *energy_cost,
            },
            EventType::MalevolentAction { attack_type, severity } => EventModel::MalevolentAction {
                attack_type: attack_type@,
                severity: *severity,
            },
        }
    }
}

/// The severity classification rule, a pure function of the event kind's
/// fields: successful navigation is Green, failed navigation Yellow,
/// intensive transforms and dimensional jumps Blue, agent interactions
/// White; a coherence shift is Red exactly when the new coherence lies
/// below 0.3, otherwise Yellow; a malevolent action is Red exactly when its
/// severity exceeds 0.7, otherwise Yellow.
pub open spec fn classify_spec(e: EventModel) -> IECColor {
    match e {
        EventModel::Navigation { success, .. } => if success {
            IECColor::Green
        } else {
            IECColor::Yellow
        },
        EventModel::IntensiveTransform { .. } => IECColor::Blue,
        EventModel::AgentInteraction { .. } => IECColor::White,
        EventModel::CoherenceShift { new_coherence, .. } => if new_coherence < 300 {
            IECColor::Red
        } else {
            IECColor::Yellow
        },
        EventModel::DimensionalJump { .. } => IECColor::Blue,
        EventModel::MalevolentAction { severity, .. } => if severity > 700 {
            IECColor::Red
        } else {
            IECColor::Yellow
        },
    }
}

/// Severity classification is a pure function of the event kind's fields:
/// a coherence shift is Critical (Red) exactly when the new coherence lies
/// below 0.3, and Warning (Yellow) otherwise; a malevolent action is
/// Critical exactly when its severity exceeds 0.7, and Warning otherwise.
pub proof fn lemma_severity_classification(e: EventModel)
    ensures
        (e matches EventModel::CoherenceShift { new_coherence, .. } ==> ((classify_spec(e)
            == IECColor::Red) <==> new_coherence < 300)),
        (e matches EventModel::CoherenceShift { new_coherence, .. } && new_coherence >= 300
            ==> classify_spec(e) == IECColor::Yellow),
        (e matches EventModel::MalevolentAction { severity, .. } ==> ((classify_spec(e)
            == IECColor::Red) <==> severity > 700)),
        (e matches EventModel::MalevolentAction { severity, .. } && severity <= 700
            ==> classify_spec(e) == IECColor::Yellow),
{
}

impl EventType {
    /// Map this event to its IEC 60073 color.
    pub fn classify(&self) -> (r: IECColor)
        ensures
            r == classify_spec(self@),
    {
        match self {
            EventType::Navigation { success, .. } => {
                if *success {
                    IECColor::Green
                } else {
                    IECColor::Yellow
                }
            },
            EventType::IntensiveTransform { .. } => IECColor::Blue,
            EventType::AgentInteraction { .. } => IECColor::White,
            EventType::CoherenceShift { new_coherence, .. } => {
                if *new_coherence < 300 {
                    IECColor::Red
                } else {
                    IECColor::Yellow
                }
            },
            EventType::DimensionalJump { .. } => IECColor::Blue,
            EventType::MalevolentAction { severity, .. } => {
                if *severity > 700 {
                    IECColor::Red
                } else {
                    IECColor::Yellow
                }
            },
        }
    }

    /// An exact copy of this event type.
    pub fn duplicate(&self) -> (r: Self)
        ensures
            r@ == self@,
    {
        match self {
            EventType::Navigation { from_pattern, to_pattern, success } => EventType::Navigation {
                from_pattern: *from_pattern,
                to_pattern: *to_pattern,
                success: *success,
            },
            EventType::IntensiveTransform { description, penny_to_gorilla } =>
                EventType::IntensiveTransform {
                description: description.clone(),
                penny_to_gorilla: *penny_to_gorilla,
            },
            EventType::AgentInteraction { interaction_type, variety_exchanged } =>
                EventType::AgentInteraction {
                interaction_type: *interaction_type,
                variety_exchanged: *variety_exchanged,
            },
            EventType::CoherenceShift { agent, old_coherence, new_coherence } =>
                EventType::CoherenceShift {
                agent: *agent,
                old_coherence: *old_coherence,
                new_coherence: *new_coherence,
            },
            EventType::DimensionalJump { from_sheet, to_sheet, energy_cost } =>
                EventType::DimensionalJump {
                from_sheet: *from_sheet,
                to_sheet: *to_sheet,
                energy_cost: *energy_cost,
            },
            EventType::MalevolentAction { attack_type, severity } => EventType::MalevolentAction {
                attack_type: attack_type.clone(),
                severity: *severity,
            },
        }
    }
}

/// An event that occurred in variety-space: an immutable, classified record.
#[derive(Debug)]
pub struct VarietyEvent {
    /// Event identifier, unique within one simulation's log (its index in
    /// the log at the time it was appended).
    pub id: u64,
    /// Wall-clock timestamp in milliseconds.
    pub timestamp: i64,
    /// What kind of event.
    pub event_type: EventType,
    /// Agents involved.
    pub actors: Vec<AgentId>,
    /// Resulting variety changes, if recorded.
    pub variety_delta: Option<VarietyDelta>,
    /// IEC 60073 color classification.
    pub iec_classification: IECColor,
}

/// Relies on `chrono::Utc::now` for the wall-clock time, read once per
/// event; nothing is assumed about the value returned.
#[verifier::external_body]
fn now_millis() -> i64 {
    chrono::Utc::now().timestamp_millis()
}

impl VarietyEvent {
    /// Build a classified event record. The identifier is assigned by the
    /// caller (the simulator hands out log indices); the timestamp is read
    /// from the wall clock and carries no contract.
    pub fn new(id: u64, event_type: EventType, actors: Vec<AgentId>) -> (r: Self)
        ensures
            r.id == id,
            r.event_type@ == event_type@,
            r.actors@ == actors@,
            r.variety_delta is None,
            r.iec_classification == classify_spec(event_type@),
    {
        let iec_classification = event_type.classify();
        VarietyEvent {
            id,
            timestamp: now_millis(),
            event_type,
            actors,
            variety_delta: None,
            iec_classification,
        }
    }

    /// An exact copy of this event (the timestamp included).
    pub fn duplicate(&self) -> (r: Self)
        ensures
            r.id == self.id,
            r.timestamp == self.timestamp,
            r.event_type@ == self.event_type@,
            r.actors@ == self.actors@,
            r.variety_delta == self.variety_delta,
            r.iec_classification == self.iec_classification,
    {
        let mut actors: Vec<AgentId> = Vec::new();
        let mut i: usize = 0;
        while i < self.actors.len()
            invariant
                i <= self.actors@.len(),
                actors@ == self.actors@.subrange(0, i as int),
            decreases self.actors@.len() - i,
        {
            actors.push(self.actors[i]);
            proof {
                assert(actors@ =~= self.actors@.subrange(0, i + 1));
            }
            i = i + 1;
        }
        proof {
            assert(actors@ =~= self.actors@);
        }
        VarietyEvent {
            id: self.id,
            timestamp: self.timestamp,
            event_type: self.event_type.duplicate(),
            actors,
            variety_delta: self.variety_delta,
            iec_classification: self.iec_classification,
        }
    }
}

} // verus!
