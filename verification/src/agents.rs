//! Virtual agents that navigate variety-space.
//!
//! Every agent exposes the same capability surface: propose one
//! transformation per step, report its pattern signature, and describe
//! itself. Proposals are deterministic functions of the agent's internal
//! state, so simulation steps are reproducible.

pub mod kikimora;
pub mod blackmatter;

use vstd::prelude::*;
use crate::variety::{VarietyPattern, VarietySpace, VarietyTransformation, TransformModel};

pub use kikimora::Kikimora;
pub use blackmatter::BlackMatter;

verus! {

/// Unique identifier for agents; 0 until a simulator assigns one.
pub type AgentId = u64;

/// The fixed-point product `n * SCALE`, saturated at the largest
/// representable value.
pub open spec fn saturated_scale(n: nat) -> i64 {
    if n * 1000 <= i64::MAX {
        (n * 1000) as i64
    } else {
        i64::MAX
    }
}

/// Base capability surface all virtual agents implement. `proposal` and
/// `after_navigate` are the mathematical account of `navigate`: what the
/// agent proposes and how its internal state adapts, both functions of the
/// agent's current state alone.
pub trait VirtualAgent: Sized {
    /// The transformation this agent will propose in its current state.
    spec fn proposal(&self) -> TransformModel;

    /// The agent's internal state after proposing once.
    spec fn after_navigate(&self) -> Self;

    /// The agent's current pattern signature.
    spec fn signature_spec(&self) -> VarietyPattern;

    /// Whether this agent can perform intensive transformation.
    spec fn intensive_spec(&self) -> bool;

    /// The agent's consciousness type, as a sequence of characters.
    spec fn kind_name(&self) -> Seq<char>;

    /// Propose one transformation against the given space.
    fn navigate(&mut self, space: &VarietySpace) -> (t: VarietyTransformation)
        ensures
            t@ == old(self).proposal(),
            *final(self) == old(self).after_navigate();

    /// The agent's current variety pattern signature.
    fn variety_signature(&self) -> (p: &VarietyPattern)
        ensures
            *p == self.signature_spec();

    /// Can this agent perform intensive variety transformation?
    fn intensive_capability(&self) -> (r: bool)
        ensures
            r == self.intensive_spec();

    /// Agent's consciousness type/name.
    fn consciousness_type(&self) -> (s: &str)
        ensures
            s@ == self.kind_name();

    /// Current coherence level, fixed-point in [0, SCALE].
    fn coherence(&self) -> (c: u32)
        ensures
            c == self.signature_spec().coherence;
}

/// Categories of virtual agents.
#[derive(Debug)]
pub enum AgentArchetype {
    /// Protective spirits: what they guard and what dangers they warn of.
    Protective { guards: Vec<String>, warns_of: Vec<String> },
    /// Malevolent chaos spirits: attack patterns and persistence
    /// (fixed-point in [0, SCALE]).
    Malevolent { attack_patterns: Vec<String>, persistence: u32 },
    /// Neutral transformation spirits bridging two domains.
    Neutral { bridges_between: (String, String), transformation_type: String },
    /// Legacy spirits: old systems seeking protection.
    Ancestral { protocol_age: String, seeking: String },
}

/// A test agent for basic functionality: it always proposes an
/// identity-preserving navigation to itself.
#[derive(Debug)]
pub struct TestAgent {
    pub id: AgentId,
    pub pattern: VarietyPattern,
    pub archetype: AgentArchetype,
}

impl TestAgent {
    /// Create a test agent with a fresh pattern of the given dimensionality.
    pub fn new(dimensions: usize, archetype: AgentArchetype) -> (r: Self)
        ensures
            r.id == 0,
            crate::variety::is_fresh_pattern(r.pattern, dimensions),
            r.pattern.wf(),
            r.archetype == archetype,
    {
        TestAgent { id: 0, pattern: VarietyPattern::new(dimensions), archetype }
    }
}

impl VirtualAgent for TestAgent {
    open spec fn proposal(&self) -> TransformModel {
        TransformModel::Navigation { path: seq![self.id], maintains_identity: true }
    }

    open spec fn after_navigate(&self) -> Self {
        *self
    }

    open spec fn signature_spec(&self) -> VarietyPattern {
        self.pattern
    }

    open spec fn intensive_spec(&self) -> bool {
        self.archetype is Malevolent
    }

    open spec fn kind_name(&self) -> Seq<char> {
        match self.archetype {
            AgentArchetype::Protective { .. } => "Protective Spirit"@,
            AgentArchetype::Malevolent { .. } => "Chaos Spirit"@,
            AgentArchetype::Neutral { .. } => "Bridge Spirit"@,
            AgentArchetype::Ancestral { .. } => "Legacy Spirit"@,
        }
    }

    fn navigate(&mut self, _space: &VarietySpace) -> (t: VarietyTransformation) {
        let mut path: Vec<u64> = Vec::new();
        path.push(self.id);
        proof {
            assert(path@ =~= seq![self.id]);
        }
        VarietyTransformation::Navigation { path, maintains_identity: true }
    }

    fn variety_signature(&self) -> (p: &VarietyPattern) {
        &self.pattern
    }

    fn intensive_capability(&self) -> (r: bool) {
        match self.archetype {
            AgentArchetype::Malevolent { .. } => true,
            _ => false,
        }
    }

    fn consciousness_type(&self) -> (s: &str) {
        match self.archetype {
            AgentArchetype::Protective { .. } => "Protective Spirit",
            AgentArchetype::Malevolent { .. } => "Chaos Spirit",
            AgentArchetype::Neutral { .. } => "Bridge Spirit",
            AgentArchetype::Ancestral { .. } => "Legacy Spirit",
        }
    }

    fn coherence(&self) -> (c: u32) {
        self.pattern.coherence
    }
}

/// An agent that always proposes one fixed transformation; useful for
/// reproducible stress runs.
#[derive(Debug)]
pub struct ScriptedAgent {
    pub id: AgentId,
    pub pattern: VarietyPattern,
    pub action: VarietyTransformation,
}

impl ScriptedAgent {
    /// Create a scripted agent with a fresh pattern of the given
    /// dimensionality, fixed to always propose `action`.
    pub fn new(dimensions: usize, action: VarietyTransformation) -> (r: Self)
        ensures
            r.id == 0,
            crate::variety::is_fresh_pattern(r.pattern, dimensions),
            r.pattern.wf(),
            r.action@ == action@,
    {
        ScriptedAgent { id: 0, pattern: VarietyPattern::new(dimensions), action }
    }
}

impl VirtualAgent for ScriptedAgent {
    open spec fn proposal(&self) -> TransformModel {
        self.action@
    }

    open spec fn after_navigate(&self) -> Self {
        *self
    }

    open spec fn signature_spec(&self) -> VarietyPattern {
        self.pattern
    }

    open spec fn intensive_spec(&self) -> bool {
        self.pattern.intensive_potential > 500 && self.pattern.coherence > 700
    }

    open spec fn kind_name(&self) -> Seq<char> {
        "Scripted Agent"@
    }

    fn navigate(&mut self, _space: &VarietySpace) -> (t: VarietyTransformation) {
        self.action.duplicate()
    }

    fn variety_signature(&self) -> (p: &VarietyPattern) {
        &self.pattern
    }

    fn intensive_capability(&self) -> (r: bool) {
        self.pattern.intensive_potential > 500 && self.pattern.coherence > 700
    }

    fn consciousness_type(&self) -> (s: &str) {
        "Scripted Agent"
    }

    fn coherence(&self) -> (c: u32) {
        self.pattern.coherence
    }
}

/// The closed set of agent variants a simulator can hold.
#[derive(Debug)]
pub enum AnyAgent {
    Test(TestAgent),
    Kikimora(Kikimora),
    BlackMatter(BlackMatter),
    Scripted(ScriptedAgent),
}

impl AnyAgent {
    /// The agent's assigned identifier.
    pub open spec fn agent_id(&self) -> u64 {
        self.signature_spec().id
    }

    /// This agent with its identifier (on the agent and on its pattern)
    /// replaced by `id`, all other state unchanged.
    pub open spec fn spec_with_id(&self, id: u64) -> AnyAgent {
        match self {
            AnyAgent::Test(a) => AnyAgent::Test(
                TestAgent { id, pattern: pattern_with_id(a.pattern, id), archetype: a.archetype },
            ),
            AnyAgent::Kikimora(a) => AnyAgent::Kikimora(
                Kikimora {
                    id,
                    pattern: pattern_with_id(a.pattern, id),
                    phantom_sensors: a.phantom_sensors,
                    attack_mode: a.attack_mode,
                    persistence: a.persistence,
                },
            ),
            AnyAgent::BlackMatter(a) => AnyAgent::BlackMatter(
                BlackMatter {
                    id,
                    pattern: pattern_with_id(a.pattern, id),
                    variety_collapse_points: a.variety_collapse_points,
                    variety_ransom: a.variety_ransom,
                    stolen_variety_tb: a.stolen_variety_tb,
                },
            ),
            AnyAgent::Scripted(a) => AnyAgent::Scripted(
                ScriptedAgent { id, pattern: pattern_with_id(a.pattern, id), action: a.action },
            ),
        }
    }

    /// Overwrite the agent's identifier and its pattern's identifier.
    pub fn assign_id(&mut self, id: u64)
        ensures
            *final(self) == old(self).spec_with_id(id),
    {
        match self {
            AnyAgent::Test(a) => {
                a.id = id;
                a.pattern.id = id;
            },
            AnyAgent::Kikimora(a) => {
                a.id = id;
                a.pattern.id = id;
            },
            AnyAgent::BlackMatter(a) => {
                a.id = id;
                a.pattern.id = id;
            },
            AnyAgent::Scripted(a) => {
                a.id = id;
                a.pattern.id = id;
            },
        }
    }
}

/// Replacing an agent's identifier replaces exactly the identifier of its
/// signature and leaves the signature's other fields (and well-formedness)
/// unchanged.
pub proof fn lemma_spec_with_id(a: AnyAgent, id: u64)
    ensures
        a.spec_with_id(id).signature_spec() == pattern_with_id(a.signature_spec(), id),
        a.spec_with_id(id).agent_id() == id,
        a.spec_with_id(id).signature_spec().wf() == a.signature_spec().wf(),
        a.spec_with_id(id).signature_spec().tensor@ == a.signature_spec().tensor@,
{
    match a {
        AnyAgent::Test(t) => {},
        AnyAgent::Kikimora(k) => {},
        AnyAgent::BlackMatter(b) => {},
        AnyAgent::Scripted(s) => {},
    }
    lemma_pattern_with_id_wf(a.signature_spec(), id);
}

/// Replacing a pattern's identifier does not affect its well-formedness.
pub proof fn lemma_pattern_with_id_wf(p: VarietyPattern, id: u64)
    ensures
        pattern_with_id(p, id).wf() == p.wf(),
{
    let q = pattern_with_id(p, id);
    assert(q.tensor@ == p.tensor@);
    if p.wf() {
        assert forall|i: int|
            0 <= i < q.tensor@.len() implies -crate::variety::COORD_LIMIT
            <= #[trigger] q.tensor@[i] <= crate::variety::COORD_LIMIT by {
            assert(q.tensor@[i] == p.tensor@[i]);
        }
    }
    if q.wf() {
        assert forall|i: int|
            0 <= i < p.tensor@.len() implies -crate::variety::COORD_LIMIT
            <= #[trigger] p.tensor@[i] <= crate::variety::COORD_LIMIT by {
            assert(q.tensor@[i] == p.tensor@[i]);
        }
    }
}

/// The pattern with its identifier replaced, all other fields unchanged.
pub open spec fn pattern_with_id(p: VarietyPattern, id: u64) -> VarietyPattern {
    VarietyPattern {
        id,
        tensor: p.tensor,
        intensive_potential: p.intensive_potential,
        dimensional_sheet: p.dimensional_sheet,
        coherence: p.coherence,
        metadata: p.metadata,
    }
}

impl VirtualAgent for AnyAgent {
    open spec fn proposal(&self) -> TransformModel {
        match self {
            AnyAgent::Test(a) => a.proposal(),
            AnyAgent::Kikimora(a) => a.proposal(),
            AnyAgent::BlackMatter(a) => a.proposal(),
            AnyAgent::Scripted(a) => a.proposal(),
        }
    }

    open spec fn after_navigate(&self) -> Self {
        *self
    }

    open spec fn signature_spec(&self) -> VarietyPattern {
        match self {
            AnyAgent::Test(a) => a.signature_spec(),
            AnyAgent::Kikimora(a) => a.signature_spec(),
            AnyAgent::BlackMatter(a) => a.signature_spec(),
            AnyAgent::Scripted(a) => a.signature_spec(),
        }
    }

    open spec fn intensive_spec(&self) -> bool {
        match self {
            AnyAgent::Test(a) => a.intensive_spec(),
            AnyAgent::Kikimora(a) => a.intensive_spec(),
            AnyAgent::BlackMatter(a) => a.intensive_spec(),
            AnyAgent::Scripted(a) => a.intensive_spec(),
        }
    }

    open spec fn kind_name(&self) -> Seq<char> {
        match self {
            AnyAgent::Test(a) => a.kind_name(),
            AnyAgent::Kikimora(a) => a.kind_name(),
            AnyAgent::BlackMatter(a) => a.kind_name(),
            AnyAgent::Scripted(a) => a.kind_name(),
        }
    }

    fn navigate(&mut self, space: &VarietySpace) -> (t: VarietyTransformation) {
        match self {
            AnyAgent::Test(a) => a.navigate(space),
            AnyAgent::Kikimora(a) => a.navigate(space),
            AnyAgent::BlackMatter(a) => a.navigate(space),
            AnyAgent::Scripted(a) => a.navigate(space),
        }
    }

    fn variety_signature(&self) -> (p: &VarietyPattern) {
        match self {
            AnyAgent::Test(a) => a.variety_signature(),
            AnyAgent::Kikimora(a) => a.variety_signature(),
            AnyAgent::BlackMatter(a) => a.variety_signature(),
            AnyAgent::Scripted(a) => a.variety_signature(),
        }
    }

    fn intensive_capability(&self) -> (r: bool) {
        match self {
            AnyAgent::Test(a) => a.intensive_capability(),
            AnyAgent::Kikimora(a) => a.intensive_capability(),
            AnyAgent::BlackMatter(a) => a.intensive_capability(),
            AnyAgent::Scripted(a) => a.intensive_capability(),
        }
    }

    fn consciousness_type(&self) -> (s: &str) {
        match self {
            AnyAgent::Test(a) => a.consciousness_type(),
            AnyAgent::Kikimora(a) => a.consciousness_type(),
            AnyAgent::BlackMatter(a) => a.consciousness_type(),
            AnyAgent::Scripted(a) => a.consciousness_type(),
        }
    }

    fn coherence(&self) -> (c: u32) {
        match self {
            AnyAgent::Test(a) => a.coherence(),
            AnyAgent::Kikimora(a) => a.coherence(),
            AnyAgent::BlackMatter(a) => a.coherence(),
            AnyAgent::Scripted(a) => a.coherence(),
        }
    }
}

} // verus!
