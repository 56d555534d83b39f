//! The variety navigation simulator: the orchestrator that owns the
//! population, the space, the optional protection engine and the event log,
//! and drives discrete-time stepping.
//!
//! Every step is deterministic in the population's internal state: each
//! agent's proposal is a pure function of its state, the policy decision a
//! pure function of proposal and configuration, and the logged events
//! follow exactly. The contracts below pin the whole pipeline down, up to
//! the wall-clock timestamps carried by events.

use vstd::prelude::*;
use vstd::string::StringExecFns;
use crate::variety::{
    VarietySpace, VarietyPattern, VarietyTransformation, TransformModel, VarietyError, SCALE,
};
use crate::agents::{AnyAgent, VirtualAgent, AgentId};
use crate::events::{VarietyEvent, EventType, EventModel, IECColor, InteractionType, classify_spec};

verus! {

/// Configuration for Domovoi protection. The threshold is fixed-point in
/// [0, SCALE].
#[derive(Debug, Clone, Copy, PartialEq, Eq, Structural)]
pub struct DomovaiConfig {
    /// Allow extensive variety transformations unconditionally.
    pub allow_extensive: bool,
    /// Monitor (rather than block) intensive variety transformations.
    pub monitor_intensive: bool,
    /// Block entropic/destructive transformations over the threshold.
    /// Carried in the configuration; the decision rule blocks entropic
    /// transformations on the loss threshold alone.
    pub block_entropic: bool,
    /// Maximum coherence loss before intervention, fixed-point.
    pub max_coherence_loss: u32,
}

impl Default for DomovaiConfig {
    /// The default posture: allow extensive, monitor intensive, block
    /// entropic beyond a loss of 0.3.
    fn default() -> (r: Self)
        ensures
            r == (DomovaiConfig {
                allow_extensive: true,
                monitor_intensive: true,
                block_entropic: true,
                max_coherence_loss: 300u32,
            }),
    {
        DomovaiConfig {
            allow_extensive: true,
            monitor_intensive: true,
            block_entropic: true,
            max_coherence_loss: 300,
        }
    }
}

/// Regulation decisions: allow, block with a reason, or allow-but-flag.
#[derive(Debug)]
pub enum RegulationDecision {
    Allow,
    Block(String),
    Monitor,
}

/// The decision without its reason text.
pub enum DecisionModel {
    Allow,
    Block,
    Monitor,
}

/// The model a decision carries: its kind, the reason text set aside.
pub open spec fn decision_model(d: RegulationDecision) -> DecisionModel {
    match d {
        RegulationDecision::Allow => DecisionModel::Allow,
        RegulationDecision::Block(_) => DecisionModel::Block,
        RegulationDecision::Monitor => DecisionModel::Monitor,
    }
}

/// The decision rule, first matching rule wins: extensive transformations
/// are allowed when so configured; intensive ones monitored when so
/// configured; entropic ones blocked exactly when the coherence loss
/// exceeds the configured maximum, monitored otherwise; everything else
/// (navigation included) is allowed. The engine deliberately defaults to
/// permissive behaviour for anything not explicitly flagged.
pub open spec fn regulate_model(t: TransformModel, c: DomovaiConfig) -> DecisionModel {
    match t {
        TransformModel::Entropic { coherence_loss, .. } => if coherence_loss
            > c.max_coherence_loss {
            DecisionModel::Block
        } else {
            DecisionModel::Monitor
        },
        TransformModel::Intensive { .. } => if c.monitor_intensive {
            DecisionModel::Monitor
        } else {
            DecisionModel::Allow
        },
        TransformModel::Extensive { .. } => DecisionModel::Allow,
        TransformModel::Navigation { .. } => DecisionModel::Allow,
    }
}

/// The Domovoi protection pattern: a policy engine holding one immutable
/// configuration.
#[derive(Debug, Clone, Copy)]
pub struct DomovaiPattern {
    config: DomovaiConfig,
}

impl DomovaiPattern {
    /// The configuration this engine was installed with.
    pub closed spec fn spec_config(&self) -> DomovaiConfig {
        self.config
    }

    /// The engine an installation with this configuration produces.
    pub closed spec fn spec_new(config: DomovaiConfig) -> DomovaiPattern {
        DomovaiPattern { config }
    }

    /// Install a policy engine with the given configuration.
    pub fn new(config: DomovaiConfig) -> (r: Self)
        ensures
            r == DomovaiPattern::spec_new(config),
            r.spec_config() == config,
    {
        DomovaiPattern { config }
    }

    /// Decide on a proposed transformation. The decision depends on the
    /// transformation and the configuration alone, never on the proposer.
    pub fn regulate(&self, transformation: &VarietyTransformation, _agent: &VarietyPattern) -> (d:
        RegulationDecision)
        ensures
            decision_model(d) == regulate_model(transformation@, self.spec_config()),
            (d matches RegulationDecision::Block(reason) ==> reason@
                == "Coherence loss exceeds threshold"@),
    {
        match transformation {
            VarietyTransformation::Extensive { .. } => RegulationDecision::Allow,
            VarietyTransformation::Intensive { .. } => {
                if self.config.monitor_intensive {
                    RegulationDecision::Monitor
                } else {
                    RegulationDecision::Allow
                }
            },
            VarietyTransformation::Navigation { .. } => RegulationDecision::Allow,
            VarietyTransformation::Entropic { coherence_loss, .. } => {
                if *coherence_loss > self.config.max_coherence_loss {
                    RegulationDecision::Block("Coherence loss exceeds threshold".to_string())
                } else {
                    RegulationDecision::Monitor
                }
            },
        }
    }
}

/// What the policy decides for a transformation when protection may be
/// absent: no engine allows everything.
pub open spec fn decide_opt(t: TransformModel, dom: Option<DomovaiPattern>) -> DecisionModel {
    match dom {
        Some(d) => regulate_model(t, d.spec_config()),
        None => DecisionModel::Allow,
    }
}

/// One event record as the contracts speak of it: the kind and the actors
/// involved.
pub struct EventRec {
    pub kind: EventModel,
    pub actors: Seq<AgentId>,
}

/// `e` is the event appended for record `rec` under log index `id`: kind,
/// actors, absence of a delta and the classification all follow; only the
/// timestamp is left open.
pub open spec fn logged(e: VarietyEvent, id: u64, rec: EventRec) -> bool {
    &&& e.id == id
    &&& e.event_type@ == rec.kind
    &&& e.actors@ == rec.actors
    &&& e.variety_delta is None
    &&& e.iec_classification == classify_spec(rec.kind)
}

/// `new_log` is `old_log` extended by exactly the records `evs`, each under
/// its log index.
pub open spec fn log_extended(
    old_log: Seq<VarietyEvent>,
    new_log: Seq<VarietyEvent>,
    evs: Seq<EventRec>,
) -> bool {
    &&& new_log.len() == old_log.len() + evs.len()
    &&& forall|k: int| 0 <= k < old_log.len() ==> new_log[k] == old_log[k]
    &&& forall|k: int|
        0 <= k < evs.len() ==> logged(
            #[trigger] new_log[old_log.len() + k],
            (old_log.len() + k) as u64,
            evs[k],
        )
}

/// A log extended by a single record gained exactly that record at its
/// old length.
pub proof fn lemma_log_extended_one(
    old_log: Seq<VarietyEvent>,
    new_log: Seq<VarietyEvent>,
    rec: EventRec,
)
    requires
        log_extended(old_log, new_log, seq![rec]),
    ensures
        new_log.len() == old_log.len() + 1,
        forall|k: int| 0 <= k < old_log.len() ==> new_log[k] == old_log[k],
        logged(new_log[old_log.len() as int], old_log.len() as u64, rec),
{
    assert(seq![rec][0] == rec);
    assert(logged(new_log[old_log.len() as int + 0], (old_log.len() as int + 0) as u64, seq![rec][0]));
}

/// Extending a log twice extends it by the concatenation.
pub proof fn lemma_log_extended_trans(
    l0: Seq<VarietyEvent>,
    l1: Seq<VarietyEvent>,
    l2: Seq<VarietyEvent>,
    e1: Seq<EventRec>,
    e2: Seq<EventRec>,
)
    requires
        log_extended(l0, l1, e1),
        log_extended(l1, l2, e2),
    ensures
        log_extended(l0, l2, e1 + e2),
{
    assert forall|k: int| 0 <= k < (e1 + e2).len() implies logged(
        #[trigger] l2[l0.len() + k],
        (l0.len() + k) as u64,
        (e1 + e2)[k],
    ) by {
        if k < e1.len() {
            assert(l2[l0.len() + k] == l1[l0.len() + k]);
            assert((e1 + e2)[k] == e1[k]);
        } else {
            assert(l2[l1.len() + (k - e1.len())] == l2[l0.len() + k]);
            assert((e1 + e2)[k] == e2[k - e1.len()]);
        }
    }
}

/// The event recorded when an accepted transformation is applied: intensive
/// transformations log their description and dimension-creation flag;
/// entropic ones log a coherence shift from a full 1.0 down to one minus
/// the loss (the recorded pre-event coherence is deliberately a full 1.0,
/// never the proposer's actual prior value - a fixed quirk of the engine's
/// semantics that downstream audits rely on); extensive ones log a variety
/// exchange carrying the multiplier; navigations log the move to the last
/// pattern of the path (or to the proposer itself on an empty path).
pub open spec fn applied_event(id: AgentId, t: TransformModel) -> EventModel {
    match t {
        TransformModel::Intensive { quality_shift, dimensional_creation } =>
            EventModel::IntensiveTransform {
            description: quality_shift,
            penny_to_gorilla: dimensional_creation,
        },
        TransformModel::Entropic { coherence_loss, .. } => EventModel::CoherenceShift {
            agent: id,
            old_coherence: 1000i64,
            new_coherence: (1000 - coherence_loss) as i64,
        },
        TransformModel::Extensive { multiplier, .. } => EventModel::AgentInteraction {
            interaction_type: InteractionType::VarietyExchange,
            variety_exchanged: multiplier,
        },
        TransformModel::Navigation { path, .. } => EventModel::Navigation {
            from_pattern: id,
            to_pattern: if path.len() == 0 {
                id
            } else {
                path.last()
            },
            success: true,
        },
    }
}

/// Whether this agent's turn fails fatally: its proposal is applied (not
/// blocked) and is entropic with an instability risk above 0.8.
pub open spec fn agent_step_fails(a: AnyAgent, dom: Option<DomovaiPattern>) -> bool {
    &&& !(decide_opt(a.proposal(), dom) is Block)
    &&& (a.proposal() matches TransformModel::Entropic { reality_tear_risk, .. }
        && reality_tear_risk > 800)
}

/// The event recorded for this agent's turn (meaningful when the turn does
/// not fail): a blocked transformation logs a moderate-severity malevolent
/// action, an applied one its effect event.
pub open spec fn agent_step_event(a: AnyAgent, dom: Option<DomovaiPattern>) -> EventModel {
    if decide_opt(a.proposal(), dom) is Block {
        EventModel::MalevolentAction { attack_type: "Blocked transformation"@, severity: 500u32 }
    } else {
        applied_event(a.agent_id(), a.proposal())
    }
}

/// The records one step appends: one per agent, in population order, cut
/// short at the first fatally failing agent.
pub open spec fn step_events(agents: Seq<AnyAgent>, dom: Option<DomovaiPattern>) -> Seq<EventRec>
    decreases agents.len(),
{
    if agents.len() == 0 {
        Seq::empty()
    } else if agent_step_fails(agents[0], dom) {
        Seq::empty()
    } else {
        seq![
            EventRec { kind: agent_step_event(agents[0], dom), actors: seq![agents[0].agent_id()] },
        ] + step_events(agents.drop_first(), dom)
    }
}

/// Whether some agent's turn fails fatally in one step.
pub open spec fn step_fails(agents: Seq<AnyAgent>, dom: Option<DomovaiPattern>) -> bool {
    exists|i: int| 0 <= i < agents.len() && agent_step_fails(agents[i], dom)
}

/// With no failing agent, a step logs exactly one event per agent, in
/// population order.
pub proof fn lemma_step_events_no_fail(agents: Seq<AnyAgent>, dom: Option<DomovaiPattern>)
    requires
        forall|k: int| 0 <= k < agents.len() ==> !agent_step_fails(#[trigger] agents[k], dom),
    ensures
        step_events(agents, dom).len() == agents.len(),
        forall|k: int|
            0 <= k < agents.len() ==> #[trigger] step_events(agents, dom)[k] == (EventRec {
                kind: agent_step_event(agents[k], dom),
                actors: seq![agents[k].agent_id()],
            }),
    decreases agents.len(),
{
    if agents.len() > 0 {
        assert(!agent_step_fails(agents[0], dom));
        assert forall|k: int|
            0 <= k < agents.drop_first().len() implies !agent_step_fails(
            #[trigger] agents.drop_first()[k],
            dom,
        ) by {
            assert(agents.drop_first()[k] == agents[k + 1]);
        }
        lemma_step_events_no_fail(agents.drop_first(), dom);
        assert forall|k: int|
            0 <= k < agents.len() implies #[trigger] step_events(agents, dom)[k] == (EventRec {
            kind: agent_step_event(agents[k], dom),
            actors: seq![agents[k].agent_id()],
        }) by {
            if k > 0 {
                assert(step_events(agents, dom)[k] == step_events(agents.drop_first(), dom)[k - 1]);
                assert(agents.drop_first()[k - 1] == agents[k]);
            }
        }
    }
}

/// With the first failing agent at index `f`, a step logs exactly the
/// events of the agents before it.
pub proof fn lemma_step_events_fail_at(
    agents: Seq<AnyAgent>,
    dom: Option<DomovaiPattern>,
    f: int,
)
    requires
        0 <= f < agents.len(),
        agent_step_fails(agents[f], dom),
        forall|k: int| 0 <= k < f ==> !agent_step_fails(#[trigger] agents[k], dom),
    ensures
        step_events(agents, dom).len() == f,
        forall|k: int|
            0 <= k < f ==> #[trigger] step_events(agents, dom)[k] == (EventRec {
                kind: agent_step_event(agents[k], dom),
                actors: seq![agents[k].agent_id()],
            }),
    decreases agents.len(),
{
    if f == 0 {
    } else {
        assert(!agent_step_fails(agents[0], dom));
        assert forall|k: int| 0 <= k < f - 1 implies !agent_step_fails(
            #[trigger] agents.drop_first()[k],
            dom,
        ) by {
            assert(agents.drop_first()[k] == agents[k + 1]);
        }
        assert(agents.drop_first()[f - 1] == agents[f]);
        lemma_step_events_fail_at(agents.drop_first(), dom, f - 1);
        assert forall|k: int|
            0 <= k < f implies #[trigger] step_events(agents, dom)[k] == (EventRec {
            kind: agent_step_event(agents[k], dom),
            actors: seq![agents[k].agent_id()],
        }) by {
            if k > 0 {
                assert(step_events(agents, dom)[k] == step_events(agents.drop_first(), dom)[k - 1]);
                assert(agents.drop_first()[k - 1] == agents[k]);
            }
        }
    }
}

/// The records `steps` identical steps append: `steps` copies of `evs`.
pub open spec fn run_events(evs: Seq<EventRec>, steps: nat) -> Seq<EventRec>
    decreases steps,
{
    if steps == 0 {
        Seq::empty()
    } else {
        run_events(evs, (steps - 1) as nat) + evs
    }
}

/// Running `steps` identical steps appends `steps` times as many records.
pub proof fn lemma_run_events_len(evs: Seq<EventRec>, steps: nat)
    ensures
        run_events(evs, steps).len() == steps * evs.len(),
    decreases steps,
{
    if steps > 0 {
        let prior: nat = (steps - 1) as nat;
        lemma_run_events_len(evs, prior);
        assert(run_events(evs, steps).len() == prior * evs.len() + evs.len());
        assert(prior * evs.len() + evs.len() == steps * evs.len()) by (nonlinear_arith)
            requires prior + 1 == steps;
        assert(run_events(evs, steps).len() == steps * evs.len());
    } else {
        assert(steps == 0);
        assert(run_events(evs, steps).len() == 0);
        assert(steps * evs.len() == 0) by (nonlinear_arith)
            requires steps == 0;
    }
}

/// `a` records the same event as `b`: all fields equal, string payloads by
/// content.
pub open spec fn event_dup(a: VarietyEvent, b: VarietyEvent) -> bool {
    &&& a.id == b.id
    &&& a.timestamp == b.timestamp
    &&& a.event_type@ == b.event_type@
    &&& a.actors@ == b.actors@
    &&& a.variety_delta == b.variety_delta
    &&& a.iec_classification == b.iec_classification
}

/// The records a sustained-disruption condition of the given intensity and
/// duration appends: one malevolent-action event per tick, with no actors.
pub open spec fn ddos_records(intensity: u32, duration: nat) -> Seq<EventRec> {
    Seq::new(
        duration,
        |j: int|
            EventRec {
                kind: EventModel::MalevolentAction {
                    attack_type: "Variety Exhaustion DDoS"@,
                    severity: intensity,
                },
                actors: Seq::empty(),
            },
    )
}

/// The mean coherence of an empty population is exactly 1.0: the explicit
/// edge-case default that `step` reports whenever no agent is registered,
/// however many steps are taken.
pub proof fn lemma_empty_population_mean()
    ensures
        mean_coherence(Seq::<AnyAgent>::empty()) == SCALE,
{
}

/// An entropic proposal whose coherence loss exceeds the configured
/// maximum is blocked, whatever its instability risk: the turn cannot fail
/// fatally, and the event logged for it is a moderate-severity malevolent
/// action, never a coherence shift. Since steps never mutate agent state
/// (see `step`), the proposing agent's logged coherence is untouched.
pub proof fn lemma_entropic_over_threshold_blocked(a: AnyAgent, d: DomovaiPattern)
    requires
        (a.proposal() matches TransformModel::Entropic { coherence_loss, .. } && coherence_loss
            > d.spec_config().max_coherence_loss),
    ensures
        decide_opt(a.proposal(), Some(d)) is Block,
        !agent_step_fails(a, Some(d)),
        agent_step_event(a, Some(d)) == (EventModel::MalevolentAction {
            attack_type: "Blocked transformation"@,
            severity: 500u32,
        }),
{
}

/// An entropic proposal with instability risk above 0.8 makes the step -
/// and with it the enclosing run - fail fatally, under every policy
/// configuration that lets the proposal through (no protection, or a
/// threshold at or above the coherence loss). A configuration whose
/// threshold lies below the loss blocks the proposal first, and a blocked
/// effect is never applied.
pub proof fn lemma_instability_aborts(
    agents: Seq<AnyAgent>,
    dom: Option<DomovaiPattern>,
    i: int,
)
    requires
        0 <= i < agents.len(),
        (agents[i].proposal() matches TransformModel::Entropic {
            coherence_loss,
            reality_tear_risk,
        } && reality_tear_risk > 800 && (dom matches Some(d) ==> coherence_loss
            <= d.spec_config().max_coherence_loss)),
    ensures
        agent_step_fails(agents[i], dom),
        step_fails(agents, dom),
{
    assert(agent_step_fails(agents[i], dom));
}

/// Enabling protection is idempotent: the installed engine is a function
/// of the configuration alone, so installing the same configuration twice
/// (or installing it again at any later point) yields the same engine,
/// making identical decisions for identical proposals.
pub proof fn lemma_enable_protection_idempotent(
    d1: DomovaiPattern,
    d2: DomovaiPattern,
    t: TransformModel,
)
    requires
        d1.spec_config() == d2.spec_config(),
    ensures
        d1 == d2,
        decide_opt(t, Some(d1)) == decide_opt(t, Some(d2)),
{
}

/// Registering an agent logs exactly one event (see `add_agent`), and over
/// a population of K agents none of whose turns fails, every step logs
/// exactly K events: a run of S steps therefore appends exactly S*K
/// events, so registering K agents and running S steps leaves at least
/// K + S*K events in the log.
pub proof fn lemma_population_run_log_size(
    agents: Seq<AnyAgent>,
    dom: Option<DomovaiPattern>,
    steps: nat,
)
    requires
        forall|k: int| 0 <= k < agents.len() ==> !agent_step_fails(#[trigger] agents[k], dom),
    ensures
        step_events(agents, dom).len() == agents.len(),
        run_events(step_events(agents, dom), steps).len() == steps * agents.len(),
{
    lemma_step_events_no_fail(agents, dom);
    lemma_run_events_len(step_events(agents, dom), steps);
}

/// Sum of the coherence values of a population.
pub open spec fn coherence_sum(agents: Seq<AnyAgent>) -> int
    decreases agents.len(),
{
    if agents.len() == 0 {
        0
    } else {
        agents[0].signature_spec().coherence + coherence_sum(agents.drop_first())
    }
}

/// Mean coherence of a population, rounded down; exactly 1.0 for an empty
/// population (an explicit edge-case default, not an error).
pub open spec fn mean_coherence(agents: Seq<AnyAgent>) -> u32 {
    if agents.len() == 0 {
        SCALE
    } else {
        (coherence_sum(agents) / agents.len() as int) as u32
    }
}

/// Over a well-formed population, the coherence sum is nonnegative and
/// bounded by the population size (each coherence lies in the unit
/// interval).
pub proof fn lemma_coherence_sum_wf_bound(agents: Seq<AnyAgent>)
    requires
        forall|k: int|
            0 <= k < agents.len() ==> (#[trigger] agents[k]).signature_spec().wf(),
    ensures
        0 <= coherence_sum(agents) <= agents.len() * 1000,
    decreases agents.len(),
{
    if agents.len() > 0 {
        assert forall|k: int|
            0 <= k < agents.drop_first().len() implies (#[trigger] agents.drop_first()[
            k]).signature_spec().wf() by {
            assert(agents.drop_first()[k] == agents[k + 1]);
        }
        lemma_coherence_sum_wf_bound(agents.drop_first());
        assert(agents[0].signature_spec().wf());
        assert(agents[0].signature_spec().coherence <= 1000);
    }
}

/// Over a well-formed population the mean coherence lies in the unit
/// interval, like every agent's own coherence.
pub proof fn lemma_mean_coherence_unit(agents: Seq<AnyAgent>)
    requires
        forall|k: int|
            0 <= k < agents.len() ==> (#[trigger] agents[k]).signature_spec().wf(),
    ensures
        mean_coherence(agents) <= SCALE,
{
    if agents.len() > 0 {
        lemma_coherence_sum_wf_bound(agents);
        let n = agents.len() as int;
        assert(coherence_sum(agents) / n <= 1000) by (nonlinear_arith)
            requires
                n > 0,
                coherence_sum(agents) <= n * 1000;
    }
}

/// Extending a population prefix by one agent adds that agent's coherence.
proof fn lemma_coherence_sum_append(agents: Seq<AnyAgent>, i: int)
    requires
        0 <= i < agents.len(),
    ensures
        coherence_sum(agents.subrange(0, i + 1)) == coherence_sum(agents.subrange(0, i))
            + agents[i].signature_spec().coherence,
    decreases i,
{
    if i == 0 {
        assert(agents.subrange(0, 1).drop_first() =~= agents.subrange(0, 0));
    } else {
        lemma_coherence_sum_append(agents.drop_first(), i - 1);
        assert(agents.subrange(0, i + 1).drop_first() =~= agents.drop_first().subrange(0, i));
        assert(agents.subrange(0, i).drop_first() =~= agents.drop_first().subrange(0, i - 1));
    }
}

/// A single-actor list.
fn one_actor(id: AgentId) -> (v: Vec<AgentId>)
    ensures
        v@ == seq![id],
{
    let mut v: Vec<AgentId> = Vec::new();
    v.push(id);
    proof {
        assert(v@ =~= seq![id]);
    }
    v
}

/// The meta-tensor testing ground where virtual agents navigate
/// variety-space.
#[derive(Debug)]
pub struct VarietyNavigationSimulator {
    /// All registered agents, in insertion order; the agent at index `i`
    /// carries identifier `i`.
    agents: Vec<AnyAgent>,
    /// The variety-space itself.
    variety_space: VarietySpace,
    /// Domovoi, the protective policy engine, if enabled.
    domovoi: Option<DomovaiPattern>,
    /// Append-only event log.
    event_log: Vec<VarietyEvent>,
    /// Current simulation time step.
    time_step: u64,
}

impl VarietyNavigationSimulator {
    /// The registered population, in insertion order.
    pub closed spec fn agents_seq(&self) -> Seq<AnyAgent> {
        self.agents@
    }

    /// The installed protection engine, if any.
    pub closed spec fn spec_domovoi(&self) -> Option<DomovaiPattern> {
        self.domovoi
    }

    /// The event log.
    pub closed spec fn log_seq(&self) -> Seq<VarietyEvent> {
        self.event_log@
    }

    /// The current time step.
    pub closed spec fn spec_time_step(&self) -> u64 {
        self.time_step
    }

    /// The variety space.
    pub closed spec fn spec_space(&self) -> VarietySpace {
        self.variety_space
    }

    /// Well-formedness: the space is well-formed; every agent's pattern is
    /// well-formed, matches the space's dimensionality, and carries its
    /// index as identifier (so identifiers are unique and stable).
    pub open spec fn wf(&self) -> bool {
        &&& self.spec_space().wf()
        &&& forall|i: int|
            0 <= i < self.agents_seq().len() ==> (#[trigger] self.agents_seq()[i]).signature_spec().wf()
        &&& forall|i: int|
            0 <= i < self.agents_seq().len() ==> (#[trigger] self.agents_seq()[i]).agent_id() == i
        &&& forall|i: int|
            0 <= i < self.agents_seq().len() ==> (#[trigger] self.agents_seq()[i]).signature_spec().tensor@.len()
                == self.spec_space().spec_dimensions()
    }

    /// Create a new simulator with the specified dimensionality: empty
    /// population, no protection, empty log, time step zero.
    pub fn new(dimensions: usize) -> (r: Self)
        ensures
            r.wf(),
            r.agents_seq().len() == 0,
            r.spec_domovoi() is None,
            r.log_seq().len() == 0,
            r.spec_time_step() == 0,
            r.spec_space().spec_dimensions() == dimensions,
    {
        VarietyNavigationSimulator {
            agents: Vec::new(),
            variety_space: VarietySpace::new(dimensions),
            domovoi: None,
            event_log: Vec::new(),
            time_step: 0,
        }
    }

    /// Append one classified event to the log, under the next log index.
    fn log_event(&mut self, event_type: EventType, actors: Vec<AgentId>)
        ensures
            final(self).agents_seq() == old(self).agents_seq(),
            final(self).spec_domovoi() == old(self).spec_domovoi(),
            final(self).spec_space() == old(self).spec_space(),
            final(self).spec_time_step() == old(self).spec_time_step(),
            log_extended(
                old(self).log_seq(),
                final(self).log_seq(),
                seq![EventRec { kind: event_type@, actors: actors@ }],
            ),
    {
        let id = self.event_log.len() as u64;
        let e = VarietyEvent::new(id, event_type, actors);
        self.event_log.push(e);
    }

    /// Register an agent: its pattern must match the space's
    /// dimensionality and satisfy the unit-interval bounds, else it is
    /// rejected. On success the agent receives the next free identifier,
    /// its pattern is registered in the space, the agent joins the
    /// population, and one self-directed navigation event is logged.
    pub fn add_agent(&mut self, agent: AnyAgent) -> (r: Result<AgentId, VarietyError>)
        requires
            old(self).wf(),
        ensures
            final(self).wf(),
            final(self).spec_domovoi() == old(self).spec_domovoi(),
            final(self).spec_time_step() == old(self).spec_time_step(),
            final(self).spec_space().spec_dimensions() == old(self).spec_space().spec_dimensions(),
            agent.signature_spec().tensor@.len() != old(self).spec_space().spec_dimensions()
                ==> r == Result::<AgentId, VarietyError>::Err(VarietyError::DimensionMismatch),
            agent.signature_spec().tensor@.len() == old(self).spec_space().spec_dimensions()
                && !agent.signature_spec().wf() ==> r == Result::<AgentId, VarietyError>::Err(
                VarietyError::InvalidThreshold,
            ),
            r is Err ==> final(self).agents_seq() == old(self).agents_seq() && final(self).log_seq()
                == old(self).log_seq() && final(self).spec_space() == old(self).spec_space(),
            r is Ok <==> agent.signature_spec().tensor@.len()
                == old(self).spec_space().spec_dimensions() && agent.signature_spec().wf(),
            r is Ok ==> ({
                let id = old(self).agents_seq().len() as u64;
                &&& r == Result::<AgentId, VarietyError>::Ok(id)
                &&& final(self).agents_seq() == old(self).agents_seq().push(
                    agent.spec_with_id(id),
                )
                &&& log_extended(
                    old(self).log_seq(),
                    final(self).log_seq(),
                    seq![
                        EventRec {
                            kind: EventModel::Navigation {
                                from_pattern: id,
                                to_pattern: id,
                                success: true,
                            },
                            actors: seq![id],
                        },
                    ],
                )
            }),
    {
        if agent.variety_signature().tensor.len() != self.variety_space.dimensions() {
            return Err(VarietyError::DimensionMismatch);
        }
        if !agent.variety_signature().is_wf() {
            return Err(VarietyError::InvalidThreshold);
        }
        let id = self.agents.len() as u64;
        let ghost agent0 = agent;
        let mut agent = agent;
        agent.assign_id(id);
        proof {
            crate::agents::lemma_spec_with_id(agent0, id);
            assert(agent.signature_spec().wf());
            assert(agent.signature_spec().tensor@.len()
                == self.variety_space.spec_dimensions());
        }
        let pattern_copy = agent.variety_signature().duplicate();
        let added = self.variety_space.add_pattern(pattern_copy);
        if let Err(e) = added {
            // Unreachable: the checks above establish exactly what
            // add_pattern demands.
            proof {
                assert(false);
            }
            return Err(e);
        }
        self.agents.push(agent);
        proof {
            assert forall|i: int|
                0 <= i < self.agents@.len() implies (#[trigger] self.agents@[i]).agent_id()
                == i by {
                if i < old(self).agents_seq().len() {
                    assert(self.agents@[i] == old(self).agents_seq()[i]);
                }
            }
        }
        self.log_event(
            EventType::Navigation { from_pattern: id, to_pattern: id, success: true },
            one_actor(id),
        );
        Ok(id)
    }

    /// Install (or replace) Domovoi protection. A configuration whose
    /// threshold lies outside the unit interval is rejected. Installation
    /// is idempotent: the resulting engine is a function of the
    /// configuration alone.
    pub fn enable_protection(&mut self, config: DomovaiConfig) -> (r: Result<(), VarietyError>)
        ensures
            final(self).agents_seq() == old(self).agents_seq(),
            final(self).spec_space() == old(self).spec_space(),
            final(self).log_seq() == old(self).log_seq(),
            final(self).spec_time_step() == old(self).spec_time_step(),
            r is Ok <==> config.max_coherence_loss <= SCALE,
            r is Err ==> r == Result::<(), VarietyError>::Err(VarietyError::InvalidThreshold)
                && final(self).spec_domovoi() == old(self).spec_domovoi(),
            r is Ok ==> final(self).spec_domovoi() == Some(DomovaiPattern::spec_new(config)),
    {
        if config.max_coherence_loss > SCALE {
            return Err(VarietyError::InvalidThreshold);
        }
        self.domovoi = Some(DomovaiPattern::new(config));
        Ok(())
    }

    /// Apply an accepted transformation's effect for the given proposing
    /// agent: an entropic transformation with instability risk above 0.8
    /// fails fatally and logs nothing; every other accepted transformation
    /// logs exactly its effect event. No agent state is mutated: effects
    /// are recorded in the log alone.
    fn apply_transformation(&mut self, agent_id: AgentId, transformation: VarietyTransformation)
        -> (r: Result<(), VarietyError>)
        ensures
            final(self).agents_seq() == old(self).agents_seq(),
            final(self).spec_domovoi() == old(self).spec_domovoi(),
            final(self).spec_space() == old(self).spec_space(),
            final(self).spec_time_step() == old(self).spec_time_step(),
            r is Err <==> (transformation@ matches TransformModel::Entropic {
                reality_tear_risk,
                ..
            } && reality_tear_risk > 800),
            r is Err ==> r == Result::<(), VarietyError>::Err(VarietyError::RealityTear)
                && final(self).log_seq() == old(self).log_seq(),
            r is Ok ==> log_extended(
                old(self).log_seq(),
                final(self).log_seq(),
                seq![
                    EventRec {
                        kind: applied_event(agent_id, transformation@),
                        actors: seq![agent_id],
                    },
                ],
            ),
    {
        match transformation {
            VarietyTransformation::Intensive { quality_shift, dimensional_creation } => {
                self.log_event(
                    EventType::IntensiveTransform {
                        description: quality_shift,
                        penny_to_gorilla: dimensional_creation,
                    },
                    one_actor(agent_id),
                );
                Ok(())
            },
            VarietyTransformation::Entropic { coherence_loss, reality_tear_risk } => {
                if reality_tear_risk > 800 {
                    return Err(VarietyError::RealityTear);
                }
                let new_coherence: i64 = 1000i64 - (coherence_loss as i64);
                self.log_event(
                    EventType::CoherenceShift {
                        agent: agent_id,
                        old_coherence: 1000i64,
                        new_coherence,
                    },
                    one_actor(agent_id),
                );
                Ok(())
            },
            VarietyTransformation::Extensive { multiplier, .. } => {
                self.log_event(
                    EventType::AgentInteraction {
                        interaction_type: InteractionType::VarietyExchange,
                        variety_exchanged: multiplier,
                    },
                    one_actor(agent_id),
                );
                Ok(())
            },
            VarietyTransformation::Navigation { path, .. } => {
                let to_pattern = if path.len() == 0 {
                    agent_id
                } else {
                    path[path.len() - 1]
                };
                self.log_event(
                    EventType::Navigation { from_pattern: agent_id, to_pattern, success: true },
                    one_actor(agent_id),
                );
                Ok(())
            },
        }
    }

    /// Advance the simulation by exactly one tick. Every registered agent,
    /// in insertion order, proposes one transformation; the installed
    /// policy engine (if any) renders a decision; blocked proposals are
    /// discarded and logged as moderate-severity malevolent actions, all
    /// others are applied. An applied entropic proposal with instability
    /// risk above 0.8 aborts the step fatally: the events of the agents
    /// already visited remain logged, and the error propagates. On success
    /// the summary reports the new time step, the population size and the
    /// mean coherence (exactly 1.0 for an empty population).
    pub fn step(&mut self) -> (r: Result<StepResult, VarietyError>)
        requires
            old(self).wf(),
            old(self).spec_time_step() < u64::MAX,
        ensures
            final(self).wf(),
            final(self).agents_seq() == old(self).agents_seq(),
            final(self).spec_domovoi() == old(self).spec_domovoi(),
            final(self).spec_space() == old(self).spec_space(),
            final(self).spec_time_step() == old(self).spec_time_step() + 1,
            log_extended(
                old(self).log_seq(),
                final(self).log_seq(),
                step_events(old(self).agents_seq(), old(self).spec_domovoi()),
            ),
            r is Ok <==> !step_fails(old(self).agents_seq(), old(self).spec_domovoi()),
            (r matches Ok(s) ==> s.time_step == old(self).spec_time_step() + 1 && s.total_agents
                == old(self).agents_seq().len() && s.coherence_average == mean_coherence(
                old(self).agents_seq(),
            ) && s.events@.len() == 0),
            (r matches Err(e) ==> e == VarietyError::RealityTear),
    {
        self.time_step = self.time_step + 1;
        let ghost agents0 = self.agents@;
        let ghost dom0 = self.domovoi;
        let ghost log0 = self.event_log@;
        let n = self.agents.len();
        let mut i: usize = 0;
        while i < n
            invariant
                i <= n,
                n == self.agents@.len(),
                agents0 == old(self).agents_seq(),
                dom0 == old(self).spec_domovoi(),
                log0 == old(self).log_seq(),
                self.agents@ == old(self).agents_seq(),
                self.domovoi == old(self).spec_domovoi(),
                self.variety_space == old(self).spec_space(),
                self.time_step == old(self).spec_time_step() + 1,
                old(self).wf(),
                forall|k: int|
                    0 <= k < i ==> !agent_step_fails(
                        #[trigger] old(self).agents_seq()[k],
                        old(self).spec_domovoi(),
                    ),
                self.event_log@.len() == old(self).log_seq().len() + i,
                forall|k: int|
                    0 <= k < old(self).log_seq().len()
                        ==> self.event_log@[k] == #[trigger] old(self).log_seq()[k],
                forall|k: int|
                    0 <= k < i ==> logged(
                        #[trigger] self.event_log@[old(self).log_seq().len() + k],
                        (old(self).log_seq().len() + k) as u64,
                        EventRec {
                            kind: agent_step_event(
                                old(self).agents_seq()[k],
                                old(self).spec_domovoi(),
                            ),
                            actors: seq![old(self).agents_seq()[k].agent_id()],
                        },
                    ),
            decreases n - i,
        {
            let ghost pre_agents = self.agents@;
            let ghost pre_log = self.event_log@;
            let a = &mut self.agents[i];
            let t = a.navigate(&self.variety_space);
            proof {
                assert(self.agents@ =~= pre_agents);
            }
            let ghost tm = t@;
            let id = self.agents[i].variety_signature().id;
            proof {
                assert(id == old(self).agents_seq()[i as int].agent_id());
                assert(tm == old(self).agents_seq()[i as int].proposal());
            }
            let decision: RegulationDecision = match &self.domovoi {
                Some(d) => {
                    let dec = d.regulate(&t, self.agents[i].variety_signature());
                    proof {
                        assert(dom0 matches Some(d0) && d0.spec_config() == d.spec_config());
                        assert(decision_model(dec) == decide_opt(tm, dom0));
                    }
                    dec
                },
                None => RegulationDecision::Allow,
            };
            proof {
                assert(decision_model(decision) == decide_opt(tm, dom0));
            }
            let ghost call_log = self.event_log@;
            match decision {
                RegulationDecision::Block(_reason) => {
                    self.log_event(
                        EventType::MalevolentAction {
                            attack_type: "Blocked transformation".to_string(),
                            severity: 500,
                        },
                        one_actor(id),
                    );
                    proof {
                        assert(!agent_step_fails(agents0[i as int], dom0));
                        assert(agent_step_event(agents0[i as int], dom0)
                            == (EventModel::MalevolentAction {
                            attack_type: "Blocked transformation"@,
                            severity: 500u32,
                        }));
                        lemma_log_extended_one(
                            call_log,
                            self.event_log@,
                            EventRec {
                                kind: agent_step_event(agents0[i as int], dom0),
                                actors: seq![agents0[i as int].agent_id()],
                            },
                        );
                    }
                },
                RegulationDecision::Allow => {
                    let res = self.apply_transformation(id, t);
                    if let Err(e) = res {
                        proof {
                            assert(agent_step_fails(agents0[i as int], dom0));
                            assert(step_fails(agents0, dom0));
                            lemma_step_events_fail_at(agents0, dom0, i as int);
                        }
                        return Err(e);
                    }
                    proof {
                        assert(!agent_step_fails(agents0[i as int], dom0));
                        assert(agent_step_event(agents0[i as int], dom0) == applied_event(
                            id,
                            tm,
                        ));
                        lemma_log_extended_one(
                            call_log,
                            self.event_log@,
                            EventRec {
                                kind: agent_step_event(agents0[i as int], dom0),
                                actors: seq![agents0[i as int].agent_id()],
                            },
                        );
                    }
                },
                RegulationDecision::Monitor => {
                    let res = self.apply_transformation(id, t);
                    if let Err(e) = res {
                        proof {
                            assert(agent_step_fails(agents0[i as int], dom0));
                            assert(step_fails(agents0, dom0));
                            lemma_step_events_fail_at(agents0, dom0, i as int);
                        }
                        return Err(e);
                    }
                    proof {
                        assert(!agent_step_fails(agents0[i as int], dom0));
                        assert(agent_step_event(agents0[i as int], dom0) == applied_event(
                            id,
                            tm,
                        ));
                        lemma_log_extended_one(
                            call_log,
                            self.event_log@,
                            EventRec {
                                kind: agent_step_event(agents0[i as int], dom0),
                                actors: seq![agents0[i as int].agent_id()],
                            },
                        );
                    }
                },
            }
            proof {
                assert(logged(
                    self.event_log@[log0.len() + i],
                    (log0.len() + i) as u64,
                    EventRec {
                        kind: agent_step_event(agents0[i as int], dom0),
                        actors: seq![agents0[i as int].agent_id()],
                    },
                ));
            }
            i = i + 1;
        }
        proof {
            lemma_step_events_no_fail(agents0, dom0);
        }
        let avg = self.calculate_average_coherence();
        Ok(
            StepResult {
                time_step: self.time_step,
                events: Vec::new(),
                total_agents: n,
                coherence_average: avg,
            },
        )
    }

    /// An exact copy of the event log.
    fn snapshot_log(&self) -> (r: Vec<VarietyEvent>)
        ensures
            r@.len() == self.log_seq().len(),
            forall|k: int| 0 <= k < r@.len() ==> event_dup(#[trigger] r@[k], self.log_seq()[k]),
    {
        let mut r: Vec<VarietyEvent> = Vec::new();
        let mut i: usize = 0;
        while i < self.event_log.len()
            invariant
                i <= self.event_log@.len(),
                r@.len() == i,
                forall|k: int| 0 <= k < i ==> event_dup(#[trigger] r@[k], self.event_log@[k]),
            decreases self.event_log@.len() - i,
        {
            let e = self.event_log[i].duplicate();
            r.push(e);
            i = i + 1;
        }
        r
    }

    /// Run the simulation for `steps` sequential ticks, collecting every
    /// step summary and a snapshot of the full event log. A fatal
    /// instability in any step aborts the run immediately: the summaries
    /// collected so far are discarded, the events logged before the
    /// failure remain, and the error propagates.
    pub fn run(&mut self, steps: u64) -> (r: Result<SimulationResult, VarietyError>)
        requires
            old(self).wf(),
            old(self).spec_time_step() + steps <= u64::MAX,
        ensures
            final(self).wf(),
            final(self).agents_seq() == old(self).agents_seq(),
            final(self).spec_domovoi() == old(self).spec_domovoi(),
            final(self).spec_space() == old(self).spec_space(),
            r is Ok <==> (steps == 0 || !step_fails(
                old(self).agents_seq(),
                old(self).spec_domovoi(),
            )),
            (r matches Err(e) ==> e == VarietyError::RealityTear && final(self).spec_time_step()
                == old(self).spec_time_step() + 1 && log_extended(
                old(self).log_seq(),
                final(self).log_seq(),
                step_events(old(self).agents_seq(), old(self).spec_domovoi()),
            )),
            (r matches Ok(sim) ==> ({
                &&& final(self).spec_time_step() == old(self).spec_time_step() + steps
                &&& sim.total_steps == steps
                &&& sim.step_results@.len() == steps
                &&& forall|k: int|
                    0 <= k < steps ==> (#[trigger] sim.step_results@[k]).time_step == old(
                        self,
                    ).spec_time_step() + k + 1 && sim.step_results@[k].total_agents == old(
                        self,
                    ).agents_seq().len() && sim.step_results@[k].coherence_average
                        == mean_coherence(old(self).agents_seq())
                        && sim.step_results@[k].events@.len() == 0
                &&& log_extended(
                    old(self).log_seq(),
                    final(self).log_seq(),
                    run_events(
                        step_events(old(self).agents_seq(), old(self).spec_domovoi()),
                        steps as nat,
                    ),
                )
                &&& sim.final_event_log@.len() == final(self).log_seq().len()
                &&& forall|k: int|
                    0 <= k < final(self).log_seq().len() ==> event_dup(
                        #[trigger] sim.final_event_log@[k],
                        final(self).log_seq()[k],
                    )
            })),
    {
        let ghost evs = step_events(old(self).agents_seq(), old(self).spec_domovoi());
        let mut results: Vec<StepResult> = Vec::new();
        let mut k: u64 = 0;
        while k < steps
            invariant
                k <= steps,
                old(self).wf(),
                old(self).spec_time_step() + steps <= u64::MAX,
                self.wf(),
                self.agents@ == old(self).agents_seq(),
                self.domovoi == old(self).spec_domovoi(),
                self.variety_space == old(self).spec_space(),
                self.time_step == old(self).spec_time_step() + k,
                results@.len() == k,
                forall|j: int|
                    0 <= j < k ==> (#[trigger] results@[j]).time_step == old(
                        self,
                    ).spec_time_step() + j + 1 && results@[j].total_agents == old(
                        self,
                    ).agents_seq().len() && results@[j].coherence_average == mean_coherence(
                        old(self).agents_seq(),
                    ) && results@[j].events@.len() == 0,
                evs == step_events(old(self).agents_seq(), old(self).spec_domovoi()),
                log_extended(old(self).log_seq(), self.event_log@, run_events(evs, k as nat)),
                k > 0 ==> !step_fails(old(self).agents_seq(), old(self).spec_domovoi()),
            decreases steps - k,
        {
            let ghost pre_log = self.event_log@;
            let res = self.step();
            match res {
                Ok(sr) => {
                    results.push(sr);
                    proof {
                        lemma_log_extended_trans(
                            old(self).log_seq(),
                            pre_log,
                            self.event_log@,
                            run_events(evs, k as nat),
                            evs,
                        );
                        assert(run_events(evs, (k + 1) as nat) == run_events(evs, k as nat)
                            + evs);
                    }
                },
                Err(e) => {
                    proof {
                        assert(k == 0);
                        assert(run_events(evs, 0).len() == 0);
                        assert(pre_log =~= old(self).log_seq());
                    }
                    return Err(e);
                },
            }
            k = k + 1;
        }
        let final_event_log = self.snapshot_log();
        Ok(SimulationResult { total_steps: steps, step_results: results, final_event_log })
    }

    /// Subject the simulation to a scripted stress condition. Each
    /// condition synthesizes and logs a deterministic number of events and
    /// reports whether protection was enabled at invocation time, together
    /// with a fixed severity classification; none of them raises an error.
    pub fn test_condition(&mut self, condition: TestCondition) -> (r: Result<
        TestResult,
        VarietyError,
    >)
        requires
            (condition matches TestCondition::DDoS { duration, .. } ==> duration <= usize::MAX),
        ensures
            final(self).agents_seq() == old(self).agents_seq(),
            final(self).spec_domovoi() == old(self).spec_domovoi(),
            final(self).spec_space() == old(self).spec_space(),
            final(self).spec_time_step() == old(self).spec_time_step(),
            r is Ok,
            (r matches Ok(t) ==> t.success == (old(self).spec_domovoi() is Some)),
            (condition matches TestCondition::DDoS { intensity, duration } ==> (r matches Ok(t)
                && t.condition@ == "DDoS"@ && t.events_generated == duration
                && t.iec_classification == IECColor::Red && log_extended(
                old(self).log_seq(),
                final(self).log_seq(),
                ddos_records(intensity, duration as nat),
            ))),
            (condition matches TestCondition::ProtocolAbuse { abuse_type } ==> (r matches Ok(t)
                && t.condition@ == "Protocol Abuse"@ && t.events_generated == 1
                && t.iec_classification == IECColor::Yellow && log_extended(
                old(self).log_seq(),
                final(self).log_seq(),
                seq![
                    EventRec {
                        kind: EventModel::MalevolentAction {
                            attack_type: "Protocol Abuse: "@ + abuse_type@,
                            severity: 700u32,
                        },
                        actors: Seq::empty(),
                    },
                ],
            ))),
            (condition is IntensiveVarietyBomb ==> (r matches Ok(t) && t.condition@
                == "Intensive Variety Bomb"@ && t.events_generated == 1 && t.iec_classification
                == IECColor::Red && log_extended(
                old(self).log_seq(),
                final(self).log_seq(),
                seq![
                    EventRec {
                        kind: EventModel::IntensiveTransform {
                            description: "Variety Bomb: Penny->Gorilla x1000"@,
                            penny_to_gorilla: true,
                        },
                        actors: Seq::empty(),
                    },
                ],
            ))),
            (condition matches TestCondition::CoherenceAttack { target } ==> (r matches Ok(t)
                && t.condition@ == "Coherence Attack"@ && t.events_generated == 1
                && t.iec_classification == IECColor::Red && log_extended(
                old(self).log_seq(),
                final(self).log_seq(),
                seq![
                    EventRec {
                        kind: EventModel::CoherenceShift {
                            agent: target,
                            old_coherence: 1000i64,
                            new_coherence: 100i64,
                        },
                        actors: seq![target],
                    },
                ],
            ))),
    {
        match condition {
            TestCondition::DDoS { intensity, duration } => self.simulate_ddos(
                intensity,
                duration,
            ),
            TestCondition::ProtocolAbuse { abuse_type } => self.simulate_protocol_abuse(
                abuse_type,
            ),
            TestCondition::IntensiveVarietyBomb => self.simulate_intensive_variety_bomb(),
            TestCondition::CoherenceAttack { target } => self.simulate_coherence_attack(target),
        }
    }

    /// Sustained disruption: log one variety-exhaustion event per tick of
    /// the duration, carrying the given intensity as severity.
    fn simulate_ddos(&mut self, intensity: u32, duration: u64) -> (r: Result<
        TestResult,
        VarietyError,
    >)
        requires
            duration <= usize::MAX,
        ensures
            final(self).agents_seq() == old(self).agents_seq(),
            final(self).spec_domovoi() == old(self).spec_domovoi(),
            final(self).spec_space() == old(self).spec_space(),
            final(self).spec_time_step() == old(self).spec_time_step(),
            log_extended(
                old(self).log_seq(),
                final(self).log_seq(),
                ddos_records(intensity, duration as nat),
            ),
            (r matches Ok(t) && t.condition@ == "DDoS"@ && t.success == (old(
                self,
            ).spec_domovoi() is Some) && t.events_generated == duration && t.iec_classification
                == IECColor::Red),
    {
        let mut k: u64 = 0;
        while k < duration
            invariant
                k <= duration,
                self.agents@ == old(self).agents_seq(),
                self.domovoi == old(self).spec_domovoi(),
                self.variety_space == old(self).spec_space(),
                self.time_step == old(self).spec_time_step(),
                log_extended(
                    old(self).log_seq(),
                    self.event_log@,
                    ddos_records(intensity, k as nat),
                ),
            decreases duration - k,
        {
            let ghost pre_log = self.event_log@;
            self.log_event(
                EventType::MalevolentAction {
                    attack_type: "Variety Exhaustion DDoS".to_string(),
                    severity: intensity,
                },
                Vec::new(),
            );
            proof {
                let rec = EventRec {
                    kind: EventModel::MalevolentAction {
                        attack_type: "Variety Exhaustion DDoS"@,
                        severity: intensity,
                    },
                    actors: Seq::empty(),
                };
                lemma_log_extended_trans(
                    old(self).log_seq(),
                    pre_log,
                    self.event_log@,
                    ddos_records(intensity, k as nat),
                    seq![rec],
                );
                assert(ddos_records(intensity, (k + 1) as nat) =~= ddos_records(
                    intensity,
                    k as nat,
                ) + seq![rec]);
            }
            k = k + 1;
        }
        Ok(
            TestResult {
                condition: "DDoS".to_string(),
                success: self.domovoi.is_some(),
                events_generated: duration as usize,
                iec_classification: IECColor::Red,
            },
        )
    }

    /// A named-category protocol abuse burst: one moderate-severity
    /// malevolent-action event.
    fn simulate_protocol_abuse(&mut self, abuse_type: String) -> (r: Result<
        TestResult,
        VarietyError,
    >)
        ensures
            final(self).agents_seq() == old(self).agents_seq(),
            final(self).spec_domovoi() == old(self).spec_domovoi(),
            final(self).spec_space() == old(self).spec_space(),
            final(self).spec_time_step() == old(self).spec_time_step(),
            log_extended(
                old(self).log_seq(),
                final(self).log_seq(),
                seq![
                    EventRec {
                        kind: EventModel::MalevolentAction {
                            attack_type: "Protocol Abuse: "@ + abuse_type@,
                            severity: 700u32,
                        },
                        actors: Seq::empty(),
                    },
                ],
            ),
            (r matches Ok(t) && t.condition@ == "Protocol Abuse"@ && t.success == (old(
                self,
            ).spec_domovoi() is Some) && t.events_generated == 1 && t.iec_classification
                == IECColor::Yellow),
    {
        let attack_type = "Protocol Abuse: ".to_string().concat(abuse_type.as_str());
        self.log_event(
            EventType::MalevolentAction { attack_type, severity: 700 },
            Vec::new(),
        );
        Ok(
            TestResult {
                condition: "Protocol Abuse".to_string(),
                success: self.domovoi.is_some(),
                events_generated: 1,
                iec_classification: IECColor::Yellow,
            },
        )
    }

    /// A single catastrophic intensive event.
    fn simulate_intensive_variety_bomb(&mut self) -> (r: Result<TestResult, VarietyError>)
        ensures
            final(self).agents_seq() == old(self).agents_seq(),
            final(self).spec_domovoi() == old(self).spec_domovoi(),
            final(self).spec_space() == old(self).spec_space(),
            final(self).spec_time_step() == old(self).spec_time_step(),
            log_extended(
                old(self).log_seq(),
                final(self).log_seq(),
                seq![
                    EventRec {
                        kind: EventModel::IntensiveTransform {
                            description: "Variety Bomb: Penny->Gorilla x1000"@,
                            penny_to_gorilla: true,
                        },
                        actors: Seq::empty(),
                    },
                ],
            ),
            (r matches Ok(t) && t.condition@ == "Intensive Variety Bomb"@ && t.success == (old(
                self,
            ).spec_domovoi() is Some) && t.events_generated == 1 && t.iec_classification
                == IECColor::Red),
    {
        self.log_event(
            EventType::IntensiveTransform {
                description: "Variety Bomb: Penny->Gorilla x1000".to_string(),
                penny_to_gorilla: true,
            },
            Vec::new(),
        );
        Ok(
            TestResult {
                condition: "Intensive Variety Bomb".to_string(),
                success: self.domovoi.is_some(),
                events_generated: 1,
                iec_classification: IECColor::Red,
            },
        )
    }

    /// A direct coherence attack on one agent: one coherence-shift event
    /// recording a drop to 0.1.
    fn simulate_coherence_attack(&mut self, target: AgentId) -> (r: Result<
        TestResult,
        VarietyError,
    >)
        ensures
            final(self).agents_seq() == old(self).agents_seq(),
            final(self).spec_domovoi() == old(self).spec_domovoi(),
            final(self).spec_space() == old(self).spec_space(),
            final(self).spec_time_step() == old(self).spec_time_step(),
            log_extended(
                old(self).log_seq(),
                final(self).log_seq(),
                seq![
                    EventRec {
                        kind: EventModel::CoherenceShift {
                            agent: target,
                            old_coherence: 1000i64,
                            new_coherence: 100i64,
                        },
                        actors: seq![target],
                    },
                ],
            ),
            (r matches Ok(t) && t.condition@ == "Coherence Attack"@ && t.success == (old(
                self,
            ).spec_domovoi() is Some) && t.events_generated == 1 && t.iec_classification
                == IECColor::Red),
    {
        self.log_event(
            EventType::CoherenceShift {
                agent: target,
                old_coherence: 1000,
                new_coherence: 100,
            },
            one_actor(target),
        );
        Ok(
            TestResult {
                condition: "Coherence Attack".to_string(),
                success: self.domovoi.is_some(),
                events_generated: 1,
                iec_classification: IECColor::Red,
            },
        )
    }

    /// Mean coherence across the population, fixed-point; exactly 1.0 for
    /// an empty population.
    fn calculate_average_coherence(&self) -> (r: u32)
        requires
            forall|i: int|
                0 <= i < self.agents_seq().len() ==> (#[trigger] self.agents_seq()[i]).signature_spec().wf(),
        ensures
            r == mean_coherence(self.agents_seq()),
    {
        let n = self.agents.len();
        if n == 0 {
            return SCALE;
        }
        let mut acc: u128 = 0;
        let mut i: usize = 0;
        while i < n
            invariant
                i <= n,
                n == self.agents@.len(),
                forall|k: int|
                    0 <= k < self.agents_seq().len() ==> (#[trigger] self.agents_seq()[k]).signature_spec().wf(),
                acc == coherence_sum(self.agents@.subrange(0, i as int)),
                acc <= i * 1000,
            decreases n - i,
        {
            proof {
                lemma_coherence_sum_append(self.agents@, i as int);
                assert((i + 1) * 1000 == i * 1000 + 1000);
                assert(self.agents_seq()[i as int].signature_spec().wf());
                assert(self.agents@[i as int] == self.agents_seq()[i as int]);
            }
            acc = acc + self.agents[i].coherence() as u128;
            i = i + 1;
        }
        proof {
            assert(self.agents@.subrange(0, n as int) =~= self.agents@);
            assert(acc / (n as u128) <= 1000) by (nonlinear_arith)
                requires
                    n > 0,
                    acc <= (n as u128) * 1000;
        }
        (acc / (n as u128)) as u32
    }
}

/// Stress conditions a simulation can be subjected to.
#[derive(Debug)]
pub enum TestCondition {
    /// Sustained disruption through variety exhaustion; intensity is
    /// fixed-point, duration a number of synthesized events.
    DDoS { intensity: u32, duration: u64 },
    /// Protocol abuse of a named category.
    ProtocolAbuse { abuse_type: String },
    /// A single catastrophic intensive transformation.
    IntensiveVarietyBomb,
    /// A direct coherence attack on one agent.
    CoherenceAttack { target: AgentId },
}

/// Results from a single simulation step.
#[derive(Debug)]
pub struct StepResult {
    pub time_step: u64,
    pub events: Vec<VarietyEvent>,
    pub total_agents: usize,
    /// Mean coherence, fixed-point.
    pub coherence_average: u32,
}

/// Results from a full simulation run.
#[derive(Debug)]
pub struct SimulationResult {
    pub total_steps: u64,
    pub step_results: Vec<StepResult>,
    pub final_event_log: Vec<VarietyEvent>,
}

/// Results from a specific stress condition.
#[derive(Debug)]
pub struct TestResult {
    pub condition: String,
    /// Whether protection was enabled when the condition ran.
    pub success: bool,
    pub events_generated: usize,
    pub iec_classification: IECColor,
}

} // verus!
