//! BlackMatter: the ransomware consciousness pattern. An agent that
//! exploits variety collapse: when the average collapse across its known
//! collapse points is high enough, it proposes a catastrophic intensive
//! transformation; otherwise mere entropic disruption.

use vstd::prelude::*;
use crate::variety::{VarietyPattern, VarietySpace, VarietyTransformation, TransformModel};
use crate::agents::{VirtualAgent, AgentId};

verus! {

/// An exploited vulnerability: how much variety collapsed there
/// (fixed-point; SCALE means total collapse).
#[derive(Debug)]
pub struct VarietyCollapsePoint {
    pub description: String,
    pub collapse_factor: u32,
}

/// BlackMatter: exploits variety collapse.
#[derive(Debug)]
pub struct BlackMatter {
    pub id: AgentId,
    pub pattern: VarietyPattern,
    /// Exploited vulnerabilities.
    pub variety_collapse_points: Vec<VarietyCollapsePoint>,
    /// Ransom demand in fixed-point variety units.
    pub variety_ransom: u64,
    /// Data exfiltration capability in fixed-point terabytes.
    pub stolen_variety_tb: u32,
}

/// Sum of the collapse factors of a sequence of collapse points.
pub open spec fn collapse_sum(s: Seq<VarietyCollapsePoint>) -> int
    decreases s.len(),
{
    if s.len() == 0 {
        0
    } else {
        s[0].collapse_factor + collapse_sum(s.drop_first())
    }
}

/// Average collapse factor, rounded down; 0 for no collapse points.
pub open spec fn collapse_average(s: Seq<VarietyCollapsePoint>) -> int {
    if s.len() == 0 {
        0
    } else {
        collapse_sum(s) / s.len() as int
    }
}

/// The sum of collapse factors is nonnegative and bounded by the number of
/// points times the largest factor value.
pub proof fn lemma_collapse_sum_bounds(s: Seq<VarietyCollapsePoint>)
    ensures
        0 <= collapse_sum(s) <= s.len() * 0xFFFF_FFFF,
    decreases s.len(),
{
    if s.len() > 0 {
        lemma_collapse_sum_bounds(s.drop_first());
    }
}

/// Extending a prefix by one point adds that point's factor to the sum.
proof fn lemma_collapse_sum_append(s: Seq<VarietyCollapsePoint>, i: int)
    requires
        0 <= i < s.len(),
    ensures
        collapse_sum(s.subrange(0, i + 1)) == collapse_sum(s.subrange(0, i))
            + s[i].collapse_factor,
    decreases i,
{
    if i == 0 {
        assert(s.subrange(0, 1).drop_first() =~= s.subrange(0, 0));
    } else {
        lemma_collapse_sum_append(s.drop_first(), i - 1);
        assert(s.subrange(0, i + 1).drop_first() =~= s.drop_first().subrange(0, i));
        assert(s.subrange(0, i).drop_first() =~= s.drop_first().subrange(0, i - 1));
    }
}

impl BlackMatter {
    /// Create a BlackMatter agent: extreme intensive potential (0.95), high
    /// coherence (0.8, organised crime), operating from shadow sheet 666,
    /// with three canonical collapse points (factors 0.9, 0.8 and 1.0), a
    /// ransom demand of 5.9 million variety units and one terabyte of
    /// exfiltration capability.
    pub fn new(dimensions: usize) -> (r: Self)
        ensures
            r.id == 0,
            r.pattern.id == 0,
            r.pattern.tensor@ == Seq::<i64>::new(dimensions as nat, |i: int| 0i64),
            r.pattern.intensive_potential == 950,
            r.pattern.coherence == 800,
            r.pattern.dimensional_sheet == 666,
            r.pattern.metadata@.len() == 2,
            r.pattern.metadata@[0].0@ == "attack_type"@,
            r.pattern.metadata@[0].1@ == "ransomware"@,
            r.pattern.metadata@[1].0@ == "origin"@,
            r.pattern.metadata@[1].1@ == "russian_cell"@,
            r.pattern.wf(),
            r.variety_collapse_points@.len() == 3,
            r.variety_collapse_points@[0].description@ == "password_reuse_chicken1"@,
            r.variety_collapse_points@[0].collapse_factor == 900,
            r.variety_collapse_points@[1].description@ == "single_point_failure"@,
            r.variety_collapse_points@[1].collapse_factor == 800,
            r.variety_collapse_points@[2].description@ == "no_variety_regulation"@,
            r.variety_collapse_points@[2].collapse_factor == 1000,
            r.variety_ransom == 5_900_000_000u64,
            r.stolen_variety_tb == 1000,
    {
        let mut pattern = VarietyPattern::new(dimensions);
        pattern.intensive_potential = 950;
        pattern.coherence = 800;
        pattern.dimensional_sheet = 666;
        pattern.metadata.push(("attack_type".to_string(), "ransomware".to_string()));
        pattern.metadata.push(("origin".to_string(), "russian_cell".to_string()));
        let mut variety_collapse_points: Vec<VarietyCollapsePoint> = Vec::new();
        variety_collapse_points.push(
            VarietyCollapsePoint {
                description: "password_reuse_chicken1".to_string(),
                collapse_factor: 900,
            },
        );
        variety_collapse_points.push(
            VarietyCollapsePoint {
                description: "single_point_failure".to_string(),
                collapse_factor: 800,
            },
        );
        variety_collapse_points.push(
            VarietyCollapsePoint {
                description: "no_variety_regulation".to_string(),
                collapse_factor: 1000,
            },
        );
        BlackMatter {
            id: 0,
            pattern,
            variety_collapse_points,
            variety_ransom: 5_900_000_000u64,
            stolen_variety_tb: 1000,
        }
    }

    /// Exploit variety collapse to gain entry: with average collapse above
    /// 0.7 a catastrophic intensive transformation is possible, otherwise
    /// mere entropic disruption carrying the average as coherence loss.
    pub fn exploit_collapse(&self) -> (t: VarietyTransformation)
        ensures
            t@ == self.proposal(),
    {
        let n = self.variety_collapse_points.len();
        let mut acc: u128 = 0;
        let mut i: usize = 0;
        proof {
            lemma_collapse_sum_bounds(self.variety_collapse_points@);
            assert((n as int) * 0xFFFF_FFFF < 0xFFFF_FFFF_FFFF_FFFF_FFFF_FFFF_FFFF_FFFFu128)
                by (nonlinear_arith)
                requires n <= 0xFFFF_FFFF_FFFF_FFFFu64;
        }
        while i < n
            invariant
                i <= n,
                n == self.variety_collapse_points@.len(),
                acc == collapse_sum(self.variety_collapse_points@.subrange(0, i as int)),
                acc <= i * 0xFFFF_FFFF,
            decreases n - i,
        {
            proof {
                lemma_collapse_sum_append(self.variety_collapse_points@, i as int);
                assert((i + 1) * 0xFFFF_FFFF == i * 0xFFFF_FFFF + 0xFFFF_FFFF);
                assert((n as int) * 0xFFFF_FFFF < 0xFFFF_FFFF_FFFF_FFFF_FFFF_FFFF_FFFF_FFFFu128)
                    by (nonlinear_arith)
                    requires n <= 0xFFFF_FFFF_FFFF_FFFFu64;
            }
            acc = acc + self.variety_collapse_points[i].collapse_factor as u128;
            i = i + 1;
        }
        proof {
            assert(self.variety_collapse_points@.subrange(0, n as int)
                =~= self.variety_collapse_points@);
        }
        let total_collapse: u32 = if n == 0 {
            0
        } else {
            proof {
                assert(acc / (n as u128) <= 0xFFFF_FFFF) by (nonlinear_arith)
                    requires
                        n > 0,
                        acc <= (n as u128) * 0xFFFF_FFFF;
            }
            (acc / (n as u128)) as u32
        };
        if total_collapse > 700 {
            VarietyTransformation::Intensive {
                quality_shift: "operational_paralysis".to_string(),
                dimensional_creation: true,
            }
        } else {
            VarietyTransformation::Entropic {
                coherence_loss: total_collapse,
                reality_tear_risk: 400,
            }
        }
    }

    /// Threaten collapse across an entire sector.
    pub fn threaten_sector_collapse(&self) -> (t: VarietyTransformation)
        ensures
            t@ == (TransformModel::Intensive {
                quality_shift: "sector_wide_paralysis"@,
                dimensional_creation: true,
            }),
    {
        VarietyTransformation::Intensive {
            quality_shift: "sector_wide_paralysis".to_string(),
            dimensional_creation: true,
        }
    }

    /// The "password collapse" entry vector: when very many people share
    /// one password, variety approaches zero. Fixed-point value of 1/120.
    pub fn password_variety_collapse(&self) -> (r: u32)
        ensures
            r == 8,
    {
        8
    }

    /// The "supply chain leverage" attack: 40% of production held hostage.
    pub fn supply_chain_leverage(&self) -> (r: u32)
        ensures
            r == 400,
    {
        400
    }

    /// The "time pressure" manipulation: attacking during harvest gives a
    /// critical timing multiplier of 0.9.
    pub fn harvest_timing_attack(&self) -> (r: u32)
        ensures
            r == 900,
    {
        900
    }

}

impl VirtualAgent for BlackMatter {
    open spec fn proposal(&self) -> TransformModel {
        if collapse_average(self.variety_collapse_points@) > 700 {
            TransformModel::Intensive {
                quality_shift: "operational_paralysis"@,
                dimensional_creation: true,
            }
        } else {
            TransformModel::Entropic {
                coherence_loss: collapse_average(self.variety_collapse_points@) as u32,
                reality_tear_risk: 400,
            }
        }
    }

    open spec fn after_navigate(&self) -> Self {
        *self
    }

    open spec fn signature_spec(&self) -> VarietyPattern {
        self.pattern
    }

    open spec fn intensive_spec(&self) -> bool {
        true
    }

    open spec fn kind_name(&self) -> Seq<char> {
        "BlackMatter - Ransomware Consciousness"@
    }

    fn navigate(&mut self, _space: &VarietySpace) -> (t: VarietyTransformation) {
        self.exploit_collapse()
    }

    fn variety_signature(&self) -> (p: &VarietyPattern) {
        &self.pattern
    }

    fn intensive_capability(&self) -> (r: bool) {
        true
    }

    fn consciousness_type(&self) -> (s: &str) {
        "BlackMatter - Ransomware Consciousness"
    }

    fn coherence(&self) -> (c: u32) {
        self.pattern.coherence
    }
}

} // verus!
