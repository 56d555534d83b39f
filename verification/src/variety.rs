//! Variety patterns and transformations: the state space in which agents
//! live, and the taxonomy of actions they can propose.
//!
//! Scalars in the unit interval are fixed-point: the integer `n` stands for
//! `n / 1000` (see [`SCALE`]). Positional coordinates are plain integers
//! bounded by [`COORD_LIMIT`] so that squared distances cannot overflow.

use vstd::prelude::*;

verus! {

/// The fixed-point unit: this integer stands for the real value 1.0.
pub const SCALE: u32 = 1000;

/// Largest allowed magnitude of a single positional coordinate (2^30), so
/// that a squared coordinate difference fits in 62 bits and any sum of them
/// fits in a `u128`.
pub const COORD_LIMIT: i64 = 0x4000_0000;

/// The error taxonomy of the engine: configuration errors are rejected at
/// the call that introduces them, while `RealityTear` is the fatal runtime
/// instability that aborts a run.
#[derive(Debug, Clone, Copy, PartialEq, Eq, Structural)]
pub enum VarietyError {
    /// A pattern's positional blob does not match the space's dimensionality.
    DimensionMismatch,
    /// A unit-interval quantity lies outside [0, 1], or a coordinate exceeds
    /// the representable magnitude.
    InvalidThreshold,
    /// An applied entropic effect whose instability risk exceeds 0.8.
    RealityTear,
}

impl VarietyError {
    /// A short human-readable description of the error.
    pub fn message(&self) -> (s: &'static str)
        ensures
            self is DimensionMismatch ==> s@ == "pattern dimensionality does not match the space"@,
            self is InvalidThreshold ==> s@ == "value lies outside the unit interval"@,
            self is RealityTear ==> s@ == "reality tear risk too high"@,
    {
        match self {
            VarietyError::DimensionMismatch => "pattern dimensionality does not match the space",
            VarietyError::InvalidThreshold => "value lies outside the unit interval",
            VarietyError::RealityTear => "reality tear risk too high",
        }
    }
}

/// A pattern in variety-space: an agent's registered identity and state.
#[derive(Debug)]
pub struct VarietyPattern {
    /// Identifier; 0 until the pattern is registered with a simulator,
    /// which assigns a fresh unique id.
    pub id: u64,
    /// The pattern's positional blob, of the space's fixed dimensionality.
    pub tensor: Vec<i64>,
    /// Intensive variety potential, fixed-point in [0, SCALE].
    pub intensive_potential: u32,
    /// Current dimensional sheet location.
    pub dimensional_sheet: u32,
    /// Coherence level, fixed-point in [0, SCALE].
    pub coherence: u32,
    /// Additional pattern metadata.
    pub metadata: Vec<(String, String)>,
}

/// What a freshly created pattern of the given dimensionality looks like:
/// unassigned id, zero blob, no intensive potential, sheet 0, full
/// coherence, empty metadata.
pub open spec fn is_fresh_pattern(p: VarietyPattern, dimensions: usize) -> bool {
    &&& p.id == 0
    &&& p.tensor@ == Seq::<i64>::new(dimensions as nat, |i: int| 0i64)
    &&& p.intensive_potential == 0
    &&& p.dimensional_sheet == 0
    &&& p.coherence == SCALE
    &&& p.metadata@.len() == 0
}

impl VarietyPattern {
    /// The unit-interval and coordinate-magnitude invariants of a pattern.
    pub open spec fn wf(&self) -> bool {
        &&& self.coherence <= SCALE
        &&& self.intensive_potential <= SCALE
        &&& forall|i: int|
            0 <= i < self.tensor@.len() ==> -COORD_LIMIT <= #[trigger] self.tensor@[i]
                <= COORD_LIMIT
    }

    /// Create a new variety pattern: zero blob of the given dimensionality,
    /// full coherence, no intensive potential, sheet 0, empty metadata.
    pub fn new(dimensions: usize) -> (r: Self)
        ensures
            is_fresh_pattern(r, dimensions),
            r.wf(),
    {
        let mut tensor: Vec<i64> = Vec::new();
        let mut i: usize = 0;
        while i < dimensions
            invariant
                i <= dimensions,
                tensor@ == Seq::<i64>::new(i as nat, |j: int| 0i64),
            decreases dimensions - i,
        {
            tensor.push(0);
            proof {
                assert(tensor@ =~= Seq::<i64>::new((i + 1) as nat, |j: int| 0i64));
            }
            i = i + 1;
        }
        VarietyPattern {
            id: 0,
            tensor,
            intensive_potential: 0,
            dimensional_sheet: 0,
            coherence: SCALE,
            metadata: Vec::new(),
        }
    }

    /// Whether this pattern satisfies the unit-interval and
    /// coordinate-magnitude invariants.
    pub fn is_wf(&self) -> (r: bool)
        ensures
            r == self.wf(),
    {
        if self.coherence > SCALE || self.intensive_potential > SCALE {
            return false;
        }
        let mut i: usize = 0;
        while i < self.tensor.len()
            invariant
                i <= self.tensor@.len(),
                self.coherence <= SCALE,
                self.intensive_potential <= SCALE,
                forall|k: int|
                    0 <= k < i ==> -COORD_LIMIT <= #[trigger] self.tensor@[k] <= COORD_LIMIT,
            decreases self.tensor@.len() - i,
        {
            let v = self.tensor[i];
            if v < -COORD_LIMIT || v > COORD_LIMIT {
                return false;
            }
            i = i + 1;
        }
        true
    }

    /// Whether this pattern can perform an intensive transformation:
    /// intensive potential above 0.5 and coherence above 0.7.
    pub fn can_intensive_transform(&self) -> (r: bool)
        ensures
            r == (self.intensive_potential > 500 && self.coherence > 700),
    {
        self.intensive_potential > 500 && self.coherence > 700
    }

    /// An exact copy of this pattern (metadata strings are copied by value).
    pub fn duplicate(&self) -> (r: Self)
        ensures
            r.id == self.id,
            r.tensor@ == self.tensor@,
            r.intensive_potential == self.intensive_potential,
            r.dimensional_sheet == self.dimensional_sheet,
            r.coherence == self.coherence,
            r.metadata@.len() == self.metadata@.len(),
            forall|i: int|
                0 <= i < self.metadata@.len() ==> #[trigger] r.metadata@[i].0@
                    == self.metadata@[i].0@ && r.metadata@[i].1@ == self.metadata@[i].1@,
            self.wf() ==> r.wf(),
    {
        let mut tensor: Vec<i64> = Vec::new();
        let mut i: usize = 0;
        while i < self.tensor.len()
            invariant
                i <= self.tensor@.len(),
                tensor@ == self.tensor@.subrange(0, i as int),
            decreases self.tensor@.len() - i,
        {
            tensor.push(self.tensor[i]);
            proof {
                assert(tensor@ =~= self.tensor@.subrange(0, i + 1));
            }
            i = i + 1;
        }
        proof {
            assert(tensor@ =~= self.tensor@);
        }
        let mut metadata: Vec<(String, String)> = Vec::new();
        let mut j: usize = 0;
        while j < self.metadata.len()
            invariant
                j <= self.metadata@.len(),
                metadata@.len() == j,
                forall|k: int|
                    0 <= k < j ==> #[trigger] metadata@[k].0@ == self.metadata@[k].0@
                        && metadata@[k].1@ == self.metadata@[k].1@,
            decreases self.metadata@.len() - j,
        {
            let key = self.metadata[j].0.clone();
            let value = self.metadata[j].1.clone();
            metadata.push((key, value));
            j = j + 1;
        }
        let r = VarietyPattern {
            id: self.id,
            tensor,
            intensive_potential: self.intensive_potential,
            dimensional_sheet: self.dimensional_sheet,
            coherence: self.coherence,
            metadata,
        };
        proof {
            if self.wf() {
                assert forall|i: int| 0 <= i < r.tensor@.len() implies -COORD_LIMIT
                    <= #[trigger] r.tensor@[i] <= COORD_LIMIT by {
                    assert(r.tensor@[i] == self.tensor@[i]);
                }
            }
        }
        r
    }
}

/// Mathematical model of a variety transformation; string payloads are
/// sequences of characters.
pub enum TransformModel {
    Extensive { multiplier: i64, preserves_quality: bool },
    Intensive { quality_shift: Seq<char>, dimensional_creation: bool },
    Navigation { path: Seq<u64>, maintains_identity: bool },
    Entropic { coherence_loss: u32, reality_tear_risk: u32 },
}

/// Variety transformation types: the four kinds of action an agent can
/// propose in one turn.
#[derive(Debug)]
pub enum VarietyTransformation {
    /// Extensive (predictable, scale-preserving) change; the multiplier is
    /// fixed-point.
    Extensive { multiplier: i64, preserves_quality: bool },
    /// Intensive (qualitative, potentially space-expanding) change.
    Intensive { quality_shift: String, dimensional_creation: bool },
    /// Coherence-maintaining movement along a path of pattern ids.
    Navigation { path: Vec<u64>, maintains_identity: bool },
    /// Destructive or chaotic change; both scalars are fixed-point, the
    /// risk lies in [0, SCALE].
    Entropic { coherence_loss: u32, reality_tear_risk: u32 },
}

impl View for VarietyTransformation {
    type V = TransformModel;

    open spec fn view(&self) -> TransformModel {
        match self {
            VarietyTransformation::Extensive { multiplier, preserves_quality } =>
                TransformModel::Extensive {
                    multiplier: *multiplier,
                    preserves_quality: *preserves_quality,
                },
            VarietyTransformation::Intensive { quality_shift, dimensional_creation } =>
                TransformModel::Intensive {
                    quality_shift: quality_shift@,
                    dimensional_creation: *dimensional_creation,
                },
            VarietyTransformation::Navigation { path, maintains_identity } =>
                TransformModel::Navigation {
                    path: path@,
                    maintains_identity: *maintains_identity,
                },
            VarietyTransformation::Entropic { coherence_loss, reality_tear_risk } =>
                TransformModel::Entropic {
                    coherence_loss: *coherence_loss,
                    reality_tear_risk: *reality_tear_risk,
                },
        }
    }
}

impl VarietyTransformation {
    /// An exact copy of this transformation.
    pub fn duplicate(&self) -> (r: Self)
        ensures
            r@ == self@,
    {
        match self {
            VarietyTransformation::Extensive { multiplier, preserves_quality } =>
                VarietyTransformation::Extensive {
                    multiplier: *multiplier,
                    preserves_quality: *preserves_quality,
                },
            VarietyTransformation::Intensive { quality_shift, dimensional_creation } =>
                VarietyTransformation::Intensive {
                    quality_shift: quality_shift.clone(),
                    dimensional_creation: *dimensional_creation,
                },
            VarietyTransformation::Navigation { path, maintains_identity } => {
                let mut p: Vec<u64> = Vec::new();
                let mut i: usize = 0;
                while i < path.len()
                    invariant
                        i <= path@.len(),
                        p@ == path@.subrange(0, i as int),
                    decreases path@.len() - i,
                {
                    p.push(path[i]);
                    proof {
                        assert(p@ =~= path@.subrange(0, i + 1));
                    }
                    i = i + 1;
                }
                proof {
                    assert(p@ =~= path@);
                }
                VarietyTransformation::Navigation {
                    path: p,
                    maintains_identity: *maintains_identity,
                }
            },
            VarietyTransformation::Entropic { coherence_loss, reality_tear_risk } =>
                VarietyTransformation::Entropic {
                    coherence_loss: *coherence_loss,
                    reality_tear_risk: *reality_tear_risk,
                },
        }
    }
}

/// Intensive variety transformations: a source and target pattern together
/// with a (flattened) transformation operator.
#[derive(Debug)]
pub struct IntensiveVariety {
    /// Source pattern before transformation.
    pub source: VarietyPattern,
    /// Target pattern after transformation.
    pub target: VarietyPattern,
    /// Flattened transformation operator.
    pub transform_operator: Vec<i64>,
    /// Whether this creates new dimensions.
    pub creates_dimensions: bool,
}

/// Results of navigation attempts in variety-space. Distances, energies and
/// risks are fixed-point.
#[derive(Debug)]
pub enum NavigationResult {
    DirectPath { distance: u64 },
    SheetJump { energy_required: u64, coherence_risk: u64 },
    Blocked { reason: String },
}

/// Branch points where patterns can jump between sheets; read-only data.
#[derive(Debug)]
pub struct BranchPoint {
    pub location: Vec<i64>,
    pub connected_sheets: Vec<u32>,
    pub stability: u32,
}

/// Sum of squared coordinate differences of two equal-length blobs.
pub open spec fn sum_sq(a: Seq<i64>, b: Seq<i64>) -> int
    decreases a.len(),
{
    if a.len() == 0 {
        0
    } else {
        let d = a[0] - b[0];
        d * d + sum_sq(a.drop_first(), b.drop_first())
    }
}

/// `r` is the integer square root of `x`.
pub open spec fn is_isqrt(r: int, x: int) -> bool {
    r * r <= x < (r + 1) * (r + 1)
}

/// Each squared term is nonnegative, so the sum is nonnegative and bounded
/// by the number of terms times the largest square of an in-range difference.
pub proof fn lemma_sum_sq_bounds(a: Seq<i64>, b: Seq<i64>)
    requires
        a.len() == b.len(),
        forall|i: int| 0 <= i < a.len() ==> -COORD_LIMIT <= #[trigger] a[i] <= COORD_LIMIT,
        forall|i: int| 0 <= i < b.len() ==> -COORD_LIMIT <= #[trigger] b[i] <= COORD_LIMIT,
    ensures
        0 <= sum_sq(a, b) <= a.len() * 0x4000_0000_0000_0000,
    decreases a.len(),
{
    if a.len() == 0 {
    } else {
        let d = a[0] - b[0];
        assert(-0x8000_0000 <= d <= 0x8000_0000);
        assert(0 <= d * d <= 0x4000_0000_0000_0000) by (nonlinear_arith)
            requires -0x8000_0000 <= d <= 0x8000_0000;
        lemma_sum_sq_bounds(a.drop_first(), b.drop_first());
    }
}

/// The sum of squared differences is symmetric in its arguments.
pub proof fn lemma_sum_sq_symmetric(a: Seq<i64>, b: Seq<i64>)
    requires
        a.len() == b.len(),
    ensures
        sum_sq(a, b) == sum_sq(b, a),
    decreases a.len(),
{
    if a.len() == 0 {
    } else {
        let d = a[0] - b[0];
        let e = b[0] - a[0];
        assert(d * d == e * e) by (nonlinear_arith)
            requires d == -e;
        lemma_sum_sq_symmetric(a.drop_first(), b.drop_first());
    }
}

/// The sum of squared differences is zero exactly when the blobs are equal.
pub proof fn lemma_sum_sq_zero_iff_eq(a: Seq<i64>, b: Seq<i64>)
    requires
        a.len() == b.len(),
    ensures
        sum_sq(a, b) == 0 <==> a =~= b,
    decreases a.len(),
{
    if a.len() == 0 {
        assert(a =~= b);
    } else {
        let d = a[0] - b[0];
        assert(d * d >= 0) by (nonlinear_arith);
        assert(d * d == 0 <==> d == 0) by (nonlinear_arith);
        lemma_sum_sq_zero_iff_eq(a.drop_first(), b.drop_first());
        lemma_sum_sq_bounds_nonneg(a.drop_first(), b.drop_first());
        if sum_sq(a, b) == 0 {
            assert(a[0] == b[0]);
            assert(a.drop_first() =~= b.drop_first());
            assert forall|i: int| 0 <= i < a.len() implies a[i] == b[i] by {
                if i > 0 {
                    assert(a.drop_first()[i - 1] == b.drop_first()[i - 1]);
                }
            }
            assert(a =~= b);
        } else {
            if a =~= b {
                assert(a[0] == b[0]);
                assert(a.drop_first() =~= b.drop_first());
            }
        }
    }
}

/// Every sum of squares is nonnegative.
pub proof fn lemma_sum_sq_bounds_nonneg(a: Seq<i64>, b: Seq<i64>)
    requires
        a.len() == b.len(),
    ensures
        sum_sq(a, b) >= 0,
    decreases a.len(),
{
    if a.len() == 0 {
    } else {
        let d = a[0] - b[0];
        assert(d * d >= 0) by (nonlinear_arith);
        lemma_sum_sq_bounds_nonneg(a.drop_first(), b.drop_first());
    }
}

/// A nonnegative number has at most one integer square root.
pub proof fn lemma_isqrt_unique(r1: int, r2: int, x: int)
    requires
        r1 >= 0,
        r2 >= 0,
        is_isqrt(r1, x),
        is_isqrt(r2, x),
    ensures
        r1 == r2,
{
    if r1 < r2 {
        assert((r1 + 1) * (r1 + 1) <= r2 * r2) by (nonlinear_arith)
            requires 0 <= r1 < r2;
    }
    if r2 < r1 {
        assert((r2 + 1) * (r2 + 1) <= r1 * r1) by (nonlinear_arith)
            requires 0 <= r2 < r1;
    }
}

/// The integer square root of a nonnegative number is zero exactly when
/// the number is.
pub proof fn lemma_isqrt_zero_iff(r: int, x: int)
    requires
        r >= 0,
        is_isqrt(r, x),
    ensures
        r == 0 <==> x == 0,
{
    if r == 0 {
        assert(r * r == 0 && (r + 1) * (r + 1) == 1) by (nonlinear_arith)
            requires r == 0;
        assert(0 <= x < 1);
    } else {
        assert(r * r >= 1) by (nonlinear_arith)
            requires r >= 1;
        assert(x >= 1);
    }
}

/// The distance between two blobs is symmetric: whatever `navigate`
/// reports for the path from `a` to `b`, it reports for the path back.
pub proof fn lemma_distance_symmetric(r1: u64, r2: u64, a: Seq<i64>, b: Seq<i64>)
    requires
        a.len() == b.len(),
        is_isqrt(r1 as int, sum_sq(a, b)),
        is_isqrt(r2 as int, sum_sq(b, a)),
    ensures
        r1 == r2,
{
    lemma_sum_sq_symmetric(a, b);
    lemma_isqrt_unique(r1 as int, r2 as int, sum_sq(a, b));
}

/// The distance between two blobs is zero exactly when they are equal.
pub proof fn lemma_distance_zero_iff_equal(r: u64, a: Seq<i64>, b: Seq<i64>)
    requires
        a.len() == b.len(),
        is_isqrt(r as int, sum_sq(a, b)),
    ensures
        r == 0 <==> a =~= b,
{
    lemma_sum_sq_zero_iff_eq(a, b);
    lemma_isqrt_zero_iff(r as int, sum_sq(a, b));
}

/// Integer square root by bisection; the argument must lie below 2^126 so
/// that the upper bisection bound 2^63 can be squared without overflow.
fn isqrt_u128(x: u128) -> (r: u64)
    requires
        x < 0x4000_0000_0000_0000_0000_0000_0000_0000u128,
    ensures
        is_isqrt(r as int, x as int),
{
    let mut lo: u128 = 0;
    let mut hi: u128 = 0x8000_0000_0000_0000u128;
    proof {
        assert(x < 0x8000_0000_0000_0000u128 * 0x8000_0000_0000_0000u128) by (nonlinear_arith)
            requires x < 0x4000_0000_0000_0000_0000_0000_0000_0000u128;
    }
    while lo + 1 < hi
        invariant
            lo < hi <= 0x8000_0000_0000_0000u128,
            lo * lo <= x,
            x < hi * hi,
        decreases hi - lo,
    {
        let mid = lo + (hi - lo) / 2;
        proof {
            assert(lo < mid < hi);
            assert(mid * mid <= 0x8000_0000_0000_0000u128 * 0x8000_0000_0000_0000u128)
                by (nonlinear_arith)
                requires 0 < mid <= 0x8000_0000_0000_0000u128;
        }
        if mid * mid <= x {
            lo = mid;
        } else {
            hi = mid;
        }
    }
    proof {
        assert(hi == lo + 1);
        assert(lo < 0x8000_0000_0000_0000u128);
    }
    lo as u64
}

/// The variety-space where all patterns exist and transform: a registry of
/// patterns keyed by unique id in insertion order, together with the space's
/// dimensionality, its branch points and its unallocated capacity.
#[derive(Debug)]
pub struct VarietySpace {
    dimensions: usize,
    patterns: Vec<VarietyPattern>,
    branch_points: Vec<BranchPoint>,
    void_potential: u32,
}

impl VarietySpace {
    /// The space's dimensionality.
    pub closed spec fn spec_dimensions(&self) -> usize {
        self.dimensions
    }

    /// The registered patterns, in insertion order.
    pub closed spec fn patterns_seq(&self) -> Seq<VarietyPattern> {
        self.patterns@
    }

    /// The unallocated ("pregnant void") capacity, fixed-point.
    pub closed spec fn spec_void_potential(&self) -> u32 {
        self.void_potential
    }

    /// Registered patterns have unique ids, the space's dimensionality, and
    /// satisfy the pattern invariant.
    pub open spec fn wf(&self) -> bool {
        &&& forall|i: int, j: int|
            0 <= i < j < self.patterns_seq().len() ==> #[trigger] self.patterns_seq()[i].id
                != #[trigger] self.patterns_seq()[j].id
        &&& forall|i: int|
            0 <= i < self.patterns_seq().len() ==> (#[trigger] self.patterns_seq()[i]).wf()
                && self.patterns_seq()[i].tensor@.len() == self.spec_dimensions()
    }

    /// Create a new variety space of the given dimensionality, with no
    /// patterns, no branch points and full void potential.
    pub fn new(dimensions: usize) -> (r: Self)
        ensures
            r.spec_dimensions() == dimensions,
            r.patterns_seq().len() == 0,
            r.spec_void_potential() == SCALE,
            r.wf(),
    {
        VarietySpace {
            dimensions,
            patterns: Vec::new(),
            branch_points: Vec::new(),
            void_potential: SCALE,
        }
    }

    /// The dimensionality of the space.
    pub fn dimensions(&self) -> (d: usize)
        ensures
            d == self.spec_dimensions(),
    {
        self.dimensions
    }

    /// Index of the registered pattern with the given id, if any.
    pub open spec fn index_of_id(s: Seq<VarietyPattern>, id: u64) -> Option<int> {
        if exists|i: int| 0 <= i < s.len() && s[i].id == id {
            Some(choose|i: int| 0 <= i < s.len() && s[i].id == id)
        } else {
            None
        }
    }

    /// Register a pattern: insert it keyed by its id, overwriting a pattern
    /// already registered under that id. A pattern whose blob does not match
    /// the space's dimensionality, or which violates the unit-interval or
    /// coordinate bounds, is rejected.
    pub fn add_pattern(&mut self, pattern: VarietyPattern) -> (r: Result<(), VarietyError>)
        requires
            old(self).wf(),
        ensures
            final(self).wf(),
            final(self).spec_dimensions() == old(self).spec_dimensions(),
            final(self).spec_void_potential() == old(self).spec_void_potential(),
            pattern.tensor@.len() != old(self).spec_dimensions() ==> r
                == Result::<(), VarietyError>::Err(VarietyError::DimensionMismatch),
            pattern.tensor@.len() == old(self).spec_dimensions() && !pattern.wf() ==> r
                == Result::<(), VarietyError>::Err(VarietyError::InvalidThreshold),
            r is Err ==> final(self).patterns_seq() == old(self).patterns_seq(),
            r is Ok <==> pattern.tensor@.len() == old(self).spec_dimensions() && pattern.wf(),
            r is Ok ==> match Self::index_of_id(old(self).patterns_seq(), pattern.id) {
                Some(i) => final(self).patterns_seq() == old(self).patterns_seq().update(
                    i,
                    pattern,
                ),
                None => final(self).patterns_seq() == old(self).patterns_seq().push(pattern),
            },
    {
        if pattern.tensor.len() != self.dimensions {
            return Err(VarietyError::DimensionMismatch);
        }
        if !pattern.is_wf() {
            return Err(VarietyError::InvalidThreshold);
        }
        let mut i: usize = 0;
        while i < self.patterns.len()
            invariant
                i <= self.patterns@.len(),
                *self == *old(self),
                pattern.wf(),
                pattern.tensor@.len() == self.spec_dimensions(),
                old(self).wf(),
                forall|k: int| 0 <= k < i ==> #[trigger] self.patterns@[k].id != pattern.id,
            decreases self.patterns@.len() - i,
        {
            if self.patterns[i].id == pattern.id {
                proof {
                    let s = self.patterns@;
                    assert(s[i as int].id == pattern.id);
                    let w = choose|k: int| 0 <= k < s.len() && s[k].id == pattern.id;
                    if w < i as int {
                        assert(s[w].id != s[i as int].id);
                    }
                    if w > i as int {
                        assert(s[i as int].id != s[w].id);
                    }
                    assert(w == i as int);
                }
                let ghost s = self.patterns@;
                self.patterns.set(i, pattern);
                proof {
                    let s2 = self.patterns@;
                    assert(s2 == s.update(i as int, pattern));
                    assert forall|x: int, y: int| 0 <= x < y < s2.len() implies #[trigger] s2[x].id
                        != #[trigger] s2[y].id by {
                        assert(s2[x].id == s[x].id);
                        assert(s2[y].id == s[y].id);
                        assert(s[x].id != s[y].id);
                    }
                    assert forall|k: int| 0 <= k < s2.len() implies (#[trigger] s2[k]).wf()
                        && s2[k].tensor@.len() == self.spec_dimensions() by {
                        if k != i as int {
                            assert(s2[k] == s[k]);
                        }
                    }
                }
                return Ok(());
            }
            i = i + 1;
        }
        proof {
            let s = self.patterns@;
            assert(forall|k: int| 0 <= k < s.len() ==> #[trigger] s[k].id != pattern.id);
            assert(Self::index_of_id(s, pattern.id) is None);
        }
        let ghost s = self.patterns@;
        self.patterns.push(pattern);
        proof {
            let s2 = self.patterns@;
            assert forall|x: int, y: int| 0 <= x < y < s2.len() implies #[trigger] s2[x].id
                != #[trigger] s2[y].id by {
                if y < s.len() {
                    assert(s2[x].id == s[x].id);
                    assert(s2[y].id == s[y].id);
                } else {
                    assert(s2[x].id == s[x].id);
                    assert(s2[y] == pattern);
                }
            }
            assert forall|k: int| 0 <= k < s2.len() implies (#[trigger] s2[k]).wf()
                && s2[k].tensor@.len() == self.spec_dimensions() by {
                if k < s.len() {
                    assert(s2[k] == s[k]);
                }
            }
        }
        Ok(())
    }

    /// Navigate between two patterns: a sheet jump when their sheets differ
    /// (energy is one unit per sheet crossed, risk a tenth of that),
    /// otherwise the direct path carrying the Euclidean distance between
    /// their blobs.
    pub fn navigate(&self, from: &VarietyPattern, to: &VarietyPattern) -> (r: NavigationResult)
        requires
            from.wf(),
            to.wf(),
            from.tensor@.len() == to.tensor@.len(),
        ensures
            from.dimensional_sheet != to.dimensional_sheet ==> (r matches
                NavigationResult::SheetJump { energy_required, coherence_risk }
                && energy_required == SCALE * sheet_gap(
                from.dimensional_sheet,
                to.dimensional_sheet,
            ) && coherence_risk == (SCALE / 10) * sheet_gap(
                from.dimensional_sheet,
                to.dimensional_sheet,
            )),
            from.dimensional_sheet == to.dimensional_sheet ==> (r matches
                NavigationResult::DirectPath { distance } && is_isqrt(
                distance as int,
                sum_sq(from.tensor@, to.tensor@),
            )),
    {
        if from.dimensional_sheet != to.dimensional_sheet {
            let gap: u64 = if from.dimensional_sheet >= to.dimensional_sheet {
                (from.dimensional_sheet - to.dimensional_sheet) as u64
            } else {
                (to.dimensional_sheet - from.dimensional_sheet) as u64
            };
            proof {
                assert(gap <= 0xFFFF_FFFFu64);
                assert(1000 * gap <= 1000 * 0xFFFF_FFFFu64) by (nonlinear_arith)
                    requires gap <= 0xFFFF_FFFFu64;
                assert(100 * gap <= 100 * 0xFFFF_FFFFu64) by (nonlinear_arith)
                    requires gap <= 0xFFFF_FFFFu64;
                assert(SCALE == 1000);
            }
            NavigationResult::SheetJump {
                energy_required: 1000u64 * gap,
                coherence_risk: 100u64 * gap,
            }
        } else {
            NavigationResult::DirectPath {
                distance: self.calculate_variety_distance(from, to),
            }
        }
    }

    /// Euclidean distance between the two patterns' blobs: the integer
    /// square root of the sum of squared coordinate differences.
    fn calculate_variety_distance(&self, from: &VarietyPattern, to: &VarietyPattern) -> (r: u64)
        requires
            from.wf(),
            to.wf(),
            from.tensor@.len() == to.tensor@.len(),
        ensures
            is_isqrt(r as int, sum_sq(from.tensor@, to.tensor@)),
    {
        let a = &from.tensor;
        let b = &to.tensor;
        let n = a.len();
        let mut acc: u128 = 0;
        let mut i: usize = 0;
        proof {
            lemma_sum_sq_bounds(a@, b@);
            assert((n as int) * 0x4000_0000_0000_0000
                < 0x4000_0000_0000_0000_0000_0000_0000_0000) by (nonlinear_arith)
                requires n <= 0xFFFF_FFFF_FFFF_FFFFu64;
        }
        while i < n
            invariant
                i <= n,
                n == a@.len() == b@.len(),
                from.wf(),
                to.wf(),
                a@ == from.tensor@,
                b@ == to.tensor@,
                acc == sum_sq(a@.subrange(0, i as int), b@.subrange(0, i as int)),
                acc <= i * 0x4000_0000_0000_0000,
            decreases n - i,
        {
            let d: i128 = (a[i] as i128) - (b[i] as i128);
            proof {
                assert(-0x8000_0000 <= d <= 0x8000_0000);
                assert(0 <= d * d <= 0x4000_0000_0000_0000) by (nonlinear_arith)
                    requires -0x8000_0000 <= d <= 0x8000_0000;
                assert((i + 1) * 0x4000_0000_0000_0000
                    == i * 0x4000_0000_0000_0000 + 0x4000_0000_0000_0000);
                lemma_sum_sq_append(a@, b@, i as int);
            }
            let sq: u128 = (d * d) as u128;
            acc = acc + sq;
            i = i + 1;
        }
        proof {
            assert(a@.subrange(0, n as int) =~= a@);
            assert(b@.subrange(0, n as int) =~= b@);
        }
        isqrt_u128(acc)
    }
}

/// Extending both prefixes by one position adds that position's squared
/// difference to the sum.
proof fn lemma_sum_sq_append(a: Seq<i64>, b: Seq<i64>, i: int)
    requires
        a.len() == b.len(),
        0 <= i < a.len(),
    ensures
        sum_sq(a.subrange(0, i + 1), b.subrange(0, i + 1)) == sum_sq(
            a.subrange(0, i),
            b.subrange(0, i),
        ) + (a[i] - b[i]) * (a[i] - b[i]),
    decreases i,
{
    if i == 0 {
        assert(a.subrange(0, 1).drop_first() =~= a.subrange(0, 0));
        assert(b.subrange(0, 1).drop_first() =~= b.subrange(0, 0));
        assert(sum_sq(a.subrange(0, 0), b.subrange(0, 0)) == 0);
    } else {
        lemma_sum_sq_append(a.drop_first(), b.drop_first(), i - 1);
        assert(a.subrange(0, i + 1).drop_first() =~= a.drop_first().subrange(0, i));
        assert(b.subrange(0, i + 1).drop_first() =~= b.drop_first().subrange(0, i));
        assert(a.subrange(0, i).drop_first() =~= a.drop_first().subrange(0, i - 1));
        assert(b.subrange(0, i).drop_first() =~= b.drop_first().subrange(0, i - 1));
    }
}

/// Absolute gap between two sheet numbers.
pub open spec fn sheet_gap(a: u32, b: u32) -> int {
    if a >= b {
        a - b
    } else {
        b - a
    }
}

} // verus!
