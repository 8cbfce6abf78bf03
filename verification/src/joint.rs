//! Total order of a finite joint space.
//!
//! A joint space is the Cartesian product of canonical finite target domains.
//! Its order is never implied by opaque IDs, colour bytes or declaration
//! order: it is either materialised from a bound selection release (a
//! lexicographic mixed-radix order whose first objective is most significant)
//! or admitted verbatim from an authored complete list of tuples.
//!
//! All arithmetic on joint states is mixed-radix: [`suffix_product`] gives
//! the place value of a position, [`digit`] extracts a position from a state
//! index and [`mixed_value`] folds digits back into a state index.
use vstd::arithmetic::div_mod::{
    lemma_div_denominator, lemma_fundamental_div_mod_converse, lemma_mod_breakdown,
    lemma_small_mod,
};
use vstd::arithmetic::mul::{
    lemma_mul_inequality, lemma_mul_is_commutative, lemma_mul_strict_inequality,
};
use vstd::prelude::*;
use vstd::relations::injective_on;
use vstd::set_lib::{lemma_int_range, lemma_map_size, lemma_subset_equality, set_int_range};

verus! {

// ---------------------------------------------------------------------------
// Mixed-radix arithmetic
// ---------------------------------------------------------------------------

/// Place value of position `k`: the product of the radices `r[k..]`.
pub open spec fn suffix_product(r: Seq<usize>, k: int) -> nat
    decreases r.len() - k,
{
    if k >= r.len() {
        1
    } else {
        (r[k] as nat) * suffix_product(r, k + 1)
    }
}

/// Every radix is positive.
pub open spec fn radices_positive(r: Seq<usize>) -> bool {
    forall|k: int| 0 <= k < r.len() ==> r[k] > 0
}

/// Digit `k` of the state index `s` in the mixed-radix system `r`; position
/// `0` is the most significant.
pub open spec fn digit(r: Seq<usize>, s: nat, k: int) -> nat {
    (s / suffix_product(r, k + 1)) % (r[k] as nat)
}

/// Digits of `s` at every position of `r`.
pub open spec fn digits(r: Seq<usize>, s: nat) -> Seq<usize> {
    Seq::new(r.len(), |k: int| digit(r, s, k) as usize)
}

/// Value of the digit string `t` read from position `k` on.
pub open spec fn mixed_value(r: Seq<usize>, t: Seq<usize>, k: int) -> nat
    decreases r.len() - k,
{
    if k >= r.len() {
        0
    } else {
        (t[k] as nat) * suffix_product(r, k + 1) + mixed_value(r, t, k + 1)
    }
}

/// Every digit of `t` lies below its radix.
pub open spec fn digits_in_range(r: Seq<usize>, t: Seq<usize>) -> bool {
    &&& t.len() == r.len()
    &&& forall|k: int| 0 <= k < r.len() ==> t[k] < r[k]
}

/// Place values are positive and shrink towards the least significant end.
pub proof fn lemma_suffix_product_positive_monotone(r: Seq<usize>, k: int)
    requires
        radices_positive(r),
        0 <= k,
    ensures
        suffix_product(r, k) >= 1,
        k < r.len() ==> suffix_product(r, k) >= suffix_product(r, k + 1),
        suffix_product(r, 0) >= suffix_product(r, k),
    decreases r.len() - k,
{
    if k < r.len() {
        lemma_suffix_product_positive_monotone(r, k + 1);
        lemma_mul_inequality(1, r[k] as int, suffix_product(r, k + 1) as int);
    }
    if k > 0 {
        lemma_suffix_product_chain(r, 0, k);
    }
}

proof fn lemma_suffix_product_chain(r: Seq<usize>, i: int, k: int)
    requires
        radices_positive(r),
        0 <= i <= k,
    ensures
        suffix_product(r, i) >= suffix_product(r, k),
    decreases k - i,
{
    if i < k {
        lemma_suffix_product_chain(r, i + 1, k);
        if i < r.len() {
            lemma_suffix_product_positive_monotone_local(r, i);
        }
    }
}

proof fn lemma_suffix_product_positive_monotone_local(r: Seq<usize>, k: int)
    requires
        radices_positive(r),
        0 <= k < r.len(),
    ensures
        suffix_product(r, k) >= suffix_product(r, k + 1),
        suffix_product(r, k + 1) >= 1,
    decreases r.len() - k,
{
    lemma_suffix_product_at_least_one(r, k + 1);
    lemma_mul_inequality(1, r[k] as int, suffix_product(r, k + 1) as int);
}

proof fn lemma_suffix_product_at_least_one(r: Seq<usize>, k: int)
    requires
        radices_positive(r),
        0 <= k,
    ensures
        suffix_product(r, k) >= 1,
    decreases r.len() - k,
{
    if k < r.len() {
        lemma_suffix_product_at_least_one(r, k + 1);
        lemma_mul_inequality(1, r[k] as int, suffix_product(r, k + 1) as int);
    }
}

/// A digit string whose digits lie below their radices has a value below
/// the place value of its leading position.
pub proof fn lemma_mixed_value_bound(r: Seq<usize>, t: Seq<usize>, k: int)
    requires
        radices_positive(r),
        digits_in_range(r, t),
        0 <= k,
    ensures
        mixed_value(r, t, k) < suffix_product(r, k),
    decreases r.len() - k,
{
    if k < r.len() {
        lemma_mixed_value_bound(r, t, k + 1);
        let s1 = suffix_product(r, k + 1) as int;
        lemma_mul_inequality(t[k] as int + 1, r[k] as int, s1);
        assert((t[k] as int + 1) * s1 == (t[k] as int) * s1 + s1) by (nonlinear_arith);
    }
}

/// Distinct in-range digit strings have distinct values.
pub proof fn lemma_mixed_value_injective(r: Seq<usize>, t1: Seq<usize>, t2: Seq<usize>, k: int)
    requires
        radices_positive(r),
        digits_in_range(r, t1),
        digits_in_range(r, t2),
        0 <= k,
        mixed_value(r, t1, k) == mixed_value(r, t2, k),
    ensures
        forall|j: int| k <= j < r.len() ==> t1[j] == t2[j],
    decreases r.len() - k,
{
    if k < r.len() {
        let s1 = suffix_product(r, k + 1) as int;
        lemma_mixed_value_bound(r, t1, k + 1);
        lemma_mixed_value_bound(r, t2, k + 1);
        lemma_fundamental_div_mod_converse(
            mixed_value(r, t1, k) as int,
            s1,
            t1[k] as int,
            mixed_value(r, t1, k + 1) as int,
        );
        lemma_fundamental_div_mod_converse(
            mixed_value(r, t2, k) as int,
            s1,
            t2[k] as int,
            mixed_value(r, t2, k + 1) as int,
        );
        lemma_mixed_value_injective(r, t1, t2, k + 1);
    }
}

/// The digits of a state index reassemble into the index modulo the place
/// value of the leading position.
pub proof fn lemma_digits_reassemble(r: Seq<usize>, s: nat, k: int)
    requires
        radices_positive(r),
        0 <= k <= r.len(),
    ensures
        mixed_value(r, digits(r, s), k) == s % suffix_product(r, k),
    decreases r.len() - k,
{
    if k == r.len() {
        assert(s % 1 == 0);
    } else {
        lemma_digits_reassemble(r, s, k + 1);
        let s1 = suffix_product(r, k + 1) as int;
        lemma_suffix_product_at_least_one(r, k + 1);
        lemma_mod_breakdown(s as int, s1, r[k] as int);
        lemma_mul_is_commutative(s1, r[k] as int);
        let d = digit(r, s, k) as int;
        assert(d == (s as int / s1) % (r[k] as int));
        lemma_mul_is_commutative(s1, d);
        assert(digits(r, s)[k] as nat == digit(r, s, k));
        assert(mixed_value(r, digits(r, s), k) == d * s1 + mixed_value(r, digits(r, s), k + 1));
        assert(suffix_product(r, k) == (r[k] as int) * s1);
    }
}

proof fn lemma_digit_below_radix(r: Seq<usize>, s: nat, k: int)
    requires
        radices_positive(r),
        0 <= k < r.len(),
    ensures
        digit(r, s, k) < r[k],
{
}

/// Every state index below the size of the space is exactly the value of
/// its digits.
pub proof fn lemma_mixed_radix_reconstruction(r: Seq<usize>, s: nat)
    requires
        radices_positive(r),
        s < suffix_product(r, 0),
    ensures
        mixed_value(r, digits(r, s), 0) == s,
        digits_in_range(r, digits(r, s)),
{
    lemma_digits_reassemble(r, s, 0);
    lemma_small_mod(s, suffix_product(r, 0));
    assert forall|k: int| 0 <= k < r.len() implies digits(r, s)[k] < r[k] by {
        lemma_digit_below_radix(r, s, k);
    }
}

/// Two distinct states of one space differ in at least one digit.
pub proof fn lemma_distinct_states_have_distinct_digits(r: Seq<usize>, s1: nat, s2: nat)
    requires
        radices_positive(r),
        s1 < suffix_product(r, 0),
        s2 < suffix_product(r, 0),
        s1 != s2,
    ensures
        exists|k: int| #![trigger digit(r, s1, k)] 0 <= k < r.len() && digit(r, s1, k) != digit(r, s2, k),
{
    lemma_mixed_radix_reconstruction(r, s1);
    lemma_mixed_radix_reconstruction(r, s2);
    if forall|k: int| 0 <= k < r.len() ==> digit(r, s1, k) == digit(r, s2, k) {
        assert(digits(r, s1) =~= digits(r, s2));
    }
}

// ---------------------------------------------------------------------------
// Canonical domains and bound selection releases
// ---------------------------------------------------------------------------

/// Canonical ordinal of a candidate inside one finite target domain. It is a
/// compiled index, never a selection policy.
#[derive(Debug, Clone, Copy, PartialEq, Eq, PartialOrd, Ord, Hash, Structural)]
pub struct FiniteDomainOrdinalV1 {
    ordinal: usize,
}

impl FiniteDomainOrdinalV1 {
    /// The ordinal as an index.
    pub closed spec fn spec_index(self) -> usize {
        self.ordinal
    }

    /// Wraps a canonical ordinal.
    pub fn new(index: usize) -> (ordinal: Self)
        ensures
            ordinal.spec_index() == index,
    {
        Self { ordinal: index }
    }

    /// The ordinal as an index.
    pub fn index(self) -> (index: usize)
        ensures
            index == self.spec_index(),
    {
        self.ordinal
    }
}

/// Indices of a sequence of ordinals.
pub open spec fn ordinal_indices(t: Seq<FiniteDomainOrdinalV1>) -> Seq<usize> {
    t.map_values(|o: FiniteDomainOrdinalV1| o.spec_index())
}

/// Non-empty vector of the cardinalities of the canonical target domains.
#[derive(Debug, PartialEq, Eq)]
pub struct NonEmptyFiniteDomainCardinalitiesV1 {
    lengths: Vec<usize>,
}

impl NonEmptyFiniteDomainCardinalitiesV1 {
    /// Cardinalities in canonical target order.
    pub closed spec fn lengths(self) -> Seq<usize> {
        self.lengths@
    }

    #[verifier::type_invariant]
    spec fn positive(self) -> bool {
        &&& radices_positive(self.lengths@)
        &&& self.lengths@.len() >= 1
    }

    /// Builds the cardinality vector from the first domain and the rest;
    /// every domain is non-empty.
    pub fn new(first: usize, rest: Vec<usize>) -> (lengths: Self)
        requires
            first > 0,
            forall|i: int| 0 <= i < rest@.len() ==> rest@[i] > 0,
        ensures
            lengths.lengths() == seq![first] + rest@,
    {
        let mut lengths = rest;
        lengths.insert(0, first);
        assert(lengths@ =~= seq![first] + rest@);
        Self { lengths }
    }

    /// Every cardinality is positive and there is at least one domain.
    pub fn assert_positive(&self)
        ensures
            radices_positive(self.lengths()),
            self.lengths().len() >= 1,
    {
        proof {
            use_type_invariant(self);
        }
    }

    /// Number of target domains.
    pub fn len(&self) -> (n: usize)
        ensures
            n == self.lengths().len(),
    {
        self.lengths.len()
    }

    fn length_at(&self, dimension: usize) -> (length: usize)
        requires
            dimension < self.lengths().len(),
        ensures
            length == self.lengths()[dimension as int],
    {
        self.lengths[dimension]
    }

    /// Cardinality of one domain, or `None` outside the vector.
    pub fn get(&self, dimension: usize) -> (length: Option<usize>)
        ensures
            dimension < self.lengths().len() ==> length == Some(self.lengths()[dimension as int]),
            dimension >= self.lengths().len() ==> length is None,
    {
        if dimension < self.lengths.len() {
            Some(self.lengths[dimension])
        } else {
            None
        }
    }
}

/// One bound objective: which canonical target is compared and in which
/// explicit semantic order its candidate ordinals come.
#[derive(Debug, Clone, PartialEq, Eq)]
pub struct BoundFiniteTargetPreferenceV1 {
    dimension: usize,
    candidates: Vec<FiniteDomainOrdinalV1>,
}

impl BoundFiniteTargetPreferenceV1 {
    /// Canonical target compared by this objective.
    pub closed spec fn spec_dimension(self) -> usize {
        self.dimension
    }

    /// Candidate ordinals from most to least preferred.
    pub closed spec fn spec_candidates(self) -> Seq<FiniteDomainOrdinalV1> {
        self.candidates@
    }

    /// Binds an objective to a target dimension.
    pub fn new(dimension: usize, candidates: Vec<FiniteDomainOrdinalV1>) -> (objective: Self)
        ensures
            objective.spec_dimension() == dimension,
            objective.spec_candidates() == candidates@,
    {
        Self { dimension, candidates }
    }
}

/// Non-empty sequence of the bound objectives of one selection release.
#[derive(Debug, Clone, PartialEq, Eq)]
pub struct BoundFiniteSelectionReleaseV1 {
    objectives: Vec<BoundFiniteTargetPreferenceV1>,
}

impl BoundFiniteSelectionReleaseV1 {
    /// Objectives from most to least significant.
    pub closed spec fn spec_objectives(self) -> Seq<BoundFiniteTargetPreferenceV1> {
        self.objectives@
    }

    /// Builds a release from its most significant objective and the rest.
    pub fn new(first: BoundFiniteTargetPreferenceV1, rest: Vec<BoundFiniteTargetPreferenceV1>) -> (release:
        Self)
        ensures
            release.spec_objectives() == seq![first] + rest@,
    {
        let mut objectives = rest;
        objectives.insert(0, first);
        assert(objectives@ =~= seq![first] + rest@);
        Self { objectives }
    }

    /// Number of objectives.
    pub fn len(&self) -> (n: usize)
        ensures
            n == self.spec_objectives().len(),
    {
        self.objectives.len()
    }
}

/// Radix of each objective: the size of its candidate list.
pub open spec fn release_radices(objectives: Seq<BoundFiniteTargetPreferenceV1>) -> Seq<usize> {
    objectives.map_values(|o: BoundFiniteTargetPreferenceV1| o.spec_candidates().len() as usize)
}

/// `candidates` lists every ordinal of a domain of size `len` exactly once.
pub open spec fn is_ordinal_permutation(candidates: Seq<FiniteDomainOrdinalV1>, len: usize) -> bool {
    &&& candidates.len() == len
    &&& forall|i: int| 0 <= i < candidates.len() ==> candidates[i].spec_index() < len
    &&& forall|i: int, j: int|
        0 <= i < candidates.len() && 0 <= j < candidates.len() && i != j
            ==> candidates[i].spec_index() != candidates[j].spec_index()
}

/// One of the first `count` objectives compares dimension `d`.
pub open spec fn names_dimension(
    objectives: Seq<BoundFiniteTargetPreferenceV1>,
    count: int,
    d: int,
) -> bool {
    exists|k: int| #![trigger objectives[k]] 0 <= k < count && objectives[k].spec_dimension() == d
}

/// The release is fully bound to the domains: its objectives name every
/// dimension exactly once and each lists every ordinal of its domain exactly
/// once.
pub open spec fn release_is_bound(
    lengths: Seq<usize>,
    objectives: Seq<BoundFiniteTargetPreferenceV1>,
) -> bool {
    &&& objectives.len() == lengths.len()
    &&& forall|k: int| 0 <= k < objectives.len() ==> objectives[k].spec_dimension() < lengths.len()
    &&& forall|k1: int, k2: int|
        0 <= k1 < objectives.len() && 0 <= k2 < objectives.len() && k1 != k2
            ==> objectives[k1].spec_dimension() != objectives[k2].spec_dimension()
    &&& forall|d: int| 0 <= d < lengths.len() ==> #[trigger] names_dimension(objectives, objectives.len() as int, d)
    &&& forall|k: int|
        0 <= k < objectives.len() ==> is_ordinal_permutation(
            objectives[k].spec_candidates(),
            lengths[objectives[k].spec_dimension() as int],
        )
}

/// Full compiler-owned order of a finite Cartesian space: every tuple is
/// stored in canonical target order.
#[derive(Debug, PartialEq, Eq)]
pub struct AdmittedFiniteJointOrderV1 {
    tuples: Vec<Vec<FiniteDomainOrdinalV1>>,
}

impl AdmittedFiniteJointOrderV1 {
    /// The tuples in joint order.
    pub closed spec fn spec_tuples(self) -> Seq<Seq<FiniteDomainOrdinalV1>> {
        self.tuples@.map_values(|t: Vec<FiniteDomainOrdinalV1>| t@)
    }

    #[verifier::type_invariant]
    spec fn non_empty(self) -> bool {
        self.tuples@.len() >= 1
    }

    /// The tuples in joint order.
    pub fn tuples(&self) -> (tuples: &Vec<Vec<FiniteDomainOrdinalV1>>)
        ensures
            tuples@.map_values(|t: Vec<FiniteDomainOrdinalV1>| t@) == self.spec_tuples(),
    {
        &self.tuples
    }

    /// Number of joint states.
    pub fn state_count(&self) -> (count: usize)
        ensures
            count == self.spec_tuples().len(),
            count >= 1,
    {
        proof {
            use_type_invariant(self);
        }
        self.tuples.len()
    }
}

/// Failure of materialising the order of a bound release.
#[derive(Debug, Clone, Copy, PartialEq, Eq, Structural)]
pub enum FiniteJointCompilationErrorV1 {
    CardinalityOverflow,
    ResourceExhausted,
    InternalInvariant,
}

/// The materialised order: tuple `s` takes, along the dimension of objective
/// `k`, that objective's candidate at the `k`-th mixed-radix digit of `s`.
pub open spec fn materializes_release(
    tuples: Seq<Seq<FiniteDomainOrdinalV1>>,
    objectives: Seq<BoundFiniteTargetPreferenceV1>,
) -> bool {
    let r = release_radices(objectives);
    &&& tuples.len() == suffix_product(r, 0)
    &&& forall|s: int|
        #![trigger tuples[s]]
        0 <= s < tuples.len() ==> {
            &&& tuples[s].len() == objectives.len()
            &&& forall|k: int|
                #![trigger objectives[k]]
                0 <= k < objectives.len() ==> tuples[s][objectives[k].spec_dimension() as int]
                    == objectives[k].spec_candidates()[digit(r, s as nat, k) as int]
        }
}

fn filled_flags(n: usize) -> (flags: Vec<bool>)
    ensures
        flags@.len() == n,
        forall|i: int| 0 <= i < n ==> !flags@[i],
{
    let mut flags: Vec<bool> = Vec::new();
    while flags.len() < n
        invariant
            flags@.len() <= n,
            forall|i: int| 0 <= i < flags@.len() ==> !flags@[i],
        decreases n - flags@.len(),
    {
        flags.push(false);
    }
    flags
}

/// Checks that one objective's candidates list every ordinal of a domain of
/// size `len` exactly once.
fn candidates_are_permutation(candidates: &Vec<FiniteDomainOrdinalV1>, len: usize) -> (ok: bool)
    ensures
        ok == is_ordinal_permutation(candidates@, len),
{
    if candidates.len() != len {
        return false;
    }
    let mut seen = filled_flags(len);
    let mut i: usize = 0;
    while i < candidates.len()
        invariant
            candidates@.len() == len,
            seen@.len() == len,
            0 <= i <= len,
            forall|a: int| 0 <= a < i ==> candidates@[a].spec_index() < len,
            forall|a: int, b: int|
                0 <= a < i && 0 <= b < i && a != b ==> candidates@[a].spec_index()
                    != candidates@[b].spec_index(),
            forall|o: int|
                0 <= o < len ==> (seen@[o] <==> exists|a: int|
                    #![trigger candidates@[a]]
                    0 <= a < i && candidates@[a].spec_index() == o),
        decreases len - i,
    {
        let index = candidates[i].index();
        if index >= len {
            return false;
        }
        if seen[index] {
            proof {
                let a = choose|a: int| 0 <= a < i && candidates@[a].spec_index() == index;
                assert(candidates@[a].spec_index() == candidates@[i as int].spec_index());
            }
            return false;
        }
        seen.set(index, true);
        i += 1;
    }
    true
}

/// Materialises the full lexicographic order of the joint states of a bound
/// release: the first objective is most significant, the last changes
/// fastest. The binding invariants are re-checked so that compiler drift
/// cannot become an executable state. The number of states is the product
/// of the objectives' radices (equal to the product of the domain
/// cardinalities when the release is bound).
pub fn compile_finite_joint_order_v1(
    domain_lengths: &NonEmptyFiniteDomainCardinalitiesV1,
    release: &BoundFiniteSelectionReleaseV1,
) -> (result: Result<AdmittedFiniteJointOrderV1, FiniteJointCompilationErrorV1>)
    ensures
        !release_is_bound(domain_lengths.lengths(), release.spec_objectives()) ==> result == Err::<
            AdmittedFiniteJointOrderV1,
            FiniteJointCompilationErrorV1,
        >(FiniteJointCompilationErrorV1::InternalInvariant),
        release_is_bound(domain_lengths.lengths(), release.spec_objectives()) && suffix_product(
            release_radices(release.spec_objectives()),
            0,
        ) > usize::MAX ==> result == Err::<AdmittedFiniteJointOrderV1, FiniteJointCompilationErrorV1>(
            FiniteJointCompilationErrorV1::CardinalityOverflow,
        ),
        release_is_bound(domain_lengths.lengths(), release.spec_objectives()) && suffix_product(
            release_radices(release.spec_objectives()),
            0,
        ) <= usize::MAX ==> (result matches Ok(order) && materializes_release(
            order.spec_tuples(),
            release.spec_objectives(),
        )),
{
    let ghost lengths = domain_lengths.lengths();
    let ghost objectives = release.spec_objectives();
    let ghost r = release_radices(objectives);
    domain_lengths.assert_positive();
    let dimension_count = domain_lengths.len();
    if release.objectives.len() != dimension_count {
        return Err(FiniteJointCompilationErrorV1::InternalInvariant);
    }

    let mut seen_dimensions = filled_flags(dimension_count);
    let mut k: usize = 0;
    while k < dimension_count
        invariant
            lengths == domain_lengths.lengths(),
            objectives == release.spec_objectives(),
            release.objectives@ == objectives,
            objectives.len() == dimension_count,
            lengths.len() == dimension_count,
            seen_dimensions@.len() == dimension_count,
            0 <= k <= dimension_count,
            forall|j: int| 0 <= j < k ==> objectives[j].spec_dimension() < dimension_count,
            forall|j1: int, j2: int|
                0 <= j1 < k && 0 <= j2 < k && j1 != j2 ==> objectives[j1].spec_dimension()
                    != objectives[j2].spec_dimension(),
            forall|j: int|
                0 <= j < k ==> is_ordinal_permutation(
                    objectives[j].spec_candidates(),
                    lengths[objectives[j].spec_dimension() as int],
                ),
            forall|d: int|
                0 <= d < dimension_count ==> (seen_dimensions@[d] <==> #[trigger] names_dimension(
                    objectives,
                    k as int,
                    d,
                )),
        decreases dimension_count - k,
    {
        let objective = &release.objectives[k];
        let domain_len = match domain_lengths.get(objective.dimension) {
            Some(len) => len,
            None => return Err(FiniteJointCompilationErrorV1::InternalInvariant),
        };
        if seen_dimensions[objective.dimension] {
            proof {
                assert(names_dimension(objectives, k as int, objective.dimension as int));
                let j = choose|j: int|
                    0 <= j < k && objectives[j].spec_dimension() == objective.dimension;
                assert(objectives[j].spec_dimension() == objectives[k as int].spec_dimension());
            }
            return Err(FiniteJointCompilationErrorV1::InternalInvariant);
        }
        let ghost dim = objective.dimension as int;
        assert(!names_dimension(objectives, k as int, dim));
        seen_dimensions.set(objective.dimension, true);
        proof {
            assert(objective == objectives[k as int]);
            assert forall|j: int| 0 <= j < k implies objectives[j].spec_dimension() != dim by {
                if objectives[j].spec_dimension() == dim {
                    assert(names_dimension(objectives, k as int, dim));
                }
            }
            assert forall|e: int|
                0 <= e < dimension_count implies (seen_dimensions@[e] <==> #[trigger] names_dimension(
                objectives,
                k + 1,
                e,
            )) by {
                if e == dim {
                    assert(objectives[k as int].spec_dimension() == e);
                } else {
                    if names_dimension(objectives, k + 1, e) {
                        let j = choose|j: int|
                            #![trigger objectives[j]]
                            0 <= j < k + 1 && objectives[j].spec_dimension() == e;
                        assert(names_dimension(objectives, k as int, e));
                    }
                    if names_dimension(objectives, k as int, e) {
                        let j = choose|j: int|
                            #![trigger objectives[j]]
                            0 <= j < k && objectives[j].spec_dimension() == e;
                        assert(0 <= j < k + 1);
                    }
                }
            }
        }
        if !candidates_are_permutation(&objective.candidates, domain_len) {
            assert(!is_ordinal_permutation(
                objectives[k as int].spec_candidates(),
                lengths[objectives[k as int].spec_dimension() as int],
            ));
            assert(!release_is_bound(lengths, objectives));
            return Err(FiniteJointCompilationErrorV1::InternalInvariant);
        }
        k += 1;
    }
    let mut d: usize = 0;
    while d < dimension_count
        invariant
            seen_dimensions@.len() == dimension_count,
            0 <= d <= dimension_count,
            forall|e: int| 0 <= e < d ==> seen_dimensions@[e],
            objectives.len() == dimension_count,
            lengths.len() == dimension_count,
            lengths == domain_lengths.lengths(),
            objectives == release.spec_objectives(),
            forall|e: int|
                0 <= e < dimension_count ==> (seen_dimensions@[e] <==> #[trigger] names_dimension(
                    objectives,
                    dimension_count as int,
                    e,
                )),
        decreases dimension_count - d,
    {
        if !seen_dimensions[d] {
            assert(!names_dimension(objectives, dimension_count as int, d as int));
            return Err(FiniteJointCompilationErrorV1::InternalInvariant);
        }
        d += 1;
    }
    assert(release_is_bound(lengths, objectives));
    proof {
        assert forall|j: int| 0 <= j < r.len() implies r[j] > 0 by {
            assert(r[j] == lengths[objectives[j].spec_dimension() as int]);
        }
    }

    // Number of joint states, accumulated from the least significant objective.
    let mut state_count: usize = 1;
    let mut k: usize = dimension_count;
    while k > 0
        invariant
            objectives == release.spec_objectives(),
            release.objectives@ == objectives,
            r == release_radices(objectives),
            radices_positive(r),
            r.len() == dimension_count,
            lengths == domain_lengths.lengths(),
            release_is_bound(lengths, objectives),
            0 <= k <= dimension_count,
            state_count == suffix_product(r, k as int),
        decreases k,
    {
        k -= 1;
        let radix = release.objectives[k].candidates.len();
        assert(radix == r[k as int]);
        match state_count.checked_mul(radix) {
            Some(count) => {
                proof {
                    lemma_mul_is_commutative(state_count as int, radix as int);
                }
                state_count = count;
            },
            None => {
                proof {
                    lemma_mul_is_commutative(state_count as int, radix as int);
                    lemma_suffix_product_positive_monotone(r, k as int);
                }
                return Err(FiniteJointCompilationErrorV1::CardinalityOverflow);
            },
        }
    }

    let mut tuples: Vec<Vec<FiniteDomainOrdinalV1>> = Vec::new();
    let mut state_index: usize = 0;
    while state_index < state_count
        invariant
            objectives == release.spec_objectives(),
            release.objectives@ == objectives,
            r == release_radices(objectives),
            radices_positive(r),
            release_is_bound(lengths, objectives),
            r.len() == dimension_count,
            objectives.len() == dimension_count,
            state_count == suffix_product(r, 0),
            0 <= state_index <= state_count,
            tuples@.len() == state_index,
            forall|s: int|
                #![trigger tuples@[s]]
                0 <= s < state_index ==> {
                    &&& tuples@[s]@.len() == dimension_count
                    &&& forall|j: int|
                        #![trigger objectives[j]]
                        0 <= j < dimension_count ==> tuples@[s]@[objectives[j].spec_dimension() as int]
                            == objectives[j].spec_candidates()[digit(r, s as nat, j) as int]
                },
        decreases state_count - state_index,
    {
        let mut tuple: Vec<FiniteDomainOrdinalV1> = Vec::new();
        while tuple.len() < dimension_count
            invariant
                tuple@.len() <= dimension_count,
            decreases dimension_count - tuple@.len(),
        {
            tuple.push(FiniteDomainOrdinalV1::new(0));
        }
        let mut remainder = state_index;
        let mut k: usize = dimension_count;
        while k > 0
            invariant
                objectives == release.spec_objectives(),
                release.objectives@ == objectives,
                r == release_radices(objectives),
                radices_positive(r),
                release_is_bound(lengths, objectives),
                r.len() == dimension_count,
                objectives.len() == dimension_count,
                0 <= k <= dimension_count,
                tuple@.len() == dimension_count,
                remainder == state_index as nat / suffix_product(r, k as int),
                forall|j: int|
                    #![trigger objectives[j]]
                    k <= j < dimension_count ==> tuple@[objectives[j].spec_dimension() as int]
                        == objectives[j].spec_candidates()[digit(r, state_index as nat, j) as int],
            decreases k,
        {
            k -= 1;
            let objective = &release.objectives[k];
            let radix = objective.candidates.len();
            proof {
                assert(radix == r[k as int]);
                lemma_suffix_product_at_least_one(r, k + 1);
                lemma_div_denominator(
                    state_index as int,
                    suffix_product(r, k + 1) as int,
                    radix as int,
                );
                lemma_mul_is_commutative(suffix_product(r, k + 1) as int, radix as int);
            }
            let rank = remainder % radix;
            remainder = remainder / radix;
            let ghost old_tuple = tuple@;
            tuple.set(objective.dimension, objective.candidates[rank]);
            proof {
                assert forall|j: int|
                    #![trigger objectives[j]]
                    k <= j < dimension_count implies tuple@[objectives[j].spec_dimension() as int]
                    == objectives[j].spec_candidates()[digit(r, state_index as nat, j) as int] by {
                    if j != k {
                        assert(objectives[j].spec_dimension() != objectives[k as int].spec_dimension());
                    }
                }
            }
        }
        proof {
            lemma_fundamental_div_mod_converse(
                state_index as int,
                suffix_product(r, 0) as int,
                0,
                state_index as int,
            );
        }
        if remainder != 0 {
            return Err(FiniteJointCompilationErrorV1::InternalInvariant);
        }
        tuples.push(tuple);
        state_index += 1;
    }
    proof {
        lemma_suffix_product_at_least_one(r, 0);
    }
    let order = AdmittedFiniteJointOrderV1 { tuples };
    proof {
        assert(order.spec_tuples().len() == tuples@.len());
        assert forall|s: int| 0 <= s < order.spec_tuples().len() implies #[trigger] order.spec_tuples()[s] == tuples@[s]@ by {}
    }
    Ok(order)
}

/// Distinct states of a materialised order are distinct tuples.
pub proof fn lemma_materialized_tuples_are_distinct(
    lengths: Seq<usize>,
    objectives: Seq<BoundFiniteTargetPreferenceV1>,
    tuples: Seq<Seq<FiniteDomainOrdinalV1>>,
    s1: int,
    s2: int,
)
    requires
        radices_positive(lengths),
        release_is_bound(lengths, objectives),
        materializes_release(tuples, objectives),
        0 <= s1 < tuples.len(),
        0 <= s2 < tuples.len(),
        s1 != s2,
    ensures
        tuples[s1] != tuples[s2],
{
    let r = release_radices(objectives);
    assert forall|j: int| 0 <= j < r.len() implies r[j] > 0 by {
        assert(r[j] == lengths[objectives[j].spec_dimension() as int]);
    }
    lemma_distinct_states_have_distinct_digits(r, s1 as nat, s2 as nat);
    let k = choose|k: int| #![trigger digit(r, s1 as nat, k)] 0 <= k < r.len() && digit(r, s1 as nat, k) != digit(r, s2 as nat, k);
    let c = objectives[k].spec_candidates();
    let dim = objectives[k].spec_dimension() as int;
    assert(tuples[s1][dim] == c[digit(r, s1 as nat, k) as int]);
    assert(tuples[s2][dim] == c[digit(r, s2 as nat, k) as int]);
    assert(digit(r, s1 as nat, k) < r[k]);
    assert(digit(r, s2 as nat, k) < r[k]);
    assert(c[digit(r, s1 as nat, k) as int].spec_index() != c[digit(r, s2 as nat, k) as int].spec_index());
}

proof fn lemma_suffix_product_of_tail(s: Seq<usize>, j: int)
    requires
        0 <= j <= s.len(),
    ensures
        suffix_product(s, j) == suffix_product(s.subrange(j, s.len() as int), 0),
    decreases s.len() - j,
{
    let t = s.subrange(j, s.len() as int);
    if j < s.len() {
        lemma_suffix_product_of_tail(s, j + 1);
        lemma_suffix_product_of_tail(t, 1);
        assert(t.subrange(1, t.len() as int) =~= s.subrange(j + 1, s.len() as int));
    }
}

proof fn lemma_suffix_product_remove(s: Seq<usize>, k: int)
    requires
        0 <= k < s.len(),
    ensures
        suffix_product(s, 0) == (s[k] as nat) * suffix_product(s.remove(k), 0),
    decreases k,
{
    lemma_suffix_product_of_tail(s, 1);
    let t = s.subrange(1, s.len() as int);
    if k == 0 {
        assert(s.remove(0) =~= t);
    } else {
        lemma_suffix_product_remove(t, k - 1);
        let u = s.remove(k);
        lemma_suffix_product_of_tail(u, 1);
        assert(u.subrange(1, u.len() as int) =~= t.remove(k - 1));
        let a = s[0] as nat;
        let b = s[k] as nat;
        let c = suffix_product(t.remove(k - 1), 0);
        assert(a * (b * c) == b * (a * c)) by (nonlinear_arith);
    }
}

spec fn covers(dims: Seq<int>, d: int) -> bool {
    exists|k: int| 0 <= k < dims.len() && dims[k] == d
}

proof fn lemma_suffix_product_permuted(r: Seq<usize>, l: Seq<usize>, dims: Seq<int>)
    requires
        r.len() == l.len(),
        dims.len() == l.len(),
        forall|k: int| 0 <= k < dims.len() ==> 0 <= #[trigger] dims[k] < l.len(),
        forall|k1: int, k2: int|
            0 <= k1 < dims.len() && 0 <= k2 < dims.len() && k1 != k2 ==> dims[k1] != dims[k2],
        forall|d: int| 0 <= d < l.len() ==> #[trigger] covers(dims, d),
        forall|k: int| 0 <= k < r.len() ==> r[k] == l[#[trigger] dims[k]],
    ensures
        suffix_product(r, 0) == suffix_product(l, 0),
    decreases l.len(),
{
    let n = l.len() as int;
    if n > 0 {
        assert(covers(dims, n - 1));
        let k = choose|k: int| 0 <= k < dims.len() && dims[k] == n - 1;
        let r2 = r.remove(k);
        let d2 = dims.remove(k);
        let l2 = l.drop_last();
        assert forall|j: int| 0 <= j < d2.len() implies 0 <= #[trigger] d2[j] < l2.len() by {
            let jj = if j < k { j } else { j + 1 };
            assert(d2[j] == dims[jj]);
            assert(dims[jj] != dims[k]);
        }
        assert forall|j: int| 0 <= j < r2.len() implies r2[j] == l2[#[trigger] d2[j]] by {
            let jj = if j < k { j } else { j + 1 };
            assert(d2[j] == dims[jj]);
            assert(r2[j] == r[jj]);
            assert(dims[jj] != dims[k]);
        }
        assert forall|d: int| 0 <= d < l2.len() implies #[trigger] covers(d2, d) by {
            assert(covers(dims, d));
            let kk = choose|kk: int| 0 <= kk < dims.len() && dims[kk] == d;
            assert(kk != k);
            let j = if kk < k { kk } else { kk - 1 };
            assert(d2[j] == d);
        }
        assert forall|j1: int, j2: int|
            0 <= j1 < d2.len() && 0 <= j2 < d2.len() && j1 != j2 implies d2[j1] != d2[j2] by {
            let a = if j1 < k { j1 } else { j1 + 1 };
            let b = if j2 < k { j2 } else { j2 + 1 };
            assert(d2[j1] == dims[a]);
            assert(d2[j2] == dims[b]);
        }
        lemma_suffix_product_permuted(r2, l2, d2);
        lemma_suffix_product_remove(r, k);
        lemma_suffix_product_remove(l, n - 1);
        assert(l.remove(n - 1) =~= l2);
    }
}

/// The number of states of a bound release is the product of the domain
/// cardinalities: binding only permutes the dimensions and the ordinals
/// inside each.
pub proof fn lemma_bound_release_spans_the_product_space(
    lengths: Seq<usize>,
    objectives: Seq<BoundFiniteTargetPreferenceV1>,
)
    requires
        release_is_bound(lengths, objectives),
    ensures
        suffix_product(release_radices(objectives), 0) == suffix_product(lengths, 0),
{
    let r = release_radices(objectives);
    let dims = objectives.map_values(|o: BoundFiniteTargetPreferenceV1| o.spec_dimension() as int);
    assert forall|d: int| 0 <= d < lengths.len() implies #[trigger] covers(dims, d) by {
        assert(names_dimension(objectives, objectives.len() as int, d));
        let k = choose|k: int|
            #![trigger objectives[k]]
            0 <= k < objectives.len() && objectives[k].spec_dimension() == d;
        assert(dims[k] == d);
    }
    assert forall|k: int| 0 <= k < r.len() implies r[k] == lengths[#[trigger] dims[k]] by {
        assert(is_ordinal_permutation(
            objectives[k].spec_candidates(),
            lengths[objectives[k].spec_dimension() as int],
        ));
    }
    lemma_suffix_product_permuted(r, lengths, dims);
}

// ---------------------------------------------------------------------------
// Admission of an authored joint order
// ---------------------------------------------------------------------------

/// Reason why an authored list of tuples is not a complete joint order.
#[derive(Debug, Clone, Copy, PartialEq, Eq, Structural)]
pub enum FiniteJointOrderErrorV1 {
    /// The product of the domain cardinalities does not fit `usize`.
    CardinalityOverflow,
    /// No tuple was authored.
    EmptyOrder,
    /// The number of tuples differs from the size of the product space.
    IncompleteOrder { expected: usize, actual: usize },
    /// A tuple does not have one ordinal per dimension.
    TupleArity { tuple: usize, expected: usize, actual: usize },
    /// An ordinal lies outside its domain.
    OrdinalOutOfRange { tuple: usize, dimension: usize, ordinal: usize, cardinality: usize },
    /// A tuple repeats an earlier one.
    DuplicateTuple { first: usize, duplicate: usize },
}

/// Failure of admitting an authored joint order.
#[derive(Debug, Clone, Copy, PartialEq, Eq, Structural)]
pub enum FiniteJointOrderAdmissionErrorV1 {
    /// The authored order itself is not a complete, duplicate-free product.
    Authored(FiniteJointOrderErrorV1),
}

/// First dimension at or after `d` whose ordinal is outside its domain.
pub open spec fn first_out_of_range(lengths: Seq<usize>, t: Seq<usize>, d: int) -> Option<int>
    decreases lengths.len() - d,
{
    if d >= lengths.len() {
        None
    } else if t[d] >= lengths[d] {
        Some(d)
    } else {
        first_out_of_range(lengths, t, d + 1)
    }
}

/// First tuple in `[j, i)` equal to tuple `i`.
pub open spec fn first_equal_before(tuples: Seq<Seq<usize>>, i: int, j: int) -> Option<int>
    decreases i - j,
{
    if j >= i {
        None
    } else if tuples[j] == tuples[i] {
        Some(j)
    } else {
        first_equal_before(tuples, i, j + 1)
    }
}

/// Defect of tuple `i`, checked in the order arity, range, duplication.
pub open spec fn tuple_error(lengths: Seq<usize>, tuples: Seq<Seq<usize>>, i: int) -> Option<
    FiniteJointOrderErrorV1,
> {
    let t = tuples[i];
    if t.len() != lengths.len() {
        Some(
            FiniteJointOrderErrorV1::TupleArity {
                tuple: i as usize,
                expected: lengths.len() as usize,
                actual: t.len() as usize,
            },
        )
    } else if first_out_of_range(lengths, t, 0) is Some {
        let d = first_out_of_range(lengths, t, 0)->Some_0;
        Some(
            FiniteJointOrderErrorV1::OrdinalOutOfRange {
                tuple: i as usize,
                dimension: d as usize,
                ordinal: t[d],
                cardinality: lengths[d],
            },
        )
    } else if first_equal_before(tuples, i, 0) is Some {
        Some(
            FiniteJointOrderErrorV1::DuplicateTuple {
                first: first_equal_before(tuples, i, 0)->Some_0 as usize,
                duplicate: i as usize,
            },
        )
    } else {
        None
    }
}

/// Defect of the first defective tuple at or after `i`.
pub open spec fn first_tuple_error(lengths: Seq<usize>, tuples: Seq<Seq<usize>>, i: int) -> Option<
    FiniteJointOrderErrorV1,
>
    decreases tuples.len() - i,
{
    if i >= tuples.len() {
        None
    } else if tuple_error(lengths, tuples, i) is Some {
        tuple_error(lengths, tuples, i)
    } else {
        first_tuple_error(lengths, tuples, i + 1)
    }
}

/// Why the authored tuples are not a complete joint order of the domains,
/// or `None` when they are.
pub open spec fn admission_error(lengths: Seq<usize>, tuples: Seq<Seq<usize>>) -> Option<
    FiniteJointOrderErrorV1,
> {
    if suffix_product(lengths, 0) > usize::MAX {
        Some(FiniteJointOrderErrorV1::CardinalityOverflow)
    } else if tuples.len() == 0 {
        Some(FiniteJointOrderErrorV1::EmptyOrder)
    } else if tuples.len() != suffix_product(lengths, 0) {
        Some(
            FiniteJointOrderErrorV1::IncompleteOrder {
                expected: suffix_product(lengths, 0) as usize,
                actual: tuples.len() as usize,
            },
        )
    } else {
        first_tuple_error(lengths, tuples, 0)
    }
}

/// Indices of authored tuples.
pub open spec fn authored_indices(tuples: Seq<Vec<FiniteDomainOrdinalV1>>) -> Seq<Seq<usize>> {
    tuples.map_values(|t: Vec<FiniteDomainOrdinalV1>| ordinal_indices(t@))
}

proof fn lemma_first_out_of_range_skip(lengths: Seq<usize>, t: Seq<usize>, a: int, b: int)
    requires
        0 <= a <= b <= lengths.len(),
        forall|d: int| a <= d < b ==> t[d] < lengths[d],
    ensures
        first_out_of_range(lengths, t, a) == first_out_of_range(lengths, t, b),
    decreases b - a,
{
    if a < b {
        lemma_first_out_of_range_skip(lengths, t, a + 1, b);
    }
}

proof fn lemma_first_equal_before_meaning(tuples: Seq<Seq<usize>>, i: int, j: int)
    requires
        0 <= j <= i,
    ensures
        first_equal_before(tuples, i, j) is None <==> forall|x: int|
            j <= x < i ==> tuples[x] != tuples[i],
        first_equal_before(tuples, i, j) matches Some(x) ==> j <= x < i && tuples[x] == tuples[i]
            && forall|y: int| j <= y < x ==> tuples[y] != tuples[i],
    decreases i - j,
{
    if j < i {
        lemma_first_equal_before_meaning(tuples, i, j + 1);
    }
}

proof fn lemma_first_tuple_error_skip(lengths: Seq<usize>, tuples: Seq<Seq<usize>>, a: int, b: int)
    requires
        0 <= a <= b <= tuples.len(),
        forall|x: int| a <= x < b ==> tuple_error(lengths, tuples, x) is None,
    ensures
        first_tuple_error(lengths, tuples, a) == first_tuple_error(lengths, tuples, b),
    decreases b - a,
{
    if a < b {
        lemma_first_tuple_error_skip(lengths, tuples, a + 1, b);
    }
}

/// Admits an authored joint order verbatim: the tuples must form the
/// complete product of the domains, each tuple carrying one in-range ordinal
/// per dimension and no tuple repeating an earlier one. The authored priority
/// of the tuples is preserved exactly.
pub fn admit_finite_joint_order_v1(
    lengths: &NonEmptyFiniteDomainCardinalitiesV1,
    tuples: Vec<Vec<FiniteDomainOrdinalV1>>,
) -> (result: Result<AdmittedFiniteJointOrderV1, FiniteJointOrderAdmissionErrorV1>)
    ensures
        match admission_error(lengths.lengths(), authored_indices(tuples@)) {
            Some(e) => result == Err::<
                AdmittedFiniteJointOrderV1,
                FiniteJointOrderAdmissionErrorV1,
            >(FiniteJointOrderAdmissionErrorV1::Authored(e)),
            None => result matches Ok(order) && order.spec_tuples() == tuples@.map_values(
                |t: Vec<FiniteDomainOrdinalV1>| t@,
            ),
        },
{
    let ghost l = lengths.lengths();
    let ghost t = authored_indices(tuples@);
    lengths.assert_positive();
    let n = lengths.len();

    let mut count: usize = 1;
    let mut k: usize = n;
    while k > 0
        invariant
            l == lengths.lengths(),
            radices_positive(l),
            l.len() == n,
            0 <= k <= n,
            count == suffix_product(l, k as int),
        decreases k,
    {
        k -= 1;
        let length = lengths.length_at(k);
        match count.checked_mul(length) {
            Some(next) => {
                proof {
                    lemma_mul_is_commutative(count as int, length as int);
                }
                count = next;
            },
            None => {
                proof {
                    lemma_mul_is_commutative(count as int, length as int);
                    lemma_suffix_product_positive_monotone(l, k as int);
                }
                return Err(
                    FiniteJointOrderAdmissionErrorV1::Authored(
                        FiniteJointOrderErrorV1::CardinalityOverflow,
                    ),
                );
            },
        }
    }
    if tuples.len() == 0 {
        return Err(FiniteJointOrderAdmissionErrorV1::Authored(FiniteJointOrderErrorV1::EmptyOrder));
    }
    if tuples.len() != count {
        return Err(
            FiniteJointOrderAdmissionErrorV1::Authored(
                FiniteJointOrderErrorV1::IncompleteOrder { expected: count, actual: tuples.len() },
            ),
        );
    }
    let ghost p = suffix_product(l, 0);
    let mut seen: Vec<usize> = Vec::new();
    while seen.len() < count
        invariant
            seen@.len() <= count,
            forall|v: int| 0 <= v < seen@.len() ==> seen@[v] == 0,
        decreases count - seen@.len(),
    {
        seen.push(0);
    }
    let mut i: usize = 0;
    while i < tuples.len()
        invariant
            l == lengths.lengths(),
            t == authored_indices(tuples@),
            radices_positive(l),
            l.len() == n,
            count == p,
            p == suffix_product(l, 0),
            tuples@.len() == count,
            seen@.len() == count,
            0 <= i <= count,
            forall|x: int| 0 <= x < i ==> tuple_error(l, t, x) is None,
            forall|x: int| 0 <= x < i ==> #[trigger] digits_in_range(l, t[x]),
            forall|v: int|
                0 <= v < count ==> (seen@[v] == 0 <==> forall|x: int|
                    0 <= x < i ==> mixed_value(l, #[trigger] t[x], 0) != v),
            forall|v: int|
                0 <= v < count && seen@[v] != 0 ==> seen@[v] - 1 < i && mixed_value(
                    l,
                    t[seen@[v] - 1],
                    0,
                ) == v,
        decreases count - i,
    {
        let tuple = &tuples[i];
        let ghost ti = t[i as int];
        assert(ti == ordinal_indices(tuple@));
        proof {
            lemma_first_tuple_error_skip(l, t, 0, i as int);
            assert(admission_error(l, t) == first_tuple_error(l, t, i as int));
        }
        if tuple.len() != n {
            return Err(
                FiniteJointOrderAdmissionErrorV1::Authored(
                    FiniteJointOrderErrorV1::TupleArity { tuple: i, expected: n, actual: tuple.len() },
                ),
            );
        }
        let mut d: usize = 0;
        while d < n
            invariant
                l == lengths.lengths(),
                l.len() == n,
                tuple@.len() == n,
                ti == ordinal_indices(tuple@),
                t == authored_indices(tuples@),
                0 <= i < tuples@.len(),
                ti == t[i as int],
                admission_error(l, t) == first_tuple_error(l, t, i as int),
                0 <= d <= n,
                forall|e: int| 0 <= e < d ==> ti[e] < l[e],
            decreases n - d,
        {
            let ordinal = tuple[d].index();
            let cardinality = lengths.length_at(d);
            if ordinal >= cardinality {
                proof {
                    lemma_first_out_of_range_skip(l, ti, 0, d as int);
                    assert(ti[d as int] == ordinal);
                    assert(first_out_of_range(l, ti, d as int) == Some(d as int));
                    assert(t[i as int] == ti);
                    assert(ti.len() == l.len());
                    assert(first_out_of_range(l, t[i as int], 0) is Some);
                    assert(tuple_error(l, t, i as int) is Some);
                }
                return Err(
                    FiniteJointOrderAdmissionErrorV1::Authored(
                        FiniteJointOrderErrorV1::OrdinalOutOfRange {
                            tuple: i,
                            dimension: d,
                            ordinal,
                            cardinality,
                        },
                    ),
                );
            }
            d += 1;
        }
        proof {
            lemma_first_out_of_range_skip(l, ti, 0, n as int);
            lemma_mixed_value_bound(l, ti, 0);
        }
        let mut rank: usize = 0;
        let mut stride: usize = 1;
        let mut d: usize = n;
        while d > 0
            invariant
                l == lengths.lengths(),
                radices_positive(l),
                l.len() == n,
                tuple@.len() == n,
                ti == ordinal_indices(tuple@),
                digits_in_range(l, ti),
                p == suffix_product(l, 0),
                p <= usize::MAX,
                0 <= d <= n,
                stride == suffix_product(l, d as int),
                rank == mixed_value(l, ti, d as int),
            decreases d,
        {
            d -= 1;
            proof {
                lemma_mixed_value_bound(l, ti, d as int);
                lemma_suffix_product_positive_monotone(l, d as int);
                lemma_mul_is_commutative(stride as int, l[d as int] as int);
                lemma_mul_inequality(ti[d as int] as int, l[d as int] as int, stride as int);
            }
            rank = rank + tuple[d].index() * stride;
            stride = stride * lengths.length_at(d);
        }
        let previous = seen[rank];
        if previous != 0 {
            let first = previous - 1;
            proof {
                let tf = t[first as int];
                assert(digits_in_range(l, tf));
                lemma_mixed_value_injective(l, tf, ti, 0);
                assert(tf.len() == ti.len());
                assert(forall|j: int| 0 <= j < l.len() ==> tf[j] == ti[j]);
                assert(tf =~= ti);
                lemma_first_equal_before_meaning(t, i as int, 0);
                if let Some(x) = first_equal_before(t, i as int, 0) {
                    if x != first {
                        assert(t[x] == t[first as int]);
                        let hi = if x > first { x } else { first as int };
                        let lo = if x > first { first as int } else { x };
                        assert(tuple_error(l, t, hi) is None);
                        lemma_first_equal_before_meaning(t, hi, 0);
                        assert(t[lo] == t[hi]);
                    }
                }
            }
            return Err(
                FiniteJointOrderAdmissionErrorV1::Authored(
                    FiniteJointOrderErrorV1::DuplicateTuple { first, duplicate: i },
                ),
            );
        }
        proof {
            lemma_first_equal_before_meaning(t, i as int, 0);
            assert forall|x: int| 0 <= x < i implies t[x] != t[i as int] by {
                if t[x] == t[i as int] {
                    assert(mixed_value(l, t[x], 0) == rank);
                }
            }
        }
        seen.set(rank, i + 1);
        proof {
            assert forall|v: int|
                0 <= v < count implies (seen@[v] == 0 <==> forall|x: int|
                    0 <= x < i + 1 ==> mixed_value(l, #[trigger] t[x], 0) != v) by {
                if v != rank {
                    if seen@[v] == 0 {
                        assert forall|x: int| 0 <= x < i + 1 implies mixed_value(l, #[trigger] t[x], 0)
                            != v by {
                            if x == i {
                            }
                        }
                    }
                } else {
                    assert(mixed_value(l, t[i as int], 0) == v);
                }
            }
        }
        i += 1;
    }
    proof {
        lemma_first_tuple_error_skip(l, t, 0, i as int);
    }
    proof {
        assert(tuples@.len() >= 1);
    }
    let order = AdmittedFiniteJointOrderV1 { tuples };
    Ok(order)
}


proof fn lemma_no_first_tuple_error(lengths: Seq<usize>, tuples: Seq<Seq<usize>>, a: int)
    requires
        0 <= a,
        first_tuple_error(lengths, tuples, a) is None,
    ensures
        forall|x: int| a <= x < tuples.len() ==> tuple_error(lengths, tuples, x) is None,
    decreases tuples.len() - a,
{
    if a < tuples.len() {
        lemma_no_first_tuple_error(lengths, tuples, a + 1);
    }
}

proof fn lemma_no_out_of_range(lengths: Seq<usize>, t: Seq<usize>, d: int)
    requires
        0 <= d,
        first_out_of_range(lengths, t, d) is None,
    ensures
        forall|e: int| d <= e < lengths.len() ==> t[e] < lengths[e],
    decreases lengths.len() - d,
{
    if d < lengths.len() {
        lemma_no_out_of_range(lengths, t, d + 1);
    }
}

/// Every tuple of an admitted order has one in-range ordinal per dimension,
/// and no two tuples are equal.
pub proof fn lemma_admitted_tuples_in_range_and_distinct(
    lengths: Seq<usize>,
    tuples: Seq<Seq<usize>>,
)
    requires
        admission_error(lengths, tuples) is None,
    ensures
        tuples.len() == suffix_product(lengths, 0),
        forall|i: int| 0 <= i < tuples.len() ==> #[trigger] digits_in_range(lengths, tuples[i]),
        forall|i: int, j: int|
            0 <= i < tuples.len() && 0 <= j < tuples.len() && i != j ==> tuples[i] != tuples[j],
{
    lemma_no_first_tuple_error(lengths, tuples, 0);
    assert forall|i: int| 0 <= i < tuples.len() implies #[trigger] digits_in_range(
        lengths,
        tuples[i],
    ) by {
        assert(tuple_error(lengths, tuples, i) is None);
        lemma_no_out_of_range(lengths, tuples[i], 0);
    }
    assert forall|i: int, j: int|
        0 <= i < tuples.len() && 0 <= j < tuples.len() && i != j implies tuples[i] != tuples[j] by {
        let hi = if i > j { i } else { j };
        let lo = if i > j { j } else { i };
        assert(tuple_error(lengths, tuples, hi) is None);
        lemma_first_equal_before_meaning(tuples, hi, 0);
        assert(tuples[lo] != tuples[hi]);
    }
}

/// An admitted order is complete: every tuple of the product space occurs
/// in it.
pub proof fn lemma_admitted_order_is_complete(
    lengths: Seq<usize>,
    tuples: Seq<Seq<usize>>,
    u: Seq<usize>,
)
    requires
        radices_positive(lengths),
        admission_error(lengths, tuples) is None,
        digits_in_range(lengths, u),
    ensures
        exists|i: int| 0 <= i < tuples.len() && tuples[i] == u,
{
    lemma_admitted_tuples_in_range_and_distinct(lengths, tuples);
    let p = suffix_product(lengths, 0) as int;
    let indices = set_int_range(0, p);
    let rank = |i: int| mixed_value(lengths, tuples[i], 0) as int;
    lemma_int_range(0, p);
    assert(injective_on(rank, indices)) by {
        assert forall|i: int, j: int|
            indices.contains(i) && indices.contains(j) && #[trigger] rank(i) == #[trigger] rank(j)
            implies i == j by {
            lemma_mixed_value_injective(lengths, tuples[i], tuples[j], 0);
            assert(tuples[i] =~= tuples[j]);
        }
    }
    let ranks = indices.map(rank);
    lemma_map_size(indices, ranks, rank);
    assert(ranks.subset_of(indices)) by {
        assert forall|v: int| ranks.contains(v) implies indices.contains(v) by {
            let i = choose|i: int| indices.contains(i) && rank(i) == v;
            lemma_mixed_value_bound(lengths, tuples[i], 0);
        }
    }
    lemma_subset_equality(ranks, indices);
    lemma_mixed_value_bound(lengths, u, 0);
    let v = mixed_value(lengths, u, 0) as int;
    assert(ranks.contains(v));
    let i = choose|i: int| indices.contains(i) && rank(i) == v;
    lemma_mixed_value_injective(lengths, tuples[i], u, 0);
    assert(tuples[i] =~= u);
}


/// Every order the compiler materialises from a bound release is admitted
/// verbatim as an authored order: it is the complete product of the
/// domains, each tuple has one in-range ordinal per dimension, and no tuple
/// repeats.
pub proof fn lemma_compiled_order_is_admissible(
    lengths: Seq<usize>,
    objectives: Seq<BoundFiniteTargetPreferenceV1>,
    tuples: Seq<Seq<FiniteDomainOrdinalV1>>,
)
    requires
        radices_positive(lengths),
        release_is_bound(lengths, objectives),
        materializes_release(tuples, objectives),
        suffix_product(lengths, 0) <= usize::MAX,
    ensures
        admission_error(
            lengths,
            tuples.map_values(|t: Seq<FiniteDomainOrdinalV1>| ordinal_indices(t)),
        ) is None,
{
    let idx = tuples.map_values(|t: Seq<FiniteDomainOrdinalV1>| ordinal_indices(t));
    lemma_bound_release_spans_the_product_space(lengths, objectives);
    lemma_suffix_product_positive_monotone(lengths, 0);
    assert(idx.len() == suffix_product(lengths, 0));
    assert forall|i: int| 0 <= i < idx.len() implies tuple_error(lengths, idx, i) is None by {
        let t = tuples[i];
        assert(t.len() == objectives.len());
        assert(idx[i] == ordinal_indices(t));
        assert forall|d: int| 0 <= d < lengths.len() implies idx[i][d] < lengths[d] by {
            assert(names_dimension(objectives, objectives.len() as int, d));
            let k = choose|k: int|
                #![trigger objectives[k]]
                0 <= k < objectives.len() && objectives[k].spec_dimension() == d;
            let r = release_radices(objectives);
            let c = objectives[k].spec_candidates();
            assert(is_ordinal_permutation(c, lengths[d]));
            assert(r[k] == c.len());
            assert(r[k] > 0);
            assert(digit(r, i as nat, k) < r[k]);
            assert(t[d] == c[digit(r, i as nat, k) as int]);
        }
        lemma_first_out_of_range_skip(lengths, idx[i], 0, lengths.len() as int);
        assert forall|x: int| 0 <= x < i implies idx[x] != idx[i] by {
            lemma_materialized_tuples_are_distinct(lengths, objectives, tuples, x, i);
            let (tx, ti) = (tuples[x], tuples[i]);
            if idx[x] == idx[i] {
                assert(tx =~= ti) by {
                    assert forall|e: int| 0 <= e < tx.len() implies tx[e] == ti[e] by {
                        assert(ordinal_indices(tx)[e] == ordinal_indices(ti)[e]);
                    }
                }
            }
        }
        lemma_first_equal_before_meaning(idx, i, 0);
    }
    lemma_first_tuple_error_skip(lengths, idx, 0, idx.len() as int);
}

} // verus!
