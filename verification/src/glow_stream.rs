//! Decisions of the stream of reachable encoded-sRGB8 glow states.
//!
//! The composite of a screen layer is computed in binary64 by the caller;
//! this module holds everything the stream decides around that oracle. Alpha
//! values are ordered by their bit patterns (for non-negative binary64 the
//! value order is the pattern order), so the search for the first alpha at
//! which a channel reaches its next byte is a search over `u64`: a seed, a
//! galloping phase that brackets the answer between a failing and a passing
//! pattern, and a bisection that closes the bracket to adjacent patterns.
use vstd::prelude::*;
use crate::binary64::ONE_BITS;
use crate::binary64::is_nearest_to_quotient;
use crate::glow::{boundary_seed_bits, seed_denominator, seed_numerator};

verus! {

/// Where the search for a channel's first passing alpha stands.
#[derive(Debug, Clone, Copy, PartialEq, Eq, Structural)]
pub enum BoundarySearchV1 {
    /// The seed is probed first.
    Seed { lower_bits: u64, seed_bits: u64 },
    /// The seed passed: stride down from the lowest passing pattern seen.
    GallopDown { lower_bits: u64, passing_bits: u64, stride: u64 },
    /// The seed failed: stride up from the highest failing pattern seen.
    GallopUp { failing_bits: u64, stride: u64 },
    /// Bisect between a failing and a passing pattern more than one apart.
    Bisect { failing_bits: u64, passing_bits: u64 },
    /// The first passing pattern: the one below it failed.
    Found { passing_bits: u64 },
}

/// `a - b`, or `0` below zero.
pub open spec fn saturating_sub(a: u64, b: u64) -> u64 {
    if a >= b {
        (a - b) as u64
    } else {
        0
    }
}

/// `a + b`, or `u64::MAX` above it.
pub open spec fn saturating_add(a: u64, b: u64) -> u64 {
    if a + b <= u64::MAX {
        (a + b) as u64
    } else {
        u64::MAX
    }
}

/// `2 * a`, or `u64::MAX` above it.
pub open spec fn saturating_double(a: u64) -> u64 {
    if 2 * a <= u64::MAX {
        (2 * a) as u64
    } else {
        u64::MAX
    }
}

/// The pattern probed next; `None` once the answer is found.
pub open spec fn search_probe(search: BoundarySearchV1) -> Option<u64> {
    match search {
        BoundarySearchV1::Seed { seed_bits, .. } => Some(seed_bits),
        BoundarySearchV1::GallopDown { lower_bits, passing_bits, stride } => {
            let down = saturating_sub(passing_bits, stride);
            Some(if down >= lower_bits { down } else { lower_bits })
        },
        BoundarySearchV1::GallopUp { failing_bits, stride } => {
            let up = saturating_add(failing_bits, stride);
            Some(if up <= ONE_BITS { up } else { ONE_BITS })
        },
        BoundarySearchV1::Bisect { failing_bits, passing_bits } => Some(
            if failing_bits <= passing_bits {
                (failing_bits + (passing_bits - failing_bits) / 2) as u64
            } else {
                failing_bits
            },
        ),
        BoundarySearchV1::Found { .. } => None,
    }
}

/// A bracket `failing < passing`: found when the two are adjacent, bisected
/// otherwise.
pub open spec fn settle(failing_bits: u64, passing_bits: u64) -> BoundarySearchV1 {
    if passing_bits - failing_bits <= 1 {
        BoundarySearchV1::Found { passing_bits }
    } else {
        BoundarySearchV1::Bisect { failing_bits, passing_bits }
    }
}

/// The search after the oracle answered whether the probed pattern passes.
pub open spec fn search_step(search: BoundarySearchV1, passes: bool) -> BoundarySearchV1 {
    match search {
        BoundarySearchV1::Seed { lower_bits, seed_bits } => if passes {
            BoundarySearchV1::GallopDown { lower_bits, passing_bits: seed_bits, stride: 1 }
        } else {
            BoundarySearchV1::GallopUp { failing_bits: seed_bits, stride: 1 }
        },
        BoundarySearchV1::GallopDown { lower_bits, passing_bits, stride } => {
            let probe = search_probe(search)->Some_0;
            if passes {
                BoundarySearchV1::GallopDown {
                    lower_bits,
                    passing_bits: probe,
                    stride: saturating_double(stride),
                }
            } else {
                settle(probe, passing_bits)
            }
        },
        BoundarySearchV1::GallopUp { failing_bits, stride } => {
            let probe = search_probe(search)->Some_0;
            if passes {
                settle(failing_bits, probe)
            } else {
                BoundarySearchV1::GallopUp { failing_bits: probe, stride: saturating_double(stride) }
            }
        },
        BoundarySearchV1::Bisect { failing_bits, passing_bits } => {
            let probe = search_probe(search)->Some_0;
            if passes {
                settle(failing_bits, probe)
            } else {
                settle(probe, passing_bits)
            }
        },
        BoundarySearchV1::Found { .. } => search,
    }
}

/// The search agrees with an oracle: every pattern it holds as failing
/// fails, every one it holds as passing passes, failing below passing, and
/// the seed lies above the failing lower bound and at most at alpha `1`,
/// which passes.
pub open spec fn search_consistent(search: BoundarySearchV1, oracle: spec_fn(u64) -> bool) -> bool {
    match search {
        BoundarySearchV1::Seed { lower_bits, seed_bits } => {
            &&& lower_bits < seed_bits <= ONE_BITS
            &&& !oracle(lower_bits)
            &&& oracle(ONE_BITS)
        },
        BoundarySearchV1::GallopDown { lower_bits, passing_bits, stride } => {
            &&& lower_bits < passing_bits <= ONE_BITS
            &&& !oracle(lower_bits)
            &&& oracle(passing_bits)
            &&& stride >= 1
        },
        BoundarySearchV1::GallopUp { failing_bits, stride } => {
            &&& failing_bits < ONE_BITS
            &&& !oracle(failing_bits)
            &&& oracle(ONE_BITS)
            &&& stride >= 1
        },
        BoundarySearchV1::Bisect { failing_bits, passing_bits } => {
            &&& failing_bits + 1 < passing_bits
            &&& !oracle(failing_bits)
            &&& oracle(passing_bits)
        },
        BoundarySearchV1::Found { passing_bits } => {
            &&& passing_bits >= 1
            &&& oracle(passing_bits)
            &&& !oracle((passing_bits - 1) as u64)
        },
    }
}

/// Progress measure: the phase, then the width still to search.
pub open spec fn search_measure(search: BoundarySearchV1) -> int {
    match search {
        BoundarySearchV1::Seed { .. } => 3 * 0x1_0000_0000_0000_0000int,
        BoundarySearchV1::GallopDown { lower_bits, passing_bits, .. } => 2 * 0x1_0000_0000_0000_0000
            + passing_bits - lower_bits,
        BoundarySearchV1::GallopUp { failing_bits, .. } => 2 * 0x1_0000_0000_0000_0000 + ONE_BITS
            - failing_bits,
        BoundarySearchV1::Bisect { failing_bits, passing_bits } => 0x1_0000_0000_0000_0000
            + passing_bits - failing_bits,
        BoundarySearchV1::Found { .. } => 0int,
    }
}

/// Each answered probe keeps the search consistent with the oracle and
/// strictly decreases its progress measure, so the search ends, and it ends
/// on a passing pattern whose predecessor fails.
pub proof fn lemma_search_step_is_sound(search: BoundarySearchV1, oracle: spec_fn(u64) -> bool)
    requires
        search_consistent(search, oracle),
        !(search is Found),
    ensures
        search_consistent(search_step(search, oracle(search_probe(search)->Some_0)), oracle),
        0 <= search_measure(search_step(search, oracle(search_probe(search)->Some_0)))
            < search_measure(search),
{
}

/// For an oracle that is monotone in the pattern, the pattern a consistent
/// search finds is the first passing one.
pub proof fn lemma_found_is_first_passing(passing_bits: u64, oracle: spec_fn(u64) -> bool, x: u64)
    requires
        search_consistent(BoundarySearchV1::Found { passing_bits }, oracle),
        forall|a: u64, b: u64| a <= b && #[trigger] oracle(a) ==> #[trigger] oracle(b),
        x < passing_bits,
    ensures
        !oracle(x),
{
    if oracle(x) {
        assert(oracle((passing_bits - 1) as u64));
    }
}

/// `bits` is the seed of the half-step wall of `next_value`: what
/// [`boundary_seed_bits`] returns for these bytes.
pub open spec fn is_boundary_seed(glow: u8, background: u8, next_value: u8, bits: u64) -> bool {
    let num = seed_numerator(background, next_value);
    let den = seed_denominator(glow, background);
    &&& num < 0 ==> bits == 0
    &&& num >= 0 && num >= den ==> bits == ONE_BITS
    &&& 0 <= num < den ==> is_nearest_to_quotient(bits, num, den)
}

/// `bits` clamped into `[low, high]`.
pub open spec fn clamp_bits(bits: u64, low: u64, high: u64) -> u64 {
    if bits < low {
        low
    } else if bits > high {
        high
    } else {
        bits
    }
}

impl BoundarySearchV1 {
    /// The search for the first alpha at which a channel of `glow` over
    /// `background` reaches `next_value`, above the failing pattern
    /// `lower_bits`: it starts by probing the rational seed clamped into
    /// `(lower_bits, 1]`.
    pub fn start(glow: u8, background: u8, next_value: u8, lower_bits: u64) -> (search: Self)
        requires
            lower_bits < ONE_BITS,
        ensures
            exists|seed: u64|
                is_boundary_seed(glow, background, next_value, seed) && search
                    == (BoundarySearchV1::Seed {
                    lower_bits,
                    seed_bits: clamp_bits(seed, (lower_bits + 1) as u64, ONE_BITS),
                }),
    {
        let seed = boundary_seed_bits(glow, background, next_value);
        let low = lower_bits + 1;
        let clamped = if seed < low {
            low
        } else if seed > ONE_BITS {
            ONE_BITS
        } else {
            seed
        };
        let search = BoundarySearchV1::Seed { lower_bits, seed_bits: clamped };
        assert(is_boundary_seed(glow, background, next_value, seed));
        search
    }

    /// The pattern to probe next, or `None` once the first passing pattern
    /// is found.
    pub fn probe_bits(self) -> (probe: Option<u64>)
        ensures
            probe == search_probe(self),
    {
        match self {
            BoundarySearchV1::Seed { seed_bits, .. } => Some(seed_bits),
            BoundarySearchV1::GallopDown { lower_bits, passing_bits, stride } => {
                let down = passing_bits.saturating_sub(stride);
                Some(
                    if down >= lower_bits {
                        down
                    } else {
                        lower_bits
                    },
                )
            },
            BoundarySearchV1::GallopUp { failing_bits, stride } => {
                let up = failing_bits.saturating_add(stride);
                Some(
                    if up <= ONE_BITS {
                        up
                    } else {
                        ONE_BITS
                    },
                )
            },
            BoundarySearchV1::Bisect { failing_bits, passing_bits } => {
                if failing_bits <= passing_bits {
                    Some(failing_bits + (passing_bits - failing_bits) / 2)
                } else {
                    Some(failing_bits)
                }
            },
            BoundarySearchV1::Found { .. } => None,
        }
    }

    /// The search after the oracle answered whether the probed pattern
    /// passes.
    pub fn advance(self, passes: bool) -> (next: Self)
        ensures
            next == search_step(self, passes),
    {
        let probe = match self.probe_bits() {
            Some(bits) => bits,
            None => return self,
        };
        match self {
            BoundarySearchV1::Seed { lower_bits, seed_bits } => if passes {
                BoundarySearchV1::GallopDown { lower_bits, passing_bits: seed_bits, stride: 1 }
            } else {
                BoundarySearchV1::GallopUp { failing_bits: seed_bits, stride: 1 }
            },
            BoundarySearchV1::GallopDown { lower_bits, passing_bits, stride } => if passes {
                BoundarySearchV1::GallopDown {
                    lower_bits,
                    passing_bits: probe,
                    stride: double_stride(stride),
                }
            } else {
                settle_exec(probe, passing_bits)
            },
            BoundarySearchV1::GallopUp { failing_bits, stride } => if passes {
                settle_exec(failing_bits, probe)
            } else {
                BoundarySearchV1::GallopUp { failing_bits: probe, stride: double_stride(stride) }
            },
            BoundarySearchV1::Bisect { failing_bits, passing_bits } => if passes {
                settle_exec(failing_bits, probe)
            } else {
                settle_exec(probe, passing_bits)
            },
            BoundarySearchV1::Found { .. } => self,
        }
    }

    /// The first passing pattern, once found.
    pub fn found(self) -> (found: Option<u64>)
        ensures
            found == (match self {
                BoundarySearchV1::Found { passing_bits } => Some(passing_bits),
                _ => None,
            }),
    {
        match self {
            BoundarySearchV1::Found { passing_bits } => Some(passing_bits),
            _ => None,
        }
    }
}

fn double_stride(stride: u64) -> (doubled: u64)
    ensures
        doubled == saturating_double(stride),
{
    if stride <= u64::MAX / 2 {
        2 * stride
    } else {
        u64::MAX
    }
}

fn settle_exec(failing_bits: u64, passing_bits: u64) -> (search: BoundarySearchV1)
    ensures
        search == settle(failing_bits, passing_bits),
{
    if passing_bits <= failing_bits || passing_bits - failing_bits <= 1 {
        BoundarySearchV1::Found { passing_bits }
    } else {
        BoundarySearchV1::Bisect { failing_bits, passing_bits }
    }
}


/// Proven bound on the number of states of one stream: every transition
/// raises at least one of three bytes, so there are at most `1 + 3·255`.
pub const MAX_QUANTISED_COMPOSITE_STATES: u16 = 766;

/// One reachable sRGB8 state and the alpha interval, by bit patterns, that
/// produces it: `[lower, upper)`, or `[lower, upper]` for the last one.
#[derive(Debug, Clone, Copy, PartialEq, Eq)]
pub struct QuantisedCompositeV1 {
    pub bytes: [u8; 3],
    pub lower_bits: u64,
    pub upper_bits: u64,
    pub upper_inclusive: bool,
}

/// Why the stream stopped.
#[derive(Debug, Clone, Copy, PartialEq, Eq, Structural)]
pub enum QuantisedStreamErrorV1 {
    /// The compositor lowered a channel at a transition.
    ChannelDecreased { channel: usize, from: u8, to: u8 },
    /// A channel did not change at its own first passing boundary.
    ChannelStalled { channel: usize },
    /// More states than the proven bound were emitted.
    StateBoundExceeded,
}

/// What the stream does next.
#[derive(Debug, Clone, Copy, PartialEq, Eq, Structural)]
pub enum QuantisedStreamPlanV1 {
    /// Every state was emitted.
    Finished,
    /// No channel has a boundary left: the last, closed interval follows.
    Final,
    /// The next transition happens at the lowest pending boundary.
    Transition { upper_bits: u64 },
}

/// The lowest of the pending boundaries.
pub open spec fn lowest_boundary(b: Seq<Option<u64>>) -> Option<u64> {
    let m01 = match (b[0], b[1]) {
        (Some(x), Some(y)) => Some(if x <= y { x } else { y }),
        (Some(x), None) => Some(x),
        (None, y) => y,
    };
    match (m01, b[2]) {
        (Some(x), Some(y)) => Some(if x <= y { x } else { y }),
        (Some(x), None) => Some(x),
        (None, y) => y,
    }
}

/// First channel, from `c` on, that breaks a transition to `composite` at
/// `upper`: it went down, or it stayed although `upper` is its own boundary.
pub open spec fn transition_error(
    bytes: Seq<u8>,
    composite: Seq<u8>,
    boundaries: Seq<Option<u64>>,
    upper: u64,
    c: int,
) -> Option<QuantisedStreamErrorV1>
    decreases 3 - c,
{
    if c < 0 || c >= 3 {
        None
    } else if composite[c] < bytes[c] {
        Some(
            QuantisedStreamErrorV1::ChannelDecreased {
                channel: c as usize,
                from: bytes[c],
                to: composite[c],
            },
        )
    } else if composite[c] == bytes[c] && boundaries[c] == Some(upper) {
        Some(QuantisedStreamErrorV1::ChannelStalled { channel: c as usize })
    } else {
        transition_error(bytes, composite, boundaries, upper, c + 1)
    }
}

/// Sum of the three bytes of a state.
pub open spec fn byte_sum(bytes: Seq<u8>) -> int {
    bytes[0] + bytes[1] + bytes[2]
}

/// Bookkeeping of the stream of reachable states of one glow over one
/// background: the current bytes, the final bytes at alpha `1`, each
/// channel's pending first passing boundary, the lower end of the current
/// interval and the number of emitted states.
#[derive(Debug, Clone, Copy, PartialEq, Eq)]
pub struct QuantisedStreamV1 {
    bytes: [u8; 3],
    final_bytes: [u8; 3],
    next_boundaries: [Option<u64>; 3],
    lower_bits: u64,
    emitted_states: u16,
    finished: bool,
}

impl QuantisedStreamV1 {
    /// Current bytes.
    pub closed spec fn spec_bytes(self) -> Seq<u8> {
        self.bytes@
    }

    /// Bytes at alpha `1`.
    pub closed spec fn spec_final_bytes(self) -> Seq<u8> {
        self.final_bytes@
    }

    /// Pending boundary of each channel.
    pub closed spec fn spec_boundaries(self) -> Seq<Option<u64>> {
        self.next_boundaries@
    }

    /// Lower end of the current interval.
    pub closed spec fn spec_lower_bits(self) -> u64 {
        self.lower_bits
    }

    /// Number of emitted states.
    pub closed spec fn spec_emitted(self) -> u16 {
        self.emitted_states
    }

    /// Whether the last state was emitted.
    pub closed spec fn spec_finished(self) -> bool {
        self.finished
    }

    /// The stream before its first state: the background bytes at alpha
    /// `0`, no boundary yet, nothing emitted.
    pub fn new(background: [u8; 3], final_bytes: [u8; 3]) -> (stream: Self)
        ensures
            stream.spec_bytes() == background@,
            stream.spec_final_bytes() == final_bytes@,
            stream.spec_boundaries() == seq![None::<u64>, None::<u64>, None::<u64>],
            stream.spec_lower_bits() == 0,
            stream.spec_emitted() == 0,
            !stream.spec_finished(),
    {
        let stream = QuantisedStreamV1 {
            bytes: background,
            final_bytes,
            next_boundaries: [None, None, None],
            lower_bits: 0,
            emitted_states: 0,
            finished: false,
        };
        assert(stream.next_boundaries@ =~= seq![None::<u64>, None::<u64>, None::<u64>]);
        stream
    }

    /// Lower end of the current interval.
    pub fn lower_bits(&self) -> (bits: u64)
        ensures
            bits == self.spec_lower_bits(),
    {
        self.lower_bits
    }

    /// The next byte a channel must reach, when it still has one to reach
    /// before its byte at alpha `1`.
    pub fn boundary_target(&self, channel: usize) -> (target: Option<u8>)
        requires
            channel < 3,
        ensures
            target == (if self.spec_bytes()[channel as int] < 255
                && self.spec_final_bytes()[channel as int] >= self.spec_bytes()[channel as int] + 1 {
                Some((self.spec_bytes()[channel as int] + 1) as u8)
            } else {
                None::<u8>
            }),
    {
        let current = self.bytes[channel];
        if current == 255 {
            return None;
        }
        let next_value = current + 1;
        if self.final_bytes[channel] < next_value {
            None
        } else {
            Some(next_value)
        }
    }

    /// Records a channel's first passing boundary, or that it has none.
    pub fn set_boundary(&mut self, channel: usize, boundary: Option<u64>)
        requires
            channel < 3,
        ensures
            final(self).spec_boundaries() == old(self).spec_boundaries().update(
                channel as int,
                boundary,
            ),
            final(self).spec_bytes() == old(self).spec_bytes(),
            final(self).spec_final_bytes() == old(self).spec_final_bytes(),
            final(self).spec_lower_bits() == old(self).spec_lower_bits(),
            final(self).spec_emitted() == old(self).spec_emitted(),
            final(self).spec_finished() == old(self).spec_finished(),
    {
        self.next_boundaries[channel] = boundary;
    }

    /// What the stream does next: nothing once finished, the last interval
    /// when no boundary is pending, else a transition at the lowest one.
    pub fn plan(&self) -> (plan: QuantisedStreamPlanV1)
        ensures
            plan == (if self.spec_finished() {
                QuantisedStreamPlanV1::Finished
            } else {
                match lowest_boundary(self.spec_boundaries()) {
                    None => QuantisedStreamPlanV1::Final,
                    Some(upper_bits) => QuantisedStreamPlanV1::Transition { upper_bits },
                }
            }),
    {
        if self.finished {
            return QuantisedStreamPlanV1::Finished;
        }
        let b0 = self.next_boundaries[0];
        let b1 = self.next_boundaries[1];
        let b2 = self.next_boundaries[2];
        let m01 = match (b0, b1) {
            (Some(x), Some(y)) => Some(
                if x <= y {
                    x
                } else {
                    y
                },
            ),
            (Some(x), None) => Some(x),
            (None, y) => y,
        };
        let lowest = match (m01, b2) {
            (Some(x), Some(y)) => Some(
                if x <= y {
                    x
                } else {
                    y
                },
            ),
            (Some(x), None) => Some(x),
            (None, y) => y,
        };
        match lowest {
            None => QuantisedStreamPlanV1::Final,
            Some(upper_bits) => QuantisedStreamPlanV1::Transition { upper_bits },
        }
    }

    fn count_emission(&mut self) -> (counted: Result<(), QuantisedStreamErrorV1>)
        ensures
            old(self).spec_emitted() >= MAX_QUANTISED_COMPOSITE_STATES ==> counted == Err::<
                (),
                QuantisedStreamErrorV1,
            >(QuantisedStreamErrorV1::StateBoundExceeded),
            old(self).spec_emitted() < MAX_QUANTISED_COMPOSITE_STATES ==> (counted is Ok
                && final(self).spec_emitted() == old(self).spec_emitted() + 1),
            final(self).spec_bytes() == old(self).spec_bytes(),
            final(self).spec_final_bytes() == old(self).spec_final_bytes(),
            final(self).spec_boundaries() == old(self).spec_boundaries(),
            final(self).spec_lower_bits() == old(self).spec_lower_bits(),
            final(self).spec_finished() == old(self).spec_finished(),
    {
        if self.emitted_states >= MAX_QUANTISED_COMPOSITE_STATES {
            return Err(QuantisedStreamErrorV1::StateBoundExceeded);
        }
        self.emitted_states = self.emitted_states + 1;
        Ok(())
    }

    /// Emits the last, closed interval `[lower, 1]` of the current bytes and
    /// finishes the stream, unless the state bound is already reached.
    pub fn emit_final(&mut self) -> (state: Result<QuantisedCompositeV1, QuantisedStreamErrorV1>)
        ensures
            final(self).spec_finished(),
            final(self).spec_bytes() == old(self).spec_bytes(),
            final(self).spec_final_bytes() == old(self).spec_final_bytes(),
            final(self).spec_boundaries() == old(self).spec_boundaries(),
            final(self).spec_lower_bits() == old(self).spec_lower_bits(),
            old(self).spec_emitted() >= MAX_QUANTISED_COMPOSITE_STATES ==> state == Err::<
                QuantisedCompositeV1,
                QuantisedStreamErrorV1,
            >(QuantisedStreamErrorV1::StateBoundExceeded),
            old(self).spec_emitted() < MAX_QUANTISED_COMPOSITE_STATES ==> (state matches Ok(q)
                && q.bytes@ == old(self).spec_bytes() && q.lower_bits == old(
                self,
            ).spec_lower_bits() && q.upper_bits == ONE_BITS && q.upper_inclusive
                && final(self).spec_emitted() == old(self).spec_emitted() + 1),
    {
        self.finished = true;
        let state = QuantisedCompositeV1 {
            bytes: self.bytes,
            lower_bits: self.lower_bits,
            upper_bits: ONE_BITS,
            upper_inclusive: true,
        };
        match self.count_emission() {
            Ok(()) => Ok(state),
            Err(e) => Err(e),
        }
    }

    /// Emits the interval `[lower, upper)` of the current bytes and moves to
    /// `composite`, the bytes the compositor gives at `upper`. A channel
    /// that went down, or that stayed although `upper` is its own boundary,
    /// stops the stream (first such channel in `R, G, B` order). On success
    /// it reports which channels rose: their boundaries must be searched
    /// again from the new lower end `upper`.
    pub fn commit_transition(&mut self, upper_bits: u64, composite: [u8; 3]) -> (step: Result<
        (QuantisedCompositeV1, [bool; 3]),
        QuantisedStreamErrorV1,
    >)
        ensures
            match transition_error(
                old(self).spec_bytes(),
                composite@,
                old(self).spec_boundaries(),
                upper_bits,
                0,
            ) {
                Some(e) => step == Err::<(QuantisedCompositeV1, [bool; 3]), QuantisedStreamErrorV1>(
                    e,
                ),
                None => if old(self).spec_emitted() >= MAX_QUANTISED_COMPOSITE_STATES {
                    step == Err::<(QuantisedCompositeV1, [bool; 3]), QuantisedStreamErrorV1>(
                        QuantisedStreamErrorV1::StateBoundExceeded,
                    )
                } else {
                    step matches Ok((q, rose)) && {
                        &&& q.bytes@ == old(self).spec_bytes()
                        &&& q.lower_bits == old(self).spec_lower_bits()
                        &&& q.upper_bits == upper_bits
                        &&& !q.upper_inclusive
                        &&& final(self).spec_bytes() == composite@
                        &&& final(self).spec_lower_bits() == upper_bits
                        &&& final(self).spec_emitted() == old(self).spec_emitted() + 1
                        &&& final(self).spec_boundaries() == old(self).spec_boundaries()
                        &&& final(self).spec_final_bytes() == old(self).spec_final_bytes()
                        &&& final(self).spec_finished() == old(self).spec_finished()
                        &&& forall|c: int|
                            0 <= c < 3 ==> (rose@[c] <==> composite@[c] > old(self).spec_bytes()[c])
                    }
                },
            },
    {
        let previous = self.bytes;
        let mut rose = [false; 3];
        let mut c: usize = 0;
        while c < 3
            invariant
                0 <= c <= 3,
                previous@ == self.bytes@,
                rose@.len() == 3,
                transition_error(previous@, composite@, self.next_boundaries@, upper_bits, 0)
                    == transition_error(previous@, composite@, self.next_boundaries@, upper_bits, c as int),
                forall|k: int| 0 <= k < c ==> (rose@[k] <==> composite@[k] > previous@[k]),
                forall|k: int| c <= k < 3 ==> !rose@[k],
                *self == *old(self),
            decreases 3 - c,
        {
            if composite[c] < previous[c] {
                return Err(
                    QuantisedStreamErrorV1::ChannelDecreased {
                        channel: c,
                        from: previous[c],
                        to: composite[c],
                    },
                );
            }
            if composite[c] > previous[c] {
                rose[c] = true;
            } else if self.next_boundaries[c] == Some(upper_bits) {
                return Err(QuantisedStreamErrorV1::ChannelStalled { channel: c });
            }
            c += 1;
        }
        let state = QuantisedCompositeV1 {
            bytes: previous,
            lower_bits: self.lower_bits,
            upper_bits,
            upper_inclusive: false,
        };
        self.bytes = composite;
        self.lower_bits = upper_bits;
        match self.count_emission() {
            Ok(()) => Ok((state, rose)),
            Err(e) => Err(e),
        }
    }
}

proof fn lemma_no_transition_error(
    bytes: Seq<u8>,
    composite: Seq<u8>,
    boundaries: Seq<Option<u64>>,
    upper: u64,
    c: int,
)
    requires
        0 <= c <= 3,
        transition_error(bytes, composite, boundaries, upper, c) is None,
    ensures
        forall|k: int|
            c <= k < 3 ==> composite[k] >= bytes[k] && (boundaries[k] == Some(upper)
                ==> composite[k] > bytes[k]),
    decreases 3 - c,
{
    if c < 3 {
        lemma_no_transition_error(bytes, composite, boundaries, upper, c + 1);
    }
}

/// A transition that passes its checks at the lowest pending boundary never
/// lowers a byte and raises at least one, so the byte sum grows by at least
/// one per transition and a stream has at most `1 + 3·255` states.
pub proof fn lemma_transition_raises_the_byte_sum(
    bytes: Seq<u8>,
    composite: Seq<u8>,
    boundaries: Seq<Option<u64>>,
)
    requires
        bytes.len() == 3,
        composite.len() == 3,
        boundaries.len() == 3,
        lowest_boundary(boundaries) is Some,
        transition_error(bytes, composite, boundaries, lowest_boundary(boundaries)->Some_0, 0) is None,
    ensures
        forall|k: int| 0 <= k < 3 ==> composite[k] >= bytes[k],
        byte_sum(composite) > byte_sum(bytes),
{
    let upper = lowest_boundary(boundaries)->Some_0;
    lemma_no_transition_error(bytes, composite, boundaries, upper, 0);
    assert(boundaries[0] == Some(upper) || boundaries[1] == Some(upper) || boundaries[2] == Some(upper));
}

/// `after` rises from `before`: no byte goes down and the byte sum grows.
pub open spec fn rises(before: Seq<u8>, after: Seq<u8>) -> bool {
    &&& forall|k: int| 0 <= k < 3 ==> #[trigger] after[k] >= before[k]
    &&& byte_sum(after) > byte_sum(before)
}

/// `history` is what a run of the stream from `background` has emitted so
/// far, ending in the stream's current bookkeeping: the first state starts
/// at the background and alpha `0`; consecutive states are contiguous,
/// half-open, and rise; the current bytes rise from the last emitted state
/// and start where it ends; a finished stream ended with the closed interval
/// up to alpha `1` of its bytes; the counter counts the history.
pub open spec fn history_consistent(
    stream: QuantisedStreamV1,
    background: Seq<u8>,
    history: Seq<QuantisedCompositeV1>,
) -> bool {
    &&& stream.spec_emitted() == history.len()
    &&& history.len() == 0 ==> stream.spec_bytes() == background && stream.spec_lower_bits() == 0
        && !stream.spec_finished()
    &&& history.len() > 0 ==> history[0].bytes@ == background && history[0].lower_bits == 0
    &&& forall|i: int|
        0 <= i < history.len() - 1 ==> #[trigger] history[i].upper_bits == history[i + 1].lower_bits
            && !history[i].upper_inclusive && rises(history[i].bytes@, history[i + 1].bytes@)
    &&& history.len() > 0 && !stream.spec_finished() ==> !history.last().upper_inclusive
        && history.last().upper_bits == stream.spec_lower_bits() && rises(
        history.last().bytes@,
        stream.spec_bytes(),
    )
    &&& stream.spec_finished() ==> history.len() > 0 && history.last().upper_inclusive
        && history.last().upper_bits == ONE_BITS && history.last().bytes@ == stream.spec_bytes()
}

/// A new stream has emitted nothing.
pub proof fn lemma_new_stream_has_empty_history(stream: QuantisedStreamV1, background: Seq<u8>)
    requires
        stream.spec_bytes() == background,
        stream.spec_lower_bits() == 0,
        stream.spec_emitted() == 0,
        !stream.spec_finished(),
    ensures
        history_consistent(stream, background, Seq::empty()),
{
}

/// Recording a boundary leaves the history as it is.
pub proof fn lemma_set_boundary_keeps_history(
    before: QuantisedStreamV1,
    after: QuantisedStreamV1,
    background: Seq<u8>,
    history: Seq<QuantisedCompositeV1>,
)
    requires
        history_consistent(before, background, history),
        after.spec_bytes() == before.spec_bytes(),
        after.spec_lower_bits() == before.spec_lower_bits(),
        after.spec_emitted() == before.spec_emitted(),
        after.spec_finished() == before.spec_finished(),
    ensures
        history_consistent(after, background, history),
{
}

/// A successful transition at the lowest pending boundary extends the
/// history by the interval it emitted.
pub proof fn lemma_transition_extends_history(
    before: QuantisedStreamV1,
    after: QuantisedStreamV1,
    background: Seq<u8>,
    history: Seq<QuantisedCompositeV1>,
    composite: Seq<u8>,
    emitted: QuantisedCompositeV1,
)
    requires
        history_consistent(before, background, history),
        !before.spec_finished(),
        lowest_boundary(before.spec_boundaries()) is Some,
        composite.len() == 3,
        transition_error(
            before.spec_bytes(),
            composite,
            before.spec_boundaries(),
            lowest_boundary(before.spec_boundaries())->Some_0,
            0,
        ) is None,
        emitted.bytes@ == before.spec_bytes(),
        emitted.lower_bits == before.spec_lower_bits(),
        emitted.upper_bits == lowest_boundary(before.spec_boundaries())->Some_0,
        !emitted.upper_inclusive,
        after.spec_bytes() == composite,
        after.spec_lower_bits() == emitted.upper_bits,
        after.spec_emitted() == before.spec_emitted() + 1,
        after.spec_finished() == before.spec_finished(),
    ensures
        history_consistent(after, background, history.push(emitted)),
{
    lemma_transition_raises_the_byte_sum(before.spec_bytes(), composite, before.spec_boundaries());
    let h = history.push(emitted);
    assert forall|i: int| 0 <= i < h.len() - 1 implies #[trigger] h[i].upper_bits == h[i + 1].lower_bits
        && !h[i].upper_inclusive && rises(h[i].bytes@, h[i + 1].bytes@) by {
        if i < history.len() - 1 {
            assert(h[i] == history[i] && h[i + 1] == history[i + 1]);
        } else {
            assert(i == history.len() - 1);
            assert(h[i] == history.last() && h[i + 1] == emitted);
        }
    }
}

/// Emitting the final interval completes the history.
pub proof fn lemma_final_completes_history(
    before: QuantisedStreamV1,
    after: QuantisedStreamV1,
    background: Seq<u8>,
    history: Seq<QuantisedCompositeV1>,
    emitted: QuantisedCompositeV1,
)
    requires
        history_consistent(before, background, history),
        !before.spec_finished(),
        emitted.bytes@ == before.spec_bytes(),
        emitted.lower_bits == before.spec_lower_bits(),
        emitted.upper_bits == ONE_BITS,
        emitted.upper_inclusive,
        after.spec_bytes() == before.spec_bytes(),
        after.spec_lower_bits() == before.spec_lower_bits(),
        after.spec_emitted() == before.spec_emitted() + 1,
        after.spec_finished(),
    ensures
        history_consistent(after, background, history.push(emitted)),
{
    let h = history.push(emitted);
    assert forall|i: int| 0 <= i < h.len() - 1 implies #[trigger] h[i].upper_bits == h[i + 1].lower_bits
        && !h[i].upper_inclusive && rises(h[i].bytes@, h[i + 1].bytes@) by {
        if i < history.len() - 1 {
            assert(h[i] == history[i] && h[i + 1] == history[i + 1]);
        } else {
            assert(h[i] == history.last() && h[i + 1] == emitted);
        }
    }
}

proof fn lemma_history_sum_grows(
    background: Seq<u8>,
    history: Seq<QuantisedCompositeV1>,
    stream: QuantisedStreamV1,
    i: int,
)
    requires
        history_consistent(stream, background, history),
        0 <= i < history.len(),
    ensures
        byte_sum(history[i].bytes@) >= byte_sum(background) + i,
    decreases i,
{
    if i > 0 {
        lemma_history_sum_grows(background, history, stream, i - 1);
        assert(history[i - 1].upper_bits == history[i].lower_bits);
    }
}

/// Every run emits at most `1 + 3·255` states: each state's bytes rise
/// from the previous one's, and three bytes can rise at most `3·255` times.
pub proof fn lemma_history_is_bounded(
    stream: QuantisedStreamV1,
    background: Seq<u8>,
    history: Seq<QuantisedCompositeV1>,
)
    requires
        history_consistent(stream, background, history),
        background.len() == 3,
    ensures
        history.len() <= MAX_QUANTISED_COMPOSITE_STATES,
{
    if history.len() > 0 {
        let n = history.len() - 1;
        lemma_history_sum_grows(background, history, stream, n);
        let b = history[n].bytes@;
        assert(byte_sum(b) <= 765);
        assert(byte_sum(background) >= 0);
    }
}
} // verus!
