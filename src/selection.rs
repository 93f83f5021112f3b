//! Which stream each operation of a task targets.

use vstd::prelude::*;

use rand::rngs::StdRng;
use rand::{Rng, SeedableRng};

verus! {

/// `rand::rngs::StdRng`, the seedable generator behind stream selection;
/// opaque to Verus.
#[verifier::external_type_specification]
#[verifier::external_body]
pub struct ExStdRng(StdRng);

/// Relies on `SeedableRng::seed_from_u64` for `StdRng`: a generator whose
/// draws follow from the seed.
#[verifier::external_body]
fn seeded_rng(seed: u64) -> (r: StdRng) {
    StdRng::seed_from_u64(seed)
}

/// Relies on `Rng::gen_ratio`: `true` with probability
/// `numerator / denominator`; it panics unless `0 < denominator` and
/// `numerator <= denominator`, and never returns `true` for a zero numerator.
#[verifier::external_body]
fn draw_ratio(rng: &mut StdRng, numerator: u32, denominator: u32) -> (r: bool)
    requires
        0 < denominator,
        numerator <= denominator,
    ensures
        numerator == 0 ==> !r,
        numerator == denominator ==> r,
{
    rng.gen_ratio(numerator, denominator)
}

/// Relies on `Rng::gen_range` over `0..bound`: a value in the range; it
/// panics on an empty range.
#[verifier::external_body]
fn draw_below(rng: &mut StdRng, bound: u64) -> (r: u64)
    requires
        bound > 0,
    ensures
        r < bound,
{
    rng.gen_range(0..bound)
}

/// How many of the first streams form the hot set at most.
pub const HOT_SET_MAX: u64 = 100;

/// The odds, one in `HOT_ODDS`, that a heavy-tailed pick goes to the hot set.
pub const HOT_ODDS: u32 = 5;

/// Whether `s` names the heavy-tailed distribution: `"zipf"` in any case.
pub open spec fn names_zipf(s: Seq<char>) -> bool {
    &&& s.len() == 4
    &&& (s[0] == 'z' || s[0] == 'Z')
    &&& (s[1] == 'i' || s[1] == 'I')
    &&& (s[2] == 'p' || s[2] == 'P')
    &&& (s[3] == 'f' || s[3] == 'F')
}

/// Whether `s` names the heavy-tailed distribution: `"zipf"` in any case.
pub fn is_zipf(s: &str) -> (r: bool)
    ensures
        r == names_zipf(s@),
{
    if s.unicode_len() != 4 {
        return false;
    }
    let a = s.get_char(0);
    let b = s.get_char(1);
    let c = s.get_char(2);
    let d = s.get_char(3);
    (a == 'z' || a == 'Z') && (b == 'i' || b == 'I') && (c == 'p' || c == 'P') && (d == 'f'
        || d == 'F')
}

/// The hot set of `unique_streams` streams: the first `HOT_SET_MAX`, or all.
pub open spec fn hot_set(unique_streams: u64) -> u64 {
    if unique_streams < HOT_SET_MAX {
        unique_streams
    } else {
        HOT_SET_MAX
    }
}

/// The range a pick draws from: the hot set where the pick is heavy-tailed
/// and went hot, else all streams.
pub open spec fn pick_range(heavy_tail: bool, went_hot: bool, unique_streams: u64) -> u64 {
    if heavy_tail && went_hot {
        hot_set(unique_streams)
    } else {
        unique_streams
    }
}

/// Picks stream indices for one task: uniformly over all streams, or, for
/// the heavy-tailed distribution, from the hot set one time in `HOT_ODDS`
/// and uniformly over all streams otherwise.
pub struct StreamSelector {
    rng: StdRng,
    heavy_tail: bool,
    unique_streams: u64,
    seed: Ghost<u64>,
}

/// The seed of task `task_index` in a run seeded with `seed`: their sum,
/// wrapping.
pub open spec fn task_seed(seed: u64, task_index: u64) -> u64 {
    ((seed + task_index) % 0x1_0000_0000_0000_0000) as u64
}

impl StreamSelector {
    pub closed spec fn spec_unique_streams(&self) -> u64 {
        self.unique_streams
    }

    pub closed spec fn spec_heavy_tail(&self) -> bool {
        self.heavy_tail
    }

    /// The seed that the generator was made from.
    pub closed spec fn spec_seed(&self) -> u64 {
        self.seed@
    }

    /// The selector of task `task_index`, seeded with the run's seed plus the
    /// task index (wrapping).
    pub fn new(heavy_tail: bool, unique_streams: u64, seed: u64, task_index: u64) -> (r: Self)
        requires
            unique_streams > 0,
        ensures
            r.spec_unique_streams() == unique_streams,
            r.spec_heavy_tail() == heavy_tail,
            r.spec_seed() == task_seed(seed, task_index),
    {
        let s = seed.wrapping_add(task_index);
        StreamSelector { rng: seeded_rng(s), heavy_tail, unique_streams, seed: Ghost(s) }
    }

    /// The range that a pick draws from, given whether it went to the hot set.
    pub fn range_for(&self, went_hot: bool) -> (r: u64)
        requires
            self.spec_unique_streams() > 0,
        ensures
            r == pick_range(self.spec_heavy_tail(), went_hot, self.spec_unique_streams()),
            r > 0,
    {
        if self.heavy_tail && went_hot {
            if self.unique_streams < HOT_SET_MAX {
                self.unique_streams
            } else {
                HOT_SET_MAX
            }
        } else {
            self.unique_streams
        }
    }

    /// The next stream index. For the heavy-tailed distribution a first draw
    /// decides whether the pick goes to the hot set; a second draw picks
    /// uniformly in the range that `range_for` gives for it.
    pub fn next_index(&mut self) -> (r: u64)
        requires
            old(self).spec_unique_streams() > 0,
        ensures
            final(self).spec_unique_streams() == old(self).spec_unique_streams(),
            final(self).spec_heavy_tail() == old(self).spec_heavy_tail(),
            final(self).spec_seed() == old(self).spec_seed(),
            r < old(self).spec_unique_streams(),
    {
        let went_hot = if self.heavy_tail {
            draw_ratio(&mut self.rng, 1, HOT_ODDS)
        } else {
            false
        };
        let bound = self.range_for(went_hot);
        draw_below(&mut self.rng, bound)
    }
}

} // verus!
