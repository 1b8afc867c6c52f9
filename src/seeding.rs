//! Random number generators of the optimisation phases: one master generator,
//! from which each phase draws the seed of its own.
use vstd::prelude::*;
use rand_xoshiro::rand_core::{RngCore, SeedableRng};
use rand_xoshiro::Xoshiro256PlusPlus;

verus! {

#[verifier::external_type_specification]
#[verifier::external_body]
pub struct ExXoshiro256PlusPlus(Xoshiro256PlusPlus);

/// The generator that `seed_from_u64` builds from a seed.
pub uninterp spec fn seeded_with(seed: u64) -> Xoshiro256PlusPlus;

/// The value `next_u64` returns from a generator in a given state.
pub uninterp spec fn first_draw(g: Xoshiro256PlusPlus) -> u64;

/// The state a generator is left in after one `next_u64`.
pub uninterp spec fn after_draw(g: Xoshiro256PlusPlus) -> Xoshiro256PlusPlus;

/// Relies on `SeedableRng::seed_from_u64` of rand_xoshiro's `Xoshiro256PlusPlus`:
/// the state is expanded from the seed alone (by SplitMix64).
#[verifier::external_body]
fn seeded(seed: u64) -> (r: Xoshiro256PlusPlus)
    ensures
        r == seeded_with(seed),
{
    Xoshiro256PlusPlus::seed_from_u64(seed)
}

/// Relies on `RngCore::next_u64` of rand_xoshiro's `Xoshiro256PlusPlus`: the
/// value and the next state are fixed functions of the current state.
#[verifier::external_body]
fn draw_u64(rng: &mut Xoshiro256PlusPlus) -> (r: u64)
    ensures
        r == first_draw(*old(rng)),
        *final(rng) == after_draw(*old(rng)),
{
    rng.next_u64()
}

/// The master generator of a run.
pub fn master_rng(seed: u64) -> (r: Xoshiro256PlusPlus)
    ensures
        r == seeded_with(seed),
{
    seeded(seed)
}

/// A fresh generator seeded by the next value of `master`.
pub fn next_rng(master: &mut Xoshiro256PlusPlus) -> (r: Xoshiro256PlusPlus)
    ensures
        r == seeded_with(first_draw(*old(master))),
        *final(master) == after_draw(*old(master)),
{
    let seed = draw_u64(master);
    seeded(seed)
}

/// The generators of the phases of one run.
pub struct PhaseRngs {
    /// Only when the starting solution is built rather than restored.
    pub construction: Option<Xoshiro256PlusPlus>,
    pub exploration: Xoshiro256PlusPlus,
    pub compression: Xoshiro256PlusPlus,
}

/// The master's state once the construction draw (if any) is done.
pub open spec fn after_construction(m0: Xoshiro256PlusPlus, warm_start: bool) -> Xoshiro256PlusPlus {
    if warm_start {
        m0
    } else {
        after_draw(m0)
    }
}

/// Draws the phases' generators from `master` in the order the phases run:
/// construction first (skipped on a warm start), then exploration, then
/// compression; each is seeded by one successive draw of the master.
pub fn derive_phase_rngs(master: &mut Xoshiro256PlusPlus, warm_start: bool) -> (r: PhaseRngs)
    ensures
        r.construction == (if warm_start {
            None
        } else {
            Some(seeded_with(first_draw(*old(master))))
        }),
        r.exploration == seeded_with(first_draw(after_construction(*old(master), warm_start))),
        r.compression == seeded_with(
            first_draw(after_draw(after_construction(*old(master), warm_start))),
        ),
        *final(master) == after_draw(after_draw(after_construction(*old(master), warm_start))),
{
    let construction = if warm_start {
        None
    } else {
        Some(next_rng(master))
    };
    let exploration = next_rng(master);
    let compression = next_rng(master);
    PhaseRngs { construction, exploration, compression }
}

} // verus!
