//! Colours that stand out against a reference colour.
//!
//! A colour is known here by its hue, in hundredths of a degree on the hue
//! circle (`0 <= hue < FULL_TURN`); saturation and lightness are fixed at
//! full and half, which gives the brightest colour of each hue.
use vstd::prelude::*;

use crate::chance::random_up_to;

verus! {

/// The whole hue circle, in hundredths of a degree.
pub const FULL_TURN: u32 = 36000;

/// The least hue distance, in hundredths of a degree, between a generated
/// colour and its reference.
pub const HUE_THRESHOLD: u32 = 4000;

/// How many hues are drawn before the opposite hue is taken instead.
pub const MAX_ATTEMPTS: u32 = 1000;

/// The hue of white, the reference for the first background.
pub const WHITE_HUE: u32 = 0;

/// The distance of two hues around the circle.
pub open spec fn hue_distance(a: int, b: int) -> int {
    let d = if a >= b { a - b } else { b - a };
    if d <= FULL_TURN / 2 {
        d
    } else {
        FULL_TURN - d
    }
}

pub open spec fn is_hue(h: int) -> bool {
    0 <= h < FULL_TURN
}

/// Whether two hues lie far enough apart to tell the colours apart.
pub open spec fn contrasting(a: int, b: int) -> bool {
    hue_distance(a, b) >= HUE_THRESHOLD
}

/// The distance of two hues around the circle.
pub fn circular_distance(a: u32, b: u32) -> (r: u32)
    requires
        is_hue(a as int),
        is_hue(b as int),
    ensures
        r == hue_distance(a as int, b as int),
        r <= FULL_TURN / 2,
{
    let d = if a >= b { a - b } else { b - a };
    if d <= FULL_TURN / 2 {
        d
    } else {
        FULL_TURN - d
    }
}

/// Whether `candidate` stands out from `reference`.
pub fn contrasts(candidate: u32, reference: u32) -> (r: bool)
    requires
        is_hue(candidate as int),
        is_hue(reference as int),
    ensures
        r == contrasting(candidate as int, reference as int),
{
    circular_distance(candidate, reference) >= HUE_THRESHOLD
}

/// The hue across the circle from `h`.
pub fn opposite_hue(h: u32) -> (r: u32)
    requires
        is_hue(h as int),
    ensures
        r == (h + FULL_TURN / 2) % FULL_TURN as int,
        is_hue(r as int),
        hue_distance(r as int, h as int) == FULL_TURN / 2,
{
    (h + FULL_TURN / 2) % FULL_TURN
}

/// The first of `draws` that stands out from `reference`, or the hue
/// opposite `reference` when none does.
pub open spec fn first_contrasting_hue(draws: Seq<u32>, reference: int) -> int
    decreases draws.len(),
{
    if draws.len() == 0 {
        (reference + FULL_TURN / 2) % FULL_TURN as int
    } else if contrasting(draws[0] as int, reference) {
        draws[0] as int
    } else {
        first_contrasting_hue(draws.drop_first(), reference)
    }
}

proof fn lemma_first_contrasting_is_hue(draws: Seq<u32>, reference: int)
    requires
        is_hue(reference),
        forall|i: int| 0 <= i < draws.len() ==> is_hue(#[trigger] draws[i] as int),
    ensures
        is_hue(first_contrasting_hue(draws, reference)),
        contrasting(first_contrasting_hue(draws, reference), reference),
    decreases draws.len(),
{
    if draws.len() > 0 && !contrasting(draws[0] as int, reference) {
        let rest = draws.drop_first();
        assert forall|i: int| 0 <= i < rest.len() implies is_hue(#[trigger] rest[i] as int) by {
            assert(rest[i] == draws[i + 1]);
        }
        lemma_first_contrasting_is_hue(rest, reference);
    }
}

/// Rejection sampling over hues already drawn: the first of `draws` that
/// stands out from `reference_hue`, or the opposite hue when none does.
pub fn first_contrasting(draws: &Vec<u32>, reference_hue: u32) -> (r: u32)
    requires
        is_hue(reference_hue as int),
        forall|i: int| 0 <= i < draws@.len() ==> is_hue(#[trigger] draws@[i] as int),
    ensures
        r == first_contrasting_hue(draws@, reference_hue as int),
        is_hue(r as int),
        contrasting(r as int, reference_hue as int),
{
    proof {
        lemma_first_contrasting_is_hue(draws@, reference_hue as int);
    }
    assert(draws@.subrange(0, draws@.len() as int) =~= draws@);
    let mut i: usize = 0;
    while i < draws.len()
        invariant
            i <= draws@.len(),
            is_hue(reference_hue as int),
            forall|j: int| 0 <= j < draws@.len() ==> is_hue(#[trigger] draws@[j] as int),
            first_contrasting_hue(draws@.subrange(i as int, draws@.len() as int), reference_hue as int)
                == first_contrasting_hue(draws@, reference_hue as int),
        decreases draws@.len() - i,
    {
        let candidate = draws[i];
        let ghost rest = draws@.subrange(i as int, draws@.len() as int);
        assert(rest[0] == candidate);
        if contrasts(candidate, reference_hue) {
            return candidate;
        }
        assert(rest.drop_first() =~= draws@.subrange(i + 1, draws@.len() as int));
        i = i + 1;
    }
    assert(draws@.subrange(i as int, draws@.len() as int).len() == 0);
    opposite_hue(reference_hue)
}

/// A random hue that stands out from `reference_hue`.
///
/// `MAX_ATTEMPTS` hues are drawn uniformly; the first that lies far enough
/// from the reference is taken, and the opposite hue when none does.
pub fn random_colour(reference_hue: u32) -> (r: u32)
    requires
        is_hue(reference_hue as int),
    ensures
        is_hue(r as int),
        contrasting(r as int, reference_hue as int),
{
    let mut draws: Vec<u32> = Vec::new();
    while draws.len() < MAX_ATTEMPTS as usize
        invariant
            draws@.len() <= MAX_ATTEMPTS,
            forall|j: int| 0 <= j < draws@.len() ==> is_hue(#[trigger] draws@[j] as int),
        decreases MAX_ATTEMPTS - draws@.len(),
    {
        let hue = random_up_to(FULL_TURN - 1);
        draws.push(hue);
    }
    first_contrasting(&draws, reference_hue)
}

} // verus!
