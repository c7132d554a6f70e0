//! Scrambles: twenty random moves, no two in a row about the same axis.

use crate::cube::{Face, Mod, Move, FACES, TURNS};
use rand::rngs::StdRng;
use rand::{Rng, SeedableRng};
use vstd::prelude::*;

verus! {

/// How many moves a scramble has.
pub const SCRAMBLE_LEN: usize = 20;

/// How many faces may follow any face: those of the two other axes.
pub const PERMITTED: u32 = 4;

/// How often a face is drawn for one position before the choice is made
/// among the permitted faces directly.
///
/// Two of the six faces are refused after any move, so a draw is accepted
/// with probability 4/6 and a position takes 1.5 draws on average; all
/// sixty-four are refused once in 3^64 positions.
pub const MAX_DRAWS: u32 = 64;

/// `rand::rngs::StdRng`, the generator that the draws come from. Nothing
/// inside it is visible here: it is handed on to the calls below.
#[verifier::external_type_specification]
#[verifier::external_body]
pub struct ExStdRng(StdRng);

/// Calls `rand::Rng::gen_range` on the half-open range from `low` to
/// `high`.
///
/// Trusted: the number that comes back lies in the range. The call panics
/// on an empty range, which `requires` leaves out. Which number comes back
/// depends on the generator's state, so nothing more is said of it.
#[verifier::external_body]
fn draw_between(rng: &mut StdRng, low: u32, high: u32) -> (draw: u32)
    requires
        low < high,
    ensures
        low <= draw < high,
{
    rng.gen_range(low..high)
}

/// Calls `rand::SeedableRng::from_entropy` for a generator seeded by the
/// operating system.
///
/// Trusted, with nothing claimed of the generator. The call panics if the
/// system has no randomness to give.
#[verifier::external_body]
fn rng_from_entropy() -> StdRng {
    StdRng::from_entropy()
}

/// No move of the sequence turns the face of the move before it, nor the
/// face opposite to that one.
pub open spec fn no_axis_twice(moves: Seq<Move>) -> bool {
    forall|i: int|
        1 <= i < moves.len() ==> (#[trigger] moves[i]).face.may_follow(&moves[i - 1].face)
}

/// What makes a sequence of moves a scramble: it has twenty moves, and no
/// two in a row turn about the same axis.
pub open spec fn is_scramble(moves: Seq<Move>) -> bool {
    moves.len() == SCRAMBLE_LEN && no_axis_twice(moves)
}

/// The faces that may follow `prev`, counted from zero: the four faces of
/// the two other axes, in the order front, back, right, left, up, down.
/// Any number above three stands for the last of them.
pub open spec fn permitted_after(prev: Face, choice: int) -> Face {
    match prev {
        Face::Front | Face::Back => {
            if choice == 0 {
                Face::Right
            } else if choice == 1 {
                Face::Left
            } else if choice == 2 {
                Face::Up
            } else {
                Face::Down
            }
        },
        Face::Right | Face::Left => {
            if choice == 0 {
                Face::Front
            } else if choice == 1 {
                Face::Back
            } else if choice == 2 {
                Face::Up
            } else {
                Face::Down
            }
        },
        Face::Up | Face::Down => {
            if choice == 0 {
                Face::Front
            } else if choice == 1 {
                Face::Back
            } else if choice == 2 {
                Face::Right
            } else {
                Face::Left
            }
        },
    }
}

/// The faces that may follow a face are the four that `permitted_after`
/// counts, each under one number: a number that is uniform over the four
/// gives a face that is uniform over the permitted ones.
pub proof fn lemma_four_faces_may_follow(prev: Face, next: Face)
    ensures
        next.may_follow(&prev) <==> exists|choice: int|
            0 <= choice < PERMITTED && permitted_after(prev, choice) == next,
        forall|a: int, b: int|
            0 <= a < PERMITTED && 0 <= b < PERMITTED && permitted_after(prev, a)
                == permitted_after(prev, b) ==> a == b,
{
    if next.may_follow(&prev) {
        let choice: int = if permitted_after(prev, 0) == next {
            0
        } else if permitted_after(prev, 1) == next {
            1
        } else if permitted_after(prev, 2) == next {
            2
        } else {
            3
        };
        assert(0 <= choice < PERMITTED && permitted_after(prev, choice) == next);
    }
}

/// A face drawn from the generator.
pub fn random_face(rng: &mut StdRng) -> Face {
    Face::from_draw(draw_between(rng, 0, FACES))
}

/// A turn drawn from the generator.
pub fn random_modifier(rng: &mut StdRng) -> Mod {
    Mod::from_draw(draw_between(rng, 0, TURNS))
}

/// The face with the given number among those that may follow `prev`.
pub fn pick_permitted(prev: Face, choice: u32) -> (face: Face)
    ensures
        face == permitted_after(prev, choice as int),
        face.may_follow(&prev),
{
    match prev {
        Face::Front | Face::Back => match choice {
            0 => Face::Right,
            1 => Face::Left,
            2 => Face::Up,
            _ => Face::Down,
        },
        Face::Right | Face::Left => match choice {
            0 => Face::Front,
            1 => Face::Back,
            2 => Face::Up,
            _ => Face::Down,
        },
        Face::Up | Face::Down => match choice {
            0 => Face::Front,
            1 => Face::Back,
            2 => Face::Right,
            _ => Face::Left,
        },
    }
}

/// A random face that may follow `prev`.
///
/// Faces are drawn until one may follow `prev`, at most `MAX_DRAWS` times.
/// Should every draw be refused, one more number picks among the four
/// permitted faces directly, so that the face is uniform over the four
/// whichever way it was found.
pub fn next_face(prev: Face, rng: &mut StdRng) -> (face: Face)
    ensures
        face.may_follow(&prev),
{
    let mut draws: u32 = 0;
    while draws < MAX_DRAWS
        invariant
            draws <= MAX_DRAWS,
        decreases MAX_DRAWS - draws,
    {
        let candidate = random_face(rng);
        if candidate.may_follow(&prev) {
            return candidate;
        }
        draws += 1;
    }
    pick_permitted(prev, draw_between(rng, 0, PERMITTED))
}

/// A scramble drawn from the given generator.
pub fn generate_scramble_with(rng: &mut StdRng) -> (scramble: Vec<Move>)
    ensures
        is_scramble(scramble@),
{
    let mut scramble: Vec<Move> = Vec::new();
    let first = Move { face: random_face(rng), form: random_modifier(rng) };
    scramble.push(first);
    let mut prev = first.face;
    while scramble.len() < SCRAMBLE_LEN
        invariant
            1 <= scramble.len() <= SCRAMBLE_LEN,
            no_axis_twice(scramble@),
            prev == scramble@.last().face,
        decreases SCRAMBLE_LEN - scramble.len(),
    {
        let face = next_face(prev, rng);
        let form = random_modifier(rng);
        scramble.push(Move { face, form });
        prev = face;
    }
    scramble
}

/// A scramble drawn from a generator that the operating system seeds.
pub fn generate_scramble() -> (scramble: Vec<Move>)
    ensures
        is_scramble(scramble@),
{
    let mut rng = rng_from_entropy();
    generate_scramble_with(&mut rng)
}

/// Whether a sequence of moves is a scramble.
pub fn is_valid_scramble(moves: &[Move]) -> (ok: bool)
    ensures
        ok == is_scramble(moves@),
{
    if moves.len() != SCRAMBLE_LEN {
        return false;
    }
    let mut i: usize = 1;
    while i < moves.len()
        invariant
            1 <= i <= moves.len(),
            forall|j: int|
                1 <= j < i ==> (#[trigger] moves@[j]).face.may_follow(&moves@[j - 1].face),
        decreases moves.len() - i,
    {
        if !moves[i].face.may_follow(&moves[i - 1].face) {
            return false;
        }
        i += 1;
    }
    true
}

} // verus!
