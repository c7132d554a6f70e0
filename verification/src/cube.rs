//! Faces, turns and moves of the cube, and how they are written down.

use vstd::prelude::*;

verus! {

/// How many faces there are.
pub const FACES: u32 = 6;

/// How many kinds of turn there are.
pub const TURNS: u32 = 3;

/// One of the six faces that a move can twist.
#[derive(Clone, Copy, Debug, PartialEq, Eq, Structural)]
pub enum Face {
    Front,
    Back,
    Right,
    Left,
    Up,
    Down,
}

impl Face {
    /// The face across the cube: front and back, right and left, up and down
    /// are the three pairs.
    pub open spec fn spec_opposite(&self) -> Face {
        match self {
            Face::Front => Face::Back,
            Face::Back => Face::Front,
            Face::Right => Face::Left,
            Face::Left => Face::Right,
            Face::Up => Face::Down,
            Face::Down => Face::Up,
        }
    }

    /// The face that a draw stands for. The six draws below six stand for
    /// the six faces, one each; any other number stands for `Down`, as zero
    /// does.
    pub open spec fn of_draw(draw: int) -> Face {
        if draw == 1 {
            Face::Front
        } else if draw == 2 {
            Face::Back
        } else if draw == 3 {
            Face::Right
        } else if draw == 4 {
            Face::Left
        } else if draw == 5 {
            Face::Up
        } else {
            Face::Down
        }
    }

    /// Whether a turn of this face may directly follow a turn of `prev`: it
    /// may unless the two are the same face or opposite faces, which turn
    /// about the same axis.
    pub open spec fn spec_may_follow(&self, prev: &Face) -> bool {
        *self != *prev && *self != prev.spec_opposite()
    }

    /// The letter that stands for the face in a written move.
    pub open spec fn label(&self) -> Seq<char> {
        match self {
            Face::Front => seq!['F'],
            Face::Back => seq!['B'],
            Face::Right => seq!['R'],
            Face::Left => seq!['L'],
            Face::Up => seq!['U'],
            Face::Down => seq!['D'],
        }
    }

    /// The face across the cube. It is never the face itself, and the
    /// opposite of the opposite is the face one started from.
    #[verifier::when_used_as_spec(spec_opposite)]
    pub fn opposite(&self) -> (other: Face)
        ensures
            other == self.spec_opposite(),
            other != *self,
            other.spec_opposite() == *self,
    {
        match self {
            Face::Front => Face::Back,
            Face::Back => Face::Front,
            Face::Right => Face::Left,
            Face::Left => Face::Right,
            Face::Up => Face::Down,
            Face::Down => Face::Up,
        }
    }

    /// The face that a draw stands for.
    pub fn from_draw(draw: u32) -> (face: Face)
        ensures
            face == Face::of_draw(draw as int),
    {
        match draw {
            1 => Face::Front,
            2 => Face::Back,
            3 => Face::Right,
            4 => Face::Left,
            5 => Face::Up,
            _ => Face::Down,
        }
    }

    /// Whether a turn of this face may directly follow a turn of `prev`.
    #[verifier::when_used_as_spec(spec_may_follow)]
    pub fn may_follow(&self, prev: &Face) -> (ok: bool)
        ensures
            ok == self.spec_may_follow(prev),
    {
        *self != *prev && *self != prev.opposite()
    }

    /// The face's letter.
    pub fn to_str(&self) -> (text: &str)
        ensures
            text@ == self.label(),
    {
        proof {
            reveal_strlit("F");
            reveal_strlit("B");
            reveal_strlit("R");
            reveal_strlit("L");
            reveal_strlit("U");
            reveal_strlit("D");
        }
        match self {
            Face::Front => "F",
            Face::Back => "B",
            Face::Right => "R",
            Face::Left => "L",
            Face::Up => "U",
            Face::Down => "D",
        }
    }
}

/// How far and which way a face is turned.
#[derive(Clone, Copy, Debug, PartialEq, Eq, Structural)]
pub enum Mod {
    /// A quarter turn clockwise.
    Clockwise,
    /// A quarter turn counter-clockwise.
    CounterClockwise,
    /// A half turn.
    Double,
}

impl Mod {
    /// The turn that a draw stands for. The three draws below three stand
    /// for the three turns, one each; any other number stands for `Double`,
    /// as zero does.
    pub open spec fn of_draw(draw: int) -> Mod {
        if draw == 1 {
            Mod::Clockwise
        } else if draw == 2 {
            Mod::CounterClockwise
        } else {
            Mod::Double
        }
    }

    /// What follows the face's letter in a written move: nothing, a prime
    /// or a two.
    pub open spec fn suffix(&self) -> Seq<char> {
        match self {
            Mod::Clockwise => Seq::empty(),
            Mod::CounterClockwise => seq!['\''],
            Mod::Double => seq!['2'],
        }
    }

    /// The turn that a draw stands for.
    pub fn from_draw(draw: u32) -> (form: Mod)
        ensures
            form == Mod::of_draw(draw as int),
    {
        match draw {
            1 => Mod::Clockwise,
            2 => Mod::CounterClockwise,
            _ => Mod::Double,
        }
    }

    /// The turn's suffix.
    pub fn to_str(&self) -> (text: &str)
        ensures
            text@ == self.suffix(),
    {
        proof {
            reveal_strlit("");
            reveal_strlit("'");
            reveal_strlit("2");
        }
        match self {
            Mod::Clockwise => "",
            Mod::CounterClockwise => "'",
            Mod::Double => "2",
        }
    }
}

/// One twist of one face.
#[derive(Clone, Copy, Debug, PartialEq, Eq, Structural)]
pub struct Move {
    pub face: Face,
    pub form: Mod,
}

impl Move {
    /// The move as it is written: the face's letter, then the turn's suffix.
    pub open spec fn text(&self) -> Seq<char> {
        self.face.label() + self.form.suffix()
    }

    /// The move as it is written, such as `F`, `R'` or `U2`.
    pub fn to_string(&self) -> (text: String)
        ensures
            text@ == self.text(),
    {
        let mut text = String::from_str(self.face.to_str());
        text.append(self.form.to_str());
        text
    }
}

/// Turning a face over twice gives the face back, and no face is its own
/// opposite.
pub proof fn lemma_opposite_is_an_involution(face: Face)
    ensures
        face.opposite().opposite() == face,
        face.opposite() != face,
{
}

/// Whether one face may follow another does not depend on which of the two
/// comes first.
pub proof fn lemma_may_follow_is_symmetric(a: Face, b: Face)
    ensures
        a.may_follow(&b) == b.may_follow(&a),
{
}

/// Each face is what exactly one of the six draws below six stands for, so
/// a draw that is uniform over them gives a face that is uniform over the
/// six.
pub proof fn lemma_one_draw_for_each_face(face: Face)
    ensures
        exists|draw: int| 0 <= draw < FACES && Face::of_draw(draw) == face,
        forall|a: int, b: int|
            0 <= a < FACES && 0 <= b < FACES && Face::of_draw(a) == Face::of_draw(b) ==> a == b,
{
    let draw: int = match face {
        Face::Front => 1,
        Face::Back => 2,
        Face::Right => 3,
        Face::Left => 4,
        Face::Up => 5,
        Face::Down => 0,
    };
    assert(0 <= draw < FACES && Face::of_draw(draw) == face);
}

/// Each turn is what exactly one of the three draws below three stands for.
pub proof fn lemma_one_draw_for_each_turn(form: Mod)
    ensures
        exists|draw: int| 0 <= draw < TURNS && Mod::of_draw(draw) == form,
        forall|a: int, b: int|
            0 <= a < TURNS && 0 <= b < TURNS && Mod::of_draw(a) == Mod::of_draw(b) ==> a == b,
{
    let draw: int = match form {
        Mod::Clockwise => 1,
        Mod::CounterClockwise => 2,
        Mod::Double => 0,
    };
    assert(0 <= draw < TURNS && Mod::of_draw(draw) == form);
}

} // verus!
