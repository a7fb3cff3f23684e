//! The die: a six-sided die thrown by drawing from a pseudo-random generator.

use rand::rngs::SmallRng;
use rand::RngCore;
use vstd::prelude::*;

verus! {

/// `rand::rngs::SmallRng`, the generator that the die draws from. Its state
/// is opaque here: no contract speaks of it.
#[verifier::external_type_specification]
#[verifier::external_body]
pub struct ExSmallRng(SmallRng);

/// Whether `roll` is a face of the die.
pub open spec fn is_face(roll: int) -> bool {
    1 <= roll <= 6
}

/// Whether every throw of `thrown` shows a face of the die.
pub open spec fn all_faces(thrown: Seq<int>) -> bool {
    forall|i: int| 0 <= i < thrown.len() ==> is_face(#[trigger] thrown[i])
}

/// The face that a draw of `raw` stands for.
pub open spec fn face_of(raw: int) -> int {
    raw % 6 + 1
}

/// Draws the next 64 bits from the generator, by `RngCore::next_u64` of
/// `SmallRng`. Trusted, not proved: the call returns, and it returns some
/// `u64`. Nothing more is claimed of the value, so whatever is built on it
/// holds of every draw.
#[verifier::external_body]
fn next_u64(rng: &mut SmallRng) -> (raw: u64) {
    rng.next_u64()
}

/// Turns a draw into the face of the die that it stands for.
pub fn die_face(raw: u64) -> (face: u64)
    ensures
        face == face_of(raw as int),
        is_face(face as int),
{
    raw % 6 + 1
}

/// A die that draws its throws from a generator and keeps, as ghost state, a
/// record of every face that it has shown.
pub struct Die {
    rng: SmallRng,
    thrown: Ghost<Seq<int>>,
}

impl View for Die {
    type V = Seq<int>;

    /// The faces that the die has shown since it was made, oldest first.
    closed spec fn view(&self) -> Seq<int> {
        self.thrown@
    }
}

impl Die {
    /// Makes a die that draws from `rng` and has not been thrown yet.
    pub fn new(rng: SmallRng) -> (die: Die)
        ensures
            die@ == Seq::<int>::empty(),
    {
        Die { rng, thrown: Ghost(Seq::empty()) }
    }

    /// Throws the die once: takes one draw from the generator and returns the
    /// face that the draw stands for. Whatever the generator hands out, the
    /// result is a face of the die, and it is the newest entry of what the
    /// die has shown.
    pub fn roll(&mut self) -> (face: u64)
        ensures
            is_face(face as int),
            final(self)@ == old(self)@.push(face as int),
    {
        let raw: u64 = next_u64(&mut self.rng);
        let face: u64 = die_face(raw);
        proof {
            self.thrown@ = self.thrown@.push(face as int);
        }
        face
    }
}

} // verus!
