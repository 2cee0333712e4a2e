//! Dice and the sources of randomness that roll them.

use vstd::prelude::*;

verus! {

/// `rand::rngs::StdRng`, the standard generator of the `rand` crate. The
/// verifier sees nothing of what a value of it holds.
#[verifier::external_type_specification]
#[verifier::external_body]
pub struct ExStdRng(rand::rngs::StdRng);

/// A source of randomness: either an arithmetic sequence, for runs that must
/// repeat, or a generator seeded by the operating system.
pub enum Rng {
    /// An arithmetic sequence over 64 bits: the value that is drawn next,
    /// and what every draw adds to it.
    Step { state: u64, increment: u64 },
    /// A generator seeded by the operating system.
    Std(rand::rngs::StdRng),
}

/// The 32 bits that an arithmetic sequence yields: the low half of the value
/// that it has come to.
pub open spec fn step_bits(state: u64) -> u32 {
    (state as int % 0x1_0000_0000) as u32
}

/// The value that an arithmetic sequence comes to after a draw: the
/// increment is added, and what goes beyond 64 bits is dropped.
pub open spec fn step_state(state: u64, increment: u64) -> u64 {
    ((state as int + increment as int) % 0x1_0000_0000_0000_0000) as u64
}

/// One draw of `rand::rngs::mock::StepRng`: the generator is made from its
/// two numbers with `new`, `rand::RngCore::next_u32` draws from it, and
/// `rand::RngCore::next_u64` reads the value that the draw has left.
///
/// Trusted: a generator made with `new(state, increment)` holds `state`;
/// `next_u32` yields the value held, cut to its low 32 bits, and
/// `next_u64` the whole of it; each of them then adds `increment` to the
/// value held, with wrapping arithmetic.
#[verifier::external_body]
fn step_rng_draw(state: u64, increment: u64) -> (drawn: (u32, u64))
    ensures
        drawn.0 == step_bits(state),
        drawn.1 == step_state(state, increment),
{
    let mut rng = rand::rngs::mock::StepRng::new(state, increment);
    let bits = rand::RngCore::next_u32(&mut rng);
    (bits, rand::RngCore::next_u64(&mut rng))
}

/// `rand::SeedableRng::from_entropy` for `rand::rngs::StdRng`. The seed
/// comes from the operating system: nothing is stated of the result. The
/// call panics where the operating system yields no entropy.
#[verifier::external_body]
fn std_rng_from_entropy() -> rand::rngs::StdRng {
    rand::SeedableRng::from_entropy()
}

/// `rand::RngCore::next_u32` for `rand::rngs::StdRng`. The value is random:
/// nothing is stated of it.
#[verifier::external_body]
fn std_rng_next_u32(rng: &mut rand::rngs::StdRng) -> u32 {
    rand::RngCore::next_u32(rng)
}

impl Rng {
    /// A source that yields `initial`, `initial + increment`, and so on.
    pub fn new(initial: u64, increment: u64) -> (rng: Rng)
        ensures
            rng == (Rng::Step { state: initial, increment }),
    {
        Rng::Step { state: initial, increment }
    }

    /// A source seeded by the operating system.
    pub fn from_entropy() -> (rng: Rng)
        ensures
            rng is Std,
    {
        Rng::Std(std_rng_from_entropy())
    }

    /// The next 32 bits of the source. An arithmetic sequence yields the low
    /// 32 bits of the value it has come to and moves on by its increment; of
    /// what a seeded generator yields nothing is known. The kind of source
    /// never changes.
    pub fn next_u32(&mut self) -> (bits: u32)
        ensures
            match *old(self) {
                Rng::Step { state, increment } => {
                    &&& bits == step_bits(state)
                    &&& *final(self) == (Rng::Step {
                        state: step_state(state, increment),
                        increment,
                    })
                },
                Rng::Std(_) => *final(self) is Std,
            },
    {
        match self {
            Rng::Step { state, increment } => {
                let drawn: (u32, u64) = step_rng_draw(*state, *increment);
                *state = drawn.1;
                drawn.0
            },
            Rng::Std(rng) => std_rng_next_u32(rng),
        }
    }
}

/// A die, named by its number of faces.
#[derive(Clone, Copy, PartialEq, Eq, Debug, Structural)]
pub enum Dice {
    D100,
    D20,
    D12,
    D10,
    D8,
    D6,
    D4,
}

impl Dice {
    /// The number of faces.
    pub open spec fn faces(self) -> int {
        match self {
            Dice::D100 => 100,
            Dice::D20 => 20,
            Dice::D12 => 12,
            Dice::D10 => 10,
            Dice::D8 => 8,
            Dice::D6 => 6,
            Dice::D4 => 4,
        }
    }

    /// The face that the die shows for 32 raw bits: the low eight bits,
    /// reduced modulo the number of faces, counted from one.
    pub open spec fn face_for(self, raw: u32) -> int {
        (raw as int % 256) % self.faces() + 1
    }

    /// The highest face.
    pub fn max(&self) -> (faces: u8)
        ensures
            faces == self.faces(),
    {
        match self {
            Dice::D100 => 100,
            Dice::D20 => 20,
            Dice::D12 => 12,
            Dice::D10 => 10,
            Dice::D8 => 8,
            Dice::D6 => 6,
            Dice::D4 => 4,
        }
    }

    /// The face for 32 raw bits.
    pub fn roll_from(&self, raw: u32) -> (face: u8)
        ensures
            face == self.face_for(raw),
            1 <= face <= self.faces(),
    {
        let upper: u8 = self.max();
        let low: u8 = (raw % 256) as u8;
        (low % upper) + 1
    }

    /// Rolls the die with the next 32 bits of `rng`: one draw, whose bits
    /// decide the face. With an arithmetic sequence the face is that of the
    /// low 32 bits of the value the sequence has come to.
    pub fn roll(&self, rng: &mut Rng) -> (face: u8)
        ensures
            1 <= face <= self.faces(),
            exists|raw: u32| face == #[trigger] self.face_for(raw),
            match *old(rng) {
                Rng::Step { state, increment } => {
                    &&& face == self.face_for(step_bits(state))
                    &&& *final(rng) == (Rng::Step {
                        state: step_state(state, increment),
                        increment,
                    })
                },
                Rng::Std(_) => *final(rng) is Std,
            },
    {
        let raw: u32 = rng.next_u32();
        self.roll_from(raw)
    }
}

} // verus!
