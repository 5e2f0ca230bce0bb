//! The `Note` type, its position in the scale, and transposition.

use crate::laws::{lemma_down_by_position, lemma_same_steps_modulo_twelve, lemma_up_by_position};
use vstd::prelude::*;

verus! {

/// A pitch class of the chromatic scale. The variants are listed in rising
/// order, a half step apart; `As` is A sharp, `Cs` is C sharp, and so on.
#[derive(PartialEq, Eq, Structural, Debug, Clone, Copy)]
pub enum Note {
    A,
    As,
    B,
    C,
    Cs,
    D,
    Ds,
    E,
    F,
    Fs,
    G,
    Gs,
}

impl View for Note {
    type V = int;

    /// The position of the note in the chromatic scale, counted in half
    /// steps above A.
    open spec fn view(&self) -> int {
        match *self {
            Note::A => 0,
            Note::As => 1,
            Note::B => 2,
            Note::C => 3,
            Note::Cs => 4,
            Note::D => 5,
            Note::Ds => 6,
            Note::E => 7,
            Note::F => 8,
            Note::Fs => 9,
            Note::G => 10,
            Note::Gs => 11,
        }
    }
}

impl Note {
    /// The note at position `i` of the chromatic scale, for `0 <= i < 12`.
    pub open spec fn at(i: int) -> Note
        recommends
            0 <= i < 12,
    {
        if i == 0 {
            Note::A
        } else if i == 1 {
            Note::As
        } else if i == 2 {
            Note::B
        } else if i == 3 {
            Note::C
        } else if i == 4 {
            Note::Cs
        } else if i == 5 {
            Note::D
        } else if i == 6 {
            Note::Ds
        } else if i == 7 {
            Note::E
        } else if i == 8 {
            Note::F
        } else if i == 9 {
            Note::Fs
        } else if i == 10 {
            Note::G
        } else {
            Note::Gs
        }
    }

    /// The note a half step above `self`; above G# the scale starts again
    /// at A.
    pub open spec fn up(self) -> Note {
        Note::at((self@ + 1) % 12)
    }

    /// The note a half step below `self`; below A the scale continues
    /// with G#.
    pub open spec fn down(self) -> Note {
        Note::at((self@ - 1) % 12)
    }

    /// The note reached from `self` by `k` half steps up, taken one after
    /// the other.
    pub open spec fn up_by(self, k: nat) -> Note
        decreases k,
    {
        if k == 0 {
            self
        } else {
            self.up_by((k - 1) as nat).up()
        }
    }

    /// The note reached from `self` by `k` half steps down, taken one after
    /// the other.
    pub open spec fn down_by(self, k: nat) -> Note
        decreases k,
    {
        if k == 0 {
            self
        } else {
            self.down_by((k - 1) as nat).down()
        }
    }

    /// Returns the note a half step higher, wrapping from G# to A.
    pub fn half_step_up(&self) -> (res: Note)
        ensures
            res == self.up(),
            res@ == (self@ + 1) % 12,
    {
        match self {
            Note::A => Note::As,
            Note::As => Note::B,
            Note::B => Note::C,
            Note::C => Note::Cs,
            Note::Cs => Note::D,
            Note::D => Note::Ds,
            Note::Ds => Note::E,
            Note::E => Note::F,
            Note::F => Note::Fs,
            Note::Fs => Note::G,
            Note::G => Note::Gs,
            Note::Gs => Note::A,
        }
    }

    /// Returns the note `n` half steps higher. Whole octaves change
    /// nothing, so only `n % 12` steps are taken.
    pub fn n_half_steps_up(&self, n: u32) -> (res: Note)
        ensures
            res == self.up_by(n as nat),
            res@ == (self@ + n) % 12,
            n == 0 ==> res == *self,
    {
        let steps: u32 = n % 12;
        let mut note: Note = *self;
        let mut taken: u32 = 0;
        while taken < steps
            invariant
                taken <= steps,
                note == self.up_by(taken as nat),
            decreases steps - taken,
        {
            note = note.half_step_up();
            taken = taken + 1;
        }
        proof {
            lemma_same_steps_modulo_twelve(*self, steps as nat, n as nat);
            lemma_up_by_position(*self, n as nat);
        }
        note
    }

    /// Returns the note a half step lower, wrapping from A to G#. A half
    /// step down is eleven half steps up.
    pub fn half_step_down(&self) -> (res: Note)
        ensures
            res == self.down(),
            res@ == (self@ - 1) % 12,
    {
        self.n_half_steps_up(11)
    }

    /// Returns the note `n` half steps lower. Whole octaves change
    /// nothing, so only `n % 12` steps are taken.
    pub fn n_half_steps_down(&self, n: u32) -> (res: Note)
        ensures
            res == self.down_by(n as nat),
            res@ == (self@ - n) % 12,
            n == 0 ==> res == *self,
    {
        let steps: u32 = n % 12;
        let mut note: Note = *self;
        let mut taken: u32 = 0;
        while taken < steps
            invariant
                taken <= steps,
                note == self.down_by(taken as nat),
            decreases steps - taken,
        {
            note = note.half_step_down();
            taken = taken + 1;
        }
        proof {
            lemma_same_steps_modulo_twelve(*self, steps as nat, n as nat);
            lemma_down_by_position(*self, n as nat);
        }
        note
    }
}

} // verus!
