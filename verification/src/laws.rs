//! What holds of notes, their names and their transposition, proved once
//! for every note and every number of steps.

use crate::note::Note;
use vstd::prelude::*;

verus! {

/// Every note has a position from 0 to 11, and is the note at that
/// position.
pub proof fn lemma_position_in_scale(n: Note)
    ensures
        0 <= n@ < 12,
        Note::at(n@) == n,
{
}

/// Each position from 0 to 11 holds a note of its own.
pub proof fn lemma_note_at_position(i: int)
    requires
        0 <= i < 12,
    ensures
        Note::at(i)@ == i,
{
}

/// Two notes at the same position are the same note.
pub proof fn lemma_position_determines_note(a: Note, b: Note)
    requires
        a@ == b@,
    ensures
        a == b,
{
    lemma_position_in_scale(a);
    lemma_position_in_scale(b);
}

/// Taking `k` half steps up, one after the other, adds `k` to the position,
/// modulo 12.
pub proof fn lemma_up_by_position(n: Note, k: nat)
    ensures
        n.up_by(k)@ == (n@ + k) % 12,
        n.up_by(k) == Note::at((n@ + k) % 12),
    decreases k,
{
    if k > 0 {
        lemma_up_by_position(n, (k - 1) as nat);
    }
}

/// Taking `k` half steps down, one after the other, subtracts `k` from the
/// position, modulo 12.
pub proof fn lemma_down_by_position(n: Note, k: nat)
    ensures
        n.down_by(k)@ == (n@ - k) % 12,
        n.down_by(k) == Note::at((n@ - k) % 12),
    decreases k,
{
    if k > 0 {
        lemma_down_by_position(n, (k - 1) as nat);
    }
}

/// No steps at all leave a note where it is.
pub proof fn lemma_zero_steps(n: Note)
    ensures
        n.up_by(0) == n,
        n.down_by(0) == n,
{
}

/// A half step up and a half step down undo each other, in either order.
pub proof fn lemma_up_down_inverse(n: Note)
    ensures
        n.up().down() == n,
        n.down().up() == n,
{
}

/// A half step down is the same as eleven half steps up.
pub proof fn lemma_down_is_eleven_up(n: Note)
    ensures
        n.down() == n.up_by(11),
{
    lemma_up_by_position(n, 11);
}

/// Twelve half steps, up or down, lead back to the note they started from,
/// and one to eleven half steps never do.
pub proof fn lemma_cycle_of_twelve(n: Note, k: nat)
    ensures
        n.up_by(12) == n,
        n.down_by(12) == n,
        0 < k < 12 ==> n.up_by(k) != n && n.down_by(k) != n,
{
    lemma_position_in_scale(n);
    lemma_up_by_position(n, 12);
    lemma_down_by_position(n, 12);
    lemma_position_determines_note(n.up_by(12), n);
    lemma_position_determines_note(n.down_by(12), n);
    if 0 < k < 12 {
        lemma_up_by_position(n, k);
        lemma_down_by_position(n, k);
        lemma_short_offsets_move(n@, k as int);
    }
}

/// An offset of 1 to 11 leads to another position, modulo 12.
proof fn lemma_short_offsets_move(p: int, k: int)
    requires
        0 <= p < 12,
        0 < k < 12,
    ensures
        (p + k) % 12 != p,
        (p - k) % 12 != p,
{
}

/// Adding an offset and subtracting it again, modulo 12 each time, leads
/// back to the position one started from.
proof fn lemma_offsets_cancel(p: int, k: int)
    requires
        0 <= p < 12,
    ensures
        ((p + k) % 12 - k) % 12 == p,
        ((p - k) % 12 + k) % 12 == p,
{
}

/// Twelve more steps change nothing.
pub proof fn lemma_octave_changes_nothing(n: Note, k: nat)
    ensures
        n.up_by(k + 12) == n.up_by(k),
        n.down_by(k + 12) == n.down_by(k),
{
    lemma_same_steps_modulo_twelve(n, k + 12, k);
}

/// Where a note ends up depends only on the number of steps modulo 12.
pub proof fn lemma_same_steps_modulo_twelve(n: Note, j: nat, k: nat)
    requires
        j % 12 == k % 12,
    ensures
        n.up_by(j) == n.up_by(k),
        n.down_by(j) == n.down_by(k),
{
    assert((n@ + j) % 12 == (n@ + k) % 12 && (n@ - j) % 12 == (n@ - k) % 12) by {
        lemma_congruent_offsets(n@, j as int, k as int);
    }
    lemma_up_by_position(n, j);
    lemma_up_by_position(n, k);
    lemma_down_by_position(n, j);
    lemma_down_by_position(n, k);
}

/// Offsets that agree modulo 12 lead to positions that agree modulo 12.
proof fn lemma_congruent_offsets(p: int, j: int, k: int)
    requires
        j % 12 == k % 12,
    ensures
        (p + j) % 12 == (p + k) % 12,
        (p - j) % 12 == (p - k) % 12,
{
}

/// Going up by `k` half steps and then down by `k`, or the other way
/// round, leads back to the note one started from.
pub proof fn lemma_up_by_down_by_inverse(n: Note, k: nat)
    ensures
        n.up_by(k).down_by(k) == n,
        n.down_by(k).up_by(k) == n,
{
    lemma_position_in_scale(n);
    lemma_offsets_cancel(n@, k as int);
    lemma_up_by_position(n, k);
    lemma_down_by_position(n.up_by(k), k);
    lemma_position_determines_note(n.up_by(k).down_by(k), n);
    lemma_down_by_position(n, k);
    lemma_up_by_position(n.down_by(k), k);
    lemma_position_determines_note(n.down_by(k).up_by(k), n);
}

/// A name is one or two characters long. Its first character is the
/// note's letter, and the second character is there for the sharps alone.
proof fn lemma_name_shape(n: Note)
    ensures
        n.name().len() == 1 || n.name().len() == 2,
        n.name().len() == 2 <==> n == Note::As || n == Note::Cs || n == Note::Ds || n == Note::Fs
            || n == Note::Gs,
        n.name()[0] == 'A' <==> n == Note::A || n == Note::As,
        n.name()[0] == 'B' <==> n == Note::B,
        n.name()[0] == 'C' <==> n == Note::C || n == Note::Cs,
        n.name()[0] == 'D' <==> n == Note::D || n == Note::Ds,
        n.name()[0] == 'E' <==> n == Note::E,
        n.name()[0] == 'F' <==> n == Note::F || n == Note::Fs,
        n.name()[0] == 'G' <==> n == Note::G || n == Note::Gs,
{
}

/// No two notes share a name.
pub proof fn lemma_name_injective(a: Note, b: Note)
    requires
        a.name() == b.name(),
    ensures
        a == b,
{
    lemma_name_shape(a);
    lemma_name_shape(b);
}

/// The name of a note names that note.
pub proof fn lemma_name_names_its_note(n: Note)
    ensures
        Note::is_name(n.name()),
        Note::named(n.name()) == Some(n),
{
    let m = choose|m: Note| #[trigger] m.name() == n.name();
    lemma_name_injective(m, n);
}

/// The note that a name names has that name.
pub proof fn lemma_named_note_has_the_name(s: Seq<char>)
    requires
        Note::is_name(s),
    ensures
        Note::named(s) is Some,
        Note::named(s)->0.name() == s,
{
}

} // verus!
