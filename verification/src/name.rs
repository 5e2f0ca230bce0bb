//! Note names: reading a note from its name and writing it back.

use crate::laws::lemma_name_injective;
use crate::note::Note;
use vstd::prelude::*;

verus! {

impl Note {
    /// The name of the note: its letter, followed by `#` where the note is
    /// a sharp.
    pub open spec fn name(self) -> Seq<char> {
        match self {
            Note::A => seq!['A'],
            Note::As => seq!['A', '#'],
            Note::B => seq!['B'],
            Note::C => seq!['C'],
            Note::Cs => seq!['C', '#'],
            Note::D => seq!['D'],
            Note::Ds => seq!['D', '#'],
            Note::E => seq!['E'],
            Note::F => seq!['F'],
            Note::Fs => seq!['F', '#'],
            Note::G => seq!['G'],
            Note::Gs => seq!['G', '#'],
        }
    }

    /// Whether `s` is the name of a note.
    pub open spec fn is_name(s: Seq<char>) -> bool {
        exists|n: Note| #[trigger] n.name() == s
    }

    /// The note that `s` names, if it names one.
    pub open spec fn named(s: Seq<char>) -> Option<Note> {
        if Note::is_name(s) {
            Some(choose|n: Note| #[trigger] n.name() == s)
        } else {
            None
        }
    }

    /// Reads a note from its name. The name must match exactly: upper-case
    /// letter, sharps written with `#`, nothing before or after.
    pub fn from_str(name: &str) -> (res: Result<Note, &'static str>)
        ensures
            res is Ok <==> Note::is_name(name@),
            match res {
                Ok(n) => Note::named(name@) == Some(n) && n.name() == name@,
                Err(e) => Note::named(name@) is None && e@ == "String couldn't be parsed"@,
            },
    {
        let len: usize = name.unicode_len();
        let found = if len == 1 {
            match name.get_char(0) {
                'A' => Some(Note::A),
                'B' => Some(Note::B),
                'C' => Some(Note::C),
                'D' => Some(Note::D),
                'E' => Some(Note::E),
                'F' => Some(Note::F),
                'G' => Some(Note::G),
                _ => None,
            }
        } else if len == 2 && name.get_char(1) == '#' {
            match name.get_char(0) {
                'A' => Some(Note::As),
                'C' => Some(Note::Cs),
                'D' => Some(Note::Ds),
                'F' => Some(Note::Fs),
                'G' => Some(Note::Gs),
                _ => None,
            }
        } else {
            None
        };
        match found {
            Some(n) => {
                proof {
                    assert(n.name() =~= name@);
                    lemma_name_injective(n, choose|m: Note| #[trigger] m.name() == name@);
                }
                Ok(n)
            },
            None => {
                assert forall|n: Note| #[trigger] n.name() != name@ by {
                    if n.name() == name@ {
                        assert(n.name().len() == name@.len());
                        assert(n.name()[0] == name@[0]);
                    }
                }
                Err("String couldn't be parsed")
            },
        }
    }

    /// Returns the name of the note.
    pub fn as_str(&self) -> (res: &str)
        ensures
            res@ == self.name(),
    {
        let res = match self {
            Note::A => "A",
            Note::As => "A#",
            Note::B => "B",
            Note::C => "C",
            Note::Cs => "C#",
            Note::D => "D",
            Note::Ds => "D#",
            Note::E => "E",
            Note::F => "F",
            Note::Fs => "F#",
            Note::G => "G",
            Note::Gs => "G#",
        };
        proof {
            reveal_strlit("A");
            reveal_strlit("A#");
            reveal_strlit("B");
            reveal_strlit("C");
            reveal_strlit("C#");
            reveal_strlit("D");
            reveal_strlit("D#");
            reveal_strlit("E");
            reveal_strlit("F");
            reveal_strlit("F#");
            reveal_strlit("G");
            reveal_strlit("G#");
            assert(res@ =~= self.name());
        }
        res
    }

    /// Returns the name of the note as an owned string.
    pub fn to_string(&self) -> (res: String)
        ensures
            res@ == self.name(),
    {
        self.as_str().to_owned()
    }
}

} // verus!
