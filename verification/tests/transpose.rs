use chromatic::Note;

const SCALE: [Note; 12] = [
    Note::A,
    Note::As,
    Note::B,
    Note::C,
    Note::Cs,
    Note::D,
    Note::Ds,
    Note::E,
    Note::F,
    Note::Fs,
    Note::G,
    Note::Gs,
];

#[test]
fn a_read_from_its_name_steps_up_to_a_sharp() {
    assert_eq!(Note::from_str("A").unwrap().half_step_up(), Note::As);
}

#[test]
fn c_up_five_is_f() {
    assert_eq!(Note::C.n_half_steps_up(5), Note::F);
}

#[test]
fn a_steps_down_to_g_sharp() {
    assert_eq!(Note::A.half_step_down(), Note::Gs);
}

#[test]
fn f_down_five_is_c() {
    assert_eq!(Note::F.n_half_steps_down(5), Note::C);
}

#[test]
fn g_sharp_steps_up_to_a() {
    assert_eq!(Note::Gs.half_step_up(), Note::A);
}

#[test]
fn c_up_twelve_is_c() {
    assert_eq!(Note::C.n_half_steps_up(12), Note::C);
}

#[test]
fn half_step_down_follows_the_scale_backwards() {
    for i in 0..12 {
        assert_eq!(SCALE[i].half_step_down(), SCALE[(i + 11) % 12]);
    }
}

#[test]
fn n_half_steps_up_moves_along_the_scale() {
    for i in 0..12 {
        for k in 0..40 {
            assert_eq!(SCALE[i].n_half_steps_up(k as u32), SCALE[(i + k) % 12]);
        }
    }
}

#[test]
fn n_half_steps_down_moves_back_along_the_scale() {
    for i in 0..12 {
        for k in 0..40 {
            assert_eq!(SCALE[i].n_half_steps_down(k as u32), SCALE[(i + 12 * 4 - k) % 12]);
        }
    }
}

#[test]
fn n_half_steps_up_is_the_same_as_stepping_n_times() {
    for note in SCALE {
        let mut stepped = note;
        for k in 0..30 {
            assert_eq!(note.n_half_steps_up(k), stepped);
            stepped = stepped.half_step_up();
        }
    }
}

#[test]
fn n_half_steps_down_is_the_same_as_stepping_n_times() {
    for note in SCALE {
        let mut stepped = note;
        for k in 0..30 {
            assert_eq!(note.n_half_steps_down(k), stepped);
            stepped = stepped.half_step_down();
        }
    }
}

#[test]
fn twelve_steps_up_close_the_cycle() {
    for note in SCALE {
        let mut stepped = note;
        for _ in 1..12 {
            stepped = stepped.half_step_up();
            assert_ne!(stepped, note);
        }
        assert_eq!(stepped.half_step_up(), note);
    }
}

#[test]
fn twelve_steps_down_close_the_cycle() {
    for note in SCALE {
        let mut stepped = note;
        for _ in 1..12 {
            stepped = stepped.half_step_down();
            assert_ne!(stepped, note);
        }
        assert_eq!(stepped.half_step_down(), note);
    }
}

#[test]
fn one_to_eleven_steps_never_return() {
    for note in SCALE {
        for k in 1..12 {
            assert_ne!(note.n_half_steps_up(k), note);
            assert_ne!(note.n_half_steps_down(k), note);
        }
    }
}

#[test]
fn up_and_down_undo_each_other() {
    for note in SCALE {
        assert_eq!(note.half_step_up().half_step_down(), note);
        assert_eq!(note.half_step_down().half_step_up(), note);
    }
}

#[test]
fn an_octave_more_changes_nothing() {
    for note in SCALE {
        for k in [0u32, 1, 5, 11, 12, 13, 100, 4294967283] {
            assert_eq!(note.n_half_steps_up(k), note.n_half_steps_up(k + 12));
            assert_eq!(note.n_half_steps_down(k), note.n_half_steps_down(k + 12));
        }
    }
}

#[test]
fn zero_steps_change_nothing() {
    for note in SCALE {
        assert_eq!(note.n_half_steps_up(0), note);
        assert_eq!(note.n_half_steps_down(0), note);
    }
}

#[test]
fn up_by_k_then_down_by_k_returns() {
    for note in SCALE {
        for k in [0u32, 1, 2, 7, 11, 12, 25, 1000, 4294967295] {
            assert_eq!(note.n_half_steps_up(k).n_half_steps_down(k), note);
            assert_eq!(note.n_half_steps_down(k).n_half_steps_up(k), note);
        }
    }
}

#[test]
fn half_step_down_is_eleven_up() {
    for note in SCALE {
        assert_eq!(note.half_step_down(), note.n_half_steps_up(11));
    }
}

#[test]
fn the_largest_count_is_reduced_modulo_twelve() {
    assert_eq!(Note::A.n_half_steps_up(4294967295), Note::C);
    assert_eq!(Note::A.n_half_steps_down(4294967295), Note::Fs);
    assert_eq!(Note::C.n_half_steps_up(4000000000), Note::E);
    assert_eq!(Note::G.n_half_steps_up(1000000), Note::B);
}
