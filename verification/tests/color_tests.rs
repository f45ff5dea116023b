use nyancat::color::{render_color, render_color_checked, CELL_BYTES};

const ALPHABET: [u8; 14] = [
    b',', b'.', b'\'', b'@', b'$', b'-', b'>', b'&', b'+', b'#', b'=', b';', b'*', b'%',
];

#[test]
fn every_alphabet_character_encodes() {
    for &c in ALPHABET.iter() {
        let cell = render_color_checked(c);
        assert!(cell.is_some());
        assert_eq!(cell.unwrap().len(), CELL_BYTES);
    }
}

#[test]
fn encoding_is_deterministic() {
    for &c in ALPHABET.iter() {
        assert_eq!(render_color(c), render_color(c));
    }
}

#[test]
fn characters_outside_the_alphabet_are_rejected() {
    for c in [b' ', b'a', b'0', b'!', 0u8, 255u8] {
        assert!(render_color_checked(c).is_none());
    }
}

#[test]
fn a_cell_is_a_background_selector_and_two_blanks() {
    assert_eq!(render_color(b','), b"\x1b[48;5;111m  ".to_vec());
    assert_eq!(render_color(b'>'), b"\x1b[48;5;196m  ".to_vec());
}

#[test]
fn distinct_characters_get_distinct_colors() {
    for (i, &a) in ALPHABET.iter().enumerate() {
        for &b in ALPHABET.iter().skip(i + 1) {
            assert_ne!(render_color(a), render_color(b));
        }
    }
}
