use nyancat::frame::{build_frame, check_frame, clear_screen, Streamer};
use nyancat::color::render_color;

fn tiny_frame() -> Vec<Vec<u8>> {
    vec![vec![b',', b'.'], vec![b'@', b'$']]
}

#[test]
fn clear_screen_is_erase_then_home() {
    assert_eq!(clear_screen(), b"\x1b[2J\x1b[1;1H".to_vec());
}

#[test]
fn build_frame_renders_every_visible_cell_row_by_row() {
    // client 4x3: both columns fit (4 / 2 = 2), both rows fit (3 - 1 = 2)
    let out = build_frame(&tiny_frame(), 4, 3, false);
    let mut expected: Vec<u8> = Vec::new();
    expected.extend(render_color(b','));
    expected.extend(render_color(b'.'));
    expected.push(b'\n');
    expected.extend(render_color(b'@'));
    expected.extend(render_color(b'$'));
    expected.push(b'\n');
    assert_eq!(out, expected);
}

#[test]
fn build_frame_prepends_the_clear_sequence_when_asked() {
    let plain = build_frame(&tiny_frame(), 4, 3, false);
    let cleared = build_frame(&tiny_frame(), 4, 3, true);
    let mut expected = clear_screen();
    expected.extend(plain);
    assert_eq!(cleared, expected);
}

#[test]
fn build_frame_clips_to_the_viewport() {
    // client 2x2: one column visible (2 / 2 = 1), one row (2 - 1 = 1)
    let out = build_frame(&tiny_frame(), 2, 2, false);
    let mut expected: Vec<u8> = Vec::new();
    expected.extend(render_color(b','));
    expected.push(b'\n');
    assert_eq!(out, expected);
}

#[test]
fn build_frame_with_no_visible_column_emits_bare_rows() {
    // client width 1 fits no cell; the two visible rows are empty lines
    let out = build_frame(&tiny_frame(), 1, 3, false);
    assert_eq!(out, vec![b'\n', b'\n']);
}

#[test]
fn check_frame_accepts_the_art_alphabet_grid() {
    assert!(check_frame(&tiny_frame()));
}

#[test]
fn check_frame_rejects_bad_assets() {
    // empty
    assert!(!check_frame(&Vec::new()));
    // ragged rows
    assert!(!check_frame(&vec![vec![b',', b'.'], vec![b'@']]));
    // a character outside the alphabet
    assert!(!check_frame(&vec![vec![b',', b'x']]));
}

#[test]
fn frame_index_advances_one_per_tick_and_wraps() {
    let mut s = Streamer::new(3, None);
    assert_eq!(s.frame_index, 0);
    s.advance();
    assert_eq!(s.frame_index, 1);
    s.advance();
    assert_eq!(s.frame_index, 2);
    s.advance();
    assert_eq!(s.frame_index, 0);
}

#[test]
fn after_one_full_cycle_the_index_returns_to_start() {
    // an animation of length 6: six ticks bring the index back
    let n = 6;
    let mut s = Streamer::new(n, None);
    s.advance();
    s.advance();
    let start = s.frame_index;
    for _ in 0..n {
        s.advance();
    }
    assert_eq!(s.frame_index, start);
    assert_eq!(s.ticks, n + 2);
}

#[test]
fn the_tick_limit_stops_the_session_exactly_on_time() {
    let mut s = Streamer::new(3, Some(5));
    for expected_ticks in 0..5 {
        assert!(!s.finished());
        assert_eq!(s.ticks, expected_ticks);
        s.advance();
    }
    assert!(s.finished());
    assert_eq!(s.ticks, 5);
}

#[test]
fn a_session_without_a_limit_never_finishes_on_its_own() {
    let mut s = Streamer::new(2, None);
    for _ in 0..100 {
        assert!(!s.finished());
        s.advance();
    }
}
