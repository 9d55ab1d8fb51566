use dioxus_terminal::color::color_from_256;
use dioxus_terminal::sgr::parse_params;
use dioxus_terminal::{
    apply_sgr, key_to_bytes, process_byte, process_bytes, Attrs, Cell, Color, EscapeState, Grid,
    KeyInput, TermState,
};

fn feed(state: &mut TermState, grid: &mut Grid, bytes: &[u8]) {
    process_bytes(state, grid, &bytes.to_vec());
}

fn red() -> Color {
    Color::new(205, 49, 49)
}

#[test]
fn palette_vectors() {
    assert_eq!(color_from_256(1), Color::new(205, 49, 49));
    assert_eq!(color_from_256(9), Color::new(241, 76, 76));
    assert_eq!(color_from_256(16), Color::new(0, 0, 0));
    assert_eq!(color_from_256(231), Color::new(255, 255, 255));
    assert_eq!(color_from_256(232), Color::new(8, 8, 8));
    assert_eq!(color_from_256(255), Color::new(238, 238, 238));
    assert_eq!(color_from_256(17), Color::new(0, 0, 95));
    assert_eq!(color_from_256(196), Color::new(255, 0, 0));
}

#[test]
fn sgr_31_sets_red() {
    let mut a = Attrs::reset();
    apply_sgr(&mut a, &b"31".to_vec());
    assert_eq!(a.fg, red());
    assert_eq!(a.bg, Color::default_bg());
}

#[test]
fn sgr_reset_clears_everything() {
    let mut a = Attrs::reset();
    apply_sgr(&mut a, &b"1;2;3;4;31;44".to_vec());
    assert!(a.bold && a.dim && a.italic && a.underline);
    assert_eq!(a.bg, Color::new(36, 114, 200));
    let mut b = a;
    apply_sgr(&mut a, &b"0".to_vec());
    assert_eq!(a, Attrs::reset());
    apply_sgr(&mut b, &Vec::new());
    assert_eq!(b, Attrs::reset());
}

#[test]
fn sgr_reset_twice_is_reset_once() {
    let mut a = Attrs::reset();
    apply_sgr(&mut a, &b"1;92".to_vec());
    apply_sgr(&mut a, &b"0".to_vec());
    let once = a;
    apply_sgr(&mut a, &b"0".to_vec());
    assert_eq!(a, once);
}

#[test]
fn sgr_style_off_codes() {
    let mut a = Attrs::reset();
    apply_sgr(&mut a, &b"1;2;3;4".to_vec());
    apply_sgr(&mut a, &b"22".to_vec());
    assert!(!a.bold && !a.dim && a.italic && a.underline);
    apply_sgr(&mut a, &b"23;24".to_vec());
    assert_eq!(a, Attrs::reset());
}

#[test]
fn sgr_bright_and_default_colors() {
    let mut a = Attrs::reset();
    apply_sgr(&mut a, &b"91;107".to_vec());
    assert_eq!(a.fg, Color::new(241, 76, 76));
    assert_eq!(a.bg, Color::new(255, 255, 255));
    apply_sgr(&mut a, &b"39;49".to_vec());
    assert_eq!(a.fg, Color::default_fg());
    assert_eq!(a.bg, Color::default_bg());
}

#[test]
fn sgr_extended_colors() {
    let mut a = Attrs::reset();
    apply_sgr(&mut a, &b"38;5;196;48;5;232".to_vec());
    assert_eq!(a.fg, Color::new(255, 0, 0));
    assert_eq!(a.bg, Color::new(8, 8, 8));
}

#[test]
fn sgr_truncated_extended_color_is_ignored() {
    let mut a = Attrs::reset();
    apply_sgr(&mut a, &b"38;5".to_vec());
    assert_eq!(a, Attrs::reset());
    apply_sgr(&mut a, &b"38;2;1".to_vec());
    // 38 is skipped, 2 sets dim, 1 sets bold
    assert!(a.dim && a.bold);
    assert_eq!(a.fg, Color::default_fg());
}

#[test]
fn sgr_unparsable_segments_are_dropped() {
    assert_eq!(parse_params(&b"x;31".to_vec()), vec![31]);
    assert_eq!(parse_params(&b"300;1".to_vec()), vec![1]);
    assert_eq!(parse_params(&b"+4;031".to_vec()), vec![4, 31]);
    assert_eq!(parse_params(&b";".to_vec()), vec![0]);
    assert_eq!(parse_params(&b"".to_vec()), vec![0]);
    assert_eq!(parse_params(&b"-1;255".to_vec()), vec![255]);
}

#[test]
fn esc_31_m_then_a() {
    let mut s = TermState::new();
    let mut g = Grid::new(24, 80);
    feed(&mut s, &mut g, b"\x1b[31mA");
    let c = g.get(0, 0).unwrap();
    assert_eq!(c.c, 'A');
    assert_eq!(c.fg, red());
    assert_eq!(c.bg, Color::default_bg());
    assert_eq!(s.cursor_col, 1);
    assert_eq!(s.escape_state, EscapeState::Normal);
}

#[test]
fn sequence_split_across_chunks() {
    let mut s = TermState::new();
    let mut g = Grid::new(4, 10);
    feed(&mut s, &mut g, b"\x1b");
    feed(&mut s, &mut g, b"[3");
    feed(&mut s, &mut g, b"1m");
    feed(&mut s, &mut g, b"Z");
    assert_eq!(g.get(0, 0).unwrap().fg, red());
    assert_eq!(g.get(0, 0).unwrap().c, 'Z');
}

#[test]
fn tab_stops() {
    let mut s = TermState::new();
    let mut g = Grid::new(2, 10);
    s.cursor_col = 3;
    process_byte(&mut s, &mut g, b'\t');
    assert_eq!(s.cursor_col, 8);
    s.cursor_col = 9;
    process_byte(&mut s, &mut g, b'\t');
    assert_eq!(s.cursor_col, 9);
}

#[test]
fn full_line_wraps_to_next_row() {
    let mut s = TermState::new();
    let mut g = Grid::new(3, 5);
    feed(&mut s, &mut g, b"abcde");
    assert_eq!(s.cursor_col, 0);
    assert_eq!(s.cursor_row, 1);
    assert_eq!(g.get(0, 4).unwrap().c, 'e');
}

#[test]
fn full_line_on_last_row_scrolls() {
    let mut s = TermState::new();
    let mut g = Grid::new(2, 3);
    feed(&mut s, &mut g, b"abcdef");
    assert_eq!(s.cursor_row, 1);
    assert_eq!(s.cursor_col, 0);
    assert_eq!(g.get(0, 0).unwrap().c, 'd');
    assert_eq!(*g.get(1, 0).unwrap(), Cell::default());
}

#[test]
fn newline_on_last_row_scrolls() {
    let mut s = TermState::new();
    let mut g = Grid::new(3, 4);
    feed(&mut s, &mut g, b"a\r\nb\r\nc");
    assert_eq!(s.cursor_row, 2);
    process_byte(&mut s, &mut g, b'\n');
    assert_eq!(s.cursor_row, 2);
    assert_eq!(g.get(0, 0).unwrap().c, 'b');
    assert_eq!(g.get(1, 0).unwrap().c, 'c');
    for col in 0..4 {
        assert_eq!(*g.get(2, col).unwrap(), Cell::default());
    }
}

#[test]
fn backspace_carriage_return_and_ignored_bytes() {
    let mut s = TermState::new();
    let mut g = Grid::new(2, 10);
    feed(&mut s, &mut g, b"ab\x08");
    assert_eq!(s.cursor_col, 1);
    feed(&mut s, &mut g, b"\r\x08");
    assert_eq!(s.cursor_col, 0);
    feed(&mut s, &mut g, b"\x07\x01\x7f");
    assert_eq!(s.cursor_col, 0);
    assert_eq!(s.cursor_row, 0);
    assert_eq!(g.get(0, 0).unwrap().c, 'a');
}

#[test]
fn non_csi_escape_is_abandoned() {
    let mut s = TermState::new();
    let mut g = Grid::new(2, 10);
    feed(&mut s, &mut g, b"\x1bXY");
    assert_eq!(g.get(0, 0).unwrap().c, 'Y');
    assert_eq!(s.cursor_col, 1);
}

#[test]
fn other_csi_sequences_have_no_effect() {
    let mut s = TermState::new();
    let mut g = Grid::new(2, 10);
    feed(&mut s, &mut g, b"\x1b[2J\x1b[5;5HQ");
    assert_eq!(g.get(0, 0).unwrap().c, 'Q');
    assert_eq!(s.attrs, Attrs::reset());
    assert!(s.escape_buf.is_empty());
}

#[test]
fn extended_byte_is_written() {
    let mut s = TermState::new();
    let mut g = Grid::new(1, 4);
    process_byte(&mut s, &mut g, 0xe9);
    assert_eq!(g.get(0, 0).unwrap().c, '\u{e9}');
}

#[test]
fn styles_are_written_into_cells() {
    let mut s = TermState::new();
    let mut g = Grid::new(1, 4);
    feed(&mut s, &mut g, b"\x1b[1;4;48;5;16mx");
    let c = g.get(0, 0).unwrap();
    assert!(c.style.bold && c.style.underline && !c.style.dim);
    assert!(!c.style.strikethrough && !c.style.inverse);
    assert_eq!(c.bg, Color::new(0, 0, 0));
}

#[test]
fn grid_bounds() {
    let mut g = Grid::new(2, 3);
    assert_eq!(g.rows(), 2);
    assert_eq!(g.cols(), 3);
    assert!(g.get(2, 0).is_none());
    assert!(g.get(0, 3).is_none());
    let mut cell = Cell::default();
    cell.c = 'q';
    g.set(5, 5, cell);
    g.set(1, 2, cell);
    assert_eq!(g.get(1, 2).unwrap().c, 'q');
    let rows = g.row_cells();
    assert_eq!(rows.len(), 2);
    assert_eq!(rows[1].len(), 3);
    assert_eq!(rows[1][2].c, 'q');
}

#[test]
fn grid_scroll_up() {
    let mut g = Grid::new(2, 2);
    let mut cell = Cell::default();
    cell.c = 'k';
    g.set(1, 1, cell);
    g.scroll_up();
    assert_eq!(g.get(0, 1).unwrap().c, 'k');
    assert_eq!(*g.get(1, 1).unwrap(), Cell::default());
}

#[test]
fn key_mapping() {
    assert_eq!(key_to_bytes(KeyInput::Enter, false), b"\r".to_vec());
    assert_eq!(key_to_bytes(KeyInput::Backspace, false), vec![0x7f]);
    assert_eq!(key_to_bytes(KeyInput::Tab, false), b"\t".to_vec());
    assert_eq!(key_to_bytes(KeyInput::Escape, false), vec![0x1b]);
    assert_eq!(key_to_bytes(KeyInput::ArrowUp, false), b"\x1b[A".to_vec());
    assert_eq!(key_to_bytes(KeyInput::ArrowDown, false), b"\x1b[B".to_vec());
    assert_eq!(key_to_bytes(KeyInput::ArrowRight, false), b"\x1b[C".to_vec());
    assert_eq!(key_to_bytes(KeyInput::ArrowLeft, false), b"\x1b[D".to_vec());
    assert_eq!(key_to_bytes(KeyInput::Home, false), b"\x1b[H".to_vec());
    assert_eq!(key_to_bytes(KeyInput::End, false), b"\x1b[F".to_vec());
    assert_eq!(key_to_bytes(KeyInput::Delete, false), b"\x1b[3~".to_vec());
    assert_eq!(key_to_bytes(KeyInput::Character(b"c".to_vec()), true), vec![3]);
    assert_eq!(key_to_bytes(KeyInput::Character(b"a".to_vec()), true), vec![1]);
    assert_eq!(key_to_bytes(KeyInput::Character(b"c".to_vec()), false), b"c".to_vec());
    assert_eq!(key_to_bytes(KeyInput::Character(b"C".to_vec()), true), b"C".to_vec());
    assert_eq!(key_to_bytes(KeyInput::Character(b"ab".to_vec()), true), b"ab".to_vec());
    assert!(key_to_bytes(KeyInput::Other, true).is_empty());
}
