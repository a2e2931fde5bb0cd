use ascii_cube::present::{clear_screen, cursor_home};
use ascii_cube::raster::{Canvas, Sample};

fn one() -> u64 {
    1.0f64.to_bits()
}

#[test]
fn clear_screen_is_esc_bracket_2_j() {
    assert_eq!(clear_screen(), b"\x1b[2J".to_vec());
}

#[test]
fn cursor_home_is_esc_bracket_h() {
    assert_eq!(cursor_home(), b"\x1b[H".to_vec());
}

#[test]
fn blank_canvas_presents_background_everywhere() {
    let canvas = Canvas::new(5, 3, '.');
    assert_eq!(canvas.present(), vec!['.'; 15]);
}

#[test]
fn present_has_one_character_per_cell_and_no_line_breaks() {
    let canvas = Canvas::new(160, 44, ' ');
    let cells = canvas.present();
    assert_eq!(cells.len(), 160 * 44);
    assert!(cells.iter().all(|c| *c == ' '));
}

#[test]
fn present_blanks_the_leftmost_column() {
    let mut canvas = Canvas::new(4, 3, ' ');
    for yp in 0..3 {
        for xp in 0..4 {
            assert!(canvas.plot(Sample { xp, yp, ooz: one(), glyph: '#' }));
        }
    }
    assert_eq!(canvas.glyphs(), &vec!['#'; 12]);
    let expected: Vec<char> = " ### ### ###".chars().collect();
    assert_eq!(canvas.present(), expected);
}

#[test]
fn present_uses_the_background_for_the_leftmost_column() {
    let mut canvas = Canvas::new(3, 2, '.');
    canvas.plot(Sample { xp: 0, yp: 0, ooz: one(), glyph: '#' });
    canvas.plot(Sample { xp: 1, yp: 0, ooz: one(), glyph: '@' });
    canvas.plot(Sample { xp: 0, yp: 1, ooz: one(), glyph: '#' });
    let expected: Vec<char> = ".@....".chars().collect();
    assert_eq!(canvas.present(), expected);
}

#[test]
fn present_leaves_the_buffers_alone() {
    let mut canvas = Canvas::new(3, 2, '.');
    canvas.plot(Sample { xp: 0, yp: 0, ooz: one(), glyph: '#' });
    let _ = canvas.present();
    assert_eq!(canvas.glyphs()[0], '#');
    assert_eq!(canvas.depth()[0], one());
}

#[test]
fn present_of_an_empty_canvas_is_empty() {
    assert_eq!(Canvas::new(0, 7, ' ').present(), Vec::<char>::new());
    assert_eq!(Canvas::new(7, 0, ' ').present(), Vec::<char>::new());
    assert_eq!(Canvas::new(0, 0, ' ').present(), Vec::<char>::new());
}

#[test]
fn present_of_a_single_column_is_all_background() {
    let mut canvas = Canvas::new(1, 3, ' ');
    canvas.plot(Sample { xp: 0, yp: 1, ooz: one(), glyph: '#' });
    assert_eq!(canvas.present(), vec![' ', ' ', ' ']);
}
