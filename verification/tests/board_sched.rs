//! The board lifecycle and the minimum-deadline scheduler, driven with
//! simulated time.

use unicorn_board::bitmap::Bitmap;
use unicorn_board::board::{BoardError, BoardLine, UnicornBoard};
use unicorn_board::font::{slice_atlas, Font, FontMaps, FontMeta};
use unicorn_board::line::Line;
use unicorn_board::scroll::{Scroll, STATIC_POLL_US};
use unicorn_board::{SCREEN_H, SCREEN_W};

const RED: (u8, u8, u8) = (255, 0, 0);
const BLACK: (u8, u8, u8) = (0, 0, 0);

/// An atlas of 128 8x8 glyphs where 'A' (code 65) is fully active and
/// every other glyph, the space included, is blank.
fn atlas_8x8_solid_a() -> Vec<Bitmap> {
    let (w, h) = (256usize, 32usize);
    let mut data = vec![0u8; w * h];
    for dy in 0..8 {
        for dx in 0..8 {
            data[(16 + dy) * w + (8 + dx)] = 255;
        }
    }
    let sheet = Bitmap::from_raw(w, h, data).unwrap();
    let meta = FontMeta {
        filepath: "",
        origin: (0, 0),
        stride: (8, 8),
        char_dims: (8, 8),
        map_dims: (32, 4),
    };
    slice_atlas(&sheet, &meta).unwrap()
}

/// An atlas of 128 blank 5x5 glyphs.
fn atlas_5x5_blank() -> Vec<Bitmap> {
    let sheet = Bitmap::from_raw(160, 20, vec![0u8; 160 * 20]).unwrap();
    let meta = FontMeta {
        filepath: "",
        origin: (0, 0),
        stride: (5, 5),
        char_dims: (5, 5),
        map_dims: (32, 4),
    };
    slice_atlas(&sheet, &meta).unwrap()
}

fn test_fonts() -> FontMaps {
    FontMaps { small5x5: atlas_5x5_blank(), big8x8: atlas_8x8_solid_a() }
}

/// Activation with an empty line list leaves the board idle; teardown of
/// an idle board is immediate.
#[test]
fn empty_activation_stays_idle() {
    let fonts = test_fonts();
    let mut board = UnicornBoard::new();
    assert!(!board.is_active());
    let r = board.activate(&fonts, &vec![], 0);
    assert!(r.is_ok());
    assert!(!board.is_active());
    assert_eq!(board.lines.len(), 0);
    board.deactivate();
    assert!(!board.is_active());
}

/// A second activation while one is outstanding is rejected.
#[test]
fn double_activation_rejected() {
    let fonts = test_fonts();
    let mut board = UnicornBoard::new();
    let configs = vec![Line::new("A")];
    board.activate(&fonts, &configs, 0).unwrap();
    assert!(board.is_active());
    assert_eq!(board.activate(&fonts, &configs, 0), Err(BoardError::AlreadyActive));
    board.deactivate();
    assert!(!board.is_active());
    board.activate(&fonts, &configs, 0).unwrap();
    assert!(board.is_active());
}

/// Lines stack vertically by the glyph heights of the lines before them.
#[test]
fn lines_stack_by_font_height() {
    let fonts = test_fonts();
    let mut board = UnicornBoard::new();
    let configs = vec![
        Line::new("A"),
        Line::new("A").with_font(Font::Small5x5),
        Line::new("A"),
    ];
    board.activate(&fonts, &configs, 0).unwrap();
    assert_eq!(board.lines.len(), 3);
    assert_eq!(board.lines[0].y, 0);
    assert_eq!(board.lines[1].y, 8);
    assert_eq!(board.lines[2].y, 13);
}

/// A static line shows the same frame tick after tick, with no offset
/// drift across repeated display calls; the line band shows the glyph,
/// rows below it stay black.
#[test]
fn static_line_repeats_identical_frames() {
    let fonts = test_fonts();
    let mut board = UnicornBoard::new();
    let configs = vec![Line::new("A").with_color(255, 0, 0)];
    board.activate(&fonts, &configs, 0).unwrap();
    let mut t = 0u64;
    for _ in 0..4 {
        let (frame, next) = board.display(t);
        assert_eq!(board.lines[0].scroll.x_offset, 0);
        assert_eq!(next, t + STATIC_POLL_US);
        for y in 0..8 {
            for x in 0..8 {
                // left cell shows the solid 'A' in red
                assert_eq!(frame.get(x, y), RED);
                // right cell is the padding blank
                assert_eq!(frame.get(8 + x, y), BLACK);
            }
        }
        for y in 8..SCREEN_H {
            for x in 0..SCREEN_W {
                assert_eq!(frame.get(x, y), BLACK);
            }
        }
        t = next;
    }
}

/// Two scrolling lines advance independently: driven for one simulated
/// second, a left line at 16 px/s has moved 16 pixels forward and a right
/// line at 8 px/s has moved 8 pixels back (wrapped), each modulo its own
/// pixmap width.
#[test]
fn two_lines_advance_at_their_own_speeds() {
    let fonts = test_fonts();
    let mut board = UnicornBoard::new();
    let configs = vec![
        Line::new("ABCD").with_scroll(Scroll::Left { speed: 16000, spacing: 0 }),
        Line::new("ABCD").with_scroll(Scroll::Right { speed: 8000, spacing: 0 }),
    ];
    board.activate(&fonts, &configs, 0).unwrap();
    // both pixmaps are 4 cells of 8 px: one full period is 32 px
    assert_eq!(board.lines[0].pixmap.width, 32);
    assert_eq!(board.lines[1].pixmap.width, 32);

    let mut now = 0u64;
    let (_, mut next) = board.display(now);
    while next <= 1_000_000 {
        assert!(next > now);
        now = next;
        let (_, n) = board.display(now);
        next = n;
    }
    assert_eq!(now, 1_000_000);
    // 16 advances in the positive direction
    assert_eq!(board.lines[0].scroll.x_offset, 16);
    // 8 advances in the negative direction, wrapped modulo 32
    assert_eq!(board.lines[1].scroll.x_offset, 32 - 8);
}

/// The scheduler wakes at the earliest deadline of any line: a fast and a
/// slow line give the fast line's interval.
#[test]
fn scheduler_picks_minimum_deadline() {
    let fonts = test_fonts();
    let mut board = UnicornBoard::new();
    let configs = vec![
        Line::new("ABCD").with_scroll(Scroll::Left { speed: 16000, spacing: 0 }),
        Line::new("ABCD").with_scroll(Scroll::Right { speed: 8000, spacing: 0 }),
    ];
    board.activate(&fonts, &configs, 0).unwrap();
    let (_, next) = board.display(0);
    assert_eq!(next, 62_500);
}

/// The auto modes scroll only when the text exceeds the display capacity.
#[test]
fn auto_mode_scrolls_only_long_text() {
    let fonts = test_fonts();
    let mut board = UnicornBoard::new();
    let configs = vec![
        Line::new("AB").with_scroll(Scroll::LeftAuto { speed: 16000, spacing: 0 }),
        Line::new("ABC").with_scroll(Scroll::LeftAuto { speed: 16000, spacing: 0 }),
    ];
    board.activate(&fonts, &configs, 0).unwrap();
    // "AB" fits the 2-character display exactly: static
    assert_eq!(board.lines[0].scroll.speed, 0);
    // "ABC" does not fit: scrolls left at the configured speed
    assert_eq!(board.lines[1].scroll.speed, 16000);
    let mut now = 0u64;
    let (_, mut next) = board.display(now);
    while next <= 1_000_000 {
        now = next;
        let (_, n) = board.display(now);
        next = n;
    }
    assert_eq!(board.lines[0].scroll.x_offset, 0);
    assert_eq!(board.lines[1].scroll.x_offset, 16);
}

/// Spacing is appended to the scroll period for left modes: the pixmap
/// grows by the spacing's blank cells.
#[test]
fn left_spacing_widens_period() {
    let fonts = test_fonts();
    let mut board = UnicornBoard::new();
    let configs = vec![Line::new("ABC").with_scroll(Scroll::Left { speed: 16000, spacing: 5 })];
    board.activate(&fonts, &configs, 0).unwrap();
    assert_eq!(board.lines[0].pixmap.width, (3 + 5) * 8);
}

/// An auto mode whose text fits the display degrades to static with no
/// spacing added: the pixmap is exactly the padded capacity wide, not
/// widened by the configured spacing.
#[test]
fn degraded_auto_adds_no_spacing() {
    let fonts = test_fonts();
    let mut board = UnicornBoard::new();
    let configs = vec![
        Line::new("A").with_scroll(Scroll::LeftAuto { speed: 16000, spacing: 5 }),
        Line::new("A").with_scroll(Scroll::RightAuto { speed: 16000, spacing: 5 }),
        // one character over the capacity: the spacing is placed
        Line::new("ABC").with_scroll(Scroll::LeftAuto { speed: 16000, spacing: 5 }),
    ];
    board.activate(&fonts, &configs, 0).unwrap();
    assert_eq!(board.lines[0].scroll.speed, 0);
    assert_eq!(board.lines[0].pixmap.width, 16);
    assert_eq!(board.lines[1].scroll.speed, 0);
    assert_eq!(board.lines[1].pixmap.width, 16);
    assert_eq!(board.lines[2].scroll.speed, 16000);
    assert_eq!(board.lines[2].pixmap.width, (3 + 5) * 8);
}

/// A scrolled line samples its pixmap shifted by the offset: after one
/// advance of a left-scrolling line, the frame shows the pixmap shifted
/// one pixel left.
#[test]
fn scrolled_frame_shows_shifted_window() {
    let fonts = test_fonts();
    let mut board = UnicornBoard::new();
    let configs = vec![
        Line::new("A").with_color(255, 0, 0).with_scroll(Scroll::Left { speed: 1000, spacing: 0 }),
    ];
    board.activate(&fonts, &configs, 0).unwrap();
    let (_, next) = board.display(0);
    assert_eq!(next, 1_000_000);
    let (frame, _) = board.display(next);
    assert_eq!(board.lines[0].scroll.x_offset, 1);
    // pixmap columns 1..8 are 'A' pixels, so screen columns 0..7 are red;
    // column 7 now shows pixmap column 8, the blank cell
    for y in 0..8 {
        for x in 0..7 {
            assert_eq!(frame.get(x, y), RED);
        }
        assert_eq!(frame.get(7, y), BLACK);
        // the wrapped tail: screen column 15 shows pixmap column 0
        assert_eq!(frame.get(15, y), RED);
    }
}

/// A right-scrolling line's prepended spacing shows first: the blank cell
/// sits on the left half of the screen and the glyph on the right.
#[test]
fn right_spacing_prepends_blank_cell() {
    let fonts = test_fonts();
    let mut board = UnicornBoard::new();
    let configs = vec![
        Line::new("A").with_color(255, 0, 0).with_scroll(Scroll::Right { speed: 1000, spacing: 1 }),
    ];
    board.activate(&fonts, &configs, 0).unwrap();
    // period is " A": two cells, 16 px
    assert_eq!(board.lines[0].pixmap.width, 16);
    assert_eq!(board.lines[0].scroll.speed, -1000);
    let (frame, _) = board.display(0);
    for y in 0..8 {
        for x in 0..8 {
            assert_eq!(frame.get(x, y), BLACK);
            assert_eq!(frame.get(8 + x, y), RED);
        }
    }
    // one advance to the right: the window starts one pixel earlier, so the
    // wrapped last pixmap column (glyph 'A') appears at screen column 0
    let (frame, _) = board.display(1_000_000);
    assert_eq!(board.lines[0].scroll.x_offset, 15);
    for y in 0..8 {
        assert_eq!(frame.get(0, y), RED);
        assert_eq!(frame.get(1, y), BLACK);
        // columns 9..15 show pixmap columns 8..14: glyph pixels
        assert_eq!(frame.get(9, y), RED);
    }
}

/// A directly built board line starts at offset zero with its clock set.
#[test]
fn board_line_starts_at_zero_offset() {
    let atlas = atlas_8x8_solid_a();
    let config = Line::new("A").with_scroll(Scroll::Left { speed: 2000, spacing: 1 });
    let line = BoardLine::new(&atlas, 4, &config, 777);
    assert_eq!(line.y, 4);
    assert_eq!(line.scroll.x_offset, 0);
    assert_eq!(line.scroll.prev_us, 777);
    assert_eq!(line.scroll.speed, 2000);
    assert_eq!(line.pixmap.height, 8);
    assert_eq!(line.pixmap.width, 16);
}
