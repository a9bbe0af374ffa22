//! Slicing font sheets into glyph atlases.

use unicorn_board::bitmap::Bitmap;
use unicorn_board::font::{
    font_meta, get_fonts_meta_info, load_fontmaps, slice_atlas, Font, FontLoadError, FontMeta,
};

/// A sheet whose pixel at (x, y) is a known function of the coordinates,
/// so sliced cells can be checked against their sheet region.
fn patterned_sheet(w: usize, h: usize) -> Bitmap {
    let mut data = Vec::new();
    for y in 0..h {
        for x in 0..w {
            data.push(((3 * x + 7 * y) % 251) as u8);
        }
    }
    Bitmap::from_raw(w, h, data).unwrap()
}

fn grid_meta(cell: usize, cols: usize, rows: usize) -> FontMeta {
    FontMeta {
        filepath: "",
        origin: (0, 0),
        stride: (cell, cell),
        char_dims: (cell, cell),
        map_dims: (cols, rows),
    }
}

#[test]
fn slice_atlas_cell_count_and_dims() {
    let sheet = patterned_sheet(256, 32);
    let meta = grid_meta(8, 32, 4);
    let cells = slice_atlas(&sheet, &meta).unwrap();
    assert_eq!(cells.len(), 128);
    for cell in &cells {
        assert_eq!(cell.width(), 8);
        assert_eq!(cell.height(), 8);
    }
}

#[test]
fn slice_atlas_cell_contents_match_sheet() {
    let sheet = patterned_sheet(256, 32);
    let meta = grid_meta(8, 32, 4);
    let cells = slice_atlas(&sheet, &meta).unwrap();
    // glyph k sits at column k % 32, row k / 32 of the grid
    for &k in &[0usize, 1, 31, 32, 65, 127] {
        let x0 = (k % 32) * 8;
        let y0 = (k / 32) * 8;
        for dy in 0..8 {
            for dx in 0..8 {
                assert_eq!(cells[k].get(dx, dy), sheet.get(x0 + dx, y0 + dy));
            }
        }
    }
}

#[test]
fn slice_atlas_rejects_grid_outside_sheet() {
    // a 32x4 grid of 8x8 cells needs 256x32; this sheet is one row short
    let sheet = patterned_sheet(256, 31);
    let meta = grid_meta(8, 32, 4);
    assert!(matches!(
        slice_atlas(&sheet, &meta),
        Err(FontLoadError::BadGeometry)
    ));
}

#[test]
fn slice_atlas_rejects_empty_cells() {
    let sheet = patterned_sheet(16, 16);
    let mut meta = grid_meta(4, 4, 4);
    meta.char_dims = (0, 4);
    assert!(matches!(
        slice_atlas(&sheet, &meta),
        Err(FontLoadError::BadGeometry)
    ));
}

#[test]
fn slice_atlas_honors_origin_and_stride() {
    let sheet = patterned_sheet(100, 50);
    let meta = FontMeta {
        filepath: "",
        origin: (5, 3),
        stride: (10, 12),
        char_dims: (6, 7),
        map_dims: (9, 3),
    };
    let cells = slice_atlas(&sheet, &meta).unwrap();
    assert_eq!(cells.len(), 27);
    // glyph 10 is column 1, row 1 of the grid
    let x0 = 5 + 1 * 10;
    let y0 = 3 + 1 * 12;
    for dy in 0..7 {
        for dx in 0..6 {
            assert_eq!(cells[10].get(dx, dy), sheet.get(x0 + dx, y0 + dy));
        }
    }
}

#[test]
fn fonts_meta_info_lists_both_fonts() {
    let metas = get_fonts_meta_info();
    assert_eq!(metas.len(), 2);
    assert_eq!(metas[0].0, Font::Small5x5);
    assert_eq!(metas[0].1.filepath, "fonts/kongtext.png");
    assert_eq!(metas[0].1.char_dims, (8, 8));
    assert_eq!(metas[0].1.stride, (8, 8));
    assert_eq!(metas[0].1.map_dims, (32, 4));
    assert_eq!(metas[1].0, Font::Big8x8);
    assert_eq!(metas[1].1.filepath, "fonts/magero.png");
    assert_eq!(metas[1].1.char_dims, (5, 5));
    assert_eq!(metas[1].1.map_dims, (32, 4));
}

#[test]
fn load_fontmaps_slices_both_sheets() {
    let small_meta = font_meta(Font::Small5x5);
    let big_meta = font_meta(Font::Big8x8);
    let small_sheet = patterned_sheet(
        small_meta.map_dims.0 * small_meta.stride.0,
        small_meta.map_dims.1 * small_meta.stride.1,
    );
    let big_sheet = patterned_sheet(
        big_meta.map_dims.0 * big_meta.stride.0,
        big_meta.map_dims.1 * big_meta.stride.1,
    );
    let maps = load_fontmaps(&small_sheet, &big_sheet).unwrap();
    assert_eq!(maps.small5x5.len(), 128);
    assert_eq!(maps.big8x8.len(), 128);
    assert_eq!(maps.small5x5[0].width(), 8);
    assert_eq!(maps.big8x8[0].width(), 5);
    assert_eq!(maps.get(Font::Small5x5)[3].get(1, 2), small_sheet.get(3 * 8 + 1, 2));
}

#[test]
fn load_fontmaps_rejects_short_sheet() {
    let small_sheet = patterned_sheet(256, 32);
    let big_sheet = patterned_sheet(159, 20);
    assert!(matches!(
        load_fontmaps(&small_sheet, &big_sheet),
        Err(FontLoadError::BadGeometry)
    ));
}

#[test]
fn bitmap_from_raw_checks_length() {
    assert!(Bitmap::from_raw(4, 4, vec![0u8; 16]).is_some());
    assert!(Bitmap::from_raw(4, 4, vec![0u8; 15]).is_none());
}
