use lyrics::font::{centered_start, glyph, glyph_upper, render, HEIGHT};

const SUPPORTED: &str = "ABCDEFGHIJKLMNOPQRSTUVWXYZ0123456789АБВГДЕЁЖЗИЙКЛМНОПРСТУФХЦЧШЩЪЫЬЭЮЯ',.!?- ()[]:;\"";

/// A glyph whose rows disagree on width would shear apart when the two
/// pixel rows are packed into one terminal row.
#[test]
fn every_glyph_is_rectangular() {
    for c in SUPPORTED.chars() {
        let g = glyph(c);
        let width = g[0].chars().count();
        for (i, row) in g.iter().enumerate() {
            assert_eq!(
                row.chars().count(),
                width,
                "glyph {c:?} row {i} is {} wide, expected {width}",
                row.chars().count()
            );
        }
    }
}

#[test]
fn render_emits_exactly_height_rows_of_equal_width() {
    let rows = render("Hello, Мир!");
    assert_eq!(rows.len(), HEIGHT);
    let width = rows[0].chars().count();
    assert!(rows.iter().all(|r| r.chars().count() == width));
}

#[test]
fn unknown_characters_do_not_panic() {
    assert_eq!(render("日本語 ♫ ").len(), HEIGHT);
}

#[test]
fn lower_case_letters_share_the_upper_case_glyph() {
    assert_eq!(glyph('a'), glyph('A'));
    assert_eq!(glyph('ж'), glyph('Ж'));
    assert_eq!(glyph('ё'), glyph('Ё'));
}

#[test]
fn lookalike_cyrillic_letters_share_latin_glyphs() {
    assert_eq!(glyph('А'), glyph('A'));
    assert_eq!(glyph('В'), glyph('B'));
    assert_eq!(glyph('З'), glyph('3'));
}

#[test]
fn unknown_characters_get_a_blank_glyph() {
    let g = glyph('日');
    assert!(g.iter().all(|r| *r == "    "));
}

#[test]
fn render_packs_two_pixel_rows_into_half_blocks() {
    // 'I' is "###"," # "," # ",... : the top row packs "###" over " # ".
    let rows = render("I");
    assert_eq!(rows[0], "▀█▀");
    assert_eq!(rows[1], " █ ");
    assert_eq!(rows[4], "▄█▄");
}

#[test]
fn render_puts_one_blank_column_between_glyphs() {
    let rows = render("II");
    assert_eq!(rows[0], "▀█▀ ▀█▀");
    let single = render("I")[0].chars().count();
    assert_eq!(rows[2].chars().count(), 2 * single + 1);
}

#[test]
fn render_of_empty_text_is_height_empty_rows() {
    let rows = render("");
    assert_eq!(rows.len(), HEIGHT);
    assert!(rows.iter().all(|r| r.is_empty()));
}

#[test]
fn centering_splits_the_spare_room() {
    assert_eq!(centered_start(80, 20), 30);
    assert_eq!(centered_start(81, 20), 30);
    assert_eq!(centered_start(10, 20), 0);
    assert_eq!(centered_start(20, 20), 0);
}

#[test]
fn glyphs_ignore_case_for_latin_and_cyrillic() {
    assert_eq!(glyph('h'), glyph('H'));
    assert_eq!(glyph('я'), glyph('Я'));
    assert_eq!(glyph('ё'), glyph('Ё'));
    assert_eq!(glyph('H'), glyph_upper('H'));
}
