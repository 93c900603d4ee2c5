use mrgr::font::{bitmap_path, glyph_manifest_path, FontSlot};
use mrgr::{layout_text, BitmapFont, PlacedGlyph, Rect, TextStyle};

fn chars(text: &str) -> Vec<char> {
    text.chars().collect()
}

fn rect(x: i64, y: i64, width: i64, height: i64) -> Rect {
    Rect { x, y, width, height }
}

/// Full-width: 中 文 字 好 (0..4); half-width: a b c ? d (4..9); 4 columns.
fn sample_font() -> BitmapFont {
    BitmapFont::load(&chars("中文字好"), &chars("abc?d"), 64).unwrap()
}

#[test]
fn styles_know_their_cell() {
    assert!(TextStyle::SmallNormal.is_small());
    assert!(TextStyle::SmallBold.is_small());
    assert!(TextStyle::SmallItalic.is_small());
    assert!(TextStyle::SmallBoldItalic.is_small());
    assert!(!TextStyle::LargeNormal.is_small());
    assert!(!TextStyle::LargeBold.is_small());
    assert!(!TextStyle::LargeItalic.is_small());
    assert!(!TextStyle::LargeBoldItalic.is_small());
    assert_eq!(TextStyle::SmallItalic.cell_size(), 16);
    assert_eq!(TextStyle::LargeBold.cell_size(), 32);
}

#[test]
fn styles_know_their_suffix() {
    assert_eq!(TextStyle::SmallNormal.suffix(), "n");
    assert_eq!(TextStyle::SmallBold.suffix(), "nb");
    assert_eq!(TextStyle::SmallItalic.suffix(), "ni");
    assert_eq!(TextStyle::SmallBoldItalic.suffix(), "nbi");
    assert_eq!(TextStyle::LargeNormal.suffix(), "l");
    assert_eq!(TextStyle::LargeBold.suffix(), "lb");
    assert_eq!(TextStyle::LargeItalic.suffix(), "li");
    assert_eq!(TextStyle::LargeBoldItalic.suffix(), "lbi");
}

#[test]
fn lookup_gives_column_and_row() {
    let font = sample_font();
    let zhong = font.lookup('中').unwrap();
    assert_eq!(zhong.pos, (0, 0));
    assert!(zhong.is_full_width);
    let hao = font.lookup('好').unwrap();
    assert_eq!(hao.pos, (3, 0));
    let a = font.lookup('a').unwrap();
    assert_eq!(a.pos, (0, 1));
    assert!(!a.is_full_width);
    let d = font.lookup('d').unwrap();
    assert_eq!(d.pos, (0, 2));
    assert!(font.lookup('z').is_none());
}

#[test]
fn unregistered_character_uses_question_mark() {
    let font = sample_font();
    let question = font.lookup('?').unwrap();
    assert_eq!(question.pos, (3, 1));
    let fallback = font.lookup_or_default('z');
    assert_eq!(fallback.pos, question.pos);
    assert_eq!(fallback.is_full_width, question.is_full_width);
    let known = font.lookup_or_default('b');
    assert_eq!(known.pos, (1, 1));
}

#[test]
fn unregistered_character_is_drawn_from_question_mark_cell() {
    let font = sample_font();
    let glyphs = layout_text(Some(&font), &chars("z"), TextStyle::SmallNormal, (0, 0), 100);
    assert_eq!(glyphs, vec![PlacedGlyph { src: rect(48, 16, 8, 16), dst: rect(0, 0, 8, 16) }]);
}

#[test]
fn character_listed_twice_keeps_last_index() {
    let font = BitmapFont::load(&chars("xyx"), &chars("?"), 32).unwrap();
    assert_eq!(font.lookup('x').unwrap().pos, (0, 1));
    assert_eq!(font.lookup('y').unwrap().pos, (1, 0));
    assert_eq!(font.lookup('?').unwrap().pos, (1, 1));
}

#[test]
fn full_width_registry_is_asked_first() {
    let font = BitmapFont::load(&chars("a?"), &chars("a"), 160).unwrap();
    let a = font.lookup('a').unwrap();
    assert!(a.is_full_width);
    assert_eq!(a.pos, (0, 0));
}

#[test]
fn font_without_question_mark_is_not_loaded() {
    assert!(BitmapFont::load(&chars("abc"), &chars("def"), 64).is_none());
}

#[test]
fn font_with_narrow_reference_bitmap_is_not_loaded() {
    assert!(BitmapFont::load(&chars("?"), &chars(""), 15).is_none());
    assert!(BitmapFont::load(&chars("?"), &chars(""), 0).is_none());
    assert!(BitmapFont::load(&chars("?"), &chars(""), -64).is_none());
    assert!(BitmapFont::load(&chars("?"), &chars(""), 16).is_some());
}

#[test]
fn eleventh_full_width_character_wraps() {
    let font = sample_font();
    let text = chars("中文字好中文字好中文字");
    assert_eq!(text.len(), 11);
    let glyphs = layout_text(Some(&font), &text, TextStyle::SmallNormal, (20, 30), 160);
    assert_eq!(glyphs.len(), 11);
    for (i, glyph) in glyphs.iter().take(10).enumerate() {
        assert_eq!(glyph.dst, rect(20 + 16 * i as i64, 30, 16, 16));
    }
    assert_eq!(glyphs[9].dst, rect(164, 30, 16, 16));
    assert_eq!(glyphs[10].dst, rect(20, 46, 16, 16));
    assert_eq!(glyphs[10].src, rect(32, 0, 16, 16));
}

#[test]
fn newline_starts_a_new_line() {
    let font = sample_font();
    let glyphs = layout_text(Some(&font), &chars("a\nb\n\nc"), TextStyle::SmallNormal, (5, 7), 1000);
    assert_eq!(
        glyphs,
        vec![
            PlacedGlyph { src: rect(0, 16, 8, 16), dst: rect(5, 7, 8, 16) },
            PlacedGlyph { src: rect(16, 16, 8, 16), dst: rect(5, 23, 8, 16) },
            PlacedGlyph { src: rect(32, 16, 8, 16), dst: rect(5, 55, 8, 16) },
        ]
    );
}

#[test]
fn carriage_return_changes_nothing() {
    let font = sample_font();
    let with = layout_text(Some(&font), &chars("a\rb\r\n\rc中\r"), TextStyle::LargeBold, (3, 4), 70);
    let without = layout_text(Some(&font), &chars("ab\nc中"), TextStyle::LargeBold, (3, 4), 70);
    assert_eq!(with, without);
    assert_eq!(with.len(), 4);
}

#[test]
fn mixed_widths_in_large_style() {
    let font = sample_font();
    let glyphs = layout_text(Some(&font), &chars("a中b"), TextStyle::LargeNormal, (0, 0), 64);
    assert_eq!(
        glyphs,
        vec![
            PlacedGlyph { src: rect(0, 32, 16, 32), dst: rect(0, 0, 16, 32) },
            PlacedGlyph { src: rect(0, 0, 32, 32), dst: rect(16, 0, 32, 32) },
            PlacedGlyph { src: rect(32, 32, 16, 32), dst: rect(48, 0, 16, 32) },
        ]
    );
}

#[test]
fn half_width_glyph_wraps_when_it_does_not_fit() {
    let font = sample_font();
    let glyphs = layout_text(Some(&font), &chars("abc"), TextStyle::SmallNormal, (0, 0), 20);
    assert_eq!(glyphs[0].dst, rect(0, 0, 8, 16));
    assert_eq!(glyphs[1].dst, rect(8, 0, 8, 16));
    assert_eq!(glyphs[2].dst, rect(0, 16, 8, 16));
}

#[test]
fn zero_line_width_puts_one_glyph_on_each_line() {
    let font = sample_font();
    let glyphs = layout_text(Some(&font), &chars("ab"), TextStyle::SmallNormal, (10, 10), 0);
    assert_eq!(glyphs[0].dst, rect(10, 26, 8, 16));
    assert_eq!(glyphs[1].dst, rect(10, 42, 8, 16));
}

#[test]
fn glyphs_below_the_last_coordinate_are_left_out() {
    let font = sample_font();
    let glyphs = layout_text(
        Some(&font),
        &chars("a\nb"),
        TextStyle::SmallNormal,
        (0, i32::MAX - 10),
        100,
    );
    assert_eq!(glyphs, vec![PlacedGlyph {
        src: rect(0, 16, 8, 16),
        dst: rect(0, i32::MAX as i64 - 10, 8, 16)
    }]);
}

#[test]
fn no_font_draws_nothing() {
    let glyphs = layout_text(None, &chars("hello"), TextStyle::SmallNormal, (0, 0), 100);
    assert!(glyphs.is_empty());
}

#[test]
fn empty_text_draws_nothing() {
    let font = sample_font();
    assert!(layout_text(Some(&font), &[], TextStyle::SmallNormal, (0, 0), 100).is_empty());
}

#[test]
fn font_slot_starts_empty_and_is_replaced_whole() {
    let mut slot = FontSlot::new();
    assert!(!slot.is_font_loaded());
    assert!(slot.font().is_none());
    slot.load_bitmap_font(&chars("中"), &chars("?"), 64);
    assert!(slot.is_font_loaded());
    assert_eq!(slot.font().unwrap().lookup('?').unwrap().pos, (1, 0));
    slot.load_bitmap_font(&chars("?中"), &chars(""), 64);
    assert_eq!(slot.font().unwrap().lookup('?').unwrap().pos, (0, 0));
    slot.load_bitmap_font(&chars("no default"), &chars(""), 64);
    assert!(!slot.is_font_loaded());
}

#[test]
fn asset_paths_follow_the_convention() {
    assert_eq!(glyph_manifest_path("fonts/noto", true), "fonts/noto-gf.txt");
    assert_eq!(glyph_manifest_path("fonts/noto", false), "fonts/noto-gh.txt");
    assert_eq!(bitmap_path("fonts/noto", TextStyle::SmallNormal), "fonts/noto-n.png");
    assert_eq!(bitmap_path("fonts/noto", TextStyle::SmallBoldItalic), "fonts/noto-nbi.png");
    assert_eq!(bitmap_path("fonts/noto", TextStyle::LargeBold), "fonts/noto-lb.png");
    assert_eq!(bitmap_path("", TextStyle::LargeItalic), "-li.png");
}

#[test]
fn styles_are_listed_small_before_large() {
    assert_eq!(
        TextStyle::all(),
        vec![
            TextStyle::SmallNormal,
            TextStyle::SmallBold,
            TextStyle::SmallItalic,
            TextStyle::SmallBoldItalic,
            TextStyle::LargeNormal,
            TextStyle::LargeBold,
            TextStyle::LargeItalic,
            TextStyle::LargeBoldItalic,
        ]
    );
    assert_eq!(TextStyle::reference(), TextStyle::SmallNormal);
}
