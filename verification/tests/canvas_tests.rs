use mrgr::{BitmapFont, Canvas, Draw, DrawSource, ImageRef, NinePatch, Rect, TextStyle};

fn rect(x: i64, y: i64, width: i64, height: i64) -> Rect {
    Rect { x, y, width, height }
}

fn chars(text: &str) -> Vec<char> {
    text.chars().collect()
}

#[test]
fn new_canvas_is_empty() {
    let canvas = Canvas::new();
    assert_eq!(canvas.len(), 0);
    assert_eq!(canvas.get(0), None);
    assert!(canvas.into_draws().is_empty());
}

#[test]
fn image_is_one_draw() {
    let mut canvas = Canvas::new();
    canvas.image(ImageRef { id: 3, width: 40, height: 30 }, (5, 6), None);
    canvas.image(ImageRef { id: 4, width: 10, height: 10 }, (0, 0), Some((20, 5)));
    assert_eq!(canvas.len(), 2);
    assert_eq!(
        canvas.get(0),
        Some(Draw { source: DrawSource::Image(3), src: rect(0, 0, 40, 30), dst: rect(5, 6, 40, 30) })
    );
    assert_eq!(
        canvas.get(1),
        Some(Draw { source: DrawSource::Image(4), src: rect(0, 0, 10, 10), dst: rect(0, 0, 20, 5) })
    );
    assert_eq!(canvas.get(2), None);
}

#[test]
fn image_with_negative_size_draws_nothing() {
    let mut canvas = Canvas::new();
    canvas.image(ImageRef { id: 3, width: 40, height: 30 }, (5, 6), Some((-4, 4)));
    assert_eq!(canvas.len(), 0);
}

#[test]
fn nine_patch_is_nine_draws_in_order() {
    let mut canvas = Canvas::new();
    canvas.image(ImageRef { id: 1, width: 2, height: 2 }, (0, 0), None);
    canvas.nine_patch(ImageRef { id: 9, width: 8, height: 8 }, NinePatch::from_uni(2), (10, 10), (20, 30));
    let draws = canvas.into_draws();
    assert_eq!(draws.len(), 10);
    let sources: Vec<Rect> = draws[1..].iter().map(|d| d.src).collect();
    assert_eq!(
        sources,
        vec![
            rect(0, 0, 2, 2),
            rect(2, 0, 4, 2),
            rect(6, 0, 2, 2),
            rect(0, 2, 2, 4),
            rect(2, 2, 4, 4),
            rect(6, 2, 2, 4),
            rect(0, 6, 2, 2),
            rect(2, 6, 4, 2),
            rect(6, 6, 2, 2),
        ]
    );
    assert_eq!(draws[5].dst, rect(12, 12, 16, 26));
    assert!(draws[1..].iter().all(|d| d.source == DrawSource::Image(9)));
}

#[test]
fn nine_patch_with_oversized_borders_is_a_no_op() {
    let mut canvas = Canvas::new();
    canvas.image(ImageRef { id: 1, width: 2, height: 2 }, (0, 0), None);
    canvas.nine_patch(
        ImageRef { id: 9, width: 8, height: 8 },
        NinePatch::from_all(5, 1, 5, 1),
        (0, 0),
        (100, 100),
    );
    assert_eq!(canvas.len(), 1);
}

#[test]
fn text_is_one_draw_for_each_glyph() {
    let font = BitmapFont::load(&chars("中"), &chars("a?"), 32).unwrap();
    let mut canvas = Canvas::new();
    canvas.text(Some(&font), &chars("a中\r\nz"), TextStyle::LargeItalic, (4, 8), 100);
    let draws = canvas.into_draws();
    assert_eq!(
        draws,
        vec![
            Draw {
                source: DrawSource::Glyphs(TextStyle::LargeItalic),
                src: rect(32, 0, 16, 32),
                dst: rect(4, 8, 16, 32)
            },
            Draw {
                source: DrawSource::Glyphs(TextStyle::LargeItalic),
                src: rect(0, 0, 32, 32),
                dst: rect(20, 8, 32, 32)
            },
            Draw {
                source: DrawSource::Glyphs(TextStyle::LargeItalic),
                src: rect(0, 32, 16, 32),
                dst: rect(4, 40, 16, 32)
            },
        ]
    );
}

#[test]
fn text_without_a_font_is_skipped() {
    let mut canvas = Canvas::new();
    canvas.text(None, &chars("hello"), TextStyle::SmallNormal, (0, 0), 100);
    assert_eq!(canvas.len(), 0);
}
