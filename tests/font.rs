use peach_oled::raster::rasterize;
use peach_oled::text::push_decimal;
use peach_oled::{validate, Font, Msg};

#[test]
fn font_names() {
    assert_eq!(Font::from_name("6x8"), Some(Font::Small6x8));
    assert_eq!(Font::from_name("6x12"), Some(Font::Medium6x12));
    assert_eq!(Font::from_name("8x16"), Some(Font::Large8x16));
    assert_eq!(Font::from_name("12x16"), Some(Font::XLarge12x16));
    assert_eq!(Font::from_name("12x1"), None);
    assert_eq!(Font::from_name("6X8"), None);
    assert_eq!(Font::from_name(""), None);
}

#[test]
fn glyph_metrics() {
    let dims: Vec<(u32, u32)> = [Font::Small6x8, Font::Medium6x12, Font::Large8x16, Font::XLarge12x16]
        .iter()
        .map(|f| (f.glyph_width(), f.glyph_height()))
        .collect();
    assert_eq!(dims, vec![(6, 8), (6, 12), (8, 16), (12, 16)]);
}

#[test]
fn rasterize_each_font() {
    for (name, w, h) in [("6x8", 6, 8), ("6x12", 6, 12), ("8x16", 8, 16), ("12x16", 12, 16)] {
        let m = Msg { x_coord: 10, y_coord: 20, string: "abc".to_string(), font_size: name.to_string() };
        let c = validate(&m).unwrap_or_else(|_| panic!("{} is valid", name));
        let pixels = rasterize(&c);
        assert_eq!(pixels.len(), 3 * w * h);
        assert!(pixels.iter().all(|&(x, y, _)| x >= 10 && x < 10 + 3 * w as u32 && y >= 20 && y < 20 + h as u32));
        assert!(pixels.iter().any(|&(_, _, c)| c != 0));
        assert_eq!(pixels[0].0, 10);
        assert_eq!(pixels[0].1, 20);
    }
}

#[test]
fn rasterize_empty_text() {
    let m = Msg { x_coord: 0, y_coord: 0, string: String::new(), font_size: "6x8".to_string() };
    let c = validate(&m).ok().unwrap();
    assert!(rasterize(&c).is_empty());
}

#[test]
fn decimal_text() {
    let mut s = String::from("v=");
    push_decimal(&mut s, -305);
    assert_eq!(s, "v=-305");
    let mut s = String::new();
    push_decimal(&mut s, 0);
    assert_eq!(s, "0");
    let mut s = String::new();
    push_decimal(&mut s, i64::MIN);
    assert_eq!(s, i64::MIN.to_string());
    let mut s = String::new();
    push_decimal(&mut s, i64::MAX);
    assert_eq!(s, i64::MAX.to_string());
}
