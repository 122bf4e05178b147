use dwrite_font::desc::{get_matching_face, get_specific_face};
use dwrite_font::scale::layout_glyph;
use dwrite_font::{
    DwroteRasterizer, Error, FaceMetrics, FaceQuery, FaceStretch, FaceStyle, FaceWeight, FontDesc,
    FontKey, GlyphKey, GlyphMetrics, LoadedFace, PixelRatio, Ratio, Size, Slant, Style, Weight,
};

fn face_metrics() -> FaceMetrics {
    FaceMetrics {
        units_per_em: 2048,
        ascent: 1901,
        descent: 483,
        cap_height: 1409,
        reference_advance: 1229,
    }
}

fn glyph_metrics() -> GlyphMetrics {
    GlyphMetrics {
        left_side_bearing: 100,
        advance_width: 1229,
        right_side_bearing: 129,
        top_side_bearing: 300,
        advance_height: 2048,
        bottom_side_bearing: 500,
        vertical_origin_y: 1901,
    }
}

fn ratio(numer: u32, denom: u32) -> PixelRatio {
    PixelRatio::new(numer, denom).unwrap()
}

fn rasterizer_with_id(id: u64, numer: u32, denom: u32) -> DwroteRasterizer<u32> {
    DwroteRasterizer::new(id, 96, 96, ratio(numer, denom), false).unwrap()
}

fn rasterizer(numer: u32, denom: u32) -> DwroteRasterizer<u32> {
    rasterizer_with_id(1, numer, denom)
}

fn mono() -> FontDesc {
    FontDesc::new(
        "Consolas".to_string(),
        Style::Description { slant: Slant::Normal, weight: Weight::Normal },
    )
}

fn loaded(face: u32) -> Option<LoadedFace<u32>> {
    Some(LoadedFace { face, design: face_metrics() })
}

fn value(r: Ratio) -> f64 {
    r.numer as f64 / r.denom as f64
}

#[test]
fn load_twice_gives_one_key_and_one_face() {
    let mut r = rasterizer(1, 1);
    let k1 = r.load_font(mono(), loaded(7)).unwrap();
    let k2 = r.load_font(mono(), loaded(8)).unwrap();
    assert_eq!(k1, k2);
    assert_eq!(r.face_count(), 1);
    assert_eq!(r.face(k1), Some(&7));
    assert_eq!(r.lookup(&mono()), Some(k1));
}

#[test]
fn distinct_descriptors_get_distinct_keys() {
    let mut r = rasterizer(1, 1);
    let bold = FontDesc::new("Consolas".to_string(), Style::Specific("Bold".to_string()));
    let k1 = r.load_font(mono(), loaded(1)).unwrap();
    let k2 = r.load_font(bold.clone(), loaded(2)).unwrap();
    assert_ne!(k1, k2);
    assert_eq!(r.face_count(), 2);
    assert_eq!(r.face(k2), Some(&2));
    assert_eq!(r.lookup(&bold), Some(k2));
}

#[test]
fn unknown_key_fails_closed() {
    let mut other = rasterizer_with_id(2, 1, 1);
    let key = other.load_font(mono(), loaded(1)).unwrap();
    let r = rasterizer(1, 1);
    assert_eq!(r.metrics(key, Size::from_half_points(24)), Err(Error::FontNotLoaded));
    let gk = GlyphKey { font_key: key, c: 'A', size: Size::from_half_points(24) };
    assert_eq!(r.get_glyph(&gk, &glyph_metrics()), Err(Error::FontNotLoaded));
    assert!(r.face(FontKey { registry: 1, token: 5 }).is_none());
}

#[test]
fn key_of_another_rasterizer_is_refused_even_at_a_used_position() {
    let mut a = rasterizer_with_id(1, 1, 1);
    let mut b = rasterizer_with_id(2, 1, 1);
    let ka = a.load_font(mono(), loaded(1)).unwrap();
    let kb = b.load_font(mono(), loaded(2)).unwrap();
    assert_eq!(ka.token, kb.token);
    assert_ne!(ka, kb);
    assert_eq!(b.metrics(ka, Size::from_half_points(24)), Err(Error::FontNotLoaded));
    assert!(b.face(ka).is_none());
    assert_eq!(b.face(kb), Some(&2));
    assert!(a.metrics(ka, Size::from_half_points(24)).is_ok());
}

#[test]
fn missing_family_fails_explicitly() {
    let mut r = rasterizer(1, 1);
    let desc = FontDesc::new("No Such Family".to_string(), Style::Specific("Normal".to_string()));
    assert_eq!(r.load_font(desc.clone(), None), Err(Error::MissingFont(desc)));
    assert_eq!(r.face_count(), 0);
}

#[test]
fn face_without_units_per_em_is_missing() {
    let mut r = rasterizer(1, 1);
    let mut design = face_metrics();
    design.units_per_em = 0;
    let got = r.load_font(mono(), Some(LoadedFace { face: 3, design }));
    assert_eq!(got, Err(Error::MissingFont(mono())));
    assert_eq!(r.face_count(), 0);
}

#[test]
fn metrics_exact_values() {
    let mut r = rasterizer(1, 1);
    let key = r.load_font(mono(), loaded(1)).unwrap();
    let m = r.metrics(key, Size::from_half_points(24)).unwrap();
    assert_eq!(m.average_advance, Ratio { numer: 29496, denom: 4096 });
    assert_eq!(m.line_height, Ratio { numer: 67848, denom: 4096 });
    assert!((value(m.average_advance) - 7.201171875).abs() < 1e-12);
}

#[test]
fn metrics_grow_with_size() {
    let mut r = rasterizer(3, 2);
    let key = r.load_font(mono(), loaded(1)).unwrap();
    let mut last = r.metrics(key, Size::from_half_points(0)).unwrap();
    for hp in [1i16, 7, 20, 24, 25, 100, 400] {
        let m = r.metrics(key, Size::from_half_points(hp)).unwrap();
        assert!(value(m.average_advance) >= value(last.average_advance));
        assert!(value(m.line_height) >= value(last.line_height));
        last = m;
    }
}

#[test]
fn doubling_pixel_ratio_doubles_metrics() {
    let mut one = rasterizer(5, 4);
    let mut two = rasterizer(5, 2);
    let k1 = one.load_font(mono(), loaded(1)).unwrap();
    let k2 = two.load_font(mono(), loaded(1)).unwrap();
    let m1 = one.metrics(k1, Size::from_half_points(22)).unwrap();
    let m2 = two.metrics(k2, Size::from_half_points(22)).unwrap();
    assert!((value(m2.average_advance) - 2.0 * value(m1.average_advance)).abs() < 1e-9);
    assert!((value(m2.line_height) - 2.0 * value(m1.line_height)).abs() < 1e-9);
}

#[test]
fn unrecognized_specific_style_resolves_as_normal() {
    let r = rasterizer(1, 1);
    let odd = FontDesc::new("Consolas".to_string(), Style::Specific("Unrecognized".to_string()));
    let normal = FontDesc::new("Consolas".to_string(), Style::Specific("Normal".to_string()));
    assert_eq!(r.get_face(&odd), r.get_face(&normal));
    assert_eq!(
        r.get_face(&odd),
        FaceQuery { weight: FaceWeight::Regular, stretch: FaceStretch::Normal, style: FaceStyle::Normal }
    );
    let mut r = rasterizer(1, 1);
    assert!(r.load_font(odd, loaded(4)).is_ok());
}

#[test]
fn specific_style_names() {
    assert_eq!(
        get_specific_face(&"Bold".to_string()),
        FaceQuery { weight: FaceWeight::Bold, stretch: FaceStretch::Normal, style: FaceStyle::Normal }
    );
    assert_eq!(
        get_specific_face(&"Italic".to_string()),
        FaceQuery { weight: FaceWeight::Regular, stretch: FaceStretch::Normal, style: FaceStyle::Italic }
    );
    assert_eq!(
        get_specific_face(&"bold".to_string()),
        FaceQuery { weight: FaceWeight::Regular, stretch: FaceStretch::Normal, style: FaceStyle::Normal }
    );
}

#[test]
fn described_styles_map_to_queries() {
    assert_eq!(
        get_matching_face(Slant::Italic, Weight::Bold),
        FaceQuery { weight: FaceWeight::Bold, stretch: FaceStretch::Normal, style: FaceStyle::Italic }
    );
    assert_eq!(
        get_matching_face(Slant::Oblique, Weight::Normal),
        FaceQuery { weight: FaceWeight::Regular, stretch: FaceStretch::Normal, style: FaceStyle::Oblique }
    );
    assert_eq!(
        get_matching_face(Slant::Normal, Weight::Normal),
        FaceQuery { weight: FaceWeight::Regular, stretch: FaceStretch::Normal, style: FaceStyle::Normal }
    );
}

#[test]
fn glyph_layout_exact_values() {
    let mut r = rasterizer(1, 1);
    let key = r.load_font(mono(), loaded(1)).unwrap();
    let gk = GlyphKey { font_key: key, c: 'A', size: Size::from_half_points(24) };
    let layout = r.get_glyph(&gk, &glyph_metrics()).unwrap();
    assert_eq!(layout.width, 93);
    assert_eq!(layout.height, 117);
    assert_eq!(layout.left, -9);
    assert_eq!(layout.top, 150);
    assert_eq!(layout.target_width, 93);
    assert_eq!(layout.target_height, 117);
    assert!((value(layout.origin_x) + 9.375).abs() < 1e-12);
    assert!((value(layout.origin_y) - 150.09375).abs() < 1e-12);
    assert!((value(layout.em_size) - 12.0).abs() < 1e-12);
    let glyph = layout.rasterized('A', vec![0u8; 93 * 117]);
    assert_eq!(glyph.c, 'A');
    assert_eq!(glyph.width, 93);
    assert_eq!(glyph.height, 117);
    assert_eq!(glyph.top, 150);
    assert_eq!(glyph.left, -9);
    assert_eq!(glyph.buf.len(), 93 * 117);
}

#[test]
fn glyph_scales_with_pixel_ratio() {
    let layout = layout_glyph(&glyph_metrics(), 2048, Size::from_half_points(24), ratio(2, 1));
    assert_eq!(layout.width, 187);
    assert_eq!(layout.height, 234);
    assert!((value(layout.em_size) - 24.0).abs() < 1e-12);
}

#[test]
fn printable_ascii_glyph_widths_are_not_negative() {
    for c in 0x20u8..0x7f {
        let n = c as u32;
        let gm = GlyphMetrics {
            left_side_bearing: (n % 40) as i32 - 20,
            advance_width: 1000 + n,
            right_side_bearing: (n % 30) as i32,
            top_side_bearing: 200,
            advance_height: 2048,
            bottom_side_bearing: 100,
            vertical_origin_y: 1800,
        };
        let layout = layout_glyph(&gm, 2048, Size::from_half_points(22), ratio(1, 1));
        assert!(layout.width >= 0);
    }
}

#[test]
fn negative_ink_width_gives_empty_target() {
    let gm = GlyphMetrics {
        left_side_bearing: 10,
        advance_width: 0,
        right_side_bearing: 10,
        top_side_bearing: 0,
        advance_height: 0,
        bottom_side_bearing: 0,
        vertical_origin_y: 0,
    };
    let layout = layout_glyph(&gm, 2048, Size::from_half_points(24), ratio(1, 1));
    assert_eq!(layout.width, -1);
    assert_eq!(layout.target_width, 0);
    assert_eq!(layout.height, 0);
}

#[test]
fn zero_denominator_ratio_is_refused() {
    assert!(PixelRatio::new(1, 0).is_none());
    assert_eq!(PixelRatio::new(3, 2), Some(PixelRatio { numer: 3, denom: 2 }));
}

#[test]
fn error_descriptions() {
    assert_eq!(Error::FontNotLoaded.description(), "tried to operate on font that hasn't been loaded");
    assert_eq!(Error::MissingFont(mono()).description(), "couldn't find the requested font");
}

#[test]
fn new_rasterizer_keeps_its_settings() {
    let r = rasterizer(5, 4);
    assert_eq!(r.device_pixel_ratio(), PixelRatio { numer: 5, denom: 4 });
    assert_eq!(r.dpi(), (96, 96));
    assert_eq!(r.face_count(), 0);
}
