//! End-to-end tests of the outline pipeline on a small in-memory font:
//! ascender 100, descender -25 (height 125), one mapped glyph `A` whose
//! outline is the triangle (0,0) (100,100) (0,100), advance 100, and one
//! kerning pair (A, A) -> -5.

use string2path::builder::LyonPathBuilder;
use string2path::font::find_kerning;
use string2path::font::GlyphDirective;
use string2path::geom::GeomPoint;

fn push_u16(v: &mut Vec<u8>, x: u16) {
    v.extend_from_slice(&x.to_be_bytes());
}

fn push_i16(v: &mut Vec<u8>, x: i16) {
    v.extend_from_slice(&x.to_be_bytes());
}

fn push_u32(v: &mut Vec<u8>, x: u32) {
    v.extend_from_slice(&x.to_be_bytes());
}

fn head_table() -> Vec<u8> {
    let mut t = Vec::new();
    push_u32(&mut t, 0x0001_0000); // version
    push_u32(&mut t, 0x0001_0000); // font revision
    push_u32(&mut t, 0); // checksum adjustment
    push_u32(&mut t, 0x5F0F_3CF5); // magic
    push_u16(&mut t, 0); // flags
    push_u16(&mut t, 1000); // units per em
    t.extend_from_slice(&[0u8; 16]); // created + modified
    push_i16(&mut t, 0); // x min
    push_i16(&mut t, 0); // y min
    push_i16(&mut t, 100); // x max
    push_i16(&mut t, 100); // y max
    push_u16(&mut t, 0); // mac style
    push_u16(&mut t, 8); // lowest rec ppem
    push_i16(&mut t, 2); // font direction hint
    push_i16(&mut t, 0); // index to loc format: short
    push_i16(&mut t, 0); // glyph data format
    t
}

fn hhea_table() -> Vec<u8> {
    let mut t = Vec::new();
    push_u32(&mut t, 0x0001_0000); // version
    push_i16(&mut t, 100); // ascender
    push_i16(&mut t, -25); // descender
    push_i16(&mut t, 0); // line gap
    push_u16(&mut t, 100); // advance width max
    push_i16(&mut t, 0); // min left side bearing
    push_i16(&mut t, 0); // min right side bearing
    push_i16(&mut t, 100); // x max extent
    push_i16(&mut t, 1); // caret slope rise
    push_i16(&mut t, 0); // caret slope run
    push_i16(&mut t, 0); // caret offset
    t.extend_from_slice(&[0u8; 8]); // reserved
    push_i16(&mut t, 0); // metric data format
    push_u16(&mut t, 2); // number of h metrics
    t
}

fn maxp_table() -> Vec<u8> {
    let mut t = Vec::new();
    push_u32(&mut t, 0x0000_5000); // version 0.5
    push_u16(&mut t, 2); // number of glyphs
    t
}

fn cmap_table() -> Vec<u8> {
    let mut t = Vec::new();
    push_u16(&mut t, 0); // version
    push_u16(&mut t, 1); // number of encoding records
    push_u16(&mut t, 3); // platform: windows
    push_u16(&mut t, 1); // encoding: unicode bmp
    push_u32(&mut t, 12); // offset to the subtable
    // format 4 subtable: 'A' (0x41) -> glyph 1
    push_u16(&mut t, 4); // format
    push_u16(&mut t, 32); // length
    push_u16(&mut t, 0); // language
    push_u16(&mut t, 4); // seg count * 2
    push_u16(&mut t, 4); // search range
    push_u16(&mut t, 1); // entry selector
    push_u16(&mut t, 0); // range shift
    push_u16(&mut t, 0x41); // end codes
    push_u16(&mut t, 0xFFFF);
    push_u16(&mut t, 0); // reserved pad
    push_u16(&mut t, 0x41); // start codes
    push_u16(&mut t, 0xFFFF);
    push_i16(&mut t, 1 - 0x41); // id delta: 0x41 -> 1
    push_i16(&mut t, 1);
    push_u16(&mut t, 0); // id range offsets
    push_u16(&mut t, 0);
    t
}

fn glyf_table() -> Vec<u8> {
    // one simple glyph: a triangle (0,0) (100,100) (0,100), one contour
    let mut t = Vec::new();
    push_i16(&mut t, 1); // number of contours
    push_i16(&mut t, 0); // x min
    push_i16(&mut t, 0); // y min
    push_i16(&mut t, 100); // x max
    push_i16(&mut t, 100); // y max
    push_u16(&mut t, 2); // end point of contour 0
    push_u16(&mut t, 0); // instruction length
    t.extend_from_slice(&[0x01, 0x01, 0x01]); // flags: on-curve, 16-bit deltas
    push_i16(&mut t, 0); // x deltas
    push_i16(&mut t, 100);
    push_i16(&mut t, -100);
    push_i16(&mut t, 0); // y deltas
    push_i16(&mut t, 100);
    push_i16(&mut t, 0);
    if t.len() % 2 == 1 {
        t.push(0);
    }
    t
}

fn loca_table(glyph1_len: usize) -> Vec<u8> {
    let mut t = Vec::new();
    push_u16(&mut t, 0); // glyph 0 start (empty)
    push_u16(&mut t, 0); // glyph 1 start
    push_u16(&mut t, (glyph1_len / 2) as u16); // glyph 1 end
    t
}

fn hmtx_table() -> Vec<u8> {
    let mut t = Vec::new();
    push_u16(&mut t, 80); // glyph 0 advance
    push_i16(&mut t, 0);
    push_u16(&mut t, 100); // glyph 1 advance
    push_i16(&mut t, 0);
    t
}

fn kern_subtable(horizontal: bool, value: i16) -> Vec<u8> {
    let mut t = Vec::new();
    push_u16(&mut t, 0); // subtable version
    push_u16(&mut t, 20); // subtable length
    t.push(0); // format 0
    t.push(if horizontal { 0x01 } else { 0x00 }); // coverage
    push_u16(&mut t, 1); // number of pairs
    push_u16(&mut t, 0); // search range
    push_u16(&mut t, 0); // entry selector
    push_u16(&mut t, 0); // range shift
    push_u16(&mut t, 1); // left glyph
    push_u16(&mut t, 1); // right glyph
    push_i16(&mut t, value); // kerning value
    t
}

fn kern_table() -> Vec<u8> {
    // a vertical subtable first: the lookup must skip it and take the
    // first horizontal subtable that defines the pair
    let mut t = Vec::new();
    push_u16(&mut t, 0); // version
    push_u16(&mut t, 2); // number of subtables
    t.extend_from_slice(&kern_subtable(false, -99));
    t.extend_from_slice(&kern_subtable(true, -5));
    t
}

fn build_test_font() -> Vec<u8> {
    let glyf = glyf_table();
    let tables: Vec<([u8; 4], Vec<u8>)> = vec![
        (*b"cmap", cmap_table()),
        (*b"glyf", glyf.clone()),
        (*b"head", head_table()),
        (*b"hhea", hhea_table()),
        (*b"hmtx", hmtx_table()),
        (*b"kern", kern_table()),
        (*b"loca", loca_table(glyf.len())),
        (*b"maxp", maxp_table()),
    ];
    let n = tables.len() as u16;
    let mut font = Vec::new();
    push_u32(&mut font, 0x0001_0000); // sfnt version
    push_u16(&mut font, n);
    push_u16(&mut font, 128); // search range
    push_u16(&mut font, 3); // entry selector
    push_u16(&mut font, n * 16 - 128); // range shift
    let mut offset = 12 + 16 * tables.len();
    let mut records = Vec::new();
    let mut body = Vec::new();
    for (tag, data) in &tables {
        records.extend_from_slice(tag);
        push_u32(&mut records, 0); // checksum (unchecked)
        push_u32(&mut records, offset as u32);
        push_u32(&mut records, data.len() as u32);
        let mut padded = data.clone();
        while padded.len() % 4 != 0 {
            padded.push(0);
        }
        offset += padded.len();
        body.extend_from_slice(&padded);
    }
    font.extend_from_slice(&records);
    font.extend_from_slice(&body);
    font
}

fn gp(v: f32) -> GeomPoint {
    GeomPoint(lyon::math::point(v, v))
}

struct SinkAdapter<'a> {
    b: &'a mut LyonPathBuilder,
}

impl ttf_parser::OutlineBuilder for SinkAdapter<'_> {
    fn move_to(&mut self, x: f32, y: f32) {
        self.b.move_to(GeomPoint(lyon::math::point(x, y)));
    }

    fn line_to(&mut self, x: f32, y: f32) {
        self.b.line_to(GeomPoint(lyon::math::point(x, y)));
    }

    fn quad_to(&mut self, x1: f32, y1: f32, x: f32, y: f32) {
        self.b.quad_to(
            GeomPoint(lyon::math::point(x1, y1)),
            GeomPoint(lyon::math::point(x, y)),
        );
    }

    fn curve_to(&mut self, x1: f32, y1: f32, x2: f32, y2: f32, x: f32, y: f32) {
        self.b.curve_to(
            GeomPoint(lyon::math::point(x1, y1)),
            GeomPoint(lyon::math::point(x2, y2)),
            GeomPoint(lyon::math::point(x, y)),
        );
    }

    fn close(&mut self) {
        self.b.close();
    }
}

fn outline_text(b: &mut LyonPathBuilder, data: &[u8], text: &str) {
    b.start_face(data, 0).unwrap();
    for c in text.chars() {
        match b.begin_char(data, 0, c) {
            GlyphDirective::Control => {}
            GlyphDirective::Outline { glyph, color: _ } => {
                let face = ttf_parser::Face::parse(data, 0).unwrap();
                let mut adapter = SinkAdapter { b };
                face.outline_glyph(ttf_parser::GlyphId(glyph), &mut adapter);
                b.finish_char(data, 0, glyph);
            }
        }
    }
}

#[test]
fn test_font_parses() {
    let data = build_test_font();
    assert!(string2path::font::face_parse_check(&data, 0).is_none());
    assert!(string2path::font::face_parse_check(&data[..8], 0).is_some());
}

#[test]
fn test_find_kerning() {
    let data = build_test_font();
    assert_eq!(find_kerning(&data, 0, 1, 1), -5);
    assert_eq!(find_kerning(&data, 0, 1, 2), 0);
    assert_eq!(find_kerning(&data, 0, 0, 1), 0);
}

#[test]
fn test_walk_offsets() {
    let data = build_test_font();
    let mut b = LyonPathBuilder::new_for_path(gp(1e-5), gp(0.0));
    b.start_face(&data, 0).unwrap();
    // first 'A': no kerning, advance 100
    match b.begin_char(&data, 0, 'A') {
        GlyphDirective::Outline { glyph, color } => {
            assert_eq!(glyph, 1);
            assert!(!color);
            b.finish_char(&data, 0, glyph);
        }
        _ => panic!("expected an outline directive"),
    }
    assert_eq!(b.offset_x, 100);
    assert_eq!(b.offset_y, 0);
    assert_eq!(b.cur_glyph_id, 1);
    // second 'A': kerning -5 applies before the advance
    match b.begin_char(&data, 0, 'A') {
        GlyphDirective::Outline { glyph, .. } => {
            assert_eq!(b.offset_x, 95);
            b.finish_char(&data, 0, glyph);
        }
        _ => panic!("expected an outline directive"),
    }
    assert_eq!(b.offset_x, 195);
    assert_eq!(b.cur_glyph_id, 2);
    // line break: horizontal offset back to zero, vertical down one line
    // height (125), independent of the kerning and advances before it
    match b.begin_char(&data, 0, '\n') {
        GlyphDirective::Control => {}
        _ => panic!("expected a control directive"),
    }
    assert_eq!(b.offset_x, 0);
    assert_eq!(b.offset_y, -125);
    assert_eq!(b.cur_glyph_id, 2);
    // after the break the next glyph is not kerned
    match b.begin_char(&data, 0, 'A') {
        GlyphDirective::Outline { .. } => {}
        _ => panic!("expected an outline directive"),
    }
    assert_eq!(b.offset_x, 0);
}

#[test]
fn test_unmapped_glyph_defaults() {
    let data = build_test_font();
    let mut b = LyonPathBuilder::new_for_path(gp(1e-5), gp(0.0));
    b.start_face(&data, 0).unwrap();
    match b.begin_char(&data, 0, 'Z') {
        GlyphDirective::Outline { glyph, .. } => assert_eq!(glyph, 0),
        _ => panic!("expected an outline directive"),
    }
    assert_eq!(b.cur_glyph_id, 1);
}

#[test]
fn test_path() {
    let data = build_test_font();
    let mut b = LyonPathBuilder::new_for_path(gp(1e-5), gp(0.0));
    outline_text(&mut b, &data, "A");
    let result = b.into_path();
    let x: Vec<f64> = result.xy.iter().map(|p| p.0.x as f64).collect();
    let y: Vec<f64> = result.xy.iter().map(|p| p.0.y as f64).collect();
    let expect_x = vec![0.0, 100.0 / 125.0, 0.0, 0.0];
    let expect_y = vec![0.0, 100.0 / 125.0, 100.0 / 125.0, 0.0];
    assert_eq!(x.len(), 4);
    assert!(x
        .iter()
        .zip(expect_x)
        .all(|(actual, expect)| (expect - actual).abs() < f64::EPSILON.sqrt()));
    assert!(y
        .iter()
        .zip(expect_y)
        .all(|(actual, expect)| (expect - actual).abs() < 0.0001));
    assert_eq!(result.glyph_id, vec![1, 1, 1, 1]);
    assert_eq!(result.path_id, Some(vec![1, 1, 1, 1]));
    assert!(result.triangle_id.is_none());
    assert!(result.color.is_none());
}

#[test]
fn test_path_two_glyphs_ids() {
    let data = build_test_font();
    let mut b = LyonPathBuilder::new_for_path(gp(1e-5), gp(0.0));
    outline_text(&mut b, &data, "AA");
    let result = b.into_path();
    assert_eq!(result.xy.len(), 8);
    assert_eq!(result.glyph_id, vec![1, 1, 1, 1, 2, 2, 2, 2]);
    assert_eq!(result.path_id, Some(vec![1, 1, 1, 1, 2, 2, 2, 2]));
    // the second glyph starts at the advance minus the kerning, scaled
    let x4 = result.xy[4].0.x as f64;
    assert!((x4 - 95.0 / 125.0).abs() < 0.0001);
}

#[test]
fn test_fill() {
    let data = build_test_font();
    let mut b = LyonPathBuilder::new_for_stroke_and_fill(gp(1e-5), gp(0.0));
    outline_text(&mut b, &data, "A");
    let result = b.into_fill().unwrap();
    assert_eq!(result.xy.len(), 3);
    assert_eq!(result.glyph_id, vec![1, 1, 1]);
    assert_eq!(result.triangle_id, Some(vec![0, 0, 0]));
    assert!(result.path_id.is_none());
    assert!(result.color.is_none());
    // the mesh covers the triangle: its corners are exactly the three
    // scaled outline points
    let mut pts: Vec<(i64, i64)> = result
        .xy
        .iter()
        .map(|p| {
            (
                (p.0.x as f64 * 10000.0).round() as i64,
                (p.0.y as f64 * 10000.0).round() as i64,
            )
        })
        .collect();
    pts.sort();
    assert_eq!(pts, vec![(0, 0), (0, 8000), (8000, 8000)]);
}

#[test]
fn test_stroke() {
    let data = build_test_font();
    let mut b = LyonPathBuilder::new_for_stroke_and_fill(gp(1e-5), gp(0.2));
    outline_text(&mut b, &data, "A");
    let result = b.into_stroke().unwrap();
    assert!(result
        .xy
        .iter()
        .any(|p| (0.0 - 0.1..=100.0 / 125.0 + 0.1).contains(&(p.0.x as f64))));
    assert!(result
        .xy
        .iter()
        .any(|p| (0.0 - 0.1..=100.0 / 125.0 + 0.1).contains(&(p.0.y as f64))));
    // triangle ids: three consecutive rows share one id, ids contiguous
    // from zero and never repeated
    let tri = result.triangle_id.as_ref().unwrap();
    assert_eq!(tri.len() % 3, 0);
    assert_eq!(tri.len(), result.xy.len());
    for (n, id) in tri.iter().enumerate() {
        assert_eq!(*id, (n / 3) as i32);
    }
}

#[test]
fn test_color_layers() {
    let data = build_test_font();
    let mut b = LyonPathBuilder::new_for_path(gp(1e-5), gp(0.0));
    outline_text(&mut b, &data, "A");
    // a paint traversal would record the layer's color and open the next
    // layer; do the same by hand
    b.push_layer(string2path::color::Rgba { red: 255, green: 128, blue: 0, alpha: 255 });
    let result = b.into_path();
    let colors = result.color.expect("a recorded layer color makes the column present");
    assert_eq!(colors.len(), result.xy.len());
    assert!(colors.iter().all(|c| c == "#ff8000ff"));
}

#[test]
fn test_path_backup_flattens_curves() {
    let mut b = LyonPathBuilder::new_for_stroke_and_fill(gp(0.01), gp(0.0));
    b.move_to(GeomPoint(lyon::math::point(0.0, 0.0)));
    b.quad_to(
        GeomPoint(lyon::math::point(50.0, 50.0)),
        GeomPoint(lyon::math::point(100.0, 0.0)),
    );
    b.close();
    let result = b.into_path_backup();
    // the curve became a polyline: more points than the two endpoints,
    // ending back at the start, with real curve samples above the chord
    assert!(result.xy.len() > 3);
    let first = result.xy[0].0;
    assert_eq!((first.x, first.y), (0.0, 0.0));
    let last = result.xy[result.xy.len() - 1].0;
    assert_eq!((last.x, last.y), (0.0, 0.0));
    assert!(result.xy.iter().any(|p| p.0.y > 1.0));
    assert!(result.xy.iter().any(|p| (p.0.x - 100.0).abs() < 1e-6));
}

#[test]
fn test_close_always_increments() {
    let mut b = LyonPathBuilder::new_for_path(gp(1e-5), gp(0.0));
    assert_eq!(b.cur_path_id, 0);
    // a sub-path with plenty of geometry
    b.move_to(GeomPoint(lyon::math::point(0.0, 0.0)));
    b.line_to(GeomPoint(lyon::math::point(10.0, 0.0)));
    b.quad_to(
        GeomPoint(lyon::math::point(15.0, 5.0)),
        GeomPoint(lyon::math::point(10.0, 10.0)),
    );
    b.curve_to(
        GeomPoint(lyon::math::point(5.0, 15.0)),
        GeomPoint(lyon::math::point(0.0, 15.0)),
        GeomPoint(lyon::math::point(0.0, 10.0)),
    );
    b.close();
    assert_eq!(b.cur_path_id, 1);
    // a trivial sub-path
    b.move_to(GeomPoint(lyon::math::point(1.0, 1.0)));
    b.close();
    assert_eq!(b.cur_path_id, 2);
}

#[test]
fn test_control_chars_are_skipped() {
    let data = build_test_font();
    let mut b = LyonPathBuilder::new_for_path(gp(1e-5), gp(0.0));
    b.start_face(&data, 0).unwrap();
    match b.begin_char(&data, 0, '\t') {
        GlyphDirective::Control => {}
        _ => panic!("expected a control directive"),
    }
    assert_eq!(b.offset_x, 0);
    assert_eq!(b.offset_y, 0);
    assert_eq!(b.cur_glyph_id, 0);
}

#[test]
fn test_empty_text() {
    let data = build_test_font();
    let mut b = LyonPathBuilder::new_for_path(gp(1e-5), gp(0.0));
    outline_text(&mut b, &data, "");
    let result = b.into_path();
    assert_eq!(result.xy.len(), 0);
    assert_eq!(result.glyph_id.len(), 0);
    assert!(result.color.is_none());
}

#[test]
fn test_fill_color_column() {
    let data = build_test_font();
    let mut b = LyonPathBuilder::new_for_stroke_and_fill(gp(1e-5), gp(0.0));
    outline_text(&mut b, &data, "A");
    b.push_layer(string2path::color::Rgba { red: 0, green: 0, blue: 255, alpha: 255 });
    let result = b.into_fill().unwrap();
    let colors = result.color.expect("a recorded layer color makes the column present");
    assert_eq!(colors.len(), result.xy.len());
    assert!(colors.iter().all(|c| c == "#0000ffff"));
}

#[test]
fn test_unpainted_layer_color_entry() {
    let data = build_test_font();
    let mut b = LyonPathBuilder::new_for_path(gp(1e-5), gp(0.0));
    outline_text(&mut b, &data, "A");
    // the first layer records a paint; the glyph after it lands in the
    // next layer, which never does
    b.push_layer(string2path::color::Rgba { red: 16, green: 32, blue: 64, alpha: 128 });
    outline_text(&mut b, &data, "A");
    let result = b.into_path();
    let colors = result.color.expect("a recorded layer color makes the column present");
    assert_eq!(colors.len(), 8);
    assert!(colors[..4].iter().all(|c| c == "#10204080"));
    assert!(colors[4..].iter().all(|c| c == "#00000000"));
}
