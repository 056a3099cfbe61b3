//! Unit tests of the color rendering, the weight and style maps, the
//! result schema and the error messages.

use string2path::color::format_layer_color;
use string2path::color::Rgba;
use string2path::font::FaceError;
use string2path::font::FontLoadingError;
use string2path::geom::GeomPoint;
use string2path::result::parse_font_style;
use string2path::result::parse_font_weight;
use string2path::result::style_label;
use string2path::result::weight_label;
use string2path::result::FontStyle;
use string2path::result::PathTibble;

#[test]
fn test_format_layer_color() {
    let c = Rgba { red: 255, green: 128, blue: 0, alpha: 255 };
    assert_eq!(format_layer_color(&Some(c)), "#ff8000ff");
    let d = Rgba { red: 1, green: 2, blue: 3, alpha: 4 };
    assert_eq!(format_layer_color(&Some(d)), "#01020304");
    assert_eq!(format_layer_color(&None), "#00000000");
}

#[test]
fn test_parse_font_weight() {
    assert_eq!(parse_font_weight("thin"), 100);
    assert_eq!(parse_font_weight("extra_thin"), 200);
    assert_eq!(parse_font_weight("light"), 300);
    assert_eq!(parse_font_weight("normal"), 400);
    assert_eq!(parse_font_weight("medium"), 500);
    assert_eq!(parse_font_weight("semibold"), 600);
    assert_eq!(parse_font_weight("bold"), 700);
    assert_eq!(parse_font_weight("extra_bold"), 800);
    assert_eq!(parse_font_weight("black"), 900);
    assert_eq!(parse_font_weight("anything else"), 400);
}

#[test]
fn test_parse_font_style() {
    assert_eq!(parse_font_style("normal"), FontStyle::Normal);
    assert_eq!(parse_font_style("italic"), FontStyle::Italic);
    assert_eq!(parse_font_style("oblique"), FontStyle::Oblique);
    assert_eq!(parse_font_style("upright"), FontStyle::Normal);
}

#[test]
fn test_weight_label() {
    assert_eq!(weight_label(100), "thin");
    assert_eq!(weight_label(200), "extra_light");
    assert_eq!(weight_label(300), "light");
    assert_eq!(weight_label(400), "normal");
    assert_eq!(weight_label(500), "medium");
    assert_eq!(weight_label(600), "semibold");
    assert_eq!(weight_label(700), "bold");
    assert_eq!(weight_label(800), "extra_bold");
    assert_eq!(weight_label(900), "black");
    assert_eq!(weight_label(450), "unknown");
}

#[test]
fn test_style_label() {
    assert_eq!(style_label(FontStyle::Normal), "normal");
    assert_eq!(style_label(FontStyle::Italic), "italic");
    assert_eq!(style_label(FontStyle::Oblique), "oblique");
}

#[test]
fn test_column_count() {
    let none: PathTibble = PathTibble {
        xy: Vec::<GeomPoint>::new(),
        glyph_id: Vec::new(),
        path_id: None,
        triangle_id: None,
        color: None,
    };
    assert_eq!(none.column_count(), 3);
    let path = PathTibble {
        xy: Vec::<GeomPoint>::new(),
        glyph_id: Vec::new(),
        path_id: Some(Vec::new()),
        triangle_id: None,
        color: None,
    };
    assert_eq!(path.column_count(), 4);
    let mesh_color = PathTibble {
        xy: Vec::<GeomPoint>::new(),
        glyph_id: Vec::new(),
        path_id: None,
        triangle_id: Some(Vec::new()),
        color: Some(Vec::new()),
    };
    assert_eq!(mesh_color.column_count(), 5);
}

#[test]
fn test_error_messages() {
    assert_eq!(
        FontLoadingError::FaceParsingError(FaceError::MalformedFont).message(),
        "malformed font"
    );
    assert_eq!(
        FontLoadingError::FaceParsingError(FaceError::UnknownMagic).message(),
        "unknown magic"
    );
    assert_eq!(
        FontLoadingError::NoAvailableFonts.message(),
        "No available fonts is found on the machine"
    );
    assert_eq!(
        FontLoadingError::GlyphOutlineFailure('q').message(),
        "Failed to outline char 'q'"
    );
    assert_eq!(
        FontLoadingError::IOError("no such file".to_string()).message(),
        "no such file"
    );
}

#[test]
fn test_catalog_rows() {
    let faces = vec![
        string2path::result::FaceRecord {
            source: "/a/b.ttf".to_string(),
            index: 0,
            family: "Alpha".to_string(),
            weight: 700,
            style: FontStyle::Italic,
        },
        string2path::result::FaceRecord {
            source: "(binary)".to_string(),
            index: 3,
            family: String::new(),
            weight: 450,
            style: FontStyle::Normal,
        },
    ];
    let dump = string2path::result::catalog_rows(faces);
    assert_eq!(dump.source, vec!["/a/b.ttf".to_string(), "(binary)".to_string()]);
    assert_eq!(dump.index, vec![0, 3]);
    assert_eq!(dump.family, vec!["Alpha".to_string(), String::new()]);
    assert_eq!(dump.weight, vec!["bold".to_string(), "unknown".to_string()]);
    assert_eq!(dump.style, vec!["italic".to_string(), "normal".to_string()]);
}
