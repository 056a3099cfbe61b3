//! The columnar results handed to the host, and the name maps of font
//! weights and styles.

use vstd::prelude::*;

use crate::geom::GeomPoint;

verus! {

/// The extracted path information, one row per emitted point. Column
/// presence is a property of the whole result: `path_id` is present for
/// point-sequence extraction, `triangle_id` for fill and stroke meshes,
/// and `color` exactly when some layer recorded a paint color.
pub struct PathTibble {
    /// The position of each point, as the geometry pipeline produced it.
    pub xy: Vec<GeomPoint>,
    /// Which glyph (counted over the input characters) produced each
    /// point.
    pub glyph_id: Vec<i32>,
    /// Which sub-path each point belongs to, where tracked.
    pub path_id: Option<Vec<i32>>,
    /// Which triangle each point belongs to, for tessellated output.
    pub triangle_id: Option<Vec<i32>>,
    /// The paint color of each point's layer, where any layer recorded
    /// one.
    pub color: Option<Vec<String>>,
}

impl PathTibble {
    /// All present columns have one entry per row.
    pub open spec fn wf(self) -> bool {
        &&& self.glyph_id@.len() == self.xy@.len()
        &&& (self.path_id matches Some(v) ==> v@.len() == self.xy@.len())
        &&& (self.triangle_id matches Some(v) ==> v@.len() == self.xy@.len())
        &&& (self.color matches Some(v) ==> v@.len() == self.xy@.len())
    }

    /// How many columns the result carries: the position pair and the
    /// glyph column, plus each optional column that is present.
    pub fn column_count(&self) -> (n: usize)
        ensures
            n == 3 + (if self.path_id is Some {
                1int
            } else {
                0int
            }) + (if self.triangle_id is Some {
                1int
            } else {
                0int
            }) + (if self.color is Some {
                1int
            } else {
                0int
            }),
    {
        let mut n: usize = 3;
        if self.path_id.is_some() {
            n = n + 1;
        }
        if self.triangle_id.is_some() {
            n = n + 1;
        }
        if self.color.is_some() {
            n = n + 1;
        }
        n
    }
}

/// One row per font face of the catalog dump: where the face came from,
/// its index in its file, and its family, weight and style names.
pub struct FontDBTibble {
    pub source: Vec<String>,
    pub index: Vec<i32>,
    pub family: Vec<String>,
    pub weight: Vec<String>,
    pub style: Vec<String>,
}

/// A font style, as a query names it.
#[derive(Clone, Copy, PartialEq, Eq, Structural, Debug)]
pub enum FontStyle {
    Normal,
    Italic,
    Oblique,
}

/// Relies on `str`'s equality: character-for-character comparison.
#[verifier::external_body]
pub(crate) fn str_eq(a: &str, b: &str) -> (r: bool)
    ensures
        r == (a@ == b@),
{
    a == b
}

/// The numeric weight class a weight name stands for; an unknown name
/// falls back to normal (400).
pub open spec fn spec_parse_weight(s: Seq<char>) -> u16 {
    if s == "thin"@ {
        100u16
    } else if s == "extra_thin"@ {
        200u16
    } else if s == "light"@ {
        300u16
    } else if s == "normal"@ {
        400u16
    } else if s == "medium"@ {
        500u16
    } else if s == "semibold"@ {
        600u16
    } else if s == "bold"@ {
        700u16
    } else if s == "extra_bold"@ {
        800u16
    } else if s == "black"@ {
        900u16
    } else {
        400u16
    }
}

/// Parses a weight name into its numeric weight class; an unknown name
/// falls back to normal (400).
pub fn parse_font_weight(s: &str) -> (w: u16)
    ensures
        w == spec_parse_weight(s@),
{
    if str_eq(s, "thin") {
        100
    } else if str_eq(s, "extra_thin") {
        200
    } else if str_eq(s, "light") {
        300
    } else if str_eq(s, "normal") {
        400
    } else if str_eq(s, "medium") {
        500
    } else if str_eq(s, "semibold") {
        600
    } else if str_eq(s, "bold") {
        700
    } else if str_eq(s, "extra_bold") {
        800
    } else if str_eq(s, "black") {
        900
    } else {
        400
    }
}

/// The style a style name stands for; an unknown name falls back to
/// normal.
pub open spec fn spec_parse_style(s: Seq<char>) -> FontStyle {
    if s == "normal"@ {
        FontStyle::Normal
    } else if s == "italic"@ {
        FontStyle::Italic
    } else if s == "oblique"@ {
        FontStyle::Oblique
    } else {
        FontStyle::Normal
    }
}

/// Parses a style name; an unknown name falls back to normal.
pub fn parse_font_style(s: &str) -> (r: FontStyle)
    ensures
        r == spec_parse_style(s@),
{
    if str_eq(s, "normal") {
        FontStyle::Normal
    } else if str_eq(s, "italic") {
        FontStyle::Italic
    } else if str_eq(s, "oblique") {
        FontStyle::Oblique
    } else {
        FontStyle::Normal
    }
}

/// The name of a numeric weight class, for the catalog dump; a value off
/// the standard classes is "unknown".
pub open spec fn spec_weight_label(w: u16) -> Seq<char> {
    if w == 100 {
        "thin"@
    } else if w == 200 {
        "extra_light"@
    } else if w == 300 {
        "light"@
    } else if w == 400 {
        "normal"@
    } else if w == 500 {
        "medium"@
    } else if w == 600 {
        "semibold"@
    } else if w == 700 {
        "bold"@
    } else if w == 800 {
        "extra_bold"@
    } else if w == 900 {
        "black"@
    } else {
        "unknown"@
    }
}

/// The name of a numeric weight class, for the catalog dump.
pub fn weight_label(w: u16) -> (r: &'static str)
    ensures
        r@ == spec_weight_label(w),
{
    if w == 100 {
        "thin"
    } else if w == 200 {
        "extra_light"
    } else if w == 300 {
        "light"
    } else if w == 400 {
        "normal"
    } else if w == 500 {
        "medium"
    } else if w == 600 {
        "semibold"
    } else if w == 700 {
        "bold"
    } else if w == 800 {
        "extra_bold"
    } else if w == 900 {
        "black"
    } else {
        "unknown"
    }
}

/// The name of a style, for the catalog dump.
pub open spec fn spec_style_label(s: FontStyle) -> Seq<char> {
    match s {
        FontStyle::Normal => "normal"@,
        FontStyle::Italic => "italic"@,
        FontStyle::Oblique => "oblique"@,
    }
}

/// The name of a style, for the catalog dump.
pub fn style_label(s: FontStyle) -> (r: &'static str)
    ensures
        r@ == spec_style_label(s),
{
    match s {
        FontStyle::Normal => "normal",
        FontStyle::Italic => "italic",
        FontStyle::Oblique => "oblique",
    }
}

/// One discovered font face, as plain values: where it came from, its
/// index in its file, its family name, and its numeric weight class and
/// style.
pub struct FaceRecord {
    pub source: String,
    pub index: i32,
    pub family: String,
    pub weight: u16,
    pub style: FontStyle,
}

/// Assembles the catalog dump: one row per face, in order, with the
/// weight and style rendered as their names.
pub fn catalog_rows(faces: Vec<FaceRecord>) -> (r: FontDBTibble)
    ensures
        r.source@.len() == faces@.len(),
        r.index@.len() == faces@.len(),
        r.family@.len() == faces@.len(),
        r.weight@.len() == faces@.len(),
        r.style@.len() == faces@.len(),
        forall|i: int| 0 <= i < faces@.len() ==> r.source@[i] == (#[trigger] faces@[i]).source,
        forall|i: int| 0 <= i < faces@.len() ==> r.index@[i] == (#[trigger] faces@[i]).index,
        forall|i: int| 0 <= i < faces@.len() ==> r.family@[i] == (#[trigger] faces@[i]).family,
        forall|i: int|
            0 <= i < faces@.len() ==> (#[trigger] r.weight@[i])@ == spec_weight_label(
                faces@[i].weight,
            ),
        forall|i: int|
            0 <= i < faces@.len() ==> (#[trigger] r.style@[i])@ == spec_style_label(
                faces@[i].style,
            ),
{
    let mut source: Vec<String> = Vec::new();
    let mut index: Vec<i32> = Vec::new();
    let mut family: Vec<String> = Vec::new();
    let mut weight: Vec<String> = Vec::new();
    let mut style: Vec<String> = Vec::new();
    let mut faces = faces;
    let ghost all = faces@;
    while faces.len() > 0
        invariant
            source@.len() + faces@.len() == all.len(),
            faces@ == all.skip(source@.len() as int),
            index@.len() == source@.len(),
            family@.len() == source@.len(),
            weight@.len() == source@.len(),
            style@.len() == source@.len(),
            forall|i: int|
                0 <= i < source@.len() ==> source@[i] == (#[trigger] all[i]).source,
            forall|i: int| 0 <= i < index@.len() ==> index@[i] == (#[trigger] all[i]).index,
            forall|i: int| 0 <= i < family@.len() ==> family@[i] == (#[trigger] all[i]).family,
            forall|i: int|
                0 <= i < weight@.len() ==> (#[trigger] weight@[i])@ == spec_weight_label(
                    all[i].weight,
                ),
            forall|i: int|
                0 <= i < style@.len() ==> (#[trigger] style@[i])@ == spec_style_label(
                    all[i].style,
                ),
        decreases faces@.len(),
    {
        let k = source.len();
        let f = faces.remove(0);
        proof {
            assert(f == all[k as int]);
        }
        let w = weight_label(f.weight).to_owned();
        let st = style_label(f.style).to_owned();
        source.push(f.source);
        index.push(f.index);
        family.push(f.family);
        weight.push(w);
        style.push(st);
        proof {
            assert(faces@ =~= all.skip(source@.len() as int));
        }
    }
    FontDBTibble { source, index, family, weight, style }
}

} // verus!
