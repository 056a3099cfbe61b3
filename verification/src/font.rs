//! Font access and the outline walker.
//!
//! Every face query is a trusted call into `ttf-parser`, parametrized by
//! the raw font bytes and the face index, so each query is a function of
//! plain values. The walker itself — control characters, line breaks,
//! glyph counting, kerning and advances — is verified.

use vstd::prelude::*;
use vstd::string::StringExecFns;

use crate::builder::LyonPathBuilder;
use crate::builder::MAX_ID;
use crate::geom::recip_scale;
use crate::geom::recip_scale_of;

verus! {

/// Why a font face failed to parse.
#[derive(Clone, Copy, PartialEq, Eq, Structural, Debug)]
pub enum FaceError {
    MalformedFont,
    UnknownMagic,
    FaceIndexOutOfBounds,
    NoHeadTable,
    NoHheaTable,
    NoMaxpTable,
}

/// What can go wrong while loading a font and walking a text run.
#[derive(Clone, Debug)]
pub enum FontLoadingError {
    /// The font bytes failed to parse.
    FaceParsingError(FaceError),
    /// The font file could not be read; carries the reader's message.
    IOError(String),
    /// No font matched the query and no fallback was available.
    NoAvailableFonts,
    /// A glyph's outline or paint traversal failed; carries the offending
    /// character.
    GlyphOutlineFailure(char),
}

/// The parse outcome of a face: `None` when the bytes parse at this index.
pub uninterp spec fn face_error_of(data: Seq<u8>, index: u32) -> Option<FaceError>;

/// Whether the bytes parse as a face at this index.
pub open spec fn face_ok(data: Seq<u8>, index: u32) -> bool {
    face_error_of(data, index) is None
}

/// The face's height (ascender minus descender), in font design units.
pub uninterp spec fn height_of(data: Seq<u8>, index: u32) -> i16;

/// The face's line gap, in font design units.
pub uninterp spec fn line_gap_of(data: Seq<u8>, index: u32) -> i16;

/// The glyph index the face maps a codepoint to, if any.
pub uninterp spec fn glyph_index_of(data: Seq<u8>, index: u32, c: char) -> Option<u16>;

/// The glyph's horizontal advance, if the face knows one.
pub uninterp spec fn advance_of(data: Seq<u8>, index: u32, glyph: u16) -> Option<u16>;

/// Whether the face colors this glyph through its paint tables.
pub uninterp spec fn is_color_glyph_of(data: Seq<u8>, index: u32, glyph: u16) -> bool;

/// How many kerning subtables the face's kerning table yields.
pub uninterp spec fn kern_count_of(data: Seq<u8>, index: u32) -> int;

/// Whether the face's kerning subtable `i` is for horizontal text.
pub uninterp spec fn kern_horizontal_of(data: Seq<u8>, index: u32, i: int) -> bool;

/// The kerning subtable `i`'s value for a glyph pair, if it defines one.
pub uninterp spec fn kern_pair_of(
    data: Seq<u8>,
    index: u32,
    i: int,
    left: u16,
    right: u16,
) -> Option<i16>;

/// Relies on `ttf_parser::Face::parse`: the parse outcome, one library
/// variant per parser error.
#[verifier::external_body]
pub fn face_parse_check(data: &[u8], index: u32) -> (r: Option<FaceError>)
    ensures
        r == face_error_of(data@, index),
{
    match ttf_parser::Face::parse(data, index) {
        Ok(_) => None,
        Err(ttf_parser::FaceParsingError::MalformedFont) => Some(FaceError::MalformedFont),
        Err(ttf_parser::FaceParsingError::UnknownMagic) => Some(FaceError::UnknownMagic),
        Err(ttf_parser::FaceParsingError::FaceIndexOutOfBounds) => Some(
            FaceError::FaceIndexOutOfBounds,
        ),
        Err(ttf_parser::FaceParsingError::NoHeadTable) => Some(FaceError::NoHeadTable),
        Err(ttf_parser::FaceParsingError::NoHheaTable) => Some(FaceError::NoHheaTable),
        Err(ttf_parser::FaceParsingError::NoMaxpTable) => Some(FaceError::NoMaxpTable),
    }
}

/// Relies on `ttf_parser::Face::height`; zero when the bytes do not parse.
#[verifier::external_body]
pub(crate) fn face_height(data: &[u8], index: u32) -> (r: i16)
    ensures
        face_ok(data@, index) ==> r == height_of(data@, index),
        !face_ok(data@, index) ==> r == 0,
{
    match ttf_parser::Face::parse(data, index) {
        Ok(f) => f.height(),
        Err(_) => 0,
    }
}

/// Relies on `ttf_parser::Face::line_gap`; zero when the bytes do not
/// parse.
#[verifier::external_body]
pub(crate) fn face_line_gap(data: &[u8], index: u32) -> (r: i16)
    ensures
        face_ok(data@, index) ==> r == line_gap_of(data@, index),
        !face_ok(data@, index) ==> r == 0,
{
    match ttf_parser::Face::parse(data, index) {
        Ok(f) => f.line_gap(),
        Err(_) => 0,
    }
}

/// Relies on `ttf_parser::Face::glyph_index`; `None` when the bytes do
/// not parse.
#[verifier::external_body]
pub(crate) fn face_glyph_index(data: &[u8], index: u32, c: char) -> (r: Option<u16>)
    ensures
        face_ok(data@, index) ==> r == glyph_index_of(data@, index, c),
        !face_ok(data@, index) ==> r is None,
{
    match ttf_parser::Face::parse(data, index) {
        Ok(f) => f.glyph_index(c).map(|g| g.0),
        Err(_) => None,
    }
}

/// Relies on `ttf_parser::Face::glyph_hor_advance`; `None` when the bytes
/// do not parse.
#[verifier::external_body]
pub(crate) fn face_glyph_hor_advance(data: &[u8], index: u32, glyph: u16) -> (r: Option<u16>)
    ensures
        face_ok(data@, index) ==> r == advance_of(data@, index, glyph),
        !face_ok(data@, index) ==> r is None,
{
    match ttf_parser::Face::parse(data, index) {
        Ok(f) => f.glyph_hor_advance(ttf_parser::GlyphId(glyph)),
        Err(_) => None,
    }
}

/// Relies on `ttf_parser::Face::is_color_glyph`; false when the bytes do
/// not parse.
#[verifier::external_body]
pub(crate) fn face_is_color_glyph(data: &[u8], index: u32, glyph: u16) -> (r: bool)
    ensures
        face_ok(data@, index) ==> r == is_color_glyph_of(data@, index, glyph),
        !face_ok(data@, index) ==> r == false,
{
    match ttf_parser::Face::parse(data, index) {
        Ok(f) => f.is_color_glyph(ttf_parser::GlyphId(glyph)),
        Err(_) => false,
    }
}

/// Relies on the kerning table's subtable iterator: how many subtables it
/// yields; zero without a kerning table or when the bytes do not parse.
#[verifier::external_body]
pub(crate) fn kern_sub_count(data: &[u8], index: u32) -> (r: usize)
    ensures
        face_ok(data@, index) ==> r == kern_count_of(data@, index),
        !face_ok(data@, index) ==> r == 0,
{
    match ttf_parser::Face::parse(data, index) {
        Ok(f) => f.tables().kern.map(|k| k.subtables.into_iter().count()).unwrap_or(0),
        Err(_) => 0,
    }
}

/// Relies on the kerning subtable's `horizontal` flag; false out of
/// range or when the bytes do not parse.
#[verifier::external_body]
pub(crate) fn kern_sub_horizontal(data: &[u8], index: u32, i: usize) -> (r: bool)
    ensures
        face_ok(data@, index) && i < kern_count_of(data@, index) ==> r == kern_horizontal_of(
            data@,
            index,
            i as int,
        ),
        !(face_ok(data@, index) && i < kern_count_of(data@, index)) ==> r == false,
{
    match ttf_parser::Face::parse(data, index) {
        Ok(f) => f.tables().kern.and_then(|k| k.subtables.into_iter().nth(i)).map(
            |st| st.horizontal,
        ).unwrap_or(false),
        Err(_) => false,
    }
}

/// Relies on the kerning subtable's `glyphs_kerning`; `None` out of range,
/// for a pair the subtable does not define, or when the bytes do not
/// parse.
#[verifier::external_body]
pub(crate) fn kern_sub_kerning(data: &[u8], index: u32, i: usize, left: u16, right: u16) -> (r:
    Option<i16>)
    ensures
        face_ok(data@, index) && i < kern_count_of(data@, index) ==> r == kern_pair_of(
            data@,
            index,
            i as int,
            left,
            right,
        ),
        !(face_ok(data@, index) && i < kern_count_of(data@, index)) ==> r is None,
{
    match ttf_parser::Face::parse(data, index) {
        Ok(f) => f.tables().kern.and_then(|k| k.subtables.into_iter().nth(i)).and_then(
            |st| st.glyphs_kerning(ttf_parser::GlyphId(left), ttf_parser::GlyphId(right)),
        ),
        Err(_) => None,
    }
}

/// The kerning the scan yields from subtable `i` on: the value of the
/// first horizontal subtable from `i` that defines the pair, else zero.
pub open spec fn kerning_from(
    data: Seq<u8>,
    index: u32,
    left: u16,
    right: u16,
    i: int,
    n: int,
) -> i16
    decreases n - i,
{
    if i < 0 || i >= n {
        0
    } else if kern_horizontal_of(data, index, i) && kern_pair_of(
        data,
        index,
        i,
        left,
        right,
    ) is Some {
        match kern_pair_of(data, index, i, left, right) {
            Some(v) => v,
            None => 0,
        }
    } else {
        kerning_from(data, index, left, right, i + 1, n)
    }
}

/// The horizontal kerning between two glyphs: the value of the first
/// horizontal kerning subtable that defines the pair, else zero.
pub open spec fn spec_kerning(data: Seq<u8>, index: u32, left: u16, right: u16) -> i16 {
    if face_ok(data, index) {
        kerning_from(data, index, left, right, 0, kern_count_of(data, index))
    } else {
        0
    }
}

/// Looks the pair up in the face's horizontal kerning subtables, in table
/// order: the first horizontal subtable that defines the pair decides;
/// without one, the kerning is zero.
pub fn find_kerning(data: &[u8], index: u32, left: u16, right: u16) -> (k: i16)
    ensures
        k == spec_kerning(data@, index, left, right),
{
    let n = kern_sub_count(data, index);
    let mut i: usize = 0;
    while i < n
        invariant
            i <= n,
            face_ok(data@, index) ==> n == kern_count_of(data@, index),
            !face_ok(data@, index) ==> n == 0,
            face_ok(data@, index) ==> kerning_from(data@, index, left, right, 0, n as int)
                == kerning_from(data@, index, left, right, i as int, n as int),
        decreases n - i,
    {
        if kern_sub_horizontal(data, index, i) {
            let hit = kern_sub_kerning(data, index, i, left, right);
            match hit {
                Some(v) => {
                    return v;
                },
                None => {},
            }
        }
        i = i + 1;
    }
    0
}

/// Whether a character is a control character (the Unicode `Cc`
/// category).
pub open spec fn is_control_char(c: char) -> bool {
    (c as u32) < 0x20 || (0x7f <= (c as u32) && (c as u32) <= 0x9f)
}

/// The glyph a character resolves to: the face's mapping, or glyph zero
/// (`notdef`) when the character is unmapped or the face invalid — an
/// unmapped character never fails the run.
pub open spec fn spec_glyph(data: Seq<u8>, index: u32, c: char) -> u16 {
    if face_ok(data, index) {
        match glyph_index_of(data, index, c) {
            Some(g) => g,
            None => 0,
        }
    } else {
        0
    }
}

/// The line height used for a line break: face height plus line gap, in
/// font design units; zero when the face is invalid.
pub open spec fn line_height_of(data: Seq<u8>, index: u32) -> int {
    if face_ok(data, index) {
        height_of(data, index) + line_gap_of(data, index)
    } else {
        0
    }
}

/// The horizontal advance applied after a glyph: the face's value, or
/// zero when unknown.
pub open spec fn spec_advance(data: Seq<u8>, index: u32, glyph: u16) -> int {
    if face_ok(data, index) {
        match advance_of(data, index, glyph) {
            Some(a) => a as int,
            None => 0,
        }
    } else {
        0
    }
}

/// What the walker asks its caller to do for one character.
#[derive(Clone, Copy, PartialEq, Eq, Structural, Debug)]
pub enum GlyphDirective {
    /// A control character: handled internally, nothing to outline.
    Control,
    /// Outline this glyph, through the paint traversal when `color`
    /// holds, else through the plain outline callback.
    Outline { glyph: u16, color: bool },
}

impl LyonPathBuilder {
    /// Prepares the accumulator for a face: sets the scale factor to the
    /// reciprocal of the face height and forgets the previous glyph.
    /// Fails exactly when the bytes do not parse at this index.
    pub fn start_face(&mut self, data: &[u8], index: u32) -> (r: Result<(), FontLoadingError>)
        requires
            old(self).wf(),
        ensures
            final(self).wf(),
            r is Ok <==> face_ok(data@, index),
            face_error_of(data@, index) matches Some(e) ==> r == Err::<(), FontLoadingError>(
                FontLoadingError::FaceParsingError(e),
            ),
            r is Ok ==> final(self).scale_factor == recip_scale_of(height_of(data@, index)),
            r is Ok ==> final(self).prev_glyph is None,
            r is Err ==> *final(self) == *old(self),
            final(self).offset_x == old(self).offset_x,
            final(self).offset_y == old(self).offset_y,
            final(self).cur_glyph_id == old(self).cur_glyph_id,
            final(self).cur_path_id == old(self).cur_path_id,
            final(self).glyph_id_map@ == old(self).glyph_id_map@,
            final(self).begin_tags@ == old(self).begin_tags@,
            final(self).layer_colors@ == old(self).layer_colors@,
            final(self).in_sub_path == old(self).in_sub_path,
            Self::same_config(*old(self), *final(self)),
    {
        match face_parse_check(data, index) {
            Some(e) => Err(FontLoadingError::FaceParsingError(e)),
            None => {
                let h = face_height(data, index);
                let s = recip_scale(h);
                self.set_scale_factor(s);
                self.prev_glyph = None;
                Ok(())
            },
        }
    }

    /// Handles one character up to the point where its outline would be
    /// produced. A control character is handled completely: a line break
    /// returns the pen to the start of the line and moves it down by one
    /// line height, and any control character forgets the previous glyph.
    /// Any other character is counted (even when unmapped), kerned
    /// against the previous glyph on the same line, and handed back as a
    /// directive to outline.
    pub fn begin_char(&mut self, data: &[u8], index: u32, c: char) -> (d: GlyphDirective)
        requires
            old(self).wf(),
            old(self).cur_glyph_id < MAX_ID,
            i64::MIN + 0x20000 <= old(self).offset_x <= i64::MAX - 0x20000,
            i64::MIN + 0x20000 <= old(self).offset_y <= i64::MAX - 0x20000,
        ensures
            final(self).wf(),
            is_control_char(c) ==> {
                &&& d == GlyphDirective::Control
                &&& final(self).cur_glyph_id == old(self).cur_glyph_id
                &&& final(self).prev_glyph is None
                &&& (c == '\n' ==> final(self).offset_x == 0 && final(self).offset_y == old(self).offset_y - line_height_of(data@, index))
                &&& (c != '\n' ==> final(self).offset_x == old(self).offset_x && final(self).offset_y == old(self).offset_y)
            },
            !is_control_char(c) ==> {
                &&& d == (GlyphDirective::Outline {
                    glyph: spec_glyph(data@, index, c),
                    color: face_ok(data@, index) && is_color_glyph_of(
                        data@,
                        index,
                        spec_glyph(data@, index, c),
                    ),
                })
                &&& final(self).cur_glyph_id == old(self).cur_glyph_id + 1
                &&& final(self).offset_x == old(self).offset_x + (match old(self).prev_glyph {
                    Some(p) => spec_kerning(data@, index, p, spec_glyph(data@, index, c)) as int,
                    None => 0,
                })
                &&& final(self).offset_y == old(self).offset_y
                &&& final(self).prev_glyph == old(self).prev_glyph
            },
            final(self).cur_path_id == old(self).cur_path_id,
            final(self).glyph_id_map@ == old(self).glyph_id_map@,
            final(self).begin_tags@ == old(self).begin_tags@,
            final(self).layer_colors@ == old(self).layer_colors@,
            final(self).in_sub_path == old(self).in_sub_path,
            final(self).base_transform == old(self).base_transform,
            final(self).scale_factor == old(self).scale_factor,
            Self::same_config(*old(self), *final(self)),
    {
        let code = c as u32;
        if code < 0x20 || (0x7f <= code && code <= 0x9f) {
            if c == '\n' {
                let h = face_height(data, index);
                let gap = face_line_gap(data, index);
                let line_height: i64 = h as i64 + gap as i64;
                self.sub_offset_y(line_height);
                self.reset_offset_x();
            }
            self.prev_glyph = None;
            GlyphDirective::Control
        } else {
            self.cur_glyph_id = self.cur_glyph_id + 1;
            let cur_glyph = match face_glyph_index(data, index, c) {
                Some(g) => g,
                None => 0,
            };
            match self.prev_glyph {
                Some(p) => {
                    let kern = find_kerning(data, index, p, cur_glyph);
                    self.add_offset_x(kern as i64);
                },
                None => {},
            }
            let color = face_is_color_glyph(data, index, cur_glyph);
            GlyphDirective::Outline { glyph: cur_glyph, color }
        }
    }

    /// Finishes one character after its outline was produced: advances the
    /// pen by the glyph's horizontal advance (zero when the face knows
    /// none) and remembers the glyph for the next character's kerning.
    pub fn finish_char(&mut self, data: &[u8], index: u32, glyph: u16)
        requires
            old(self).wf(),
            i64::MIN <= old(self).offset_x + 0x10000 <= i64::MAX,
        ensures
            final(self).wf(),
            final(self).offset_x == old(self).offset_x + spec_advance(data@, index, glyph),
            final(self).offset_y == old(self).offset_y,
            final(self).prev_glyph == Some(glyph),
            final(self).cur_glyph_id == old(self).cur_glyph_id,
            final(self).cur_path_id == old(self).cur_path_id,
            final(self).glyph_id_map@ == old(self).glyph_id_map@,
            final(self).begin_tags@ == old(self).begin_tags@,
            final(self).layer_colors@ == old(self).layer_colors@,
            final(self).in_sub_path == old(self).in_sub_path,
            final(self).base_transform == old(self).base_transform,
            final(self).scale_factor == old(self).scale_factor,
            Self::same_config(*old(self), *final(self)),
    {
        match face_glyph_hor_advance(data, index, glyph) {
            Some(a) => {
                self.add_offset_x(a as i64);
            },
            None => {},
        }
        self.prev_glyph = Some(glyph);
    }
}

/// Relies on `char::to_string`: the one-character string.
#[verifier::external_body]
pub(crate) fn char_to_string(c: char) -> (r: String)
    ensures
        r@ == seq![c],
{
    c.to_string()
}

/// The message of a loading error, matching the font parser's own wording
/// for parse failures.
pub open spec fn message_chars(e: FontLoadingError) -> Seq<char> {
    match e {
        FontLoadingError::FaceParsingError(fe) => match fe {
            FaceError::MalformedFont => "malformed font"@,
            FaceError::UnknownMagic => "unknown magic"@,
            FaceError::FaceIndexOutOfBounds => "face index is out of bounds"@,
            FaceError::NoHeadTable => "the head table is missing or malformed"@,
            FaceError::NoHheaTable => "the hhea table is missing or malformed"@,
            FaceError::NoMaxpTable => "the maxp table is missing or malformed"@,
        },
        FontLoadingError::IOError(m) => m@,
        FontLoadingError::NoAvailableFonts => "No available fonts is found on the machine"@,
        FontLoadingError::GlyphOutlineFailure(c) => "Failed to outline char '"@ + seq![c] + "'"@,
    }
}

impl FontLoadingError {
    /// The error's message.
    pub fn message(&self) -> (r: String)
        ensures
            r@ == message_chars(*self),
    {
        match self {
            FontLoadingError::FaceParsingError(fe) => match fe {
                FaceError::MalformedFont => "malformed font".to_owned(),
                FaceError::UnknownMagic => "unknown magic".to_owned(),
                FaceError::FaceIndexOutOfBounds => "face index is out of bounds".to_owned(),
                FaceError::NoHeadTable => "the head table is missing or malformed".to_owned(),
                FaceError::NoHheaTable => "the hhea table is missing or malformed".to_owned(),
                FaceError::NoMaxpTable => "the maxp table is missing or malformed".to_owned(),
            },
            FontLoadingError::IOError(m) => m.clone(),
            FontLoadingError::NoAvailableFonts => {
                "No available fonts is found on the machine".to_owned()
            },
            FontLoadingError::GlyphOutlineFailure(c) => {
                let mut s = String::new();
                s.append("Failed to outline char '");
                let cs = char_to_string(*c);
                s.append(cs.as_str());
                s.append("'");
                proof {
                    assert(s@ =~= message_chars(*self));
                }
                s
            },
        }
    }
}

} // verus!
