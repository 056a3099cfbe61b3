//! Mesh extraction: tessellates the built path of every layer into a
//! triangle list and emits one row per triangle corner, tagged with the
//! layer's glyph, a running triangle id and, for color fonts, the layer's
//! paint color.

use vstd::prelude::*;

use crate::builder::BuiltLayer;
use crate::builder::LyonPathBuilder;
use crate::builder::MAX_ID;
use crate::builder::tags_count;
use crate::builder::lemma_tags_count_mono;
use crate::color::Rgba;
use crate::color::format_layer_color;
use crate::color::layer_color_chars;
use crate::geom::GeomPoint;
use crate::into_path::layer_color_of;
use crate::result::PathTibble;
use crate::sink::PathEventData;
use crate::sink::lyon_path_events;
use lyon::tessellation::BuffersBuilder;
use lyon::tessellation::FillOptions;
use lyon::tessellation::FillTessellator;
use lyon::tessellation::StrokeOptions;
use lyon::tessellation::StrokeTessellator;
use lyon::tessellation::VertexBuffers;
use lyon::tessellation::geometry_builder::Positions;

verus! {

/// The triangle mesh a fill tessellation of these path events yields at
/// this tolerance: the vertices and the triangle-list indices; `None`
/// when the tessellator reports an error.
pub uninterp spec fn fill_mesh_of(evs: Seq<PathEventData>, tolerance: GeomPoint) -> Option<
    (Seq<GeomPoint>, Seq<usize>),
>;

/// The triangle mesh a stroke tessellation of these path events yields at
/// this tolerance and line width; `None` when the tessellator reports an
/// error.
pub uninterp spec fn stroke_mesh_of(
    evs: Seq<PathEventData>,
    tolerance: GeomPoint,
    line_width: GeomPoint,
) -> Option<(Seq<GeomPoint>, Seq<usize>)>;

/// Relies on lyon's `FillTessellator`: fills the path at the tolerance
/// into an indexed triangle list. Indices come in threes, one triangle
/// each, and index into the vertices. `None` when the tessellator reports
/// an error.
#[verifier::external_body]
pub(crate) fn tessellate_fill(p: &lyon::path::Path, tolerance: &GeomPoint) -> (r: Option<
    (Vec<GeomPoint>, Vec<usize>),
>)
    ensures
        r is Some <==> fill_mesh_of(lyon_path_events(*p), *tolerance) is Some,
        r matches Some(m) ==> fill_mesh_of(lyon_path_events(*p), *tolerance) == Some(
            (m.0@, m.1@),
        ),
        r matches Some(m) ==> m.1@.len() % 3 == 0 && (forall|n: int|
            0 <= n < m.1@.len() ==> m.1@[n] < m.0@.len()),
{
    let mut g: VertexBuffers<lyon::math::Point, u32> = VertexBuffers::new();
    let options = FillOptions::tolerance(tolerance.0.x);
    let r = FillTessellator::new().tessellate_path(p, &options, &mut BuffersBuilder::new(&mut g, Positions));
    match r {
        Ok(_) => Some((g.vertices.iter().map(|q| GeomPoint(*q)).collect(), g.indices.iter().map(|n| *n as usize).collect())),
        Err(_) => None,
    }
}

/// Relies on lyon's `StrokeTessellator`: strokes the path at the
/// tolerance and line width into an indexed triangle list, as for the
/// fill.
#[verifier::external_body]
pub(crate) fn tessellate_stroke(
    p: &lyon::path::Path,
    tolerance: &GeomPoint,
    line_width: &GeomPoint,
) -> (r: Option<(Vec<GeomPoint>, Vec<usize>)>)
    ensures
        r is Some <==> stroke_mesh_of(lyon_path_events(*p), *tolerance, *line_width) is Some,
        r matches Some(m) ==> stroke_mesh_of(lyon_path_events(*p), *tolerance, *line_width)
            == Some((m.0@, m.1@)),
        r matches Some(m) ==> m.1@.len() % 3 == 0 && (forall|n: int|
            0 <= n < m.1@.len() ==> m.1@[n] < m.0@.len()),
{
    let mut g: VertexBuffers<lyon::math::Point, u32> = VertexBuffers::new();
    let options = StrokeOptions::tolerance(tolerance.0.x).with_line_width(line_width.0.x);
    let r = StrokeTessellator::new().tessellate_path(p, &options, &mut BuffersBuilder::new(&mut g, Positions));
    match r {
        Ok(_) => Some((g.vertices.iter().map(|q| GeomPoint(*q)).collect(), g.indices.iter().map(|n| *n as usize).collect())),
        Err(_) => None,
    }
}

/// One emitted mesh row: a triangle corner, the glyph of its layer, and
/// its triangle's id.
pub struct MeshRow {
    pub at: GeomPoint,
    pub glyph_id: i32,
    pub triangle_id: int,
}

/// The rows one mesh emits: one row per index, in index order; three
/// consecutive indices share one triangle id, and ids continue from
/// `offset`.
pub open spec fn mesh_rows(
    vertices: Seq<GeomPoint>,
    indices: Seq<usize>,
    glyph: i32,
    offset: int,
) -> Seq<MeshRow> {
    Seq::<MeshRow>::new(
        indices.len(),
        |n: int| MeshRow { at: vertices[indices[n] as int], glyph_id: glyph, triangle_id: n / 3 + offset },
    )
}

/// Where the next mesh's triangle ids continue: one past the last id
/// handed out, zero at the start.
pub open spec fn next_tri_offset(rows: Seq<MeshRow>) -> int {
    if rows.len() == 0 {
        0
    } else {
        rows.last().triangle_id + 1
    }
}

/// The glyph id the rows of layer `l` carry: the glyph of the last
/// sub-path begun up to and including this layer, zero when the layer
/// region holds no sub-path.
pub open spec fn mesh_glyph_of(b: LyonPathBuilder, l: int) -> i32 {
    let cur = tags_count(b.begin_tags@, l + 1);
    if 1 <= cur <= b.glyph_id_map@.len() {
        b.glyph_id_map@[cur - 1] as i32
    } else {
        0
    }
}

/// The mesh of layer `l`: a fill or a stroke tessellation of its built
/// path.
pub open spec fn mesh_at(b: LyonPathBuilder, l: int, stroke: bool) -> Option<
    (Seq<GeomPoint>, Seq<usize>),
> {
    if stroke {
        stroke_mesh_of(b.builders@[l].built(), b.tolerance, b.line_width)
    } else {
        fill_mesh_of(b.builders@[l].built(), b.tolerance)
    }
}

/// The rows and the color column the first `l` layers of a mesh
/// extraction emit: `None` when some layer's tessellation fails or its
/// triangle ids would leave the column's range.
pub open spec fn mesh_rows_upto(b: LyonPathBuilder, stroke: bool, l: int) -> Option<
    (Seq<MeshRow>, Seq<Seq<char>>),
>
    decreases l,
{
    if l <= 0 {
        Some((Seq::<MeshRow>::empty(), Seq::<Seq<char>>::empty()))
    } else {
        match mesh_rows_upto(b, stroke, l - 1) {
            None => None,
            Some(acc) => match mesh_at(b, l - 1, stroke) {
                None => None,
                Some(m) => {
                    let offset = next_tri_offset(acc.0);
                    if offset + m.1.len() / 3 > MAX_ID {
                        None
                    } else {
                        Some(
                            (
                                acc.0 + mesh_rows(m.0, m.1, mesh_glyph_of(b, l - 1), offset),
                                acc.1 + Seq::<Seq<char>>::new(
                                    m.1.len(),
                                    |n: int| layer_color_chars(layer_color_of(b, l - 1)),
                                ),
                            ),
                        )
                    }
                },
            },
        }
    }
}

/// All rows of a mesh extraction, in layer order; `None` when it fails.
pub open spec fn mesh_rows_of(b: LyonPathBuilder, stroke: bool) -> Option<
    (Seq<MeshRow>, Seq<Seq<char>>),
> {
    mesh_rows_upto(b, stroke, b.builders@.len() as int)
}

/// Appends one tessellated mesh to the result: one row per index, with
/// the vertex the index picks, the layer's glyph id, a triangle id of
/// `n / 3` past the last one handed out, and the layer's color entry
/// where the color column is present.
pub fn extract_vertex_buffer(
    vertices: &Vec<GeomPoint>,
    indices: &Vec<usize>,
    dst: &mut PathTibble,
    paint_color: &Option<Rgba>,
    glyph_id: i32,
)
    requires
        old(dst).wf(),
        old(dst).triangle_id is Some,
        old(dst).path_id is None,
        forall|n: int| 0 <= n < indices@.len() ==> indices@[n] < vertices@.len(),
        tri_offset_of(*old(dst)) + indices@.len() / 3 <= MAX_ID,
        tri_offset_of(*old(dst)) >= 0,
    ensures
        final(dst).wf(),
        final(dst).xy@.len() == old(dst).xy@.len() + indices@.len(),
        final(dst).xy@ == old(dst).xy@ + mesh_rows(
            vertices@,
            indices@,
            glyph_id,
            tri_offset_of(*old(dst)),
        ).map_values(|r: MeshRow| r.at),
        final(dst).glyph_id@ == old(dst).glyph_id@ + mesh_rows(
            vertices@,
            indices@,
            glyph_id,
            tri_offset_of(*old(dst)),
        ).map_values(|r: MeshRow| r.glyph_id),
        final(dst).triangle_id matches Some(tv) && old(dst).triangle_id matches Some(otv) && tv@
            == otv@ + mesh_rows(
            vertices@,
            indices@,
            glyph_id,
            tri_offset_of(*old(dst)),
        ).map_values(|r: MeshRow| r.triangle_id as i32),
        final(dst).path_id == old(dst).path_id,
        old(dst).color is None ==> final(dst).color is None,
        old(dst).color matches Some(ocv) ==> (final(dst).color matches Some(cv) && cv@.len()
            == ocv@.len() + indices@.len() && (forall|n: int|
            0 <= n < ocv@.len() ==> cv@[n] == ocv@[n]) && (forall|n: int|
            ocv@.len() <= n < cv@.len() ==> (#[trigger] cv@[n])@ == layer_color_chars(
                *paint_color,
            ))),
        tri_offset_of(*final(dst)) == (if indices@.len() == 0 {
            tri_offset_of(*old(dst))
        } else {
            next_tri_offset(
                mesh_rows(vertices@, indices@, glyph_id, tri_offset_of(*old(dst))),
            )
        }),
{
    let offset: i32 = tri_offset(dst);
    let color_str = format_layer_color(paint_color);
    let ghost pre = *dst;
    let ghost rows = mesh_rows(vertices@, indices@, glyph_id, offset as int);
    let mut n: usize = 0;
    while n < indices.len()
        invariant
            pre.wf(),
            dst.wf(),
            forall|j: int| 0 <= j < indices@.len() ==> indices@[j] < vertices@.len(),
            offset == tri_offset_of(pre),
            offset >= 0,
            offset + indices@.len() / 3 <= MAX_ID,
            rows == mesh_rows(vertices@, indices@, glyph_id, offset as int),
            n <= indices@.len(),
            color_str@ == layer_color_chars(*paint_color),
            dst.xy@ == pre.xy@ + rows.take(n as int).map_values(|r: MeshRow| r.at),
            dst.glyph_id@ == pre.glyph_id@ + rows.take(n as int).map_values(
                |r: MeshRow| r.glyph_id,
            ),
            pre.triangle_id is Some,
            dst.triangle_id matches Some(tv) && pre.triangle_id matches Some(otv) && tv@ == otv@
                + rows.take(n as int).map_values(|r: MeshRow| r.triangle_id as i32),
            dst.path_id is None,
            pre.path_id is None,
            pre.color is None ==> dst.color is None,
            pre.color matches Some(ocv) ==> (dst.color matches Some(cv) && cv@.len() == ocv@.len()
                + n && (forall|j: int| 0 <= j < ocv@.len() ==> cv@[j] == ocv@[j]) && (forall|j: int|
                ocv@.len() <= j < cv@.len() ==> (#[trigger] cv@[j])@ == layer_color_chars(
                    *paint_color,
                ))),
        decreases indices@.len() - n,
    {
        let idx = indices[n];
        if idx < vertices.len() {
            dst.xy.push(vertices[idx]);
            dst.glyph_id.push(glyph_id);
            match &mut dst.triangle_id {
                Some(tv) => {
                    tv.push((n / 3) as i32 + offset);
                },
                None => {},
            }
            match &mut dst.color {
                Some(cv) => {
                    cv.push(color_str.clone());
                },
                None => {},
            }
        }
        n = n + 1;
        proof {
            assert(rows.take(n as int) =~= rows.take(n as int - 1).push(rows[n as int - 1]));
            assert(rows.take(n as int).map_values(|r: MeshRow| r.at) =~= rows.take(
                n as int - 1,
            ).map_values(|r: MeshRow| r.at).push(rows[n as int - 1].at));
            assert(rows.take(n as int).map_values(|r: MeshRow| r.glyph_id) =~= rows.take(
                n as int - 1,
            ).map_values(|r: MeshRow| r.glyph_id).push(rows[n as int - 1].glyph_id));
            assert(rows.take(n as int).map_values(|r: MeshRow| r.triangle_id as i32) =~= rows.take(
                n as int - 1,
            ).map_values(|r: MeshRow| r.triangle_id as i32).push(
                rows[n as int - 1].triangle_id as i32,
            ));
        }
    }
    proof {
        assert(rows.take(indices@.len() as int) =~= rows);
        assert(dst.xy@ =~= pre.xy@ + rows.map_values(|r: MeshRow| r.at));
        assert(dst.glyph_id@ =~= pre.glyph_id@ + rows.map_values(|r: MeshRow| r.glyph_id));
        if indices@.len() > 0 {
            assert(next_tri_offset(rows) == (indices@.len() - 1) / 3 + offset + 1);
        }
    }
}

/// Where the next mesh's triangle ids would continue in this result: one
/// past the last id in the triangle column, zero while it is empty or
/// absent.
pub open spec fn tri_offset_of(t: PathTibble) -> int {
    match t.triangle_id {
        Some(v) => if v@.len() == 0 {
            0
        } else {
            v@.last() + 1
        },
        None => 0,
    }
}

/// Where the next mesh's triangle ids continue in this result.
pub fn tri_offset(t: &PathTibble) -> (r: i32)
    requires
        0 <= tri_offset_of(*t) <= MAX_ID,
    ensures
        r == tri_offset_of(*t),
{
    match &t.triangle_id {
        Some(v) => {
            if v.len() == 0 {
                0
            } else {
                let last = v[v.len() - 1];
                if last >= 0 {
                    last + 1
                } else {
                    0
                }
            }
        },
        None => 0,
    }
}

/// A failed layer makes the whole mesh extraction fail.
pub proof fn lemma_mesh_rows_none_propagates(b: LyonPathBuilder, stroke: bool, l: int, n: int)
    requires
        0 <= l <= n,
        mesh_rows_upto(b, stroke, l) is None,
    ensures
        mesh_rows_upto(b, stroke, n) is None,
    decreases n,
{
    if l < n {
        lemma_mesh_rows_none_propagates(b, stroke, l, n - 1);
    }
}

impl LyonPathBuilder {
    /// Tessellates every layer and assembles the result columns,
    /// consuming the accumulator. `None` exactly when some layer's
    /// tessellation fails or its triangle ids would leave the column's
    /// range.
    #[verifier::loop_isolation(false)]
    fn into_mesh(self, stroke: bool) -> (r: Option<PathTibble>)
        requires
            self.wf(),
            !self.in_sub_path,
        ensures
            r is Some <==> mesh_rows_of(self, stroke) is Some,
            r matches Some(t) ==> (mesh_rows_of(self, stroke) matches Some(m) && {
                &&& t.wf()
                &&& t.xy@ == m.0.map_values(|row: MeshRow| row.at)
                &&& t.glyph_id@ == m.0.map_values(|row: MeshRow| row.glyph_id)
                &&& t.path_id is None
                &&& (t.triangle_id matches Some(tv) && tv@ == m.0.map_values(
                    |row: MeshRow| row.triangle_id as i32,
                ))
                &&& (self.layer_colors@.len() == 0 ==> t.color is None)
                &&& (self.layer_colors@.len() > 0 ==> (t.color matches Some(cv) && cv@.len()
                    == m.1.len() && (forall|i: int| 0 <= i < cv@.len() ==> (#[trigger] cv@[i])@ == m.1[i])))
            }),
    {
        let mut this = self;
        let ghost pre = this;
        let has_color = this.layer_colors.len() > 0;
        let tolerance = this.tolerance;
        let line_width = this.line_width;
        let layers: Vec<BuiltLayer> = this.build();
        let mut result = PathTibble {
            xy: Vec::new(),
            glyph_id: Vec::new(),
            path_id: None,
            triangle_id: Some(Vec::new()),
            color: if has_color {
                Some(Vec::new())
            } else {
                None
            },
        };
        let mut cur: usize = 0;
        let mut l: usize = 0;
        proof {
            lemma_tags_count_mono(pre.begin_tags@, 0, pre.begin_tags@.len() as int);
        }
        while l < layers.len()
            invariant
                pre.wf(),
                layers@.len() == pre.builders@.len(),
                forall|j: int|
                    0 <= j < layers@.len() ==> lyon_path_events(#[trigger] layers@[j].path)
                        == pre.builders@[j].built(),
                forall|j: int|
                    0 <= j < layers@.len() ==> (#[trigger] layers@[j].tags)@ == pre.begin_tags@[j]@,
                forall|j: int|
                    0 <= j < layers@.len() ==> (#[trigger] layers@[j].color) == layer_color_of(
                        pre,
                        j,
                    ),
                l <= layers@.len(),
                this.glyph_id_map@ == pre.glyph_id_map@,
                tolerance == pre.tolerance,
                line_width == pre.line_width,
                has_color == (pre.layer_colors@.len() > 0),
                cur == tags_count(pre.begin_tags@, l as int),
                cur <= pre.glyph_id_map@.len(),
                mesh_rows_upto(pre, stroke, l as int) matches Some(acc) && {
                    &&& result.wf()
                    &&& result.xy@ == acc.0.map_values(|row: MeshRow| row.at)
                    &&& result.glyph_id@ == acc.0.map_values(|row: MeshRow| row.glyph_id)
                    &&& result.path_id is None
                    &&& (result.triangle_id matches Some(tv) && tv@ == acc.0.map_values(
                        |row: MeshRow| row.triangle_id as i32,
                    ))
                    &&& tri_offset_of(result) == next_tri_offset(acc.0)
                    &&& 0 <= next_tri_offset(acc.0) <= MAX_ID
                    &&& (!has_color ==> result.color is None)
                    &&& (has_color ==> (result.color matches Some(cv) && cv@.len() == acc.1.len()
                        && (forall|i: int|
                        0 <= i < cv@.len() ==> (#[trigger] cv@[i])@ == acc.1[i])))
                },
            decreases layers@.len() - l,
        {
            let mesh: Option<(Vec<GeomPoint>, Vec<usize>)> = if stroke {
                tessellate_stroke(&layers[l].path, &tolerance, &line_width)
            } else {
                tessellate_fill(&layers[l].path, &tolerance)
            };
            let ghost acc = mesh_rows_upto(pre, stroke, l as int)->Some_0;
            match mesh {
                None => {
                    proof {
                        assert(lyon_path_events(layers@[l as int].path) == pre.builders@[
                            l as int
                        ].built());
                        assert(mesh_at(pre, l as int, stroke) is None);
                        assert(mesh_rows_upto(pre, stroke, l as int) is Some);
                        assert(mesh_rows_upto(pre, stroke, l as int + 1) is None);
                        lemma_mesh_rows_none_propagates(
                            pre,
                            stroke,
                            l as int + 1,
                            pre.builders@.len() as int,
                        );
                    }
                    return None;
                },
                Some((vertices, indices)) => {
                    proof {
                        lemma_tags_count_mono(
                            pre.begin_tags@,
                            l as int + 1,
                            pre.begin_tags@.len() as int,
                        );
                    }
                    let map_len = this.glyph_id_map.len();
                    proof {
                        assert(tags_count(pre.begin_tags@, l as int + 1) == tags_count(
                            pre.begin_tags@,
                            l as int,
                        ) + pre.begin_tags@[l as int]@.len());
                        assert(tags_count(pre.begin_tags@, l as int + 1) <= map_len);
                    }
                    cur = cur + layers[l].tags.len();
                    let glyph: i32 = if 1 <= cur && cur <= this.glyph_id_map.len() {
                        this.glyph_id_map[cur - 1] as i32
                    } else {
                        0
                    };
                    let offset: i32 = tri_offset(&result);
                    let triangles = indices.len() / 3;
                    if triangles > (MAX_ID - (offset as u32)) as usize {
                        proof {
                            assert(mesh_rows_upto(pre, stroke, l as int + 1) is None);
                            lemma_mesh_rows_none_propagates(
                                pre,
                                stroke,
                                l as int + 1,
                                pre.builders@.len() as int,
                            );
                        }
                        return None;
                    }
                    extract_vertex_buffer(&vertices, &indices, &mut result, &layers[l].color, glyph);
                    proof {
                        let rows = mesh_rows(vertices@, indices@, glyph, next_tri_offset(acc.0));
                        let acc2 = mesh_rows_upto(pre, stroke, l as int + 1)->Some_0;
                        assert(glyph == mesh_glyph_of(pre, l as int));
                        assert(acc2.0 =~= acc.0 + rows);
                        assert(acc2.0.map_values(|row: MeshRow| row.at) =~= acc.0.map_values(
                            |row: MeshRow| row.at,
                        ) + rows.map_values(|row: MeshRow| row.at));
                        assert(acc2.0.map_values(|row: MeshRow| row.glyph_id) =~= acc.0.map_values(
                            |row: MeshRow| row.glyph_id,
                        ) + rows.map_values(|row: MeshRow| row.glyph_id));
                        assert(acc2.0.map_values(|row: MeshRow| row.triangle_id as i32)
                            =~= acc.0.map_values(|row: MeshRow| row.triangle_id as i32)
                            + rows.map_values(|row: MeshRow| row.triangle_id as i32));
                        if has_color {
                            assert(acc2.1 =~= acc.1 + Seq::<Seq<char>>::new(
                                indices@.len(),
                                |n: int| layer_color_chars(layer_color_of(pre, l as int)),
                            ));
                        }
                        if indices@.len() > 0 {
                            assert(next_tri_offset(acc2.0) == rows.last().triangle_id + 1);
                        }
                    }
                },
            }
            l = l + 1;
        }
        Some(result)
    }

    /// Converts the accumulated outlines into a filled triangle mesh,
    /// consuming the accumulator: every layer's path is fill-tessellated
    /// at the tolerance, and every three consecutive rows form one
    /// triangle with a shared, running triangle id, unique across layers.
    /// The `color` column is present exactly when some layer recorded a
    /// paint color; the `path_id` column is absent. `None` exactly when a
    /// tessellation fails or the triangle ids would leave the column's
    /// range.
    pub fn into_fill(self) -> (r: Option<PathTibble>)
        requires
            self.wf(),
            !self.in_sub_path,
        ensures
            r is Some <==> mesh_rows_of(self, false) is Some,
            r matches Some(t) ==> (mesh_rows_of(self, false) matches Some(m) && {
                &&& t.wf()
                &&& t.xy@ == m.0.map_values(|row: MeshRow| row.at)
                &&& t.glyph_id@ == m.0.map_values(|row: MeshRow| row.glyph_id)
                &&& t.path_id is None
                &&& (t.triangle_id matches Some(tv) && tv@ == m.0.map_values(
                    |row: MeshRow| row.triangle_id as i32,
                ))
                &&& (self.layer_colors@.len() == 0 ==> t.color is None)
                &&& (self.layer_colors@.len() > 0 ==> (t.color matches Some(cv) && cv@.len()
                    == m.1.len() && (forall|i: int| 0 <= i < cv@.len() ==> (#[trigger] cv@[i])@ == m.1[i])))
            }),
    {
        self.into_mesh(false)
    }

    /// Converts the accumulated outlines into a stroked triangle mesh of
    /// the accumulator's line width, consuming the accumulator, with the
    /// same columns as the fill.
    pub fn into_stroke(self) -> (r: Option<PathTibble>)
        requires
            self.wf(),
            !self.in_sub_path,
        ensures
            r is Some <==> mesh_rows_of(self, true) is Some,
            r matches Some(t) ==> (mesh_rows_of(self, true) matches Some(m) && {
                &&& t.wf()
                &&& t.xy@ == m.0.map_values(|row: MeshRow| row.at)
                &&& t.glyph_id@ == m.0.map_values(|row: MeshRow| row.glyph_id)
                &&& t.path_id is None
                &&& (t.triangle_id matches Some(tv) && tv@ == m.0.map_values(
                    |row: MeshRow| row.triangle_id as i32,
                ))
                &&& (self.layer_colors@.len() == 0 ==> t.color is None)
                &&& (self.layer_colors@.len() > 0 ==> (t.color matches Some(cv) && cv@.len()
                    == m.1.len() && (forall|i: int| 0 <= i < cv@.len() ==> (#[trigger] cv@[i])@ == m.1[i])))
            }),
    {
        self.into_mesh(true)
    }
}

} // verus!
