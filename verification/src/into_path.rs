//! Point-sequence extraction: walks the built paths of every layer and
//! emits one row per path point, tagged with the glyph and sub-path that
//! produced it and, for color fonts, the layer's paint color.

use vstd::prelude::*;

use crate::builder::BuiltLayer;
use crate::builder::LyonPathBuilder;
use crate::builder::MAX_ID;
use crate::builder::SubPathTag;
use crate::color::Rgba;
use crate::color::format_layer_color;
use crate::color::layer_color_chars;
use crate::geom::GeomPoint;
use crate::geom::points_feq;
use crate::geom::point_eq;
use crate::result::PathTibble;
use crate::sink::PathEventData;
use crate::sink::path_events_vec;

verus! {

/// One emitted row: a point and the identifiers of the sub-path it
/// belongs to.
pub struct PathPoint {
    pub at: GeomPoint,
    pub glyph_id: u32,
    pub path_id: u32,
}

/// The tag of sub-path `k` of a layer; all-zero out of range.
pub open spec fn tag_at(tags: Seq<SubPathTag>, k: int) -> SubPathTag {
    if 0 <= k < tags.len() {
        tags[k]
    } else {
        SubPathTag { glyph_id: 0, path_id: 0 }
    }
}

/// The rows one event emits, when `k` sub-paths have begun before it: a
/// `Begin` emits its starting point under the new sub-path's tag; a
/// segment emits its endpoint under the current tag; an `End` that closes
/// a sub-path whose last point has not returned to its first emits the
/// first point again, closing the ring.
pub open spec fn emitted(e: PathEventData, tags: Seq<SubPathTag>, k: int) -> Seq<PathPoint> {
    match e {
        PathEventData::Begin { at } => seq![
            PathPoint {
                at,
                glyph_id: tag_at(tags, k).glyph_id,
                path_id: tag_at(tags, k).path_id,
            },
        ],
        PathEventData::Line { to, .. } => seq![
            PathPoint {
                at: to,
                glyph_id: tag_at(tags, k - 1).glyph_id,
                path_id: tag_at(tags, k - 1).path_id,
            },
        ],
        PathEventData::Quadratic { to, .. } => seq![
            PathPoint {
                at: to,
                glyph_id: tag_at(tags, k - 1).glyph_id,
                path_id: tag_at(tags, k - 1).path_id,
            },
        ],
        PathEventData::Cubic { to, .. } => seq![
            PathPoint {
                at: to,
                glyph_id: tag_at(tags, k - 1).glyph_id,
                path_id: tag_at(tags, k - 1).path_id,
            },
        ],
        PathEventData::End { last, first, close } => {
            if close && !points_feq(last, first) {
                seq![
                    PathPoint {
                        at: first,
                        glyph_id: tag_at(tags, k - 1).glyph_id,
                        path_id: tag_at(tags, k - 1).path_id,
                    },
                ]
            } else {
                Seq::<PathPoint>::empty()
            }
        },
    }
}

/// How many sub-paths have begun after this event: a `Begin` starts the
/// next one.
pub open spec fn next_tag_index(e: PathEventData, k: int) -> int {
    if e is Begin {
        k + 1
    } else {
        k
    }
}

/// The rows a layer's built events emit, in order, when `k` sub-paths
/// have begun before them.
pub open spec fn layer_rows(evs: Seq<PathEventData>, tags: Seq<SubPathTag>, k: int) -> Seq<
    PathPoint,
>
    decreases evs.len(),
{
    if evs.len() == 0 {
        Seq::<PathPoint>::empty()
    } else {
        emitted(evs.first(), tags, k) + layer_rows(
            evs.drop_first(),
            tags,
            next_tag_index(evs.first(), k),
        )
    }
}

/// The color of layer `l`, if it recorded one.
pub open spec fn layer_color_of(b: LyonPathBuilder, l: int) -> Option<Rgba> {
    if 0 <= l < b.layer_colors@.len() {
        Some(b.layer_colors@[l])
    } else {
        None
    }
}

/// The rows the first `l` layers emit, in layer order.
pub open spec fn rows_first_layers(b: LyonPathBuilder, l: int) -> Seq<PathPoint>
    decreases l,
{
    if l <= 0 {
        Seq::<PathPoint>::empty()
    } else {
        rows_first_layers(b, l - 1) + layer_rows(
            b.builders@[l - 1].built(),
            b.begin_tags@[l - 1]@,
            0,
        )
    }
}

/// The color column of the first `l` layers: each row carries its layer's
/// color entry.
pub open spec fn colors_first_layers(b: LyonPathBuilder, l: int) -> Seq<Seq<char>>
    decreases l,
{
    if l <= 0 {
        Seq::<Seq<char>>::empty()
    } else {
        colors_first_layers(b, l - 1) + Seq::<Seq<char>>::new(
            layer_rows(b.builders@[l - 1].built(), b.begin_tags@[l - 1]@, 0).len(),
            |i: int| layer_color_chars(layer_color_of(b, l - 1)),
        )
    }
}

/// All rows of a point-sequence extraction, in layer order.
pub open spec fn path_rows_of(b: LyonPathBuilder) -> Seq<PathPoint> {
    rows_first_layers(b, b.builders@.len() as int)
}

/// The color column of a point-sequence extraction, in layer order.
pub open spec fn path_colors_of(b: LyonPathBuilder) -> Seq<Seq<char>> {
    colors_first_layers(b, b.builders@.len() as int)
}

impl LyonPathBuilder {
    /// Extracts the accumulated outlines as a point sequence, consuming
    /// the accumulator: one row per built path point, in layer order,
    /// with its glyph id and sub-path id; a closed sub-path whose outline
    /// did not return to its starting point gets one extra row there. The
    /// `color` column is present exactly when some layer recorded a paint
    /// color; the `triangle_id` column is absent.
    pub fn into_path(self) -> (r: PathTibble)
        requires
            self.wf(),
            !self.in_sub_path,
        ensures
            r.wf(),
            r.xy@.len() == path_rows_of(self).len(),
            forall|i: int| 0 <= i < r.xy@.len() ==> r.xy@[i] == path_rows_of(self)[i].at,
            r.glyph_id@.len() == path_rows_of(self).len(),
            forall|i: int|
                0 <= i < r.glyph_id@.len() ==> r.glyph_id@[i] == path_rows_of(self)[i].glyph_id as i32,
            r.path_id matches Some(pv) && pv@.len() == path_rows_of(self).len() && (forall|i: int|
                0 <= i < pv@.len() ==> pv@[i] == path_rows_of(self)[i].path_id as i32),
            r.triangle_id is None,
            self.layer_colors@.len() == 0 ==> r.color is None,
            self.layer_colors@.len() > 0 ==> (r.color matches Some(cv) && cv@.len()
                == path_rows_of(self).len() && (forall|i: int|
                0 <= i < cv@.len() ==> cv@[i]@ == path_colors_of(self)[i])),
    {
        let mut this = self;
        let ghost pre = this;
        let has_color = this.layer_colors.len() > 0;
        let layers: Vec<BuiltLayer> = this.build();
        let mut xy: Vec<GeomPoint> = Vec::new();
        let mut glyph_col: Vec<i32> = Vec::new();
        let mut path_col: Vec<i32> = Vec::new();
        let mut color_col: Vec<String> = Vec::new();
        let ghost mut done: Seq<PathPoint> = Seq::<PathPoint>::empty();
        let mut l: usize = 0;
        while l < layers.len()
            invariant
                pre.wf(),
                layers@.len() == pre.builders@.len(),
                forall|j: int|
                    0 <= j < layers@.len() ==> crate::sink::lyon_path_events(
                        #[trigger] layers@[j].path,
                    ) == pre.builders@[j].built(),
                forall|j: int|
                    0 <= j < layers@.len() ==> (#[trigger] layers@[j].tags)@ == pre.begin_tags@[j]@,
                forall|j: int|
                    0 <= j < layers@.len() ==> (#[trigger] layers@[j].color) == layer_color_of(
                        pre,
                        j,
                    ),
                l <= layers@.len(),
                done == rows_first_layers(pre, l as int),
                xy@.len() == done.len(),
                forall|i: int| 0 <= i < done.len() ==> xy@[i] == (#[trigger] done[i]).at,
                glyph_col@.len() == done.len(),
                forall|i: int|
                    0 <= i < done.len() ==> glyph_col@[i] == (#[trigger] done[i]).glyph_id as i32,
                path_col@.len() == done.len(),
                forall|i: int|
                    0 <= i < done.len() ==> path_col@[i] == (#[trigger] done[i]).path_id as i32,
                forall|i: int|
                    0 <= i < done.len() ==> (#[trigger] done[i]).glyph_id <= MAX_ID
                        && done[i].path_id <= MAX_ID,
                has_color == (pre.layer_colors@.len() > 0),
                has_color ==> color_col@.len() == done.len(),
                has_color ==> colors_first_layers(pre, l as int).len() == done.len(),
                has_color ==> forall|i: int|
                    0 <= i < done.len() ==> (#[trigger] color_col@[i])@ == colors_first_layers(
                        pre,
                        l as int,
                    )[i],
            decreases layers@.len() - l,
        {
            let events: Vec<PathEventData> = path_events_vec(&layers[l].path);
            let color_str = format_layer_color(&layers[l].color);
            let ghost tags_seq = pre.begin_tags@[l as int]@;
            let ghost evs = pre.builders@[l as int].built();
            let ghost layer_start = done.len() as int;
            proof {
                assert(evs.skip(0) =~= evs);
            }
            let mut k: usize = 0;
            let mut cur_glyph: i32 = 0;
            let mut cur_pid: i32 = 0;
            let mut i: usize = 0;
            while i < events.len()
                invariant
                    pre.wf(),
                    l < layers@.len(),
                    layers@.len() == pre.builders@.len(),
                    (#[trigger] layers@[l as int].tags)@ == pre.begin_tags@[l as int]@,
                    events@ == evs,
                    evs == pre.builders@[l as int].built(),
                    tags_seq == pre.begin_tags@[l as int]@,
                    i <= events@.len(),
                    k <= i,
                    forall|j: int|
                        0 <= j < tags_seq.len() ==> (#[trigger] tags_seq[j]).glyph_id <= MAX_ID
                            && tags_seq[j].path_id <= MAX_ID,
                    cur_glyph == tag_at(tags_seq, k as int - 1).glyph_id as i32,
                    cur_pid == tag_at(tags_seq, k as int - 1).path_id as i32,
                    rows_first_layers(pre, l as int) + layer_rows(evs, tags_seq, 0) == done
                        + layer_rows(evs.skip(i as int), tags_seq, k as int),
                    xy@.len() == done.len(),
                    forall|j: int| 0 <= j < done.len() ==> xy@[j] == (#[trigger] done[j]).at,
                    glyph_col@.len() == done.len(),
                    forall|j: int|
                        0 <= j < done.len() ==> glyph_col@[j] == (#[trigger] done[j]).glyph_id as i32,
                    path_col@.len() == done.len(),
                    forall|j: int|
                        0 <= j < done.len() ==> path_col@[j] == (#[trigger] done[j]).path_id as i32,
                    forall|j: int|
                        0 <= j < done.len() ==> (#[trigger] done[j]).glyph_id <= MAX_ID
                            && done[j].path_id <= MAX_ID,
                    layer_start <= done.len(),
                    done.len() - layer_start + layer_rows(evs.skip(i as int), tags_seq, k as int).len()
                        == layer_rows(evs, tags_seq, 0).len(),
                    color_str@ == layer_color_chars(layer_color_of(pre, l as int)),
                    has_color == (pre.layer_colors@.len() > 0),
                    has_color ==> color_col@.len() == done.len(),
                    has_color ==> colors_first_layers(pre, l as int).len() == layer_start,
                    has_color ==> forall|j: int|
                        0 <= j < layer_start ==> (#[trigger] color_col@[j])@ == colors_first_layers(
                            pre,
                            l as int,
                        )[j],
                    has_color ==> forall|j: int|
                        layer_start <= j < done.len() ==> (#[trigger] color_col@[j])@
                            == layer_color_chars(layer_color_of(pre, l as int)),
                decreases events@.len() - i,
            {
                proof {
                    assert(evs.skip(i as int).len() > 0);
                    assert(evs.skip(i as int).first() == evs[i as int]);
                    assert(evs.skip(i as int).drop_first() =~= evs.skip(i as int + 1));
                }
                let ev = events[i];
                let emit: Option<GeomPoint> = match ev {
                    PathEventData::Begin { at } => {
                        let tag: SubPathTag = if k < layers[l].tags.len() {
                            layers[l].tags[k]
                        } else {
                            SubPathTag { glyph_id: 0, path_id: 0 }
                        };
                        k = k + 1;
                        cur_glyph = tag.glyph_id as i32;
                        cur_pid = tag.path_id as i32;
                        Some(at)
                    },
                    PathEventData::Line { to, .. } => Some(to),
                    PathEventData::Quadratic { to, .. } => Some(to),
                    PathEventData::Cubic { to, .. } => Some(to),
                    PathEventData::End { last, first, close } => {
                        if close && !point_eq(&last, &first) {
                            Some(first)
                        } else {
                            None
                        }
                    },
                };
                match emit {
                    Some(p) => {
                        xy.push(p);
                        glyph_col.push(cur_glyph);
                        path_col.push(cur_pid);
                        if has_color {
                            color_col.push(color_str.clone());
                        }
                        proof {
                            done = done + emitted(evs[i as int], tags_seq, (if evs[i as int] is Begin {
                                k as int - 1
                            } else {
                                k as int
                            }));
                        }
                    },
                    None => {
                        proof {
                            done = done + emitted(evs[i as int], tags_seq, k as int);
                        }
                    },
                }
                i = i + 1;
            }
            proof {
                assert(evs.skip(i as int) =~= Seq::<PathEventData>::empty());
                assert(layer_rows(evs.skip(i as int), tags_seq, k as int) =~= Seq::<
                    PathPoint,
                >::empty());
                assert(done =~= rows_first_layers(pre, l as int) + layer_rows(evs, tags_seq, 0));
                assert(done =~= rows_first_layers(pre, l as int + 1));
                if has_color {
                    assert(colors_first_layers(pre, l as int + 1) =~= colors_first_layers(
                        pre,
                        l as int,
                    ) + Seq::<Seq<char>>::new(
                        layer_rows(evs, tags_seq, 0).len(),
                        |j: int| layer_color_chars(layer_color_of(pre, l as int)),
                    ));
                }
            }
            l = l + 1;
        }
        proof {
            assert(done == path_rows_of(pre));
            if has_color {
                assert(colors_first_layers(pre, l as int) == path_colors_of(pre));
            }
        }
        PathTibble {
            xy,
            glyph_id: glyph_col,
            path_id: Some(path_col),
            triangle_id: None,
            color: if has_color {
                Some(color_col)
            } else {
                None
            },
        }
    }
}

/// The polyline lyon flattens a quadratic curve to at a tolerance: sample
/// points along the curve, ending exactly at the curve's endpoint.
pub uninterp spec fn flat_quad_of(
    from: GeomPoint,
    ctrl: GeomPoint,
    to: GeomPoint,
    tolerance: GeomPoint,
) -> Seq<GeomPoint>;

/// The polyline lyon flattens a cubic curve to at a tolerance, ending
/// exactly at the curve's endpoint.
pub uninterp spec fn flat_cubic_of(
    from: GeomPoint,
    ctrl1: GeomPoint,
    ctrl2: GeomPoint,
    to: GeomPoint,
    tolerance: GeomPoint,
) -> Seq<GeomPoint>;

/// Relies on `QuadraticBezierSegment::flattened`: the curve's polyline at
/// the tolerance, in order.
#[verifier::external_body]
pub(crate) fn flatten_quad(
    from: &GeomPoint,
    ctrl: &GeomPoint,
    to: &GeomPoint,
    tolerance: &GeomPoint,
) -> (r: Vec<GeomPoint>)
    ensures
        r@ == flat_quad_of(*from, *ctrl, *to, *tolerance),
{
    let seg = lyon::geom::QuadraticBezierSegment {
        from: from.0,
        ctrl: ctrl.0,
        to: to.0,
    };
    seg.flattened(tolerance.0.x).map(|p| GeomPoint(p)).collect()
}

/// Relies on `CubicBezierSegment::flattened`: the curve's polyline at the
/// tolerance, in order.
#[verifier::external_body]
pub(crate) fn flatten_cubic(
    from: &GeomPoint,
    ctrl1: &GeomPoint,
    ctrl2: &GeomPoint,
    to: &GeomPoint,
    tolerance: &GeomPoint,
) -> (r: Vec<GeomPoint>)
    ensures
        r@ == flat_cubic_of(*from, *ctrl1, *ctrl2, *to, *tolerance),
{
    let seg = lyon::geom::CubicBezierSegment {
        from: from.0,
        ctrl1: ctrl1.0,
        ctrl2: ctrl2.0,
        to: to.0,
    };
    seg.flattened(tolerance.0.x).map(|p| GeomPoint(p)).collect()
}

/// The points one event contributes when curves are flattened on the way
/// out: a `Begin` its starting point, a line its endpoint, a curve its
/// whole polyline, a closing `End` whose outline did not return to its
/// start the starting point again.
pub open spec fn points_of_event(e: PathEventData, tolerance: GeomPoint) -> Seq<GeomPoint> {
    match e {
        PathEventData::Begin { at } => seq![at],
        PathEventData::Line { to, .. } => seq![to],
        PathEventData::Quadratic { from, ctrl, to } => flat_quad_of(from, ctrl, to, tolerance),
        PathEventData::Cubic { from, ctrl1, ctrl2, to } => flat_cubic_of(
            from,
            ctrl1,
            ctrl2,
            to,
            tolerance,
        ),
        PathEventData::End { last, first, close } => {
            if close && !points_feq(last, first) {
                seq![first]
            } else {
                Seq::<GeomPoint>::empty()
            }
        },
    }
}

/// The points one event contributes, as executable code.
pub fn event_points(e: &PathEventData, tolerance: &GeomPoint) -> (r: Vec<GeomPoint>)
    ensures
        r@ == points_of_event(*e, *tolerance),
{
    match e {
        PathEventData::Begin { at } => {
            let mut v: Vec<GeomPoint> = Vec::new();
            v.push(*at);
            proof {
                assert(v@ =~= points_of_event(*e, *tolerance));
            }
            v
        },
        PathEventData::Line { to, .. } => {
            let mut v: Vec<GeomPoint> = Vec::new();
            v.push(*to);
            proof {
                assert(v@ =~= points_of_event(*e, *tolerance));
            }
            v
        },
        PathEventData::Quadratic { from, ctrl, to } => flatten_quad(from, ctrl, to, tolerance),
        PathEventData::Cubic { from, ctrl1, ctrl2, to } => flatten_cubic(
            from,
            ctrl1,
            ctrl2,
            to,
            tolerance,
        ),
        PathEventData::End { last, first, close } => {
            let mut v: Vec<GeomPoint> = Vec::new();
            if *close && !point_eq(last, first) {
                v.push(*first);
            }
            proof {
                assert(v@ =~= points_of_event(*e, *tolerance));
            }
            v
        },
    }
}

/// The rows one event emits when curves are flattened on the way out,
/// when `k` sub-paths have begun before it: its points, each under the
/// tag that `emitted` would use.
pub open spec fn emitted_backup(
    e: PathEventData,
    tags: Seq<SubPathTag>,
    k: int,
    tolerance: GeomPoint,
) -> Seq<PathPoint> {
    points_of_event(e, tolerance).map_values(
        |p: GeomPoint| PathPoint {
            at: p,
            glyph_id: tag_at(tags, if e is Begin { k } else { k - 1 }).glyph_id,
            path_id: tag_at(tags, if e is Begin { k } else { k - 1 }).path_id,
        },
    )
}

/// The rows a layer's built events emit when curves are flattened on the
/// way out.
pub open spec fn layer_rows_backup(
    evs: Seq<PathEventData>,
    tags: Seq<SubPathTag>,
    k: int,
    tolerance: GeomPoint,
) -> Seq<PathPoint>
    decreases evs.len(),
{
    if evs.len() == 0 {
        Seq::<PathPoint>::empty()
    } else {
        emitted_backup(evs.first(), tags, k, tolerance) + layer_rows_backup(
            evs.drop_first(),
            tags,
            next_tag_index(evs.first(), k),
            tolerance,
        )
    }
}

/// The rows the first `l` layers emit when curves are flattened on the
/// way out.
pub open spec fn rows_first_layers_backup(b: LyonPathBuilder, l: int) -> Seq<PathPoint>
    decreases l,
{
    if l <= 0 {
        Seq::<PathPoint>::empty()
    } else {
        rows_first_layers_backup(b, l - 1) + layer_rows_backup(
            b.builders@[l - 1].built(),
            b.begin_tags@[l - 1]@,
            0,
            b.tolerance,
        )
    }
}

/// The color column of the first `l` layers, when curves are flattened on
/// the way out.
pub open spec fn colors_first_layers_backup(b: LyonPathBuilder, l: int) -> Seq<Seq<char>>
    decreases l,
{
    if l <= 0 {
        Seq::<Seq<char>>::empty()
    } else {
        colors_first_layers_backup(b, l - 1) + Seq::<Seq<char>>::new(
            layer_rows_backup(b.builders@[l - 1].built(), b.begin_tags@[l - 1]@, 0, b.tolerance).len(),
            |i: int| layer_color_chars(layer_color_of(b, l - 1)),
        )
    }
}

/// All rows of a point-sequence extraction that flattens curves on the
/// way out.
pub open spec fn path_rows_backup_of(b: LyonPathBuilder) -> Seq<PathPoint> {
    rows_first_layers_backup(b, b.builders@.len() as int)
}

/// The color column of a point-sequence extraction that flattens curves
/// on the way out.
pub open spec fn path_colors_backup_of(b: LyonPathBuilder) -> Seq<Seq<char>> {
    colors_first_layers_backup(b, b.builders@.len() as int)
}

impl LyonPathBuilder {
    /// Extracts the accumulated outlines as a point sequence, flattening
    /// any curve events on the way out (the accumulator built for
    /// tessellation keeps its curves): one row per polyline point, with
    /// the same columns as `into_path`.
    #[verifier::loop_isolation(false)]
    #[verifier::rlimit(60)]
    pub fn into_path_backup(self) -> (r: PathTibble)
        requires
            self.wf(),
            !self.in_sub_path,
        ensures
            r.wf(),
            r.xy@.len() == path_rows_backup_of(self).len(),
            forall|i: int| 0 <= i < r.xy@.len() ==> r.xy@[i] == path_rows_backup_of(self)[i].at,
            r.glyph_id@.len() == path_rows_backup_of(self).len(),
            forall|i: int|
                0 <= i < r.glyph_id@.len() ==> r.glyph_id@[i] == path_rows_backup_of(
                    self,
                )[i].glyph_id as i32,
            r.path_id matches Some(pv) && pv@.len() == path_rows_backup_of(self).len() && (forall|
                i: int,
            |
                0 <= i < pv@.len() ==> pv@[i] == path_rows_backup_of(self)[i].path_id as i32),
            r.triangle_id is None,
            self.layer_colors@.len() == 0 ==> r.color is None,
            self.layer_colors@.len() > 0 ==> (r.color matches Some(cv) && cv@.len()
                == path_rows_backup_of(self).len() && (forall|i: int|
                0 <= i < cv@.len() ==> cv@[i]@ == path_colors_backup_of(self)[i])),
    {
        let mut this = self;
        let ghost pre = this;
        let has_color = this.layer_colors.len() > 0;
        let tolerance = this.tolerance;
        let layers: Vec<BuiltLayer> = this.build();
        let mut xy: Vec<GeomPoint> = Vec::new();
        let mut glyph_col: Vec<i32> = Vec::new();
        let mut path_col: Vec<i32> = Vec::new();
        let mut color_col: Vec<String> = Vec::new();
        let ghost mut done: Seq<PathPoint> = Seq::<PathPoint>::empty();
        let mut l: usize = 0;
        while l < layers.len()
            invariant
                layers@.len() == pre.builders@.len(),
                forall|j: int|
                    0 <= j < layers@.len() ==> crate::sink::lyon_path_events(
                        #[trigger] layers@[j].path,
                    ) == pre.builders@[j].built(),
                forall|j: int|
                    0 <= j < layers@.len() ==> (#[trigger] layers@[j].tags)@ == pre.begin_tags@[j]@,
                forall|j: int|
                    0 <= j < layers@.len() ==> (#[trigger] layers@[j].color) == layer_color_of(
                        pre,
                        j,
                    ),
                l <= layers@.len(),
                done == rows_first_layers_backup(pre, l as int),
                xy@.len() == done.len(),
                forall|i: int| 0 <= i < done.len() ==> xy@[i] == (#[trigger] done[i]).at,
                glyph_col@.len() == done.len(),
                forall|i: int|
                    0 <= i < done.len() ==> glyph_col@[i] == (#[trigger] done[i]).glyph_id as i32,
                path_col@.len() == done.len(),
                forall|i: int|
                    0 <= i < done.len() ==> path_col@[i] == (#[trigger] done[i]).path_id as i32,
                forall|i: int|
                    0 <= i < done.len() ==> (#[trigger] done[i]).glyph_id <= MAX_ID
                        && done[i].path_id <= MAX_ID,
                has_color ==> color_col@.len() == done.len(),
                has_color ==> colors_first_layers_backup(pre, l as int).len() == done.len(),
                has_color ==> forall|i: int|
                    0 <= i < done.len() ==> (#[trigger] color_col@[i])@
                        == colors_first_layers_backup(pre, l as int)[i],
            decreases layers@.len() - l,
        {
            let events: Vec<PathEventData> = path_events_vec(&layers[l].path);
            let color_str = format_layer_color(&layers[l].color);
            let ghost tags_seq = pre.begin_tags@[l as int]@;
            let ghost evs = pre.builders@[l as int].built();
            let ghost layer_start = done.len() as int;
            proof {
                assert(evs.skip(0) =~= evs);
            }
            let mut k: usize = 0;
            let mut cur_glyph: i32 = 0;
            let mut cur_pid: i32 = 0;
            let mut i: usize = 0;
            while i < events.len()
                invariant
                    l < layers@.len(),
                    events@ == evs,
                    i <= events@.len(),
                    k <= i,
                    cur_glyph == tag_at(tags_seq, k as int - 1).glyph_id as i32,
                    cur_pid == tag_at(tags_seq, k as int - 1).path_id as i32,
                    rows_first_layers_backup(pre, l as int) + layer_rows_backup(
                        evs,
                        tags_seq,
                        0,
                        pre.tolerance,
                    ) == done + layer_rows_backup(
                        evs.skip(i as int),
                        tags_seq,
                        k as int,
                        pre.tolerance,
                    ),
                    xy@.len() == done.len(),
                    forall|j: int| 0 <= j < done.len() ==> xy@[j] == (#[trigger] done[j]).at,
                    glyph_col@.len() == done.len(),
                    forall|j: int|
                        0 <= j < done.len() ==> glyph_col@[j] == (#[trigger] done[j]).glyph_id as i32,
                    path_col@.len() == done.len(),
                    forall|j: int|
                        0 <= j < done.len() ==> path_col@[j] == (#[trigger] done[j]).path_id as i32,
                    forall|j: int|
                        0 <= j < done.len() ==> (#[trigger] done[j]).glyph_id <= MAX_ID
                            && done[j].path_id <= MAX_ID,
                    layer_start <= done.len(),
                    done.len() - layer_start + layer_rows_backup(
                        evs.skip(i as int),
                        tags_seq,
                        k as int,
                        pre.tolerance,
                    ).len() == layer_rows_backup(evs, tags_seq, 0, pre.tolerance).len(),
                    color_str@ == layer_color_chars(layer_color_of(pre, l as int)),
                    has_color ==> color_col@.len() == done.len(),
                    has_color ==> colors_first_layers_backup(pre, l as int).len() == layer_start,
                    has_color ==> forall|j: int|
                        0 <= j < layer_start ==> (#[trigger] color_col@[j])@
                            == colors_first_layers_backup(pre, l as int)[j],
                    has_color ==> forall|j: int|
                        layer_start <= j < done.len() ==> (#[trigger] color_col@[j])@
                            == layer_color_chars(layer_color_of(pre, l as int)),
                decreases events@.len() - i,
            {
                proof {
                    assert(evs.skip(i as int).len() > 0);
                    assert(evs.skip(i as int).first() == evs[i as int]);
                    assert(evs.skip(i as int).drop_first() =~= evs.skip(i as int + 1));
                }
                let ev = events[i];
                match ev {
                    PathEventData::Begin { .. } => {
                        let tag: SubPathTag = if k < layers[l].tags.len() {
                            layers[l].tags[k]
                        } else {
                            SubPathTag { glyph_id: 0, path_id: 0 }
                        };
                        k = k + 1;
                        cur_glyph = tag.glyph_id as i32;
                        cur_pid = tag.path_id as i32;
                    },
                    _ => {},
                }
                let ghost row_tag = tag_at(tags_seq, k as int - 1);
                let ghost step = emitted_backup(
                    evs[i as int],
                    tags_seq,
                    (if evs[i as int] is Begin {
                        k as int - 1
                    } else {
                        k as int
                    }),
                    pre.tolerance,
                );
                let pts = event_points(&events[i], &tolerance);
                proof {
                    assert(step == points_of_event(evs[i as int], pre.tolerance).map_values(
                        |p: GeomPoint| PathPoint {
                            at: p,
                            glyph_id: row_tag.glyph_id,
                            path_id: row_tag.path_id,
                        },
                    ));
                }
                let ghost done_at_event = done;
                let mut j: usize = 0;
                while j < pts.len()
                    invariant
                        j <= pts@.len(),
                        pts@ == points_of_event(evs[i as int], pre.tolerance),
                        step == pts@.map_values(
                            |p: GeomPoint| PathPoint {
                                at: p,
                                glyph_id: row_tag.glyph_id,
                                path_id: row_tag.path_id,
                            },
                        ),
                        cur_glyph == row_tag.glyph_id as i32,
                        cur_pid == row_tag.path_id as i32,
                        row_tag.glyph_id <= MAX_ID && row_tag.path_id <= MAX_ID,
                        done == done_at_event + step.take(j as int),
                        xy@.len() == done.len(),
                        forall|m: int| 0 <= m < done.len() ==> xy@[m] == (#[trigger] done[m]).at,
                        glyph_col@.len() == done.len(),
                        forall|m: int|
                            0 <= m < done.len() ==> glyph_col@[m] == (#[trigger] done[m]).glyph_id
                                as i32,
                        path_col@.len() == done.len(),
                        forall|m: int|
                            0 <= m < done.len() ==> path_col@[m] == (#[trigger] done[m]).path_id
                                as i32,
                        forall|m: int|
                            0 <= m < done.len() ==> (#[trigger] done[m]).glyph_id <= MAX_ID
                                && done[m].path_id <= MAX_ID,
                        has_color ==> color_col@.len() == done.len(),
                        has_color ==> forall|m: int|
                            0 <= m < layer_start ==> (#[trigger] color_col@[m])@
                                == colors_first_layers_backup(pre, l as int)[m],
                        has_color ==> forall|m: int|
                            layer_start <= m < done.len() ==> (#[trigger] color_col@[m])@
                                == layer_color_chars(layer_color_of(pre, l as int)),
                    decreases pts@.len() - j,
                {
                    xy.push(pts[j]);
                    glyph_col.push(cur_glyph);
                    path_col.push(cur_pid);
                    if has_color {
                        color_col.push(color_str.clone());
                    }
                    j = j + 1;
                    proof {
                        done = done_at_event + step.take(j as int);
                        assert(step.len() == pts@.len());
                        assert(step[j as int - 1] == (PathPoint {
                            at: pts@[j as int - 1],
                            glyph_id: row_tag.glyph_id,
                            path_id: row_tag.path_id,
                        }));
                        assert(step.take(j as int) =~= step.take(j as int - 1).push(
                            step[j as int - 1],
                        ));
                        assert(done =~= (done_at_event + step.take(j as int - 1)).push(
                            step[j as int - 1],
                        ));
                    }
                }
                proof {
                    assert(step.take(pts@.len() as int) =~= step);
                    assert(done =~= done_at_event + step);
                }
                i = i + 1;
            }
            proof {
                assert(evs.skip(i as int) =~= Seq::<PathEventData>::empty());
                assert(done =~= rows_first_layers_backup(pre, l as int) + layer_rows_backup(
                    evs,
                    tags_seq,
                    0,
                    pre.tolerance,
                ));
                assert(done =~= rows_first_layers_backup(pre, l as int + 1));
                if has_color {
                    assert(colors_first_layers_backup(pre, l as int + 1)
                        =~= colors_first_layers_backup(pre, l as int) + Seq::<Seq<char>>::new(
                        layer_rows_backup(evs, tags_seq, 0, pre.tolerance).len(),
                        |j: int| layer_color_chars(layer_color_of(pre, l as int)),
                    ));
                }
            }
            l = l + 1;
        }
        PathTibble {
            xy,
            glyph_id: glyph_col,
            path_id: Some(path_col),
            triangle_id: None,
            color: if has_color {
                Some(color_col)
            } else {
                None
            },
        }
    }
}

} // verus!
