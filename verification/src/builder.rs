//! The path accumulator: one path sink per paint layer, the pen transform,
//! and the glyph / sub-path bookkeeping.

use vstd::prelude::*;

use crate::color::Rgba;
use crate::geom::GeomPoint;
use crate::geom::GeomTransform;
use crate::geom::PenTransform;
use crate::geom::geom_identity;
use crate::geom::is_identity_transform;
use crate::geom::recip_scale;
use crate::geom::recip_scale_of;
use crate::sink::PathEventData;
use crate::sink::Sink;
use crate::sink::SinkEvent;
use crate::sink::built_begins;
use crate::sink::lyon_path_events;
use crate::sink::sink_begins;
use crate::sink::sink_open;
use crate::geom::transformed_point;

verus! {

/// The largest counter value that still fits the result columns.
pub const MAX_ID: u32 = 0x7fff_ffff;

/// The identifiers a sub-path carries: the glyph (counted over the input
/// characters) that produced it, and its own one-based sub-path id.
#[derive(Clone, Copy, PartialEq, Eq, Structural, Debug)]
pub struct SubPathTag {
    pub glyph_id: u32,
    pub path_id: u32,
}

/// The sinks of a layer list, after an update that only recomposed the
/// current layer's transform: every other sink is untouched, and the
/// current one keeps its events.
pub open spec fn sinks_retransformed(
    pre: Seq<Sink>,
    post: Seq<Sink>,
    cur: int,
    t: PenTransform,
) -> bool {
    &&& post.len() == pre.len()
    &&& forall|l: int| 0 <= l < pre.len() && l != cur ==> post[l] == pre[l]
    &&& post[cur].events() == pre[cur].events()
    &&& post[cur].transform() == t
    &&& post[cur].is_flat() == pre[cur].is_flat()
}

/// The sinks of a layer list, after events were pushed into the current
/// layer's sink: every other sink is untouched, and the current one keeps
/// its transform.
pub open spec fn sinks_pushed(pre: Seq<Sink>, post: Seq<Sink>, cur: int, evs: Seq<SinkEvent>) -> bool {
    &&& post.len() == pre.len()
    &&& forall|l: int| 0 <= l < pre.len() && l != cur ==> post[l] == pre[l]
    &&& post[cur].events() == pre[cur].events() + evs
    &&& post[cur].transform() == pre[cur].transform()
    &&& post[cur].is_flat() == pre[cur].is_flat()
}

/// How many sub-path tags the first `l` layers hold together.
pub open spec fn tags_count(tags: Seq<Vec<SubPathTag>>, l: int) -> int
    decreases l,
{
    if l <= 0 {
        0
    } else {
        tags_count(tags, l - 1) + tags[l - 1]@.len()
    }
}

/// Two tag lists whose first `l` layers have the same lengths count the
/// same.
pub proof fn lemma_tags_count_agree(a: Seq<Vec<SubPathTag>>, b: Seq<Vec<SubPathTag>>, l: int)
    requires
        forall|j: int| 0 <= j < l ==> (#[trigger] a[j])@.len() == b[j]@.len(),
    ensures
        tags_count(a, l) == tags_count(b, l),
    decreases l,
{
    if l > 0 {
        lemma_tags_count_agree(a, b, l - 1);
    }
}

/// Counting more layers never counts less.
pub proof fn lemma_tags_count_mono(tags: Seq<Vec<SubPathTag>>, l: int, n: int)
    requires
        0 <= l <= n,
    ensures
        tags_count(tags, l) <= tags_count(tags, n),
    decreases n,
{
    if l < n {
        lemma_tags_count_mono(tags, l, n - 1);
    }
}

/// The path accumulator. It owns one path sink per paint layer (layer zero
/// is the only one for a non-color glyph run), routes outline events into
/// the current layer under the current pen transform, and tracks glyph
/// ids, sub-path ids and layer colors.
pub struct LyonPathBuilder {
    /// One sink per paint layer, in layer order.
    pub builders: Vec<Sink>,
    /// The paint color of each layer that recorded one: layer `i` has a
    /// color exactly when `i < layer_colors.len()`.
    pub layer_colors: Vec<Rgba>,
    /// The layer currently receiving events; always the last one.
    pub cur_layer: usize,
    /// Counts the characters processed so far (control characters left
    /// aside), so it tracks character positions in the input.
    pub cur_glyph_id: u32,
    /// Counts the sub-paths finished so far; a `close` commits one.
    pub cur_path_id: u32,
    /// The glyph id of each sub-path: the sub-path with one-based id `p`
    /// was begun by the glyph at `glyph_id_map[p - 1]`.
    pub glyph_id_map: Vec<u32>,
    /// Per layer, the identifiers of each sub-path begun in it, in order.
    pub begin_tags: Vec<Vec<SubPathTag>>,
    /// The active color-layer transform.
    pub base_transform: GeomTransform,
    /// The uniform scale factor, normally the reciprocal of the face
    /// height.
    pub scale_factor: GeomPoint,
    /// Horizontal pen offset, in font design units.
    pub offset_x: i64,
    /// Vertical pen offset, in font design units.
    pub offset_y: i64,
    /// The flattening tolerance, as a uniform scalar.
    pub tolerance: GeomPoint,
    /// The stroke line width, as a uniform scalar.
    pub line_width: GeomPoint,
    /// Whether the sinks flatten curves (point-sequence extraction) or
    /// keep them (tessellation).
    pub flat: bool,
    /// Whether a sub-path is in progress in the current layer.
    pub in_sub_path: bool,
    /// The previous glyph on the current line, for kerning.
    pub prev_glyph: Option<u16>,
}

impl LyonPathBuilder {
    /// The pen transform composed from the current state: base transform,
    /// then translation by the offsets, then scaling.
    pub open spec fn pen(self) -> PenTransform {
        PenTransform {
            base: self.base_transform,
            dx: self.offset_x,
            dy: self.offset_y,
            scale: self.scale_factor,
        }
    }

    /// Everything that identifies glyphs, sub-paths and layers, unchanged.
    pub open spec fn same_ids(a: Self, b: Self) -> bool {
        &&& a.cur_glyph_id == b.cur_glyph_id
        &&& a.cur_path_id == b.cur_path_id
        &&& a.glyph_id_map@ == b.glyph_id_map@
        &&& a.begin_tags@ == b.begin_tags@
        &&& a.layer_colors@ == b.layer_colors@
        &&& a.cur_layer == b.cur_layer
        &&& a.in_sub_path == b.in_sub_path
        &&& a.prev_glyph == b.prev_glyph
    }

    /// The construction-time configuration, unchanged.
    pub open spec fn same_config(a: Self, b: Self) -> bool {
        &&& a.tolerance == b.tolerance
        &&& a.line_width == b.line_width
        &&& a.flat == b.flat
    }

    /// The pen state, unchanged.
    pub open spec fn same_pen(a: Self, b: Self) -> bool {
        &&& a.base_transform == b.base_transform
        &&& a.scale_factor == b.scale_factor
        &&& a.offset_x == b.offset_x
        &&& a.offset_y == b.offset_y
    }

    /// Well-formedness: the current layer is the last one and its sink
    /// carries the composed pen transform; no other layer has a sub-path
    /// in progress; the per-layer tag lists track the begins of their
    /// sinks; each layer that recorded a color is a finished one.
    pub open spec fn wf(self) -> bool {
        &&& self.builders@.len() == self.cur_layer + 1
        &&& self.begin_tags@.len() == self.builders@.len()
        &&& self.layer_colors@.len() == self.cur_layer
        &&& self.builders@[self.cur_layer as int].transform() == self.pen()
        &&& self.in_sub_path == sink_open(self.builders@[self.cur_layer as int].events())
        &&& forall|l: int|
            0 <= l < self.builders@.len() && l != self.cur_layer ==> !sink_open(
                #[trigger] self.builders@[l].events(),
            )
        &&& forall|l: int|
            0 <= l < self.builders@.len() ==> (#[trigger] self.begin_tags@[l])@.len()
                == sink_begins(self.builders@[l].events()).len()
        &&& forall|l: int|
            0 <= l < self.builders@.len() ==> (#[trigger] self.builders@[l]).is_flat()
                == self.flat
        &&& self.cur_glyph_id <= MAX_ID
        &&& self.cur_path_id <= MAX_ID
        &&& forall|l: int, j: int|
            0 <= l < self.begin_tags@.len() && 0 <= j < self.begin_tags@[l]@.len() ==> (
            #[trigger] self.begin_tags@[l]@[j]).glyph_id <= MAX_ID
                && self.begin_tags@[l]@[j].path_id <= MAX_ID
        &&& tags_count(self.begin_tags@, self.begin_tags@.len() as int) == self.glyph_id_map@.len()
        &&& forall|j: int| 0 <= j < self.glyph_id_map@.len() ==> (#[trigger] self.glyph_id_map@[j]) <= MAX_ID
    }

    /// A fresh accumulator with one empty layer: identity base transform,
    /// scale factor one, offsets zero, no glyphs, no sub-paths, no layer
    /// colors.
    pub fn new_inner(flat: bool, tolerance: GeomPoint, line_width: GeomPoint) -> (r: Self)
        ensures
            r.wf(),
            r.builders@.len() == 1,
            r.builders@[0].events() == Seq::<SinkEvent>::empty(),
            r.layer_colors@ == Seq::<Rgba>::empty(),
            r.cur_layer == 0,
            r.cur_glyph_id == 0,
            r.cur_path_id == 0,
            r.glyph_id_map@ == Seq::<u32>::empty(),
            r.begin_tags@.len() == 1,
            r.begin_tags@[0]@ == Seq::<SubPathTag>::empty(),
            is_identity_transform(r.base_transform),
            r.scale_factor == recip_scale_of(1),
            r.offset_x == 0,
            r.offset_y == 0,
            r.tolerance == tolerance,
            r.line_width == line_width,
            r.flat == flat,
            !r.in_sub_path,
            r.prev_glyph is None,
    {
        let base = geom_identity();
        let scale = recip_scale(1);
        let pen = PenTransform { base, dx: 0, dy: 0, scale };
        let sink = Sink::new_sink(flat, &tolerance, &pen);
        let mut builders: Vec<Sink> = Vec::new();
        builders.push(sink);
        let mut begin_tags: Vec<Vec<SubPathTag>> = Vec::new();
        begin_tags.push(Vec::new());
        proof {
            assert(tags_count(begin_tags@, 1) == tags_count(begin_tags@, 0)
                + begin_tags@[0]@.len());
        }
        LyonPathBuilder {
            builders,
            layer_colors: Vec::new(),
            cur_layer: 0,
            cur_glyph_id: 0,
            cur_path_id: 0,
            glyph_id_map: Vec::new(),
            begin_tags,
            base_transform: base,
            scale_factor: scale,
            offset_x: 0,
            offset_y: 0,
            tolerance,
            line_width,
            flat,
            in_sub_path: false,
            prev_glyph: None,
        }
    }

    /// A fresh accumulator whose sinks flatten curves, for point-sequence
    /// extraction.
    pub fn new_for_path(tolerance: GeomPoint, line_width: GeomPoint) -> (r: Self)
        ensures
            r.wf(),
            r.flat,
            r.builders@.len() == 1,
            r.builders@[0].events() == Seq::<SinkEvent>::empty(),
            r.layer_colors@ == Seq::<Rgba>::empty(),
            r.cur_glyph_id == 0,
            r.cur_path_id == 0,
            r.glyph_id_map@ == Seq::<u32>::empty(),
            r.offset_x == 0,
            r.offset_y == 0,
            r.tolerance == tolerance,
            r.line_width == line_width,
            !r.in_sub_path,
            r.prev_glyph is None,
    {
        Self::new_inner(true, tolerance, line_width)
    }

    /// A fresh accumulator whose sinks keep curves, for tessellation.
    pub fn new_for_stroke_and_fill(tolerance: GeomPoint, line_width: GeomPoint) -> (r: Self)
        ensures
            r.wf(),
            !r.flat,
            r.builders@.len() == 1,
            r.builders@[0].events() == Seq::<SinkEvent>::empty(),
            r.layer_colors@ == Seq::<Rgba>::empty(),
            r.cur_glyph_id == 0,
            r.cur_path_id == 0,
            r.glyph_id_map@ == Seq::<u32>::empty(),
            r.offset_x == 0,
            r.offset_y == 0,
            r.tolerance == tolerance,
            r.line_width == line_width,
            !r.in_sub_path,
            r.prev_glyph is None,
    {
        Self::new_inner(false, tolerance, line_width)
    }

    /// The sink of the current layer.
    pub fn cur_builder(&mut self) -> (r: &mut Sink)
        requires
            old(self).cur_layer < old(self).builders@.len(),
        ensures
            *r == old(self).builders@[old(self).cur_layer as int],
            final(self).builders@ == old(self).builders@.update(
                old(self).cur_layer as int,
                *final(r),
            ),
            Self::same_ids(*old(self), *final(self)),
            Self::same_config(*old(self), *final(self)),
            Self::same_pen(*old(self), *final(self)),
    {
        let i = self.cur_layer;
        &mut self.builders[i]
    }

    /// Recomposes the pen transform from the current state and applies it
    /// to the current layer's sink. Other layers already carry their
    /// events under their own, earlier, transforms.
    pub fn update_transform(&mut self)
        requires
            old(self).cur_layer < old(self).builders@.len(),
        ensures
            sinks_retransformed(
                old(self).builders@,
                final(self).builders@,
                old(self).cur_layer as int,
                old(self).pen(),
            ),
            Self::same_ids(*old(self), *final(self)),
            Self::same_config(*old(self), *final(self)),
            Self::same_pen(*old(self), *final(self)),
    {
        let pen = PenTransform {
            base: self.base_transform,
            dx: self.offset_x,
            dy: self.offset_y,
            scale: self.scale_factor,
        };
        let i = self.cur_layer;
        self.builders[i].set_transform(&pen);
    }

    /// Sets the scale factor and reapplies the composed transform.
    pub fn set_scale_factor(&mut self, scale_factor: GeomPoint)
        requires
            old(self).wf(),
        ensures
            final(self).wf(),
            final(self).scale_factor == scale_factor,
            final(self).offset_x == old(self).offset_x,
            final(self).offset_y == old(self).offset_y,
            final(self).base_transform == old(self).base_transform,
            sinks_retransformed(
                old(self).builders@,
                final(self).builders@,
                old(self).cur_layer as int,
                final(self).pen(),
            ),
            Self::same_ids(*old(self), *final(self)),
            Self::same_config(*old(self), *final(self)),
    {
        self.scale_factor = scale_factor;
        self.update_transform();
    }

    /// Moves the pen right by `x` font units and reapplies the composed
    /// transform.
    pub fn add_offset_x(&mut self, x: i64)
        requires
            old(self).wf(),
            i64::MIN <= old(self).offset_x + x <= i64::MAX,
        ensures
            final(self).wf(),
            final(self).offset_x == old(self).offset_x + x,
            final(self).offset_y == old(self).offset_y,
            final(self).scale_factor == old(self).scale_factor,
            final(self).base_transform == old(self).base_transform,
            sinks_retransformed(
                old(self).builders@,
                final(self).builders@,
                old(self).cur_layer as int,
                final(self).pen(),
            ),
            Self::same_ids(*old(self), *final(self)),
            Self::same_config(*old(self), *final(self)),
    {
        self.offset_x = self.offset_x + x;
        self.update_transform();
    }

    /// Moves the pen up by `y` font units and reapplies the composed
    /// transform.
    pub fn add_offset_y(&mut self, y: i64)
        requires
            old(self).wf(),
            i64::MIN <= old(self).offset_y + y <= i64::MAX,
        ensures
            final(self).wf(),
            final(self).offset_y == old(self).offset_y + y,
            final(self).offset_x == old(self).offset_x,
            final(self).scale_factor == old(self).scale_factor,
            final(self).base_transform == old(self).base_transform,
            sinks_retransformed(
                old(self).builders@,
                final(self).builders@,
                old(self).cur_layer as int,
                final(self).pen(),
            ),
            Self::same_ids(*old(self), *final(self)),
            Self::same_config(*old(self), *final(self)),
    {
        self.offset_y = self.offset_y + y;
        self.update_transform();
    }

    /// Moves the pen left by `x` font units and reapplies the composed
    /// transform.
    pub fn sub_offset_x(&mut self, x: i64)
        requires
            old(self).wf(),
            i64::MIN <= old(self).offset_x - x <= i64::MAX,
        ensures
            final(self).wf(),
            final(self).offset_x == old(self).offset_x - x,
            final(self).offset_y == old(self).offset_y,
            final(self).scale_factor == old(self).scale_factor,
            final(self).base_transform == old(self).base_transform,
            sinks_retransformed(
                old(self).builders@,
                final(self).builders@,
                old(self).cur_layer as int,
                final(self).pen(),
            ),
            Self::same_ids(*old(self), *final(self)),
            Self::same_config(*old(self), *final(self)),
    {
        self.offset_x = self.offset_x - x;
        self.update_transform();
    }

    /// Moves the pen down by `y` font units and reapplies the composed
    /// transform.
    pub fn sub_offset_y(&mut self, y: i64)
        requires
            old(self).wf(),
            i64::MIN <= old(self).offset_y - y <= i64::MAX,
        ensures
            final(self).wf(),
            final(self).offset_y == old(self).offset_y - y,
            final(self).offset_x == old(self).offset_x,
            final(self).scale_factor == old(self).scale_factor,
            final(self).base_transform == old(self).base_transform,
            sinks_retransformed(
                old(self).builders@,
                final(self).builders@,
                old(self).cur_layer as int,
                final(self).pen(),
            ),
            Self::same_ids(*old(self), *final(self)),
            Self::same_config(*old(self), *final(self)),
    {
        self.offset_y = self.offset_y - y;
        self.update_transform();
    }

    /// Returns the pen to the start of the line and reapplies the composed
    /// transform.
    pub fn reset_offset_x(&mut self)
        requires
            old(self).wf(),
        ensures
            final(self).wf(),
            final(self).offset_x == 0,
            final(self).offset_y == old(self).offset_y,
            final(self).scale_factor == old(self).scale_factor,
            final(self).base_transform == old(self).base_transform,
            sinks_retransformed(
                old(self).builders@,
                final(self).builders@,
                old(self).cur_layer as int,
                final(self).pen(),
            ),
            Self::same_ids(*old(self), *final(self)),
            Self::same_config(*old(self), *final(self)),
    {
        self.offset_x = 0;
        self.update_transform();
    }

    /// Returns the pen to the baseline and reapplies the composed
    /// transform.
    pub fn reset_offset_y(&mut self)
        requires
            old(self).wf(),
        ensures
            final(self).wf(),
            final(self).offset_y == 0,
            final(self).offset_x == old(self).offset_x,
            final(self).scale_factor == old(self).scale_factor,
            final(self).base_transform == old(self).base_transform,
            sinks_retransformed(
                old(self).builders@,
                final(self).builders@,
                old(self).cur_layer as int,
                final(self).pen(),
            ),
            Self::same_ids(*old(self), *final(self)),
            Self::same_config(*old(self), *final(self)),
    {
        self.offset_y = 0;
        self.update_transform();
    }

    /// Replaces the base (color-layer) transform and reapplies the
    /// composed transform.
    pub fn set_transform(&mut self, transform: GeomTransform)
        requires
            old(self).wf(),
        ensures
            final(self).wf(),
            final(self).base_transform == transform,
            final(self).offset_x == old(self).offset_x,
            final(self).offset_y == old(self).offset_y,
            final(self).scale_factor == old(self).scale_factor,
            sinks_retransformed(
                old(self).builders@,
                final(self).builders@,
                old(self).cur_layer as int,
                final(self).pen(),
            ),
            Self::same_ids(*old(self), *final(self)),
            Self::same_config(*old(self), *final(self)),
    {
        self.base_transform = transform;
        self.update_transform();
    }

    /// Records `color` as the current layer's paint color and starts the
    /// next layer with a fresh sink under the composed transform. A paint
    /// arrives between sub-paths, never inside one.
    pub fn push_layer(&mut self, color: Rgba)
        requires
            old(self).wf(),
            !old(self).in_sub_path,
            old(self).cur_layer < usize::MAX,
        ensures
            final(self).wf(),
            final(self).cur_layer == old(self).cur_layer + 1,
            final(self).layer_colors@ == old(self).layer_colors@.push(color),
            final(self).builders@.len() == old(self).builders@.len() + 1,
            forall|l: int|
                0 <= l < old(self).builders@.len() ==> final(self).builders@[l] == old(self).builders@[l],
            final(self).builders@.last().events() == Seq::<SinkEvent>::empty(),
            final(self).begin_tags@.len() == old(self).begin_tags@.len() + 1,
            forall|l: int|
                0 <= l < old(self).begin_tags@.len() ==> final(self).begin_tags@[l] == old(self).begin_tags@[l],
            final(self).begin_tags@.last()@ == Seq::<SubPathTag>::empty(),
            final(self).cur_glyph_id == old(self).cur_glyph_id,
            final(self).cur_path_id == old(self).cur_path_id,
            final(self).glyph_id_map@ == old(self).glyph_id_map@,
            !final(self).in_sub_path,
            final(self).prev_glyph == old(self).prev_glyph,
            Self::same_config(*old(self), *final(self)),
            Self::same_pen(*old(self), *final(self)),
    {
        self.layer_colors.push(color);
        self.cur_layer = self.cur_layer + 1;
        if self.builders.len() <= self.cur_layer {
            let pen = PenTransform {
                base: self.base_transform,
                dx: self.offset_x,
                dy: self.offset_y,
                scale: self.scale_factor,
            };
            let sink = Sink::new_sink(self.flat, &self.tolerance, &pen);
            self.builders.push(sink);
            self.begin_tags.push(Vec::new());
        }
        self.update_transform();
        proof {
            let n = old(self).begin_tags@.len() as int;
            lemma_tags_count_agree(self.begin_tags@, old(self).begin_tags@, n);
        }
    }

    /// Starts a sub-path at `at`, recording which glyph begins it and the
    /// sub-path id it will carry. A sub-path still in progress is first
    /// abandoned unclosed and counted.
    pub fn move_to(&mut self, at: GeomPoint)
        requires
            old(self).wf(),
            old(self).cur_path_id < MAX_ID - 1,
        ensures
            final(self).wf(),
            final(self).in_sub_path,
            final(self).cur_path_id == (if old(self).in_sub_path {
                old(self).cur_path_id + 1
            } else {
                old(self).cur_path_id as int
            }),
            final(self).glyph_id_map@ == old(self).glyph_id_map@.push(old(self).cur_glyph_id),
            final(self).begin_tags@.len() == old(self).begin_tags@.len(),
            forall|l: int|
                0 <= l < old(self).begin_tags@.len() && l != old(self).cur_layer ==> final(self).begin_tags@[l] == old(self).begin_tags@[l],
            final(self).begin_tags@[old(self).cur_layer as int]@ == old(self).begin_tags@[old(self).cur_layer as int]@.push(
                SubPathTag {
                    glyph_id: old(self).cur_glyph_id,
                    path_id: (final(self).cur_path_id + 1) as u32,
                },
            ),
            sinks_pushed(
                old(self).builders@,
                final(self).builders@,
                old(self).cur_layer as int,
                if old(self).in_sub_path {
                    seq![
                        SinkEvent::End { close: false },
                        SinkEvent::Begin { at, t: old(self).pen() },
                    ]
                } else {
                    seq![SinkEvent::Begin { at, t: old(self).pen() }]
                },
            ),
            final(self).cur_glyph_id == old(self).cur_glyph_id,
            final(self).cur_layer == old(self).cur_layer,
            final(self).layer_colors@ == old(self).layer_colors@,
            final(self).prev_glyph == old(self).prev_glyph,
            Self::same_config(*old(self), *final(self)),
            Self::same_pen(*old(self), *final(self)),
    {
        if self.in_sub_path {
            let i = self.cur_layer;
            self.builders[i].end(false);
            self.cur_path_id = self.cur_path_id + 1;
            self.in_sub_path = false;
        }
        let tag = SubPathTag { glyph_id: self.cur_glyph_id, path_id: self.cur_path_id + 1 };
        self.glyph_id_map.push(self.cur_glyph_id);
        let i = self.cur_layer;
        self.begin_tags[i].push(tag);
        self.builders[i].begin(&at);
        self.in_sub_path = true;
        proof {
            let evs0 = old(self).builders@[old(self).cur_layer as int].events();
            if old(self).in_sub_path {
                crate::sink::lemma_push_event(evs0, SinkEvent::End { close: false });
                crate::sink::lemma_push_event(
                    evs0.push(SinkEvent::End { close: false }),
                    SinkEvent::Begin { at, t: old(self).pen() },
                );
            } else {
                crate::sink::lemma_push_event(evs0, SinkEvent::Begin { at, t: old(self).pen() });
            }
            assert(self.builders@[old(self).cur_layer as int].events() =~= old(self).builders@[old(self).cur_layer as int].events() + (if old(self).in_sub_path {
                seq![
                    SinkEvent::End { close: false },
                    SinkEvent::Begin { at, t: old(self).pen() },
                ]
            } else {
                seq![SinkEvent::Begin { at, t: old(self).pen() }]
            }));
            let n = old(self).begin_tags@.len() as int;
            lemma_tags_count_agree(self.begin_tags@, old(self).begin_tags@, n - 1);
        }
    }

    /// Adds a line segment to the sub-path in progress; dropped when no
    /// sub-path is in progress.
    pub fn line_to(&mut self, to: GeomPoint)
        requires
            old(self).wf(),
        ensures
            final(self).wf(),
            sinks_pushed(
                old(self).builders@,
                final(self).builders@,
                old(self).cur_layer as int,
                if old(self).in_sub_path {
                    seq![SinkEvent::LineTo { to, t: old(self).pen() }]
                } else {
                    Seq::<SinkEvent>::empty()
                },
            ),
            Self::same_ids(*old(self), *final(self)),
            Self::same_config(*old(self), *final(self)),
            Self::same_pen(*old(self), *final(self)),
    {
        if self.in_sub_path {
            let i = self.cur_layer;
            self.builders[i].line_to(&to);
            proof {
                crate::sink::lemma_push_event(
                    old(self).builders@[old(self).cur_layer as int].events(),
                    SinkEvent::LineTo { to, t: old(self).pen() },
                );
                assert(self.builders@[old(self).cur_layer as int].events() =~= old(self).builders@[old(self).cur_layer as int].events() + seq![
                    SinkEvent::LineTo { to, t: old(self).pen() },
                ]);
            }
        } else {
            proof {
                assert(self.builders@[old(self).cur_layer as int].events() =~= old(self).builders@[old(self).cur_layer as int].events() + Seq::<SinkEvent>::empty());
            }
        }
    }

    /// Adds a quadratic curve to the sub-path in progress; dropped when no
    /// sub-path is in progress.
    pub fn quad_to(&mut self, ctrl: GeomPoint, to: GeomPoint)
        requires
            old(self).wf(),
        ensures
            final(self).wf(),
            sinks_pushed(
                old(self).builders@,
                final(self).builders@,
                old(self).cur_layer as int,
                if old(self).in_sub_path {
                    seq![SinkEvent::QuadTo { ctrl, to, t: old(self).pen() }]
                } else {
                    Seq::<SinkEvent>::empty()
                },
            ),
            Self::same_ids(*old(self), *final(self)),
            Self::same_config(*old(self), *final(self)),
            Self::same_pen(*old(self), *final(self)),
    {
        if self.in_sub_path {
            let i = self.cur_layer;
            self.builders[i].quad_to(&ctrl, &to);
            proof {
                crate::sink::lemma_push_event(
                    old(self).builders@[old(self).cur_layer as int].events(),
                    SinkEvent::QuadTo { ctrl, to, t: old(self).pen() },
                );
                assert(self.builders@[old(self).cur_layer as int].events() =~= old(self).builders@[old(self).cur_layer as int].events() + seq![
                    SinkEvent::QuadTo { ctrl, to, t: old(self).pen() },
                ]);
            }
        } else {
            proof {
                assert(self.builders@[old(self).cur_layer as int].events() =~= old(self).builders@[old(self).cur_layer as int].events() + Seq::<SinkEvent>::empty());
            }
        }
    }

    /// Adds a cubic curve to the sub-path in progress; dropped when no
    /// sub-path is in progress.
    pub fn curve_to(&mut self, ctrl1: GeomPoint, ctrl2: GeomPoint, to: GeomPoint)
        requires
            old(self).wf(),
        ensures
            final(self).wf(),
            sinks_pushed(
                old(self).builders@,
                final(self).builders@,
                old(self).cur_layer as int,
                if old(self).in_sub_path {
                    seq![SinkEvent::CubicTo { ctrl1, ctrl2, to, t: old(self).pen() }]
                } else {
                    Seq::<SinkEvent>::empty()
                },
            ),
            Self::same_ids(*old(self), *final(self)),
            Self::same_config(*old(self), *final(self)),
            Self::same_pen(*old(self), *final(self)),
    {
        if self.in_sub_path {
            let i = self.cur_layer;
            self.builders[i].cubic_to(&ctrl1, &ctrl2, &to);
            proof {
                crate::sink::lemma_push_event(
                    old(self).builders@[old(self).cur_layer as int].events(),
                    SinkEvent::CubicTo { ctrl1, ctrl2, to, t: old(self).pen() },
                );
                assert(self.builders@[old(self).cur_layer as int].events() =~= old(self).builders@[old(self).cur_layer as int].events() + seq![
                    SinkEvent::CubicTo { ctrl1, ctrl2, to, t: old(self).pen() },
                ]);
            }
        } else {
            proof {
                assert(self.builders@[old(self).cur_layer as int].events() =~= old(self).builders@[old(self).cur_layer as int].events() + Seq::<SinkEvent>::empty());
            }
        }
    }

    /// Finishes the current sub-path as closed. The sub-path counter
    /// always advances by exactly one, whatever geometry the sub-path
    /// held.
    pub fn close(&mut self)
        requires
            old(self).wf(),
            old(self).cur_path_id < MAX_ID,
        ensures
            final(self).wf(),
            final(self).cur_path_id == old(self).cur_path_id + 1,
            !final(self).in_sub_path,
            sinks_pushed(
                old(self).builders@,
                final(self).builders@,
                old(self).cur_layer as int,
                if old(self).in_sub_path {
                    seq![SinkEvent::End { close: true }]
                } else {
                    Seq::<SinkEvent>::empty()
                },
            ),
            final(self).cur_glyph_id == old(self).cur_glyph_id,
            final(self).glyph_id_map@ == old(self).glyph_id_map@,
            final(self).begin_tags@ == old(self).begin_tags@,
            final(self).layer_colors@ == old(self).layer_colors@,
            final(self).cur_layer == old(self).cur_layer,
            final(self).prev_glyph == old(self).prev_glyph,
            Self::same_config(*old(self), *final(self)),
            Self::same_pen(*old(self), *final(self)),
    {
        if self.in_sub_path {
            let i = self.cur_layer;
            self.builders[i].end(true);
            self.in_sub_path = false;
            proof {
                crate::sink::lemma_push_event(
                    old(self).builders@[old(self).cur_layer as int].events(),
                    SinkEvent::End { close: true },
                );
                assert(self.builders@[old(self).cur_layer as int].events() =~= old(self).builders@[old(self).cur_layer as int].events() + seq![
                    SinkEvent::End { close: true },
                ]);
            }
        } else {
            proof {
                assert(self.builders@[old(self).cur_layer as int].events() =~= old(self).builders@[old(self).cur_layer as int].events() + Seq::<SinkEvent>::empty());
            }
        }
        self.cur_path_id = self.cur_path_id + 1;
    }
    /// Builds every layer, draining the sinks: each layer yields its
    /// finished path, its recorded paint color (none for a layer that
    /// never recorded one), and the identifiers of its sub-paths.
    pub fn build(&mut self) -> (r: Vec<BuiltLayer>)
        requires
            old(self).wf(),
            !old(self).in_sub_path,
        ensures
            r@.len() == old(self).builders@.len(),
            forall|i: int|
                0 <= i < r@.len() ==> lyon_path_events(#[trigger] r@[i].path) == old(
                    self,
                ).builders@[i].built(),
            forall|i: int|
                0 <= i < r@.len() ==> built_begins(lyon_path_events(#[trigger] r@[i].path)).len()
                    == sink_begins(old(self).builders@[i].events()).len(),
            forall|i: int, k: int|
                0 <= i < r@.len() && 0 <= k < sink_begins(old(self).builders@[i].events()).len()
                    ==> (#[trigger] built_begins(lyon_path_events(r@[i].path))[k])
                    == (PathEventData::Begin {
                    at: transformed_point(
                        sink_begins(old(self).builders@[i].events())[k]->Begin_t,
                        sink_begins(old(self).builders@[i].events())[k]->Begin_at,
                    ),
                }),
            forall|i: int|
                0 <= i < r@.len() ==> (#[trigger] r@[i].color) == (if i < old(
                    self,
                ).layer_colors@.len() {
                    Some(old(self).layer_colors@[i])
                } else {
                    None::<Rgba>
                }),
            forall|i: int| 0 <= i < r@.len() ==> (#[trigger] r@[i].tags)@ == old(self).begin_tags@[i]@,
            final(self).builders@.len() == 0,
            final(self).glyph_id_map@ == old(self).glyph_id_map@,
            final(self).layer_colors@ == old(self).layer_colors@,
            final(self).cur_layer == old(self).cur_layer,
            Self::same_config(*old(self), *final(self)),
    {
        let ghost pre = *self;
        let mut out: Vec<BuiltLayer> = Vec::new();
        while self.builders.len() > 0
            invariant
                pre.wf(),
                !pre.in_sub_path,
                out@.len() + self.builders@.len() == pre.builders@.len(),
                out@.len() + self.begin_tags@.len() == pre.begin_tags@.len(),
                self.builders@ == pre.builders@.skip(out@.len() as int),
                self.begin_tags@ == pre.begin_tags@.skip(out@.len() as int),
                self.layer_colors@ == pre.layer_colors@,
                self.glyph_id_map@ == pre.glyph_id_map@,
                self.cur_layer == pre.cur_layer,
                Self::same_config(pre, *self),
                forall|i: int|
                    0 <= i < out@.len() ==> lyon_path_events(#[trigger] out@[i].path)
                        == pre.builders@[i].built(),
                forall|i: int|
                    0 <= i < out@.len() ==> built_begins(
                        lyon_path_events(#[trigger] out@[i].path),
                    ).len() == sink_begins(pre.builders@[i].events()).len(),
                forall|i: int, j: int|
                    0 <= i < out@.len() && 0 <= j < sink_begins(pre.builders@[i].events()).len()
                        ==> (#[trigger] built_begins(lyon_path_events(out@[i].path))[j])
                        == (PathEventData::Begin {
                        at: transformed_point(
                            sink_begins(pre.builders@[i].events())[j]->Begin_t,
                            sink_begins(pre.builders@[i].events())[j]->Begin_at,
                        ),
                    }),
                forall|i: int|
                    0 <= i < out@.len() ==> (#[trigger] out@[i].color) == (if i
                        < pre.layer_colors@.len() {
                        Some(pre.layer_colors@[i])
                    } else {
                        None::<Rgba>
                    }),
                forall|i: int|
                    0 <= i < out@.len() ==> (#[trigger] out@[i].tags)@ == pre.begin_tags@[i]@,
            decreases self.builders@.len(),
        {
            let k = out.len();
            let sink = self.builders.remove(0);
            let tags = self.begin_tags.remove(0);
            let color: Option<Rgba> = if k < self.layer_colors.len() {
                Some(self.layer_colors[k])
            } else {
                None
            };
            proof {
                assert(sink == pre.builders@[k as int]);
                assert(!sink_open(sink.events())) by {
                    if k as int == pre.cur_layer {
                        assert(pre.in_sub_path == sink_open(
                            pre.builders@[pre.cur_layer as int].events(),
                        ));
                    }
                }
            }
            let path = sink.build_path();
            out.push(BuiltLayer { path, color, tags });
            proof {
                assert(self.builders@ =~= pre.builders@.skip(out@.len() as int));
                assert(self.begin_tags@ =~= pre.begin_tags@.skip(out@.len() as int));
            }
        }
        out
    }
}

/// One built paint layer: the finished path, the layer's recorded color,
/// and the identifiers of the sub-paths begun in it, in order.
pub struct BuiltLayer {
    /// The finished path of this layer.
    pub path: lyon::path::Path,
    /// The layer's recorded paint color, if it recorded one.
    pub color: Option<Rgba>,
    /// The identifiers of the sub-paths begun in this layer, in order.
    pub tags: Vec<SubPathTag>,
}

} // verus!
