//! Path sinks: the two lyon path builders that accumulate glyph outlines,
//! and the model of what they hold.
//!
//! A sink receives outline events (begin / line / quadratic / cubic /
//! close), maps each point through the pen transform that is current when
//! the event arrives, and stores the result. The flattened sink also
//! replaces each curve with a polyline at its tolerance. Building a sink
//! yields a finished path whose stored events can be handed back out.

use vstd::prelude::*;

use crate::geom::GeomPoint;
use crate::geom::GeomPoint as G;
use crate::geom::PenTransform;
use crate::geom::transformed_point;
use lyon::path::Event;
use crate::sink::PathEventData as B;

verus! {

/// One event pushed into a sink, together with the pen transform that was
/// current when it arrived.
pub enum SinkEvent {
    Begin { at: GeomPoint, t: PenTransform },
    LineTo { to: GeomPoint, t: PenTransform },
    QuadTo { ctrl: GeomPoint, to: GeomPoint, t: PenTransform },
    CubicTo { ctrl1: GeomPoint, ctrl2: GeomPoint, to: GeomPoint, t: PenTransform },
    End { close: bool },
}

/// One event of a finished path, as the geometry pipeline stores it.
pub enum PathEventData {
    Begin { at: GeomPoint },
    Line { from: GeomPoint, to: GeomPoint },
    Quadratic { from: GeomPoint, ctrl: GeomPoint, to: GeomPoint },
    Cubic { from: GeomPoint, ctrl1: GeomPoint, ctrl2: GeomPoint, to: GeomPoint },
    End { last: GeomPoint, first: GeomPoint, close: bool },
}

impl Clone for PathEventData {
    fn clone(&self) -> (r: Self)
        ensures
            r == *self,
    {
        match self {
            PathEventData::Begin { at } => PathEventData::Begin { at: *at },
            PathEventData::Line { from, to } => PathEventData::Line { from: *from, to: *to },
            PathEventData::Quadratic { from, ctrl, to } => (PathEventData::Quadratic {
                from: *from,
                ctrl: *ctrl,
                to: *to,
            }),
            PathEventData::Cubic { from, ctrl1, ctrl2, to } => (PathEventData::Cubic {
                from: *from,
                ctrl1: *ctrl1,
                ctrl2: *ctrl2,
                to: *to,
            }),
            PathEventData::End { last, first, close } => (PathEventData::End {
                last: *last,
                first: *first,
                close: *close,
            }),
        }
    }
}

impl Copy for PathEventData {

}

/// Whether a sub-path is in progress after this event sequence: a `Begin`
/// opens one, an `End` closes it.
pub open spec fn sink_open(evs: Seq<SinkEvent>) -> bool
    decreases evs.len(),
{
    if evs.len() == 0 {
        false
    } else {
        match evs.last() {
            SinkEvent::Begin { .. } => true,
            SinkEvent::End { .. } => false,
            _ => sink_open(evs.drop_last()),
        }
    }
}

/// The `Begin` events of a pushed sequence, in order.
pub open spec fn sink_begins(evs: Seq<SinkEvent>) -> Seq<SinkEvent> {
    evs.filter(|e: SinkEvent| e is Begin)
}

/// The `Begin` events of a stored path, in order.
pub open spec fn built_begins(evs: Seq<PathEventData>) -> Seq<PathEventData> {
    evs.filter(|e: PathEventData| e is Begin)
}



/// A stored event of a raw (non-flattening) sink is the pushed event with
/// each of its own points mapped through the pen transform that was
/// current when it was pushed. The `from`, `last` and `first` points of a
/// stored event repeat earlier endpoints and are not constrained here.
pub open spec fn raw_event_corresponds(se: SinkEvent, pe: PathEventData) -> bool {
    match se {
        SinkEvent::Begin { at, t } => match pe {
            PathEventData::Begin { at: stored } => stored == transformed_point(t, at),
            _ => false,
        },
        SinkEvent::LineTo { to, t } => match pe {
            PathEventData::Line { to: stored, .. } => stored == transformed_point(t, to),
            _ => false,
        },
        SinkEvent::QuadTo { ctrl, to, t } => match pe {
            PathEventData::Quadratic { ctrl: c, to: stored, .. } => c == transformed_point(t, ctrl)
                && stored == transformed_point(t, to),
            _ => false,
        },
        SinkEvent::CubicTo { ctrl1, ctrl2, to, t } => match pe {
            PathEventData::Cubic { ctrl1: c1, ctrl2: c2, to: stored, .. } => c1
                == transformed_point(t, ctrl1) && c2 == transformed_point(t, ctrl2) && stored
                == transformed_point(t, to),
            _ => false,
        },
        SinkEvent::End { close } => match pe {
            PathEventData::End { close: stored, .. } => stored == close,
            _ => false,
        },
    }
}

/// How one pushed event changes the `Begin` subsequence and whether a
/// sub-path is in progress.
pub proof fn lemma_push_event(evs: Seq<SinkEvent>, e: SinkEvent)
    ensures
        sink_begins(evs.push(e)) == (if e is Begin {
            sink_begins(evs).push(e)
        } else {
            sink_begins(evs)
        }),
        sink_open(evs.push(e)) == (match e {
            SinkEvent::Begin { .. } => true,
            SinkEvent::End { .. } => false,
            _ => sink_open(evs),
        }),
{
    reveal(Seq::filter);
    assert(evs.push(e).last() == e);
    assert(evs.push(e).drop_last() =~= evs);
}

/// A path sink that replaces curves with polylines as events arrive:
/// points are mapped through the current transform first, then flattened
/// at the sink's tolerance.
#[verifier::external_body]
pub struct FlatSink {
    inner: lyon::path::builder::NoAttributes<
        lyon::path::builder::Transformed<
            lyon::path::builder::Flattened<lyon::path::path::BuilderImpl>,
            lyon::math::Transform,
        >,
    >,
}

/// A path sink that stores curves as pushed, with points mapped through
/// the current transform.
#[verifier::external_body]
pub struct RawSink {
    inner: lyon::path::builder::NoAttributes<
        lyon::path::builder::Transformed<lyon::path::path::BuilderImpl, lyon::math::Transform>,
    >,
}

/// The events pushed into a flattened sink so far.
pub uninterp spec fn flat_events(s: FlatSink) -> Seq<SinkEvent>;

/// The pen transform a flattened sink currently applies.
pub uninterp spec fn flat_transform(s: FlatSink) -> PenTransform;

/// The tolerance a flattened sink was created with.
pub uninterp spec fn flat_tolerance(s: FlatSink) -> GeomPoint;

/// The events pushed into a raw sink so far.
pub uninterp spec fn raw_events(s: RawSink) -> Seq<SinkEvent>;

/// The pen transform a raw sink currently applies.
pub uninterp spec fn raw_transform(s: RawSink) -> PenTransform;

/// The events of the path a flattened sink builds: each pushed point
/// mapped through its pen transform, and each curve replaced by a
/// polyline at the tolerance.
pub uninterp spec fn flat_built_of(evs: Seq<SinkEvent>, tolerance: GeomPoint) -> Seq<PathEventData>;

/// The events of the path a raw sink builds: each pushed event with its
/// points mapped through its pen transform.
pub uninterp spec fn raw_built_of(evs: Seq<SinkEvent>) -> Seq<PathEventData>;

/// The events stored in a finished lyon path.
pub uninterp spec fn lyon_path_events(p: lyon::path::Path) -> Seq<PathEventData>;

/// A finished path object.
#[verifier::external_type_specification]
#[verifier::external_body]
pub struct ExLyonPath(lyon::path::Path);

/// Relies on lyon's path builder constructors: an empty flattened sink
/// with the given tolerance, applying the given pen transform (base, then
/// translation, then scaling).
#[verifier::external_body]
pub(crate) fn flat_new(tolerance: &GeomPoint, t: &PenTransform) -> (r: FlatSink)
    ensures
        flat_events(r) == Seq::<SinkEvent>::empty(),
        flat_transform(r) == *t,
        flat_tolerance(r) == *tolerance,
{
    let v = lyon::geom::euclid::Vector2D::new(t.dx, t.dy).cast();
    let m = t.base.inner.then_translate(v).then_scale(t.scale.0.x, t.scale.0.y);
    FlatSink {
        inner: lyon::path::Path::builder().flattened(tolerance.0.x).transformed(m),
    }
}

/// Relies on lyon's path builder constructors: an empty raw sink applying
/// the given pen transform (base, then translation, then scaling).
#[verifier::external_body]
pub(crate) fn raw_new(t: &PenTransform) -> (r: RawSink)
    ensures
        raw_events(r) == Seq::<SinkEvent>::empty(),
        raw_transform(r) == *t,
{
    let v = lyon::geom::euclid::Vector2D::new(t.dx, t.dy).cast();
    let m = t.base.inner.then_translate(v).then_scale(t.scale.0.x, t.scale.0.y);
    RawSink { inner: lyon::path::Path::builder().transformed(m) }
}

/// Relies on `Transformed::set_transform`: replaces the transform applied
/// to later events; stored events keep the transform they were pushed
/// under.
#[verifier::external_body]
pub(crate) fn flat_set_transform(s: &mut FlatSink, t: &PenTransform)
    ensures
        flat_events(*final(s)) == flat_events(*old(s)),
        flat_transform(*final(s)) == *t,
        flat_tolerance(*final(s)) == flat_tolerance(*old(s)),
{
    let v = lyon::geom::euclid::Vector2D::new(t.dx, t.dy).cast();
    let m = t.base.inner.then_translate(v).then_scale(t.scale.0.x, t.scale.0.y);
    lyon::path::builder::Transformed::set_transform(s.inner.inner_mut(), m);
}

/// Relies on `Transformed::set_transform`, as for the flattened sink.
#[verifier::external_body]
pub(crate) fn raw_set_transform(s: &mut RawSink, t: &PenTransform)
    ensures
        raw_events(*final(s)) == raw_events(*old(s)),
        raw_transform(*final(s)) == *t,
{
    let v = lyon::geom::euclid::Vector2D::new(t.dx, t.dy).cast();
    let m = t.base.inner.then_translate(v).then_scale(t.scale.0.x, t.scale.0.y);
    lyon::path::builder::Transformed::set_transform(s.inner.inner_mut(), m);
}

/// Relies on the path builder's `begin`: starts a sub-path.
#[verifier::external_body]
pub(crate) fn flat_begin(s: &mut FlatSink, at: &GeomPoint)
    requires
        !sink_open(flat_events(*old(s))),
    ensures
        flat_events(*final(s)) == flat_events(*old(s)).push(
            SinkEvent::Begin { at: *at, t: flat_transform(*old(s)) },
        ),
        flat_transform(*final(s)) == flat_transform(*old(s)),
        flat_tolerance(*final(s)) == flat_tolerance(*old(s)),
{
    s.inner.begin(at.0);
}

/// Relies on the path builder's `line_to`.
#[verifier::external_body]
pub(crate) fn flat_line_to(s: &mut FlatSink, to: &GeomPoint)
    requires
        sink_open(flat_events(*old(s))),
    ensures
        flat_events(*final(s)) == flat_events(*old(s)).push(
            SinkEvent::LineTo { to: *to, t: flat_transform(*old(s)) },
        ),
        flat_transform(*final(s)) == flat_transform(*old(s)),
        flat_tolerance(*final(s)) == flat_tolerance(*old(s)),
{
    s.inner.line_to(to.0);
}

/// Relies on the path builder's `quadratic_bezier_to`.
#[verifier::external_body]
pub(crate) fn flat_quad_to(s: &mut FlatSink, ctrl: &GeomPoint, to: &GeomPoint)
    requires
        sink_open(flat_events(*old(s))),
    ensures
        flat_events(*final(s)) == flat_events(*old(s)).push(
            SinkEvent::QuadTo { ctrl: *ctrl, to: *to, t: flat_transform(*old(s)) },
        ),
        flat_transform(*final(s)) == flat_transform(*old(s)),
        flat_tolerance(*final(s)) == flat_tolerance(*old(s)),
{
    s.inner.quadratic_bezier_to(ctrl.0, to.0);
}

/// Relies on the path builder's `cubic_bezier_to`.
#[verifier::external_body]
pub(crate) fn flat_cubic_to(s: &mut FlatSink, ctrl1: &GeomPoint, ctrl2: &GeomPoint, to: &GeomPoint)
    requires
        sink_open(flat_events(*old(s))),
    ensures
        flat_events(*final(s)) == flat_events(*old(s)).push(
            SinkEvent::CubicTo { ctrl1: *ctrl1, ctrl2: *ctrl2, to: *to, t: flat_transform(*old(s)) },
        ),
        flat_transform(*final(s)) == flat_transform(*old(s)),
        flat_tolerance(*final(s)) == flat_tolerance(*old(s)),
{
    s.inner.cubic_bezier_to(ctrl1.0, ctrl2.0, to.0);
}

/// Relies on the path builder's `end`: finishes the sub-path in progress,
/// closing it when `close` holds.
#[verifier::external_body]
pub(crate) fn flat_end(s: &mut FlatSink, close: bool)
    requires
        sink_open(flat_events(*old(s))),
    ensures
        flat_events(*final(s)) == flat_events(*old(s)).push(SinkEvent::End { close }),
        flat_transform(*final(s)) == flat_transform(*old(s)),
        flat_tolerance(*final(s)) == flat_tolerance(*old(s)),
{
    s.inner.end(close);
}

/// Relies on the path builder's `begin`, as for the flattened sink.
#[verifier::external_body]
pub(crate) fn raw_begin(s: &mut RawSink, at: &GeomPoint)
    requires
        !sink_open(raw_events(*old(s))),
    ensures
        raw_events(*final(s)) == raw_events(*old(s)).push(
            SinkEvent::Begin { at: *at, t: raw_transform(*old(s)) },
        ),
        raw_transform(*final(s)) == raw_transform(*old(s)),
{
    s.inner.begin(at.0);
}

/// Relies on the path builder's `line_to`, as for the flattened sink.
#[verifier::external_body]
pub(crate) fn raw_line_to(s: &mut RawSink, to: &GeomPoint)
    requires
        sink_open(raw_events(*old(s))),
    ensures
        raw_events(*final(s)) == raw_events(*old(s)).push(
            SinkEvent::LineTo { to: *to, t: raw_transform(*old(s)) },
        ),
        raw_transform(*final(s)) == raw_transform(*old(s)),
{
    s.inner.line_to(to.0);
}

/// Relies on the path builder's `quadratic_bezier_to`, as for the
/// flattened sink.
#[verifier::external_body]
pub(crate) fn raw_quad_to(s: &mut RawSink, ctrl: &GeomPoint, to: &GeomPoint)
    requires
        sink_open(raw_events(*old(s))),
    ensures
        raw_events(*final(s)) == raw_events(*old(s)).push(
            SinkEvent::QuadTo { ctrl: *ctrl, to: *to, t: raw_transform(*old(s)) },
        ),
        raw_transform(*final(s)) == raw_transform(*old(s)),
{
    s.inner.quadratic_bezier_to(ctrl.0, to.0);
}

/// Relies on the path builder's `cubic_bezier_to`, as for the flattened
/// sink.
#[verifier::external_body]
pub(crate) fn raw_cubic_to(s: &mut RawSink, ctrl1: &GeomPoint, ctrl2: &GeomPoint, to: &GeomPoint)
    requires
        sink_open(raw_events(*old(s))),
    ensures
        raw_events(*final(s)) == raw_events(*old(s)).push(
            SinkEvent::CubicTo { ctrl1: *ctrl1, ctrl2: *ctrl2, to: *to, t: raw_transform(*old(s)) },
        ),
        raw_transform(*final(s)) == raw_transform(*old(s)),
{
    s.inner.cubic_bezier_to(ctrl1.0, ctrl2.0, to.0);
}

/// Relies on the path builder's `end`, as for the flattened sink.
#[verifier::external_body]
pub(crate) fn raw_end(s: &mut RawSink, close: bool)
    requires
        sink_open(raw_events(*old(s))),
    ensures
        raw_events(*final(s)) == raw_events(*old(s)).push(SinkEvent::End { close }),
        raw_transform(*final(s)) == raw_transform(*old(s)),
{
    s.inner.end(close);
}

/// Relies on the path builder's `build`: the finished path stores the
/// flattened form of what was pushed. Sub-paths survive flattening one
/// for one, in order, and keep their (transformed) starting points.
#[verifier::external_body]
pub(crate) fn flat_build(s: FlatSink) -> (p: lyon::path::Path)
    requires
        !sink_open(flat_events(s)),
    ensures
        lyon_path_events(p) == flat_built_of(flat_events(s), flat_tolerance(s)),
        built_begins(lyon_path_events(p)).len() == sink_begins(flat_events(s)).len(),
        forall|k: int|
            0 <= k < sink_begins(flat_events(s)).len() ==> (#[trigger] built_begins(
                lyon_path_events(p),
            )[k]) == (PathEventData::Begin {
                at: transformed_point(
                    sink_begins(flat_events(s))[k]->Begin_t,
                    sink_begins(flat_events(s))[k]->Begin_at,
                ),
            }),
{
    s.inner.build()
}

/// Relies on the path builder's `build`: the finished path stores what was
/// pushed, event for event, with each point transformed.
#[verifier::external_body]
pub(crate) fn raw_build(s: RawSink) -> (p: lyon::path::Path)
    requires
        !sink_open(raw_events(s)),
    ensures
        lyon_path_events(p) == raw_built_of(raw_events(s)),
        lyon_path_events(p).len() == raw_events(s).len(),
        forall|i: int|
            0 <= i < raw_events(s).len() ==> raw_event_corresponds(
                raw_events(s)[i],
                #[trigger] lyon_path_events(p)[i],
            ),
{
    s.inner.build()
}

/// Relies on lyon's path iterator: hands the stored events out in order,
/// one library event per stored event, fields moved one for one.
#[verifier::external_body]
pub(crate) fn path_events_vec(p: &lyon::path::Path) -> (r: Vec<PathEventData>)
    ensures
        r@ == lyon_path_events(*p),
{
    p.iter().map(|e| match e {
        Event::Begin { at } => B::Begin { at: G(at) },
        Event::Line { from, to } => B::Line { from: G(from), to: G(to) },
        Event::Quadratic { from, ctrl, to } => B::Quadratic { from: G(from), ctrl: G(ctrl), to: G(to) },
        Event::Cubic { from, ctrl1, ctrl2, to } => B::Cubic { from: G(from), ctrl1: G(ctrl1), ctrl2: G(ctrl2), to: G(to) },
        Event::End { last, first, close } => B::End { last: G(last), first: G(first), close },
    }).collect()
}

/// One of the two path sinks, chosen when the accumulator is created:
/// flattened for point-sequence extraction, raw for tessellation.
pub enum Sink {
    Flat(FlatSink),
    Raw(RawSink),
}

impl Sink {
    /// The events pushed into this sink so far.
    pub open spec fn events(self) -> Seq<SinkEvent> {
        match self {
            Sink::Flat(s) => flat_events(s),
            Sink::Raw(s) => raw_events(s),
        }
    }

    /// The pen transform this sink currently applies.
    pub open spec fn transform(self) -> PenTransform {
        match self {
            Sink::Flat(s) => flat_transform(s),
            Sink::Raw(s) => raw_transform(s),
        }
    }

    /// Whether this sink flattens curves.
    pub open spec fn is_flat(self) -> bool {
        self is Flat
    }

    /// The events of the path this sink would build.
    pub open spec fn built(self) -> Seq<PathEventData> {
        match self {
            Sink::Flat(s) => flat_built_of(flat_events(s), flat_tolerance(s)),
            Sink::Raw(s) => raw_built_of(raw_events(s)),
        }
    }

    /// An empty sink of the given kind: flattened at `tolerance` when
    /// `flat` holds, raw otherwise, applying the pen transform `t`.
    pub fn new_sink(flat: bool, tolerance: &GeomPoint, t: &PenTransform) -> (r: Sink)
        ensures
            r.events() == Seq::<SinkEvent>::empty(),
            r.transform() == *t,
            r.is_flat() == flat,
    {
        if flat {
            Sink::Flat(flat_new(tolerance, t))
        } else {
            Sink::Raw(raw_new(t))
        }
    }

    /// Replaces the pen transform applied to later events.
    pub fn set_transform(&mut self, t: &PenTransform)
        ensures
            final(self).events() == old(self).events(),
            final(self).transform() == *t,
            final(self).is_flat() == old(self).is_flat(),
    {
        match self {
            Sink::Flat(s) => flat_set_transform(s, t),
            Sink::Raw(s) => raw_set_transform(s, t),
        }
    }

    /// Starts a sub-path at `at`.
    pub fn begin(&mut self, at: &GeomPoint)
        requires
            !sink_open(old(self).events()),
        ensures
            final(self).events() == old(self).events().push(
                SinkEvent::Begin { at: *at, t: old(self).transform() },
            ),
            final(self).transform() == old(self).transform(),
            final(self).is_flat() == old(self).is_flat(),
    {
        match self {
            Sink::Flat(s) => flat_begin(s, at),
            Sink::Raw(s) => raw_begin(s, at),
        }
    }

    /// Adds a line segment to the sub-path in progress.
    pub fn line_to(&mut self, to: &GeomPoint)
        requires
            sink_open(old(self).events()),
        ensures
            final(self).events() == old(self).events().push(
                SinkEvent::LineTo { to: *to, t: old(self).transform() },
            ),
            final(self).transform() == old(self).transform(),
            final(self).is_flat() == old(self).is_flat(),
    {
        match self {
            Sink::Flat(s) => flat_line_to(s, to),
            Sink::Raw(s) => raw_line_to(s, to),
        }
    }

    /// Adds a quadratic curve to the sub-path in progress.
    pub fn quad_to(&mut self, ctrl: &GeomPoint, to: &GeomPoint)
        requires
            sink_open(old(self).events()),
        ensures
            final(self).events() == old(self).events().push(
                SinkEvent::QuadTo { ctrl: *ctrl, to: *to, t: old(self).transform() },
            ),
            final(self).transform() == old(self).transform(),
            final(self).is_flat() == old(self).is_flat(),
    {
        match self {
            Sink::Flat(s) => flat_quad_to(s, ctrl, to),
            Sink::Raw(s) => raw_quad_to(s, ctrl, to),
        }
    }

    /// Adds a cubic curve to the sub-path in progress.
    pub fn cubic_to(&mut self, ctrl1: &GeomPoint, ctrl2: &GeomPoint, to: &GeomPoint)
        requires
            sink_open(old(self).events()),
        ensures
            final(self).events() == old(self).events().push(
                SinkEvent::CubicTo {
                    ctrl1: *ctrl1,
                    ctrl2: *ctrl2,
                    to: *to,
                    t: old(self).transform(),
                },
            ),
            final(self).transform() == old(self).transform(),
            final(self).is_flat() == old(self).is_flat(),
    {
        match self {
            Sink::Flat(s) => flat_cubic_to(s, ctrl1, ctrl2, to),
            Sink::Raw(s) => raw_cubic_to(s, ctrl1, ctrl2, to),
        }
    }

    /// Finishes the sub-path in progress, closing it when `close` holds.
    pub fn end(&mut self, close: bool)
        requires
            sink_open(old(self).events()),
        ensures
            final(self).events() == old(self).events().push(SinkEvent::End { close }),
            final(self).transform() == old(self).transform(),
            final(self).is_flat() == old(self).is_flat(),
    {
        match self {
            Sink::Flat(s) => flat_end(s, close),
            Sink::Raw(s) => raw_end(s, close),
        }
    }

    /// Builds the finished path, consuming the sink.
    pub fn build_path(self) -> (p: lyon::path::Path)
        requires
            !sink_open(self.events()),
        ensures
            lyon_path_events(p) == self.built(),
            built_begins(lyon_path_events(p)).len() == sink_begins(self.events()).len(),
            forall|k: int|
                0 <= k < sink_begins(self.events()).len() ==> (#[trigger] built_begins(
                    lyon_path_events(p),
                )[k]) == (PathEventData::Begin {
                    at: transformed_point(
                        sink_begins(self.events())[k]->Begin_t,
                        sink_begins(self.events())[k]->Begin_at,
                    ),
                }),
    {
        match self {
            Sink::Flat(s) => flat_build(s),
            Sink::Raw(s) => {
                let p = raw_build(s);
                proof {
                    lemma_raw_begins_correspond(raw_events(s), lyon_path_events(p));
                }
                p
            },
        }
    }
}

/// Pointwise correspondence of a pushed sequence and a stored sequence
/// carries over to their `Begin` subsequences.
proof fn lemma_raw_begins_correspond(evs: Seq<SinkEvent>, built: Seq<PathEventData>)
    requires
        built.len() == evs.len(),
        forall|i: int| 0 <= i < evs.len() ==> raw_event_corresponds(evs[i], #[trigger] built[i]),
    ensures
        built_begins(built).len() == sink_begins(evs).len(),
        forall|k: int|
            0 <= k < sink_begins(evs).len() ==> (#[trigger] built_begins(built)[k])
                == (PathEventData::Begin {
                at: transformed_point(sink_begins(evs)[k]->Begin_t, sink_begins(evs)[k]->Begin_at),
            }),
    decreases evs.len(),
{
    reveal(Seq::filter);
    if evs.len() > 0 {
        let evs0 = evs.drop_last();
        let built0 = built.drop_last();
        lemma_raw_begins_correspond(evs0, built0);
        assert(raw_event_corresponds(evs.last(), built.last()));
        if evs.last() is Begin {
            assert(built.last() is Begin);
            assert(sink_begins(evs) == sink_begins(evs0).push(evs.last()));
            assert(built_begins(built) == built_begins(built0).push(built.last()));
            assert(built.last() == (PathEventData::Begin {
                at: transformed_point(evs.last()->Begin_t, evs.last()->Begin_at),
            }));
        } else {
            assert(!(built.last() is Begin));
            assert(sink_begins(evs) == sink_begins(evs0));
            assert(built_begins(built) == built_begins(built0));
        }
    } else {
        assert(evs =~= Seq::<SinkEvent>::empty());
        assert(built =~= Seq::<PathEventData>::empty());
        assert(sink_begins(evs) =~= Seq::<SinkEvent>::empty());
        assert(built_begins(built) =~= Seq::<PathEventData>::empty());
    }
}

} // verus!
