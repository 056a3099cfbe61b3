//! Opaque geometry values and the pen transform.
//!
//! The geometry pipeline computes with machine scalars that only the
//! outside font and tessellation code ever reads. The library routes these
//! values without doing arithmetic on them, so it carries each point and
//! each transform as an opaque value.

use vstd::prelude::*;

verus! {

/// A point of the geometry pipeline, carried opaquely: the library never
/// reads its components. A single scalar (a tolerance, a line width, a
/// scale factor) is carried as a point whose two components hold the same
/// value.
#[verifier::external_body]
pub struct GeomPoint(pub lyon::math::Point);

impl Clone for GeomPoint {
    /// Relies on lyon's points being plain values: the clone carries the
    /// same point.
    #[verifier::external_body]
    fn clone(&self) -> (r: Self)
        ensures
            r == *self,
    {
        GeomPoint(self.0)
    }
}

impl Copy for GeomPoint {

}

/// An affine transform of the geometry pipeline, carried opaquely.
#[verifier::external_body]
pub struct GeomTransform {
    pub inner: lyon::math::Transform,
}

impl Clone for GeomTransform {
    /// Relies on lyon's transforms being plain values: the clone carries
    /// the same transform.
    #[verifier::external_body]
    fn clone(&self) -> (r: Self)
        ensures
            r == *self,
    {
        GeomTransform { inner: self.inner }
    }
}

impl Copy for GeomTransform {

}

/// Whether the geometry pipeline reads two points as equal.
pub uninterp spec fn points_feq(a: GeomPoint, b: GeomPoint) -> bool;

/// Relies on the equality of lyon's points (componentwise machine-scalar
/// equality).
#[verifier::external_body]
pub(crate) fn point_eq(a: &GeomPoint, b: &GeomPoint) -> (r: bool)
    ensures
        r == points_feq(*a, *b),
{
    a.0 == b.0
}

/// Whether a transform is the identity, as the geometry pipeline
/// represents it.
pub uninterp spec fn is_identity_transform(t: GeomTransform) -> bool;

/// Relies on euclid's `Transform2D::identity`.
#[verifier::external_body]
pub(crate) fn geom_identity() -> (r: GeomTransform)
    ensures
        is_identity_transform(r),
{
    GeomTransform { inner: lyon::geom::euclid::Transform2D::identity() }
}

/// The reciprocal of a face height, as a uniform scale factor (both
/// components hold the same scalar).
pub uninterp spec fn recip_scale_of(height: i16) -> GeomPoint;

/// Relies on `num_traits::Float::recip`: the scale factor `1 / height`,
/// in both components of the returned point.
#[verifier::external_body]
pub(crate) fn recip_scale(height: i16) -> (r: GeomPoint)
    ensures
        r == recip_scale_of(height),
{
    let h = num_traits::cast(height).unwrap();
    let s = num_traits::Float::recip(h);
    GeomPoint(lyon::math::point(s, s))
}

/// The effective transform of the pen: the paint layer's base transform,
/// followed by a translation by the pen offset (in font design units) and
/// a uniform scaling by the scale factor. Every point handed to a path
/// builder is mapped through the pen transform that was current when the
/// point arrived.
pub struct PenTransform {
    /// The active color-layer transform; identity outside paint transforms.
    pub base: GeomTransform,
    /// Horizontal pen offset, in font design units.
    pub dx: i64,
    /// Vertical pen offset, in font design units.
    pub dy: i64,
    /// The uniform scale factor applied last.
    pub scale: GeomPoint,
}

impl Clone for PenTransform {
    fn clone(&self) -> (r: Self)
        ensures
            r == *self,
    {
        PenTransform { base: self.base, dx: self.dx, dy: self.dy, scale: self.scale }
    }
}

impl Copy for PenTransform {

}

/// Where a point lands under a pen transform, as the geometry pipeline
/// computes it.
pub uninterp spec fn transformed_point(t: PenTransform, p: GeomPoint) -> GeomPoint;

} // verus!
