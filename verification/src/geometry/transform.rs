//! Coordinate transforms and the coordinates that they give.

use crate::tile::GeomType;
use vstd::prelude::*;

verus! {

/// The output of a coordinate transform: a coordinate of two or more
/// components.
pub trait TransformOutput: Sized {
    /// The components of the coordinate, in order.
    spec fn components(&self) -> Seq<i64>;

    /// A transformed coordinate has at least two components.
    proof fn lemma_dimensions(&self)
        ensures
            self.components().len() >= 2,
    ;

    /// Appends the components to a flat buffer.
    fn push_to_vec(&self, vec: &mut Vec<i64>)
        ensures
            final(vec)@ == old(vec)@ + self.components(),
    ;

    /// The number of components.
    fn dimensions(&self) -> (n: usize)
        ensures
            n == self.components().len(),
    ;
}

impl TransformOutput for (i64, i64) {
    open spec fn components(&self) -> Seq<i64> {
        seq![self.0, self.1]
    }

    proof fn lemma_dimensions(&self) {
    }

    fn push_to_vec(&self, vec: &mut Vec<i64>) {
        vec.push(self.0);
        vec.push(self.1);
        assert(vec@ =~= old(vec)@ + self.components());
    }

    fn dimensions(&self) -> (n: usize) {
        2
    }
}

impl TransformOutput for (i64, i64, i64) {
    open spec fn components(&self) -> Seq<i64> {
        seq![self.0, self.1, self.2]
    }

    proof fn lemma_dimensions(&self) {
    }

    fn push_to_vec(&self, vec: &mut Vec<i64>) {
        vec.push(self.0);
        vec.push(self.1);
        vec.push(self.2);
        assert(vec@ =~= old(vec)@ + self.components());
    }

    fn dimensions(&self) -> (n: usize) {
        3
    }
}

/// A coordinate transform: a function from a raw coordinate and the kind of
/// geometry it belongs to, to a transformed coordinate.
pub trait CoordinateTransform {
    /// The type of transformed coordinates.
    type Output: TransformOutput;

    /// The transformed coordinate of `(x, y)`.
    spec fn transformed(&self, x: i32, y: i32, geom_type: GeomType) -> Self::Output;

    /// Transforms one coordinate.
    fn transform(&self, x: i32, y: i32, geom_type: &GeomType) -> (output: Self::Output)
        ensures
            output == self.transformed(x, y, *geom_type),
    ;
}

/// Identity transform (no transformation).
#[derive(Debug, Copy, Clone)]
pub struct IdentityTransform;

impl CoordinateTransform for IdentityTransform {
    type Output = (i64, i64);

    open spec fn transformed(&self, x: i32, y: i32, geom_type: GeomType) -> (i64, i64) {
        (x as i64, y as i64)
    }

    #[inline]
    fn transform(&self, x: i32, y: i32, _geom_type: &GeomType) -> (output: (i64, i64)) {
        (x as i64, y as i64)
    }
}

/// 3D identity transform: the third component is zero.
#[derive(Debug, Copy, Clone)]
pub struct IdentityTransform3D;

impl CoordinateTransform for IdentityTransform3D {
    type Output = (i64, i64, i64);

    open spec fn transformed(&self, x: i32, y: i32, geom_type: GeomType) -> (i64, i64, i64) {
        (x as i64, y as i64, 0i64)
    }

    #[inline]
    fn transform(&self, x: i32, y: i32, _geom_type: &GeomType) -> (output: (i64, i64, i64)) {
        (x as i64, y as i64, 0)
    }
}

} // verus!
