//! Iteration over the features of a vector tile layer.
//!
//! This module provides the `FeatureIterator` struct, which walks the
//! features of a layer with custom coordinate storage and transformation.

use crate::feature::{header_failure, Feature};
use crate::geometry::{CoordinateStorage, CoordinateTransform};
use core::marker::PhantomData;
use vstd::prelude::*;

verus! {

/// An iterator over features in a vector tile layer.
///
/// Each feature that is yielded has a geometry that applies the coordinate
/// transformation as it is decoded. A feature whose geometry type or tags are
/// malformed is skipped.
pub struct FeatureIterator<'a, S, T> where S: CoordinateStorage, T: CoordinateTransform {
    layer: &'a crate::tile::Layer,
    idx: usize,
    transform: T,
    _phantom: PhantomData<S>,
}

/// Whether none of the features of `layer` from `from` up to `to` can be
/// decoded.
pub open spec fn all_skipped(layer: &crate::tile::Layer, from: int, to: int) -> bool {
    forall|k: int| from <= k < to ==> header_failure(layer, &#[trigger] layer.features@[k]) is Some
}

impl<'a, S, T> FeatureIterator<'a, S, T> where S: CoordinateStorage, T: CoordinateTransform {
    /// The layer whose features are walked.
    pub closed spec fn layer(&self) -> &'a crate::tile::Layer {
        self.layer
    }

    /// The index of the feature that is looked at next.
    pub closed spec fn index(&self) -> usize {
        self.idx
    }

    /// The coordinate transformation.
    pub closed spec fn transform(&self) -> T {
        self.transform
    }

    /// Creates a new feature iterator for the given layer.
    pub fn new(layer: &'a crate::tile::Layer, transform: T) -> (iterator: Self)
        ensures
            iterator.layer() == layer,
            iterator.index() == 0,
            iterator.transform() == transform,
    {
        Self { layer, idx: 0, transform, _phantom: PhantomData }
    }
}

impl<'a, S, T> FeatureIterator<'a, S, T> where
    S: CoordinateStorage,
    T: CoordinateTransform<Output = S::TransformedCoord> + Clone,
 {
    /// Advances the iterator and returns the next feature that can be
    /// decoded.
    ///
    /// Features that fail to parse are silently skipped. Returns `None` when
    /// no feature that can be decoded is left.
    pub fn next(&mut self) -> (item: Option<Feature<'a, S, T>>)
        ensures
            final(self).layer() == old(self).layer(),
            final(self).transform() == old(self).transform(),
            match item {
                Some(feature) => {
                    let found = final(self).index() - 1;
                    &&& old(self).index() <= found < old(self).layer().features@.len()
                    &&& all_skipped(old(self).layer(), old(self).index() as int, found)
                    &&& header_failure(old(self).layer(), &old(self).layer().features@[found])
                        is None
                    &&& feature.reads(old(self).layer(), &old(self).layer().features@[found])
                    &&& cloned(old(self).transform(), feature.geometry.transform())
                },
                None => {
                    &&& final(self).index() >= old(self).index()
                    &&& final(self).index() >= old(self).layer().features@.len()
                    &&& all_skipped(
                        old(self).layer(),
                        old(self).index() as int,
                        old(self).layer().features@.len() as int,
                    )
                },
            },
    {
        let layer = self.layer;
        while self.idx < layer.features.len()
            invariant
                layer == old(self).layer(),
                self.layer() == old(self).layer(),
                self.transform() == old(self).transform(),
                old(self).index() <= self.index(),
                all_skipped(layer, old(self).index() as int, self.index() as int),
            decreases layer.features@.len() - self.idx,
        {
            let feature = &layer.features[self.idx];
            self.idx += 1;

            if let Ok(parsed) = Feature::from_raw(layer, feature, self.transform.clone()) {
                return Some(parsed);
            }
        }
        None
    }
}

} // verus!
