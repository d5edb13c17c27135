//! A library for decoding and reading Mapbox vector tiles.
//!
//! The [`Reader`] gives access to the layers and features of a decoded tile.
//! The geometry of a feature is decoded from its command stream by the
//! [`geometry::GeometryIterator`], which is specified against the state
//! machine of [`machine`]; the properties of a feature are resolved from its
//! tags by [`tags::parse_tags`].
//!
//! Coordinates are integers throughout: a raw coordinate is a position of the
//! cursor, and the area of a ring is kept doubled.

pub mod area;
pub mod cursor;
pub mod error;
pub mod feature;
pub mod feature_iter;
pub mod geometry;
pub mod json;
pub mod layer;
pub mod machine;
pub mod rings;
pub mod tags;
pub mod text;
pub mod tile;

use crate::error::{ParserError, VersionError};
use crate::feature::{feature_failure, reports, LegacyFeature};
use crate::feature_iter::FeatureIterator;
use crate::geometry::{CoordinateStorage, CoordinateTransform};
use crate::tile::Tile;
use vstd::prelude::*;

verus! {

/// The extent of a layer that declares none.
pub const DEFAULT_EXTENT: u32 = 4096;

/// Whether a layer version is supported: versions 1 and 2 are.
pub open spec fn version_supported(version: u32) -> bool {
    version == 1 || version == 2
}

/// The index of the first layer from `from` on with a version that is not
/// supported, if there is one.
pub open spec fn first_unsupported(layers: Seq<crate::tile::Layer>, from: int) -> Option<int>
    decreases layers.len() - from,
{
    if from < 0 || from >= layers.len() {
        None
    } else if !version_supported(layers[from].version) {
        Some(from)
    } else {
        first_unsupported(layers, from + 1)
    }
}

/// The index of the first feature of `layer` from `from` on that cannot be
/// decoded, if there is one.
pub open spec fn first_failure(layer: &crate::tile::Layer, from: int) -> Option<int>
    decreases layer.features@.len() - from,
{
    if from < 0 || from >= layer.features@.len() {
        None
    } else if feature_failure(layer, &layer.features@[from]) is Some {
        Some(from)
    } else {
        first_failure(layer, from + 1)
    }
}

/// Whether `error` is a version error that names the layer `layer`.
pub open spec fn reports_version(error: ParserError, layer: &crate::tile::Layer) -> bool {
    &&& error.source_spec() is Version
    &&& error.source_spec()->Version_0.layer_name_spec() == layer.name@
    &&& error.source_spec()->Version_0.version_spec() == layer.version
}

/// Reader for accessing decoded vector tile data.
pub struct Reader {
    tile: Tile,
}

impl Reader {
    /// The decoded tile.
    pub closed spec fn tile(&self) -> Tile {
        self.tile
    }

    /// Creates a new `Reader` for the provided decoded tile.
    pub fn new(tile: Tile) -> (reader: Self)
        ensures
            reader.tile() == tile,
    {
        Self { tile }
    }

    /// Retrieves the names of the layers in the vector tile, in their stored
    /// order.
    ///
    /// Fails with a version error that names the first layer whose version
    /// is neither 1 nor 2; no name is returned then.
    pub fn get_layer_names(&self) -> (result: Result<Vec<String>, ParserError>)
        ensures
            match first_unsupported(self.tile().layers@, 0) {
                Some(i) => result is Err && reports_version(
                    result->Err_0,
                    &self.tile().layers@[i],
                ),
                None => {
                    &&& result is Ok
                    &&& result->Ok_0@.len() == self.tile().layers@.len()
                    &&& forall|i: int|
                        0 <= i < self.tile().layers@.len() ==> (#[trigger] result->Ok_0@[i])@
                            == self.tile().layers@[i].name@
                },
            },
    {
        let mut layer_names: Vec<String> = Vec::with_capacity(self.tile.layers.len());
        let mut i: usize = 0;
        while i < self.tile.layers.len()
            invariant
                i <= self.tile.layers@.len(),
                first_unsupported(self.tile.layers@, 0) == first_unsupported(
                    self.tile.layers@,
                    i as int,
                ),
                layer_names@.len() == i,
                forall|k: int|
                    0 <= k < i ==> (#[trigger] layer_names@[k])@ == self.tile.layers@[k].name@,
            decreases self.tile.layers@.len() - i,
        {
            let layer = &self.tile.layers[i];
            if layer.version == 1 || layer.version == 2 {
                layer_names.push(layer.name.clone());
            } else {
                return Err(
                    ParserError::new(VersionError::new(layer.name.clone(), layer.version)),
                );
            }
            i += 1;
        }
        Ok(layer_names)
    }

    /// Get features iterator with custom coordinate storage and transform.
    ///
    /// Returns `None` exactly when there is no layer at `layer_index`.
    pub fn get_features_iter<S, T>(&self, layer_index: usize, transform: T) -> (result: Option<
        FeatureIterator<'_, S, T>,
    >) where S: CoordinateStorage, T: CoordinateTransform
        ensures
            result is Some <==> layer_index < self.tile().layers@.len(),
            result matches Some(iterator) ==> {
                &&& *iterator.layer() == self.tile().layers@[layer_index as int]
                &&& iterator.index() == 0
                &&& iterator.transform() == transform
            },
    {
        if layer_index < self.tile.layers.len() {
            Some(FeatureIterator::new(&self.tile.layers[layer_index], transform))
        } else {
            None
        }
    }

    /// Retrieves the features of a specific layer in the vector tile, each
    /// decoded as a whole.
    ///
    /// A layer index out of range gives no features. A layer whose version
    /// is not supported gives a version error. Otherwise the first feature
    /// that cannot be decoded fails the whole call with its error.
    pub fn get_features(&self, layer_index: usize) -> (result: Result<
        Vec<LegacyFeature>,
        ParserError,
    >)
        ensures
            layer_index >= self.tile().layers@.len() ==> result is Ok && result->Ok_0@.len() == 0,
            layer_index < self.tile().layers@.len() ==> {
                let layer = &self.tile().layers@[layer_index as int];
                if !version_supported(layer.version) {
                    result is Err && reports_version(result->Err_0, layer)
                } else {
                    match first_failure(layer, 0) {
                        Some(j) => result is Err && reports(
                            result->Err_0,
                            feature_failure(layer, &layer.features@[j])->0,
                        ),
                        None => {
                            &&& result is Ok
                            &&& result->Ok_0@.len() == layer.features@.len()
                            &&& forall|k: int|
                                0 <= k < layer.features@.len() ==> (#[trigger] result->Ok_0@[k]).decodes(
                                    layer,
                                    &layer.features@[k],
                                )
                        },
                    }
                }
            },
    {
        if layer_index >= self.tile.layers.len() {
            return Ok(Vec::new());
        }
        let layer = &self.tile.layers[layer_index];
        if !(layer.version == 1 || layer.version == 2) {
            return Err(ParserError::new(VersionError::new(layer.name.clone(), layer.version)));
        }
        let mut features: Vec<LegacyFeature> = Vec::with_capacity(layer.features.len());
        let mut i: usize = 0;
        while i < layer.features.len()
            invariant
                layer_index < self.tile().layers@.len(),
                *layer == self.tile().layers@[layer_index as int],
                version_supported(layer.version),
                i <= layer.features@.len(),
                first_failure(layer, 0) == first_failure(layer, i as int),
                features@.len() == i,
                forall|k: int|
                    0 <= k < i ==> (#[trigger] features@[k]).decodes(layer, &layer.features@[k]),
            decreases layer.features@.len() - i,
        {
            match LegacyFeature::from_raw(layer, &layer.features[i]) {
                Ok(feature) => {
                    features.push(feature);
                },
                Err(error) => {
                    return Err(error);
                },
            }
            i += 1;
        }
        Ok(features)
    }

    /// Retrieves the extent of a layer: the extent that the layer declares,
    /// and 4096 when it declares none or there is no layer at `layer_index`.
    pub fn get_extent(&self, layer_index: usize) -> (extent: u32)
        ensures
            extent == if layer_index < self.tile().layers@.len() && self.tile().layers@[layer_index as int].extent
                is Some {
                self.tile().layers@[layer_index as int].extent->0
            } else {
                DEFAULT_EXTENT
            },
    {
        if layer_index < self.tile.layers.len() {
            match self.tile.layers[layer_index].extent {
                Some(extent) => extent,
                None => DEFAULT_EXTENT,
            }
        } else {
            DEFAULT_EXTENT
        }
    }
}

} // verus!
