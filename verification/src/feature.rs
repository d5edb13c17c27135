//! This module provides types and utilities for working with features.
//!
//! A feature represents a geographic entity with geometry and associated
//! properties. Features are found within the layers of a vector tile.

use crate::error::{DecodeError, DecodeSource, ErrorSource, GeometryError, ParserError, TagsError};
use crate::geometry::whole::gathered;
use crate::geometry::{
    parse_geometry, CoordinateStorage, CoordinateTransform, FlatCoordinateStorage, Geometry,
    GeometryIterator,
};
use crate::json::entries;
use crate::machine::{decode, initial};
use crate::tags::{parse_tags, resolved, tags_valid};
use crate::tile::GeomType;
use vstd::prelude::*;

verus! {

/// Why a raw feature cannot be decoded.
pub enum Failure {
    /// The feature declares no geometry type.
    MissingType,
    /// The feature declares a geometry type that is not known.
    UnknownType(i32),
    /// The command stream of the feature is malformed, or its geometry type
    /// is the unknown one.
    Geometry,
    /// The tags of the feature are malformed.
    Tags,
}

/// Whether the error `error` reports the failure `failure`.
pub open spec fn reports(error: ParserError, failure: Failure) -> bool {
    match failure {
        Failure::MissingType => {
            &&& error.source_spec() is Decode
            &&& error.source_spec()->Decode_0.source_spec() == DecodeSource::MissingGeometryType
        },
        Failure::UnknownType(value) => {
            &&& error.source_spec() is Decode
            &&& error.source_spec()->Decode_0.source_spec() == DecodeSource::UnknownGeometryType(
                value,
            )
        },
        Failure::Geometry => error.source_spec() == ErrorSource::Geometry(GeometryError),
        Failure::Tags => error.source_spec() == ErrorSource::Tags(TagsError),
    }
}

/// Why the geometry type and the tags of a raw feature cannot be decoded, if
/// they cannot: the geometry type is looked at first, then the tags.
pub open spec fn header_failure(layer: &crate::tile::Layer, raw: &crate::tile::Feature) -> Option<
    Failure,
> {
    if raw.geom_type is None {
        Some(Failure::MissingType)
    } else if GeomType::from_wire(raw.geom_type->0) is None {
        Some(Failure::UnknownType(raw.geom_type->0))
    } else if !tags_valid(raw.tags@, layer.keys@.len(), layer.values@.len()) {
        Some(Failure::Tags)
    } else {
        None
    }
}

/// Why a raw feature cannot be decoded as a whole, if it cannot: the geometry
/// type is looked at first, then the geometry, then the tags.
pub open spec fn feature_failure(layer: &crate::tile::Layer, raw: &crate::tile::Feature) -> Option<
    Failure,
> {
    if raw.geom_type is None {
        Some(Failure::MissingType)
    } else if GeomType::from_wire(raw.geom_type->0) is None {
        Some(Failure::UnknownType(raw.geom_type->0))
    } else if decode(raw.geometry@, GeomType::from_wire(raw.geom_type->0)->0) is None {
        Some(Failure::Geometry)
    } else if !tags_valid(raw.tags@, layer.keys@.len(), layer.values@.len()) {
        Some(Failure::Tags)
    } else {
        None
    }
}

/// A structure representing a feature in a vector tile, with a geometry that
/// is decoded part by part.
pub struct Feature<'a, S, T> where
    S: CoordinateStorage,
    T: CoordinateTransform<Output = S::TransformedCoord>,
 {
    /// The identifier of the feature.
    pub id: Option<u64>,
    /// The geometry of the feature.
    pub geometry: GeometryIterator<'a, S, T>,
    /// Optional properties associated with the feature.
    pub properties: Option<serde_json::Map<String, serde_json::Value>>,
}

impl<'a, S, T> Feature<'a, S, T> where
    S: CoordinateStorage,
    T: CoordinateTransform<Output = S::TransformedCoord>,
 {
    /// Whether the feature is the raw feature `raw` of the layer `layer`,
    /// with a decoder at the start of its command stream.
    pub open spec fn reads(&self, layer: &crate::tile::Layer, raw: &crate::tile::Feature) -> bool {
        &&& self.id == raw.id
        &&& self.geometry.wf()
        &&& self.geometry.data() == raw.geometry@
        &&& Some(self.geometry.kind()) == GeomType::from_wire(raw.geom_type->0)
        &&& self.geometry.machine() == initial()
        &&& self.properties is Some
        &&& entries(self.properties->0) == resolved(raw.tags@, layer.keys@, layer.values@)
    }

    /// Whether the feature is the raw feature `raw` of the layer `layer`,
    /// with a decoder that applies `transform`.
    pub open spec fn decodes(
        &self,
        layer: &crate::tile::Layer,
        raw: &crate::tile::Feature,
        transform: T,
    ) -> bool {
        &&& self.reads(layer, raw)
        &&& self.geometry.transform() == transform
    }

    /// Construct a feature from a raw feature of a layer.
    ///
    /// Fails when the feature declares no geometry type or one that is not
    /// known, and when its tags are malformed. The geometry is not read yet.
    pub fn from_raw(layer: &crate::tile::Layer, raw: &'a crate::tile::Feature, transform: T) -> (result:
        Result<Self, ParserError>)
        ensures
            match header_failure(layer, raw) {
                Some(failure) => result is Err && reports(result->Err_0, failure),
                None => result is Ok && result->Ok_0.decodes(layer, raw, transform),
            },
    {
        if let Some(geom_type) = raw.geom_type {
            match GeomType::try_from(geom_type) {
                Ok(geom_type) => {
                    let parsed_geometry = GeometryIterator::new(
                        raw.geometry.as_slice(),
                        geom_type,
                        transform,
                    );

                    let parsed_tags = match parse_tags(
                        raw.tags.as_slice(),
                        layer.keys.as_slice(),
                        layer.values.as_slice(),
                    ) {
                        Ok(parsed_tags) => parsed_tags,
                        Err(error) => {
                            return Err(error);
                        },
                    };

                    return Ok(
                        Feature {
                            id: raw.id,
                            geometry: parsed_geometry,
                            properties: Some(parsed_tags),
                        },
                    );
                },
                Err(error) => {
                    return Err(ParserError::new(error));
                },
            }
        }
        Err(ParserError::new(DecodeError::new(DecodeSource::MissingGeometryType)))
    }
}

/// A structure representing a feature in a vector tile, with its whole
/// geometry decoded.
pub struct LegacyFeature {
    /// The identifier of the feature.
    pub id: Option<u64>,
    /// The geometry of the feature.
    pub geometry: Geometry<FlatCoordinateStorage>,
    /// Optional properties associated with the feature.
    pub properties: Option<serde_json::Map<String, serde_json::Value>>,
}

impl LegacyFeature {
    /// Whether the feature is the raw feature `raw` of the layer `layer`,
    /// decoded as a whole.
    pub open spec fn decodes(&self, layer: &crate::tile::Layer, raw: &crate::tile::Feature) -> bool {
        let kind = GeomType::from_wire(raw.geom_type->0)->0;
        &&& self.id == raw.id
        &&& self.geometry@ == gathered(kind, decode(raw.geometry@, kind)->0)
        &&& self.properties is Some
        &&& entries(self.properties->0) == resolved(raw.tags@, layer.keys@, layer.values@)
    }

    /// Decodes a raw feature of a layer as a whole: its geometry type, its
    /// geometry and its tags, in this order, and fails on the first of them
    /// that is malformed.
    pub fn from_raw(layer: &crate::tile::Layer, raw: &crate::tile::Feature) -> (result: Result<
        Self,
        ParserError,
    >)
        ensures
            match feature_failure(layer, raw) {
                Some(failure) => result is Err && reports(result->Err_0, failure),
                None => result is Ok && result->Ok_0.decodes(layer, raw),
            },
    {
        if let Some(geom_type) = raw.geom_type {
            match GeomType::try_from(geom_type) {
                Ok(geom_type) => {
                    let parsed_geometry = match parse_geometry(raw.geometry.as_slice(), geom_type) {
                        Ok(parsed_geometry) => parsed_geometry,
                        Err(error) => {
                            return Err(error);
                        },
                    };

                    let parsed_tags = match parse_tags(
                        raw.tags.as_slice(),
                        layer.keys.as_slice(),
                        layer.values.as_slice(),
                    ) {
                        Ok(parsed_tags) => parsed_tags,
                        Err(error) => {
                            return Err(error);
                        },
                    };

                    Ok(
                        LegacyFeature {
                            id: raw.id,
                            geometry: parsed_geometry,
                            properties: Some(parsed_tags),
                        },
                    )
                },
                Err(error) => Err(ParserError::new(error)),
            }
        } else {
            Err(ParserError::new(DecodeError::new(DecodeSource::MissingGeometryType)))
        }
    }

    /// Decoding the same raw feature twice gives the same: the same
    /// identifier, the same geometry and the same properties.
    pub proof fn lemma_decoding_is_deterministic(
        first: &LegacyFeature,
        second: &LegacyFeature,
        layer: &crate::tile::Layer,
        raw: &crate::tile::Feature,
    )
        requires
            first.decodes(layer, raw),
            second.decodes(layer, raw),
        ensures
            first.id == second.id,
            first.geometry@ == second.geometry@,
            entries(first.properties->0) == entries(second.properties->0),
    {
    }

    /// Retrieves the geometry of the feature.
    pub fn get_geometry(&self) -> (geometry: &Geometry<FlatCoordinateStorage>)
        ensures
            *geometry == self.geometry,
    {
        &self.geometry
    }
}

} // verus!
