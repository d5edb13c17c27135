//! The decoded tile: layers, raw features and dictionary values, as plain data.
//!
//! These are the values that the decoder of the outer envelope hands over.
//! Nothing here knows the wire format.

use crate::error::{DecodeError, DecodeSource};
use crate::text::{bool_text, decimal, signed_decimal};
use vstd::prelude::*;

verus! {

/// The kind of geometry that a feature declares.
#[derive(Debug, Clone, Copy, PartialEq, Eq, Structural)]
pub enum GeomType {
    Unknown,
    Point,
    Linestring,
    Polygon,
}

impl GeomType {
    /// The kind that the wire value `value` stands for, if any.
    pub open spec fn from_wire(value: i32) -> Option<GeomType> {
        if value == 0 {
            Some(GeomType::Unknown)
        } else if value == 1 {
            Some(GeomType::Point)
        } else if value == 2 {
            Some(GeomType::Linestring)
        } else if value == 3 {
            Some(GeomType::Polygon)
        } else {
            None
        }
    }

    /// Maps a wire value to its kind; any value but 0, 1, 2 and 3 is a decode
    /// error that names the value.
    pub fn try_from(value: i32) -> (result: Result<GeomType, DecodeError>)
        ensures
            match result {
                Ok(kind) => Self::from_wire(value) == Some(kind),
                Err(error) => Self::from_wire(value) is None && error.source_spec()
                    == DecodeSource::UnknownGeometryType(value),
            },
    {
        match value {
            0 => Ok(GeomType::Unknown),
            1 => Ok(GeomType::Point),
            2 => Ok(GeomType::Linestring),
            3 => Ok(GeomType::Polygon),
            _ => Err(DecodeError::new(DecodeSource::UnknownGeometryType(value))),
        }
    }
}

/// One entry of a layer's value dictionary.
///
/// A floating-point entry is carried as the decimal text of the number: the
/// shortest text that reads back as the same number.
#[derive(Debug)]
pub enum TileValue {
    String(String),
    Float32(String),
    Float64(String),
    Int64(i64),
    UInt64(u64),
    SInt64(i64),
    Bool(bool),
    Null,
}

impl TileValue {
    /// The entry that a record of optional fields stands for: the first field
    /// that is present, in the order string, float, double, int, uint, sint,
    /// bool; `Null` if none is.
    pub open spec fn from_fields_spec(
        string_value: Option<String>,
        float_value: Option<String>,
        double_value: Option<String>,
        int_value: Option<i64>,
        uint_value: Option<u64>,
        sint_value: Option<i64>,
        bool_value: Option<bool>,
    ) -> TileValue {
        if string_value is Some {
            TileValue::String(string_value->0)
        } else if float_value is Some {
            TileValue::Float32(float_value->0)
        } else if double_value is Some {
            TileValue::Float64(double_value->0)
        } else if int_value is Some {
            TileValue::Int64(int_value->0)
        } else if uint_value is Some {
            TileValue::UInt64(uint_value->0)
        } else if sint_value is Some {
            TileValue::SInt64(sint_value->0)
        } else if bool_value is Some {
            TileValue::Bool(bool_value->0)
        } else {
            TileValue::Null
        }
    }

    /// Builds the entry from a record of optional fields, of which the first
    /// present one counts.
    pub fn from_fields(
        string_value: Option<String>,
        float_value: Option<String>,
        double_value: Option<String>,
        int_value: Option<i64>,
        uint_value: Option<u64>,
        sint_value: Option<i64>,
        bool_value: Option<bool>,
    ) -> (value: TileValue)
        ensures
            value == Self::from_fields_spec(
                string_value,
                float_value,
                double_value,
                int_value,
                uint_value,
                sint_value,
                bool_value,
            ),
    {
        if let Some(text) = string_value {
            TileValue::String(text)
        } else if let Some(text) = float_value {
            TileValue::Float32(text)
        } else if let Some(text) = double_value {
            TileValue::Float64(text)
        } else if let Some(number) = int_value {
            TileValue::Int64(number)
        } else if let Some(number) = uint_value {
            TileValue::UInt64(number)
        } else if let Some(number) = sint_value {
            TileValue::SInt64(number)
        } else if let Some(flag) = bool_value {
            TileValue::Bool(flag)
        } else {
            TileValue::Null
        }
    }

    /// The text of the entry: a string as it is, a number in decimal, a
    /// boolean as `true` or `false`, and nothing for `Null`.
    pub open spec fn text(self) -> Seq<char> {
        match self {
            TileValue::String(text) => text@,
            TileValue::Float32(text) => text@,
            TileValue::Float64(text) => text@,
            TileValue::Int64(number) => signed_decimal(number as int),
            TileValue::UInt64(number) => decimal(number as nat),
            TileValue::SInt64(number) => signed_decimal(number as int),
            TileValue::Bool(flag) => bool_text(flag),
            TileValue::Null => Seq::empty(),
        }
    }
}

impl Clone for TileValue {
    fn clone(&self) -> (copy: Self)
        ensures
            copy == *self,
    {
        match self {
            TileValue::String(text) => TileValue::String(text.clone()),
            TileValue::Float32(text) => TileValue::Float32(text.clone()),
            TileValue::Float64(text) => TileValue::Float64(text.clone()),
            TileValue::Int64(number) => TileValue::Int64(*number),
            TileValue::UInt64(number) => TileValue::UInt64(*number),
            TileValue::SInt64(number) => TileValue::SInt64(*number),
            TileValue::Bool(flag) => TileValue::Bool(*flag),
            TileValue::Null => TileValue::Null,
        }
    }
}

/// A feature as it is stored in a layer, before its geometry and tags are
/// decoded.
#[derive(Debug, Clone)]
pub struct Feature {
    /// The identifier of the feature.
    pub id: Option<u64>,
    /// Pairs of indices into the layer's key and value dictionaries.
    pub tags: Vec<u32>,
    /// The wire value of the declared geometry type.
    pub geom_type: Option<i32>,
    /// The command stream of the geometry.
    pub geometry: Vec<u32>,
}

/// A layer as it is stored in a tile.
#[derive(Debug, Clone)]
pub struct Layer {
    pub version: u32,
    pub name: String,
    pub features: Vec<Feature>,
    pub keys: Vec<String>,
    pub values: Vec<TileValue>,
    pub extent: Option<u32>,
}

/// A decoded tile.
#[derive(Debug, Clone)]
pub struct Tile {
    pub layers: Vec<Layer>,
}

} // verus!
