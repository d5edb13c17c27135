//! Error types of the decoder.
//!
//! Every failure is reported as a [`ParserError`] that carries exactly one
//! cause: a [`VersionError`], a [`TagsError`], a [`GeometryError`] or a
//! [`DecodeError`].

use crate::text::{decimal, push_decimal, signed_decimal, i64_to_string};
use vstd::prelude::*;

verus! {

/// The cause that a [`ParserError`] carries.
#[derive(Debug)]
pub enum ErrorSource {
    /// A layer declares a version that is not supported.
    Version(VersionError),
    /// The tags of a feature are malformed.
    Tags(TagsError),
    /// The geometry of a feature is malformed.
    Geometry(GeometryError),
    /// The tile, or a field of it, could not be decoded.
    Decode(DecodeError),
}

/// An error that can be the cause of a [`ParserError`].
pub trait Cause: Sized {
    /// The cause that this error becomes.
    spec fn cause(self) -> ErrorSource;

    /// Turns the error into the cause of a [`ParserError`].
    fn into_source(self) -> (source: ErrorSource)
        ensures
            source == self.cause(),
    ;
}

/// A structure representing a parser error.
#[derive(Debug)]
pub struct ParserError {
    source: ErrorSource,
}

impl ParserError {
    /// The cause of the error.
    pub closed spec fn source_spec(&self) -> ErrorSource {
        self.source
    }

    /// Creates a new `ParserError` with the provided cause.
    pub fn new<T: Cause>(source: T) -> (error: Self)
        ensures
            error.source_spec() == source.cause(),
    {
        Self { source: source.into_source() }
    }

    /// Returns the cause of the error.
    pub fn source(&self) -> (source: &ErrorSource)
        ensures
            *source == self.source_spec(),
    {
        &self.source
    }

    /// The message of the error: that of its cause.
    pub open spec fn message(&self) -> Seq<char> {
        match self.source_spec() {
            ErrorSource::Version(e) => e.message(),
            ErrorSource::Tags(e) => e.message(),
            ErrorSource::Geometry(e) => e.message(),
            ErrorSource::Decode(e) => e.message(),
        }
    }

    /// Formats the error message, which is the message of the cause.
    pub fn to_string(&self) -> (text: String)
        ensures
            text@ == self.message(),
    {
        match &self.source {
            ErrorSource::Version(e) => e.to_string(),
            ErrorSource::Tags(e) => e.to_string(),
            ErrorSource::Geometry(e) => e.to_string(),
            ErrorSource::Decode(e) => e.to_string(),
        }
    }
}

/// A structure representing a version error in a vector tile.
#[derive(Debug)]
pub struct VersionError {
    layer_name: String,
    version: u32,
}

impl VersionError {
    /// The name of the layer with the unsupported version.
    pub closed spec fn layer_name_spec(&self) -> Seq<char> {
        self.layer_name@
    }

    /// The unsupported version number.
    pub closed spec fn version_spec(&self) -> u32 {
        self.version
    }

    /// Creates a new `VersionError` with the provided layer name and version.
    pub fn new(layer_name: String, version: u32) -> (error: Self)
        ensures
            error.layer_name_spec() == layer_name@,
            error.version_spec() == version,
    {
        Self { layer_name, version }
    }

    /// Returns the name of the layer.
    pub fn layer_name(&self) -> (name: &String)
        ensures
            name@ == self.layer_name_spec(),
    {
        &self.layer_name
    }

    /// Returns the unsupported version number.
    pub fn version(&self) -> (version: u32)
        ensures
            version == self.version_spec(),
    {
        self.version
    }

    /// The message of the error.
    pub open spec fn message(&self) -> Seq<char> {
        "Vector tile version not supported for layer `"@ + self.layer_name_spec()
            + "` (found version: "@ + decimal(self.version_spec() as nat) + ")"@
    }

    /// Formats the error message.
    pub fn to_string(&self) -> (text: String)
        ensures
            text@ == self.message(),
    {
        let mut text = String::from_str("Vector tile version not supported for layer `");
        text.append(self.layer_name.as_str());
        text.append("` (found version: ");
        push_decimal(&mut text, self.version as u64);
        text.append(")");
        text
    }
}

impl Cause for VersionError {
    open spec fn cause(self) -> ErrorSource {
        ErrorSource::Version(self)
    }

    fn into_source(self) -> (source: ErrorSource) {
        ErrorSource::Version(self)
    }
}

/// An error indicating that the tags section of a vector tile contains errors.
#[derive(Debug)]
pub struct TagsError;

impl TagsError {
    /// Creates a new `TagsError`.
    pub fn new() -> (error: Self)
        ensures
            error == TagsError,
    {
        Self
    }

    /// The message of the error.
    pub open spec fn message(&self) -> Seq<char> {
        "Tags section contains errors"@
    }

    /// Formats the error message.
    pub fn to_string(&self) -> (text: String)
        ensures
            text@ == self.message(),
    {
        String::from_str("Tags section contains errors")
    }
}

impl Default for TagsError {
    fn default() -> (error: Self)
        ensures
            error == TagsError,
    {
        Self
    }
}

impl Cause for TagsError {
    open spec fn cause(self) -> ErrorSource {
        ErrorSource::Tags(self)
    }

    fn into_source(self) -> (source: ErrorSource) {
        ErrorSource::Tags(self)
    }
}

/// An error indicating that the geometry section of a vector tile contains errors.
#[derive(Debug)]
pub struct GeometryError;

impl GeometryError {
    /// Creates a new `GeometryError`.
    pub fn new() -> (error: Self)
        ensures
            error == GeometryError,
    {
        Self
    }

    /// The message of the error.
    pub open spec fn message(&self) -> Seq<char> {
        "Geometry section contains errors"@
    }

    /// Formats the error message.
    pub fn to_string(&self) -> (text: String)
        ensures
            text@ == self.message(),
    {
        String::from_str("Geometry section contains errors")
    }
}

impl Default for GeometryError {
    fn default() -> (error: Self)
        ensures
            error == GeometryError,
    {
        Self
    }
}

impl Cause for GeometryError {
    open spec fn cause(self) -> ErrorSource {
        ErrorSource::Geometry(self)
    }

    fn into_source(self) -> (source: ErrorSource) {
        ErrorSource::Geometry(self)
    }
}

/// What failed to decode.
#[derive(Debug)]
pub enum DecodeSource {
    /// The bytes are not a well-formed tile; the text is the message of the
    /// decoder that rejected them.
    Envelope(String),
    /// A feature declares a geometry type that is not known.
    UnknownGeometryType(i32),
    /// A feature declares no geometry type.
    MissingGeometryType,
}

/// An error indicating a decoding failure during the parsing of a vector tile.
#[derive(Debug)]
pub struct DecodeError {
    source: DecodeSource,
}

impl DecodeError {
    /// What failed to decode.
    pub closed spec fn source_spec(&self) -> DecodeSource {
        self.source
    }

    /// Creates a new `DecodeError` with the provided source.
    pub fn new(source: DecodeSource) -> (error: Self)
        ensures
            error.source_spec() == source,
    {
        Self { source }
    }

    /// Returns what failed to decode.
    pub fn source(&self) -> (source: &DecodeSource)
        ensures
            *source == self.source_spec(),
    {
        &self.source
    }

    /// The message of the source alone.
    pub open spec fn source_message(&self) -> Seq<char> {
        match self.source_spec() {
            DecodeSource::Envelope(text) => text@,
            DecodeSource::UnknownGeometryType(value) => "unknown enumeration value "@
                + signed_decimal(value as int),
            DecodeSource::MissingGeometryType => "Parse error"@,
        }
    }

    /// The message of the error.
    pub open spec fn message(&self) -> Seq<char> {
        "Decode error: "@ + self.source_message()
    }

    /// Formats the error message.
    pub fn to_string(&self) -> (text: String)
        ensures
            text@ == self.message(),
    {
        let mut text = String::from_str("Decode error: ");
        match &self.source {
            DecodeSource::Envelope(message) => {
                text.append(message.as_str());
            },
            DecodeSource::UnknownGeometryType(value) => {
                text.append("unknown enumeration value ");
                let digits = i64_to_string(*value as i64);
                text.append(digits.as_str());
            },
            DecodeSource::MissingGeometryType => {
                text.append("Parse error");
            },
        }
        text
    }
}

impl Cause for DecodeError {
    open spec fn cause(self) -> ErrorSource {
        ErrorSource::Decode(self)
    }

    fn into_source(self) -> (source: ErrorSource) {
        ErrorSource::Decode(self)
    }
}

} // verus!
