//! Coordinate transforms, coordinate storage and the geometry command decoder.

pub mod decoder;
pub mod shape;
pub mod storage;
pub mod transform;
pub mod whole;

pub use self::decoder::{parse_geometry_iter, GeometryIterator};
pub use self::shape::{Geometry, Line, Shape};
pub use self::storage::{CoordinateStorage, FlatCoordinateStorage, FlatCoordinateStorage3D};
pub use self::transform::{
    CoordinateTransform, IdentityTransform, IdentityTransform3D, TransformOutput,
};
pub use self::whole::parse_geometry;
