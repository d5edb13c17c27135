use mvt_reader::error::{DecodeSource, ErrorSource};
use mvt_reader::feature::{Feature, LegacyFeature};
use mvt_reader::feature_iter::FeatureIterator;
use mvt_reader::geometry::{
    CoordinateStorage, FlatCoordinateStorage, FlatCoordinateStorage3D, Geometry,
    IdentityTransform, IdentityTransform3D,
};
use mvt_reader::layer::Layer as LayerInfo;
use mvt_reader::tile::{Feature as RawFeature, Layer, Tile, TileValue};
use mvt_reader::{Reader, DEFAULT_EXTENT};

fn point(id: u64, tags: Vec<u32>) -> RawFeature {
    RawFeature { id: Some(id), tags, geom_type: Some(1), geometry: vec![9, 4, 4] }
}

fn line() -> RawFeature {
    RawFeature {
        id: None,
        tags: vec![0, 0],
        geom_type: Some(2),
        geometry: vec![9, 4, 4, 18, 4, 4, 4, 4],
    }
}

fn polygon() -> RawFeature {
    RawFeature {
        id: Some(77),
        tags: vec![],
        geom_type: Some(3),
        geometry: vec![9, 0, 0, 18, 20, 0, 0, 20, 15],
    }
}

fn layer(name: &str, version: u32, features: Vec<RawFeature>) -> Layer {
    Layer {
        version,
        name: name.to_string(),
        features,
        keys: vec!["kind".to_string(), "lanes".to_string()],
        values: vec![TileValue::String("road".to_string()), TileValue::Int64(2)],
        extent: None,
    }
}

fn text(value: &str) -> serde_json::Value {
    serde_json::Value::String(value.to_string())
}

#[test]
fn layer_names_in_stored_order() {
    let reader = Reader::new(Tile {
        layers: vec![layer("roads", 2, vec![]), layer("water", 1, vec![]), layer("roads", 2, vec![])],
    });
    assert_eq!(reader.get_layer_names().unwrap(), vec!["roads", "water", "roads"]);
    let empty = Reader::new(Tile { layers: vec![] });
    assert!(empty.get_layer_names().unwrap().is_empty());
}

#[test]
fn unsupported_version_fails_all_names() {
    let reader = Reader::new(Tile {
        layers: vec![layer("roads", 2, vec![]), layer("water", 3, vec![]), layer("land", 0, vec![])],
    });
    match reader.get_layer_names() {
        Err(error) => {
            assert!(matches!(error.source(), ErrorSource::Version(cause)
                if cause.layer_name() == "water" && cause.version() == 3));
            assert_eq!(
                error.to_string(),
                "Vector tile version not supported for layer `water` (found version: 3)"
            );
        }
        Ok(_) => panic!("expected a version error"),
    }
    let zero = Reader::new(Tile { layers: vec![layer("land", 0, vec![])] });
    assert!(matches!(zero.get_layer_names(), Err(error)
        if matches!(error.source(), ErrorSource::Version(cause) if cause.version() == 0)));
}

#[test]
fn extent_defaults_to_4096() {
    let mut with_extent = layer("roads", 2, vec![]);
    with_extent.extent = Some(512);
    let reader = Reader::new(Tile { layers: vec![with_extent, layer("water", 2, vec![])] });
    assert_eq!(reader.get_extent(0), 512);
    assert_eq!(reader.get_extent(1), 4096);
    assert_eq!(reader.get_extent(2), 4096);
    assert_eq!(reader.get_extent(usize::MAX), 4096);
    assert_eq!(DEFAULT_EXTENT, 4096);
}

#[test]
fn features_of_a_layer_decoded_as_a_whole() {
    let reader = Reader::new(Tile {
        layers: vec![layer("roads", 2, vec![point(5, vec![0, 0, 1, 1]), line(), polygon()])],
    });
    let features = reader.get_features(0).unwrap();
    assert_eq!(features.len(), 3);

    assert_eq!(features[0].id, Some(5));
    assert!(matches!(features[0].get_geometry(), Geometry::MultiPoint(points)
        if points.as_slice() == [(2, 2)]));
    let properties = features[0].properties.as_ref().unwrap();
    assert_eq!(properties.len(), 2);
    assert_eq!(properties.get("kind"), Some(&text("road")));
    assert_eq!(properties.get("lanes"), Some(&text("2")));

    assert_eq!(features[1].id, None);
    assert!(matches!(&features[1].geometry, Geometry::LineString(line)
        if line.as_slice() == [(2, 2), (4, 4), (6, 6)]));
    assert_eq!(features[1].properties.as_ref().unwrap().get("kind"), Some(&text("road")));

    assert_eq!(features[2].id, Some(77));
    assert!(matches!(&features[2].geometry, Geometry::MultiPolygon(polygons)
        if polygons.len() == 1 && polygons[0].0.as_slice() == [(0, 0), (10, 0), (10, 10)]));
    assert!(features[2].properties.as_ref().unwrap().is_empty());
}

#[test]
fn features_of_a_missing_layer() {
    let reader = Reader::new(Tile { layers: vec![layer("roads", 2, vec![line()])] });
    assert!(reader.get_features(1).unwrap().is_empty());
    assert!(reader.get_features(usize::MAX).unwrap().is_empty());
    assert!(reader.get_features_iter::<FlatCoordinateStorage, _>(1, IdentityTransform).is_none());
    assert!(reader.get_features_iter::<FlatCoordinateStorage, _>(0, IdentityTransform).is_some());
}

#[test]
fn features_of_a_layer_of_unsupported_version() {
    let reader = Reader::new(Tile { layers: vec![layer("roads", 3, vec![line()])] });
    assert!(matches!(reader.get_features(0), Err(error)
        if matches!(error.source(), ErrorSource::Version(cause)
            if cause.layer_name() == "roads" && cause.version() == 3)));
}

#[test]
fn first_malformed_feature_fails_the_whole_layer() {
    let odd_tags = point(1, vec![0]);
    let reader = Reader::new(Tile { layers: vec![layer("roads", 2, vec![line(), odd_tags])] });
    assert!(matches!(reader.get_features(0), Err(error)
        if matches!(error.source(), ErrorSource::Tags(_))));

    let mut no_type = line();
    no_type.geom_type = None;
    let reader = Reader::new(Tile { layers: vec![layer("roads", 2, vec![no_type, point(1, vec![0])])] });
    assert!(matches!(reader.get_features(0), Err(error)
        if matches!(error.source(), ErrorSource::Decode(cause)
            if matches!(cause.source(), DecodeSource::MissingGeometryType))));

    let mut strange_type = line();
    strange_type.geom_type = Some(9);
    let reader = Reader::new(Tile { layers: vec![layer("roads", 2, vec![strange_type])] });
    assert!(matches!(reader.get_features(0), Err(error)
        if matches!(error.source(), ErrorSource::Decode(cause)
            if matches!(cause.source(), DecodeSource::UnknownGeometryType(9)))));

    let mut unknown_kind = line();
    unknown_kind.geom_type = Some(0);
    let reader = Reader::new(Tile { layers: vec![layer("roads", 2, vec![unknown_kind])] });
    assert!(matches!(reader.get_features(0), Err(error)
        if matches!(error.source(), ErrorSource::Geometry(_))));

    let mut bad_geometry = polygon();
    bad_geometry.geometry = vec![15];
    bad_geometry.tags = vec![0];
    let reader = Reader::new(Tile { layers: vec![layer("roads", 2, vec![bad_geometry])] });
    assert!(matches!(reader.get_features(0), Err(error)
        if matches!(error.source(), ErrorSource::Geometry(_))));
}

#[test]
fn feature_from_raw() {
    let roads = layer("roads", 2, vec![]);
    let raw = point(5, vec![1, 1]);
    let mut feature: Feature<FlatCoordinateStorage, IdentityTransform> =
        Feature::from_raw(&roads, &raw, IdentityTransform).unwrap();
    assert_eq!(feature.id, Some(5));
    assert_eq!(feature.properties.as_ref().unwrap().get("lanes"), Some(&text("2")));
    assert!(matches!(feature.geometry.next(), Some(Ok(Geometry::Point { x: 2, y: 2 }))));
    assert!(feature.geometry.next().is_none());

    let odd = point(5, vec![0]);
    let result: Result<Feature<FlatCoordinateStorage, IdentityTransform>, _> =
        Feature::from_raw(&roads, &odd, IdentityTransform);
    assert!(matches!(result, Err(error) if matches!(error.source(), ErrorSource::Tags(_))));

    let mut no_type = point(5, vec![]);
    no_type.geom_type = None;
    let result: Result<Feature<FlatCoordinateStorage, IdentityTransform>, _> =
        Feature::from_raw(&roads, &no_type, IdentityTransform);
    assert!(matches!(result, Err(error) if error.to_string() == "Decode error: Parse error"));

    let mut strange = point(5, vec![]);
    strange.geom_type = Some(4);
    let result: Result<Feature<FlatCoordinateStorage, IdentityTransform>, _> =
        Feature::from_raw(&roads, &strange, IdentityTransform);
    assert!(matches!(result, Err(error)
        if error.to_string() == "Decode error: unknown enumeration value 4"));

    // The geometry is not read yet: a malformed stream shows when it is.
    let mut bad_geometry = polygon();
    bad_geometry.geometry = vec![15];
    let mut feature: Feature<FlatCoordinateStorage, IdentityTransform> =
        Feature::from_raw(&roads, &bad_geometry, IdentityTransform).unwrap();
    assert!(matches!(feature.geometry.next(), Some(Err(_))));
}

#[test]
fn whole_feature_from_raw() {
    let roads = layer("roads", 2, vec![]);
    let feature = LegacyFeature::from_raw(&roads, &line()).unwrap();
    assert_eq!(feature.id, None);
    assert!(matches!(feature.get_geometry(), Geometry::LineString(line) if line.len() == 3));
    assert_eq!(feature.properties.unwrap().get("kind"), Some(&text("road")));
}

#[test]
fn iterator_skips_features_that_fail() {
    let mut no_type = line();
    no_type.geom_type = None;
    let mut strange = line();
    strange.geom_type = Some(12);
    let odd_tags = point(2, vec![1]);
    let out_of_bounds = point(3, vec![0, 2]);
    let reader = Reader::new(Tile {
        layers: vec![layer(
            "roads",
            2,
            vec![point(1, vec![]), no_type, strange, line(), odd_tags, out_of_bounds, polygon()],
        )],
    });
    let mut features: FeatureIterator<FlatCoordinateStorage, IdentityTransform> =
        reader.get_features_iter(0, IdentityTransform).unwrap();
    let mut first = features.next().unwrap();
    assert_eq!(first.id, Some(1));
    assert!(matches!(first.geometry.next(), Some(Ok(Geometry::Point { x: 2, y: 2 }))));
    let mut second = features.next().unwrap();
    assert_eq!(second.id, None);
    assert!(matches!(second.geometry.next(), Some(Ok(Geometry::LineString(line)))
        if line.as_slice() == [(2, 2), (4, 4), (6, 6)]));
    let mut third = features.next().unwrap();
    assert_eq!(third.id, Some(77));
    assert!(matches!(third.geometry.next(), Some(Ok(Geometry::Polygon { exterior, holes }))
        if exterior.len() == 3 && holes.is_empty()));
    assert!(features.next().is_none());
    assert!(features.next().is_none());
}

#[test]
fn iterator_over_a_layer_without_features() {
    let roads = layer("roads", 2, vec![]);
    let mut features: FeatureIterator<FlatCoordinateStorage3D, IdentityTransform3D> =
        FeatureIterator::new(&roads, IdentityTransform3D);
    assert!(features.next().is_none());
}

#[test]
fn iterator_with_three_components() {
    let roads = layer("roads", 2, vec![line()]);
    let mut features: FeatureIterator<FlatCoordinateStorage3D, IdentityTransform3D> =
        FeatureIterator::new(&roads, IdentityTransform3D);
    let mut feature = features.next().unwrap();
    assert!(matches!(feature.geometry.next(), Some(Ok(Geometry::LineString(line)))
        if line.transformed_as_slice() == [2, 2, 0, 4, 4, 0, 6, 6, 0]));
}

#[test]
fn two_readers_decode_the_same() {
    let tile = Tile {
        layers: vec![layer("roads", 2, vec![point(5, vec![0, 0, 1, 1]), line(), polygon()])],
    };
    let first = Reader::new(tile.clone());
    let second = Reader::new(tile);
    assert_eq!(first.get_layer_names().unwrap(), second.get_layer_names().unwrap());
    let one = first.get_features(0).unwrap();
    let other = second.get_features(0).unwrap();
    let again = first.get_features(0).unwrap();
    assert_eq!(one.len(), other.len());
    for i in 0..one.len() {
        assert_eq!(one[i].id, other[i].id);
        assert_eq!(format!("{:?}", one[i].geometry), format!("{:?}", other[i].geometry));
        assert_eq!(one[i].properties, other[i].properties);
        assert_eq!(format!("{:?}", one[i].geometry), format!("{:?}", again[i].geometry));
        assert_eq!(one[i].properties, again[i].properties);
    }
}

#[test]
fn layer_description() {
    let info = LayerInfo {
        layer_index: 1,
        version: 2,
        name: "roads".to_string(),
        feature_count: 12,
        extent: 4096,
    };
    let copy = info.clone();
    assert_eq!(copy.layer_index, 1);
    assert_eq!(copy.version, 2);
    assert_eq!(copy.name, "roads");
    assert_eq!(copy.feature_count, 12);
    assert_eq!(copy.extent, 4096);
}
