use mvt_reader::error::ErrorSource;
use mvt_reader::geometry::{
    parse_geometry, parse_geometry_iter, CoordinateStorage, FlatCoordinateStorage,
    FlatCoordinateStorage3D, Geometry, GeometryIterator, IdentityTransform, IdentityTransform3D,
};
use mvt_reader::tile::GeomType;

fn command(id: u32, repeat: u32) -> u32 {
    (repeat << 3) | id
}

fn zigzag(value: i32) -> u32 {
    ((value << 1) ^ (value >> 31)) as u32
}

#[test]
fn point_feature_yields_one_point() {
    let data: Vec<u32> = vec![9, 4, 4];
    let mut parts =
        parse_geometry_iter::<FlatCoordinateStorage, _>(&data, GeomType::Point, IdentityTransform);
    match parts.next() {
        Some(Ok(Geometry::Point { x, y })) => {
            assert_eq!(x, 2);
            assert_eq!(y, 2);
        }
        _ => panic!("expected a point"),
    }
    assert!(parts.next().is_none());
    assert!(parts.next().is_none());
}

#[test]
fn line_string_feature_yields_one_line() {
    let data: Vec<u32> = vec![9, 4, 4, 18, 4, 4, 4, 4];
    let mut parts = parse_geometry_iter::<FlatCoordinateStorage, _>(
        &data,
        GeomType::Linestring,
        IdentityTransform,
    );
    match parts.next() {
        Some(Ok(Geometry::LineString(line))) => {
            assert_eq!(line.as_slice(), &[(2, 2), (4, 4), (6, 6)]);
            assert_eq!(line.len(), 3);
            assert_eq!(line.transformed_as_slice(), &[2, 2, 4, 4, 6, 6]);
        }
        _ => panic!("expected a line string"),
    }
    assert!(parts.next().is_none());
}

#[test]
fn polygon_feature_with_single_ring() {
    let data: Vec<u32> = vec![9, 0, 0, 18, 20, 0, 0, 20, 15];
    let mut parts = parse_geometry_iter::<FlatCoordinateStorage, _>(
        &data,
        GeomType::Polygon,
        IdentityTransform,
    );
    match parts.next() {
        Some(Ok(Geometry::Polygon { exterior, holes })) => {
            assert_eq!(exterior.as_slice(), &[(0, 0), (10, 0), (10, 10)]);
            assert!(exterior.get_accumulated_area() > 0);
            assert_eq!(exterior.get_accumulated_area(), 100);
            assert!(holes.is_empty());
        }
        _ => panic!("expected a polygon"),
    }
    assert!(parts.next().is_none());
}

#[test]
fn multi_point_yields_each_point_as_it_is_read() {
    // MoveTo with two pairs: (5, 7) and then (3, 2) further on.
    let data: Vec<u32> = vec![17, 10, 14, 3, 9];
    let mut parts =
        parse_geometry_iter::<FlatCoordinateStorage, _>(&data, GeomType::Point, IdentityTransform);
    assert!(matches!(parts.next(), Some(Ok(Geometry::Point { x: 5, y: 7 }))));
    assert!(matches!(parts.next(), Some(Ok(Geometry::Point { x: 3, y: 2 }))));
    assert!(parts.next().is_none());
}

#[test]
fn second_move_to_splits_line_strings() {
    // Two lines: (2,2)-(2,10)-(10,10) and (1,1)-(3,5).
    let data: Vec<u32> = vec![9, 4, 4, 18, 0, 16, 16, 0, 9, 17, 17, 10, 4, 8];
    let mut parts = parse_geometry_iter::<FlatCoordinateStorage, _>(
        &data,
        GeomType::Linestring,
        IdentityTransform,
    );
    match parts.next() {
        Some(Ok(Geometry::LineString(line))) => {
            assert_eq!(line.as_slice(), &[(2, 2), (2, 10), (10, 10)]);
        }
        _ => panic!("expected the first line"),
    }
    match parts.next() {
        Some(Ok(Geometry::LineString(line))) => {
            assert_eq!(line.as_slice(), &[(1, 1), (3, 5)]);
        }
        _ => panic!("expected the second line"),
    }
    assert!(parts.next().is_none());
}

fn ring(data: &mut Vec<u32>, cursor: &mut (i32, i32), points: &[(i32, i32)]) {
    data.push(command(1, 1));
    data.push(zigzag(points[0].0 - cursor.0));
    data.push(zigzag(points[0].1 - cursor.1));
    *cursor = points[0];
    data.push(command(2, (points.len() - 1) as u32));
    for point in &points[1..] {
        data.push(zigzag(point.0 - cursor.0));
        data.push(zigzag(point.1 - cursor.1));
        *cursor = *point;
    }
    data.push(command(7, 1));
}

#[test]
fn ring_of_negative_area_is_a_hole() {
    let mut data = Vec::new();
    let mut cursor = (0, 0);
    ring(&mut data, &mut cursor, &[(0, 0), (10, 0), (10, 10), (0, 10)]);
    ring(&mut data, &mut cursor, &[(2, 2), (2, 4), (4, 4), (4, 2)]);
    ring(&mut data, &mut cursor, &[(6, 6), (6, 8), (8, 8), (8, 6)]);
    let mut parts = parse_geometry_iter::<FlatCoordinateStorage, _>(
        &data,
        GeomType::Polygon,
        IdentityTransform,
    );
    match parts.next() {
        Some(Ok(Geometry::Polygon { exterior, holes })) => {
            assert_eq!(exterior.as_slice(), &[(0, 0), (10, 0), (10, 10), (0, 10)]);
            assert_eq!(exterior.get_accumulated_area(), 200);
            assert_eq!(holes.len(), 2);
            assert_eq!(holes[0].as_slice(), &[(2, 2), (2, 4), (4, 4), (4, 2)]);
            assert_eq!(holes[0].get_accumulated_area(), -8);
            assert_eq!(holes[1].as_slice(), &[(6, 6), (6, 8), (8, 8), (8, 6)]);
        }
        _ => panic!("expected one polygon"),
    }
    assert!(parts.next().is_none());
}

#[test]
fn ring_of_positive_area_starts_a_new_polygon() {
    let mut data = Vec::new();
    let mut cursor = (0, 0);
    ring(&mut data, &mut cursor, &[(0, 0), (10, 0), (10, 10), (0, 10)]);
    ring(&mut data, &mut cursor, &[(2, 2), (2, 4), (4, 4), (4, 2)]);
    ring(&mut data, &mut cursor, &[(20, 20), (30, 20), (30, 30), (20, 30)]);
    let mut parts = parse_geometry_iter::<FlatCoordinateStorage, _>(
        &data,
        GeomType::Polygon,
        IdentityTransform,
    );
    match parts.next() {
        Some(Ok(Geometry::Polygon { exterior, holes })) => {
            assert_eq!(exterior.as_slice(), &[(0, 0), (10, 0), (10, 10), (0, 10)]);
            assert_eq!(holes.len(), 1);
            assert_eq!(holes[0].as_slice(), &[(2, 2), (2, 4), (4, 4), (4, 2)]);
        }
        _ => panic!("expected the first polygon"),
    }
    match parts.next() {
        Some(Ok(Geometry::Polygon { exterior, holes })) => {
            assert_eq!(exterior.as_slice(), &[(20, 20), (30, 20), (30, 30), (20, 30)]);
            assert!(holes.is_empty());
        }
        _ => panic!("expected the second polygon"),
    }
    assert!(parts.next().is_none());
}

#[test]
fn first_ring_is_exterior_whatever_its_area() {
    let mut data = Vec::new();
    let mut cursor = (0, 0);
    ring(&mut data, &mut cursor, &[(2, 2), (2, 4), (4, 4), (4, 2)]);
    let mut parts = parse_geometry_iter::<FlatCoordinateStorage, _>(
        &data,
        GeomType::Polygon,
        IdentityTransform,
    );
    match parts.next() {
        Some(Ok(Geometry::Polygon { exterior, holes })) => {
            assert!(exterior.get_accumulated_area() < 0);
            assert!(holes.is_empty());
        }
        _ => panic!("expected one polygon"),
    }
    assert!(parts.next().is_none());
}

#[test]
fn ring_of_zero_area_is_a_hole() {
    let mut data = Vec::new();
    let mut cursor = (0, 0);
    ring(&mut data, &mut cursor, &[(0, 0), (10, 0), (10, 10), (0, 10)]);
    ring(&mut data, &mut cursor, &[(1, 1), (2, 2), (3, 3)]);
    let mut parts = parse_geometry_iter::<FlatCoordinateStorage, _>(
        &data,
        GeomType::Polygon,
        IdentityTransform,
    );
    match parts.next() {
        Some(Ok(Geometry::Polygon { exterior: _, holes })) => {
            assert_eq!(holes.len(), 1);
            assert_eq!(holes[0].get_accumulated_area(), 0);
        }
        _ => panic!("expected one polygon"),
    }
    assert!(parts.next().is_none());
}

#[test]
fn close_path_without_coordinates_is_a_geometry_error() {
    let data: Vec<u32> = vec![15];
    let mut parts = parse_geometry_iter::<FlatCoordinateStorage, _>(
        &data,
        GeomType::Polygon,
        IdentityTransform,
    );
    match parts.next() {
        Some(Err(error)) => {
            assert!(matches!(error.source(), ErrorSource::Geometry(_)));
            assert_eq!(error.to_string(), "Geometry section contains errors");
        }
        _ => panic!("expected a geometry error"),
    }
    assert!(parts.next().is_none());
    let whole = parse_geometry(&data, GeomType::Polygon);
    assert!(matches!(whole, Err(error) if matches!(error.source(), ErrorSource::Geometry(_))));
}

#[test]
fn second_close_path_in_a_row_is_a_geometry_error() {
    let data: Vec<u32> = vec![9, 0, 0, 18, 20, 0, 0, 20, 15, 15];
    let whole = parse_geometry(&data, GeomType::Polygon);
    assert!(matches!(whole, Err(error) if matches!(error.source(), ErrorSource::Geometry(_))));
}

#[test]
fn unknown_kind_is_a_geometry_error() {
    let data: Vec<u32> = vec![9, 4, 4];
    let mut parts = parse_geometry_iter::<FlatCoordinateStorage, _>(
        &data,
        GeomType::Unknown,
        IdentityTransform,
    );
    assert!(matches!(
        parts.next(),
        Some(Err(error)) if matches!(error.source(), ErrorSource::Geometry(_))
    ));
    let whole = parse_geometry(&data, GeomType::Unknown);
    assert!(matches!(whole, Err(error) if matches!(error.source(), ErrorSource::Geometry(_))));
}

#[test]
fn unknown_command_is_ignored() {
    // Command 3 is no command of the grammar; the line goes on after it.
    let data: Vec<u32> = vec![9, 4, 4, 3, 10, 2, 2];
    let mut parts = parse_geometry_iter::<FlatCoordinateStorage, _>(
        &data,
        GeomType::Linestring,
        IdentityTransform,
    );
    match parts.next() {
        Some(Ok(Geometry::LineString(line))) => {
            assert_eq!(line.as_slice(), &[(2, 2), (3, 3)]);
        }
        _ => panic!("expected a line string"),
    }
    assert!(parts.next().is_none());
}

#[test]
fn cursor_is_the_exact_sum_of_the_deltas() {
    let deltas = [(5, -3), (-7, 11), (100, 250), (-98, -258)];
    let mut data = vec![command(1, 1), zigzag(deltas[0].0), zigzag(deltas[0].1), command(2, 3)];
    for delta in &deltas[1..] {
        data.push(zigzag(delta.0));
        data.push(zigzag(delta.1));
    }
    let mut parts = parse_geometry_iter::<FlatCoordinateStorage, _>(
        &data,
        GeomType::Linestring,
        IdentityTransform,
    );
    match parts.next() {
        Some(Ok(Geometry::LineString(line))) => {
            assert_eq!(line.as_slice(), &[(5, -3), (-2, 8), (98, 258), (0, 0)]);
        }
        _ => panic!("expected a line string"),
    }
}

#[test]
fn cursor_is_pinned_at_the_largest_value() {
    // The largest delta twice: the second one would pass the largest value.
    let largest = zigzag(i32::MAX);
    let data: Vec<u32> = vec![command(1, 1), largest, 0, command(2, 2), largest, 2, 1, 0];
    let mut parts = parse_geometry_iter::<FlatCoordinateStorage, _>(
        &data,
        GeomType::Linestring,
        IdentityTransform,
    );
    match parts.next() {
        Some(Ok(Geometry::LineString(line))) => {
            assert_eq!(
                line.as_slice(),
                &[(i32::MAX, 0), (i32::MAX, 1), (i32::MAX - 1, 1)]
            );
        }
        _ => panic!("expected a line string"),
    }
}

#[test]
fn cursor_is_pinned_at_the_smallest_value() {
    let smallest = zigzag(i32::MIN);
    let data: Vec<u32> = vec![command(1, 1), smallest, 0, command(2, 1), 1, 0];
    let mut parts = parse_geometry_iter::<FlatCoordinateStorage, _>(
        &data,
        GeomType::Linestring,
        IdentityTransform,
    );
    match parts.next() {
        Some(Ok(Geometry::LineString(line))) => {
            assert_eq!(line.as_slice(), &[(i32::MIN, 0), (i32::MIN, 0)]);
        }
        _ => panic!("expected a line string"),
    }
}

#[test]
fn truncated_stream_ends_the_line() {
    // LineTo announces two pairs; only one and a half are there.
    let data: Vec<u32> = vec![9, 4, 4, 18, 4, 4, 4];
    let mut parts = parse_geometry_iter::<FlatCoordinateStorage, _>(
        &data,
        GeomType::Linestring,
        IdentityTransform,
    );
    match parts.next() {
        Some(Ok(Geometry::LineString(line))) => {
            assert_eq!(line.as_slice(), &[(2, 2), (4, 4)]);
        }
        _ => panic!("expected a line string"),
    }
    assert!(parts.next().is_none());
}

#[test]
fn empty_stream_has_no_parts() {
    let data: Vec<u32> = Vec::new();
    for kind in [GeomType::Point, GeomType::Linestring, GeomType::Polygon] {
        let mut parts =
            parse_geometry_iter::<FlatCoordinateStorage, _>(&data, kind, IdentityTransform);
        assert!(parts.next().is_none());
    }
}

#[test]
fn decoder_with_three_components() {
    let data: Vec<u32> = vec![9, 4, 4, 18, 4, 4, 4, 4];
    let mut parts: GeometryIterator<FlatCoordinateStorage3D, IdentityTransform3D> =
        GeometryIterator::new(&data, GeomType::Linestring, IdentityTransform3D);
    match parts.next() {
        Some(Ok(Geometry::LineString(line))) => {
            assert_eq!(line.as_slice(), &[(2, 2), (4, 4), (6, 6)]);
            assert_eq!(line.transformed_as_slice(), &[2, 2, 0, 4, 4, 0, 6, 6, 0]);
            assert_eq!(line.into_transformed_vec(), vec![2, 2, 0, 4, 4, 0, 6, 6, 0]);
        }
        _ => panic!("expected a line string"),
    }
    let mut points: GeometryIterator<FlatCoordinateStorage3D, IdentityTransform3D> =
        GeometryIterator::new(&data[..3], GeomType::Point, IdentityTransform3D);
    assert!(matches!(points.next(), Some(Ok(Geometry::Point { x: 2, y: 2 }))));
}

#[test]
fn collect_drains_the_decoder() {
    let mut data = Vec::new();
    let mut cursor = (0, 0);
    ring(&mut data, &mut cursor, &[(0, 0), (10, 0), (10, 10), (0, 10)]);
    ring(&mut data, &mut cursor, &[(20, 20), (30, 20), (30, 30), (20, 30)]);
    let parts = parse_geometry_iter::<FlatCoordinateStorage, _>(
        &data,
        GeomType::Polygon,
        IdentityTransform,
    )
    .collect()
    .unwrap();
    assert_eq!(parts.len(), 2);
    assert!(matches!(&parts[0], Geometry::Polygon { exterior, holes }
        if exterior.as_slice() == [(0, 0), (10, 0), (10, 10), (0, 10)] && holes.is_empty()));
    assert!(matches!(&parts[1], Geometry::Polygon { exterior, holes }
        if exterior.as_slice() == [(20, 20), (30, 20), (30, 30), (20, 30)] && holes.is_empty()));

    let failing: Vec<u32> = vec![9, 4, 4, 15, 15];
    let result = parse_geometry_iter::<FlatCoordinateStorage, _>(
        &failing,
        GeomType::Polygon,
        IdentityTransform,
    )
    .collect();
    assert!(matches!(result, Err(error) if matches!(error.source(), ErrorSource::Geometry(_))));
}

#[test]
fn whole_geometry_of_points() {
    let data: Vec<u32> = vec![17, 10, 14, 3, 9];
    match parse_geometry(&data, GeomType::Point) {
        Ok(Geometry::MultiPoint(points)) => {
            assert_eq!(points.as_slice(), &[(5, 7), (3, 2)]);
            assert_eq!(points.transformed_as_slice(), &[5, 7, 3, 2]);
        }
        _ => panic!("expected a multi-point"),
    }
}

#[test]
fn whole_geometry_of_lines() {
    let one: Vec<u32> = vec![9, 4, 4, 18, 4, 4, 4, 4];
    match parse_geometry(&one, GeomType::Linestring) {
        Ok(Geometry::LineString(line)) => {
            assert_eq!(line.as_slice(), &[(2, 2), (4, 4), (6, 6)]);
        }
        _ => panic!("expected a line string"),
    }
    let two: Vec<u32> = vec![9, 4, 4, 18, 0, 16, 16, 0, 9, 17, 17, 10, 4, 8];
    match parse_geometry(&two, GeomType::Linestring) {
        Ok(Geometry::MultiLineString(lines)) => {
            assert_eq!(lines.len(), 2);
            assert_eq!(lines[0].as_slice(), &[(2, 2), (2, 10), (10, 10)]);
            assert_eq!(lines[1].as_slice(), &[(1, 1), (3, 5)]);
        }
        _ => panic!("expected a multi-line string"),
    }
    let none: Vec<u32> = Vec::new();
    match parse_geometry(&none, GeomType::Linestring) {
        Ok(Geometry::LineString(line)) => {
            assert!(line.is_empty());
        }
        _ => panic!("expected an empty line string"),
    }
}

#[test]
fn whole_geometry_of_polygons() {
    let mut data = Vec::new();
    let mut cursor = (0, 0);
    ring(&mut data, &mut cursor, &[(0, 0), (10, 0), (10, 10), (0, 10)]);
    ring(&mut data, &mut cursor, &[(2, 2), (2, 4), (4, 4), (4, 2)]);
    ring(&mut data, &mut cursor, &[(20, 20), (30, 20), (30, 30), (20, 30)]);
    match parse_geometry(&data, GeomType::Polygon) {
        Ok(Geometry::MultiPolygon(polygons)) => {
            assert_eq!(polygons.len(), 2);
            assert_eq!(polygons[0].0.as_slice(), &[(0, 0), (10, 0), (10, 10), (0, 10)]);
            assert_eq!(polygons[0].1.len(), 1);
            assert_eq!(polygons[0].1[0].as_slice(), &[(2, 2), (2, 4), (4, 4), (4, 2)]);
            assert_eq!(polygons[1].0.as_slice(), &[(20, 20), (30, 20), (30, 30), (20, 30)]);
            assert!(polygons[1].1.is_empty());
        }
        _ => panic!("expected a multi-polygon"),
    }
    let single: Vec<u32> = vec![9, 0, 0, 18, 20, 0, 0, 20, 15];
    match parse_geometry(&single, GeomType::Polygon) {
        Ok(Geometry::MultiPolygon(polygons)) => {
            assert_eq!(polygons.len(), 1);
            assert_eq!(polygons[0].0.as_slice(), &[(0, 0), (10, 0), (10, 10)]);
        }
        _ => panic!("expected a multi-polygon"),
    }
}

#[test]
fn decoding_twice_gives_the_same() {
    let mut data = Vec::new();
    let mut cursor = (0, 0);
    ring(&mut data, &mut cursor, &[(0, 0), (10, 0), (10, 10), (0, 10)]);
    ring(&mut data, &mut cursor, &[(2, 2), (2, 4), (4, 4), (4, 2)]);
    ring(&mut data, &mut cursor, &[(20, 20), (30, 20), (30, 30), (20, 30)]);
    let first = parse_geometry_iter::<FlatCoordinateStorage, _>(
        &data,
        GeomType::Polygon,
        IdentityTransform,
    )
    .collect()
    .unwrap();
    let second = parse_geometry_iter::<FlatCoordinateStorage, _>(
        &data,
        GeomType::Polygon,
        IdentityTransform,
    )
    .collect()
    .unwrap();
    assert_eq!(format!("{:?}", first), format!("{:?}", second));
    assert_eq!(first.len(), 2);
}
