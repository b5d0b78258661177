use shapefile::error::ShapefileError;
use shapefile::record::{decode_record, read_geometry};
use shapefile::shape::{BoundingBox, Point, Shape};
use shapefile::source::{load_i32_be, ByteSource};

fn put_i32(bytes: &mut Vec<u8>, value: i32) {
    bytes.extend_from_slice(&value.to_le_bytes());
}

fn put_f64(bytes: &mut Vec<u8>, value: f64) {
    bytes.extend_from_slice(&value.to_le_bytes());
}

fn bits(values: &[f64]) -> Vec<u64> {
    values.iter().map(|v| v.to_bits()).collect()
}

fn bbox(xmin: f64, ymin: f64, xmax: f64, ymax: f64) -> BoundingBox {
    BoundingBox {
        xmin: xmin.to_bits(),
        ymin: ymin.to_bits(),
        xmax: xmax.to_bits(),
        ymax: ymax.to_bits(),
    }
}

fn point(x: f64, y: f64) -> Point {
    Point { x: x.to_bits(), y: y.to_bits() }
}

/// A record body: the tag, a bounding box, the counts, the parts and the
/// points. `parts` is `None` for the kinds without a part count.
fn geometry_body(tag: i32, parts: Option<&[i32]>, points: &[(f64, f64)]) -> Vec<u8> {
    let mut bytes: Vec<u8> = Vec::new();
    put_i32(&mut bytes, tag);
    for value in [-1.0, -2.0, 3.0, 4.0] {
        put_f64(&mut bytes, value);
    }
    if let Some(parts) = parts {
        put_i32(&mut bytes, parts.len() as i32);
    }
    put_i32(&mut bytes, points.len() as i32);
    if let Some(parts) = parts {
        for part in parts {
            put_i32(&mut bytes, *part);
        }
    }
    for (x, y) in points {
        put_f64(&mut bytes, *x);
        put_f64(&mut bytes, *y);
    }
    bytes
}

fn with_measures(mut body: Vec<u8>, m_min: f64, m_max: f64, measures: &[f64]) -> Vec<u8> {
    put_f64(&mut body, m_min);
    put_f64(&mut body, m_max);
    for m in measures {
        put_f64(&mut body, *m);
    }
    body
}

fn decode(body: Vec<u8>, content_length: i32) -> (Result<Shape, ShapefileError>, usize) {
    let mut source = ByteSource::new(body);
    let shape = decode_record(&mut source, content_length);
    (shape, source.offset())
}

const THREE: [(f64, f64); 3] = [(0.0, 0.5), (1.0, 1.5), (2.0, 2.5)];

fn three_points() -> Vec<Point> {
    vec![point(0.0, 0.5), point(1.0, 1.5), point(2.0, 2.5)]
}

#[test]
fn null_shape_has_no_payload() {
    let mut body: Vec<u8> = Vec::new();
    put_i32(&mut body, 0);
    put_f64(&mut body, 9.0);
    assert_eq!(decode(body, 2), (Ok(Shape::NullShape), 4));
}

#[test]
fn point_is_x_then_y() {
    let mut body: Vec<u8> = Vec::new();
    put_i32(&mut body, 1);
    put_f64(&mut body, 1.5);
    put_f64(&mut body, -2.5);
    assert_eq!(
        decode(body, 10),
        (Ok(Shape::Point { x: 1.5f64.to_bits(), y: (-2.5f64).to_bits() }), 20)
    );
}

#[test]
fn point_z_is_x_y_z_then_m() {
    let mut body: Vec<u8> = Vec::new();
    put_i32(&mut body, 11);
    for value in [1.0, 2.0, 3.0, 4.0] {
        put_f64(&mut body, value);
    }
    assert_eq!(
        decode(body, 18),
        (
            Ok(Shape::PointZ {
                x: 1.0f64.to_bits(),
                y: 2.0f64.to_bits(),
                z: 3.0f64.to_bits(),
                m: 4.0f64.to_bits(),
            }),
            36
        )
    );
}

#[test]
fn point_m_is_x_y_then_m() {
    let mut body: Vec<u8> = Vec::new();
    put_i32(&mut body, 21);
    for value in [1.0, 2.0, 3.0] {
        put_f64(&mut body, value);
    }
    assert_eq!(
        decode(body, 14),
        (
            Ok(Shape::PointM { x: 1.0f64.to_bits(), y: 2.0f64.to_bits(), m: 3.0f64.to_bits() }),
            28
        )
    );
}

#[test]
fn the_content_length_of_a_point_is_not_looked_at() {
    for content_length in [0, 10, -7, i32::MAX, i32::MIN] {
        let mut body: Vec<u8> = Vec::new();
        put_i32(&mut body, 1);
        put_f64(&mut body, 1.0);
        put_f64(&mut body, 2.0);
        assert_eq!(
            decode(body, content_length).0,
            Ok(Shape::Point { x: 1.0f64.to_bits(), y: 2.0f64.to_bits() })
        );
    }
}

#[test]
fn short_points_are_errors() {
    for (tag, size) in [(1, 20), (11, 36), (21, 28)] {
        for len in 4..size {
            let mut body: Vec<u8> = vec![0; len];
            body[0] = tag;
            assert_eq!(decode(body, 10), (Err(ShapefileError::UnexpectedEof), len));
        }
        let mut body: Vec<u8> = vec![0; size];
        body[0] = tag;
        let (shape, end) = decode(body, 10);
        assert!(shape.is_ok());
        assert_eq!(end, size);
    }
}

#[test]
fn a_body_without_a_whole_tag_is_an_error() {
    for len in 0..4 {
        assert_eq!(decode(vec![0; len], 0), (Err(ShapefileError::UnexpectedEof), len));
    }
}

#[test]
fn polyline_is_decoded() {
    let body = geometry_body(3, Some(&[0, 2]), &THREE);
    let size = body.len();
    assert_eq!(size, 44 + 4 * 2 + 16 * 3);
    assert_eq!(
        decode(body, 50),
        (
            Ok(Shape::PolyLine {
                bb: bbox(-1.0, -2.0, 3.0, 4.0),
                num_parts: 2,
                num_points: 3,
                parts: vec![0, 2],
                points: three_points(),
            }),
            size
        )
    );
}

#[test]
fn polygon_is_decoded() {
    let body = geometry_body(5, Some(&[0]), &THREE);
    let size = body.len();
    assert_eq!(
        decode(body, 48),
        (
            Ok(Shape::Polygon {
                bb: bbox(-1.0, -2.0, 3.0, 4.0),
                num_parts: 1,
                num_points: 3,
                parts: vec![0],
                points: three_points(),
            }),
            size
        )
    );
}

#[test]
fn polyline_with_a_wrong_content_length_is_refused() {
    for tag in [3, 5] {
        for content_length in [0, 49, 51, 100, -50, i32::MAX, i32::MIN] {
            let body = geometry_body(tag, Some(&[0, 2]), &THREE);
            let size = body.len();
            assert_eq!(
                decode(body, content_length),
                (Err(ShapefileError::InvalidContentLength), size)
            );
        }
        let body = geometry_body(tag, Some(&[0, 2]), &THREE);
        assert!(decode(body, 50).0.is_ok());
    }
}

#[test]
fn every_decoded_polyline_obeys_the_size_rule() {
    for num_parts in 0..4usize {
        for num_points in 0..5usize {
            let parts: Vec<i32> = (0..num_parts as i32).collect();
            let points: Vec<(f64, f64)> = (0..num_points).map(|i| (i as f64, 0.5)).collect();
            let right = (44 + 4 * num_parts + 16 * num_points) as i32 / 2;
            for content_length in 0..80 {
                let body = geometry_body(3, Some(&parts), &points);
                match decode(body, content_length).0 {
                    Ok(Shape::PolyLine { num_parts: np, num_points: npts, parts, points, .. }) => {
                        assert_eq!(content_length, right);
                        assert_eq!(2 * content_length as usize, 44 + 4 * np + 16 * npts);
                        assert_eq!(np, num_parts);
                        assert_eq!(npts, num_points);
                        assert_eq!(parts.len(), np);
                        assert_eq!(points.len(), npts);
                    }
                    Err(ShapefileError::InvalidContentLength) => {
                        assert_ne!(content_length, right);
                    }
                    other => panic!("unexpected {:?}", other),
                }
            }
        }
    }
}

#[test]
fn empty_polyline_is_decoded() {
    let body = geometry_body(3, Some(&[]), &[]);
    assert_eq!(body.len(), 44);
    assert_eq!(
        decode(body, 22),
        (
            Ok(Shape::PolyLine {
                bb: bbox(-1.0, -2.0, 3.0, 4.0),
                num_parts: 0,
                num_points: 0,
                parts: vec![],
                points: vec![],
            }),
            44
        )
    );
}

#[test]
fn multi_point_is_decoded_whatever_its_content_length() {
    for content_length in [0, 44, 45, -1] {
        let body = geometry_body(8, None, &THREE);
        let size = body.len();
        assert_eq!(size, 40 + 16 * 3);
        assert_eq!(
            decode(body, content_length),
            (
                Ok(Shape::MultiPoint {
                    bb: bbox(-1.0, -2.0, 3.0, 4.0),
                    num_points: 3,
                    points: three_points(),
                }),
                size
            )
        );
    }
}

#[test]
fn truncated_geometry_is_an_error() {
    for (tag, parts) in [(3, Some(&[0, 2][..])), (5, Some(&[0, 2][..])), (8, None)] {
        let whole = geometry_body(tag, parts, &THREE);
        for len in 4..whole.len() {
            let body = whole[..len].to_vec();
            assert_eq!(
                decode(body, (whole.len() / 2) as i32),
                (Err(ShapefileError::UnexpectedEof), len)
            );
        }
    }
}

#[test]
fn a_negative_count_is_more_than_any_source_holds() {
    let mut body = geometry_body(3, Some(&[0, 2]), &THREE);
    body[36..40].copy_from_slice(&(-1i32).to_le_bytes());
    let len = body.len();
    assert_eq!(decode(body, 50), (Err(ShapefileError::UnexpectedEof), len));

    let mut body = geometry_body(3, Some(&[0, 2]), &THREE);
    body[40..44].copy_from_slice(&i32::MIN.to_le_bytes());
    let len = body.len();
    assert_eq!(decode(body, 50), (Err(ShapefileError::UnexpectedEof), len));

    let mut body = geometry_body(8, None, &THREE);
    body[36..40].copy_from_slice(&(-3i32).to_le_bytes());
    let len = body.len();
    assert_eq!(decode(body, 44), (Err(ShapefileError::UnexpectedEof), len));
}

#[test]
fn a_count_beyond_the_bytes_is_an_error() {
    let mut body = geometry_body(5, Some(&[0]), &THREE);
    body[40..44].copy_from_slice(&4i32.to_le_bytes());
    let len = body.len();
    assert_eq!(decode(body, 48), (Err(ShapefileError::UnexpectedEof), len));

    let mut body = geometry_body(5, Some(&[0]), &THREE);
    body[40..44].copy_from_slice(&i32::MAX.to_le_bytes());
    let len = body.len();
    assert_eq!(decode(body, 48), (Err(ShapefileError::UnexpectedEof), len));
}

#[test]
fn geometry_reader_reads_what_the_counts_say() {
    let body = geometry_body(3, Some(&[0, 1]), &THREE);
    let mut source = ByteSource::new(body[4..].to_vec());
    let g = read_geometry(&mut source, true).unwrap();
    assert_eq!(g.bb, bbox(-1.0, -2.0, 3.0, 4.0));
    assert_eq!(g.num_parts, 2);
    assert_eq!(g.num_points, 3);
    assert_eq!(g.parts, vec![0, 1]);
    assert_eq!(g.points, three_points());
    assert_eq!(source.remaining(), 0);

    let body = geometry_body(8, None, &THREE);
    let mut source = ByteSource::new(body[4..].to_vec());
    let g = read_geometry(&mut source, false).unwrap();
    assert_eq!(g.num_parts, 0);
    assert_eq!(g.num_points, 3);
    assert!(g.parts.is_empty());
    assert_eq!(g.points, three_points());
    assert_eq!(source.remaining(), 0);
}

#[test]
fn polyline_m_without_measures_gets_zeros() {
    let body = geometry_body(23, Some(&[0, 2]), &THREE);
    let size = body.len();
    // Twice the content length is the size of the geometry without the tag.
    let content_length = (40 + 4 * 2 + 16 * 3) / 2;
    assert_eq!(
        decode(body, content_length),
        (
            Ok(Shape::PolyLineM {
                bb: bbox(-1.0, -2.0, 3.0, 4.0),
                num_parts: 2,
                num_points: 3,
                parts: vec![0, 2],
                points: three_points(),
                m_range: [0.0f64.to_bits(), 0.0f64.to_bits()],
                m_array: bits(&[0.0, 0.0, 0.0]),
            }),
            size
        )
    );
}

#[test]
fn polyline_m_without_measures_leaves_what_follows_unread() {
    let body = with_measures(geometry_body(23, Some(&[0, 2]), &THREE), 7.0, 8.0, &[7.0, 7.5, 8.0]);
    let geometry_size = 44 + 4 * 2 + 16 * 3;
    match decode(body, (40 + 4 * 2 + 16 * 3) / 2) {
        (Ok(Shape::PolyLineM { m_range, m_array, num_points, .. }), end) => {
            assert_eq!(m_range, [0, 0]);
            assert_eq!(m_array, vec![0; 3]);
            assert_eq!(m_array.len(), num_points);
            assert_eq!(end, geometry_size);
        }
        other => panic!("unexpected {:?}", other),
    }
}

#[test]
fn polyline_m_with_measures_gets_them_from_the_bytes() {
    let body = with_measures(geometry_body(23, Some(&[0, 2]), &THREE), 7.0, 8.0, &[7.0, 7.5, 8.0]);
    let size = body.len();
    assert_eq!(size, 44 + 4 * 2 + 16 * 3 + 16 + 8 * 3);
    assert_eq!(
        decode(body, (size / 2) as i32),
        (
            Ok(Shape::PolyLineM {
                bb: bbox(-1.0, -2.0, 3.0, 4.0),
                num_parts: 2,
                num_points: 3,
                parts: vec![0, 2],
                points: three_points(),
                m_range: [7.0f64.to_bits(), 8.0f64.to_bits()],
                m_array: bits(&[7.0, 7.5, 8.0]),
            }),
            size
        )
    );
}

#[test]
fn polygon_m_without_measures_gets_zeros() {
    let body = geometry_body(25, Some(&[0]), &THREE);
    let size = body.len();
    assert_eq!(
        decode(body, (40 + 4 + 16 * 3) / 2),
        (
            Ok(Shape::PolygonM {
                bb: bbox(-1.0, -2.0, 3.0, 4.0),
                num_parts: 1,
                num_points: 3,
                parts: vec![0],
                points: three_points(),
                m_range: [0, 0],
                m_array: vec![0, 0, 0],
            }),
            size
        )
    );
}

#[test]
fn polygon_m_with_measures_gets_them_from_the_bytes() {
    let body = with_measures(geometry_body(25, Some(&[0]), &THREE), -1.0, 1.0, &[-1.0, 0.0, 1.0]);
    let size = body.len();
    assert_eq!(
        decode(body, (size / 2) as i32),
        (
            Ok(Shape::PolygonM {
                bb: bbox(-1.0, -2.0, 3.0, 4.0),
                num_parts: 1,
                num_points: 3,
                parts: vec![0],
                points: three_points(),
                m_range: [(-1.0f64).to_bits(), 1.0f64.to_bits()],
                m_array: bits(&[-1.0, 0.0, 1.0]),
            }),
            size
        )
    );
}

#[test]
fn multi_point_m_without_measures_gets_zeros() {
    let body = geometry_body(28, None, &THREE);
    let size = body.len();
    assert_eq!(size, 40 + 16 * 3);
    // Here the size without measures counts the tag.
    assert_eq!(
        decode(body, (40 + 16 * 3) / 2),
        (
            Ok(Shape::MultiPointM {
                bb: bbox(-1.0, -2.0, 3.0, 4.0),
                num_points: 3,
                points: three_points(),
                m_range: [0, 0],
                m_array: vec![0, 0, 0],
            }),
            size
        )
    );
}

#[test]
fn multi_point_m_with_measures_gets_them_from_the_bytes() {
    let body = with_measures(geometry_body(28, None, &THREE), 0.25, 0.75, &[0.25, 0.5, 0.75]);
    let size = body.len();
    assert_eq!(
        decode(body, (size / 2) as i32),
        (
            Ok(Shape::MultiPointM {
                bb: bbox(-1.0, -2.0, 3.0, 4.0),
                num_points: 3,
                points: three_points(),
                m_range: [0.25f64.to_bits(), 0.75f64.to_bits()],
                m_array: bits(&[0.25, 0.5, 0.75]),
            }),
            size
        )
    );
}

#[test]
fn any_other_content_length_asks_for_measures() {
    for (tag, parts, unmeasured) in [
        (23, Some(&[0, 2][..]), (40 + 8 + 48) / 2),
        (25, Some(&[0, 2][..]), (40 + 8 + 48) / 2),
        (28, None, (40 + 48) / 2),
    ] {
        for content_length in [0, unmeasured - 1, unmeasured + 1, unmeasured + 2, -unmeasured, i32::MAX] {
            // With the measures there, they are read.
            let body = with_measures(geometry_body(tag, parts, &THREE), 1.0, 2.0, &[1.0, 1.5, 2.0]);
            let size = body.len();
            let (shape, end) = decode(body, content_length);
            assert_eq!(end, size);
            match shape {
                Ok(Shape::PolyLineM { m_range, m_array, .. })
                | Ok(Shape::PolygonM { m_range, m_array, .. })
                | Ok(Shape::MultiPointM { m_range, m_array, .. }) => {
                    assert_eq!(m_range, [1.0f64.to_bits(), 2.0f64.to_bits()]);
                    assert_eq!(m_array, bits(&[1.0, 1.5, 2.0]));
                }
                other => panic!("unexpected {:?}", other),
            }
            // Without them, the bytes end too early.
            let body = geometry_body(tag, parts, &THREE);
            let size = body.len();
            assert_eq!(decode(body, content_length), (Err(ShapefileError::UnexpectedEof), size));
        }
    }
}

#[test]
fn truncated_measures_are_an_error() {
    let whole = with_measures(geometry_body(28, None, &THREE), 1.0, 2.0, &[1.0, 1.5, 2.0]);
    let geometry_size = 40 + 16 * 3;
    for len in geometry_size..whole.len() {
        let body = whole[..len].to_vec();
        assert_eq!(
            decode(body, (whole.len() / 2) as i32),
            (Err(ShapefileError::UnexpectedEof), len)
        );
    }
}

#[test]
fn measured_shape_without_points_has_no_measures() {
    let body = geometry_body(28, None, &[]);
    assert_eq!(
        decode(body, 20),
        (
            Ok(Shape::MultiPointM {
                bb: bbox(-1.0, -2.0, 3.0, 4.0),
                num_points: 0,
                points: vec![],
                m_range: [0, 0],
                m_array: vec![],
            }),
            40
        )
    );
}

#[test]
fn unknown_tags_are_refused_after_the_tag() {
    for tag in [2, 4, 6, 7, 9, 10, 12, 14, 16, 17, 19, 20, 22, 24, 26, 27, 29, 30, 32, 99, -1] {
        let mut body: Vec<u8> = Vec::new();
        put_i32(&mut body, tag);
        body.extend_from_slice(&[0; 64]);
        assert_eq!(decode(body, 10), (Err(ShapefileError::InvalidShapeType), 4));
    }
}

#[test]
fn kinds_without_a_decoder_are_refused_after_the_tag() {
    for tag in [13, 15, 18, 31] {
        let mut body: Vec<u8> = Vec::new();
        put_i32(&mut body, tag);
        body.extend_from_slice(&[0; 64]);
        assert_eq!(decode(body, 10), (Err(ShapefileError::InvalidShapeType), 4));
    }
}

#[test]
fn a_decoded_shape_has_the_code_of_its_tag() {
    let bodies: Vec<(i32, Vec<u8>, i32)> = vec![
        (0, geometry_body(0, None, &[]), 2),
        (1, geometry_body(1, None, &[]), 10),
        (3, geometry_body(3, Some(&[0]), &THREE), 48),
        (5, geometry_body(5, Some(&[0]), &THREE), 48),
        (8, geometry_body(8, None, &THREE), 44),
        (11, geometry_body(11, None, &[]), 18),
        (21, geometry_body(21, None, &[]), 14),
        (23, geometry_body(23, Some(&[0]), &THREE), 46),
        (25, geometry_body(25, Some(&[0]), &THREE), 46),
        (28, geometry_body(28, None, &THREE), 44),
    ];
    for (tag, body, content_length) in bodies {
        let shape = decode(body, content_length).0.unwrap();
        assert_eq!(shape.type_code(), tag);
        let code: i32 = shape.into();
        assert_eq!(code, tag);
    }
}

#[test]
fn decoding_starts_at_the_position_of_the_source() {
    let mut bytes: Vec<u8> = Vec::new();
    bytes.extend_from_slice(&77i32.to_be_bytes());
    put_i32(&mut bytes, 1);
    put_f64(&mut bytes, 6.0);
    put_f64(&mut bytes, 7.0);
    put_i32(&mut bytes, 0);
    let mut source = ByteSource::new(bytes);
    assert_eq!(load_i32_be(&mut source), Ok(77));
    assert_eq!(
        decode_record(&mut source, 10),
        Ok(Shape::Point { x: 6.0f64.to_bits(), y: 7.0f64.to_bits() })
    );
    assert_eq!(source.offset(), 24);
    assert_eq!(decode_record(&mut source, 2), Ok(Shape::NullShape));
    assert_eq!(source.remaining(), 0);
}
