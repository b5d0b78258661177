//! Decoding of one record body: the shape type tag and what follows it.

use vstd::prelude::*;
use crate::error::ShapefileError;
use crate::shape::{spec_bounding_box, spec_point, BoundingBox, Point, Shape, ShapeType, ShapeView};
use crate::source::{load_f64_bits, load_i32_le, spec_i32_le, spec_u64_le, ByteSource};

verus! {

/// A signed 32-bit field read as a count or an index: the field itself,
/// and for a negative one the number that the same bits stand for at the
/// width of `usize`.
pub open spec fn spec_unsigned(field: i32) -> usize {
    if field >= 0 {
        field as usize
    } else {
        (usize::MAX + 1 + field) as usize
    }
}

/// The `count` part entries that start at `at`, four bytes each.
pub open spec fn spec_parts(bytes: Seq<u8>, at: int, count: nat) -> Seq<usize> {
    Seq::new(count, |i: int| spec_unsigned(spec_i32_le(bytes, at + 4 * i)))
}

/// The `count` vertices that start at `at`, sixteen bytes each.
pub open spec fn spec_points(bytes: Seq<u8>, at: int, count: nat) -> Seq<Point> {
    Seq::new(count, |i: int| spec_point(bytes, at + 16 * i))
}

/// The `count` measures that start at `at`, eight bytes each.
pub open spec fn spec_measures(bytes: Seq<u8>, at: int, count: nat) -> Seq<u64> {
    Seq::new(count, |i: int| spec_u64_le(bytes, at + 8 * i))
}

/// A signed 32-bit field read as a count or an index.
pub fn unsigned(field: i32) -> (n: usize)
    ensures
        n == spec_unsigned(field),
{
    if field >= 0 {
        field as usize
    } else {
        usize::MAX - ((-(field + 1)) as usize)
    }
}

/// Reads `count` part entries.
///
/// With fewer than `4 * count` bytes left the read fails and the source is
/// left exhausted.
pub fn read_parts(source: &mut ByteSource, count: usize) -> (r: Result<Vec<usize>, ShapefileError>)
    ensures
        final(source).bytes() == old(source).bytes(),
        match r {
            Ok(parts) => {
                &&& old(source).position() + 4 * count <= old(source).bytes().len()
                &&& final(source).position() == old(source).position() + 4 * count
                &&& parts@ == spec_parts(
                    old(source).bytes(),
                    old(source).position() as int,
                    count as nat,
                )
            },
            Err(e) => {
                &&& e == ShapefileError::UnexpectedEof
                &&& old(source).position() + 4 * count > old(source).bytes().len()
                &&& final(source).position() == old(source).bytes().len()
            },
        },
{
    if (source.remaining() as u128) < (count as u128) * 4 {
        source.exhaust();
        return Err(ShapefileError::UnexpectedEof);
    }
    let ghost bytes = source.bytes();
    let ghost start = source.position() as int;
    let mut parts: Vec<usize> = Vec::with_capacity(count);
    let mut i: usize = 0;
    while i < count
        invariant
            i <= count,
            source.bytes() == bytes,
            source.position() == start + 4 * i,
            start + 4 * count <= bytes.len(),
            parts@.len() == i,
            forall|j: int| 0 <= j < i ==> parts@[j] == spec_unsigned(spec_i32_le(bytes, start + 4 * j)),
        decreases count - i,
    {
        let field: i32 = load_i32_le(source)?;
        parts.push(unsigned(field));
        i = i + 1;
    }
    assert(parts@ =~= spec_parts(bytes, start, count as nat));
    Ok(parts)
}

/// Reads `count` vertices.
///
/// With fewer than `16 * count` bytes left the read fails and the source
/// is left exhausted.
pub fn read_points(source: &mut ByteSource, count: usize) -> (r: Result<Vec<Point>, ShapefileError>)
    ensures
        final(source).bytes() == old(source).bytes(),
        match r {
            Ok(points) => {
                &&& old(source).position() + 16 * count <= old(source).bytes().len()
                &&& final(source).position() == old(source).position() + 16 * count
                &&& points@ == spec_points(
                    old(source).bytes(),
                    old(source).position() as int,
                    count as nat,
                )
            },
            Err(e) => {
                &&& e == ShapefileError::UnexpectedEof
                &&& old(source).position() + 16 * count > old(source).bytes().len()
                &&& final(source).position() == old(source).bytes().len()
            },
        },
{
    if (source.remaining() as u128) < (count as u128) * 16 {
        source.exhaust();
        return Err(ShapefileError::UnexpectedEof);
    }
    let ghost bytes = source.bytes();
    let ghost start = source.position() as int;
    let mut points: Vec<Point> = Vec::with_capacity(count);
    let mut i: usize = 0;
    while i < count
        invariant
            i <= count,
            source.bytes() == bytes,
            source.position() == start + 16 * i,
            start + 16 * count <= bytes.len(),
            points@.len() == i,
            forall|j: int| 0 <= j < i ==> points@[j] == spec_point(bytes, start + 16 * j),
        decreases count - i,
    {
        let x: u64 = load_f64_bits(source)?;
        let y: u64 = load_f64_bits(source)?;
        points.push(Point { x, y });
        i = i + 1;
    }
    assert(points@ =~= spec_points(bytes, start, count as nat));
    Ok(points)
}

/// Reads `count` measures.
///
/// With fewer than `8 * count` bytes left the read fails and the source is
/// left exhausted.
pub fn read_measures(source: &mut ByteSource, count: usize) -> (r: Result<Vec<u64>, ShapefileError>)
    ensures
        final(source).bytes() == old(source).bytes(),
        match r {
            Ok(measures) => {
                &&& old(source).position() + 8 * count <= old(source).bytes().len()
                &&& final(source).position() == old(source).position() + 8 * count
                &&& measures@ == spec_measures(
                    old(source).bytes(),
                    old(source).position() as int,
                    count as nat,
                )
            },
            Err(e) => {
                &&& e == ShapefileError::UnexpectedEof
                &&& old(source).position() + 8 * count > old(source).bytes().len()
                &&& final(source).position() == old(source).bytes().len()
            },
        },
{
    if (source.remaining() as u128) < (count as u128) * 8 {
        source.exhaust();
        return Err(ShapefileError::UnexpectedEof);
    }
    let ghost bytes = source.bytes();
    let ghost start = source.position() as int;
    let mut measures: Vec<u64> = Vec::with_capacity(count);
    let mut i: usize = 0;
    while i < count
        invariant
            i <= count,
            source.bytes() == bytes,
            source.position() == start + 8 * i,
            start + 8 * count <= bytes.len(),
            measures@.len() == i,
            forall|j: int| 0 <= j < i ==> measures@[j] == spec_u64_le(bytes, start + 8 * j),
        decreases count - i,
    {
        let measure: u64 = load_f64_bits(source)?;
        measures.push(measure);
        i = i + 1;
    }
    assert(measures@ =~= spec_measures(bytes, start, count as nat));
    Ok(measures)
}

/// What the multi-point, polyline and polygon records share: the bounding
/// box, the counts, the part entries and the vertices.
#[derive(Debug)]
pub struct Geometry {
    pub bb: BoundingBox,
    pub num_parts: usize,
    pub num_points: usize,
    pub parts: Vec<usize>,
    pub points: Vec<Point>,
}

/// What a `Geometry` holds, as mathematical values.
pub ghost struct GeometryView {
    pub bb: BoundingBox,
    pub num_parts: nat,
    pub num_points: nat,
    pub parts: Seq<usize>,
    pub points: Seq<Point>,
}

impl View for Geometry {
    type V = GeometryView;

    open spec fn view(&self) -> GeometryView {
        GeometryView {
            bb: self.bb,
            num_parts: self.num_parts as nat,
            num_points: self.num_points as nat,
            parts: self.parts@,
            points: self.points@,
        }
    }
}

/// The number of bytes before the part entries of a geometry: the
/// bounding box and the counts, of which a multi-point record has one.
pub open spec fn spec_geometry_head(with_parts: bool) -> int {
    if with_parts {
        40
    } else {
        36
    }
}

/// The number of parts that the geometry at `at` declares; none where the
/// record has no part count.
pub open spec fn spec_num_parts(bytes: Seq<u8>, at: int, with_parts: bool) -> usize {
    if with_parts {
        spec_unsigned(spec_i32_le(bytes, at + 32))
    } else {
        0
    }
}

/// The number of points that the geometry at `at` declares.
pub open spec fn spec_num_points(bytes: Seq<u8>, at: int, with_parts: bool) -> usize {
    spec_unsigned(spec_i32_le(bytes, at + spec_geometry_head(with_parts) - 4))
}

/// The number of bytes that the geometry at `at` takes, by its own counts.
/// Only the bytes of the head need to be there for this to mean something.
pub open spec fn spec_geometry_size(bytes: Seq<u8>, at: int, with_parts: bool) -> int {
    spec_geometry_head(with_parts) + 4 * spec_num_parts(bytes, at, with_parts) + 16
        * spec_num_points(bytes, at, with_parts)
}

/// Whether the bytes from `at` on hold a whole geometry.
pub open spec fn spec_geometry_fits(bytes: Seq<u8>, at: int, with_parts: bool) -> bool {
    &&& at + spec_geometry_head(with_parts) <= bytes.len()
    &&& at + spec_geometry_size(bytes, at, with_parts) <= bytes.len()
}

/// The geometry encoded at `at`, where one fits.
pub open spec fn spec_geometry(bytes: Seq<u8>, at: int, with_parts: bool) -> GeometryView {
    let head = spec_geometry_head(with_parts);
    let num_parts = spec_num_parts(bytes, at, with_parts);
    let num_points = spec_num_points(bytes, at, with_parts);
    GeometryView {
        bb: spec_bounding_box(bytes, at),
        num_parts: num_parts as nat,
        num_points: num_points as nat,
        parts: spec_parts(bytes, at + head, num_parts as nat),
        points: spec_points(bytes, at + head + 4 * num_parts, num_points as nat),
    }
}

/// Reads a geometry: the bounding box, the part count where the record has
/// one, the point count, then as many part entries and vertices as the
/// counts say.
///
/// Where the source ends before that, the read fails and the source is
/// left exhausted. A negative count stands for more items than any source
/// holds.
pub fn read_geometry(source: &mut ByteSource, with_parts: bool) -> (r: Result<Geometry, ShapefileError>)
    ensures
        final(source).bytes() == old(source).bytes(),
        match r {
            Ok(g) => {
                let at = old(source).position() as int;
                &&& spec_geometry_fits(old(source).bytes(), at, with_parts)
                &&& final(source).position() == at + spec_geometry_size(
                    old(source).bytes(),
                    at,
                    with_parts,
                )
                &&& g@ == spec_geometry(old(source).bytes(), at, with_parts)
            },
            Err(e) => {
                &&& e == ShapefileError::UnexpectedEof
                &&& !spec_geometry_fits(
                    old(source).bytes(),
                    old(source).position() as int,
                    with_parts,
                )
                &&& final(source).position() == old(source).bytes().len()
            },
        },
{
    let bb: BoundingBox = BoundingBox::load(source)?;
    let num_parts: usize = if with_parts {
        unsigned(load_i32_le(source)?)
    } else {
        0
    };
    let num_points: usize = unsigned(load_i32_le(source)?);
    let parts: Vec<usize> = read_parts(source, num_parts)?;
    let points: Vec<Point> = read_points(source, num_points)?;
    Ok(Geometry { bb, num_parts, num_points, parts, points })
}

/// The shape of kind `kind` that holds the geometry `g` and the given
/// measures. Only the kinds that hold a geometry are meant; of the
/// measures only those kinds speak that hold some.
pub open spec fn spec_assemble(
    kind: ShapeType,
    g: GeometryView,
    m_range: (u64, u64),
    m_array: Seq<u64>,
) -> ShapeView {
    match kind {
        ShapeType::PolyLine => ShapeView::PolyLine {
            bb: g.bb,
            num_parts: g.num_parts,
            num_points: g.num_points,
            parts: g.parts,
            points: g.points,
        },
        ShapeType::Polygon => ShapeView::Polygon {
            bb: g.bb,
            num_parts: g.num_parts,
            num_points: g.num_points,
            parts: g.parts,
            points: g.points,
        },
        ShapeType::PolyLineM => ShapeView::PolyLineM {
            bb: g.bb,
            num_parts: g.num_parts,
            num_points: g.num_points,
            parts: g.parts,
            points: g.points,
            m_range,
            m_array,
        },
        ShapeType::PolygonM => ShapeView::PolygonM {
            bb: g.bb,
            num_parts: g.num_parts,
            num_points: g.num_points,
            parts: g.parts,
            points: g.points,
            m_range,
            m_array,
        },
        ShapeType::MultiPointM => ShapeView::MultiPointM {
            bb: g.bb,
            num_points: g.num_points,
            points: g.points,
            m_range,
            m_array,
        },
        _ => ShapeView::MultiPoint { bb: g.bb, num_points: g.num_points, points: g.points },
    }
}

/// How the decoding of one record body ends: with a shape or an error, and
/// with the source at `end`.
pub ghost struct Decoded {
    pub shape: Result<ShapeView, ShapefileError>,
    pub end: int,
}

/// The outcome of a read that met the end of the bytes.
pub open spec fn spec_short(bytes: Seq<u8>) -> Decoded {
    Decoded { shape: Err(ShapefileError::UnexpectedEof), end: bytes.len() as int }
}

/// The content length, in bytes, that a polyline or polygon record with
/// these counts must declare.
pub open spec fn spec_declared_size(num_parts: nat, num_points: nat) -> nat {
    44 + 4 * num_parts + 16 * num_points
}

/// The content length, in bytes, by which a record of a kind with
/// measures says that it holds none.
pub open spec fn spec_unmeasured_size(kind: ShapeType, num_parts: nat, num_points: nat) -> nat {
    if kind is MultiPointM {
        40 + 16 * num_points
    } else {
        40 + 4 * num_parts + 16 * num_points
    }
}

/// Decoding a polyline or a polygon whose tag ends at `at`: the geometry,
/// then the test of the declared content length against the counts.
pub open spec fn spec_decode_poly(
    bytes: Seq<u8>,
    at: int,
    content_length: i32,
    kind: ShapeType,
) -> Decoded {
    if !spec_geometry_fits(bytes, at, true) {
        spec_short(bytes)
    } else {
        let g = spec_geometry(bytes, at, true);
        Decoded {
            shape: if 2 * content_length == spec_declared_size(g.num_parts, g.num_points) {
                Ok(spec_assemble(kind, g, (0, 0), Seq::empty()))
            } else {
                Err(ShapefileError::InvalidContentLength)
            },
            end: at + spec_geometry_size(bytes, at, true),
        }
    }
}

/// Decoding a record of a kind with measures whose tag ends at `at`: the
/// geometry, then the measure range and one measure for each point, unless
/// the declared content length says that the record holds no measures;
/// the range and every measure are then zero.
pub open spec fn spec_decode_measured(
    bytes: Seq<u8>,
    at: int,
    content_length: i32,
    kind: ShapeType,
) -> Decoded {
    let with_parts = !(kind is MultiPointM);
    if !spec_geometry_fits(bytes, at, with_parts) {
        spec_short(bytes)
    } else {
        let g = spec_geometry(bytes, at, with_parts);
        let end = at + spec_geometry_size(bytes, at, with_parts);
        if 2 * content_length == spec_unmeasured_size(kind, g.num_parts, g.num_points) {
            Decoded {
                shape: Ok(spec_assemble(kind, g, (0, 0), Seq::new(g.num_points, |i: int| 0u64))),
                end,
            }
        } else if end + 16 + 8 * g.num_points <= bytes.len() {
            Decoded {
                shape: Ok(
                    spec_assemble(
                        kind,
                        g,
                        (spec_u64_le(bytes, end), spec_u64_le(bytes, end + 8)),
                        spec_measures(bytes, end + 16, g.num_points),
                    ),
                ),
                end: end + 16 + 8 * g.num_points,
            }
        } else {
            spec_short(bytes)
        }
    }
}

/// Decoding a point whose tag ends at `at`: x, then y.
pub open spec fn spec_decode_point(bytes: Seq<u8>, at: int) -> Decoded {
    if at + 16 <= bytes.len() {
        Decoded {
            shape: Ok(ShapeView::Point { x: spec_u64_le(bytes, at), y: spec_u64_le(bytes, at + 8) }),
            end: at + 16,
        }
    } else {
        spec_short(bytes)
    }
}

/// Decoding a point with height and measure whose tag ends at `at`: x, y,
/// z, then m.
pub open spec fn spec_decode_point_z(bytes: Seq<u8>, at: int) -> Decoded {
    if at + 32 <= bytes.len() {
        Decoded {
            shape: Ok(
                ShapeView::PointZ {
                    x: spec_u64_le(bytes, at),
                    y: spec_u64_le(bytes, at + 8),
                    z: spec_u64_le(bytes, at + 16),
                    m: spec_u64_le(bytes, at + 24),
                },
            ),
            end: at + 32,
        }
    } else {
        spec_short(bytes)
    }
}

/// Decoding a point with a measure whose tag ends at `at`: x, y, then m.
pub open spec fn spec_decode_point_m(bytes: Seq<u8>, at: int) -> Decoded {
    if at + 24 <= bytes.len() {
        Decoded {
            shape: Ok(
                ShapeView::PointM {
                    x: spec_u64_le(bytes, at),
                    y: spec_u64_le(bytes, at + 8),
                    m: spec_u64_le(bytes, at + 16),
                },
            ),
            end: at + 24,
        }
    } else {
        spec_short(bytes)
    }
}

/// Decoding a multi-point whose tag ends at `at`: a geometry without
/// parts. The declared content length is not looked at.
pub open spec fn spec_decode_multi_point(bytes: Seq<u8>, at: int) -> Decoded {
    if spec_geometry_fits(bytes, at, false) {
        Decoded {
            shape: Ok(
                spec_assemble(
                    ShapeType::MultiPoint,
                    spec_geometry(bytes, at, false),
                    (0, 0),
                    Seq::empty(),
                ),
            ),
            end: at + spec_geometry_size(bytes, at, false),
        }
    } else {
        spec_short(bytes)
    }
}

/// Decoding the payload of a record of kind `kind` whose tag ends at `at`.
/// The kinds whose payload is not decoded give `InvalidShapeType`.
pub open spec fn spec_decode_payload(
    bytes: Seq<u8>,
    at: int,
    content_length: i32,
    kind: ShapeType,
) -> Decoded {
    match kind {
        ShapeType::NullShape => Decoded { shape: Ok(ShapeView::NullShape), end: at },
        ShapeType::Point => spec_decode_point(bytes, at),
        ShapeType::PointZ => spec_decode_point_z(bytes, at),
        ShapeType::PointM => spec_decode_point_m(bytes, at),
        ShapeType::PolyLine | ShapeType::Polygon => spec_decode_poly(
            bytes,
            at,
            content_length,
            kind,
        ),
        ShapeType::MultiPoint => spec_decode_multi_point(bytes, at),
        ShapeType::PolyLineM | ShapeType::PolygonM | ShapeType::MultiPointM => {
            spec_decode_measured(bytes, at, content_length, kind)
        },
        ShapeType::PolyLineZ | ShapeType::PolygonZ | ShapeType::MultiPointZ
        | ShapeType::MultiMatch => Decoded {
            shape: Err(ShapefileError::InvalidShapeType),
            end: at,
        },
    }
}

/// Decoding the record body at `at`, for a record that declares
/// `content_length` words: the tag, then the payload of its kind.
///
/// A tag that stands for no kind, or for a kind whose payload is not
/// decoded, gives `InvalidShapeType`; bytes that end too early give
/// `UnexpectedEof`.
#[verifier::opaque]
pub open spec fn spec_decode_record(bytes: Seq<u8>, at: int, content_length: i32) -> Decoded {
    if at + 4 > bytes.len() {
        spec_short(bytes)
    } else {
        match ShapeType::spec_from_code(spec_i32_le(bytes, at)) {
            Some(kind) => spec_decode_payload(bytes, at + 4, content_length, kind),
            None => Decoded { shape: Err(ShapefileError::InvalidShapeType), end: at + 4 },
        }
    }
}

/// Decoding a record body never moves the position back nor beyond the
/// bytes, and a body that gives a shape holds at least its tag.
pub proof fn lemma_decode_record_end(bytes: Seq<u8>, at: int, content_length: i32)
    requires
        at <= bytes.len(),
    ensures
        at <= spec_decode_record(bytes, at, content_length).end <= bytes.len(),
        spec_decode_record(bytes, at, content_length).shape is Ok ==> at + 4 <= spec_decode_record(
            bytes,
            at,
            content_length,
        ).end,
{
    reveal(spec_decode_record);
}

/// A decoding result with the shape taken by its view.
pub open spec fn spec_outcome(r: Result<Shape, ShapefileError>) -> Result<
    ShapeView,
    ShapefileError,
> {
    match r {
        Ok(shape) => Ok(shape@),
        Err(e) => Err(e),
    }
}

/// Whether twice the content length equals `base + 4 * num_parts + 16 *
/// num_points`.
fn size_is(content_length: i32, base: u8, num_parts: usize, num_points: usize) -> (b: bool)
    ensures
        b == (2 * content_length == base + 4 * num_parts + 16 * num_points),
{
    content_length >= 0 && (content_length as u128) * 2 == (base as u128) + (num_parts as u128) * 4
        + (num_points as u128) * 16
}

/// Reads the measure block of a record with `num_points` points: the
/// range, then one measure for each point. With `skip` nothing is read,
/// and the range and every measure are zero.
fn read_measure_block(source: &mut ByteSource, skip: bool, num_points: usize) -> (r: Result<
    ([u64; 2], Vec<u64>),
    ShapefileError,
>)
    ensures
        final(source).bytes() == old(source).bytes(),
        match r {
            Ok(m) => {
                let at = old(source).position() as int;
                if skip {
                    &&& final(source).position() == at
                    &&& m.0@ == seq![0u64, 0u64]
                    &&& m.1@ == Seq::new(num_points as nat, |i: int| 0u64)
                } else {
                    &&& at + 16 + 8 * num_points <= old(source).bytes().len()
                    &&& final(source).position() == at + 16 + 8 * num_points
                    &&& m.0@ == seq![
                        spec_u64_le(old(source).bytes(), at),
                        spec_u64_le(old(source).bytes(), at + 8),
                    ]
                    &&& m.1@ == spec_measures(old(source).bytes(), at + 16, num_points as nat)
                }
            },
            Err(e) => {
                &&& e == ShapefileError::UnexpectedEof
                &&& !skip
                &&& old(source).position() + 16 + 8 * num_points > old(source).bytes().len()
                &&& final(source).position() == old(source).bytes().len()
            },
        },
{
    if skip {
        let m_array: Vec<u64> = vec![0u64; num_points];
        assert(m_array@ =~= Seq::new(num_points as nat, |i: int| 0u64));
        let m_range: [u64; 2] = [0, 0];
        assert(m_range@ =~= seq![0u64, 0u64]);
        return Ok((m_range, m_array));
    }
    let m_min: u64 = load_f64_bits(source)?;
    let m_max: u64 = load_f64_bits(source)?;
    let m_array: Vec<u64> = read_measures(source, num_points)?;
    let m_range: [u64; 2] = [m_min, m_max];
    assert(m_range@ =~= seq![m_min, m_max]);
    Ok((m_range, m_array))
}

/// Reads the payload of a point.
fn decode_point(source: &mut ByteSource) -> (r: Result<Shape, ShapefileError>)
    ensures
        final(source).bytes() == old(source).bytes(),
        ({
            let decoded = spec_decode_point(old(source).bytes(), old(source).position() as int);
            &&& final(source).position() == decoded.end
            &&& spec_outcome(r) == decoded.shape
        }),
{
    let x: u64 = load_f64_bits(source)?;
    let y: u64 = load_f64_bits(source)?;
    Ok(Shape::Point { x, y })
}

/// Reads the payload of a point with height and measure.
fn decode_point_z(source: &mut ByteSource) -> (r: Result<Shape, ShapefileError>)
    ensures
        final(source).bytes() == old(source).bytes(),
        ({
            let decoded = spec_decode_point_z(old(source).bytes(), old(source).position() as int);
            &&& final(source).position() == decoded.end
            &&& spec_outcome(r) == decoded.shape
        }),
{
    let x: u64 = load_f64_bits(source)?;
    let y: u64 = load_f64_bits(source)?;
    let z: u64 = load_f64_bits(source)?;
    let m: u64 = load_f64_bits(source)?;
    Ok(Shape::PointZ { x, y, z, m })
}

/// Reads the payload of a point with a measure.
fn decode_point_m(source: &mut ByteSource) -> (r: Result<Shape, ShapefileError>)
    ensures
        final(source).bytes() == old(source).bytes(),
        ({
            let decoded = spec_decode_point_m(old(source).bytes(), old(source).position() as int);
            &&& final(source).position() == decoded.end
            &&& spec_outcome(r) == decoded.shape
        }),
{
    let x: u64 = load_f64_bits(source)?;
    let y: u64 = load_f64_bits(source)?;
    let m: u64 = load_f64_bits(source)?;
    Ok(Shape::PointM { x, y, m })
}

/// Reads the payload of a multi-point.
fn decode_multi_point(source: &mut ByteSource) -> (r: Result<Shape, ShapefileError>)
    ensures
        final(source).bytes() == old(source).bytes(),
        ({
            let decoded = spec_decode_multi_point(
                old(source).bytes(),
                old(source).position() as int,
            );
            &&& final(source).position() == decoded.end
            &&& spec_outcome(r) == decoded.shape
        }),
{
    let g: Geometry = read_geometry(source, false)?;
    Ok(Shape::MultiPoint { bb: g.bb, num_points: g.num_points, points: g.points })
}

/// Reads the payload of a polyline or a polygon and holds the declared
/// content length against its counts.
fn decode_poly(source: &mut ByteSource, content_length: i32, kind: ShapeType) -> (r: Result<
    Shape,
    ShapefileError,
>)
    requires
        kind is PolyLine || kind is Polygon,
    ensures
        final(source).bytes() == old(source).bytes(),
        ({
            let decoded = spec_decode_poly(
                old(source).bytes(),
                old(source).position() as int,
                content_length,
                kind,
            );
            &&& final(source).position() == decoded.end
            &&& spec_outcome(r) == decoded.shape
        }),
{
    let g: Geometry = read_geometry(source, true)?;
    if !size_is(content_length, 44, g.num_parts, g.num_points) {
        return Err(ShapefileError::InvalidContentLength);
    }
    match kind {
        ShapeType::PolyLine => Ok(
            Shape::PolyLine {
                bb: g.bb,
                num_parts: g.num_parts,
                num_points: g.num_points,
                parts: g.parts,
                points: g.points,
            },
        ),
        _ => Ok(
            Shape::Polygon {
                bb: g.bb,
                num_parts: g.num_parts,
                num_points: g.num_points,
                parts: g.parts,
                points: g.points,
            },
        ),
    }
}

/// Reads the payload of a record of a kind with measures: the geometry,
/// and the measure block unless the declared content length says that
/// there is none.
fn decode_measured(source: &mut ByteSource, content_length: i32, kind: ShapeType) -> (r: Result<
    Shape,
    ShapefileError,
>)
    requires
        kind is PolyLineM || kind is PolygonM || kind is MultiPointM,
    ensures
        final(source).bytes() == old(source).bytes(),
        ({
            let decoded = spec_decode_measured(
                old(source).bytes(),
                old(source).position() as int,
                content_length,
                kind,
            );
            &&& final(source).position() == decoded.end
            &&& spec_outcome(r) == decoded.shape
        }),
{
    let with_parts: bool = match kind {
        ShapeType::MultiPointM => false,
        _ => true,
    };
    let g: Geometry = read_geometry(source, with_parts)?;
    let unmeasured: bool = size_is(content_length, 40, g.num_parts, g.num_points);
    let m: ([u64; 2], Vec<u64>) = read_measure_block(source, unmeasured, g.num_points)?;
    match kind {
        ShapeType::PolyLineM => Ok(
            Shape::PolyLineM {
                bb: g.bb,
                num_parts: g.num_parts,
                num_points: g.num_points,
                parts: g.parts,
                points: g.points,
                m_range: m.0,
                m_array: m.1,
            },
        ),
        ShapeType::PolygonM => Ok(
            Shape::PolygonM {
                bb: g.bb,
                num_parts: g.num_parts,
                num_points: g.num_points,
                parts: g.parts,
                points: g.points,
                m_range: m.0,
                m_array: m.1,
            },
        ),
        _ => Ok(
            Shape::MultiPointM {
                bb: g.bb,
                num_points: g.num_points,
                points: g.points,
                m_range: m.0,
                m_array: m.1,
            },
        ),
    }
}

/// Decodes one record body from the source's position, for a record that
/// declares `content_length` words: reads the shape type tag and then the
/// payload of that kind.
///
/// A polyline or polygon whose content length disagrees with its counts
/// is refused with `InvalidContentLength`, after its geometry was read.
pub fn decode_record(source: &mut ByteSource, content_length: i32) -> (r: Result<
    Shape,
    ShapefileError,
>)
    ensures
        final(source).bytes() == old(source).bytes(),
        ({
            let decoded = spec_decode_record(
                old(source).bytes(),
                old(source).position() as int,
                content_length,
            );
            &&& final(source).position() == decoded.end
            &&& spec_outcome(r) == decoded.shape
        }),
{
    proof {
        reveal(spec_decode_record);
    }
    let tag: i32 = load_i32_le(source)?;
    let kind: ShapeType = ShapeType::from_code(tag)?;
    match kind {
        ShapeType::NullShape => Ok(Shape::NullShape),
        ShapeType::Point => decode_point(source),
        ShapeType::PointZ => decode_point_z(source),
        ShapeType::PointM => decode_point_m(source),
        ShapeType::PolyLine | ShapeType::Polygon => decode_poly(source, content_length, kind),
        ShapeType::MultiPoint => decode_multi_point(source),
        ShapeType::PolyLineM | ShapeType::PolygonM | ShapeType::MultiPointM => decode_measured(
            source,
            content_length,
            kind,
        ),
        ShapeType::PolyLineZ | ShapeType::PolygonZ | ShapeType::MultiPointZ
        | ShapeType::MultiMatch => Err(ShapefileError::InvalidShapeType),
    }
}

} // verus!
