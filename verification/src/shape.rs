//! The geometry that a shapefile record holds.
//!
//! Every coordinate and measure is kept as the 64-bit pattern of its
//! IEEE-754 encoding, exactly as it stands in the file; `f64::from_bits`
//! turns a pattern into the number.

use vstd::prelude::*;
use crate::error::ShapefileError;
use crate::source::{load_f64_bits, spec_u64_le, ByteSource};

verus! {

/// A vertex: the bit patterns of its two coordinates.
#[derive(Debug, Clone, Copy, PartialEq, Eq, Structural)]
pub struct Point {
    pub x: u64,
    pub y: u64,
}

/// The extent of a file or of a record, as the bit patterns of its four
/// bounds. Nothing is checked of them: `xmin` may exceed `xmax`.
#[derive(Debug, Clone, Copy, PartialEq, Eq, Structural)]
pub struct BoundingBox {
    pub xmin: u64,
    pub ymin: u64,
    pub xmax: u64,
    pub ymax: u64,
}

/// The vertex encoded in the sixteen bytes at `at`.
pub open spec fn spec_point(bytes: Seq<u8>, at: int) -> Point {
    Point { x: spec_u64_le(bytes, at), y: spec_u64_le(bytes, at + 8) }
}

/// The bounding box encoded in the thirty-two bytes at `at`.
pub open spec fn spec_bounding_box(bytes: Seq<u8>, at: int) -> BoundingBox {
    BoundingBox {
        xmin: spec_u64_le(bytes, at),
        ymin: spec_u64_le(bytes, at + 8),
        xmax: spec_u64_le(bytes, at + 16),
        ymax: spec_u64_le(bytes, at + 24),
    }
}

impl BoundingBox {
    /// Reads the four bounds in file order: xmin, ymin, xmax, ymax.
    ///
    /// With fewer than thirty-two bytes left the read fails and the source
    /// is left exhausted.
    pub fn load(source: &mut ByteSource) -> (r: Result<BoundingBox, ShapefileError>)
        ensures
            final(source).bytes() == old(source).bytes(),
            match r {
                Ok(bb) => {
                    &&& old(source).position() + 32 <= old(source).bytes().len()
                    &&& final(source).position() == old(source).position() + 32
                    &&& bb == spec_bounding_box(old(source).bytes(), old(source).position() as int)
                },
                Err(e) => {
                    &&& e == ShapefileError::UnexpectedEof
                    &&& old(source).position() + 32 > old(source).bytes().len()
                    &&& final(source).position() == old(source).bytes().len()
                },
            },
    {
        let xmin: u64 = load_f64_bits(source)?;
        let ymin: u64 = load_f64_bits(source)?;
        let xmax: u64 = load_f64_bits(source)?;
        let ymax: u64 = load_f64_bits(source)?;
        Ok(BoundingBox { xmin, ymin, xmax, ymax })
    }
}

/// The kind of a shape, without its payload: what a type code stands for.
#[derive(Debug, Clone, Copy, PartialEq, Eq, Structural)]
pub enum ShapeType {
    NullShape,
    Point,
    PolyLine,
    Polygon,
    MultiPoint,
    PointZ,
    PolyLineZ,
    PolygonZ,
    MultiPointZ,
    PointM,
    PolyLineM,
    PolygonM,
    MultiPointM,
    MultiMatch,
}

impl ShapeType {
    /// The code that stands for this kind in a file.
    pub open spec fn spec_code(self) -> i32 {
        match self {
            ShapeType::NullShape => 0i32,
            ShapeType::Point => 1i32,
            ShapeType::PolyLine => 3i32,
            ShapeType::Polygon => 5i32,
            ShapeType::MultiPoint => 8i32,
            ShapeType::PointZ => 11i32,
            ShapeType::PolyLineZ => 13i32,
            ShapeType::PolygonZ => 15i32,
            ShapeType::MultiPointZ => 18i32,
            ShapeType::PointM => 21i32,
            ShapeType::PolyLineM => 23i32,
            ShapeType::PolygonM => 25i32,
            ShapeType::MultiPointM => 28i32,
            ShapeType::MultiMatch => 31i32,
        }
    }

    /// The kind that a code stands for, if it stands for one.
    pub open spec fn spec_from_code(code: i32) -> Option<ShapeType> {
        if code == 0 {
            Some(ShapeType::NullShape)
        } else if code == 1 {
            Some(ShapeType::Point)
        } else if code == 3 {
            Some(ShapeType::PolyLine)
        } else if code == 5 {
            Some(ShapeType::Polygon)
        } else if code == 8 {
            Some(ShapeType::MultiPoint)
        } else if code == 11 {
            Some(ShapeType::PointZ)
        } else if code == 13 {
            Some(ShapeType::PolyLineZ)
        } else if code == 15 {
            Some(ShapeType::PolygonZ)
        } else if code == 18 {
            Some(ShapeType::MultiPointZ)
        } else if code == 21 {
            Some(ShapeType::PointM)
        } else if code == 23 {
            Some(ShapeType::PolyLineM)
        } else if code == 25 {
            Some(ShapeType::PolygonM)
        } else if code == 28 {
            Some(ShapeType::MultiPointM)
        } else if code == 31 {
            Some(ShapeType::MultiMatch)
        } else {
            None
        }
    }

    /// Whether the record decoder reads the payload of this kind. The
    /// three Z kinds with parts or several points, and `MultiMatch`, are
    /// known by their code only.
    pub open spec fn spec_is_decoded(self) -> bool {
        !(self is PolyLineZ || self is PolygonZ || self is MultiPointZ || self is MultiMatch)
    }

    /// The code that stands for this kind in a file.
    pub fn code(self) -> (c: i32)
        ensures
            c == self.spec_code(),
    {
        match self {
            ShapeType::NullShape => 0,
            ShapeType::Point => 1,
            ShapeType::PolyLine => 3,
            ShapeType::Polygon => 5,
            ShapeType::MultiPoint => 8,
            ShapeType::PointZ => 11,
            ShapeType::PolyLineZ => 13,
            ShapeType::PolygonZ => 15,
            ShapeType::MultiPointZ => 18,
            ShapeType::PointM => 21,
            ShapeType::PolyLineM => 23,
            ShapeType::PolygonM => 25,
            ShapeType::MultiPointM => 28,
            ShapeType::MultiMatch => 31,
        }
    }

    /// The kind that `code` stands for; `InvalidShapeType` for a code that
    /// stands for none.
    pub fn from_code(code: i32) -> (r: Result<ShapeType, ShapefileError>)
        ensures
            match r {
                Ok(t) => ShapeType::spec_from_code(code) == Some(t),
                Err(e) => e == ShapefileError::InvalidShapeType && ShapeType::spec_from_code(
                    code,
                ) is None,
            },
    {
        match code {
            0 => Ok(ShapeType::NullShape),
            1 => Ok(ShapeType::Point),
            3 => Ok(ShapeType::PolyLine),
            5 => Ok(ShapeType::Polygon),
            8 => Ok(ShapeType::MultiPoint),
            11 => Ok(ShapeType::PointZ),
            13 => Ok(ShapeType::PolyLineZ),
            15 => Ok(ShapeType::PolygonZ),
            18 => Ok(ShapeType::MultiPointZ),
            21 => Ok(ShapeType::PointM),
            23 => Ok(ShapeType::PolyLineM),
            25 => Ok(ShapeType::PolygonM),
            28 => Ok(ShapeType::MultiPointM),
            31 => Ok(ShapeType::MultiMatch),
            _ => Err(ShapefileError::InvalidShapeType),
        }
    }

    /// Whether the record decoder reads the payload of this kind.
    pub fn is_decoded(self) -> (b: bool)
        ensures
            b == self.spec_is_decoded(),
    {
        match self {
            ShapeType::PolyLineZ | ShapeType::PolygonZ | ShapeType::MultiPointZ
            | ShapeType::MultiMatch => false,
            _ => true,
        }
    }
}

/// One decoded record.
///
/// `parts` holds, for each part, the index in `points` at which it starts.
/// `m_range` is the least and the greatest measure; `m_array` holds one
/// measure for each point.
#[derive(Debug, PartialEq, Eq)]
pub enum Shape {
    NullShape,
    Point { x: u64, y: u64 },
    PolyLine {
        bb: BoundingBox,
        num_parts: usize,
        num_points: usize,
        parts: Vec<usize>,
        points: Vec<Point>,
    },
    Polygon {
        bb: BoundingBox,
        num_parts: usize,
        num_points: usize,
        parts: Vec<usize>,
        points: Vec<Point>,
    },
    MultiPoint { bb: BoundingBox, num_points: usize, points: Vec<Point> },
    PointZ { x: u64, y: u64, z: u64, m: u64 },
    PolyLineZ,
    PolygonZ,
    MultiPointZ,
    PointM { x: u64, y: u64, m: u64 },
    PolyLineM {
        bb: BoundingBox,
        num_parts: usize,
        num_points: usize,
        parts: Vec<usize>,
        points: Vec<Point>,
        m_range: [u64; 2],
        m_array: Vec<u64>,
    },
    PolygonM {
        bb: BoundingBox,
        num_parts: usize,
        num_points: usize,
        parts: Vec<usize>,
        points: Vec<Point>,
        m_range: [u64; 2],
        m_array: Vec<u64>,
    },
    MultiPointM {
        bb: BoundingBox,
        num_points: usize,
        points: Vec<Point>,
        m_range: [u64; 2],
        m_array: Vec<u64>,
    },
    MultiMatch,
}

/// What a `Shape` holds, as mathematical values.
pub ghost enum ShapeView {
    NullShape,
    Point { x: u64, y: u64 },
    PolyLine { bb: BoundingBox, num_parts: nat, num_points: nat, parts: Seq<usize>, points: Seq<Point> },
    Polygon { bb: BoundingBox, num_parts: nat, num_points: nat, parts: Seq<usize>, points: Seq<Point> },
    MultiPoint { bb: BoundingBox, num_points: nat, points: Seq<Point> },
    PointZ { x: u64, y: u64, z: u64, m: u64 },
    PolyLineZ,
    PolygonZ,
    MultiPointZ,
    PointM { x: u64, y: u64, m: u64 },
    PolyLineM {
        bb: BoundingBox,
        num_parts: nat,
        num_points: nat,
        parts: Seq<usize>,
        points: Seq<Point>,
        m_range: (u64, u64),
        m_array: Seq<u64>,
    },
    PolygonM {
        bb: BoundingBox,
        num_parts: nat,
        num_points: nat,
        parts: Seq<usize>,
        points: Seq<Point>,
        m_range: (u64, u64),
        m_array: Seq<u64>,
    },
    MultiPointM {
        bb: BoundingBox,
        num_points: nat,
        points: Seq<Point>,
        m_range: (u64, u64),
        m_array: Seq<u64>,
    },
    MultiMatch,
}

impl ShapeView {
    /// The kind of this shape.
    pub open spec fn shape_type(self) -> ShapeType {
        match self {
            ShapeView::NullShape => ShapeType::NullShape,
            ShapeView::Point { .. } => ShapeType::Point,
            ShapeView::PolyLine { .. } => ShapeType::PolyLine,
            ShapeView::Polygon { .. } => ShapeType::Polygon,
            ShapeView::MultiPoint { .. } => ShapeType::MultiPoint,
            ShapeView::PointZ { .. } => ShapeType::PointZ,
            ShapeView::PolyLineZ => ShapeType::PolyLineZ,
            ShapeView::PolygonZ => ShapeType::PolygonZ,
            ShapeView::MultiPointZ => ShapeType::MultiPointZ,
            ShapeView::PointM { .. } => ShapeType::PointM,
            ShapeView::PolyLineM { .. } => ShapeType::PolyLineM,
            ShapeView::PolygonM { .. } => ShapeType::PolygonM,
            ShapeView::MultiPointM { .. } => ShapeType::MultiPointM,
            ShapeView::MultiMatch => ShapeType::MultiMatch,
        }
    }

    /// Whether the counts agree with the sequences beside them: as many
    /// parts as `num_parts`, as many points and measures as `num_points`.
    pub open spec fn counts_agree(self) -> bool {
        match self {
            ShapeView::PolyLine { num_parts, num_points, parts, points, .. }
            | ShapeView::Polygon { num_parts, num_points, parts, points, .. } => {
                parts.len() == num_parts && points.len() == num_points
            },
            ShapeView::MultiPoint { num_points, points, .. } => points.len() == num_points,
            ShapeView::PolyLineM { num_parts, num_points, parts, points, m_array, .. }
            | ShapeView::PolygonM { num_parts, num_points, parts, points, m_array, .. } => {
                parts.len() == num_parts && points.len() == num_points && m_array.len()
                    == num_points
            },
            ShapeView::MultiPointM { num_points, points, m_array, .. } => {
                points.len() == num_points && m_array.len() == num_points
            },
            _ => true,
        }
    }
}

impl View for Shape {
    type V = ShapeView;

    open spec fn view(&self) -> ShapeView {
        match self {
            Shape::NullShape => ShapeView::NullShape,
            Shape::Point { x, y } => ShapeView::Point { x: *x, y: *y },
            Shape::PolyLine { bb, num_parts, num_points, parts, points } => ShapeView::PolyLine {
                bb: *bb,
                num_parts: *num_parts as nat,
                num_points: *num_points as nat,
                parts: parts@,
                points: points@,
            },
            Shape::Polygon { bb, num_parts, num_points, parts, points } => ShapeView::Polygon {
                bb: *bb,
                num_parts: *num_parts as nat,
                num_points: *num_points as nat,
                parts: parts@,
                points: points@,
            },
            Shape::MultiPoint { bb, num_points, points } => ShapeView::MultiPoint {
                bb: *bb,
                num_points: *num_points as nat,
                points: points@,
            },
            Shape::PointZ { x, y, z, m } => ShapeView::PointZ { x: *x, y: *y, z: *z, m: *m },
            Shape::PolyLineZ => ShapeView::PolyLineZ,
            Shape::PolygonZ => ShapeView::PolygonZ,
            Shape::MultiPointZ => ShapeView::MultiPointZ,
            Shape::PointM { x, y, m } => ShapeView::PointM { x: *x, y: *y, m: *m },
            Shape::PolyLineM {
                bb,
                num_parts,
                num_points,
                parts,
                points,
                m_range,
                m_array,
            } => ShapeView::PolyLineM {
                bb: *bb,
                num_parts: *num_parts as nat,
                num_points: *num_points as nat,
                parts: parts@,
                points: points@,
                m_range: (m_range@[0], m_range@[1]),
                m_array: m_array@,
            },
            Shape::PolygonM {
                bb,
                num_parts,
                num_points,
                parts,
                points,
                m_range,
                m_array,
            } => ShapeView::PolygonM {
                bb: *bb,
                num_parts: *num_parts as nat,
                num_points: *num_points as nat,
                parts: parts@,
                points: points@,
                m_range: (m_range@[0], m_range@[1]),
                m_array: m_array@,
            },
            Shape::MultiPointM { bb, num_points, points, m_range, m_array } => {
                ShapeView::MultiPointM {
                    bb: *bb,
                    num_points: *num_points as nat,
                    points: points@,
                    m_range: (m_range@[0], m_range@[1]),
                    m_array: m_array@,
                }
            },
            Shape::MultiMatch => ShapeView::MultiMatch,
        }
    }
}

impl Clone for Shape {
    /// A shape that holds the same values.
    fn clone(&self) -> (copy: Shape)
        ensures
            copy@ == self@,
    {
        match self {
            Shape::NullShape => Shape::NullShape,
            Shape::Point { x, y } => Shape::Point { x: *x, y: *y },
            Shape::PolyLine { bb, num_parts, num_points, parts, points } => Shape::PolyLine {
                bb: *bb,
                num_parts: *num_parts,
                num_points: *num_points,
                parts: parts.clone(),
                points: points.clone(),
            },
            Shape::Polygon { bb, num_parts, num_points, parts, points } => Shape::Polygon {
                bb: *bb,
                num_parts: *num_parts,
                num_points: *num_points,
                parts: parts.clone(),
                points: points.clone(),
            },
            Shape::MultiPoint { bb, num_points, points } => Shape::MultiPoint {
                bb: *bb,
                num_points: *num_points,
                points: points.clone(),
            },
            Shape::PointZ { x, y, z, m } => Shape::PointZ { x: *x, y: *y, z: *z, m: *m },
            Shape::PolyLineZ => Shape::PolyLineZ,
            Shape::PolygonZ => Shape::PolygonZ,
            Shape::MultiPointZ => Shape::MultiPointZ,
            Shape::PointM { x, y, m } => Shape::PointM { x: *x, y: *y, m: *m },
            Shape::PolyLineM {
                bb,
                num_parts,
                num_points,
                parts,
                points,
                m_range,
                m_array,
            } => Shape::PolyLineM {
                bb: *bb,
                num_parts: *num_parts,
                num_points: *num_points,
                parts: parts.clone(),
                points: points.clone(),
                m_range: *m_range,
                m_array: m_array.clone(),
            },
            Shape::PolygonM {
                bb,
                num_parts,
                num_points,
                parts,
                points,
                m_range,
                m_array,
            } => Shape::PolygonM {
                bb: *bb,
                num_parts: *num_parts,
                num_points: *num_points,
                parts: parts.clone(),
                points: points.clone(),
                m_range: *m_range,
                m_array: m_array.clone(),
            },
            Shape::MultiPointM { bb, num_points, points, m_range, m_array } => {
                Shape::MultiPointM {
                    bb: *bb,
                    num_points: *num_points,
                    points: points.clone(),
                    m_range: *m_range,
                    m_array: m_array.clone(),
                }
            },
            Shape::MultiMatch => Shape::MultiMatch,
        }
    }
}

impl Shape {
    /// The kind of this shape.
    pub fn shape_type(&self) -> (t: ShapeType)
        ensures
            t == self@.shape_type(),
    {
        match self {
            Shape::NullShape => ShapeType::NullShape,
            Shape::Point { .. } => ShapeType::Point,
            Shape::PolyLine { .. } => ShapeType::PolyLine,
            Shape::Polygon { .. } => ShapeType::Polygon,
            Shape::MultiPoint { .. } => ShapeType::MultiPoint,
            Shape::PointZ { .. } => ShapeType::PointZ,
            Shape::PolyLineZ => ShapeType::PolyLineZ,
            Shape::PolygonZ => ShapeType::PolygonZ,
            Shape::MultiPointZ => ShapeType::MultiPointZ,
            Shape::PointM { .. } => ShapeType::PointM,
            Shape::PolyLineM { .. } => ShapeType::PolyLineM,
            Shape::PolygonM { .. } => ShapeType::PolygonM,
            Shape::MultiPointM { .. } => ShapeType::MultiPointM,
            Shape::MultiMatch => ShapeType::MultiMatch,
        }
    }

    /// The code that stands for this shape's kind in a file.
    pub fn type_code(&self) -> (c: i32)
        ensures
            c == self@.shape_type().spec_code(),
    {
        self.shape_type().code()
    }
}

/// The conversion of a shape to the code of its kind.
impl From<Shape> for i32 {
    fn from(shape: Shape) -> (code: i32) {
        shape.type_code()
    }
}

impl vstd::std_specs::convert::FromSpecImpl<Shape> for i32 {
    open spec fn obeys_from_spec() -> bool {
        true
    }

    open spec fn from_spec(shape: Shape) -> i32 {
        shape@.shape_type().spec_code()
    }
}

} // verus!
