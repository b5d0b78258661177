//! What holds of the decoder as a whole, proved from the definitions of
//! the other modules.

use vstd::prelude::*;
use crate::error::ShapefileError;
use crate::reader::{
    lemma_pull_advances,
    spec_budget,
    spec_file_length,
    spec_fixed_fields_valid,
    spec_header_fault,
    spec_next,
    spec_reserved_fault,
    spec_run,
    HEADER_BYTES,
    HEADER_WORDS,
};
use crate::record::{
    spec_decode_record,
    spec_geometry,
    spec_geometry_fits,
    spec_geometry_size,
    spec_measures,
};
use crate::shape::{ShapeType, ShapeView};
use crate::source::{spec_i32_be, spec_i32_le, spec_u64_le};

verus! {

/// The reserved fields from the `k`-th on are without fault exactly when
/// all of them are there and each is zero. Their fault is a missing field
/// or `InvalidFile`, and no missing field where all of them are there.
proof fn lemma_reserved(bytes: Seq<u8>, k: int)
    requires
        0 <= k <= 5,
    ensures
        spec_reserved_fault(bytes, k) is None <==> (k == 5 || bytes.len() >= 24) && forall|j: int|
            k <= j < 5 ==> #[trigger] spec_i32_be(bytes, 4 + 4 * j) == 0,
        bytes.len() >= 24 ==> spec_reserved_fault(bytes, k) != Some(ShapefileError::UnexpectedEof),
        spec_reserved_fault(bytes, k) is Some ==> spec_reserved_fault(bytes, k) == Some(
            ShapefileError::UnexpectedEof,
        ) || spec_reserved_fault(bytes, k) == Some(ShapefileError::InvalidFile),
    decreases 5 - k,
{
    if k < 5 {
        lemma_reserved(bytes, k + 1);
    }
}

/// A header is valid exactly when its hundred bytes are all there, the
/// file code is 9994, each of the five reserved fields is 0 and the
/// version is 1000.
pub proof fn lemma_valid_header(bytes: Seq<u8>)
    ensures
        spec_header_fault(bytes) is None <==> bytes.len() >= HEADER_BYTES
            && spec_fixed_fields_valid(bytes),
{
    lemma_reserved(bytes, 0);
}

/// In a header whose hundred bytes are all there, a wrong file code, a
/// reserved field that is not zero or a wrong version gives `InvalidFile`,
/// and nothing else does.
pub proof fn lemma_deviation_is_invalid_file(bytes: Seq<u8>)
    requires
        bytes.len() >= HEADER_BYTES,
    ensures
        !spec_fixed_fields_valid(bytes) <==> spec_header_fault(bytes) == Some(
            ShapefileError::InvalidFile,
        ),
{
    lemma_reserved(bytes, 0);
}

/// The budget is charged for every record whose header was read, and for
/// nothing else. A run that does not end with `InvalidShapeType` leaves
/// of the budget what the records, the failing one included, have not
/// taken; one that ends with it leaves none. A run that ends without an
/// error has used the budget up: the content lengths of its records, with
/// four words for each record header, add up to the budget that it began
/// with.
pub proof fn lemma_run_accounts_for_budget(bytes: Seq<u8>, position: int, remaining: int)
    ensures
        ({
            let run = spec_run(bytes, position, remaining);
            &&& run.error != Some(ShapefileError::InvalidShapeType) ==> run.remaining + run.words
                == remaining
            &&& run.error == Some(ShapefileError::InvalidShapeType) ==> run.remaining == 0
            &&& run.error is None ==> run.remaining == 0 && run.words == remaining
        }),
    decreases bytes.len() - position,
{
    reveal(spec_run);
    let pulled = spec_next(bytes, position, remaining);
    if pulled.item is Some && pulled.item->0 is Ok {
        lemma_pull_advances(bytes, position, remaining);
        lemma_run_accounts_for_budget(bytes, pulled.position, pulled.remaining);
    }
}

/// For a file with a valid header that declares a length of `L` words: if
/// the records are decoded to the end without an error, their content
/// lengths, with four words for each record header, add up to `L - 50`.
/// If decoding ends with an error other than `InvalidShapeType`, they add
/// up to `L - 50` together with the budget that is left.
pub proof fn lemma_file_length_accounted(bytes: Seq<u8>)
    requires
        spec_header_fault(bytes) is None,
    ensures
        ({
            let run = spec_run(bytes, HEADER_BYTES as int, spec_budget(bytes));
            &&& run.error is None ==> run.words == spec_file_length(bytes) - HEADER_WORDS
            &&& run.error != Some(ShapefileError::InvalidShapeType) ==> run.words + run.remaining
                == spec_file_length(bytes) - HEADER_WORDS
        }),
{
    lemma_run_accounts_for_budget(bytes, HEADER_BYTES as int, spec_budget(bytes));
}

/// Every kind is found again from its code.
pub proof fn lemma_code_round_trip(kind: ShapeType)
    ensures
        ShapeType::spec_from_code(kind.spec_code()) == Some(kind),
{
}

/// A code that stands for a kind is that kind's code: the codes are 0, 1,
/// 3, 5, 8, 11, 13, 15, 18, 21, 23, 25, 28 and 31, and no other.
pub proof fn lemma_kind_round_trip(code: i32)
    ensures
        match ShapeType::spec_from_code(code) {
            Some(kind) => kind.spec_code() == code,
            None => code != 0 && code != 1 && code != 3 && code != 5 && code != 8 && code != 11
                && code != 13 && code != 15 && code != 18 && code != 21 && code != 23 && code
                != 25 && code != 28 && code != 31,
        },
{
}

/// A decoded shape is of the kind that its tag stands for: its type code
/// is the tag that the record carries, and the tag leads back to its
/// kind. No shape comes from a record that holds less than its tag or
/// from one of the kinds whose payload is not decoded; `InvalidShapeType`
/// comes from those kinds and from a tag that stands for no kind, and from
/// nothing else.
pub proof fn lemma_decoded_shape_has_its_tag(bytes: Seq<u8>, at: int, content_length: i32)
    ensures
        match spec_decode_record(bytes, at, content_length).shape {
            Ok(shape) => {
                &&& at + 4 <= bytes.len()
                &&& shape.shape_type().spec_code() == spec_i32_le(bytes, at)
                &&& ShapeType::spec_from_code(spec_i32_le(bytes, at)) == Some(shape.shape_type())
                &&& shape.shape_type().spec_is_decoded()
            },
            Err(e) => e == ShapefileError::InvalidShapeType <==> at + 4 <= bytes.len() && (
            match ShapeType::spec_from_code(spec_i32_le(bytes, at)) {
                Some(kind) => !kind.spec_is_decoded(),
                None => true,
            }),
        },
{
    reveal(spec_decode_record);
}

/// A decoded shape holds as many parts as its part count says, and as
/// many points and measures as its point count says.
pub proof fn lemma_decoded_counts_agree(bytes: Seq<u8>, at: int, content_length: i32)
    ensures
        match spec_decode_record(bytes, at, content_length).shape {
            Ok(shape) => shape.counts_agree(),
            Err(_) => true,
        },
{
    reveal(spec_decode_record);
}

/// A polyline or polygon record gives a shape exactly when its geometry
/// fits the bytes and twice its content length is 44 and four for each
/// part and sixteen for each point. Where only the content length is
/// wrong, the record is refused with `InvalidContentLength`.
pub proof fn lemma_poly_content_length(bytes: Seq<u8>, at: int, content_length: i32)
    requires
        at + 4 <= bytes.len(),
        spec_i32_le(bytes, at) == 3 || spec_i32_le(bytes, at) == 5,
    ensures
        ({
            let decoded = spec_decode_record(bytes, at, content_length);
            let g = spec_geometry(bytes, at + 4, true);
            let fits = spec_geometry_fits(bytes, at + 4, true);
            let sizes_agree = 2 * content_length == 44 + 4 * g.num_parts + 16 * g.num_points;
            &&& decoded.shape is Ok <==> fits && sizes_agree
            &&& fits && !sizes_agree ==> decoded.shape == Err::<ShapeView, ShapefileError>(
                ShapefileError::InvalidContentLength,
            )
            &&& !fits ==> decoded.shape == Err::<ShapeView, ShapefileError>(
                ShapefileError::UnexpectedEof,
            )
            &&& decoded.shape is Ok ==> match decoded.shape->Ok_0 {
                ShapeView::PolyLine { bb, num_parts, num_points, parts, points } => {
                    &&& spec_i32_le(bytes, at) == 3
                    &&& 2 * content_length == 44 + 4 * num_parts + 16 * num_points
                    &&& bb == g.bb && num_parts == g.num_parts && num_points == g.num_points
                    &&& parts == g.parts && points == g.points
                },
                ShapeView::Polygon { bb, num_parts, num_points, parts, points } => {
                    &&& spec_i32_le(bytes, at) == 5
                    &&& 2 * content_length == 44 + 4 * num_parts + 16 * num_points
                    &&& bb == g.bb && num_parts == g.num_parts && num_points == g.num_points
                    &&& parts == g.parts && points == g.points
                },
                _ => false,
            }
        }),
{
    reveal(spec_decode_record);
}

/// The measures that a shape holds, if it is of a kind that holds some:
/// the range and the measure of each point.
pub open spec fn spec_measures_of(shape: ShapeView) -> Option<((u64, u64), Seq<u64>)> {
    match shape {
        ShapeView::PolyLineM { m_range, m_array, .. } => Some((m_range, m_array)),
        ShapeView::PolygonM { m_range, m_array, .. } => Some((m_range, m_array)),
        ShapeView::MultiPointM { m_range, m_array, .. } => Some((m_range, m_array)),
        _ => None,
    }
}

/// The number of points that a shape says it holds; zero for a kind that
/// has no point count.
pub open spec fn spec_num_points_of(shape: ShapeView) -> nat {
    match shape {
        ShapeView::PolyLine { num_points, .. } => num_points,
        ShapeView::Polygon { num_points, .. } => num_points,
        ShapeView::MultiPoint { num_points, .. } => num_points,
        ShapeView::PolyLineM { num_points, .. } => num_points,
        ShapeView::PolygonM { num_points, .. } => num_points,
        ShapeView::MultiPointM { num_points, .. } => num_points,
        _ => 0,
    }
}

/// In a record of a kind with measures whose geometry fits the bytes, the
/// content length alone decides whether measures are read. Where twice
/// the content length is the size without measures (40 and sixteen for
/// each point, and four for each part of a polyline or polygon), the
/// shape has the range 0 to 0 and a zero measure for each point, and
/// nothing is read after the geometry. For any other content length the
/// range and the measures are the ones that follow the geometry in the
/// bytes, and the record is refused with `UnexpectedEof` where they do
/// not all follow.
pub proof fn lemma_measures_by_content_length(bytes: Seq<u8>, at: int, content_length: i32)
    requires
        at + 4 <= bytes.len(),
        spec_i32_le(bytes, at) == 23 || spec_i32_le(bytes, at) == 25 || spec_i32_le(bytes, at)
            == 28,
        spec_geometry_fits(bytes, at + 4, spec_i32_le(bytes, at) != 28),
    ensures
        ({
            let with_parts = spec_i32_le(bytes, at) != 28;
            let kind = ShapeType::spec_from_code(spec_i32_le(bytes, at))->0;
            let decoded = spec_decode_record(bytes, at, content_length);
            let g = spec_geometry(bytes, at + 4, with_parts);
            let end = at + 4 + spec_geometry_size(bytes, at + 4, with_parts);
            let unmeasured = if with_parts {
                40 + 4 * g.num_parts + 16 * g.num_points
            } else {
                40 + 16 * g.num_points
            };
            if 2 * content_length == unmeasured {
                &&& decoded.shape is Ok
                &&& decoded.end == end
                &&& decoded.shape->Ok_0.shape_type() == kind
                &&& spec_num_points_of(decoded.shape->Ok_0) == g.num_points
                &&& spec_measures_of(decoded.shape->Ok_0) == Some(
                    ((0u64, 0u64), Seq::new(g.num_points, |i: int| 0u64)),
                )
            } else if end + 16 + 8 * g.num_points <= bytes.len() {
                &&& decoded.shape is Ok
                &&& decoded.end == end + 16 + 8 * g.num_points
                &&& decoded.shape->Ok_0.shape_type() == kind
                &&& spec_num_points_of(decoded.shape->Ok_0) == g.num_points
                &&& spec_measures_of(decoded.shape->Ok_0) == Some(
                    (
                        (spec_u64_le(bytes, end), spec_u64_le(bytes, end + 8)),
                        spec_measures(bytes, end + 16, g.num_points),
                    ),
                )
            } else {
                decoded.shape == Err::<ShapeView, ShapefileError>(ShapefileError::UnexpectedEof)
            }
        }),
{
    reveal(spec_decode_record);
}

/// What is decoded depends on the bytes alone: two files that agree byte
/// for byte have the same header fault, begin with the same budget and
/// give the same shapes, the same error and the same end.
pub proof fn lemma_same_bytes_same_records(a: Seq<u8>, b: Seq<u8>)
    requires
        a.len() == b.len(),
        forall|i: int| 0 <= i < a.len() ==> a[i] == b[i],
    ensures
        spec_header_fault(a) == spec_header_fault(b),
        spec_budget(a) == spec_budget(b),
        spec_run(a, HEADER_BYTES as int, spec_budget(a)) == spec_run(
            b,
            HEADER_BYTES as int,
            spec_budget(b),
        ),
{
    assert(a =~= b);
}

} // verus!
