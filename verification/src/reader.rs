//! The file header and the decoder that hands out the records in file
//! order.

use vstd::prelude::*;
use crate::error::ShapefileError;
use crate::record::{decode_record, lemma_decode_record_end, spec_decode_record, spec_outcome};
use crate::shape::{spec_bounding_box, BoundingBox, Shape, ShapeView};
use crate::source::{
    load_f64_bits,
    load_i32_be,
    load_i32_le,
    spec_i32_be,
    spec_i32_le,
    spec_u64_le,
    ByteSource,
};

verus! {

/// The number of bytes of the file header.
pub const HEADER_BYTES: usize = 100;

/// The number of 16-bit words of the file header.
pub const HEADER_WORDS: i32 = 50;

/// The file code that every shapefile starts with.
pub const FILE_CODE: i32 = 9994;

/// The one version of the format.
pub const VERSION: i32 = 1000;

/// What is wrong with the reserved fields from the `k`-th on, read in file
/// order: the first of them that is missing or not zero decides.
pub open spec fn spec_reserved_fault(bytes: Seq<u8>, k: int) -> Option<ShapefileError>
    decreases 5 - k,
{
    if k >= 5 {
        None
    } else if bytes.len() < 8 + 4 * k {
        Some(ShapefileError::UnexpectedEof)
    } else if spec_i32_be(bytes, 4 + 4 * k) != 0 {
        Some(ShapefileError::InvalidFile)
    } else {
        spec_reserved_fault(bytes, k + 1)
    }
}

/// Whether the three fixed fields of a header have their values: the file
/// code 9994, the five reserved fields 0, the version 1000. It speaks of
/// the first thirty-two bytes, which must be there.
pub open spec fn spec_fixed_fields_valid(bytes: Seq<u8>) -> bool {
    &&& spec_i32_be(bytes, 0) == FILE_CODE
    &&& forall|k: int| 0 <= k < 5 ==> #[trigger] spec_i32_be(bytes, 4 + 4 * k) == 0
    &&& spec_i32_le(bytes, 28) == VERSION
}

/// What is wrong with the header that `bytes` starts with, or `None` for a
/// valid one. The fields are taken in file order and the first that is
/// missing or wrong decides: a missing one gives `UnexpectedEof`; a file
/// code other than 9994, a reserved field other than 0 or a version other
/// than 1000 gives `InvalidFile`.
pub open spec fn spec_header_fault(bytes: Seq<u8>) -> Option<ShapefileError> {
    if bytes.len() < 4 {
        Some(ShapefileError::UnexpectedEof)
    } else if spec_i32_be(bytes, 0) != FILE_CODE {
        Some(ShapefileError::InvalidFile)
    } else if spec_reserved_fault(bytes, 0) is Some {
        spec_reserved_fault(bytes, 0)
    } else if bytes.len() < 32 {
        Some(ShapefileError::UnexpectedEof)
    } else if spec_i32_le(bytes, 28) != VERSION {
        Some(ShapefileError::InvalidFile)
    } else if bytes.len() < HEADER_BYTES {
        Some(ShapefileError::UnexpectedEof)
    } else {
        None
    }
}

/// The file length that the header declares, in 16-bit words.
pub open spec fn spec_file_length(bytes: Seq<u8>) -> i32 {
    spec_i32_be(bytes, 24)
}

/// The number of words that the header leaves for the records: the
/// declared file length less the header's own fifty words.
pub open spec fn spec_budget(bytes: Seq<u8>) -> int {
    spec_file_length(bytes) - HEADER_WORDS
}

/// How one pull on the decoder ends: with the end of the sequence
/// (`None`), a shape or an error; with the source at `position` and a
/// budget of `remaining` words; having charged `words` to the budget.
pub ghost struct Pulled {
    pub item: Option<Result<ShapeView, ShapefileError>>,
    pub position: int,
    pub remaining: int,
    pub words: int,
}

/// Decoding the record at `position` under a budget of `remaining` words.
///
/// The record header is the record number and the content length, both
/// big-endian. Once it is read, the budget is charged the content length
/// and the four words of the record header, whatever becomes of the body.
/// A body that fails with `InvalidShapeType` leaves no budget at all.
pub open spec fn spec_get(bytes: Seq<u8>, position: int, remaining: int) -> Pulled {
    if position + 8 > bytes.len() {
        Pulled {
            item: Some(Err(ShapefileError::UnexpectedEof)),
            position: bytes.len() as int,
            remaining,
            words: 0,
        }
    } else {
        let content_length = spec_i32_be(bytes, position + 4);
        let body = spec_decode_record(bytes, position + 8, content_length);
        Pulled {
            item: Some(body.shape),
            position: body.end,
            remaining: if body.shape == Err::<ShapeView, ShapefileError>(
                ShapefileError::InvalidShapeType,
            ) {
                0
            } else {
                remaining - (content_length + 4)
            },
            words: content_length + 4,
        }
    }
}

/// One pull on a decoder at `position` with a budget of `remaining` words.
///
/// With no budget left the sequence has ended. With a negative budget the
/// records read so far have taken more than the file length allows: the
/// pull fails with `BudgetOverrun` and reads nothing. Else one record is
/// decoded.
pub open spec fn spec_next(bytes: Seq<u8>, position: int, remaining: int) -> Pulled {
    if remaining == 0 {
        Pulled { item: None, position, remaining, words: 0 }
    } else if remaining < 0 {
        Pulled { item: Some(Err(ShapefileError::BudgetOverrun)), position, remaining, words: 0 }
    } else {
        spec_get(bytes, position, remaining)
    }
}

/// What a pull returned, with the shape taken by its view.
pub open spec fn spec_item(r: Option<Result<Shape, ShapefileError>>) -> Option<
    Result<ShapeView, ShapefileError>,
> {
    match r {
        Some(inner) => Some(spec_outcome(inner)),
        None => None,
    }
}

/// The shapes of a sequence, each taken by its view.
pub open spec fn spec_views(shapes: Seq<Shape>) -> Seq<ShapeView> {
    Seq::new(shapes.len(), |i: int| shapes[i]@)
}

/// How a decoder ends that is pulled until the sequence ends or a pull
/// fails: the shapes handed out before that, in order; the error of the
/// last pull, if it failed; the position and the budget that are left;
/// and the words charged to the budget on the way.
pub ghost struct Run {
    pub shapes: Seq<ShapeView>,
    pub error: Option<ShapefileError>,
    pub position: int,
    pub remaining: int,
    pub words: int,
}

/// Pulling on a decoder at `position` with a budget of `remaining` words
/// until the sequence ends or a pull fails.
#[verifier::opaque]
pub open spec fn spec_run(bytes: Seq<u8>, position: int, remaining: int) -> Run
    decreases bytes.len() - position,
{
    let pulled = spec_next(bytes, position, remaining);
    match pulled.item {
        None => Run { shapes: Seq::empty(), error: None, position, remaining, words: 0 },
        Some(Err(e)) => Run {
            shapes: Seq::empty(),
            error: Some(e),
            position: pulled.position,
            remaining: pulled.remaining,
            words: pulled.words,
        },
        Some(Ok(shape)) => {
            proof {
                lemma_pull_advances(bytes, position, remaining);
            }
            let rest = spec_run(bytes, pulled.position, pulled.remaining);
            Run {
                shapes: seq![shape] + rest.shapes,
                error: rest.error,
                position: rest.position,
                remaining: rest.remaining,
                words: pulled.words + rest.words,
            }
        },
    }
}

/// A pull that hands out a shape has read at least the record header and
/// the tag, and no further than the bytes go.
pub proof fn lemma_pull_advances(bytes: Seq<u8>, position: int, remaining: int)
    ensures
        ({
            let pulled = spec_next(bytes, position, remaining);
            pulled.item is Some && pulled.item->0 is Ok ==> position + 12 <= pulled.position
                <= bytes.len()
        }),
{
    if position + 8 <= bytes.len() {
        lemma_decode_record_end(bytes, position + 8, spec_i32_be(bytes, position + 4));
    }
}

/// A decoder of the records of one shapefile, held in memory.
///
/// The header is read when the decoder is made. After that each call of
/// `next` hands out one record, until the words that the header declares
/// are used up. A decoder that has returned an error is of no further use.
#[derive(Debug)]
pub struct ShpReader {
    source: ByteSource,
    bb: BoundingBox,
    shape: i32,
    zlim: [u64; 2],
    mlim: [u64; 2],
    rem_size: i128,
}

impl Clone for ShpReader {
    /// A decoder of the same bytes in the same state.
    fn clone(&self) -> (copy: ShpReader)
        ensures
            copy.wf() == self.wf(),
            copy.bytes() == self.bytes(),
            copy.position() == self.position(),
            copy.remaining() == self.remaining(),
    {
        ShpReader {
            source: self.source.clone(),
            bb: self.bb,
            shape: self.shape,
            zlim: self.zlim,
            mlim: self.mlim,
            rem_size: self.rem_size,
        }
    }
}

impl ShpReader {
    /// Whether the decoder is one that `new` made and `next` has moved on:
    /// it holds what the header of its bytes says, and its budget is
    /// within what the bytes read so far can have left of it.
    pub closed spec fn wf(&self) -> bool {
        let bytes = self.source.bytes();
        &&& spec_header_fault(bytes) is None
        &&& self.bb == spec_bounding_box(bytes, 36)
        &&& self.shape == spec_i32_le(bytes, 32)
        &&& self.zlim[0] == spec_u64_le(bytes, 68)
        &&& self.zlim[1] == spec_u64_le(bytes, 76)
        &&& self.mlim[0] == spec_u64_le(bytes, 84)
        &&& self.mlim[1] == spec_u64_le(bytes, 92)
        &&& self.source.position() <= bytes.len()
        &&& -(0x1_0000_0000 + self.source.position() * 0x2000_0000) <= self.rem_size
        &&& self.rem_size <= 0x1_0000_0000 + self.source.position() * 0x2000_0000
    }

    /// All the bytes of the file, header included.
    pub closed spec fn bytes(&self) -> Seq<u8> {
        self.source.bytes()
    }

    /// The number of bytes read so far.
    pub closed spec fn position(&self) -> nat {
        self.source.position()
    }

    /// The budget: the number of words that the records still to come may
    /// take, by the header's file length.
    pub closed spec fn remaining(&self) -> int {
        self.rem_size as int
    }

    /// Reads the header of the file held in `data` and returns a decoder
    /// that stands before the first record.
    ///
    /// A header with a missing or wrong field is refused with the fault
    /// that `spec_header_fault` names.
    pub fn new(data: Vec<u8>) -> (r: Result<ShpReader, ShapefileError>)
        ensures
            match r {
                Ok(reader) => {
                    &&& reader.wf()
                    &&& spec_header_fault(data@) is None
                    &&& reader.bytes() == data@
                    &&& reader.position() == HEADER_BYTES
                    &&& reader.remaining() == spec_budget(data@)
                },
                Err(e) => spec_header_fault(data@) == Some(e),
            },
    {
        let mut source: ByteSource = ByteSource::new(data);
        let file_code: i32 = load_i32_be(&mut source)?;
        if file_code != FILE_CODE {
            return Err(ShapefileError::InvalidFile);
        }
        let mut k: usize = 0;
        while k < 5
            invariant
                k <= 5,
                data@.len() >= 4,
                spec_i32_be(data@, 0) == FILE_CODE,
                source.bytes() == data@,
                source.position() == 4 + 4 * k,
                spec_reserved_fault(data@, 0) == spec_reserved_fault(data@, k as int),
            decreases 5 - k,
        {
            let reserved: i32 = load_i32_be(&mut source)?;
            if reserved != 0 {
                return Err(ShapefileError::InvalidFile);
            }
            k = k + 1;
        }
        let file_length: i32 = load_i32_be(&mut source)?;
        let version: i32 = load_i32_le(&mut source)?;
        if version != VERSION {
            return Err(ShapefileError::InvalidFile);
        }
        let shape: i32 = load_i32_le(&mut source)?;
        let bb: BoundingBox = BoundingBox::load(&mut source)?;
        let zmin: u64 = load_f64_bits(&mut source)?;
        let zmax: u64 = load_f64_bits(&mut source)?;
        let mmin: u64 = load_f64_bits(&mut source)?;
        let mmax: u64 = load_f64_bits(&mut source)?;
        Ok(
            ShpReader {
                source,
                bb,
                shape,
                zlim: [zmin, zmax],
                mlim: [mmin, mmax],
                rem_size: (file_length as i128) - (HEADER_WORDS as i128),
            },
        )
    }

    /// The bounding box of the whole file, as the header gives it.
    pub fn bounding_box(&self) -> (bb: BoundingBox)
        requires
            self.wf(),
        ensures
            bb == spec_bounding_box(self.bytes(), 36),
    {
        self.bb
    }

    /// The shape type that the header names for the whole file. It is not
    /// held against the records: each record is decoded by its own tag.
    pub fn shape_type(&self) -> (code: i32)
        requires
            self.wf(),
        ensures
            code == spec_i32_le(self.bytes(), 32),
    {
        self.shape
    }

    /// The least and the greatest height of the file, as the header gives
    /// them.
    pub fn z_range(&self) -> (range: [u64; 2])
        requires
            self.wf(),
        ensures
            range[0] == spec_u64_le(self.bytes(), 68),
            range[1] == spec_u64_le(self.bytes(), 76),
    {
        self.zlim
    }

    /// The least and the greatest measure of the file, as the header
    /// gives them.
    pub fn m_range(&self) -> (range: [u64; 2])
        requires
            self.wf(),
        ensures
            range[0] == spec_u64_le(self.bytes(), 84),
            range[1] == spec_u64_le(self.bytes(), 92),
    {
        self.mlim
    }

    /// The budget: the number of words that the records still to come may
    /// take, by the header's file length.
    pub fn remaining_words(&self) -> (words: i128)
        ensures
            words == self.remaining(),
    {
        self.rem_size
    }

    /// Decodes the record at the source's position: the record header,
    /// then the body. The budget is charged as soon as the record header
    /// is read.
    fn get(&mut self) -> (r: Result<Shape, ShapefileError>)
        requires
            old(self).wf(),
        ensures
            final(self).wf(),
            final(self).bytes() == old(self).bytes(),
            ({
                let got = spec_get(
                    old(self).bytes(),
                    old(self).position() as int,
                    old(self).remaining(),
                );
                &&& Some(spec_outcome(r)) == got.item
                &&& final(self).position() == got.position
                &&& final(self).remaining() == got.remaining
            }),
    {
        let _record_number: i32 = load_i32_be(&mut self.source)?;
        let content_length: i32 = load_i32_be(&mut self.source)?;
        proof {
            self.source.lemma_in_range();
        }
        self.rem_size = self.rem_size - ((content_length as i128) + 4);
        proof {
            lemma_decode_record_end(
                self.source.bytes(),
                self.source.position() as int,
                content_length,
            );
        }
        match decode_record(&mut self.source, content_length) {
            Ok(shape) => Ok(shape),
            Err(e) => {
                match e {
                    ShapefileError::InvalidShapeType => {
                        self.rem_size = 0;
                    },
                    _ => {},
                }
                Err(e)
            },
        }
    }

    /// Hands out the next record, or `None` when the sequence has ended.
    ///
    /// The sequence ends when the budget is used up. A record that takes
    /// more than the budget is still handed out; the pull after it fails
    /// with `BudgetOverrun`, and so does every later one. After
    /// `InvalidShapeType` the sequence has ended.
    pub fn next(&mut self) -> (r: Option<Result<Shape, ShapefileError>>)
        requires
            old(self).wf(),
        ensures
            final(self).wf(),
            final(self).bytes() == old(self).bytes(),
            ({
                let pulled = spec_next(
                    old(self).bytes(),
                    old(self).position() as int,
                    old(self).remaining(),
                );
                &&& spec_item(r) == pulled.item
                &&& final(self).position() == pulled.position
                &&& final(self).remaining() == pulled.remaining
            }),
    {
        if self.rem_size == 0 {
            None
        } else if self.rem_size < 0 {
            Some(Err(ShapefileError::BudgetOverrun))
        } else {
            Some(self.get())
        }
    }

    /// Pulls until the sequence ends or a pull fails. Returns the shapes
    /// handed out before that, in file order, and the error of the last
    /// pull if it failed.
    pub fn read_all(&mut self) -> (r: (Vec<Shape>, Option<ShapefileError>))
        requires
            old(self).wf(),
        ensures
            final(self).wf(),
            final(self).bytes() == old(self).bytes(),
            ({
                let run = spec_run(
                    old(self).bytes(),
                    old(self).position() as int,
                    old(self).remaining(),
                );
                &&& spec_views(r.0@) == run.shapes
                &&& r.1 == run.error
                &&& final(self).position() == run.position
                &&& final(self).remaining() == run.remaining
            }),
    {
        let ghost bytes = self.bytes();
        let ghost whole = spec_run(bytes, self.position() as int, self.remaining());
        let mut shapes: Vec<Shape> = Vec::new();
        assert(spec_views(shapes@) + whole.shapes =~= whole.shapes);
        loop
            invariant
                self.wf(),
                self.bytes() == bytes,
                bytes == old(self).bytes(),
                whole == spec_run(bytes, old(self).position() as int, old(self).remaining()),
                ({
                    let rest = spec_run(bytes, self.position() as int, self.remaining());
                    &&& whole.shapes == spec_views(shapes@) + rest.shapes
                    &&& whole.error == rest.error
                    &&& whole.position == rest.position
                    &&& whole.remaining == rest.remaining
                }),
            decreases bytes.len() - self.position(),
        {
            let ghost position = self.position() as int;
            let ghost remaining = self.remaining();
            let ghost before = shapes@;
            let ghost here = spec_run(bytes, position, remaining);
            proof {
                lemma_pull_advances(bytes, position, remaining);
            }
            match self.next() {
                None => {
                    proof {
                        assert(here.shapes == Seq::<ShapeView>::empty() && here.error is None
                            && here.position == position && here.remaining == remaining) by {
                            reveal(spec_run);
                        }
                        assert(spec_views(shapes@) + Seq::<ShapeView>::empty() =~= spec_views(
                            shapes@,
                        ));
                    }
                    return (shapes, None);
                },
                Some(Err(e)) => {
                    proof {
                        assert(here.shapes == Seq::<ShapeView>::empty() && here.error == Some(e)
                            && here.position == self.position() && here.remaining
                            == self.remaining()) by {
                            reveal(spec_run);
                        }
                        assert(spec_views(shapes@) + Seq::<ShapeView>::empty() =~= spec_views(
                            shapes@,
                        ));
                    }
                    return (shapes, Some(e));
                },
                Some(Ok(shape)) => {
                    let ghost view = shape@;
                    shapes.push(shape);
                    proof {
                        let rest = spec_run(bytes, self.position() as int, self.remaining());
                        assert(here.shapes == seq![view] + rest.shapes && here.error == rest.error
                            && here.position == rest.position && here.remaining
                            == rest.remaining) by {
                            reveal(spec_run);
                        }
                        assert(spec_views(shapes@) =~= spec_views(before) + seq![view]);
                        assert(spec_views(shapes@) + rest.shapes =~= spec_views(before)
                            + (seq![view] + rest.shapes));
                    }
                },
            }
        }
    }
}

} // verus!
