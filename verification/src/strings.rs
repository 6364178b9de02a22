//! Decoding of the engine's string tensor representation: one content buffer
//! of concatenated UTF-8 text and a table of offsets, one per element and one
//! more for the end of the last element.

use crate::error::ExtractError;
use crate::shape::shape_holds;
use vstd::prelude::*;
use vstd::slice::slice_subrange;
use vstd::slice::slice_to_vec;
use vstd::utf8::decode_utf8;
use vstd::utf8::valid_utf8;

verus! {

/// The error that says why bytes are not UTF-8; carried, never read.
#[verifier::external_type_specification]
#[verifier::external_body]
pub struct ExFromUtf8Error(std::string::FromUtf8Error);

/// Why a vector does not fill a shape; carried, never read.
#[verifier::external_type_specification]
#[verifier::external_body]
pub struct ExShapeError(ndarray::ShapeError);

/// An owned array of strings of any number of axes.
#[verifier::external_body]
pub struct StringArray {
    pub inner: ndarray::ArrayD<String>,
}

/// The texts that an array holds, in row-major order.
pub uninterp spec fn array_texts(array: StringArray) -> Seq<Seq<char>>;

/// The axis lengths of an array.
pub uninterp spec fn array_shape(array: StringArray) -> Seq<usize>;

/// Whether element `i` lies inside a content buffer of `content_len` bytes.
pub open spec fn span_in_bounds(content_len: int, offsets: Seq<usize>, i: int) -> bool {
    offsets[i] <= offsets[i + 1] <= content_len
}

/// The bytes of element `i`.
pub open spec fn span(content: Seq<u8>, offsets: Seq<usize>, i: int) -> Seq<u8> {
    content.subrange(offsets[i] as int, offsets[i + 1] as int)
}

/// Whether element `i` lies inside the content buffer and is valid UTF-8.
pub open spec fn decodable(content: Seq<u8>, offsets: Seq<usize>, i: int) -> bool {
    span_in_bounds(content.len() as int, offsets, i) && valid_utf8(span(content, offsets, i))
}

/// Whether every element before `k` is decodable.
pub open spec fn decodable_before(content: Seq<u8>, offsets: Seq<usize>, k: int) -> bool {
    forall|j: int| 0 <= j < k ==> decodable(content, offsets, j)
}

/// Whether every element that decoding can reach lies inside the content
/// buffer: an element is reached when all elements before it are decodable.
pub open spec fn reachable_spans_in_bounds(content: Seq<u8>, offsets: Seq<usize>) -> bool {
    forall|i: int|
        0 <= i < offsets.len() - 1 && decodable_before(content, offsets, i) ==> span_in_bounds(
            content.len() as int,
            offsets,
            i,
        )
}

/// What a full decoding returns: the text of each element.
pub open spec fn decoded_texts(content: Seq<u8>, offsets: Seq<usize>) -> Seq<Seq<char>> {
    Seq::new((offsets.len() - 1) as nat, |i: int| decode_utf8(span(content, offsets, i)))
}

/// The views of a vector of strings.
pub open spec fn texts_of(strings: Seq<String>) -> Seq<Seq<char>> {
    Seq::new(strings.len(), |i: int| strings[i]@)
}

/// `String::from_utf8`: succeeds exactly when the bytes are valid UTF-8, and
/// the text it then returns is what the bytes decode to.
#[verifier::external_body]
fn string_from_utf8(bytes: Vec<u8>) -> (r: Result<String, std::string::FromUtf8Error>)
    ensures
        r is Ok <==> valid_utf8(bytes@),
        r matches Ok(s) ==> s@ == decode_utf8(bytes@),
{
    String::from_utf8(bytes)
}

/// `ndarray::ArrayBase::from_shape_vec` on a shape in row-major order:
/// succeeds exactly when the shape can be addressed and its element count is
/// the vector's length; the array then has that shape and holds the vector's
/// elements in their order.
#[verifier::external_body]
fn array_from_shape_vec(shape: &Vec<usize>, strings: Vec<String>) -> (r: Result<
    StringArray,
    ndarray::ShapeError,
>)
    ensures
        r is Ok <==> shape_holds(shape@, strings@.len() as int),
        r matches Ok(array) ==> array_shape(array) == shape@ && array_texts(array) == texts_of(
            strings@,
        ),
{
    match ndarray::ArrayD::from_shape_vec(ndarray::IxDyn(shape.as_slice()), strings) {
        Ok(inner) => Ok(StringArray { inner }),
        Err(e) => Err(e),
    }
}

/// Arranges `strings` in an array of the given shape.
pub fn shape_strings(shape: &Vec<usize>, strings: Vec<String>) -> (array: StringArray)
    requires
        shape_holds(shape@, strings@.len() as int),
    ensures
        array_shape(array) == shape@,
        array_texts(array) == texts_of(strings@),
{
    match array_from_shape_vec(shape, strings) {
        Ok(array) => array,
        Err(_) => vstd::pervasive::unreached(),
    }
}

/// Why a scan of the offset table stopped before the last element.
#[derive(Debug, PartialEq, Eq, Clone, Copy, Structural)]
pub enum DecodeStop {
    /// The bytes `start..end`, which hold element `index`, are not valid
    /// UTF-8.
    NotUtf8 { index: usize, start: usize, end: usize },
    /// The offsets of element `index` run backwards or beyond the content.
    OutOfBounds { index: usize },
}

/// Decodes the elements of a string tensor in order, testing each element's
/// offsets as it is reached, and stops at the first element that lies
/// outside the content or whose bytes are not valid UTF-8.
pub fn scan_strings(content: &Vec<u8>, offsets: &Vec<usize>) -> (r: Result<Vec<String>, DecodeStop>)
    requires
        offsets.len() >= 1,
    ensures
        match r {
            Ok(strings) => {
                &&& decodable_before(content@, offsets@, offsets.len() - 1)
                &&& texts_of(strings@) == decoded_texts(content@, offsets@)
            },
            Err(DecodeStop::NotUtf8 { index, start, end }) => {
                &&& index < offsets.len() - 1
                &&& decodable_before(content@, offsets@, index as int)
                &&& span_in_bounds(content.len() as int, offsets@, index as int)
                &&& !valid_utf8(span(content@, offsets@, index as int))
                &&& start == offsets[index as int]
                &&& end == offsets[index as int + 1]
            },
            Err(DecodeStop::OutOfBounds { index }) => {
                &&& index < offsets.len() - 1
                &&& decodable_before(content@, offsets@, index as int)
                &&& !span_in_bounds(content.len() as int, offsets@, index as int)
            },
        },
{
    let count: usize = offsets.len() - 1;
    let mut strings: Vec<String> = Vec::new();
    let mut i: usize = 0;
    while i < count
        invariant
            count == offsets.len() - 1,
            i <= count,
            decodable_before(content@, offsets@, i as int),
            strings.len() == i,
            forall|j: int| 0 <= j < i ==> (#[trigger] strings[j])@ == decode_utf8(span(content@, offsets@, j)),
        decreases count - i,
    {
        let start: usize = offsets[i];
        let end: usize = offsets[i + 1];
        if start > end || end > content.len() {
            return Err(DecodeStop::OutOfBounds { index: i });
        }
        let bytes: Vec<u8> = slice_to_vec(slice_subrange(content.as_slice(), start, end));
        match string_from_utf8(bytes) {
            Ok(s) => {
                strings.push(s);
            },
            Err(_) => {
                return Err(DecodeStop::NotUtf8 { index: i, start, end });
            },
        }
        i = i + 1;
    }
    assert(texts_of(strings@) =~= decoded_texts(content@, offsets@));
    Ok(strings)
}

/// Decodes every element of a string tensor, in order, stopping at the first
/// element whose bytes are not valid UTF-8. Either all elements come back or
/// none does.
pub fn decode_strings(content: &Vec<u8>, offsets: &Vec<usize>) -> (r: Result<
    Vec<String>,
    ExtractError,
>)
    requires
        offsets.len() >= 1,
        reachable_spans_in_bounds(content@, offsets@),
    ensures
        match r {
            Ok(strings) => {
                &&& decodable_before(content@, offsets@, offsets.len() - 1)
                &&& texts_of(strings@) == decoded_texts(content@, offsets@)
            },
            Err(e) => {
                &&& e matches ExtractError::TextDecodeFailed { index, start, end }
                &&& index < offsets.len() - 1
                &&& decodable_before(content@, offsets@, index as int)
                &&& !valid_utf8(span(content@, offsets@, index as int))
                &&& start == offsets[index as int]
                &&& end == offsets[index as int + 1]
            },
        },
{
    match scan_strings(content, offsets) {
        Ok(strings) => Ok(strings),
        Err(DecodeStop::NotUtf8 { index, start, end }) => Err(
            ExtractError::TextDecodeFailed { index, start, end },
        ),
        Err(DecodeStop::OutOfBounds { index }) => vstd::pervasive::unreached(),
    }
}

} // verus!
