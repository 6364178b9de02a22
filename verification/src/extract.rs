//! Turning what the engine handed over for one tensor into typed data: a
//! borrowed view for the element types whose layout is the engine's own, an
//! owned array of decoded text for strings.

use crate::element_type::IntoTensorElementType;
use crate::element_type::TensorElementType;
use crate::error::is_success;
use crate::error::succeeded;
use crate::error::ExtractError;
use crate::error::ForeignCall;
use crate::shape::shape_holds;
use crate::shape::shape_matches;
use crate::strings::array_shape;
use crate::strings::array_texts;
use crate::strings::decodable;
use crate::strings::decodable_before;
use crate::strings::decoded_texts;
use crate::strings::reachable_spans_in_bounds;
use crate::strings::shape_strings;
use crate::strings::scan_strings;
use crate::strings::span;
use crate::strings::span_in_bounds;
use crate::strings::DecodeStop;
use crate::strings::texts_of;
use crate::strings::StringArray;
use ort_sys::OrtErrorCode;
use vstd::prelude::*;
use vstd::utf8::valid_utf8;

verus! {

/// Where a borrowed view lies: the address of its first element, its axis
/// lengths in row-major order, and the encoding of its elements.
pub struct ViewLayout {
    pub data: usize,
    pub shape: Vec<usize>,
    pub element_type: TensorElementType,
}

/// The ways tensor data can be accessed.
pub enum TensorData {
    /// Data that stays in the engine's tensor. `ptr` is the tensor's handle,
    /// which must stay alive while the view is used.
    PrimitiveView { ptr: usize, array_view: ViewLayout },
    /// Text copied out of the engine's tensor.
    Strings { strings: StringArray },
}

/// What a `TensorData` stands for.
pub enum TensorDataView {
    PrimitiveView { ptr: usize, data: usize, shape: Seq<usize>, element_type: TensorElementType },
    Strings { shape: Seq<usize>, texts: Seq<Seq<char>> },
}

impl View for TensorData {
    type V = TensorDataView;

    open spec fn view(&self) -> TensorDataView {
        match *self {
            TensorData::PrimitiveView { ptr, array_view } => TensorDataView::PrimitiveView {
                ptr,
                data: array_view.data,
                shape: array_view.shape@,
                element_type: array_view.element_type,
            },
            TensorData::Strings { strings } => TensorDataView::Strings {
                shape: array_shape(strings),
                texts: array_texts(strings),
            },
        }
    }
}

/// The two zeroed buffers that the engine fills with a string tensor.
pub struct StringBuffers {
    /// One byte for each byte of text.
    pub content: Vec<u8>,
    /// One slot for each element and one more for the end of the last.
    pub offsets: Vec<usize>,
}

/// What the engine handed over for one tensor.
pub enum EngineReply {
    /// The status of the request for the tensor's data and the address it
    /// left.
    Data { status: OrtErrorCode, data: usize },
    /// The status of the request for a string tensor's content, the total
    /// length asked for before, and the two buffers as the engine left them.
    Text { status: OrtErrorCode, total_length: usize, content: Vec<u8>, offsets: Vec<usize> },
}

/// The offset table with its last slot set to the total length.
pub open spec fn with_total(offsets: Seq<usize>, total_length: usize) -> Seq<usize> {
    offsets.update(offsets.len() - 1, total_length)
}

/// What a primitive extraction may be asked: where the engine reported
/// success and left an address, the shape holds as many elements as the
/// tensor.
pub open spec fn data_reply_well_formed(
    shape: Seq<usize>,
    tensor_element_len: usize,
    status: OrtErrorCode,
    data: usize,
) -> bool {
    succeeded(status) && data != 0 ==> shape_holds(shape, tensor_element_len as int)
}

/// What a primitive extraction returns for each reply of the engine.
pub open spec fn primitive_outcome(
    element_type: TensorElementType,
    shape: Seq<usize>,
    tensor_ptr: usize,
    status: OrtErrorCode,
    data: usize,
) -> Result<TensorDataView, ExtractError> {
    if !succeeded(status) {
        Err(ExtractError::ForeignCallFailed { call: ForeignCall::GetTensorMutableData, code: status })
    } else if data == 0 {
        Err(ExtractError::NullOutputViolation { call: ForeignCall::GetTensorMutableData })
    } else {
        Ok(TensorDataView::PrimitiveView { ptr: tensor_ptr, data, shape, element_type })
    }
}

/// What a string extraction may be asked: once the engine reported success,
/// the buffers have the sizes they were made with, the last offset slot is
/// still zero, every element that decoding reaches lies inside the content,
/// and, where every element decodes, the shape holds as many elements as the
/// tensor.
pub open spec fn text_reply_well_formed(
    shape: Seq<usize>,
    tensor_element_len: usize,
    status: OrtErrorCode,
    total_length: usize,
    content: Seq<u8>,
    offsets: Seq<usize>,
) -> bool {
    succeeded(status) ==> {
        &&& content.len() == total_length
        &&& offsets.len() == tensor_element_len + 1
        &&& offsets[tensor_element_len as int] == 0
        &&& reachable_spans_in_bounds(content, with_total(offsets, total_length))
        &&& decodable_before(content, with_total(offsets, total_length), tensor_element_len as int)
            ==> shape_holds(shape, tensor_element_len as int)
    }
}

/// Why a successful reply for a string tensor cannot be decoded: what the
/// engine left is not what it promises.
#[derive(Debug, PartialEq, Eq, Clone, Copy, Structural)]
pub enum TextReplyFault {
    /// A buffer does not have the size it was made with.
    BufferSizes,
    /// The last offset slot is not zero.
    LastOffsetWritten,
    /// The offsets of element `index` run backwards or beyond the content.
    SpanOutOfBounds { index: usize },
    /// The shape does not hold as many elements as the tensor.
    ShapeMismatch,
}

/// Whether the two buffers have the sizes they were made with.
pub open spec fn buffer_sizes_kept(
    tensor_element_len: usize,
    total_length: usize,
    content: Seq<u8>,
    offsets: Seq<usize>,
) -> bool {
    content.len() == total_length && offsets.len() == tensor_element_len + 1
}

/// The one fault of a successful reply, the first in the order in which the
/// reply is read: buffer sizes, last offset slot, the elements in turn, and
/// the shape once every element is decoded.
pub open spec fn text_reply_fault(
    shape: Seq<usize>,
    tensor_element_len: usize,
    total_length: usize,
    content: Seq<u8>,
    offsets: Seq<usize>,
    fault: TextReplyFault,
) -> bool {
    let table = with_total(offsets, total_length);
    match fault {
        TextReplyFault::BufferSizes => !buffer_sizes_kept(
            tensor_element_len,
            total_length,
            content,
            offsets,
        ),
        TextReplyFault::LastOffsetWritten => {
            &&& buffer_sizes_kept(tensor_element_len, total_length, content, offsets)
            &&& offsets[tensor_element_len as int] != 0
        },
        TextReplyFault::SpanOutOfBounds { index } => {
            &&& buffer_sizes_kept(tensor_element_len, total_length, content, offsets)
            &&& offsets[tensor_element_len as int] == 0
            &&& index < tensor_element_len
            &&& decodable_before(content, table, index as int)
            &&& !span_in_bounds(content.len() as int, table, index as int)
        },
        TextReplyFault::ShapeMismatch => {
            &&& buffer_sizes_kept(tensor_element_len, total_length, content, offsets)
            &&& offsets[tensor_element_len as int] == 0
            &&& decodable_before(content, table, tensor_element_len as int)
            &&& !shape_holds(shape, tensor_element_len as int)
        },
    }
}

/// What a string extraction returns for each reply of the engine.
pub open spec fn text_outcome(
    shape: Seq<usize>,
    status: OrtErrorCode,
    total_length: usize,
    content: Seq<u8>,
    offsets: Seq<usize>,
    r: Result<TensorDataView, ExtractError>,
) -> bool {
    let table = with_total(offsets, total_length);
    let count = offsets.len() - 1;
    if !succeeded(status) {
        r == Err::<TensorDataView, ExtractError>(
            ExtractError::ForeignCallFailed { call: ForeignCall::GetStringTensorContent, code: status },
        )
    } else if decodable_before(content, table, count) {
        r == Ok::<TensorDataView, ExtractError>(
            TensorDataView::Strings { shape, texts: decoded_texts(content, table) },
        )
    } else {
        &&& r matches Err(ExtractError::TextDecodeFailed { index, start, end })
        &&& index < count
        &&& decodable_before(content, table, index as int)
        &&& !valid_utf8(span(content, table, index as int))
        &&& start == table[index as int]
        &&& end == table[index as int + 1]
    }
}

/// The view of a result.
pub open spec fn result_view(r: Result<TensorData, ExtractError>) -> Result<
    TensorDataView,
    ExtractError,
> {
    match r {
        Ok(data) => Ok(data@),
        Err(e) => Err(e),
    }
}

/// Judges the reply to the request for a string tensor's total length. On
/// success it makes the two zeroed buffers for the content request.
pub fn string_buffers(status: OrtErrorCode, total_length: usize, tensor_element_len: usize) -> (r:
    Result<StringBuffers, ExtractError>)
    requires
        tensor_element_len < usize::MAX,
    ensures
        match r {
            Ok(buffers) => {
                &&& succeeded(status)
                &&& buffers.content@ == Seq::new(total_length as nat, |i: int| 0u8)
                &&& buffers.offsets@ == Seq::new((tensor_element_len + 1) as nat, |i: int| 0usize)
            },
            Err(e) => {
                &&& !succeeded(status)
                &&& e == (ExtractError::ForeignCallFailed {
                    call: ForeignCall::GetStringTensorDataLength,
                    code: status,
                })
            },
        },
{
    if !is_success(status) {
        return Err(
            ExtractError::ForeignCallFailed {
                call: ForeignCall::GetStringTensorDataLength,
                code: status,
            },
        );
    }
    let content: Vec<u8> = vec![0u8; total_length];
    let offsets: Vec<usize> = vec![0usize; tensor_element_len + 1];
    assert(content@ =~= Seq::new(total_length as nat, |i: int| 0u8));
    assert(offsets@ =~= Seq::new((tensor_element_len + 1) as nat, |i: int| 0usize));
    Ok(StringBuffers { content, offsets })
}

/// Describes a view over the data of a tensor whose elements have the
/// engine's own layout. Nothing is copied: the result names the address.
pub fn extract_primitive_array(
    element_type: TensorElementType,
    shape: Vec<usize>,
    tensor_element_len: usize,
    tensor_ptr: usize,
    status: OrtErrorCode,
    data: usize,
) -> (r: Result<TensorData, ExtractError>)
    requires
        data_reply_well_formed(shape@, tensor_element_len, status, data),
    ensures
        result_view(r) == primitive_outcome(element_type, shape@, tensor_ptr, status, data),
{
    if !is_success(status) {
        return Err(
            ExtractError::ForeignCallFailed { call: ForeignCall::GetTensorMutableData, code: status },
        );
    }
    if data == 0 {
        return Err(ExtractError::NullOutputViolation { call: ForeignCall::GetTensorMutableData });
    }
    Ok(TensorData::PrimitiveView { ptr: tensor_ptr, array_view: ViewLayout { data, shape, element_type } })
}

/// Decodes a string tensor from the buffers that the engine filled into an
/// owned array of the given shape.
pub fn extract_string_array(
    shape: Vec<usize>,
    tensor_element_len: usize,
    status: OrtErrorCode,
    total_length: usize,
    content: Vec<u8>,
    offsets: Vec<usize>,
) -> (r: Result<TensorData, ExtractError>)
    requires
        text_reply_well_formed(shape@, tensor_element_len, status, total_length, content@, offsets@),
    ensures
        text_outcome(shape@, status, total_length, content@, offsets@, result_view(r)),
{
    match try_extract_string_array(
        shape,
        tensor_element_len,
        status,
        total_length,
        content,
        offsets,
    ) {
        Ok(extracted) => extracted,
        Err(_) => vstd::pervasive::unreached(),
    }
}

/// Decodes a string tensor as `extract_string_array` does, testing on the
/// way what that function asks of a successful reply. Where the reply is not
/// as the engine promises, it names the first fault and decodes nothing.
pub fn try_extract_string_array(
    shape: Vec<usize>,
    tensor_element_len: usize,
    status: OrtErrorCode,
    total_length: usize,
    content: Vec<u8>,
    offsets: Vec<usize>,
) -> (r: Result<Result<TensorData, ExtractError>, TextReplyFault>)
    ensures
        r is Ok <==> text_reply_well_formed(
            shape@,
            tensor_element_len,
            status,
            total_length,
            content@,
            offsets@,
        ),
        match r {
            Ok(extracted) => text_outcome(
                shape@,
                status,
                total_length,
                content@,
                offsets@,
                result_view(extracted),
            ),
            Err(fault) => succeeded(status) && text_reply_fault(
                shape@,
                tensor_element_len,
                total_length,
                content@,
                offsets@,
                fault,
            ),
        },
{
    if !is_success(status) {
        return Ok(
            Err(
                ExtractError::ForeignCallFailed {
                    call: ForeignCall::GetStringTensorContent,
                    code: status,
                },
            ),
        );
    }
    if content.len() != total_length || tensor_element_len == usize::MAX || offsets.len()
        != tensor_element_len + 1 {
        return Err(TextReplyFault::BufferSizes);
    }
    if offsets[tensor_element_len] != 0 {
        return Err(TextReplyFault::LastOffsetWritten);
    }
    let mut table = offsets;
    table.set(tensor_element_len, total_length);
    assert(table@ == with_total(offsets@, total_length));
    match scan_strings(&content, &table) {
        Ok(strings) => {
            if !shape_matches(&shape, tensor_element_len) {
                return Err(TextReplyFault::ShapeMismatch);
            }
            assert forall|i: int|
                0 <= i < table@.len() - 1 && decodable_before(
                    content@,
                    table@,
                    i,
                ) implies span_in_bounds(content@.len() as int, table@, i) by {
                assert(decodable(content@, table@, i));
            }
            assert(strings@.len() == texts_of(strings@).len());
            let array = shape_strings(&shape, strings);
            Ok(Ok(TensorData::Strings { strings: array }))
        },
        Err(DecodeStop::NotUtf8 { index, start, end }) => {
            assert(!decodable(content@, table@, index as int));
            assert forall|i: int|
                0 <= i < table@.len() - 1 && decodable_before(
                    content@,
                    table@,
                    i,
                ) implies span_in_bounds(content@.len() as int, table@, i) by {
                if i > index {
                    assert(decodable(content@, table@, index as int));
                } else if i < index {
                    assert(decodable(content@, table@, i));
                }
            }
            Ok(Err(ExtractError::TextDecodeFailed { index, start, end }))
        },
        Err(DecodeStop::OutOfBounds { index }) => Err(TextReplyFault::SpanOutOfBounds { index }),
    }
}

/// What may be asked of an extraction as tag `element_type`: the reply is of
/// the kind that the tag's strategy reads, and the shape holds as many
/// elements as the tensor.
pub open spec fn reply_well_formed(
    element_type: TensorElementType,
    shape: Seq<usize>,
    tensor_element_len: usize,
    reply: EngineReply,
) -> bool {
    match reply {
        EngineReply::Data { status, data } => {
            &&& element_type != TensorElementType::String
            &&& data_reply_well_formed(shape, tensor_element_len, status, data)
        },
        EngineReply::Text { status, total_length, content, offsets } => {
            &&& element_type == TensorElementType::String
            &&& text_reply_well_formed(
                shape,
                tensor_element_len,
                status,
                total_length,
                content@,
                offsets@,
            )
        },
    }
}

/// What an extraction as tag `element_type` returns for each reply.
pub open spec fn extraction_outcome(
    element_type: TensorElementType,
    shape: Seq<usize>,
    tensor_ptr: usize,
    reply: EngineReply,
    r: Result<TensorDataView, ExtractError>,
) -> bool {
    match reply {
        EngineReply::Data { status, data } => r == primitive_outcome(
            element_type,
            shape,
            tensor_ptr,
            status,
            data,
        ),
        EngineReply::Text { status, total_length, content, offsets } => text_outcome(
            shape,
            status,
            total_length,
            content@,
            offsets@,
            r,
        ),
    }
}

/// Maps a host type to the element encoding it can be extracted from, and
/// to the one strategy that extracts it.
pub trait ExtractTensorData: Sized + core::fmt::Debug + Clone {
    /// The encoding that this host type is extracted from.
    spec fn extracted_type() -> TensorElementType;

    /// Returns the encoding that this host type is extracted from.
    fn tensor_element_type() -> (tag: TensorElementType)
        ensures
            tag == Self::extracted_type(),
    ;

    /// Turns the engine's reply for the tensor `tensor_ptr` into data of the
    /// given shape.
    fn extract_tensor_array(
        shape: Vec<usize>,
        tensor_element_len: usize,
        tensor_ptr: usize,
        reply: EngineReply,
    ) -> (r: Result<TensorData, ExtractError>)
        requires
            reply_well_formed(Self::extracted_type(), shape@, tensor_element_len, reply),
        ensures
            extraction_outcome(Self::extracted_type(), shape@, tensor_ptr, reply, result_view(r)),
    ;
}

/// Marks the host types whose layout is the engine's own, so that a
/// tensor's data can be viewed in place. Text is not among them.
pub trait ExtractTensorDataView: ExtractTensorData + IntoTensorElementType {
    /// The encoding such a type is extracted from is the one it is stored
    /// under, and is not the string encoding.
    proof fn lemma_tags_agree()
        ensures
            Self::extracted_type() == Self::stored_type(),
            Self::extracted_type() != TensorElementType::String,
    ;
}

impl ExtractTensorData for u8 {
    open spec fn extracted_type() -> TensorElementType {
        TensorElementType::Uint8
    }

    fn tensor_element_type() -> (tag: TensorElementType) {
        TensorElementType::Uint8
    }

    fn extract_tensor_array(
        shape: Vec<usize>,
        tensor_element_len: usize,
        tensor_ptr: usize,
        reply: EngineReply,
    ) -> (r: Result<TensorData, ExtractError>) {
        match reply {
            EngineReply::Data { status, data } => extract_primitive_array(
                TensorElementType::Uint8,
                shape,
                tensor_element_len,
                tensor_ptr,
                status,
                data,
            ),
            EngineReply::Text { .. } => vstd::pervasive::unreached(),
        }
    }
}

impl ExtractTensorDataView for u8 {
    proof fn lemma_tags_agree() {
    }
}

impl ExtractTensorData for i8 {
    open spec fn extracted_type() -> TensorElementType {
        TensorElementType::Int8
    }

    fn tensor_element_type() -> (tag: TensorElementType) {
        TensorElementType::Int8
    }

    fn extract_tensor_array(
        shape: Vec<usize>,
        tensor_element_len: usize,
        tensor_ptr: usize,
        reply: EngineReply,
    ) -> (r: Result<TensorData, ExtractError>) {
        match reply {
            EngineReply::Data { status, data } => extract_primitive_array(
                TensorElementType::Int8,
                shape,
                tensor_element_len,
                tensor_ptr,
                status,
                data,
            ),
            EngineReply::Text { .. } => vstd::pervasive::unreached(),
        }
    }
}

impl ExtractTensorDataView for i8 {
    proof fn lemma_tags_agree() {
    }
}

impl ExtractTensorData for u16 {
    open spec fn extracted_type() -> TensorElementType {
        TensorElementType::Uint16
    }

    fn tensor_element_type() -> (tag: TensorElementType) {
        TensorElementType::Uint16
    }

    fn extract_tensor_array(
        shape: Vec<usize>,
        tensor_element_len: usize,
        tensor_ptr: usize,
        reply: EngineReply,
    ) -> (r: Result<TensorData, ExtractError>) {
        match reply {
            EngineReply::Data { status, data } => extract_primitive_array(
                TensorElementType::Uint16,
                shape,
                tensor_element_len,
                tensor_ptr,
                status,
                data,
            ),
            EngineReply::Text { .. } => vstd::pervasive::unreached(),
        }
    }
}

impl ExtractTensorDataView for u16 {
    proof fn lemma_tags_agree() {
    }
}

impl ExtractTensorData for i16 {
    open spec fn extracted_type() -> TensorElementType {
        TensorElementType::Int16
    }

    fn tensor_element_type() -> (tag: TensorElementType) {
        TensorElementType::Int16
    }

    fn extract_tensor_array(
        shape: Vec<usize>,
        tensor_element_len: usize,
        tensor_ptr: usize,
        reply: EngineReply,
    ) -> (r: Result<TensorData, ExtractError>) {
        match reply {
            EngineReply::Data { status, data } => extract_primitive_array(
                TensorElementType::Int16,
                shape,
                tensor_element_len,
                tensor_ptr,
                status,
                data,
            ),
            EngineReply::Text { .. } => vstd::pervasive::unreached(),
        }
    }
}

impl ExtractTensorDataView for i16 {
    proof fn lemma_tags_agree() {
    }
}

impl ExtractTensorData for i32 {
    open spec fn extracted_type() -> TensorElementType {
        TensorElementType::Int32
    }

    fn tensor_element_type() -> (tag: TensorElementType) {
        TensorElementType::Int32
    }

    fn extract_tensor_array(
        shape: Vec<usize>,
        tensor_element_len: usize,
        tensor_ptr: usize,
        reply: EngineReply,
    ) -> (r: Result<TensorData, ExtractError>) {
        match reply {
            EngineReply::Data { status, data } => extract_primitive_array(
                TensorElementType::Int32,
                shape,
                tensor_element_len,
                tensor_ptr,
                status,
                data,
            ),
            EngineReply::Text { .. } => vstd::pervasive::unreached(),
        }
    }
}

impl ExtractTensorDataView for i32 {
    proof fn lemma_tags_agree() {
    }
}

impl ExtractTensorData for i64 {
    open spec fn extracted_type() -> TensorElementType {
        TensorElementType::Int64
    }

    fn tensor_element_type() -> (tag: TensorElementType) {
        TensorElementType::Int64
    }

    fn extract_tensor_array(
        shape: Vec<usize>,
        tensor_element_len: usize,
        tensor_ptr: usize,
        reply: EngineReply,
    ) -> (r: Result<TensorData, ExtractError>) {
        match reply {
            EngineReply::Data { status, data } => extract_primitive_array(
                TensorElementType::Int64,
                shape,
                tensor_element_len,
                tensor_ptr,
                status,
                data,
            ),
            EngineReply::Text { .. } => vstd::pervasive::unreached(),
        }
    }
}

impl ExtractTensorDataView for i64 {
    proof fn lemma_tags_agree() {
    }
}

impl ExtractTensorData for bool {
    open spec fn extracted_type() -> TensorElementType {
        TensorElementType::Bool
    }

    fn tensor_element_type() -> (tag: TensorElementType) {
        TensorElementType::Bool
    }

    fn extract_tensor_array(
        shape: Vec<usize>,
        tensor_element_len: usize,
        tensor_ptr: usize,
        reply: EngineReply,
    ) -> (r: Result<TensorData, ExtractError>) {
        match reply {
            EngineReply::Data { status, data } => extract_primitive_array(
                TensorElementType::Bool,
                shape,
                tensor_element_len,
                tensor_ptr,
                status,
                data,
            ),
            EngineReply::Text { .. } => vstd::pervasive::unreached(),
        }
    }
}

impl ExtractTensorDataView for bool {
    proof fn lemma_tags_agree() {
    }
}

impl ExtractTensorData for u32 {
    open spec fn extracted_type() -> TensorElementType {
        TensorElementType::Uint32
    }

    fn tensor_element_type() -> (tag: TensorElementType) {
        TensorElementType::Uint32
    }

    fn extract_tensor_array(
        shape: Vec<usize>,
        tensor_element_len: usize,
        tensor_ptr: usize,
        reply: EngineReply,
    ) -> (r: Result<TensorData, ExtractError>) {
        match reply {
            EngineReply::Data { status, data } => extract_primitive_array(
                TensorElementType::Uint32,
                shape,
                tensor_element_len,
                tensor_ptr,
                status,
                data,
            ),
            EngineReply::Text { .. } => vstd::pervasive::unreached(),
        }
    }
}

impl ExtractTensorDataView for u32 {
    proof fn lemma_tags_agree() {
    }
}

impl ExtractTensorData for u64 {
    open spec fn extracted_type() -> TensorElementType {
        TensorElementType::Uint64
    }

    fn tensor_element_type() -> (tag: TensorElementType) {
        TensorElementType::Uint64
    }

    fn extract_tensor_array(
        shape: Vec<usize>,
        tensor_element_len: usize,
        tensor_ptr: usize,
        reply: EngineReply,
    ) -> (r: Result<TensorData, ExtractError>) {
        match reply {
            EngineReply::Data { status, data } => extract_primitive_array(
                TensorElementType::Uint64,
                shape,
                tensor_element_len,
                tensor_ptr,
                status,
                data,
            ),
            EngineReply::Text { .. } => vstd::pervasive::unreached(),
        }
    }
}

impl ExtractTensorDataView for u64 {
    proof fn lemma_tags_agree() {
    }
}

impl ExtractTensorData for half::bf16 {
    open spec fn extracted_type() -> TensorElementType {
        TensorElementType::Bfloat16
    }

    fn tensor_element_type() -> (tag: TensorElementType) {
        TensorElementType::Bfloat16
    }

    fn extract_tensor_array(
        shape: Vec<usize>,
        tensor_element_len: usize,
        tensor_ptr: usize,
        reply: EngineReply,
    ) -> (r: Result<TensorData, ExtractError>) {
        match reply {
            EngineReply::Data { status, data } => extract_primitive_array(
                TensorElementType::Bfloat16,
                shape,
                tensor_element_len,
                tensor_ptr,
                status,
                data,
            ),
            EngineReply::Text { .. } => vstd::pervasive::unreached(),
        }
    }
}

impl ExtractTensorDataView for half::bf16 {
    proof fn lemma_tags_agree() {
    }
}

impl ExtractTensorData for String {
    open spec fn extracted_type() -> TensorElementType {
        TensorElementType::String
    }

    fn tensor_element_type() -> (tag: TensorElementType) {
        TensorElementType::String
    }

    fn extract_tensor_array(
        shape: Vec<usize>,
        tensor_element_len: usize,
        tensor_ptr: usize,
        reply: EngineReply,
    ) -> (r: Result<TensorData, ExtractError>) {
        match reply {
            EngineReply::Text { status, total_length, content, offsets } => extract_string_array(
                shape,
                tensor_element_len,
                status,
                total_length,
                content,
                offsets,
            ),
            EngineReply::Data { .. } => vstd::pervasive::unreached(),
        }
    }
}

} // verus!
