//! The closed set of tensor element encodings and its mapping to the engine's
//! native type codes, together with the traits that tie host types to a tag.

use ort_sys::ONNXTensorElementDataType;
use vstd::prelude::*;
use vstd::string::StringSliceAdditionalSpecFns;
use vstd::utf8::encode_utf8;

verus! {

/// The engine's element type code. Declared with its variants visible, so
/// that the conversions below are checked against the enum as it is defined.
#[verifier::external_type_specification]
pub struct ExONNXTensorElementDataType(ONNXTensorElementDataType);

/// 16-bit brain floating point, carried through as an opaque host type.
#[verifier::external_type_specification]
#[verifier::external_body]
pub struct ExBrainFloat(half::bf16);

/// The element encodings a tensor can hold.
#[derive(Debug, PartialEq, Eq, Clone, Copy, Structural)]
pub enum TensorElementType {
    /// 32-bit floating point number.
    Float32,
    /// Unsigned 8-bit integer.
    Uint8,
    /// Signed 8-bit integer.
    Int8,
    /// Unsigned 16-bit integer.
    Uint16,
    /// Signed 16-bit integer.
    Int16,
    /// Signed 32-bit integer.
    Int32,
    /// Signed 64-bit integer.
    Int64,
    /// Variable-length UTF-8 text.
    String,
    /// Boolean.
    Bool,
    /// 16-bit floating point number.
    Float16,
    /// 64-bit floating point number.
    Float64,
    /// Unsigned 32-bit integer.
    Uint32,
    /// Unsigned 64-bit integer.
    Uint64,
    /// Brain 16-bit floating point number.
    Bfloat16,
}

/// The native code that stands for `tag`.
pub open spec fn native_code_of(tag: TensorElementType) -> ONNXTensorElementDataType {
    match tag {
        TensorElementType::Float32 => ONNXTensorElementDataType::ONNX_TENSOR_ELEMENT_DATA_TYPE_FLOAT,
        TensorElementType::Uint8 => ONNXTensorElementDataType::ONNX_TENSOR_ELEMENT_DATA_TYPE_UINT8,
        TensorElementType::Int8 => ONNXTensorElementDataType::ONNX_TENSOR_ELEMENT_DATA_TYPE_INT8,
        TensorElementType::Uint16 => ONNXTensorElementDataType::ONNX_TENSOR_ELEMENT_DATA_TYPE_UINT16,
        TensorElementType::Int16 => ONNXTensorElementDataType::ONNX_TENSOR_ELEMENT_DATA_TYPE_INT16,
        TensorElementType::Int32 => ONNXTensorElementDataType::ONNX_TENSOR_ELEMENT_DATA_TYPE_INT32,
        TensorElementType::Int64 => ONNXTensorElementDataType::ONNX_TENSOR_ELEMENT_DATA_TYPE_INT64,
        TensorElementType::String => ONNXTensorElementDataType::ONNX_TENSOR_ELEMENT_DATA_TYPE_STRING,
        TensorElementType::Bool => ONNXTensorElementDataType::ONNX_TENSOR_ELEMENT_DATA_TYPE_BOOL,
        TensorElementType::Float16 => ONNXTensorElementDataType::ONNX_TENSOR_ELEMENT_DATA_TYPE_FLOAT16,
        TensorElementType::Float64 => ONNXTensorElementDataType::ONNX_TENSOR_ELEMENT_DATA_TYPE_DOUBLE,
        TensorElementType::Uint32 => ONNXTensorElementDataType::ONNX_TENSOR_ELEMENT_DATA_TYPE_UINT32,
        TensorElementType::Uint64 => ONNXTensorElementDataType::ONNX_TENSOR_ELEMENT_DATA_TYPE_UINT64,
        TensorElementType::Bfloat16 => ONNXTensorElementDataType::ONNX_TENSOR_ELEMENT_DATA_TYPE_BFLOAT16,
    }
}

/// The tag that a native code stands for. The undefined code and the two
/// complex codes stand for none.
pub open spec fn tag_of_native(code: ONNXTensorElementDataType) -> Option<TensorElementType> {
    match code {
        ONNXTensorElementDataType::ONNX_TENSOR_ELEMENT_DATA_TYPE_FLOAT => Some(TensorElementType::Float32),
        ONNXTensorElementDataType::ONNX_TENSOR_ELEMENT_DATA_TYPE_UINT8 => Some(TensorElementType::Uint8),
        ONNXTensorElementDataType::ONNX_TENSOR_ELEMENT_DATA_TYPE_INT8 => Some(TensorElementType::Int8),
        ONNXTensorElementDataType::ONNX_TENSOR_ELEMENT_DATA_TYPE_UINT16 => Some(TensorElementType::Uint16),
        ONNXTensorElementDataType::ONNX_TENSOR_ELEMENT_DATA_TYPE_INT16 => Some(TensorElementType::Int16),
        ONNXTensorElementDataType::ONNX_TENSOR_ELEMENT_DATA_TYPE_INT32 => Some(TensorElementType::Int32),
        ONNXTensorElementDataType::ONNX_TENSOR_ELEMENT_DATA_TYPE_INT64 => Some(TensorElementType::Int64),
        ONNXTensorElementDataType::ONNX_TENSOR_ELEMENT_DATA_TYPE_STRING => Some(TensorElementType::String),
        ONNXTensorElementDataType::ONNX_TENSOR_ELEMENT_DATA_TYPE_BOOL => Some(TensorElementType::Bool),
        ONNXTensorElementDataType::ONNX_TENSOR_ELEMENT_DATA_TYPE_FLOAT16 => Some(TensorElementType::Float16),
        ONNXTensorElementDataType::ONNX_TENSOR_ELEMENT_DATA_TYPE_DOUBLE => Some(TensorElementType::Float64),
        ONNXTensorElementDataType::ONNX_TENSOR_ELEMENT_DATA_TYPE_UINT32 => Some(TensorElementType::Uint32),
        ONNXTensorElementDataType::ONNX_TENSOR_ELEMENT_DATA_TYPE_UINT64 => Some(TensorElementType::Uint64),
        ONNXTensorElementDataType::ONNX_TENSOR_ELEMENT_DATA_TYPE_BFLOAT16 => Some(TensorElementType::Bfloat16),
        _ => None,
    }
}

/// Whether a native code is in the supported set.
pub open spec fn is_supported_native(code: ONNXTensorElementDataType) -> bool {
    tag_of_native(code) is Some
}

impl TensorElementType {
    /// The native code of this tag. Total: every tag has one.
    pub fn to_native(self) -> (code: ONNXTensorElementDataType)
        ensures
            code == native_code_of(self),
            tag_of_native(code) == Some(self),
    {
        match self {
            TensorElementType::Float32 => ONNXTensorElementDataType::ONNX_TENSOR_ELEMENT_DATA_TYPE_FLOAT,
            TensorElementType::Uint8 => ONNXTensorElementDataType::ONNX_TENSOR_ELEMENT_DATA_TYPE_UINT8,
            TensorElementType::Int8 => ONNXTensorElementDataType::ONNX_TENSOR_ELEMENT_DATA_TYPE_INT8,
            TensorElementType::Uint16 => ONNXTensorElementDataType::ONNX_TENSOR_ELEMENT_DATA_TYPE_UINT16,
            TensorElementType::Int16 => ONNXTensorElementDataType::ONNX_TENSOR_ELEMENT_DATA_TYPE_INT16,
            TensorElementType::Int32 => ONNXTensorElementDataType::ONNX_TENSOR_ELEMENT_DATA_TYPE_INT32,
            TensorElementType::Int64 => ONNXTensorElementDataType::ONNX_TENSOR_ELEMENT_DATA_TYPE_INT64,
            TensorElementType::String => ONNXTensorElementDataType::ONNX_TENSOR_ELEMENT_DATA_TYPE_STRING,
            TensorElementType::Bool => ONNXTensorElementDataType::ONNX_TENSOR_ELEMENT_DATA_TYPE_BOOL,
            TensorElementType::Float16 => ONNXTensorElementDataType::ONNX_TENSOR_ELEMENT_DATA_TYPE_FLOAT16,
            TensorElementType::Float64 => ONNXTensorElementDataType::ONNX_TENSOR_ELEMENT_DATA_TYPE_DOUBLE,
            TensorElementType::Uint32 => ONNXTensorElementDataType::ONNX_TENSOR_ELEMENT_DATA_TYPE_UINT32,
            TensorElementType::Uint64 => ONNXTensorElementDataType::ONNX_TENSOR_ELEMENT_DATA_TYPE_UINT64,
            TensorElementType::Bfloat16 => ONNXTensorElementDataType::ONNX_TENSOR_ELEMENT_DATA_TYPE_BFLOAT16,
        }
    }

    /// The tag that `code` stands for, or `None` for a code outside the
    /// supported set.
    pub fn try_from_native(code: ONNXTensorElementDataType) -> (tag: Option<TensorElementType>)
        ensures
            tag == tag_of_native(code),
    {
        match code {
            ONNXTensorElementDataType::ONNX_TENSOR_ELEMENT_DATA_TYPE_FLOAT => Some(TensorElementType::Float32),
            ONNXTensorElementDataType::ONNX_TENSOR_ELEMENT_DATA_TYPE_UINT8 => Some(TensorElementType::Uint8),
            ONNXTensorElementDataType::ONNX_TENSOR_ELEMENT_DATA_TYPE_INT8 => Some(TensorElementType::Int8),
            ONNXTensorElementDataType::ONNX_TENSOR_ELEMENT_DATA_TYPE_UINT16 => Some(TensorElementType::Uint16),
            ONNXTensorElementDataType::ONNX_TENSOR_ELEMENT_DATA_TYPE_INT16 => Some(TensorElementType::Int16),
            ONNXTensorElementDataType::ONNX_TENSOR_ELEMENT_DATA_TYPE_INT32 => Some(TensorElementType::Int32),
            ONNXTensorElementDataType::ONNX_TENSOR_ELEMENT_DATA_TYPE_INT64 => Some(TensorElementType::Int64),
            ONNXTensorElementDataType::ONNX_TENSOR_ELEMENT_DATA_TYPE_STRING => Some(TensorElementType::String),
            ONNXTensorElementDataType::ONNX_TENSOR_ELEMENT_DATA_TYPE_BOOL => Some(TensorElementType::Bool),
            ONNXTensorElementDataType::ONNX_TENSOR_ELEMENT_DATA_TYPE_FLOAT16 => Some(TensorElementType::Float16),
            ONNXTensorElementDataType::ONNX_TENSOR_ELEMENT_DATA_TYPE_DOUBLE => Some(TensorElementType::Float64),
            ONNXTensorElementDataType::ONNX_TENSOR_ELEMENT_DATA_TYPE_UINT32 => Some(TensorElementType::Uint32),
            ONNXTensorElementDataType::ONNX_TENSOR_ELEMENT_DATA_TYPE_UINT64 => Some(TensorElementType::Uint64),
            ONNXTensorElementDataType::ONNX_TENSOR_ELEMENT_DATA_TYPE_BFLOAT16 => Some(TensorElementType::Bfloat16),
            _ => None,
        }
    }

    /// The tag that a supported native `code` stands for.
    pub fn from_native(code: ONNXTensorElementDataType) -> (tag: TensorElementType)
        requires
            is_supported_native(code),
        ensures
            Some(tag) == tag_of_native(code),
    {
        match Self::try_from_native(code) {
            Some(tag) => tag,
            None => vstd::pervasive::unreached(),
        }
    }
}

impl From<TensorElementType> for ONNXTensorElementDataType {
    fn from(val: TensorElementType) -> (code: ONNXTensorElementDataType) {
        val.to_native()
    }
}

impl vstd::std_specs::convert::FromSpecImpl<TensorElementType> for ONNXTensorElementDataType {
    open spec fn obeys_from_spec() -> bool {
        true
    }

    open spec fn from_spec(val: TensorElementType) -> ONNXTensorElementDataType {
        native_code_of(val)
    }
}

/// Converting a tag to its native code and back gives the tag again.
pub proof fn lemma_native_round_trip(tag: TensorElementType)
    ensures
        tag_of_native(native_code_of(tag)) == Some(tag),
{
}

/// Converting a supported native code to its tag and back gives the code
/// again: on the supported codes the two conversions are inverse bijections.
pub proof fn lemma_tag_round_trip(code: ONNXTensorElementDataType)
    requires
        is_supported_native(code),
    ensures
        native_code_of(tag_of_native(code)->0) == code,
{
}

/// No two tags share a native code.
pub proof fn lemma_native_codes_distinct(a: TensorElementType, b: TensorElementType)
    requires
        native_code_of(a) == native_code_of(b),
    ensures
        a == b,
{
}

/// Maps a host type to the element encoding under which its values are
/// stored in a tensor.
pub trait IntoTensorElementType {
    /// The encoding of this host type.
    spec fn stored_type() -> TensorElementType;

    /// Returns the encoding of this host type.
    fn into_tensor_element_type() -> (tag: TensorElementType)
        ensures
            tag == Self::stored_type(),
    ;
}

impl IntoTensorElementType for u8 {
    open spec fn stored_type() -> TensorElementType {
        TensorElementType::Uint8
    }

    fn into_tensor_element_type() -> (tag: TensorElementType) {
        TensorElementType::Uint8
    }
}

impl IntoTensorElementType for i8 {
    open spec fn stored_type() -> TensorElementType {
        TensorElementType::Int8
    }

    fn into_tensor_element_type() -> (tag: TensorElementType) {
        TensorElementType::Int8
    }
}

impl IntoTensorElementType for u16 {
    open spec fn stored_type() -> TensorElementType {
        TensorElementType::Uint16
    }

    fn into_tensor_element_type() -> (tag: TensorElementType) {
        TensorElementType::Uint16
    }
}

impl IntoTensorElementType for i16 {
    open spec fn stored_type() -> TensorElementType {
        TensorElementType::Int16
    }

    fn into_tensor_element_type() -> (tag: TensorElementType) {
        TensorElementType::Int16
    }
}

impl IntoTensorElementType for i32 {
    open spec fn stored_type() -> TensorElementType {
        TensorElementType::Int32
    }

    fn into_tensor_element_type() -> (tag: TensorElementType) {
        TensorElementType::Int32
    }
}

impl IntoTensorElementType for i64 {
    open spec fn stored_type() -> TensorElementType {
        TensorElementType::Int64
    }

    fn into_tensor_element_type() -> (tag: TensorElementType) {
        TensorElementType::Int64
    }
}

impl IntoTensorElementType for bool {
    open spec fn stored_type() -> TensorElementType {
        TensorElementType::Bool
    }

    fn into_tensor_element_type() -> (tag: TensorElementType) {
        TensorElementType::Bool
    }
}

impl IntoTensorElementType for u32 {
    open spec fn stored_type() -> TensorElementType {
        TensorElementType::Uint32
    }

    fn into_tensor_element_type() -> (tag: TensorElementType) {
        TensorElementType::Uint32
    }
}

impl IntoTensorElementType for u64 {
    open spec fn stored_type() -> TensorElementType {
        TensorElementType::Uint64
    }

    fn into_tensor_element_type() -> (tag: TensorElementType) {
        TensorElementType::Uint64
    }
}

impl IntoTensorElementType for half::bf16 {
    open spec fn stored_type() -> TensorElementType {
        TensorElementType::Bfloat16
    }

    fn into_tensor_element_type() -> (tag: TensorElementType) {
        TensorElementType::Bfloat16
    }
}

/// Adapter for the host's string types: both are handed to the engine as
/// UTF-8 bytes.
pub trait Utf8Data {
    /// The text of this value.
    spec fn text(&self) -> Seq<char>;

    /// Returns the contents of this value as UTF-8 bytes.
    fn as_utf8_bytes(&self) -> (bytes: &[u8])
        ensures
            bytes@ == encode_utf8(self.text()),
    ;
}

impl Utf8Data for String {
    open spec fn text(&self) -> Seq<char> {
        self@
    }

    fn as_utf8_bytes(&self) -> (bytes: &[u8]) {
        self.as_str().as_bytes()
    }
}

impl<'a> Utf8Data for &'a str {
    open spec fn text(&self) -> Seq<char> {
        self@
    }

    fn as_utf8_bytes(&self) -> (bytes: &[u8]) {
        self.as_bytes()
    }
}

} // verus!
