use ort::element_type::{IntoTensorElementType, TensorElementType};
use ort::error::{is_success, ExtractError, ForeignCall};
use ort::extract::{
    extract_primitive_array, extract_string_array, string_buffers, try_extract_string_array, EngineReply,
    ExtractTensorData, TensorData, TextReplyFault,
};
use ort_sys::OrtErrorCode;

fn strings_of(data: TensorData) -> ndarray::ArrayD<String> {
    match data {
        TensorData::Strings { strings } => strings.inner,
        TensorData::PrimitiveView { .. } => panic!("expected owned strings"),
    }
}

#[test]
fn status_codes_are_judged() {
    assert!(is_success(OrtErrorCode::ORT_OK));
    assert!(!is_success(OrtErrorCode::ORT_FAIL));
    assert!(!is_success(OrtErrorCode::ORT_INVALID_ARGUMENT));
    assert!(!is_success(OrtErrorCode::ORT_EP_FAIL));
}

#[test]
fn primitive_view_names_the_data_in_place() {
    let values: Vec<f32> = vec![1.0, 2.0, 3.0, 4.0, 5.0, 6.0];
    let data = values.as_ptr() as usize;
    let result =
        extract_primitive_array(TensorElementType::Float32, vec![2, 3], 6, 0x1000, OrtErrorCode::ORT_OK, data);
    match result {
        Ok(TensorData::PrimitiveView { ptr, array_view }) => {
            assert_eq!(ptr, 0x1000);
            assert_eq!(array_view.data, data);
            assert_eq!(array_view.shape, vec![2, 3]);
            assert_eq!(array_view.element_type, TensorElementType::Float32);
            let view = ndarray::ArrayView::from_shape(ndarray::IxDyn(&array_view.shape), &values).unwrap();
            assert_eq!(view[[1, 2]], 6.0);
        }
        _ => panic!("expected a view"),
    }
}

#[test]
fn primitive_extraction_reports_the_failed_call() {
    let result =
        extract_primitive_array(TensorElementType::Int32, vec![4], 4, 0x1000, OrtErrorCode::ORT_FAIL, 0x2000);
    match result {
        Err(e) => assert_eq!(
            e,
            ExtractError::ForeignCallFailed { call: ForeignCall::GetTensorMutableData, code: OrtErrorCode::ORT_FAIL }
        ),
        Ok(_) => panic!("expected an error"),
    }
}

#[test]
fn primitive_extraction_rejects_a_null_data_pointer() {
    let result = extract_primitive_array(TensorElementType::Int32, vec![4], 4, 0x1000, OrtErrorCode::ORT_OK, 0);
    match result {
        Err(e) => assert_eq!(e, ExtractError::NullOutputViolation { call: ForeignCall::GetTensorMutableData }),
        Ok(_) => panic!("expected an error"),
    }
}

#[test]
fn string_buffers_are_zeroed_and_sized() {
    let buffers = string_buffers(OrtErrorCode::ORT_OK, 8, 3).unwrap();
    assert_eq!(buffers.content, vec![0u8; 8]);
    assert_eq!(buffers.offsets, vec![0usize; 4]);
    let empty = string_buffers(OrtErrorCode::ORT_OK, 0, 0).unwrap();
    assert_eq!(empty.content, Vec::<u8>::new());
    assert_eq!(empty.offsets, vec![0usize]);
}

#[test]
fn string_buffers_report_the_failed_length_call() {
    match string_buffers(OrtErrorCode::ORT_INVALID_ARGUMENT, 8, 3) {
        Err(e) => assert_eq!(
            e,
            ExtractError::ForeignCallFailed {
                call: ForeignCall::GetStringTensorDataLength,
                code: OrtErrorCode::ORT_INVALID_ARGUMENT
            }
        ),
        Ok(_) => panic!("expected an error"),
    }
}

#[test]
fn string_extraction_backfills_the_last_offset() {
    let content = b"abXYZqrs".to_vec();
    let offsets = vec![0, 2, 5, 0];
    let data = extract_string_array(vec![3], 3, OrtErrorCode::ORT_OK, 8, content, offsets).ok().unwrap();
    let strings = strings_of(data);
    assert_eq!(strings.shape(), &[3]);
    let flat: Vec<String> = strings.iter().cloned().collect();
    assert_eq!(flat, vec!["ab", "XYZ", "qrs"]);
}

#[test]
fn string_extraction_shapes_the_elements() {
    let content = b"abcdef".to_vec();
    let offsets = vec![0, 1, 2, 3, 4, 5, 0];
    let data = extract_string_array(vec![3, 2], 6, OrtErrorCode::ORT_OK, 6, content, offsets).ok().unwrap();
    let strings = strings_of(data);
    assert_eq!(strings.shape(), &[3, 2]);
    assert_eq!(strings[[0, 1]], "b");
    assert_eq!(strings[[2, 0]], "e");
    assert_eq!(strings[[2, 1]], "f");
}

#[test]
fn string_extraction_of_no_elements() {
    let data = extract_string_array(vec![0], 0, OrtErrorCode::ORT_OK, 0, vec![], vec![0]).ok().unwrap();
    let strings = strings_of(data);
    assert_eq!(strings.shape(), &[0]);
    assert_eq!(strings.len(), 0);
}

#[test]
fn string_extraction_fails_whole_on_invalid_utf8() {
    let content = vec![0x61, 0x62, 0xff, 0xfe, 0x71];
    let offsets = vec![0, 2, 4, 0];
    match extract_string_array(vec![3], 3, OrtErrorCode::ORT_OK, 5, content, offsets) {
        Err(e) => assert_eq!(e, ExtractError::TextDecodeFailed { index: 1, start: 2, end: 4 }),
        Ok(_) => panic!("expected an error"),
    }
}

#[test]
fn string_extraction_reports_invalid_last_element() {
    let content = vec![0x61, 0x62, 0xc3];
    let offsets = vec![0, 2, 0];
    match extract_string_array(vec![2], 2, OrtErrorCode::ORT_OK, 3, content, offsets) {
        Err(e) => assert_eq!(e, ExtractError::TextDecodeFailed { index: 1, start: 2, end: 3 }),
        Ok(_) => panic!("expected an error"),
    }
}

#[test]
fn string_extraction_reports_the_failed_content_call() {
    match extract_string_array(vec![3], 3, OrtErrorCode::ORT_RUNTIME_EXCEPTION, 8, vec![0; 8], vec![0; 4]) {
        Err(e) => assert_eq!(
            e,
            ExtractError::ForeignCallFailed {
                call: ForeignCall::GetStringTensorContent,
                code: OrtErrorCode::ORT_RUNTIME_EXCEPTION
            }
        ),
        Ok(_) => panic!("expected an error"),
    }
}

#[test]
fn host_types_extract_from_their_tags() {
    assert_eq!(<u8 as ExtractTensorData>::tensor_element_type(), TensorElementType::Uint8);
    assert_eq!(<i8 as ExtractTensorData>::tensor_element_type(), TensorElementType::Int8);
    assert_eq!(<u16 as ExtractTensorData>::tensor_element_type(), TensorElementType::Uint16);
    assert_eq!(<i16 as ExtractTensorData>::tensor_element_type(), TensorElementType::Int16);
    assert_eq!(<i32 as ExtractTensorData>::tensor_element_type(), TensorElementType::Int32);
    assert_eq!(<i64 as ExtractTensorData>::tensor_element_type(), TensorElementType::Int64);
    assert_eq!(<bool as ExtractTensorData>::tensor_element_type(), TensorElementType::Bool);
    assert_eq!(<u32 as ExtractTensorData>::tensor_element_type(), TensorElementType::Uint32);
    assert_eq!(<u64 as ExtractTensorData>::tensor_element_type(), TensorElementType::Uint64);
    assert_eq!(<half::bf16 as ExtractTensorData>::tensor_element_type(), TensorElementType::Bfloat16);
    assert_eq!(<String as ExtractTensorData>::tensor_element_type(), TensorElementType::String);
}

#[test]
fn extract_and_store_tags_agree() {
    assert_eq!(<u8 as ExtractTensorData>::tensor_element_type(), u8::into_tensor_element_type());
    assert_eq!(<i64 as ExtractTensorData>::tensor_element_type(), i64::into_tensor_element_type());
    assert_eq!(<bool as ExtractTensorData>::tensor_element_type(), bool::into_tensor_element_type());
    assert_eq!(<half::bf16 as ExtractTensorData>::tensor_element_type(), half::bf16::into_tensor_element_type());
}

#[test]
fn typed_extraction_of_integers_gives_a_view() {
    let values: Vec<i64> = vec![10, 20, 30, 40];
    let data = values.as_ptr() as usize;
    let reply = EngineReply::Data { status: OrtErrorCode::ORT_OK, data };
    match i64::extract_tensor_array(vec![2, 2], 4, 0x3000, reply) {
        Ok(TensorData::PrimitiveView { ptr, array_view }) => {
            assert_eq!(ptr, 0x3000);
            assert_eq!(array_view.data, data);
            assert_eq!(array_view.shape, vec![2, 2]);
            assert_eq!(array_view.element_type, TensorElementType::Int64);
        }
        _ => panic!("expected a view"),
    }
}

#[test]
fn typed_extraction_of_strings_gives_owned_text() {
    let reply = EngineReply::Text {
        status: OrtErrorCode::ORT_OK,
        total_length: 8,
        content: b"abXYZqrs".to_vec(),
        offsets: vec![0, 2, 5, 0],
    };
    let data = String::extract_tensor_array(vec![3], 3, 0x3000, reply).ok().unwrap();
    let flat: Vec<String> = strings_of(data).iter().cloned().collect();
    assert_eq!(flat, vec!["ab", "XYZ", "qrs"]);
}

#[test]
fn checked_string_extraction_decodes_a_sound_reply() {
    let extracted =
        try_extract_string_array(vec![3], 3, OrtErrorCode::ORT_OK, 8, b"abXYZqrs".to_vec(), vec![0, 2, 5, 0]);
    let flat: Vec<String> = strings_of(extracted.ok().unwrap().ok().unwrap()).iter().cloned().collect();
    assert_eq!(flat, vec!["ab", "XYZ", "qrs"]);
}

fn fault_of(r: Result<Result<TensorData, ExtractError>, TextReplyFault>) -> Option<TextReplyFault> {
    match r {
        Ok(_) => None,
        Err(fault) => Some(fault),
    }
}

fn error_of(r: Result<Result<TensorData, ExtractError>, TextReplyFault>) -> Option<ExtractError> {
    match r {
        Ok(Err(e)) => Some(e),
        _ => None,
    }
}

#[test]
fn checked_string_extraction_passes_errors_on() {
    assert_eq!(
        error_of(try_extract_string_array(vec![3], 3, OrtErrorCode::ORT_FAIL, 0, vec![], vec![])),
        Some(ExtractError::ForeignCallFailed {
            call: ForeignCall::GetStringTensorContent,
            code: OrtErrorCode::ORT_FAIL
        })
    );
    assert_eq!(
        error_of(try_extract_string_array(vec![1], 1, OrtErrorCode::ORT_OK, 1, vec![0xff], vec![0, 0])),
        Some(ExtractError::TextDecodeFailed { index: 0, start: 0, end: 1 })
    );
}

#[test]
fn checked_string_extraction_names_the_fault_of_a_broken_reply() {
    let ok = OrtErrorCode::ORT_OK;
    let content = b"abXYZqrs".to_vec();
    assert_eq!(
        fault_of(try_extract_string_array(vec![3], 3, ok, 8, content.clone(), vec![0, 5, 2, 0])),
        Some(TextReplyFault::SpanOutOfBounds { index: 1 })
    );
    assert_eq!(
        fault_of(try_extract_string_array(vec![3], 3, ok, 8, content.clone(), vec![0, 2, 9, 0])),
        Some(TextReplyFault::SpanOutOfBounds { index: 1 })
    );
    assert_eq!(
        fault_of(try_extract_string_array(vec![3], 3, ok, 8, content.clone(), vec![0, 2, 5, 8])),
        Some(TextReplyFault::LastOffsetWritten)
    );
    assert_eq!(
        fault_of(try_extract_string_array(vec![3], 3, ok, 8, content.clone(), vec![0, 2, 5])),
        Some(TextReplyFault::BufferSizes)
    );
    assert_eq!(
        fault_of(try_extract_string_array(vec![3], 3, ok, 8, b"abXYZ".to_vec(), vec![0, 2, 5, 0])),
        Some(TextReplyFault::BufferSizes)
    );
    assert_eq!(
        fault_of(try_extract_string_array(vec![2, 2], 3, ok, 8, content.clone(), vec![0, 2, 5, 0])),
        Some(TextReplyFault::ShapeMismatch)
    );
    assert_eq!(
        fault_of(try_extract_string_array(vec![3], usize::MAX, ok, 8, content, vec![0, 2, 5, 0])),
        Some(TextReplyFault::BufferSizes)
    );
}

#[test]
fn decode_error_comes_before_a_mismatched_shape() {
    let ok = OrtErrorCode::ORT_OK;
    let content = vec![0x61, 0x62, 0xff, 0xfe, 0x71];
    assert_eq!(
        error_of(try_extract_string_array(vec![2, 2], 3, ok, 5, content.clone(), vec![0, 2, 4, 0])),
        Some(ExtractError::TextDecodeFailed { index: 1, start: 2, end: 4 })
    );
    match extract_string_array(vec![2, 2], 3, ok, 5, content, vec![0, 2, 4, 0]) {
        Err(e) => assert_eq!(e, ExtractError::TextDecodeFailed { index: 1, start: 2, end: 4 }),
        Ok(_) => panic!("expected a decode failure"),
    }
}

#[test]
fn decode_error_comes_before_broken_offsets_behind_it() {
    let ok = OrtErrorCode::ORT_OK;
    let content = vec![0x61, 0xff, 0x62, 0x63];
    assert_eq!(
        error_of(try_extract_string_array(vec![3], 3, ok, 4, content.clone(), vec![0, 1, 2, 0])),
        Some(ExtractError::TextDecodeFailed { index: 1, start: 1, end: 2 })
    );
    assert_eq!(
        error_of(try_extract_string_array(vec![4], 4, ok, 4, content, vec![0, 1, 2, 1, 0])),
        Some(ExtractError::TextDecodeFailed { index: 1, start: 1, end: 2 })
    );
}

#[test]
fn broken_offsets_come_before_a_decode_error_behind_them() {
    let ok = OrtErrorCode::ORT_OK;
    let content = vec![0x61, 0x62, 0x63, 0xff];
    assert_eq!(
        fault_of(try_extract_string_array(vec![3], 3, ok, 4, content, vec![2, 1, 3, 0])),
        Some(TextReplyFault::SpanOutOfBounds { index: 0 })
    );
}

#[test]
fn primitive_extraction_reports_errors_whatever_the_shape() {
    match extract_primitive_array(TensorElementType::Int32, vec![5], 4, 0x1000, OrtErrorCode::ORT_FAIL, 0x2000) {
        Err(e) => assert_eq!(
            e,
            ExtractError::ForeignCallFailed { call: ForeignCall::GetTensorMutableData, code: OrtErrorCode::ORT_FAIL }
        ),
        Ok(_) => panic!("expected an error"),
    }
    match extract_primitive_array(TensorElementType::Int32, vec![5], 4, 0x1000, OrtErrorCode::ORT_OK, 0) {
        Err(e) => assert_eq!(e, ExtractError::NullOutputViolation { call: ForeignCall::GetTensorMutableData }),
        Ok(_) => panic!("expected an error"),
    }
}
