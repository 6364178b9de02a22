use ort::error::ExtractError;
use ort::strings::{decode_strings, scan_strings, shape_strings, DecodeStop};

#[test]
fn decodes_three_elements() {
    let content = b"abXYZqrs".to_vec();
    let offsets = vec![0, 2, 5, 8];
    let strings = decode_strings(&content, &offsets).unwrap();
    assert_eq!(strings, vec!["ab".to_string(), "XYZ".to_string(), "qrs".to_string()]);
}

#[test]
fn decodes_empty_elements_and_multibyte_text() {
    let content = "h\u{e9}\u{4e16}".as_bytes().to_vec();
    let offsets = vec![0, 0, 1, 3, 6, 6];
    let strings = decode_strings(&content, &offsets).unwrap();
    assert_eq!(
        strings,
        vec!["".to_string(), "h".to_string(), "\u{e9}".to_string(), "\u{4e16}".to_string(), "".to_string()]
    );
}

#[test]
fn decodes_no_elements() {
    let strings = decode_strings(&vec![], &vec![0]).unwrap();
    assert!(strings.is_empty());
}

#[test]
fn invalid_utf8_names_the_element_and_its_bytes() {
    let content = vec![0x61, 0x62, 0xff, 0xfe, 0x71];
    let offsets = vec![0, 2, 4, 5];
    assert_eq!(
        decode_strings(&content, &offsets),
        Err(ExtractError::TextDecodeFailed { index: 1, start: 2, end: 4 })
    );
}

#[test]
fn first_invalid_element_is_reported() {
    let content = vec![0xc3, 0x28, 0x61, 0xff];
    let offsets = vec![0, 2, 3, 4];
    assert_eq!(
        decode_strings(&content, &offsets),
        Err(ExtractError::TextDecodeFailed { index: 0, start: 0, end: 2 })
    );
}

#[test]
fn split_multibyte_character_is_invalid() {
    let content = "\u{e9}".as_bytes().to_vec();
    let offsets = vec![0, 1, 2];
    assert_eq!(
        decode_strings(&content, &offsets),
        Err(ExtractError::TextDecodeFailed { index: 0, start: 0, end: 1 })
    );
}

#[test]
fn scan_decodes_what_lies_inside_the_content() {
    let strings = scan_strings(&b"abXYZqrs".to_vec(), &vec![0, 2, 5, 8]).unwrap();
    assert_eq!(strings, vec!["ab".to_string(), "XYZ".to_string(), "qrs".to_string()]);
    assert_eq!(scan_strings(&vec![], &vec![0]), Ok(vec![]));
    assert_eq!(scan_strings(&vec![], &vec![7]), Ok(vec![]));
}

#[test]
fn scan_stops_at_offsets_outside_the_content() {
    let content = b"abXYZqrs".to_vec();
    assert_eq!(scan_strings(&content, &vec![0, 5, 2, 8]), Err(DecodeStop::OutOfBounds { index: 1 }));
    assert_eq!(scan_strings(&content, &vec![0, 2, 5, 9]), Err(DecodeStop::OutOfBounds { index: 2 }));
    assert_eq!(scan_strings(&content, &vec![3, 2]), Err(DecodeStop::OutOfBounds { index: 0 }));
}

#[test]
fn scan_reports_what_it_reaches_first() {
    let content = vec![0x61, 0xff, 0x62, 0x63];
    // element 1 is not UTF-8 and element 2 runs backwards: element 1 is reached first
    assert_eq!(
        scan_strings(&content, &vec![0, 1, 2, 1]),
        Err(DecodeStop::NotUtf8 { index: 1, start: 1, end: 2 })
    );
    // element 0 runs beyond the content and element 1 is not UTF-8
    assert_eq!(scan_strings(&content, &vec![0, 9, 2, 4]), Err(DecodeStop::OutOfBounds { index: 0 }));
}

#[test]
fn decoding_stops_before_broken_offsets_behind_invalid_text() {
    let content = vec![0x61, 0xff, 0x62, 0x63];
    assert_eq!(
        decode_strings(&content, &vec![0, 1, 2, 1]),
        Err(ExtractError::TextDecodeFailed { index: 1, start: 1, end: 2 })
    );
}

#[test]
fn strings_are_arranged_row_major() {
    let strings: Vec<String> = ["a", "b", "c", "d", "e", "f"].iter().map(|s| s.to_string()).collect();
    let array = shape_strings(&vec![2, 3], strings);
    assert_eq!(array.inner.shape(), &[2, 3]);
    assert_eq!(array.inner[[0, 0]], "a");
    assert_eq!(array.inner[[0, 2]], "c");
    assert_eq!(array.inner[[1, 0]], "d");
    assert_eq!(array.inner[[1, 2]], "f");
    let flat: Vec<String> = array.inner.iter().cloned().collect();
    assert_eq!(flat, vec!["a", "b", "c", "d", "e", "f"]);
}

#[test]
fn strings_fill_a_shape_without_axes() {
    let array = shape_strings(&vec![], vec!["only".to_string()]);
    assert_eq!(array.inner.ndim(), 0);
    assert_eq!(array.inner.len(), 1);
    assert_eq!(array.inner.iter().next().unwrap(), "only");
}

#[test]
fn no_strings_fill_a_shape_with_a_zero_axis() {
    let array = shape_strings(&vec![2, 0], vec![]);
    assert_eq!(array.inner.shape(), &[2, 0]);
    assert_eq!(array.inner.len(), 0);
}
