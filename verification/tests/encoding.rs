use db_mirror::encode::{encode_field, encode_record, frame_normal, not_set_bytes, EncodePlan};

#[test]
fn test_frame_normal_prefixes_length() {
    let bytes: Vec<u8> = vec![7, 8, 9];
    assert_eq!(vec![0u8, 0, 0, 3, 7, 8, 9], frame_normal(&bytes));
}

#[test]
fn test_frame_normal_empty_is_zero_length() {
    let bytes: Vec<u8> = Vec::new();
    assert_eq!(vec![0u8, 0, 0, 0], frame_normal(&bytes));
}

#[test]
fn test_not_set_marker_distinct_from_empty_and_null() {
    let marker = not_set_bytes();
    assert_eq!(vec![255u8, 255, 255, 254], marker);
    let empty: Vec<u8> = Vec::new();
    assert_ne!(frame_normal(&empty), marker);
    assert_ne!(vec![255u8, 255, 255, 255], marker);
}

#[test]
fn test_encode_field_present_and_absent() {
    let present = encode_field(&EncodePlan::OptionalBranch, &Some(vec![1u8, 2]));
    assert_eq!(vec![0u8, 0, 0, 2, 1, 2], present);
    let absent = encode_field(&EncodePlan::OptionalBranch, &None);
    assert_eq!(vec![255u8, 255, 255, 254], absent);
    let direct = encode_field(&EncodePlan::DirectBytes, &Some(vec![5u8]));
    assert_eq!(vec![0u8, 0, 0, 1, 5], direct);
}

#[test]
fn test_encode_record_concatenates_in_order() {
    let plans = vec![
        EncodePlan::DirectBytes,
        EncodePlan::OptionalBranch,
        EncodePlan::OptionalBranch,
    ];
    let values = vec![Some(vec![1u8, 2]), None, Some(vec![3u8])];
    let out = encode_record(&plans, &values);
    assert_eq!(
        vec![0u8, 0, 0, 2, 1, 2, 255, 255, 255, 254, 0, 0, 0, 1, 3],
        out
    );
}
