use minicov::range::ZERO_CHUNK_LEN;
use minicov::ByteRange;

#[test]
fn backed_range_needs_matching_length() {
    let bytes = [0u8; 12];
    assert!(ByteRange::backed(&bytes, 3, 4, false).is_some());
    assert!(ByteRange::backed(&bytes, 4, 3, false).is_some());
    assert!(ByteRange::backed(&bytes, 12, 1, false).is_some());
    assert!(ByteRange::backed(&bytes, 1, 12, true).is_some());
    assert!(ByteRange::backed(&bytes, 3, 3, false).is_none());
    assert!(ByteRange::backed(&bytes, 13, 1, false).is_none());
    assert!(ByteRange::backed(&bytes, 0, 12, false).is_none());
    assert!(ByteRange::backed(&bytes, 12, 0, false).is_none());
}

#[test]
fn backed_range_rejects_overflowing_product() {
    let bytes = [0u8; 4];
    assert!(ByteRange::backed(&bytes, usize::MAX, 2, false).is_none());
    assert!(ByteRange::backed(&bytes, usize::MAX / 2 + 1, 2, false).is_none());
    let none: [u8; 0] = [];
    assert!(ByteRange::backed(&none, usize::MAX, usize::MAX, false).is_none());
    assert!(ByteRange::backed(&none, usize::MAX, 0, false).is_some());
}

#[test]
fn padding_needs_length_that_fits() {
    assert!(ByteRange::padding(0, 0, true).is_some());
    assert!(ByteRange::padding(usize::MAX, 1, true).is_some());
    assert!(ByteRange::padding(1, usize::MAX, false).is_some());
    assert!(ByteRange::padding(usize::MAX, 0, true).is_some());
    assert!(ByteRange::padding(usize::MAX, 2, true).is_none());
    assert!(ByteRange::padding(usize::MAX / 2 + 1, 2, true).is_none());
    assert!(ByteRange::padding(usize::MAX / 2, 2, true).is_some());
}

#[test]
fn backed_range_reports_its_parts() {
    let bytes = [1u8, 2, 3, 4, 5, 6];
    let r = ByteRange::backed(&bytes, 2, 3, true).unwrap();
    assert_eq!(r.len(), 6);
    assert_eq!(r.elm_size(), 2);
    assert_eq!(r.num_elm(), 3);
    assert!(r.use_zero_padding());
    assert_eq!(r.data(), Some(&bytes[..]));
}

#[test]
fn padding_reports_its_parts() {
    let r = ByteRange::padding(8, 5, false).unwrap();
    assert_eq!(r.len(), 40);
    assert_eq!(r.elm_size(), 8);
    assert_eq!(r.num_elm(), 5);
    assert!(!r.use_zero_padding());
    assert_eq!(r.data(), None);
}

#[test]
fn scratch_chunk_is_sixteen_bytes() {
    assert_eq!(ZERO_CHUNK_LEN, 16);
}
