use vajra::bytes::bytes_equal;

#[test]
fn equal_bytes_are_found_equal() {
    assert!(bytes_equal(&[], &[]));
    assert!(bytes_equal(&[1, 2, 3], &[1, 2, 3]));
    assert!(!bytes_equal(&[1, 2, 3], &[1, 2, 4]));
    assert!(!bytes_equal(&[1, 2, 3], &[1, 2]));
    assert!(!bytes_equal(&[], &[0]));
    assert!(!bytes_equal(&[0, 1], &[1, 0]));
}
