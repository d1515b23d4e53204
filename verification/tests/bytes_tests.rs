use genloop::bytes::{bytes_eq, contains_bytes, copy_vec};

#[test]
fn equal_vectors_compare_equal() {
    assert!(bytes_eq(&vec![1, 2, 3], &vec![1, 2, 3]));
    assert!(!bytes_eq(&vec![1, 2, 3], &vec![1, 2, 4]));
    assert!(!bytes_eq(&vec![1, 2], &vec![1, 2, 3]));
    assert!(bytes_eq(&vec![], &vec![]));
}

#[test]
fn empty_needle_is_everywhere() {
    assert!(contains_bytes(&vec![], &vec![]));
    assert!(contains_bytes(&vec![1, 2], &vec![]));
}

#[test]
fn needle_found_at_every_position() {
    let hay = b"abcde".to_vec();
    assert!(contains_bytes(&hay, &b"ab".to_vec()));
    assert!(contains_bytes(&hay, &b"cd".to_vec()));
    assert!(contains_bytes(&hay, &b"de".to_vec()));
    assert!(contains_bytes(&hay, &b"abcde".to_vec()));
}

#[test]
fn absent_needle_is_not_found() {
    let hay = b"abcde".to_vec();
    assert!(!contains_bytes(&hay, &b"ba".to_vec()));
    assert!(!contains_bytes(&hay, &b"abcdef".to_vec()));
    assert!(!contains_bytes(&vec![], &b"a".to_vec()));
}

#[test]
fn copied_vector_holds_the_same_elements() {
    let v: Vec<u32> = vec![4, 5, 6];
    assert_eq!(copy_vec(&v), v);
}
