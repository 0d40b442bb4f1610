use worker_security::bytes::{append, bytes_eq, contains_byte, copy_of, starts_with, tail_from};

#[test]
fn searching_a_byte() {
    assert!(contains_byte(&b"a=b".to_vec(), b'='));
    assert!(contains_byte(&b"=".to_vec(), b'='));
    assert!(contains_byte(&b"ab\0".to_vec(), 0));
    assert!(!contains_byte(&b"ab".to_vec(), b'='));
    assert!(!contains_byte(&Vec::new(), 0));
}

#[test]
fn comparing() {
    assert!(bytes_eq(&b"abc".to_vec(), &b"abc".to_vec()));
    assert!(bytes_eq(&Vec::new(), &Vec::new()));
    assert!(!bytes_eq(&b"abc".to_vec(), &b"abd".to_vec()));
    assert!(!bytes_eq(&b"abc".to_vec(), &b"ab".to_vec()));
    assert!(!bytes_eq(&b"".to_vec(), &b"a".to_vec()));
}

#[test]
fn prefixes() {
    assert!(starts_with(&b"/var/x".to_vec(), &b"/var".to_vec()));
    assert!(starts_with(&b"/var".to_vec(), &b"/var".to_vec()));
    assert!(starts_with(&b"/var".to_vec(), &Vec::new()));
    assert!(!starts_with(&b"/va".to_vec(), &b"/var".to_vec()));
    assert!(!starts_with(&b"/vbr/x".to_vec(), &b"/var".to_vec()));
}

#[test]
fn appending_and_cutting() {
    let mut v = b"ab".to_vec();
    append(&mut v, &b"cd".to_vec());
    assert_eq!(v, b"abcd".to_vec());
    append(&mut v, &Vec::new());
    assert_eq!(v, b"abcd".to_vec());
    assert_eq!(tail_from(&v, 1), b"bcd".to_vec());
    assert_eq!(tail_from(&v, 4), Vec::<u8>::new());
    assert_eq!(tail_from(&v, 0), v);
    assert_eq!(copy_of(&v), v);
}
