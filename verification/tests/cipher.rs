//! Stream cipher behavior: the standard test vector, and the keystream
//! involution the relay depends on.

use realmpipe::rc4::Rc4;

#[test]
fn known_vector() {
    // the classic published vector: key "Key", plaintext "Plaintext"
    let mut c = Rc4::new(b"Key");
    let mut data = b"Plaintext".to_vec();
    c.process(&mut data);
    assert_eq!(data, vec![0xBB, 0xF3, 0x16, 0xE8, 0xD9, 0x40, 0xAF, 0x0A, 0xD3]);
}

#[test]
fn known_vector_wiki() {
    let mut c = Rc4::new(b"Wiki");
    let mut data = b"pedia".to_vec();
    c.process(&mut data);
    assert_eq!(data, vec![0x10, 0x21, 0xBF, 0x04, 0x20]);
}

#[test]
fn process_twice_with_clone_returns_input() {
    let c = Rc4::new(&[9, 8, 7, 6, 5, 4, 3, 2, 1, 0, 1, 2, 3]);
    let mut a = c.duplicate();
    let mut b = c.duplicate();
    let original: Vec<u8> = (0u8..200).collect();
    let mut data = original.clone();
    a.process(&mut data);
    assert_ne!(data, original);
    b.process(&mut data);
    assert_eq!(data, original);
}

#[test]
fn keystream_depends_on_position() {
    let mut c = Rc4::new(b"abc");
    let mut first = vec![0u8; 8];
    let mut second = vec![0u8; 8];
    c.process(&mut first);
    c.process(&mut second);
    // two consecutive keystream windows of one generator differ
    assert_ne!(first, second);
}
