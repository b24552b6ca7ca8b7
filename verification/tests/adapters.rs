//! Field codec behavior: primitives, length-prefixed sequences and
//! strings, and the optional trailing field.

use realmpipe::adapters::primitives::{F32Bits, F64Bits};
use realmpipe::adapters::rle::{RLE, RLEString};
use realmpipe::adapters::{Error, Invalid, NetworkAdapter, Reader};

fn roundtrip<T: NetworkAdapter + PartialEq + Clone + std::fmt::Debug>(v: T, expect: &[u8]) {
    let mut buf: Vec<u8> = Vec::new();
    v.clone().put_be(&mut buf).expect("encoding error");
    assert_eq!(buf, expect.to_vec());
    let mut r = Reader::new(buf);
    let back = T::get_be(&mut r).expect("decoding error");
    assert_eq!(back, v);
    assert_eq!(r.remaining(), 0);
}

#[test]
fn check_rle_size() {
    assert_eq!(
        std::mem::size_of::<RLE<Vec<u32>>>(),
        std::mem::size_of::<Vec<u32>>()
    );
}

#[test]
fn test_rle_vec() {
    let mut buf = vec![];
    RLE::<Vec<u8>>::new(vec![1, 2, 3, 4, 5])
        .put_be(&mut buf)
        .expect("encoding error");
    assert_eq!(buf, vec![0, 5, 1, 2, 3, 4, 5]);

    let mut rd = Reader::new(buf);
    let output = RLE::<Vec<u8>>::get_be(&mut rd).expect("decoding error");
    assert_eq!(output.unwrap(), vec![1, 2, 3, 4, 5]);

    let large = (0..300).collect::<Vec<u16>>();
    let mut buf = vec![];
    assert!(matches!(
        RLE::<_, u8>::new(large).put_be(&mut buf),
        Err(Error::InvalidData(_))
    ));
}

#[test]
fn test_rle_string() {
    let mut buf = vec![];
    RLE::<String>::new("hello world".to_owned())
        .put_be(&mut buf)
        .expect("encoding error");

    let expected_encoded = {
        let mut b = vec![0, 11];
        b.extend_from_slice(b"hello world");
        b
    };

    assert_eq!(buf, expected_encoded);

    let mut rd = Reader::new(buf);
    let output = RLE::<String>::get_be(&mut rd).expect("decoding error");
    assert_eq!(output.unwrap(), "hello world");

    let large = "abc".repeat(100);
    let mut buf = vec![];
    assert!(matches!(
        RLE::<String, u8>::new(large).put_be(&mut buf),
        Err(Error::InvalidData(_))
    ))
}

#[test]
fn rle_check_rle_size() {
    assert_eq!(
        std::mem::size_of::<RLE<Vec<u32>>>(),
        std::mem::size_of::<Vec<u32>>()
    );
}

#[test]
fn rle_test_rle_vec() {
    let mut buf = vec![];
    RLE::<Vec<u8>>::new(vec![1, 2, 3, 4, 5])
        .put_be(&mut buf)
        .expect("encoding error");
    assert_eq!(buf, vec![0, 5, 1, 2, 3, 4, 5]);

    let mut rd = Reader::new(buf);
    let output = RLE::<Vec<u8>>::get_be(&mut rd).expect("decoding error");
    assert_eq!(output.unwrap(), vec![1, 2, 3, 4, 5]);

    let large = (0..300).collect::<Vec<u16>>();
    let mut buf = vec![];
    assert!(matches!(
        RLE::<_, u8>::new(large).put_be(&mut buf),
        Err(Error::InvalidData(_))
    ));
}

#[test]
fn rle_test_rle_string() {
    let mut buf = vec![];
    RLE::<String>::new("hello world".to_owned())
        .put_be(&mut buf)
        .expect("encoding error");

    let expected_encoded = {
        let mut b = vec![0, 11];
        b.extend_from_slice(b"hello world");
        b
    };

    assert_eq!(buf, expected_encoded);

    let mut rd = Reader::new(buf);
    let output = RLE::<String>::get_be(&mut rd).expect("decoding error");
    assert_eq!(output.unwrap(), "hello world");

    let large = "abc".repeat(100);
    let mut buf = vec![];
    assert!(matches!(
        RLE::<String, u8>::new(large).put_be(&mut buf),
        Err(Error::InvalidData(_))
    ))
}

#[test]
fn primitives_roundtrip() {
    roundtrip(0x12u8, &[0x12]);
    roundtrip(0xBEEFu16, &[0xBE, 0xEF]);
    roundtrip(0xDEADBEEFu32, &[0xDE, 0xAD, 0xBE, 0xEF]);
    roundtrip(0x0102030405060708u64, &[1, 2, 3, 4, 5, 6, 7, 8]);
    roundtrip(-1i8, &[0xFF]);
    roundtrip(-2i16, &[0xFF, 0xFE]);
    roundtrip(-3i32, &[0xFF, 0xFF, 0xFF, 0xFD]);
    roundtrip(-4i64, &[0xFF, 0xFF, 0xFF, 0xFF, 0xFF, 0xFF, 0xFF, 0xFC]);
    roundtrip(true, &[1]);
    roundtrip(false, &[0]);
    roundtrip(F32Bits(1.5f32.to_bits()), &1.5f32.to_bits().to_be_bytes());
    roundtrip(F64Bits(2.5f64.to_bits()), &2.5f64.to_bits().to_be_bytes());
}

#[test]
fn bool_nonzero_decodes_true() {
    let mut r = Reader::new(vec![7]);
    assert_eq!(bool::get_be(&mut r).unwrap(), true);
}

#[test]
fn rle_string_wrapper() {
    let mut buf = vec![];
    RLEString::<u16>::new("hi".to_owned())
        .put_be(&mut buf)
        .expect("encoding error");
    assert_eq!(buf, vec![0, 2, b'h', b'i']);
    let mut rd = Reader::new(buf);
    let s = RLEString::<u16>::get_be(&mut rd).expect("decoding error");
    assert_eq!(s.unwrap(), "hi");
}

#[test]
fn string_multibyte_counts_bytes() {
    // a two-character string of three UTF-8 bytes: the prefix counts bytes
    let mut buf = vec![];
    RLE::<String>::new("aé".to_owned())
        .put_be(&mut buf)
        .expect("encoding error");
    assert_eq!(buf, vec![0, 3, 0x61, 0xC3, 0xA9]);
    let mut rd = Reader::new(buf);
    let s = RLE::<String>::get_be(&mut rd).expect("decoding error");
    assert_eq!(s.unwrap(), "aé");
}

#[test]
fn string_bad_utf8_is_invalid_data() {
    let mut rd = Reader::new(vec![0, 2, 0xC3, 0x28]);
    assert!(matches!(
        RLE::<String>::get_be(&mut rd),
        Err(Error::InvalidData(Invalid::Utf8))
    ));
}

#[test]
fn insufficient_data_reports_remaining_and_needed() {
    let mut rd = Reader::new(vec![1, 2]);
    match u32::get_be(&mut rd) {
        Err(Error::InsufficientData { remaining, needed }) => {
            assert_eq!(remaining, 2);
            assert_eq!(needed, 4);
        }
        other => panic!("unexpected outcome: {:?}", other),
    }
}

#[test]
fn count_overflow_reports_len_and_limit() {
    let big = (0..256).map(|x| x as u8).collect::<Vec<u8>>();
    let mut buf = vec![];
    match RLE::<Vec<u8>, u8>::new(big).put_be(&mut buf) {
        Err(Error::InvalidData(Invalid::CountOverflow { len, limit })) => {
            assert_eq!(len, 256);
            assert_eq!(limit, 255);
        }
        other => panic!("unexpected outcome: {:?}", other),
    }
    assert!(buf.is_empty());
}

#[test]
fn nested_sequence_roundtrip() {
    let v = RLE::<Vec<RLE<String, u32>>, u16>::new(vec![
        RLE::new("ab".to_owned()),
        RLE::new("c".to_owned()),
    ]);
    let mut buf = vec![];
    v.put_be(&mut buf).expect("encoding error");
    assert_eq!(
        buf,
        vec![0, 2, 0, 0, 0, 2, b'a', b'b', 0, 0, 0, 1, b'c']
    );
    let mut rd = Reader::new(buf);
    let back = RLE::<Vec<RLE<String, u32>>, u16>::get_be(&mut rd).expect("decoding error");
    let items = back.unwrap();
    assert_eq!(items[0].get_ref(), "ab");
    assert_eq!(items[1].get_ref(), "c");
}

#[test]
fn failed_decode_consumes_nothing() {
    // a sequence that runs out mid-item: the reader stands where it stood
    let mut rd = Reader::new(vec![0, 3, 1, 2]);
    assert!(RLE::<Vec<u32>>::get_be(&mut rd).is_err());
    assert_eq!(rd.remaining(), 4);
    // a string with bad UTF-8: likewise
    let mut rd = Reader::new(vec![0, 2, 0xC3, 0x28]);
    assert!(RLE::<String>::get_be(&mut rd).is_err());
    assert_eq!(rd.remaining(), 4);
}

#[test]
fn failed_encode_writes_nothing() {
    // a nested failure: the first item encodes, the second overflows its
    // prefix; the sink holds exactly what it held
    let ok = RLE::<Vec<u8>, u8>::new(vec![1]);
    let bad = RLE::<Vec<u8>, u8>::new((0..=255).collect());
    let v = RLE::<Vec<RLE<Vec<u8>, u8>>, u16>::new(vec![ok, bad]);
    let mut buf = vec![0xAA];
    assert!(matches!(v.put_be(&mut buf), Err(Error::InvalidData(_))));
    assert_eq!(buf, vec![0xAA]);
}
