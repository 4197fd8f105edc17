use db_key::Key;
use leveldb_py::key::{compare_bytes, BytesKey, KeyOrder};
use std::cmp::Ordering;

fn bytes_of(key: &BytesKey) -> Vec<u8> {
    key.as_slice(|b| b.to_vec())
}

#[test]
fn round_trip_returns_the_same_bytes() {
    let key = BytesKey::from_u8(b"hello");
    assert_eq!(bytes_of(&key), b"hello".to_vec());
}

#[test]
fn round_trip_of_the_empty_key() {
    let key = BytesKey::from_u8(&[]);
    assert_eq!(bytes_of(&key), Vec::<u8>::new());
    assert_eq!(key.as_slice(|b| b.len()), 0);
}

#[test]
fn round_trip_keeps_zero_bytes_and_high_bytes() {
    let raw: [u8; 7] = [0x00, 0x61, 0x00, 0xff, 0x80, 0x00, 0x00];
    let key = BytesKey::from_u8(&raw);
    assert_eq!(bytes_of(&key), raw.to_vec());
    assert_eq!(key.as_slice(|b| b.len()), 7);
}

#[test]
fn round_trip_does_not_normalise_text() {
    let upper = BytesKey::from_u8(b"KEY");
    let lower = BytesKey::from_u8(b"key");
    assert_eq!(bytes_of(&upper), vec![0x4b, 0x45, 0x59]);
    assert_ne!(upper, lower);
    let not_utf8 = BytesKey::from_u8(&[0xc3, 0x28]);
    assert_eq!(bytes_of(&not_utf8), vec![0xc3, 0x28]);
}

#[test]
fn from_u8_copies_its_input() {
    let mut raw = vec![1u8, 2, 3];
    let key = BytesKey::from_u8(&raw);
    raw[0] = 9;
    assert_eq!(bytes_of(&key), vec![1, 2, 3]);
}

#[test]
fn the_engine_trait_makes_and_reads_the_same_key() {
    let key = <BytesKey as Key>::from_u8(&[5, 0, 6]);
    assert_eq!(key, BytesKey::from_u8(&[5, 0, 6]));
    let seen = <BytesKey as Key>::as_slice(&key, |b| b.to_vec());
    assert_eq!(seen, vec![5, 0, 6]);
    let generic: BytesKey = db_key::from_u8(&[5, 0, 6]);
    assert_eq!(generic, key);
}

#[test]
fn as_slice_returns_what_the_reader_returns() {
    let key = BytesKey::from_u8(&[10, 20, 30]);
    let sum = key.as_slice(|b| b.iter().map(|x| *x as u32).sum::<u32>());
    assert_eq!(sum, 60);
}

#[test]
fn compare_bytes_gives_the_exact_order() {
    assert_eq!(compare_bytes(b"a", b"b"), KeyOrder::Less);
    assert_eq!(compare_bytes(b"b", b"a"), KeyOrder::Greater);
    assert_eq!(compare_bytes(b"abc", b"abc"), KeyOrder::Equal);
    assert_eq!(compare_bytes(b"", b""), KeyOrder::Equal);
    assert_eq!(compare_bytes(b"", b"\x00"), KeyOrder::Less);
    assert_eq!(compare_bytes(b"\x00", b""), KeyOrder::Greater);
}

#[test]
fn a_proper_prefix_sorts_first() {
    assert_eq!(compare_bytes(b"ab", b"abc"), KeyOrder::Less);
    assert_eq!(compare_bytes(b"abc", b"ab"), KeyOrder::Greater);
    assert_eq!(compare_bytes(b"ab", b"ab\x00"), KeyOrder::Less);
    assert!(BytesKey::from_u8(b"ab") < BytesKey::from_u8(b"abc"));
}

#[test]
fn bytes_compare_unsigned() {
    assert_eq!(compare_bytes(&[0x7f], &[0x80]), KeyOrder::Less);
    assert_eq!(compare_bytes(&[0xff], &[0x00]), KeyOrder::Greater);
    assert_eq!(compare_bytes(&[0x01, 0xff], &[0x02, 0x00]), KeyOrder::Less);
    assert!(BytesKey::from_u8(&[0x7f]) < BytesKey::from_u8(&[0x80]));
    assert!(BytesKey::from_u8(&[0xff]) > BytesKey::from_u8(&[0x00, 0xff]));
}

#[test]
fn the_first_difference_decides() {
    assert_eq!(compare_bytes(b"abcx", b"abda"), KeyOrder::Less);
    assert_eq!(compare_bytes(&[1, 2, 9, 0], &[1, 2, 3, 200, 200]), KeyOrder::Greater);
    assert_eq!(compare_bytes(b"B", b"a"), KeyOrder::Less);
}

#[test]
fn keys_compare_as_their_bytes_do() {
    let a = BytesKey::from_u8(b"apple");
    let b = BytesKey::from_u8(b"banana");
    assert_eq!(a.partial_cmp(&b), Some(Ordering::Less));
    assert_eq!(b.partial_cmp(&a), Some(Ordering::Greater));
    assert_eq!(a.partial_cmp(&a), Some(Ordering::Equal));
    assert!(a < b);
    assert!(a <= b);
    assert!(b > a);
    assert!(b >= a);
    assert!(!(b < a));
    assert!(!(a < a));
    assert!(a <= a);
}

#[test]
fn equal_keys_hold_equal_bytes() {
    assert_eq!(BytesKey::from_u8(&[1, 0, 2]), BytesKey::from_u8(&[1, 0, 2]));
    assert_ne!(BytesKey::from_u8(&[1, 0, 2]), BytesKey::from_u8(&[1, 0]));
    assert_ne!(BytesKey::from_u8(&[1, 0, 2]), BytesKey::from_u8(&[1, 0, 3]));
    assert_eq!(BytesKey::from_u8(&[]), BytesKey::from_u8(&[]));
    assert_ne!(BytesKey::from_u8(&[]), BytesKey::from_u8(&[0]));
}

#[test]
fn every_way_of_comparing_agrees() {
    let samples: Vec<Vec<u8>> = vec![
        vec![],
        vec![0],
        vec![0, 0],
        vec![0, 1],
        vec![1],
        vec![1, 0],
        vec![0x61],
        vec![0x61, 0x62],
        vec![0x62],
        vec![0x7f],
        vec![0x80],
        vec![0xff],
        vec![0xff, 0x00],
        vec![0xff, 0xff],
    ];
    for (i, x) in samples.iter().enumerate() {
        for (j, y) in samples.iter().enumerate() {
            let expected = i.cmp(&j);
            let kx = BytesKey::from_u8(x);
            let ky = BytesKey::from_u8(y);
            assert_eq!(kx.partial_cmp(&ky), Some(expected));
            assert_eq!(kx.cmp(&ky), expected);
            assert_eq!(kx == ky, i == j);
            assert_eq!(kx < ky, i < j);
            let by_bytes = match compare_bytes(x, y) {
                KeyOrder::Less => Ordering::Less,
                KeyOrder::Equal => Ordering::Equal,
                KeyOrder::Greater => Ordering::Greater,
            };
            assert_eq!(by_bytes, expected);
            assert_eq!(x.cmp(y), expected);
        }
    }
}

#[test]
fn sorting_keys_puts_them_in_byte_order() {
    let mut keys = vec![
        BytesKey::from_u8(b"c"),
        BytesKey::from_u8(b"a"),
        BytesKey::from_u8(b"b"),
        BytesKey::from_u8(b"ab"),
        BytesKey::from_u8(b""),
    ];
    keys.sort();
    let sorted: Vec<Vec<u8>> = keys.iter().map(bytes_of).collect();
    assert_eq!(
        sorted,
        vec![b"".to_vec(), b"a".to_vec(), b"ab".to_vec(), b"b".to_vec(), b"c".to_vec()]
    );
}

#[test]
fn a_clone_holds_the_same_bytes() {
    let key = BytesKey::from_u8(&[9, 0, 9]);
    let copy = key.clone();
    assert_eq!(copy, key);
    assert_eq!(bytes_of(&copy), vec![9, 0, 9]);
}
