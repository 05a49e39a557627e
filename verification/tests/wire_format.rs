use viaduct::wire::{get_u128, get_u64, probe_order, put_u128, put_u64, reversed, word_size};
use viaduct::wire::Endian;

#[test]
fn u64_is_written_in_the_given_order() {
    let mut out = vec![0xee];
    put_u64(&mut out, 0x0102_0304_0506_0708, Endian::Little);
    assert_eq!(out, vec![0xee, 8, 7, 6, 5, 4, 3, 2, 1]);
    let mut out = Vec::new();
    put_u64(&mut out, 0x0102_0304_0506_0708, Endian::Big);
    assert_eq!(out, vec![1, 2, 3, 4, 5, 6, 7, 8]);
}

#[test]
fn u64_matches_the_standard_library() {
    for n in [0u64, 1, 255, 256, 0xdead_beef, u64::MAX] {
        let mut little = Vec::new();
        put_u64(&mut little, n, Endian::Little);
        assert_eq!(little, n.to_le_bytes().to_vec());
        let mut big = Vec::new();
        put_u64(&mut big, n, Endian::Big);
        assert_eq!(big, n.to_be_bytes().to_vec());
        assert_eq!(get_u64(&little, Endian::Little), Some(n));
        assert_eq!(get_u64(&big, Endian::Big), Some(n));
    }
}

#[test]
fn u128_matches_the_standard_library() {
    for n in [0u128, 1, 8, u64::MAX as u128 + 1, u128::MAX] {
        let mut little = Vec::new();
        put_u128(&mut little, n, Endian::Little);
        assert_eq!(little, n.to_le_bytes().to_vec());
        let mut big = Vec::new();
        put_u128(&mut big, n, Endian::Big);
        assert_eq!(big, n.to_be_bytes().to_vec());
        assert_eq!(get_u128(&little, Endian::Little), Some(n));
        assert_eq!(get_u128(&big, Endian::Big), Some(n));
    }
}

#[test]
fn numbers_of_the_wrong_length_are_not_read() {
    assert_eq!(get_u64(&[1, 2, 3], Endian::Little), None);
    assert_eq!(get_u64(&[0; 9], Endian::Big), None);
    assert_eq!(get_u128(&[0; 15], Endian::Little), None);
    assert_eq!(get_u128(&[], Endian::Big), None);
}

#[test]
fn reversed_turns_the_bytes_around() {
    assert_eq!(reversed(&[1, 2, 3]), vec![3, 2, 1]);
    assert_eq!(reversed(&[]), Vec::<u8>::new());
}

#[test]
fn probe_word_in_both_orders() {
    let mut out = Vec::new();
    Endian::Little.put_probe(&mut out);
    assert_eq!(out, vec![2, 1]);
    assert_eq!(out, 0x0102u16.to_le_bytes().to_vec());
    let mut out = Vec::new();
    Endian::Big.put_probe(&mut out);
    assert_eq!(out, vec![1, 2]);
    assert_eq!(probe_order(&[2, 1]), Some(Endian::Little));
    assert_eq!(probe_order(&[1, 2]), Some(Endian::Big));
    assert_eq!(probe_order(&[1, 1]), None);
    assert_eq!(probe_order(&[2, 1, 0]), None);
    assert_eq!(probe_order(&[]), None);
}

#[test]
fn native_order_is_the_order_of_this_machine() {
    let native = Endian::native();
    let mut probe = Vec::new();
    native.put_probe(&mut probe);
    assert_eq!(probe, 0x0102u16.to_ne_bytes().to_vec());
    let mut length = Vec::new();
    put_u64(&mut length, 0x0102_0304_0506_0708, native);
    assert_eq!(length, 0x0102_0304_0506_0708u64.to_ne_bytes().to_vec());
}

#[test]
fn word_size_is_the_size_of_usize() {
    assert_eq!(word_size(), std::mem::size_of::<usize>() as u128);
}
