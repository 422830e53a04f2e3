use sv_arbiter::wire::{i32_from_be, push_i32_be, push_u16_be, push_u32_be, u16_from_be, u32_from_be, u32_to_be_arr};

#[test]
fn u16_round_trips_big_endian() {
    let mut b: Vec<u8> = Vec::new();
    push_u16_be(&mut b, 0xABCD);
    assert_eq!(b, vec![0xAB, 0xCD]);
    assert_eq!(u16_from_be(b[0], b[1]), 0xABCD);
}

#[test]
fn u32_round_trips_big_endian() {
    let mut b: Vec<u8> = Vec::new();
    push_u32_be(&mut b, 0x1234_89AB);
    assert_eq!(b, vec![0x12, 0x34, 0x89, 0xAB]);
    assert_eq!(u32_from_be(b[0], b[1], b[2], b[3]), 0x1234_89AB);
    assert_eq!(u32_to_be_arr(0x1234_89AB), [0x12, 0x34, 0x89, 0xAB]);
}

#[test]
fn i32_round_trips_two_s_complement() {
    let mut b: Vec<u8> = Vec::new();
    push_i32_be(&mut b, -2);
    assert_eq!(b, vec![0xFF, 0xFF, 0xFF, 0xFE]);
    assert_eq!(i32_from_be(b[0], b[1], b[2], b[3]), -2);
    let mut c: Vec<u8> = Vec::new();
    push_i32_be(&mut c, 1000);
    assert_eq!(i32_from_be(c[0], c[1], c[2], c[3]), 1000);
}
