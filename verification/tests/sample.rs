use interflow::sample::Sample;

#[test]
fn signed_zero_is_zero() {
    assert_eq!(0, <i8 as Sample>::ZERO);
    assert_eq!(0, <i16 as Sample>::ZERO);
    assert_eq!(0, <i32 as Sample>::ZERO);
    assert_eq!(0, <i64 as Sample>::ZERO);
}

#[test]
fn unsigned_zero_is_middle() {
    assert_eq!(127, <u8 as Sample>::ZERO);
    assert_eq!(32767, <u16 as Sample>::ZERO);
    assert_eq!(2147483647, <u32 as Sample>::ZERO);
    assert_eq!(u64::MAX / 2, <u64 as Sample>::ZERO);
}
