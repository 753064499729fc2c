use upcast::{cast, UpCastAs};

fn doit<T: UpCastAs<u64>>() -> (T, T, T, T) {
    let a = T::from(10u64);
    let b: T = cast(10u16);
    let c = cast::<u16, T>(10u16);
    let d: T = UpCastAs::from(10u8);
    (a, b, c, d)
}

fn widen_into<T: UpCastAs<u32>>() -> (T, T, T, T, T) {
    let a: T = cast(10u8);
    let b = cast::<u8, T>(10u8);
    let c: T = cast(10u16);
    let d: T = cast(10u32);
    let e: T = UpCastAs::from(10u16);
    (a, b, c, d, e)
}

#[test]
fn generic_target_u64() {
    assert_eq!(doit::<u64>(), (10, 10, 10, 10));
}

#[test]
fn generic_target_u32_and_u64() {
    assert_eq!(widen_into::<u32>(), (10, 10, 10, 10, 10));
    assert_eq!(widen_into::<u64>(), (10, 10, 10, 10, 10));
}

#[test]
fn reflexive_unsigned() {
    assert_eq!(cast::<u8, u8>(0), 0);
    assert_eq!(cast::<u8, u8>(255), 255);
    assert_eq!(cast::<u16, u16>(u16::MAX), u16::MAX);
    assert_eq!(cast::<u32, u32>(u32::MAX), u32::MAX);
    assert_eq!(cast::<u64, u64>(u64::MAX), u64::MAX);
    assert_eq!(cast::<u64, u64>(0), 0);
}

#[test]
fn reflexive_signed() {
    assert_eq!(cast::<i8, i8>(i8::MIN), i8::MIN);
    assert_eq!(cast::<i8, i8>(i8::MAX), i8::MAX);
    assert_eq!(cast::<i16, i16>(-1), -1);
    assert_eq!(cast::<i32, i32>(i32::MIN), i32::MIN);
    assert_eq!(cast::<i64, i64>(i64::MIN), i64::MIN);
    assert_eq!(cast::<i64, i64>(i64::MAX), i64::MAX);
}

#[test]
fn direct_unsigned_facts() {
    assert_eq!(cast::<u8, u16>(255), 255u16);
    assert_eq!(cast::<u16, u32>(u16::MAX), 65535u32);
    assert_eq!(cast::<u32, u64>(u32::MAX), 4294967295u64);
    assert_eq!(cast::<u8, u16>(0), 0u16);
}

#[test]
fn direct_signed_facts() {
    assert_eq!(cast::<i8, i16>(-128), -128i16);
    assert_eq!(cast::<i16, i32>(i16::MIN), -32768i32);
    assert_eq!(cast::<i32, i64>(-1), -1i64);
    assert_eq!(cast::<i32, i64>(i32::MAX), 2147483647i64);
}

#[test]
fn direct_trait_call_uses_named_fact() {
    assert_eq!(<u16 as UpCastAs<u8>>::from(200), 200u16);
    assert_eq!(<i64 as UpCastAs<i32>>::from(-7), -7i64);
    assert_eq!(<u32 as UpCastAs<u32>>::from(42), 42u32);
}

#[test]
fn transitive_unsigned_chain() {
    let direct: u64 = cast(200u8);
    assert_eq!(direct, 200);
    let m: u16 = cast(200u8);
    let n: u32 = cast(m);
    let staged: u64 = cast(n);
    assert_eq!(staged, direct);
    let via_u16: u64 = cast(cast::<u8, u16>(200));
    assert_eq!(via_u16, direct);
}

#[test]
fn transitive_signed_chain() {
    let direct: i64 = cast(-100i8);
    assert_eq!(direct, -100);
    let staged: i64 = cast(cast::<i16, i32>(cast::<i8, i16>(-100)));
    assert_eq!(staged, direct);
    assert_eq!(cast::<i8, i64>(i8::MIN), -128);
    assert_eq!(cast::<i16, i64>(i16::MAX), 32767);
}

#[test]
fn transitive_extremes() {
    assert_eq!(cast::<u8, u32>(u8::MAX), 255);
    assert_eq!(cast::<u16, u64>(u16::MAX), 65535);
    assert_eq!(cast::<i8, i32>(i8::MIN), -128);
    assert_eq!(cast::<i16, i64>(i16::MIN), -32768);
}
