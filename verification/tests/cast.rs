//! Casting the extreme values of every width into every other width
//! matches the raw truncating numeric cast bit-for-bit.

use linearity::primitive::cast::Cast;

#[test]
fn cast_extremes_from_u8() {
    assert_eq!(<u8 as Cast<u8>>::cast(u8::MAX), u8::MAX as u8);
    assert_eq!(<u8 as Cast<u8>>::cast(u8::MIN), u8::MIN as u8);
    assert_eq!(<u8 as Cast<u16>>::cast(u8::MAX), u8::MAX as u16);
    assert_eq!(<u8 as Cast<u16>>::cast(u8::MIN), u8::MIN as u16);
    assert_eq!(<u8 as Cast<u32>>::cast(u8::MAX), u8::MAX as u32);
    assert_eq!(<u8 as Cast<u32>>::cast(u8::MIN), u8::MIN as u32);
    assert_eq!(<u8 as Cast<u64>>::cast(u8::MAX), u8::MAX as u64);
    assert_eq!(<u8 as Cast<u64>>::cast(u8::MIN), u8::MIN as u64);
    assert_eq!(<u8 as Cast<u128>>::cast(u8::MAX), u8::MAX as u128);
    assert_eq!(<u8 as Cast<u128>>::cast(u8::MIN), u8::MIN as u128);
    assert_eq!(<u8 as Cast<usize>>::cast(u8::MAX), u8::MAX as usize);
    assert_eq!(<u8 as Cast<usize>>::cast(u8::MIN), u8::MIN as usize);
    assert_eq!(<u8 as Cast<i8>>::cast(u8::MAX), u8::MAX as i8);
    assert_eq!(<u8 as Cast<i8>>::cast(u8::MIN), u8::MIN as i8);
    assert_eq!(<u8 as Cast<i16>>::cast(u8::MAX), u8::MAX as i16);
    assert_eq!(<u8 as Cast<i16>>::cast(u8::MIN), u8::MIN as i16);
    assert_eq!(<u8 as Cast<i32>>::cast(u8::MAX), u8::MAX as i32);
    assert_eq!(<u8 as Cast<i32>>::cast(u8::MIN), u8::MIN as i32);
    assert_eq!(<u8 as Cast<i64>>::cast(u8::MAX), u8::MAX as i64);
    assert_eq!(<u8 as Cast<i64>>::cast(u8::MIN), u8::MIN as i64);
    assert_eq!(<u8 as Cast<i128>>::cast(u8::MAX), u8::MAX as i128);
    assert_eq!(<u8 as Cast<i128>>::cast(u8::MIN), u8::MIN as i128);
    assert_eq!(<u8 as Cast<isize>>::cast(u8::MAX), u8::MAX as isize);
    assert_eq!(<u8 as Cast<isize>>::cast(u8::MIN), u8::MIN as isize);
}

#[test]
fn cast_extremes_from_u16() {
    assert_eq!(<u16 as Cast<u8>>::cast(u16::MAX), u16::MAX as u8);
    assert_eq!(<u16 as Cast<u8>>::cast(u16::MIN), u16::MIN as u8);
    assert_eq!(<u16 as Cast<u16>>::cast(u16::MAX), u16::MAX as u16);
    assert_eq!(<u16 as Cast<u16>>::cast(u16::MIN), u16::MIN as u16);
    assert_eq!(<u16 as Cast<u32>>::cast(u16::MAX), u16::MAX as u32);
    assert_eq!(<u16 as Cast<u32>>::cast(u16::MIN), u16::MIN as u32);
    assert_eq!(<u16 as Cast<u64>>::cast(u16::MAX), u16::MAX as u64);
    assert_eq!(<u16 as Cast<u64>>::cast(u16::MIN), u16::MIN as u64);
    assert_eq!(<u16 as Cast<u128>>::cast(u16::MAX), u16::MAX as u128);
    assert_eq!(<u16 as Cast<u128>>::cast(u16::MIN), u16::MIN as u128);
    assert_eq!(<u16 as Cast<usize>>::cast(u16::MAX), u16::MAX as usize);
    assert_eq!(<u16 as Cast<usize>>::cast(u16::MIN), u16::MIN as usize);
    assert_eq!(<u16 as Cast<i8>>::cast(u16::MAX), u16::MAX as i8);
    assert_eq!(<u16 as Cast<i8>>::cast(u16::MIN), u16::MIN as i8);
    assert_eq!(<u16 as Cast<i16>>::cast(u16::MAX), u16::MAX as i16);
    assert_eq!(<u16 as Cast<i16>>::cast(u16::MIN), u16::MIN as i16);
    assert_eq!(<u16 as Cast<i32>>::cast(u16::MAX), u16::MAX as i32);
    assert_eq!(<u16 as Cast<i32>>::cast(u16::MIN), u16::MIN as i32);
    assert_eq!(<u16 as Cast<i64>>::cast(u16::MAX), u16::MAX as i64);
    assert_eq!(<u16 as Cast<i64>>::cast(u16::MIN), u16::MIN as i64);
    assert_eq!(<u16 as Cast<i128>>::cast(u16::MAX), u16::MAX as i128);
    assert_eq!(<u16 as Cast<i128>>::cast(u16::MIN), u16::MIN as i128);
    assert_eq!(<u16 as Cast<isize>>::cast(u16::MAX), u16::MAX as isize);
    assert_eq!(<u16 as Cast<isize>>::cast(u16::MIN), u16::MIN as isize);
}

#[test]
fn cast_extremes_from_u32() {
    assert_eq!(<u32 as Cast<u8>>::cast(u32::MAX), u32::MAX as u8);
    assert_eq!(<u32 as Cast<u8>>::cast(u32::MIN), u32::MIN as u8);
    assert_eq!(<u32 as Cast<u16>>::cast(u32::MAX), u32::MAX as u16);
    assert_eq!(<u32 as Cast<u16>>::cast(u32::MIN), u32::MIN as u16);
    assert_eq!(<u32 as Cast<u32>>::cast(u32::MAX), u32::MAX as u32);
    assert_eq!(<u32 as Cast<u32>>::cast(u32::MIN), u32::MIN as u32);
    assert_eq!(<u32 as Cast<u64>>::cast(u32::MAX), u32::MAX as u64);
    assert_eq!(<u32 as Cast<u64>>::cast(u32::MIN), u32::MIN as u64);
    assert_eq!(<u32 as Cast<u128>>::cast(u32::MAX), u32::MAX as u128);
    assert_eq!(<u32 as Cast<u128>>::cast(u32::MIN), u32::MIN as u128);
    assert_eq!(<u32 as Cast<usize>>::cast(u32::MAX), u32::MAX as usize);
    assert_eq!(<u32 as Cast<usize>>::cast(u32::MIN), u32::MIN as usize);
    assert_eq!(<u32 as Cast<i8>>::cast(u32::MAX), u32::MAX as i8);
    assert_eq!(<u32 as Cast<i8>>::cast(u32::MIN), u32::MIN as i8);
    assert_eq!(<u32 as Cast<i16>>::cast(u32::MAX), u32::MAX as i16);
    assert_eq!(<u32 as Cast<i16>>::cast(u32::MIN), u32::MIN as i16);
    assert_eq!(<u32 as Cast<i32>>::cast(u32::MAX), u32::MAX as i32);
    assert_eq!(<u32 as Cast<i32>>::cast(u32::MIN), u32::MIN as i32);
    assert_eq!(<u32 as Cast<i64>>::cast(u32::MAX), u32::MAX as i64);
    assert_eq!(<u32 as Cast<i64>>::cast(u32::MIN), u32::MIN as i64);
    assert_eq!(<u32 as Cast<i128>>::cast(u32::MAX), u32::MAX as i128);
    assert_eq!(<u32 as Cast<i128>>::cast(u32::MIN), u32::MIN as i128);
    assert_eq!(<u32 as Cast<isize>>::cast(u32::MAX), u32::MAX as isize);
    assert_eq!(<u32 as Cast<isize>>::cast(u32::MIN), u32::MIN as isize);
}

#[test]
fn cast_extremes_from_u64() {
    assert_eq!(<u64 as Cast<u8>>::cast(u64::MAX), u64::MAX as u8);
    assert_eq!(<u64 as Cast<u8>>::cast(u64::MIN), u64::MIN as u8);
    assert_eq!(<u64 as Cast<u16>>::cast(u64::MAX), u64::MAX as u16);
    assert_eq!(<u64 as Cast<u16>>::cast(u64::MIN), u64::MIN as u16);
    assert_eq!(<u64 as Cast<u32>>::cast(u64::MAX), u64::MAX as u32);
    assert_eq!(<u64 as Cast<u32>>::cast(u64::MIN), u64::MIN as u32);
    assert_eq!(<u64 as Cast<u64>>::cast(u64::MAX), u64::MAX as u64);
    assert_eq!(<u64 as Cast<u64>>::cast(u64::MIN), u64::MIN as u64);
    assert_eq!(<u64 as Cast<u128>>::cast(u64::MAX), u64::MAX as u128);
    assert_eq!(<u64 as Cast<u128>>::cast(u64::MIN), u64::MIN as u128);
    assert_eq!(<u64 as Cast<usize>>::cast(u64::MAX), u64::MAX as usize);
    assert_eq!(<u64 as Cast<usize>>::cast(u64::MIN), u64::MIN as usize);
    assert_eq!(<u64 as Cast<i8>>::cast(u64::MAX), u64::MAX as i8);
    assert_eq!(<u64 as Cast<i8>>::cast(u64::MIN), u64::MIN as i8);
    assert_eq!(<u64 as Cast<i16>>::cast(u64::MAX), u64::MAX as i16);
    assert_eq!(<u64 as Cast<i16>>::cast(u64::MIN), u64::MIN as i16);
    assert_eq!(<u64 as Cast<i32>>::cast(u64::MAX), u64::MAX as i32);
    assert_eq!(<u64 as Cast<i32>>::cast(u64::MIN), u64::MIN as i32);
    assert_eq!(<u64 as Cast<i64>>::cast(u64::MAX), u64::MAX as i64);
    assert_eq!(<u64 as Cast<i64>>::cast(u64::MIN), u64::MIN as i64);
    assert_eq!(<u64 as Cast<i128>>::cast(u64::MAX), u64::MAX as i128);
    assert_eq!(<u64 as Cast<i128>>::cast(u64::MIN), u64::MIN as i128);
    assert_eq!(<u64 as Cast<isize>>::cast(u64::MAX), u64::MAX as isize);
    assert_eq!(<u64 as Cast<isize>>::cast(u64::MIN), u64::MIN as isize);
}

#[test]
fn cast_extremes_from_u128() {
    assert_eq!(<u128 as Cast<u8>>::cast(u128::MAX), u128::MAX as u8);
    assert_eq!(<u128 as Cast<u8>>::cast(u128::MIN), u128::MIN as u8);
    assert_eq!(<u128 as Cast<u16>>::cast(u128::MAX), u128::MAX as u16);
    assert_eq!(<u128 as Cast<u16>>::cast(u128::MIN), u128::MIN as u16);
    assert_eq!(<u128 as Cast<u32>>::cast(u128::MAX), u128::MAX as u32);
    assert_eq!(<u128 as Cast<u32>>::cast(u128::MIN), u128::MIN as u32);
    assert_eq!(<u128 as Cast<u64>>::cast(u128::MAX), u128::MAX as u64);
    assert_eq!(<u128 as Cast<u64>>::cast(u128::MIN), u128::MIN as u64);
    assert_eq!(<u128 as Cast<u128>>::cast(u128::MAX), u128::MAX as u128);
    assert_eq!(<u128 as Cast<u128>>::cast(u128::MIN), u128::MIN as u128);
    assert_eq!(<u128 as Cast<usize>>::cast(u128::MAX), u128::MAX as usize);
    assert_eq!(<u128 as Cast<usize>>::cast(u128::MIN), u128::MIN as usize);
    assert_eq!(<u128 as Cast<i8>>::cast(u128::MAX), u128::MAX as i8);
    assert_eq!(<u128 as Cast<i8>>::cast(u128::MIN), u128::MIN as i8);
    assert_eq!(<u128 as Cast<i16>>::cast(u128::MAX), u128::MAX as i16);
    assert_eq!(<u128 as Cast<i16>>::cast(u128::MIN), u128::MIN as i16);
    assert_eq!(<u128 as Cast<i32>>::cast(u128::MAX), u128::MAX as i32);
    assert_eq!(<u128 as Cast<i32>>::cast(u128::MIN), u128::MIN as i32);
    assert_eq!(<u128 as Cast<i64>>::cast(u128::MAX), u128::MAX as i64);
    assert_eq!(<u128 as Cast<i64>>::cast(u128::MIN), u128::MIN as i64);
    assert_eq!(<u128 as Cast<i128>>::cast(u128::MAX), u128::MAX as i128);
    assert_eq!(<u128 as Cast<i128>>::cast(u128::MIN), u128::MIN as i128);
    assert_eq!(<u128 as Cast<isize>>::cast(u128::MAX), u128::MAX as isize);
    assert_eq!(<u128 as Cast<isize>>::cast(u128::MIN), u128::MIN as isize);
}

#[test]
fn cast_extremes_from_usize() {
    assert_eq!(<usize as Cast<u8>>::cast(usize::MAX), usize::MAX as u8);
    assert_eq!(<usize as Cast<u8>>::cast(usize::MIN), usize::MIN as u8);
    assert_eq!(<usize as Cast<u16>>::cast(usize::MAX), usize::MAX as u16);
    assert_eq!(<usize as Cast<u16>>::cast(usize::MIN), usize::MIN as u16);
    assert_eq!(<usize as Cast<u32>>::cast(usize::MAX), usize::MAX as u32);
    assert_eq!(<usize as Cast<u32>>::cast(usize::MIN), usize::MIN as u32);
    assert_eq!(<usize as Cast<u64>>::cast(usize::MAX), usize::MAX as u64);
    assert_eq!(<usize as Cast<u64>>::cast(usize::MIN), usize::MIN as u64);
    assert_eq!(<usize as Cast<u128>>::cast(usize::MAX), usize::MAX as u128);
    assert_eq!(<usize as Cast<u128>>::cast(usize::MIN), usize::MIN as u128);
    assert_eq!(<usize as Cast<usize>>::cast(usize::MAX), usize::MAX as usize);
    assert_eq!(<usize as Cast<usize>>::cast(usize::MIN), usize::MIN as usize);
    assert_eq!(<usize as Cast<i8>>::cast(usize::MAX), usize::MAX as i8);
    assert_eq!(<usize as Cast<i8>>::cast(usize::MIN), usize::MIN as i8);
    assert_eq!(<usize as Cast<i16>>::cast(usize::MAX), usize::MAX as i16);
    assert_eq!(<usize as Cast<i16>>::cast(usize::MIN), usize::MIN as i16);
    assert_eq!(<usize as Cast<i32>>::cast(usize::MAX), usize::MAX as i32);
    assert_eq!(<usize as Cast<i32>>::cast(usize::MIN), usize::MIN as i32);
    assert_eq!(<usize as Cast<i64>>::cast(usize::MAX), usize::MAX as i64);
    assert_eq!(<usize as Cast<i64>>::cast(usize::MIN), usize::MIN as i64);
    assert_eq!(<usize as Cast<i128>>::cast(usize::MAX), usize::MAX as i128);
    assert_eq!(<usize as Cast<i128>>::cast(usize::MIN), usize::MIN as i128);
    assert_eq!(<usize as Cast<isize>>::cast(usize::MAX), usize::MAX as isize);
    assert_eq!(<usize as Cast<isize>>::cast(usize::MIN), usize::MIN as isize);
}

#[test]
fn cast_extremes_from_i8() {
    assert_eq!(<i8 as Cast<u8>>::cast(i8::MAX), i8::MAX as u8);
    assert_eq!(<i8 as Cast<u8>>::cast(i8::MIN), i8::MIN as u8);
    assert_eq!(<i8 as Cast<u16>>::cast(i8::MAX), i8::MAX as u16);
    assert_eq!(<i8 as Cast<u16>>::cast(i8::MIN), i8::MIN as u16);
    assert_eq!(<i8 as Cast<u32>>::cast(i8::MAX), i8::MAX as u32);
    assert_eq!(<i8 as Cast<u32>>::cast(i8::MIN), i8::MIN as u32);
    assert_eq!(<i8 as Cast<u64>>::cast(i8::MAX), i8::MAX as u64);
    assert_eq!(<i8 as Cast<u64>>::cast(i8::MIN), i8::MIN as u64);
    assert_eq!(<i8 as Cast<u128>>::cast(i8::MAX), i8::MAX as u128);
    assert_eq!(<i8 as Cast<u128>>::cast(i8::MIN), i8::MIN as u128);
    assert_eq!(<i8 as Cast<usize>>::cast(i8::MAX), i8::MAX as usize);
    assert_eq!(<i8 as Cast<usize>>::cast(i8::MIN), i8::MIN as usize);
    assert_eq!(<i8 as Cast<i8>>::cast(i8::MAX), i8::MAX as i8);
    assert_eq!(<i8 as Cast<i8>>::cast(i8::MIN), i8::MIN as i8);
    assert_eq!(<i8 as Cast<i16>>::cast(i8::MAX), i8::MAX as i16);
    assert_eq!(<i8 as Cast<i16>>::cast(i8::MIN), i8::MIN as i16);
    assert_eq!(<i8 as Cast<i32>>::cast(i8::MAX), i8::MAX as i32);
    assert_eq!(<i8 as Cast<i32>>::cast(i8::MIN), i8::MIN as i32);
    assert_eq!(<i8 as Cast<i64>>::cast(i8::MAX), i8::MAX as i64);
    assert_eq!(<i8 as Cast<i64>>::cast(i8::MIN), i8::MIN as i64);
    assert_eq!(<i8 as Cast<i128>>::cast(i8::MAX), i8::MAX as i128);
    assert_eq!(<i8 as Cast<i128>>::cast(i8::MIN), i8::MIN as i128);
    assert_eq!(<i8 as Cast<isize>>::cast(i8::MAX), i8::MAX as isize);
    assert_eq!(<i8 as Cast<isize>>::cast(i8::MIN), i8::MIN as isize);
}

#[test]
fn cast_extremes_from_i16() {
    assert_eq!(<i16 as Cast<u8>>::cast(i16::MAX), i16::MAX as u8);
    assert_eq!(<i16 as Cast<u8>>::cast(i16::MIN), i16::MIN as u8);
    assert_eq!(<i16 as Cast<u16>>::cast(i16::MAX), i16::MAX as u16);
    assert_eq!(<i16 as Cast<u16>>::cast(i16::MIN), i16::MIN as u16);
    assert_eq!(<i16 as Cast<u32>>::cast(i16::MAX), i16::MAX as u32);
    assert_eq!(<i16 as Cast<u32>>::cast(i16::MIN), i16::MIN as u32);
    assert_eq!(<i16 as Cast<u64>>::cast(i16::MAX), i16::MAX as u64);
    assert_eq!(<i16 as Cast<u64>>::cast(i16::MIN), i16::MIN as u64);
    assert_eq!(<i16 as Cast<u128>>::cast(i16::MAX), i16::MAX as u128);
    assert_eq!(<i16 as Cast<u128>>::cast(i16::MIN), i16::MIN as u128);
    assert_eq!(<i16 as Cast<usize>>::cast(i16::MAX), i16::MAX as usize);
    assert_eq!(<i16 as Cast<usize>>::cast(i16::MIN), i16::MIN as usize);
    assert_eq!(<i16 as Cast<i8>>::cast(i16::MAX), i16::MAX as i8);
    assert_eq!(<i16 as Cast<i8>>::cast(i16::MIN), i16::MIN as i8);
    assert_eq!(<i16 as Cast<i16>>::cast(i16::MAX), i16::MAX as i16);
    assert_eq!(<i16 as Cast<i16>>::cast(i16::MIN), i16::MIN as i16);
    assert_eq!(<i16 as Cast<i32>>::cast(i16::MAX), i16::MAX as i32);
    assert_eq!(<i16 as Cast<i32>>::cast(i16::MIN), i16::MIN as i32);
    assert_eq!(<i16 as Cast<i64>>::cast(i16::MAX), i16::MAX as i64);
    assert_eq!(<i16 as Cast<i64>>::cast(i16::MIN), i16::MIN as i64);
    assert_eq!(<i16 as Cast<i128>>::cast(i16::MAX), i16::MAX as i128);
    assert_eq!(<i16 as Cast<i128>>::cast(i16::MIN), i16::MIN as i128);
    assert_eq!(<i16 as Cast<isize>>::cast(i16::MAX), i16::MAX as isize);
    assert_eq!(<i16 as Cast<isize>>::cast(i16::MIN), i16::MIN as isize);
}

#[test]
fn cast_extremes_from_i32() {
    assert_eq!(<i32 as Cast<u8>>::cast(i32::MAX), i32::MAX as u8);
    assert_eq!(<i32 as Cast<u8>>::cast(i32::MIN), i32::MIN as u8);
    assert_eq!(<i32 as Cast<u16>>::cast(i32::MAX), i32::MAX as u16);
    assert_eq!(<i32 as Cast<u16>>::cast(i32::MIN), i32::MIN as u16);
    assert_eq!(<i32 as Cast<u32>>::cast(i32::MAX), i32::MAX as u32);
    assert_eq!(<i32 as Cast<u32>>::cast(i32::MIN), i32::MIN as u32);
    assert_eq!(<i32 as Cast<u64>>::cast(i32::MAX), i32::MAX as u64);
    assert_eq!(<i32 as Cast<u64>>::cast(i32::MIN), i32::MIN as u64);
    assert_eq!(<i32 as Cast<u128>>::cast(i32::MAX), i32::MAX as u128);
    assert_eq!(<i32 as Cast<u128>>::cast(i32::MIN), i32::MIN as u128);
    assert_eq!(<i32 as Cast<usize>>::cast(i32::MAX), i32::MAX as usize);
    assert_eq!(<i32 as Cast<usize>>::cast(i32::MIN), i32::MIN as usize);
    assert_eq!(<i32 as Cast<i8>>::cast(i32::MAX), i32::MAX as i8);
    assert_eq!(<i32 as Cast<i8>>::cast(i32::MIN), i32::MIN as i8);
    assert_eq!(<i32 as Cast<i16>>::cast(i32::MAX), i32::MAX as i16);
    assert_eq!(<i32 as Cast<i16>>::cast(i32::MIN), i32::MIN as i16);
    assert_eq!(<i32 as Cast<i32>>::cast(i32::MAX), i32::MAX as i32);
    assert_eq!(<i32 as Cast<i32>>::cast(i32::MIN), i32::MIN as i32);
    assert_eq!(<i32 as Cast<i64>>::cast(i32::MAX), i32::MAX as i64);
    assert_eq!(<i32 as Cast<i64>>::cast(i32::MIN), i32::MIN as i64);
    assert_eq!(<i32 as Cast<i128>>::cast(i32::MAX), i32::MAX as i128);
    assert_eq!(<i32 as Cast<i128>>::cast(i32::MIN), i32::MIN as i128);
    assert_eq!(<i32 as Cast<isize>>::cast(i32::MAX), i32::MAX as isize);
    assert_eq!(<i32 as Cast<isize>>::cast(i32::MIN), i32::MIN as isize);
}

#[test]
fn cast_extremes_from_i64() {
    assert_eq!(<i64 as Cast<u8>>::cast(i64::MAX), i64::MAX as u8);
    assert_eq!(<i64 as Cast<u8>>::cast(i64::MIN), i64::MIN as u8);
    assert_eq!(<i64 as Cast<u16>>::cast(i64::MAX), i64::MAX as u16);
    assert_eq!(<i64 as Cast<u16>>::cast(i64::MIN), i64::MIN as u16);
    assert_eq!(<i64 as Cast<u32>>::cast(i64::MAX), i64::MAX as u32);
    assert_eq!(<i64 as Cast<u32>>::cast(i64::MIN), i64::MIN as u32);
    assert_eq!(<i64 as Cast<u64>>::cast(i64::MAX), i64::MAX as u64);
    assert_eq!(<i64 as Cast<u64>>::cast(i64::MIN), i64::MIN as u64);
    assert_eq!(<i64 as Cast<u128>>::cast(i64::MAX), i64::MAX as u128);
    assert_eq!(<i64 as Cast<u128>>::cast(i64::MIN), i64::MIN as u128);
    assert_eq!(<i64 as Cast<usize>>::cast(i64::MAX), i64::MAX as usize);
    assert_eq!(<i64 as Cast<usize>>::cast(i64::MIN), i64::MIN as usize);
    assert_eq!(<i64 as Cast<i8>>::cast(i64::MAX), i64::MAX as i8);
    assert_eq!(<i64 as Cast<i8>>::cast(i64::MIN), i64::MIN as i8);
    assert_eq!(<i64 as Cast<i16>>::cast(i64::MAX), i64::MAX as i16);
    assert_eq!(<i64 as Cast<i16>>::cast(i64::MIN), i64::MIN as i16);
    assert_eq!(<i64 as Cast<i32>>::cast(i64::MAX), i64::MAX as i32);
    assert_eq!(<i64 as Cast<i32>>::cast(i64::MIN), i64::MIN as i32);
    assert_eq!(<i64 as Cast<i64>>::cast(i64::MAX), i64::MAX as i64);
    assert_eq!(<i64 as Cast<i64>>::cast(i64::MIN), i64::MIN as i64);
    assert_eq!(<i64 as Cast<i128>>::cast(i64::MAX), i64::MAX as i128);
    assert_eq!(<i64 as Cast<i128>>::cast(i64::MIN), i64::MIN as i128);
    assert_eq!(<i64 as Cast<isize>>::cast(i64::MAX), i64::MAX as isize);
    assert_eq!(<i64 as Cast<isize>>::cast(i64::MIN), i64::MIN as isize);
}

#[test]
fn cast_extremes_from_i128() {
    assert_eq!(<i128 as Cast<u8>>::cast(i128::MAX), i128::MAX as u8);
    assert_eq!(<i128 as Cast<u8>>::cast(i128::MIN), i128::MIN as u8);
    assert_eq!(<i128 as Cast<u16>>::cast(i128::MAX), i128::MAX as u16);
    assert_eq!(<i128 as Cast<u16>>::cast(i128::MIN), i128::MIN as u16);
    assert_eq!(<i128 as Cast<u32>>::cast(i128::MAX), i128::MAX as u32);
    assert_eq!(<i128 as Cast<u32>>::cast(i128::MIN), i128::MIN as u32);
    assert_eq!(<i128 as Cast<u64>>::cast(i128::MAX), i128::MAX as u64);
    assert_eq!(<i128 as Cast<u64>>::cast(i128::MIN), i128::MIN as u64);
    assert_eq!(<i128 as Cast<u128>>::cast(i128::MAX), i128::MAX as u128);
    assert_eq!(<i128 as Cast<u128>>::cast(i128::MIN), i128::MIN as u128);
    assert_eq!(<i128 as Cast<usize>>::cast(i128::MAX), i128::MAX as usize);
    assert_eq!(<i128 as Cast<usize>>::cast(i128::MIN), i128::MIN as usize);
    assert_eq!(<i128 as Cast<i8>>::cast(i128::MAX), i128::MAX as i8);
    assert_eq!(<i128 as Cast<i8>>::cast(i128::MIN), i128::MIN as i8);
    assert_eq!(<i128 as Cast<i16>>::cast(i128::MAX), i128::MAX as i16);
    assert_eq!(<i128 as Cast<i16>>::cast(i128::MIN), i128::MIN as i16);
    assert_eq!(<i128 as Cast<i32>>::cast(i128::MAX), i128::MAX as i32);
    assert_eq!(<i128 as Cast<i32>>::cast(i128::MIN), i128::MIN as i32);
    assert_eq!(<i128 as Cast<i64>>::cast(i128::MAX), i128::MAX as i64);
    assert_eq!(<i128 as Cast<i64>>::cast(i128::MIN), i128::MIN as i64);
    assert_eq!(<i128 as Cast<i128>>::cast(i128::MAX), i128::MAX as i128);
    assert_eq!(<i128 as Cast<i128>>::cast(i128::MIN), i128::MIN as i128);
    assert_eq!(<i128 as Cast<isize>>::cast(i128::MAX), i128::MAX as isize);
    assert_eq!(<i128 as Cast<isize>>::cast(i128::MIN), i128::MIN as isize);
}

#[test]
fn cast_extremes_from_isize() {
    assert_eq!(<isize as Cast<u8>>::cast(isize::MAX), isize::MAX as u8);
    assert_eq!(<isize as Cast<u8>>::cast(isize::MIN), isize::MIN as u8);
    assert_eq!(<isize as Cast<u16>>::cast(isize::MAX), isize::MAX as u16);
    assert_eq!(<isize as Cast<u16>>::cast(isize::MIN), isize::MIN as u16);
    assert_eq!(<isize as Cast<u32>>::cast(isize::MAX), isize::MAX as u32);
    assert_eq!(<isize as Cast<u32>>::cast(isize::MIN), isize::MIN as u32);
    assert_eq!(<isize as Cast<u64>>::cast(isize::MAX), isize::MAX as u64);
    assert_eq!(<isize as Cast<u64>>::cast(isize::MIN), isize::MIN as u64);
    assert_eq!(<isize as Cast<u128>>::cast(isize::MAX), isize::MAX as u128);
    assert_eq!(<isize as Cast<u128>>::cast(isize::MIN), isize::MIN as u128);
    assert_eq!(<isize as Cast<usize>>::cast(isize::MAX), isize::MAX as usize);
    assert_eq!(<isize as Cast<usize>>::cast(isize::MIN), isize::MIN as usize);
    assert_eq!(<isize as Cast<i8>>::cast(isize::MAX), isize::MAX as i8);
    assert_eq!(<isize as Cast<i8>>::cast(isize::MIN), isize::MIN as i8);
    assert_eq!(<isize as Cast<i16>>::cast(isize::MAX), isize::MAX as i16);
    assert_eq!(<isize as Cast<i16>>::cast(isize::MIN), isize::MIN as i16);
    assert_eq!(<isize as Cast<i32>>::cast(isize::MAX), isize::MAX as i32);
    assert_eq!(<isize as Cast<i32>>::cast(isize::MIN), isize::MIN as i32);
    assert_eq!(<isize as Cast<i64>>::cast(isize::MAX), isize::MAX as i64);
    assert_eq!(<isize as Cast<i64>>::cast(isize::MIN), isize::MIN as i64);
    assert_eq!(<isize as Cast<i128>>::cast(isize::MAX), isize::MAX as i128);
    assert_eq!(<isize as Cast<i128>>::cast(isize::MIN), isize::MIN as i128);
    assert_eq!(<isize as Cast<isize>>::cast(isize::MAX), isize::MAX as isize);
    assert_eq!(<isize as Cast<isize>>::cast(isize::MIN), isize::MIN as isize);
}
