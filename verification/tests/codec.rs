use samp_sdk::amx::Amx;
use samp_sdk::cell::repr::{AmxCell, AmxPrimitive, FloatBits};
use samp_sdk::cell::Ref;
use samp_sdk::error::AmxError;

fn small_amx() -> Amx {
    // data and heap: cells 0..4, gap: cells 4..6, stack: cells 6..8
    Amx::new(vec![11, 22, 33, 44, 0, 0, 77, 88], 16, 24, 32).unwrap()
}

fn float_cell(value: f32) -> i32 {
    FloatBits::from_bits(value.to_bits()).to_cell()
}

fn cell_float(cell: i32) -> f32 {
    f32::from_bits(FloatBits::from_cell(cell).to_bits())
}

#[test]
fn float_ten_keeps_its_bits() {
    assert_eq!(float_cell(10.0), 0x4120_0000);
    assert_ne!(float_cell(10.0), 10);
    assert_eq!(cell_float(0x4120_0000), 10.0f32);
}

#[test]
fn float_round_trip_is_bit_exact() {
    let patterns: [u32; 10] = [
        0x0000_0000, // +0
        0x8000_0000, // -0
        0x7F80_0000, // +inf
        0xFF80_0000, // -inf
        0x7FC0_0000, // quiet NaN
        0x7FA0_0001, // signalling NaN with a payload
        0xFFFF_FFFF, // NaN, all bits set
        0x0000_0001, // smallest subnormal
        0x425E_0000, // 55.5
        0x3F80_0000, // 1.0
    ];
    for bits in patterns.iter() {
        let float = FloatBits::from_bits(*bits);
        let back = FloatBits::from_cell(float.to_cell());
        assert_eq!(back.to_bits(), *bits);
    }
    assert_eq!(0x425E_0000, 55.5f32.to_bits());
}

#[test]
fn float_signed_zero_and_nan_survive() {
    let negative_zero = cell_float(float_cell(-0.0));
    assert!(negative_zero == 0.0 && negative_zero.is_sign_negative());
    let nan = f32::from_bits(0x7FC1_2345);
    assert_eq!(cell_float(float_cell(nan)).to_bits(), 0x7FC1_2345);
}

#[test]
fn float_from_raw_ignores_the_amx() {
    let amx = small_amx();
    let float = FloatBits::from_raw(&amx, 0x4120_0000).unwrap();
    assert_eq!(float.to_bits(), 0x4120_0000);
    assert_eq!(float.as_cell(), 0x4120_0000);
}

#[test]
fn bool_round_trip() {
    assert_eq!(true.to_cell(), 1);
    assert_eq!(false.to_cell(), 0);
    assert_eq!(bool::from_cell(true.to_cell()), true);
    assert_eq!(bool::from_cell(false.to_cell()), false);
}

#[test]
fn bool_any_nonzero_cell_is_true() {
    assert_eq!(bool::from_cell(2), true);
    assert_eq!(bool::from_cell(-1), true);
    assert_eq!(bool::from_cell(i32::MIN), true);
    assert_eq!(bool::from_cell(0x100), true);
    assert_eq!(bool::from_cell(0), false);
    let amx = small_amx();
    assert_eq!(bool::from_raw(&amx, 2), Ok(true));
    assert_eq!(bool::from_raw(&amx, 0), Ok(false));
}

#[test]
fn integers_extend_and_truncate() {
    assert_eq!((-1i8).to_cell(), -1);
    assert_eq!(255u8.to_cell(), 255);
    assert_eq!((-2i16).to_cell(), -2);
    assert_eq!(65535u16.to_cell(), 65535);
    assert_eq!(u32::MAX.to_cell(), -1);
    assert_eq!(0x8000_0000u32.to_cell(), i32::MIN);
    assert_eq!(i8::from_cell(0x1FF), -1);
    assert_eq!(u8::from_cell(0x1FF), 0xFF);
    assert_eq!(u8::from_cell(-1), 0xFF);
    assert_eq!(i16::from_cell(0x1_8000), -32768);
    assert_eq!(u16::from_cell(-1), 0xFFFF);
    assert_eq!(u32::from_cell(-1), u32::MAX);
    assert_eq!(i32::from_cell(-7), -7);
    assert_eq!(isize::from_cell(-7), -7);
    assert_eq!(usize::from_cell(7), 7);
    assert_eq!(usize::from_cell(-1), usize::MAX);
    assert_eq!(7usize.to_cell(), 7);
    assert_eq!((-7isize).to_cell(), -7);
}

#[test]
fn integer_round_trips() {
    for value in [i8::MIN, -1, 0, 1, i8::MAX].iter() {
        assert_eq!(i8::from_cell(value.to_cell()), *value);
    }
    for value in [0u8, 1, 127, 128, 255].iter() {
        assert_eq!(u8::from_cell(value.to_cell()), *value);
    }
    for value in [i16::MIN, -1, 0, i16::MAX].iter() {
        assert_eq!(i16::from_cell(value.to_cell()), *value);
    }
    for value in [0u16, 0x8000, u16::MAX].iter() {
        assert_eq!(u16::from_cell(value.to_cell()), *value);
    }
    for value in [0u32, 0x7FFF_FFFF, 0x8000_0000, u32::MAX].iter() {
        assert_eq!(u32::from_cell(value.to_cell()), *value);
    }
}

#[test]
fn primitives_decode_through_from_raw() {
    let amx = small_amx();
    assert_eq!(i32::from_raw(&amx, 7), Ok(7));
    assert_eq!(u8::from_raw(&amx, 0x141), Ok(0x41));
    assert_eq!(7i32.as_cell(), 7);
    assert_eq!(true.as_cell(), 1);
}

#[test]
fn reference_decodes_from_a_valid_address() {
    let amx = small_amx();
    let reference: Ref<i32> = Ref::from_raw(&amx, 8).unwrap();
    assert_eq!(reference.address(), 8);
    assert_eq!(reference.as_cell(), 8);
    assert_eq!(reference.read(&amx), 33);
}

#[test]
fn reference_from_raw_checks_bounds() {
    let amx = small_amx();
    assert!(matches!(Ref::<i32>::from_raw(&amx, 16), Err(AmxError::MemoryAccess)));
    assert!(matches!(Ref::<i32>::from_raw(&amx, -4), Err(AmxError::MemoryAccess)));
    assert!(matches!(Ref::<i32>::from_raw(&amx, 32), Err(AmxError::MemoryAccess)));
}

#[test]
fn reference_reads_by_its_type() {
    let mut amx = small_amx();
    let cell: Ref<i32> = amx.get_ref(4).unwrap();
    cell.write(&mut amx, 0x0000_0102);
    let byte: Ref<u8> = amx.get_ref(4).unwrap();
    assert_eq!(byte.read(&amx), 2);
    let flag: Ref<bool> = amx.get_ref(4).unwrap();
    assert_eq!(flag.read(&amx), true);
    flag.write(&mut amx, false);
    assert_eq!(cell.read(&amx), 0);
    let float: Ref<FloatBits> = amx.get_ref(4).unwrap();
    float.write(&mut amx, FloatBits::from_bits(10.0f32.to_bits()));
    assert_eq!(cell.read(&amx), 0x4120_0000);
}
