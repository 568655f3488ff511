use samp_sdk::amx::Amx;
use samp_sdk::args::{Args, Parser};
use samp_sdk::cell::buffer::UnsizedBuffer;
use samp_sdk::cell::repr::{AmxPrimitive, FloatBits};
use samp_sdk::cell::{AmxString, Ref};
use samp_sdk::plugin::{c_name, convert_return_value, native_return};
use samp_sdk::error::AmxError;

// data below 32, gap 32..64, stack 64..96
fn guest() -> Amx {
    let mut data = vec![0i32; 24];
    data[2] = 55.5f32.to_bits() as i32; // a float at address 8
    data[4] = 'o' as i32; // "ok" at address 16
    data[5] = 'k' as i32;
    data[6] = 0;
    Amx::new(data, 32, 64, 96).unwrap()
}

#[test]
fn count_is_the_byte_count_divided_by_four() {
    assert_eq!(Args::new(vec![0]).count(), 0);
    assert_eq!(Args::new(vec![4, 10]).count(), 1);
    assert_eq!(Args::new(vec![12, 1, 2, 3]).count(), 3);
    assert_eq!(Args::new(vec![20, 1, 2, 3, 4, 5]).count(), 5);
    assert_eq!(Args::new(Vec::new()).count(), 0);
    assert_eq!(Args::new(vec![-4, 1]).count(), 0);
    assert_eq!(Args::new(vec![7, 1]).count(), 1);
}

#[test]
fn next_reads_in_order_and_then_nothing() {
    let amx = guest();
    let mut args = Args::new(vec![12, 10, 20, 30]);
    assert_eq!(args.count(), 3);
    assert_eq!(args.next::<i32>(&amx), Some(10));
    assert_eq!(args.next::<i32>(&amx), Some(20));
    assert_eq!(args.next::<i32>(&amx), Some(30));
    assert_eq!(args.next::<i32>(&amx), None);
    assert_eq!(args.next::<i32>(&amx), None);
    assert_eq!(args.count(), 3);
}

#[test]
fn next_without_arguments() {
    let amx = guest();
    let mut args = Args::new(vec![0]);
    assert_eq!(args.next::<i32>(&amx), None);
    let mut none = Args::new(Vec::new());
    assert_eq!(none.next::<i32>(&amx), None);
}

#[test]
fn get_reads_by_position() {
    let amx = guest();
    let args = Args::new(vec![12, 10, 20, 30]);
    assert_eq!(args.get::<i32>(&amx, 2), Some(30));
    assert_eq!(args.get::<i32>(&amx, 0), Some(10));
    assert_eq!(args.get::<i32>(&amx, 3), None);
    assert_eq!(args.get::<i32>(&amx, usize::MAX), None);
    assert_eq!(args.get::<bool>(&amx, 1), Some(true));
    assert_eq!(args.get::<u8>(&amx, 1), Some(20));
}

#[test]
fn get_stays_inside_a_short_array() {
    let amx = guest();
    // the first cell announces three arguments, the array holds one
    let args = Args::new(vec![12, 10]);
    assert_eq!(args.count(), 3);
    assert_eq!(args.get::<i32>(&amx, 0), Some(10));
    assert_eq!(args.get::<i32>(&amx, 1), None);
    assert_eq!(args.get::<i32>(&amx, 2), None);
}

#[test]
fn reset_starts_over() {
    let amx = guest();
    let mut args = Args::new(vec![8, 1, 2]);
    assert_eq!(args.next::<i32>(&amx), Some(1));
    assert_eq!(args.next::<i32>(&amx), Some(2));
    args.reset();
    assert_eq!(args.next::<i32>(&amx), Some(1));
}

#[test]
fn an_argument_that_does_not_decode_is_skipped() {
    let amx = guest();
    // the first argument is an address in the gap
    let mut args = Args::new(vec![8, 40, 5]);
    assert!(args.next::<Ref<i32>>(&amx).is_none());
    assert_eq!(args.next::<i32>(&amx), Some(5));
    assert_eq!(args.next::<i32>(&amx), None);
}

#[test]
fn arguments_of_every_kind() {
    let amx = guest();
    let mut args = Args::new(vec![16, 16, 8, 0, 1]);
    let text: AmxString = args.next(&amx).unwrap();
    assert_eq!(text.to_string(&amx), "ok");
    let health: Ref<FloatBits> = args.next(&amx).unwrap();
    assert_eq!(f32::from_bits(health.read(&amx).to_bits()), 55.5);
    let array: UnsizedBuffer = args.next(&amx).unwrap();
    assert_eq!(array.into_sized_buffer(3).as_slice(&amx), &[0, 0, 55.5f32.to_bits() as i32]);
    let flag: bool = args.next(&amx).unwrap();
    assert!(flag);
}

// native: SetHealth(player_id, Float:health, &Float:shown)
fn set_health(amx: &mut Amx, mut args: Args, seen: &mut (i32, f32)) -> Result<bool, AmxError> {
    let player_id: i32 = args.next(amx).ok_or(AmxError::Params)?;
    let health: FloatBits = args.next(amx).ok_or(AmxError::Params)?;
    let shown: Ref<FloatBits> = args.next(amx).ok_or(AmxError::Params)?;
    *seen = (player_id, f32::from_bits(health.to_bits()));
    shown.write(amx, FloatBits::from_bits(10.0f32.to_bits()));
    Ok(true)
}

#[test]
fn native_call_end_to_end() {
    let mut amx = guest();
    let name = c_name("SetHealth").unwrap();
    assert_eq!(name, b"SetHealth\0".to_vec());
    // the script calls the native with (7, 55.5, &cell at address 12)
    let params = vec![12, 7, FloatBits::from_bits(55.5f32.to_bits()).to_cell(), 12];
    let mut seen = (0, 0.0f32);
    let outcome = set_health(&mut amx, Args::new(params), &mut seen);
    assert_eq!(seen.0, 7);
    assert_eq!(seen.1, 55.5f32);
    assert_eq!(seen.1.to_bits(), 55.5f32.to_bits());
    assert_eq!(native_return(outcome), 1);
    // the script sees the new value in its own memory at once
    assert_eq!(amx.read_cell(12), 0x4120_0000);
    assert_eq!(f32::from_bits(amx.segment()[3] as u32), 10.0);
}

#[test]
fn native_call_with_a_missing_argument_returns_zero() {
    let mut amx = guest();
    let mut seen = (0, 0.0f32);
    let outcome = set_health(&mut amx, Args::new(vec![4, 7]), &mut seen);
    assert_eq!(outcome, Err(AmxError::Params));
    assert_eq!(native_return(outcome), 0);
    assert_eq!(amx.read_cell(12), 0);
}

#[test]
fn native_return_is_the_cell_of_the_value() {
    assert_eq!(native_return(Ok(42i32)), 42);
    assert_eq!(native_return(Ok(true)), 1);
    assert_eq!(native_return(Ok(FloatBits::from_bits(1.0f32.to_bits()))), 0x3F80_0000);
    assert_eq!(native_return::<i32>(Err(AmxError::General)), 0);
    assert_eq!(convert_return_value(Ref::<i32>::new(24)), 24);
    assert_eq!(convert_return_value(-3i16), -3);
}

#[test]
fn c_name_appends_a_zero_byte() {
    assert_eq!(c_name("OnPlayerConnect"), Ok(b"OnPlayerConnect\0".to_vec()));
    assert_eq!(c_name(""), Ok(vec![0]));
    assert_eq!(c_name("é"), Ok(vec![0xC3, 0xA9, 0]));
}

#[test]
fn c_name_with_a_zero_byte_is_not_found() {
    assert_eq!(c_name("bad\0name"), Err(AmxError::NotFound));
    assert_eq!(c_name("\0"), Err(AmxError::NotFound));
    assert_eq!(c_name("tail\0"), Err(AmxError::NotFound));
}

#[test]
fn parser_walks_the_parameter_cells() {
    let mut parser = Parser::new(64);
    assert_eq!(parser.next(), Some(68));
    assert_eq!(parser.next(), Some(72));
    assert_eq!(parser.next(), Some(76));
    let mut high = Parser::new(i32::MAX - 5);
    assert_eq!(high.next(), Some(i32::MAX - 1));
    assert_eq!(high.next(), None);
    assert_eq!(high.next(), None);
}
