use samp_sdk::amx::Amx;
use samp_sdk::cell::repr::AmxCell;
use samp_sdk::cell::string::{
    cell_byte, first_cell_is_packed, packed_strlen, put_bytes_in_buffer, put_in_buffer,
    unpacked_strlen,
};
use samp_sdk::cell::{AmxString, Buffer, Ref};
use samp_sdk::encoding::{set_default_encoding, CodePage};
use samp_sdk::error::AmxError;

fn pack(bytes: [u8; 4]) -> i32 {
    i32::from_be_bytes(bytes)
}

// All cells are data: the heap pointer and the stack pointer stand at the top.
fn amx_of(cells: Vec<i32>) -> Amx {
    let top = (cells.len() * 4) as i32;
    Amx::new(cells, top, top, top).unwrap()
}

// 32 cells, of which 8..24 are the gap.
fn amx_with_room() -> Amx {
    Amx::new(vec![-1; 32], 32, 96, 128).unwrap()
}

#[test]
fn first_cell_tells_packed_from_unpacked() {
    assert!(first_cell_is_packed(0x0100_0000));
    assert!(!first_cell_is_packed(0x0000_0041));
    assert!(!first_cell_is_packed(0x00FF_FFFF));
    assert!(!first_cell_is_packed(0));
    assert!(first_cell_is_packed(pack([b'A', 0, 0, 0])));
    // a packed string whose first character is above 0x7F
    assert!(first_cell_is_packed(pack([0xCF, 0xF0, 0, 0])));
    assert!(first_cell_is_packed(-1));
}

#[test]
fn packed_sentinel_cell_is_one_character() {
    let amx = amx_of(vec![0x0100_0000, 0]);
    let string = AmxString::from_raw(&amx, 0).unwrap();
    assert_eq!(string.len(), 1);
    assert_eq!(string.bytes_len(), 1);
    assert_eq!(string.to_bytes(&amx), vec![1u8]);
}

#[test]
fn unpacked_single_letter() {
    let amx = amx_of(vec![0x41, 0]);
    let string = AmxString::from_raw(&amx, 0).unwrap();
    assert_eq!(string.len(), 1);
    assert_eq!(string.bytes_len(), 2);
    assert!(!string.is_empty());
    assert_eq!(string.to_bytes(&amx), vec![b'A']);
    assert_eq!(string.to_string(&amx), "A");
}

#[test]
fn unpacked_string_is_decoded() {
    let amx = amx_of(vec![9, 'H' as i32, 'i' as i32, '!' as i32, 0, 'x' as i32]);
    let string = AmxString::from_raw(&amx, 4).unwrap();
    assert_eq!(string.len(), 3);
    assert_eq!(string.bytes_len(), 4);
    assert_eq!(string.address(), 4);
    assert_eq!(string.as_cell(), 4);
    assert_eq!(string.to_bytes(&amx), b"Hi!".to_vec());
    assert_eq!(string.to_string(&amx), "Hi!");
}

#[test]
fn packed_string_is_decoded_high_byte_first() {
    let amx = amx_of(vec![
        pack([b'H', b'e', b'l', b'l']),
        pack([b'o', b'!', 0, b'x']),
        0,
    ]);
    let string = AmxString::from_raw(&amx, 0).unwrap();
    assert_eq!(string.len(), 6);
    assert_eq!(string.bytes_len(), 2);
    assert_eq!(string.to_bytes(&amx), b"Hello!".to_vec());
    assert_eq!(string.to_string(&amx), "Hello!");
}

#[test]
fn packed_string_of_four_characters_needs_a_second_cell() {
    let amx = amx_of(vec![pack([b'a', b'b', b'c', b'd']), 0]);
    let string = AmxString::from_raw(&amx, 0).unwrap();
    assert_eq!(string.len(), 4);
    assert_eq!(string.bytes_len(), 2);
    assert_eq!(string.to_bytes(&amx), b"abcd".to_vec());
}

#[test]
fn packed_and_unpacked_give_the_same_text() {
    let packed = amx_of(vec![pack([b'p', b'a', b'w', b'n']), pack([b'!', 0, 0, 0])]);
    let unpacked = amx_of(vec!['p' as i32, 'a' as i32, 'w' as i32, 'n' as i32, '!' as i32, 0]);
    let from_packed = AmxString::from_raw(&packed, 0).unwrap();
    let from_unpacked = AmxString::from_raw(&unpacked, 0).unwrap();
    assert_eq!(from_packed.to_string(&packed), "pawn!");
    assert_eq!(from_unpacked.to_string(&unpacked), "pawn!");
    assert_eq!(from_packed.len(), from_unpacked.len());
    assert_eq!(from_packed.bytes_len(), 2);
    assert_eq!(from_unpacked.bytes_len(), 6);
}

#[test]
fn empty_string() {
    let amx = amx_of(vec![0, 7]);
    let string = AmxString::from_raw(&amx, 0).unwrap();
    assert_eq!(string.len(), 0);
    assert!(string.is_empty());
    assert_eq!(string.bytes_len(), 1);
    assert_eq!(string.to_bytes(&amx), Vec::<u8>::new());
    assert_eq!(string.to_string(&amx), "");
}

#[test]
fn unpacked_characters_are_the_low_bytes() {
    let amx = amx_of(vec![0x141, 0x00FF_FF42, 0]);
    let string = AmxString::from_raw(&amx, 0).unwrap();
    assert_eq!(string.len(), 2);
    assert_eq!(string.to_bytes(&amx), vec![0x41, 0x42]);
}

#[test]
fn string_without_terminator_is_a_memory_error() {
    let unpacked = amx_of(vec![1, 2, 3]);
    assert!(matches!(AmxString::from_raw(&unpacked, 0), Err(AmxError::MemoryAccess)));
    let packed = amx_of(vec![pack([1, 2, 3, 4]), pack([5, 6, 7, 8])]);
    assert!(matches!(AmxString::from_raw(&packed, 0), Err(AmxError::MemoryAccess)));
}

#[test]
fn string_at_an_invalid_address_is_a_memory_error() {
    let amx = amx_with_room();
    assert!(matches!(AmxString::from_raw(&amx, 32), Err(AmxError::MemoryAccess)));
    assert!(matches!(AmxString::from_raw(&amx, -4), Err(AmxError::MemoryAccess)));
    assert!(matches!(AmxString::from_raw(&amx, 128), Err(AmxError::MemoryAccess)));
}

#[test]
fn strlen_scans_to_the_terminator() {
    assert_eq!(unpacked_strlen(&[5, 6, 0, 7], 0), Some(2));
    assert_eq!(unpacked_strlen(&[5, 6, 0, 7], 1), Some(1));
    assert_eq!(unpacked_strlen(&[5, 6, 0, 7], 2), Some(0));
    assert_eq!(unpacked_strlen(&[5, 6, 0, 7], 3), None);
    assert_eq!(packed_strlen(&[pack([1, 2, 3, 4]), pack([5, 0, 9, 9])], 0), Some(5));
    assert_eq!(packed_strlen(&[pack([1, 2, 3, 4]), pack([5, 0, 9, 9])], 1), Some(1));
    assert_eq!(packed_strlen(&[pack([1, 2, 3, 4])], 0), None);
    assert_eq!(packed_strlen(&[pack([0, 2, 3, 4])], 0), Some(0));
}

#[test]
fn cell_bytes_from_the_top() {
    let cell = 0x1234_5678;
    assert_eq!(cell_byte(cell, 0), 0x12);
    assert_eq!(cell_byte(cell, 1), 0x34);
    assert_eq!(cell_byte(cell, 2), 0x56);
    assert_eq!(cell_byte(cell, 3), 0x78);
    assert_eq!(cell_byte(-1, 0), 0xFF);
}

#[test]
fn new_writes_one_byte_per_cell() {
    let mut amx = amx_with_room();
    let buffer = Buffer::new(Ref::new(8), 4);
    let string = AmxString::new(&mut amx, buffer, b"abc");
    assert_eq!(string.len(), 3);
    assert_eq!(string.bytes_len(), 4);
    assert_eq!(&amx.segment()[1..7], &[-1, 'a' as i32, 'b' as i32, 'c' as i32, 0, -1]);
    assert_eq!(string.to_bytes(&amx), b"abc".to_vec());
}

#[test]
fn new_leaves_the_rest_of_a_longer_buffer() {
    let mut amx = amx_with_room();
    let buffer = Buffer::new(Ref::new(0), 6);
    let string = AmxString::new(&mut amx, buffer, b"ab");
    assert_eq!(string.len(), 2);
    assert_eq!(string.bytes_len(), 6);
    assert_eq!(&amx.segment()[0..6], &['a' as i32, 'b' as i32, 0, -1, -1, -1]);
    assert!(string.fits(&amx));
}

#[test]
fn encode_then_decode_gives_the_text_back() {
    let mut amx = amx_with_room();
    let allocator = amx.allocator();
    let written = allocator.allot_string(&mut amx, "Hello, world!").unwrap();
    assert_eq!(written.len(), 13);
    assert_eq!(written.bytes_len(), 14);
    assert_eq!(written.address(), 32);
    assert_eq!(amx.hea(), 32 + 4 * 14);
    // the address is on the heap now
    let read = AmxString::from_raw(&amx, written.as_cell()).unwrap();
    assert_eq!(read.len(), 13);
    assert_eq!(read.bytes_len(), 14);
    assert_eq!(read.to_string(&amx), "Hello, world!");
    assert_eq!(written.to_string(&amx), "Hello, world!");
    allocator.release(&mut amx);
    assert_eq!(amx.hea(), 32);
}

#[test]
fn allot_string_of_empty_text() {
    let mut amx = amx_with_room();
    let allocator = amx.allocator();
    let written = allocator.allot_string(&mut amx, "").unwrap();
    assert_eq!(written.len(), 0);
    assert_eq!(written.bytes_len(), 1);
    assert_eq!(amx.read_cell(32), 0);
    assert_eq!(amx.hea(), 36);
}

#[test]
fn allot_string_fails_without_room() {
    let mut amx = amx_with_room();
    let allocator = amx.allocator();
    // the gap holds 16 cells: 15 characters and the terminator fit, 16 do not
    assert!(matches!(
        allocator.allot_string(&mut amx, "0123456789abcdef"),
        Err(AmxError::Memory)
    ));
    assert_eq!(amx.hea(), 32);
    assert_eq!(amx.segment()[8], -1);
    assert!(allocator.allot_string(&mut amx, "0123456789abcde").is_ok());
    assert_eq!(amx.hea(), 96);
}

#[test]
fn allot_bytes_writes_the_bytes() {
    let mut amx = amx_with_room();
    let allocator = amx.allocator();
    let written = allocator.allot_bytes(&mut amx, &[0xCF, 0xF0, 0xE8]).unwrap();
    assert_eq!(written.len(), 3);
    assert_eq!(&amx.segment()[8..12], &[0xCF, 0xF0, 0xE8, 0]);
    assert_eq!(written.to_bytes(&amx), vec![0xCF, 0xF0, 0xE8]);
}

#[test]
fn strings_use_the_code_page_of_the_amx() {
    let mut amx = amx_with_room();
    let allocator = amx.allocator();
    // the default is Windows-1252
    let western = allocator.allot_string(&mut amx, "é€").unwrap();
    assert_eq!(western.to_bytes(&amx), vec![0xE9, 0x80]);
    assert_eq!(western.to_string(&amx), "é€");
    set_default_encoding(&mut amx, CodePage::Windows1251);
    let cyrillic = allocator.allot_string(&mut amx, "Привет").unwrap();
    assert_eq!(cyrillic.to_bytes(&amx), vec![0xCF, 0xF0, 0xE8, 0xE2, 0xE5, 0xF2]);
    assert_eq!(cyrillic.to_string(&amx), "Привет");
    // the same bytes read in the other code page are another text
    assert_eq!(western.to_string(&amx), "й\u{402}");
}

#[test]
fn put_in_buffer_writes_and_terminates() {
    let mut amx = amx_with_room();
    let buffer = Buffer::new(Ref::new(4), 6);
    assert_eq!(put_in_buffer(&mut amx, &buffer, "Hello"), Ok(()));
    assert_eq!(
        &amx.segment()[0..8],
        &[-1, 'H' as i32, 'e' as i32, 'l' as i32, 'l' as i32, 'o' as i32, 0, -1]
    );
}

#[test]
fn put_in_buffer_refuses_a_text_that_does_not_fit() {
    let mut amx = amx_with_room();
    let buffer = Buffer::new(Ref::new(4), 5);
    assert_eq!(put_in_buffer(&mut amx, &buffer, "Hello"), Err(AmxError::General));
    assert_eq!(put_in_buffer(&mut amx, &buffer, "Hello!"), Err(AmxError::General));
    assert_eq!(&amx.segment()[0..8], &[-1; 8]);
    assert_eq!(put_in_buffer(&mut amx, &buffer, "Hell"), Ok(()));
    let empty = Buffer::new(Ref::new(4), 0);
    assert_eq!(put_in_buffer(&mut amx, &empty, ""), Err(AmxError::General));
    assert_eq!(put_bytes_in_buffer(&mut amx, &empty, &[]), Err(AmxError::General));
}

#[test]
fn get_string_reads_at_most_size_characters() {
    let amx = amx_of(vec!['a' as i32, 'b' as i32, 'c' as i32, 0, pack([b'w', b'x', b'y', b'z']), 0]);
    assert_eq!(amx.get_string(0, 10), Ok(String::from("abc")));
    assert_eq!(amx.get_string(0, 3), Ok(String::from("abc")));
    assert_eq!(amx.get_string(0, 2), Ok(String::from("ab")));
    assert_eq!(amx.get_string(0, 0), Ok(String::new()));
    assert_eq!(amx.get_string(16, 10), Ok(String::from("wxyz")));
    assert_eq!(amx.get_string(16, 3), Ok(String::from("wxy")));
    assert_eq!(amx.get_string_bytes(16, 4), Ok(b"wxyz".to_vec()));
    assert_eq!(amx.get_string_bytes(4, 1), Ok(b"b".to_vec()));
}

#[test]
fn get_string_fails_outside_the_segment() {
    let amx = amx_of(vec![1, 2, 3]);
    assert_eq!(amx.get_string(0, 4), Err(AmxError::MemoryAccess));
    assert_eq!(amx.get_string_bytes(0, 3), Ok(vec![1, 2, 3]));
    assert_eq!(amx.get_string(12, 1), Err(AmxError::MemoryAccess));
    assert_eq!(amx.get_string(-4, 1), Err(AmxError::MemoryAccess));
}

#[test]
fn push_string_writes_utf8_bytes_and_pushes() {
    let mut amx = amx_with_room();
    let address = amx.push_string("hi", false).unwrap();
    assert_eq!(address, 32);
    assert_eq!(&amx.segment()[8..11], &['h' as i32, 'i' as i32, 0]);
    assert_eq!(amx.hea(), 44);
    assert_eq!(amx.stk(), 92);
    assert_eq!(amx.read_cell(92), 32);
    let address = amx.push_string("é", false).unwrap();
    assert_eq!(address, 44);
    assert_eq!(&amx.segment()[11..14], &[0xC3, 0xA9, 0]);
}
