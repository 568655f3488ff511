use samp_sdk::amx::Amx;
use samp_sdk::cp1251;
use samp_sdk::encoding;
use samp_sdk::encoding::CodePage;
use samp_sdk::error::AmxError;

#[test]
fn default_code_page_is_western() {
    assert_eq!(CodePage::default(), CodePage::Windows1252);
    let amx = Amx::new(vec![0; 2], 8, 8, 8).unwrap();
    assert_eq!(encoding::get(&amx), CodePage::Windows1252);
}

#[test]
fn code_page_is_set_per_amx() {
    let mut amx = Amx::new(vec![0; 2], 8, 8, 8).unwrap();
    encoding::set_default_encoding(&mut amx, CodePage::Windows1251);
    assert_eq!(encoding::get(&amx), CodePage::Windows1251);
    assert_eq!(amx.encoding(), CodePage::Windows1251);
    assert_eq!(amx.hea(), 8);
    assert_eq!(amx.segment(), &[0, 0]);
}

#[test]
fn ascii_is_its_own_bytes() {
    assert_eq!(encoding::encode(CodePage::Windows1252, "Hello"), b"Hello".to_vec());
    assert_eq!(encoding::encode(CodePage::Windows1251, "Hello"), b"Hello".to_vec());
    assert_eq!(encoding::decode(CodePage::Windows1252, b"Hello"), "Hello");
    assert_eq!(encoding::decode(CodePage::Windows1251, b"Hello"), "Hello");
    assert_eq!(encoding::encode(CodePage::Windows1252, ""), Vec::<u8>::new());
    assert_eq!(encoding::decode(CodePage::Windows1251, b""), "");
}

#[test]
fn code_pages_differ_above_ascii() {
    assert_eq!(encoding::encode(CodePage::Windows1251, "Я"), vec![0xDF]);
    assert_eq!(encoding::encode(CodePage::Windows1252, "ß"), vec![0xDF]);
    assert_eq!(encoding::decode(CodePage::Windows1251, &[0xDF]), "Я");
    assert_eq!(encoding::decode(CodePage::Windows1252, &[0xDF]), "ß");
    assert_eq!(encoding::encode(CodePage::Windows1252, "€"), vec![0x80]);
    assert_eq!(encoding::encode(CodePage::Windows1251, "€"), vec![0x88]);
}

#[test]
fn a_character_outside_the_code_page_becomes_a_reference() {
    assert_eq!(encoding::encode(CodePage::Windows1252, "Я"), b"&#1071;".to_vec());
    assert_eq!(encoding::encode(CodePage::Windows1251, "aßb"), b"a&#223;b".to_vec());
}

#[test]
fn strict_encode_of_cyrillic() {
    assert_eq!(cp1251::encode("Привет"), Ok(vec![0xCF, 0xF0, 0xE8, 0xE2, 0xE5, 0xF2]));
    assert_eq!(cp1251::encode("abc"), Ok(b"abc".to_vec()));
    assert_eq!(cp1251::encode(""), Ok(Vec::new()));
}

#[test]
fn strict_encode_refuses_a_character_outside_the_code_page() {
    assert_eq!(cp1251::encode("ß"), Err(AmxError::Format));
    assert_eq!(cp1251::encode("abc日本"), Err(AmxError::Format));
}

#[test]
fn strict_decode_of_cyrillic() {
    assert_eq!(
        cp1251::decode(&[0xCF, 0xF0, 0xE8, 0xE2, 0xE5, 0xF2]),
        Ok(String::from("Привет"))
    );
    assert_eq!(cp1251::decode(b"abc"), Ok(String::from("abc")));
}

#[test]
fn strict_decode_knows_every_byte() {
    let all: Vec<u8> = (0u8..=255).collect();
    let text = cp1251::decode(&all).unwrap();
    assert_eq!(text.chars().count(), 256);
    assert_eq!(cp1251::encode(&text), Ok(all));
    assert_eq!(cp1251::decode(&[0x41, 0x98]), Ok(String::from("A\u{98}")));
}

#[test]
fn strict_encode_to_appends() {
    let mut dest = vec![1u8, 2];
    assert_eq!(cp1251::encode_to("Яa", &mut dest), Ok(()));
    assert_eq!(dest, vec![1, 2, 0xDF, b'a']);
    let mut dest = vec![9u8];
    assert_eq!(cp1251::encode_to("abßc", &mut dest), Err(AmxError::Format));
    assert_eq!(dest, vec![9, b'a', b'b']);
}

#[test]
fn strict_decode_to_appends() {
    let mut dest = String::from(">");
    assert_eq!(cp1251::decode_to(&[0xDF, b'a'], &mut dest), Ok(()));
    assert_eq!(dest, ">Яa");
    assert_eq!(cp1251::decode_to(&[b'b', 0xFF], &mut dest), Ok(()));
    assert_eq!(dest, ">Яabя");
}

#[test]
fn conversion_results() {
    assert_eq!(cp1251::converted(Some(5)), Ok(5));
    assert_eq!(cp1251::converted::<i32>(None), Err(AmxError::Format));
    assert_eq!(cp1251::finish(true), Ok(()));
    assert_eq!(cp1251::finish(false), Err(AmxError::Format));
}
