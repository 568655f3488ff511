//! The single-byte code pages in which an AMX holds text.
use vstd::prelude::*;
use vstd::string::StringSliceAdditionalSpecFns;

use crate::amx::Amx;

verus! {

/// A code page for the text of an AMX. A script's strings hold one byte for
/// each character, and the code page says which character a byte stands for.
#[derive(Debug, Clone, Copy, PartialEq, Eq, Structural)]
pub enum CodePage {
    /// Western European; the default.
    Windows1252,
    /// Cyrillic.
    Windows1251,
}

impl CodePage {
    /// The number that the code page is known by.
    pub open spec fn number(self) -> int {
        match self {
            CodePage::Windows1252 => 1252,
            CodePage::Windows1251 => 1251,
        }
    }
}

impl Default for CodePage {
    fn default() -> (page: CodePage)
        ensures
            page == CodePage::Windows1252,
    {
        CodePage::Windows1252
    }
}

/// The longest text, in bytes of UTF-8, that is handed to an encoder.
pub const MAX_TEXT_LEN: usize = 0x0800_0000;

/// The longest run of bytes that is handed to a decoder.
pub const MAX_BYTES_LEN: usize = 0x2000_0000;

/// The bytes that `encoding_rs` encodes `text` to in the code page with the
/// number `code_page`. A character that the code page lacks becomes a
/// numeric character reference.
pub uninterp spec fn encoded_text(code_page: int, text: Seq<char>) -> Seq<u8>;

/// The text that `encoding_rs` decodes `bytes` to in the code page with the
/// number `code_page`. Bytes that begin with a byte order mark are decoded
/// as the mark says.
pub uninterp spec fn decoded_text(code_page: int, bytes: Seq<u8>) -> Seq<char>;

/// Text that is ASCII throughout.
pub open spec fn is_ascii_text(text: Seq<char>) -> bool {
    forall|i: int| 0 <= i < text.len() ==> '\0' <= #[trigger] text[i] <= '\u{7f}'
}

/// Bytes that are ASCII throughout.
pub open spec fn is_ascii_bytes(bytes: Seq<u8>) -> bool {
    forall|i: int| 0 <= i < bytes.len() ==> #[trigger] bytes[i] < 0x80
}

/// The bytes of an ASCII text: each character is its own byte.
pub open spec fn ascii_bytes(text: Seq<char>) -> Seq<u8> {
    Seq::new(text.len(), |i: int| text[i] as u8)
}

/// The text of ASCII bytes: each byte is its own character.
pub open spec fn ascii_text(bytes: Seq<u8>) -> Seq<char> {
    Seq::new(bytes.len(), |i: int| bytes[i] as char)
}

/// `encoding_rs::Encoding::encode` on `WINDOWS_1252`: the result is named
/// `encoded_text(1252, ..)`, and, as the crate documents, ASCII text comes
/// back as its own bytes. The length limit keeps the crate's buffer
/// arithmetic, which panics on overflow, within `usize`.
#[verifier::external_body]
fn encode_windows_1252(text: &str) -> (bytes: Vec<u8>)
    requires
        text.spec_bytes().len() <= MAX_TEXT_LEN,
    ensures
        bytes@ == encoded_text(1252, text@),
        is_ascii_text(text@) ==> bytes@ == ascii_bytes(text@),
{
    encoding_rs::WINDOWS_1252.encode(text).0.into_owned()
}

/// `encoding_rs::Encoding::encode` on `WINDOWS_1251`: the result is named
/// `encoded_text(1251, ..)`, and, as the crate documents, ASCII text comes
/// back as its own bytes. The length limit keeps the crate's buffer
/// arithmetic, which panics on overflow, within `usize`.
#[verifier::external_body]
fn encode_windows_1251(text: &str) -> (bytes: Vec<u8>)
    requires
        text.spec_bytes().len() <= MAX_TEXT_LEN,
    ensures
        bytes@ == encoded_text(1251, text@),
        is_ascii_text(text@) ==> bytes@ == ascii_bytes(text@),
{
    encoding_rs::WINDOWS_1251.encode(text).0.into_owned()
}

/// `encoding_rs::Encoding::decode` on `WINDOWS_1252`: the result is named
/// `decoded_text(1252, ..)`, and, as the crate documents, ASCII bytes come
/// back as the text they are. The length limit keeps the crate's buffer
/// arithmetic, which panics on overflow, within `usize`.
#[verifier::external_body]
fn decode_windows_1252(bytes: &[u8]) -> (text: String)
    requires
        bytes@.len() <= MAX_BYTES_LEN,
    ensures
        text@ == decoded_text(1252, bytes@),
        is_ascii_bytes(bytes@) ==> text@ == ascii_text(bytes@),
{
    encoding_rs::WINDOWS_1252.decode(bytes).0.into_owned()
}

/// `encoding_rs::Encoding::decode` on `WINDOWS_1251`: the result is named
/// `decoded_text(1251, ..)`, and, as the crate documents, ASCII bytes come
/// back as the text they are. The length limit keeps the crate's buffer
/// arithmetic, which panics on overflow, within `usize`.
#[verifier::external_body]
fn decode_windows_1251(bytes: &[u8]) -> (text: String)
    requires
        bytes@.len() <= MAX_BYTES_LEN,
    ensures
        text@ == decoded_text(1251, bytes@),
        is_ascii_bytes(bytes@) ==> text@ == ascii_text(bytes@),
{
    encoding_rs::WINDOWS_1251.decode(bytes).0.into_owned()
}

/// The bytes of `text` in the code page `page`.
pub fn encode(page: CodePage, text: &str) -> (bytes: Vec<u8>)
    requires
        text.spec_bytes().len() <= MAX_TEXT_LEN,
    ensures
        bytes@ == encoded_text(page.number(), text@),
        is_ascii_text(text@) ==> bytes@ == ascii_bytes(text@),
{
    match page {
        CodePage::Windows1252 => encode_windows_1252(text),
        CodePage::Windows1251 => encode_windows_1251(text),
    }
}

/// The text that `bytes` stand for in the code page `page`.
pub fn decode(page: CodePage, bytes: &[u8]) -> (text: String)
    requires
        bytes@.len() <= MAX_BYTES_LEN,
    ensures
        text@ == decoded_text(page.number(), bytes@),
        is_ascii_bytes(bytes@) ==> text@ == ascii_text(bytes@),
{
    match page {
        CodePage::Windows1252 => decode_windows_1252(bytes),
        CodePage::Windows1251 => decode_windows_1251(bytes),
    }
}

/// Makes `encoding` the code page of the text of `amx`.
pub fn set_default_encoding(amx: &mut Amx, encoding: CodePage)
    ensures
        final(amx)@ == (crate::amx::AmxView { encoding, ..old(amx)@ }),
{
    amx.set_encoding(encoding);
}

/// The code page of the text of `amx`.
pub fn get(amx: &Amx) -> (encoding: CodePage)
    ensures
        encoding == amx@.encoding,
{
    amx.encoding()
}

/// ASCII text survives the way to bytes and back.
pub proof fn lemma_ascii_round_trip(text: Seq<char>)
    requires
        is_ascii_text(text),
    ensures
        is_ascii_bytes(ascii_bytes(text)),
        ascii_text(ascii_bytes(text)) == text,
{
    assert forall|i: int| 0 <= i < text.len() implies #[trigger] ascii_bytes(text)[i] < 0x80 by {
        let c = text[i];
        assert('\0' <= c <= '\u{7f}');
    }
    assert forall|i: int| 0 <= i < text.len() implies #[trigger] ascii_text(ascii_bytes(text))[i]
        == text[i] by {
        let c = text[i];
        assert('\0' <= c <= '\u{7f}');
        assert((c as u8) as char == c);
    }
    assert(ascii_text(ascii_bytes(text)) =~= text);
}

} // verus!
