//! Strict conversion between text and Windows-1251, the Cyrillic code
//! page: what the codec cannot convert is an error and is never replaced.
use vstd::prelude::*;
use vstd::string::StringSliceAdditionalSpecFns;

use crate::encoding::{ascii_bytes, ascii_text, is_ascii_bytes, is_ascii_text};
use crate::error::{AmxError, AmxResult};

verus! {

/// The bytes that the `encoding` crate encodes `text` to in Windows-1251
/// with the strict trap, or `None` where the code page lacks a character
/// of it.
pub uninterp spec fn strict_bytes(text: Seq<char>) -> Option<Seq<u8>>;

/// The text that the `encoding` crate decodes `bytes` to from Windows-1251
/// with the strict trap, or `None` where the crate reports a byte that it
/// cannot decode.
pub uninterp spec fn strict_text(bytes: Seq<u8>) -> Option<Seq<char>>;

/// What the `encoding` crate appends to its output when it encodes `text`
/// to Windows-1251 with the strict trap, and whether it came to the end of
/// the text. Where it did not, the bytes are those of the characters before
/// the first one that the code page lacks.
pub uninterp spec fn strict_bytes_written(text: Seq<char>) -> (bool, Seq<u8>);

/// What the `encoding` crate appends to its output when it decodes `bytes`
/// from Windows-1251 with the strict trap, and whether it came to the end
/// of the bytes.
pub uninterp spec fn strict_text_written(bytes: Seq<u8>) -> (bool, Seq<char>);

/// `Encoding::encode` of the `encoding` crate on `WINDOWS_1251` with
/// `EncoderTrap::Strict`. Its result is named `strict_bytes`; the crate's
/// encoder writes every ASCII character as its own byte.
#[verifier::external_body]
fn encode_strict(string: &str) -> (bytes: Option<Vec<u8>>)
    ensures
        bytes is Some <==> strict_bytes(string@) is Some,
        bytes is Some ==> bytes->0@ == strict_bytes(string@)->0,
        is_ascii_text(string@) ==> bytes is Some && bytes->0@ == ascii_bytes(string@),
{
    ::encoding::Encoding::encode(
        ::encoding::all::WINDOWS_1251,
        string,
        ::encoding::EncoderTrap::Strict,
    ).ok()
}

/// `Encoding::decode` of the `encoding` crate on `WINDOWS_1251` with
/// `DecoderTrap::Strict`. Its result is named `strict_text`; the crate's
/// decoder reads every ASCII byte as its own character.
#[verifier::external_body]
fn decode_strict(bytes: &[u8]) -> (text: Option<String>)
    ensures
        text is Some <==> strict_text(bytes@) is Some,
        text is Some ==> text->0@ == strict_text(bytes@)->0,
        is_ascii_bytes(bytes@) ==> text is Some && text->0@ == ascii_text(bytes@),
{
    ::encoding::Encoding::decode(
        ::encoding::all::WINDOWS_1251,
        bytes,
        ::encoding::DecoderTrap::Strict,
    ).ok()
}

/// `Encoding::encode_to` of the `encoding` crate on `WINDOWS_1251` with
/// `EncoderTrap::Strict`, into a `Vec<u8>`, to which the crate only
/// appends. What it appends and whether it succeeds is named
/// `strict_bytes_written`; the crate's encoder writes every ASCII
/// character as its own byte. The limit keeps the room that the crate
/// reserves within what a `Vec` can hold.
#[verifier::external_body]
fn encode_strict_to(source: &str, dest: &mut Vec<u8>) -> (done: bool)
    requires
        old(dest)@.len() + source.spec_bytes().len() <= isize::MAX,
    ensures
        done == strict_bytes_written(source@).0,
        final(dest)@ == old(dest)@ + strict_bytes_written(source@).1,
        is_ascii_text(source@) ==> done && final(dest)@ == old(dest)@ + ascii_bytes(source@),
{
    ::encoding::Encoding::encode_to(
        ::encoding::all::WINDOWS_1251,
        source,
        ::encoding::EncoderTrap::Strict,
        dest,
    ).is_ok()
}

/// `Encoding::decode_to` of the `encoding` crate on `WINDOWS_1251` with
/// `DecoderTrap::Strict`, into a `String`, to which the crate only
/// appends. What it appends and whether it succeeds is named
/// `strict_text_written`; the crate's decoder reads every ASCII byte as
/// its own character. The limit keeps the room that the crate reserves
/// within what a `String` can hold.
#[verifier::external_body]
fn decode_strict_to(source: &[u8], dest: &mut String) -> (done: bool)
    requires
        8 * old(dest)@.len() + source@.len() <= isize::MAX,
    ensures
        done == strict_text_written(source@).0,
        final(dest)@ == old(dest)@ + strict_text_written(source@).1,
        is_ascii_bytes(source@) ==> done && final(dest)@ == old(dest)@ + ascii_text(source@),
{
    ::encoding::Encoding::decode_to(
        ::encoding::all::WINDOWS_1251,
        source,
        ::encoding::DecoderTrap::Strict,
        dest,
    ).is_ok()
}

/// The result of a strict conversion: what the codec made, or a `Format`
/// error where it made nothing.
pub fn converted<T>(outcome: Option<T>) -> (result: AmxResult<T>)
    ensures
        outcome is Some ==> result == Ok::<T, AmxError>(outcome->0),
        outcome is None ==> result == Err::<T, AmxError>(AmxError::Format),
{
    match outcome {
        Some(value) => Ok(value),
        None => Err(AmxError::Format),
    }
}

/// The bytes of `string` in Windows-1251. Fails with `Format` where the
/// code page lacks a character of it.
pub fn encode(string: &str) -> (result: AmxResult<Vec<u8>>)
    ensures
        result is Ok <==> strict_bytes(string@) is Some,
        result is Ok ==> result->Ok_0@ == strict_bytes(string@)->0,
        result is Err ==> result->Err_0 == AmxError::Format,
        is_ascii_text(string@) ==> result is Ok && result->Ok_0@ == ascii_bytes(string@),
{
    converted(encode_strict(string))
}

/// The text that `bytes` stand for in Windows-1251. Fails with `Format`
/// where the codec reports a byte that it cannot decode.
pub fn decode(bytes: &[u8]) -> (result: AmxResult<String>)
    ensures
        result is Ok <==> strict_text(bytes@) is Some,
        result is Ok ==> result->Ok_0@ == strict_text(bytes@)->0,
        result is Err ==> result->Err_0 == AmxError::Format,
        is_ascii_bytes(bytes@) ==> result is Ok && result->Ok_0@ == ascii_text(bytes@),
{
    converted(decode_strict(bytes))
}

/// Appends the bytes of `source` in Windows-1251 to `dest`. Fails with
/// `Format` where the code page lacks a character; `dest` then holds the
/// bytes of the characters before it.
pub fn encode_to(source: &str, dest: &mut Vec<u8>) -> (result: AmxResult<()>)
    requires
        old(dest)@.len() + source.spec_bytes().len() <= isize::MAX,
    ensures
        result == finished(strict_bytes_written(source@).0),
        final(dest)@ == old(dest)@ + strict_bytes_written(source@).1,
        is_ascii_text(source@) ==> result is Ok && final(dest)@ == old(dest)@ + ascii_bytes(
            source@,
        ),
{
    finish(encode_strict_to(source, dest))
}

/// Appends the text that `source` stands for in Windows-1251 to `dest`.
/// Fails with `Format` where the codec reports a byte that it cannot
/// decode; `dest` then holds the text of the bytes before it.
pub fn decode_to(source: &[u8], dest: &mut String) -> (result: AmxResult<()>)
    requires
        8 * old(dest)@.len() + source@.len() <= isize::MAX,
    ensures
        result == finished(strict_text_written(source@).0),
        final(dest)@ == old(dest)@ + strict_text_written(source@).1,
        is_ascii_bytes(source@) ==> result is Ok && final(dest)@ == old(dest)@ + ascii_text(
            source@,
        ),
{
    finish(decode_strict_to(source, dest))
}

/// The result of a conversion that came to its end, or did not.
pub open spec fn finished(done: bool) -> AmxResult<()> {
    if done {
        Ok(())
    } else {
        Err(AmxError::Format)
    }
}

/// The result of a conversion that came to its end, or did not.
pub fn finish(done: bool) -> (result: AmxResult<()>)
    ensures
        result == finished(done),
{
    if done {
        Ok(())
    } else {
        Err(AmxError::Format)
    }
}

} // verus!
