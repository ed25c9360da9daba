//! Bytes to text, by a fixed order of encodings: the one that a byte-order
//! mark declares, else UTF-8, else windows-1252.

use vstd::prelude::*;
use vstd::slice::*;
use vstd::utf8::*;
use crate::error::TrackError;

verus! {

/// The encodings that decoding can use.
#[derive(Clone, Copy, Debug, PartialEq, Eq, Structural)]
pub enum TextEncoding {
    Utf8,
    Utf16Le,
    Utf16Be,
    Windows1252,
}

/// The encoding that the first bytes declare, with the length of the mark.
pub open spec fn bom_spec(bytes: Seq<u8>) -> Option<(TextEncoding, usize)> {
    if bytes.len() >= 3 && bytes[0] == 0xEF && bytes[1] == 0xBB && bytes[2] == 0xBF {
        Some((TextEncoding::Utf8, 3usize))
    } else if bytes.len() >= 2 && bytes[0] == 0xFF && bytes[1] == 0xFE {
        Some((TextEncoding::Utf16Le, 2usize))
    } else if bytes.len() >= 2 && bytes[0] == 0xFE && bytes[1] == 0xFF {
        Some((TextEncoding::Utf16Be, 2usize))
    } else {
        None
    }
}

/// What `Encoding::decode_without_bom_handling` of encoding_rs returns for
/// an encoding and a buffer: the text, and whether a malformed sequence was
/// replaced in it.
pub uninterp spec fn decode_outcome(encoding: TextEncoding, bytes: Seq<u8>) -> (Seq<char>, bool);

/// The character that windows-1252 gives to a byte: ASCII and the bytes
/// from A0 on stand for the code point of the same number, and the bytes
/// from 80 to 9F for the characters of the table below.
pub open spec fn windows_1252_char(b: u8) -> char {
    if b == 0x80 {
        '\u{20AC}'
    } else if b == 0x82 {
        '\u{201A}'
    } else if b == 0x83 {
        '\u{0192}'
    } else if b == 0x84 {
        '\u{201E}'
    } else if b == 0x85 {
        '\u{2026}'
    } else if b == 0x86 {
        '\u{2020}'
    } else if b == 0x87 {
        '\u{2021}'
    } else if b == 0x88 {
        '\u{02C6}'
    } else if b == 0x89 {
        '\u{2030}'
    } else if b == 0x8A {
        '\u{0160}'
    } else if b == 0x8B {
        '\u{2039}'
    } else if b == 0x8C {
        '\u{0152}'
    } else if b == 0x8E {
        '\u{017D}'
    } else if b == 0x91 {
        '\u{2018}'
    } else if b == 0x92 {
        '\u{2019}'
    } else if b == 0x93 {
        '\u{201C}'
    } else if b == 0x94 {
        '\u{201D}'
    } else if b == 0x95 {
        '\u{2022}'
    } else if b == 0x96 {
        '\u{2013}'
    } else if b == 0x97 {
        '\u{2014}'
    } else if b == 0x98 {
        '\u{02DC}'
    } else if b == 0x99 {
        '\u{2122}'
    } else if b == 0x9A {
        '\u{0161}'
    } else if b == 0x9B {
        '\u{203A}'
    } else if b == 0x9C {
        '\u{0153}'
    } else if b == 0x9E {
        '\u{017E}'
    } else if b == 0x9F {
        '\u{0178}'
    } else {
        b as char
    }
}

/// The text that windows-1252 gives to a buffer: one character for each byte.
pub open spec fn windows_1252_text(bytes: Seq<u8>) -> Seq<char> {
    Seq::new(bytes.len(), |i: int| windows_1252_char(bytes[i]))
}

/// The longest buffer that is handed to the decoder: the decoder sizes its
/// output at three times the input and a little more, and must not overflow.
pub const MAX_INPUT_LEN: usize = usize::MAX / 8;

/// What decoding gives: the text, or the declared encoding that the bytes
/// break. No bytes are the empty text. After a mark that declares UTF-8 the
/// rest is its UTF-8 text, or breaks it; after a mark that declares UTF-16
/// the decoder's outcome decides. Without a mark, valid UTF-8 is its text,
/// and anything else is read byte by byte as windows-1252.
pub open spec fn decode_spec(bytes: Seq<u8>) -> Result<Seq<char>, Option<TextEncoding>> {
    if bytes.len() == 0 {
        Ok(Seq::empty())
    } else {
        match bom_spec(bytes) {
            Some((TextEncoding::Utf8, skip)) => if valid_utf8(bytes.skip(skip as int)) {
                Ok(decode_utf8(bytes.skip(skip as int)))
            } else {
                Err(Some(TextEncoding::Utf8))
            },
            Some((encoding, skip)) => {
                let out = decode_outcome(encoding, bytes.skip(skip as int));
                if out.1 {
                    Err(Some(encoding))
                } else {
                    Ok(out.0)
                }
            },
            None => if valid_utf8(bytes) {
                Ok(decode_utf8(bytes))
            } else {
                Ok(windows_1252_text(bytes))
            },
        }
    }
}

/// `r` is the text `text`.
pub open spec fn is_text(r: Result<String, TrackError>, text: Seq<char>) -> bool {
    r matches Ok(t) && t@ == text
}

/// `r` is the failure of decoding under the encoding `declared`.
pub open spec fn is_refused<T>(r: Result<T, TrackError>, declared: Option<TextEncoding>) -> bool {
    r matches Err(TrackError::UnsupportedEncoding { declared: d }) && d == declared
}

/// `r` is the text or the failure that `expected` describes.
pub open spec fn decoded_as(
    r: Result<String, TrackError>,
    expected: Result<Seq<char>, Option<TextEncoding>>,
) -> bool {
    match expected {
        Ok(text) => is_text(r, text),
        Err(declared) => is_refused(r, declared),
    }
}

impl TextEncoding {
    /// The name of the encoding, as it is written in messages.
    pub open spec fn name_spec(self) -> Seq<char> {
        match self {
            TextEncoding::Utf8 => "UTF-8"@,
            TextEncoding::Utf16Le => "UTF-16LE"@,
            TextEncoding::Utf16Be => "UTF-16BE"@,
            TextEncoding::Windows1252 => "windows-1252"@,
        }
    }

    /// The name of the encoding, as it is written in messages.
    pub fn name(self) -> (r: &'static str)
        ensures
            r@ == self.name_spec(),
    {
        match self {
            TextEncoding::Utf8 => "UTF-8",
            TextEncoding::Utf16Le => "UTF-16LE",
            TextEncoding::Utf16Be => "UTF-16BE",
            TextEncoding::Windows1252 => "windows-1252",
        }
    }
}

/// Calls `Encoding::decode_without_bom_handling` of encoding_rs on the
/// encoding's static, for a whole buffer. The text and the error flag depend
/// on the encoding and the bytes alone: they are `decode_outcome`. Of two
/// encodings more is claimed. As UTF-8, errors are reported exactly where
/// the bytes are not valid UTF-8, and valid bytes come back as the text that
/// they encode. As windows-1252 no error is reported, since its table maps
/// every byte, and the text holds the table's character for each byte. The
/// buffer must be short enough for the decoder's size computation.
#[verifier::external_body]
fn decode_with(encoding: TextEncoding, bytes: &[u8]) -> (r: (String, bool))
    requires
        bytes@.len() <= MAX_INPUT_LEN,
    ensures
        (r.0@, r.1) == decode_outcome(encoding, bytes@),
        encoding == TextEncoding::Utf8 ==> r.1 == !valid_utf8(bytes@),
        encoding == TextEncoding::Utf8 && valid_utf8(bytes@) ==> encode_utf8(r.0@) == bytes@,
        encoding == TextEncoding::Windows1252 ==> !r.1 && r.0@ == windows_1252_text(bytes@),
{
    let chosen = match encoding {
        TextEncoding::Utf8 => encoding_rs::UTF_8,
        TextEncoding::Utf16Le => encoding_rs::UTF_16LE,
        TextEncoding::Utf16Be => encoding_rs::UTF_16BE,
        TextEncoding::Windows1252 => encoding_rs::WINDOWS_1252,
    };
    let (text, had_errors) = chosen.decode_without_bom_handling(bytes);
    (text.into_owned(), had_errors)
}

/// Finds the byte-order mark at the start of `bytes`: EF BB BF declares
/// UTF-8, FF FE UTF-16LE, FE FF UTF-16BE.
pub fn detect_bom(bytes: &[u8]) -> (r: Option<(TextEncoding, usize)>)
    ensures
        r == bom_spec(bytes@),
{
    let n: usize = bytes.len();
    if n >= 3 && bytes[0] == 0xEF && bytes[1] == 0xBB && bytes[2] == 0xBF {
        Some((TextEncoding::Utf8, 3))
    } else if n >= 2 && bytes[0] == 0xFF && bytes[1] == 0xFE {
        Some((TextEncoding::Utf16Le, 2))
    } else if n >= 2 && bytes[0] == 0xFE && bytes[1] == 0xFF {
        Some((TextEncoding::Utf16Be, 2))
    } else {
        None
    }
}

/// Judges one decoding: a text with a replaced sequence is refused, with the
/// encoding that was declared for it; any other text is the result.
pub fn settle(declared: Option<TextEncoding>, text: String, had_errors: bool) -> (r: Result<
    String,
    TrackError,
>)
    ensures
        had_errors ==> is_refused(r, declared),
        !had_errors ==> r == Ok::<String, TrackError>(text),
{
    if had_errors {
        Err(TrackError::UnsupportedEncoding { declared })
    } else {
        Ok(text)
    }
}

/// Decodes the bytes of a file. No bytes are the empty text. With a
/// byte-order mark, what follows it is decoded as the mark declares, a
/// second mark being text like any other, and a malformed sequence there is
/// a failure that names the encoding. Without a mark, valid UTF-8 is decoded
/// as such and anything else as windows-1252, which accepts every byte: only
/// a declared encoding can fail. The buffer may hold at most `MAX_INPUT_LEN`
/// bytes.
pub fn decode_ntr_bytes(bytes: &[u8]) -> (r: Result<String, TrackError>)
    requires
        bytes@.len() <= MAX_INPUT_LEN,
    ensures
        decoded_as(r, decode_spec(bytes@)),
        bytes@.len() == 0 ==> is_text(r, Seq::empty()),
        bom_spec(bytes@) is None ==> r is Ok,
        r is Err ==> (bom_spec(bytes@) matches Some(found) && is_refused(r, Some(found.0))),
{
    if bytes.len() == 0 {
        return Ok(String::new());
    }
    if let Some((encoding, skip)) = detect_bom(bytes) {
        let rest = slice_subrange(bytes, skip, bytes.len());
        assert(rest@ =~= bytes@.skip(skip as int));
        let (text, had_errors) = decode_with(encoding, rest);
        proof {
            encode_utf8_decode_utf8(text@);
        }
        return settle(Some(encoding), text, had_errors);
    }
    let (utf8, utf8_errors) = decode_with(TextEncoding::Utf8, bytes);
    if !utf8_errors {
        proof {
            encode_utf8_decode_utf8(utf8@);
        }
        return Ok(utf8);
    }
    let (legacy, legacy_errors) = decode_with(TextEncoding::Windows1252, bytes);
    settle(None, legacy, legacy_errors)
}

} // verus!
