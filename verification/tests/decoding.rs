use ntr_tracker::decode::{decode_ntr_bytes, detect_bom, settle, TextEncoding};
use ntr_tracker::error::TrackError;

#[test]
fn empty_input_is_empty_text() {
    assert_eq!(decode_ntr_bytes(&[]), Ok(String::new()));
}

#[test]
fn utf8_bom_is_removed_and_text_recovered() {
    let mut bytes = vec![0xEF, 0xBB, 0xBF];
    bytes.extend_from_slice("héllo".as_bytes());
    assert_eq!(decode_ntr_bytes(&bytes), Ok("héllo".to_string()));
}

#[test]
fn bom_alone_is_empty_text() {
    assert_eq!(decode_ntr_bytes(&[0xEF, 0xBB, 0xBF]), Ok(String::new()));
    assert_eq!(decode_ntr_bytes(&[0xFF, 0xFE]), Ok(String::new()));
}

#[test]
fn valid_utf8_without_bom_is_returned_as_it_is() {
    let text = "héllo wörld ✓ 𝄞";
    assert_eq!(decode_ntr_bytes(text.as_bytes()), Ok(text.to_string()));
    assert_eq!(decode_ntr_bytes(b"plain ascii"), Ok("plain ascii".to_string()));
}

#[test]
fn invalid_utf8_falls_back_to_windows_1252() {
    assert_eq!(decode_ntr_bytes(&[0x68, 0xE9, 0x6C, 0x6C, 0x6F]), Ok("héllo".to_string()));
    assert_eq!(decode_ntr_bytes(&[0x80]), Ok("€".to_string()));
    assert_eq!(decode_ntr_bytes(&[0x41, 0xFF]), Ok("Aÿ".to_string()));
}

#[test]
fn legacy_tier_accepts_every_byte() {
    for b in 0x80u8..=0xFF {
        let bytes = [b'a', b];
        let text = decode_ntr_bytes(&bytes).expect("the legacy tier is total");
        assert_eq!(text.chars().count(), 2);
    }
    assert_eq!(decode_ntr_bytes(&[0x81]), Ok("\u{81}".to_string()));
}

#[test]
fn legacy_tier_follows_the_windows_1252_table() {
    let specials = [
        '\u{20AC}', '\u{0081}', '\u{201A}', '\u{0192}', '\u{201E}', '\u{2026}', '\u{2020}',
        '\u{2021}', '\u{02C6}', '\u{2030}', '\u{0160}', '\u{2039}', '\u{0152}', '\u{008D}',
        '\u{017D}', '\u{008F}', '\u{0090}', '\u{2018}', '\u{2019}', '\u{201C}', '\u{201D}',
        '\u{2022}', '\u{2013}', '\u{2014}', '\u{02DC}', '\u{2122}', '\u{0161}', '\u{203A}',
        '\u{0153}', '\u{009D}', '\u{017E}', '\u{0178}',
    ];
    for b in 0x80u8..=0xFF {
        let expected = if b < 0xA0 { specials[(b - 0x80) as usize] } else { char::from(b) };
        let text = decode_ntr_bytes(&[b'x', b]).expect("the legacy tier is total");
        assert_eq!(text, format!("x{expected}"));
    }
}

#[test]
fn second_mark_is_decoded_as_the_first_declares() {
    let other = [0xEF, 0xBB, 0xBF, 0xFF, 0xFE, 0x41, 0x00];
    assert_eq!(
        decode_ntr_bytes(&other),
        Err(TrackError::UnsupportedEncoding { declared: Some(TextEncoding::Utf8) })
    );
    let same = [0xEF, 0xBB, 0xBF, 0xEF, 0xBB, 0xBF, 0x41];
    assert_eq!(decode_ntr_bytes(&same), Ok("\u{FEFF}A".to_string()));
    let wide = [0xFF, 0xFE, 0xFF, 0xFE, 0x41, 0x00];
    assert_eq!(decode_ntr_bytes(&wide), Ok("\u{FEFF}A".to_string()));
}

#[test]
fn utf16_little_endian_bom_is_honoured() {
    assert_eq!(decode_ntr_bytes(&[0xFF, 0xFE, 0x68, 0x00, 0xE9, 0x00]), Ok("hé".to_string()));
}

#[test]
fn utf16_big_endian_bom_is_honoured() {
    assert_eq!(decode_ntr_bytes(&[0xFE, 0xFF, 0x00, 0x68, 0x00, 0xE9]), Ok("hé".to_string()));
}

#[test]
fn broken_utf16_after_bom_fails_without_fallback() {
    let truncated = [0xFF, 0xFE, 0x41];
    assert_eq!(
        decode_ntr_bytes(&truncated),
        Err(TrackError::UnsupportedEncoding { declared: Some(TextEncoding::Utf16Le) })
    );
    let lone_surrogate = [0xFE, 0xFF, 0xD8, 0x00];
    assert_eq!(
        decode_ntr_bytes(&lone_surrogate),
        Err(TrackError::UnsupportedEncoding { declared: Some(TextEncoding::Utf16Be) })
    );
}

#[test]
fn broken_utf8_after_bom_fails_without_fallback() {
    let bytes = [0xEF, 0xBB, 0xBF, 0x68, 0xE9];
    assert_eq!(
        decode_ntr_bytes(&bytes),
        Err(TrackError::UnsupportedEncoding { declared: Some(TextEncoding::Utf8) })
    );
}

#[test]
fn bom_detection() {
    assert_eq!(detect_bom(&[]), None);
    assert_eq!(detect_bom(&[0xEF, 0xBB]), None);
    assert_eq!(detect_bom(&[0xEF, 0xBB, 0xBF]), Some((TextEncoding::Utf8, 3)));
    assert_eq!(detect_bom(&[0xFF, 0xFE, 0x00]), Some((TextEncoding::Utf16Le, 2)));
    assert_eq!(detect_bom(&[0xFE, 0xFF]), Some((TextEncoding::Utf16Be, 2)));
    assert_eq!(detect_bom(b"abc"), None);
}

#[test]
fn settle_refuses_text_with_errors() {
    assert_eq!(settle(None, "x".to_string(), false), Ok("x".to_string()));
    assert_eq!(
        settle(Some(TextEncoding::Utf16Le), "x\u{FFFD}".to_string(), true),
        Err(TrackError::UnsupportedEncoding { declared: Some(TextEncoding::Utf16Le) })
    );
    assert_eq!(
        settle(None, "x".to_string(), true),
        Err(TrackError::UnsupportedEncoding { declared: None })
    );
}

#[test]
fn encoding_names() {
    assert_eq!(TextEncoding::Utf8.name(), "UTF-8");
    assert_eq!(TextEncoding::Utf16Le.name(), "UTF-16LE");
    assert_eq!(TextEncoding::Utf16Be.name(), "UTF-16BE");
    assert_eq!(TextEncoding::Windows1252.name(), "windows-1252");
}
