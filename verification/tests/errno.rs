use pls::errno::{description_from, from_utf16_lossy, Errno};

fn utf16(s: &str) -> Vec<u16> {
    s.encode_utf16().collect()
}

#[test]
fn decodes_plain_and_paired_text() {
    assert_eq!(from_utf16_lossy(&utf16("hello"), 100), "hello");
    assert_eq!(from_utf16_lossy(&utf16("größe 𝄞!"), 100), "größe 𝄞!");
    assert_eq!(from_utf16_lossy(&[], 10), "");
}

#[test]
fn stops_at_zero_unit() {
    let mut v = utf16("ab");
    v.push(0);
    v.extend(utf16("cd"));
    assert_eq!(from_utf16_lossy(&v, 100), "ab");
}

#[test]
fn replaces_unpaired_surrogates() {
    assert_eq!(from_utf16_lossy(&[0x61, 0xD800, 0x62], 100), "a\u{FFFD}b");
    assert_eq!(from_utf16_lossy(&[0xDC00, 0x63], 100), "\u{FFFD}c");
    assert_eq!(from_utf16_lossy(&[0xD83D], 100), "\u{FFFD}");
    assert_eq!(from_utf16_lossy(&[0xD83D, 0xDE00], 100), "\u{1F600}");
}

#[test]
fn stops_at_first_character_that_does_not_fit() {
    assert_eq!(from_utf16_lossy(&utf16("abc"), 2), "ab");
    assert_eq!(from_utf16_lossy(&utf16("aéb"), 2), "a");
    assert_eq!(from_utf16_lossy(&utf16("€"), 2), "");
    assert_eq!(from_utf16_lossy(&utf16("ab"), 0), "");
}

#[test]
fn descriptions_of_messages() {
    let mut buf = utf16("Access is denied.\r\n");
    let n = buf.len() as u32;
    buf.resize(2048, 0);
    assert_eq!(description_from(&buf, n, 0).unwrap(), "Access is denied.");
    assert_eq!(description_from(&buf, 6, 0).unwrap(), "Access");
    assert_eq!(description_from(&buf, 0, 317), Err(Errno(317)));
}
