use codex_core::path::FilePath;
use codex_core::text::join_with_commas;
use codex_core::text::signed_text;
use codex_core::text::unsigned_text;

#[test]
fn numbers_are_written_in_decimal() {
    for n in [0, 9, 10, 42, 1000, 1_234_567_890, u64::MAX] {
        assert_eq!(unsigned_text(n), n.to_string());
    }
    for n in [i64::MIN, -10, -1, 0, 7, i64::MAX] {
        assert_eq!(signed_text(n), n.to_string());
        assert_eq!(signed_text(n).parse::<i64>(), Ok(n));
    }
}

#[test]
fn lists_are_joined_with_commas() {
    let items = |texts: &[&str]| texts.iter().map(|text| text.to_string()).collect::<Vec<String>>();
    assert_eq!(join_with_commas(&items(&[])), "");
    assert_eq!(join_with_commas(&items(&["a"])), "a");
    assert_eq!(join_with_commas(&items(&["a", "", "c"])), "a, , c");
}

#[test]
fn paths_show_as_the_text_they_were_made_of() {
    for text in ["", "models", "/tmp/b\u{e4}r/\u{1F600}"] {
        let path = FilePath::from_text(text);
        assert_eq!(path, FilePath::Bytes(text.as_bytes().to_vec()));
        assert_eq!(path.to_text(), text);
        assert_eq!(path.clone(), path);
    }
    let broken = FilePath::Bytes(vec![b'a', 0xc3]);
    assert_eq!(broken.to_text(), "a\u{FFFD}");
}

#[test]
fn wide_paths_show_as_utf16() {
    let shown = |units: &[u16]| FilePath::Wide(units.to_vec()).to_text();
    assert_eq!(shown(&[]), "");
    assert_eq!(shown(&[0x43, 0x3a, 0x5c, 0xe4]), "C:\\\u{e4}");
    assert_eq!(shown(&[0xd83d, 0xde00]), "\u{1F600}");
    assert_eq!(shown(&[0xd83d]), "\u{FFFD}");
    assert_eq!(shown(&[0xde00, 0xd83d]), "\u{FFFD}\u{FFFD}");
    assert_eq!(shown(&[0xd83d, 0xd83d, 0xde00, 0x61]), "\u{FFFD}\u{1F600}a");
    assert_eq!(shown(&[0xd800, 0x61]), "\u{FFFD}a");
    for text in ["", "C:\\models", "b\u{e4}r\u{1F600}"] {
        let path = FilePath::Wide(text.encode_utf16().collect());
        assert_eq!(path.to_text(), text);
        assert_eq!(path.clone(), path);
    }
}
