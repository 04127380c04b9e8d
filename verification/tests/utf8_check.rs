use minix86::utf8::check_utf8;

fn ok(bytes: &[u8]) -> bool {
    check_utf8(&bytes.to_vec(), 0, bytes.len())
}

#[test]
fn ascii_is_valid() {
    assert!(ok(b"Hello, world"));
    assert!(ok(b""));
}

#[test]
fn multibyte_sequences_are_valid() {
    assert!(ok("é".as_bytes()));
    assert!(ok("逆".as_bytes()));
    assert!(ok("🙂".as_bytes()));
    assert!(ok("mixé逆🙂d".as_bytes()));
}

#[test]
fn truncated_sequences_are_invalid() {
    assert!(!ok(&[0xc3]));
    assert!(!ok(&[0xe9, 0x80]));
    assert!(!ok(&[0xf0, 0x9f, 0x99]));
}

#[test]
fn stray_continuation_is_invalid() {
    assert!(!ok(&[0x80]));
    assert!(!ok(&[0x41, 0xbf, 0x41]));
}

#[test]
fn overlong_and_out_of_range_are_invalid() {
    assert!(!ok(&[0xc0, 0xaf])); // overlong '/'
    assert!(!ok(&[0xe0, 0x80, 0x80])); // overlong NUL
    assert!(!ok(&[0xed, 0xa0, 0x80])); // surrogate
    assert!(!ok(&[0xf4, 0x90, 0x80, 0x80])); // beyond U+10FFFF
    assert!(!ok(&[0xff]));
}

#[test]
fn agrees_with_the_standard_library() {
    let samples: [&[u8]; 8] = [
        b"plain",
        &[0xc2, 0xa9],
        &[0xe2, 0x82, 0xac],
        &[0xf0, 0x90, 0x8d, 0x88],
        &[0xc2, 0x20],
        &[0xe2, 0x82],
        &[0x91, 0x92],
        &[0xf5, 0x80, 0x80, 0x80],
    ];
    for s in samples {
        assert_eq!(ok(s), std::str::from_utf8(s).is_ok(), "disagreement on {:?}", s);
    }
}

#[test]
fn checks_only_the_given_range() {
    let bytes = vec![0xff, b'o', b'k', 0xff];
    assert!(check_utf8(&bytes, 1, 3));
    assert!(!check_utf8(&bytes, 0, 4));
}
