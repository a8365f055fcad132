use ice::decimal::{decimal_string, parse_unsigned};
use ice::error::Error;
use ice::words::{char_is_whitespace, ends_with, text_eq, to_chars, word_bounds, word_is};

fn words_of(text: &str) -> Vec<String> {
    let chars = to_chars(text);
    word_bounds(&chars)
        .into_iter()
        .map(|(start, end)| chars[start..end].iter().collect())
        .collect()
}

fn read_number(text: &str, max: u64) -> Result<u64, Error> {
    let chars = to_chars(text);
    parse_unsigned(&chars, 0, chars.len(), max)
}

#[test]
fn test_decimal_string_values() {
    assert_eq!(decimal_string(0), "0");
    assert_eq!(decimal_string(7), "7");
    assert_eq!(decimal_string(10), "10");
    assert_eq!(decimal_string(256), "256");
    assert_eq!(decimal_string(65535), "65535");
    assert_eq!(decimal_string(4294967295), "4294967295");
    assert_eq!(decimal_string(u64::MAX), "18446744073709551615");
}

#[test]
fn test_decimal_string_agrees_with_display() {
    let mut n: u64 = 1;
    for _ in 0..64 {
        for m in [n - 1, n, n + 1] {
            assert_eq!(decimal_string(m), format!("{}", m));
        }
        n = n.wrapping_mul(2).max(1);
    }
}

#[test]
fn test_parse_unsigned_accepts_numbers() {
    assert_eq!(read_number("0", 65535), Ok(0));
    assert_eq!(read_number("1", 65535), Ok(1));
    assert_eq!(read_number("65535", 65535), Ok(65535));
    assert_eq!(read_number("0065535", 65535), Ok(65535));
    assert_eq!(read_number("+5", 65535), Ok(5));
    assert_eq!(read_number("4294967295", 4294967295), Ok(4294967295));
}

#[test]
fn test_parse_unsigned_out_of_range() {
    assert_eq!(read_number("65536", 65535), Err(Error::UnmarshalOutOfRange));
    assert_eq!(read_number("99999999", 65535), Err(Error::UnmarshalOutOfRange));
    assert_eq!(read_number("4294967296", 4294967295), Err(Error::UnmarshalOutOfRange));
    assert_eq!(read_number("99999999999", 4294967295), Err(Error::UnmarshalOutOfRange));
    assert_eq!(
        read_number("99999999999999999999999999999999999999999999", 4294967295),
        Err(Error::UnmarshalOutOfRange)
    );
    assert_eq!(read_number("+65536", 65535), Err(Error::UnmarshalOutOfRange));
}

#[test]
fn test_parse_unsigned_malformed() {
    for text in ["", "+", "-1", "INVALID", "12a", "a12", "1 2", "++1", "1+", "0x10", "１２", "1_000"] {
        assert_eq!(read_number(text, 65535), Err(Error::UnmarshalMalformed), "text {:?}", text);
    }
    // A letter behind too many digits is malformed, not out of range.
    assert_eq!(read_number("99999999999x", 65535), Err(Error::UnmarshalMalformed));
}

#[test]
fn test_parse_unsigned_agrees_with_std() {
    let samples = [
        "0", "00", "1", "+1", "+", "", "65535", "65536", "4294967295", "4294967296", "-0", "12 ",
        " 12", "1e3", "٣", "99999999999999999999",
    ];
    for text in samples {
        let ours = read_number(text, 65535).ok();
        let theirs = text.parse::<u16>().ok().map(u64::from);
        assert_eq!(ours, theirs, "text {:?} as 16 bits", text);
        let ours = read_number(text, 4294967295).ok();
        let theirs = text.parse::<u32>().ok().map(u64::from);
        assert_eq!(ours, theirs, "text {:?} as 32 bits", text);
    }
}

#[test]
fn test_parse_unsigned_inside_text() {
    let chars = to_chars("ab 123 cd");
    assert_eq!(parse_unsigned(&chars, 3, 6, 65535), Ok(123));
    assert_eq!(parse_unsigned(&chars, 3, 5, 65535), Ok(12));
    assert_eq!(parse_unsigned(&chars, 2, 6, 65535), Err(Error::UnmarshalMalformed));
    assert_eq!(parse_unsigned(&chars, 4, 4, 65535), Err(Error::UnmarshalMalformed));
}

#[test]
fn test_whitespace_agrees_with_std() {
    for code in 0..=0x10FFFFu32 {
        if let Some(c) = char::from_u32(code) {
            assert_eq!(char_is_whitespace(c), c.is_whitespace(), "U+{:04X}", code);
        }
    }
}

#[test]
fn test_to_chars() {
    assert_eq!(to_chars(""), Vec::<char>::new());
    assert_eq!(to_chars("aé漢🦀"), vec!['a', 'é', '漢', '🦀']);
}

#[test]
fn test_words_of_texts() {
    assert_eq!(words_of(""), Vec::<String>::new());
    assert_eq!(words_of("   \t\n"), Vec::<String>::new());
    assert_eq!(words_of("a"), vec!["a"]);
    assert_eq!(words_of("a b"), vec!["a", "b"]);
    assert_eq!(words_of("  a   bc  def "), vec!["a", "bc", "def"]);
    assert_eq!(words_of("x\u{3000}y\u{2003}z\u{85}w"), vec!["x", "y", "z", "w"]);
    assert_eq!(words_of("a\u{200B}b"), vec!["a\u{200B}b"]);
}

#[test]
fn test_words_agree_with_std() {
    let samples = [
        "",
        " ",
        "750 1 udp 500 fcd9:e3b8:12ce:9fc5:74a5:c6bb:d8b:e08a 53987 typ host",
        "\tleading and trailing\r\n",
        "two  blanks\u{A0}and\u{1680}more\u{2028}kinds\u{2029}of\u{202F}white\u{205F}space",
        "ünïcödé wörds 漢字 🦀🦀 end",
    ];
    for text in samples {
        let theirs: Vec<String> = text.split_whitespace().map(str::to_owned).collect();
        assert_eq!(words_of(text), theirs, "text {:?}", text);
    }
}

#[test]
fn test_word_bounds_positions() {
    let chars = to_chars(" ab  c");
    assert_eq!(word_bounds(&chars), vec![(1, 3), (5, 6)]);
    let chars = to_chars("é 漢");
    assert_eq!(word_bounds(&chars), vec![(0, 1), (2, 3)]);
}

#[test]
fn test_word_is() {
    let chars = to_chars("typ host");
    assert!(word_is(&chars, 0, 3, "typ"));
    assert!(word_is(&chars, 4, 8, "host"));
    assert!(!word_is(&chars, 0, 3, "typo"));
    assert!(!word_is(&chars, 0, 4, "typ"));
    assert!(!word_is(&chars, 4, 8, "hosT"));
    assert!(word_is(&chars, 2, 2, ""));
}

#[test]
fn test_text_eq_and_ends_with() {
    assert!(text_eq("", ""));
    assert!(text_eq("active", "active"));
    assert!(!text_eq("active", "Active"));
    assert!(!text_eq("active", "activ"));
    assert!(ends_with("name.local", ".local"));
    assert!(ends_with(".local", ".local"));
    assert!(!ends_with("local", ".local"));
    assert!(!ends_with("name.local.", ".local"));
    assert!(!ends_with("name.LOCAL", ".local"));
    assert!(ends_with("anything", ""));
    assert!(ends_with("é.local", ".local"));
}
