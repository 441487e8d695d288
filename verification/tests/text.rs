use pk::text::{chars_of, ends_with, last_segment, parse_u16, same_text, starts_with, trim, white_space};

const SAMPLES: [&str; 14] = [
    "",
    " ",
    "5566",
    "0.0.0.0:5566",
    "[::]:80",
    ":",
    "a:",
    ":b",
    " \u{a0}x y\u{2003}\t",
    "+7",
    "00065535",
    "65536",
    "1é",
    "－1",
];

#[test]
fn white_space_is_as_std_has_it() {
    for n in 0u32..0x110000 {
        if let Some(c) = char::from_u32(n) {
            assert_eq!(white_space(c), c.is_whitespace(), "{:x}", n);
        }
    }
}

#[test]
fn trim_is_as_std_has_it() {
    for s in SAMPLES {
        assert_eq!(trim(s), s.trim());
    }
}

#[test]
fn last_segment_is_as_std_splits() {
    for s in SAMPLES {
        assert_eq!(last_segment(s), s.rsplit(':').next().unwrap());
        assert_eq!(last_segment(s), s.split(':').next_back().unwrap());
    }
}

#[test]
fn parse_u16_is_as_std_has_it() {
    for s in SAMPLES {
        assert_eq!(parse_u16(s), s.parse::<u16>().ok(), "{}", s);
    }
    for s in ["+", "++1", "-1", "-0", " 1", "1 ", "99999999999999999999", "+0", "1:2", "٣"] {
        assert_eq!(parse_u16(s), s.parse::<u16>().ok(), "{}", s);
    }
    assert_eq!(parse_u16("65535"), Some(65535));
    assert_eq!(parse_u16("65536"), None);
}

#[test]
fn prefixes_and_suffixes() {
    let s = chars_of("节点/config");
    assert!(starts_with(&s, "节点"));
    assert!(starts_with(&s, ""));
    assert!(!starts_with(&s, "节点/config/"));
    assert!(ends_with(&s, "config"));
    assert!(ends_with(&s, "节点/config"));
    assert!(!ends_with(&s, "confi"));
    assert!(same_text("节点", "节点"));
    assert!(!same_text("节", "节点"));
    assert!(!same_text("a", "b"));
}
