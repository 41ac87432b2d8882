use logi_led::text::{
    digit, first_index, is_whitespace, is_word, lookup, lower, lower_char, parse_unsigned,
    same_text, strip_leading, to_chars, tokens, trim, trim_bounds,
};

fn chars(text: &str) -> Vec<char> {
    text.chars().collect()
}

fn text(chars: &[char]) -> String {
    chars.iter().collect()
}

#[test]
fn characters_of_a_text() {
    assert_eq!(to_chars(""), Vec::<char>::new());
    assert_eq!(to_chars("a\u{e9}\u{20ac}z"), vec!['a', '\u{e9}', '\u{20ac}', 'z']);
}

#[test]
fn lower_case() {
    assert_eq!(lower_char('A'), 'a');
    assert_eq!(lower_char('Z'), 'z');
    assert_eq!(lower_char('a'), 'a');
    assert_eq!(lower_char('@'), '@');
    assert_eq!(lower_char('['), '[');
    assert_eq!(lower_char('\u{c9}'), '\u{c9}');
    assert_eq!(text(&lower(&chars("Hello, WORLD 1\u{c9}"))), "hello, world 1\u{c9}");
    for code in 0..0x3000u32 {
        if let Some(c) = char::from_u32(code) {
            assert_eq!(lower_char(c), c.to_ascii_lowercase());
        }
    }
}

#[test]
fn same_texts_and_words() {
    assert!(same_text(&chars("abc"), &chars("abc")));
    assert!(!same_text(&chars("abc"), &chars("abd")));
    assert!(!same_text(&chars("abc"), &chars("ab")));
    assert!(same_text(&[], &[]));
    assert!(is_word(&chars("fx"), "fx"));
    assert!(!is_word(&chars("fx"), "f"));
    assert!(!is_word(&chars("fx"), "Fx"));
}

#[test]
fn white_space_is_what_unicode_says() {
    for code in 0..0x11000u32 {
        if let Some(c) = char::from_u32(code) {
            assert_eq!(is_whitespace(c), c.is_whitespace(), "{code:#x}");
        }
    }
}

#[test]
fn trimming() {
    for sample in ["", " ", "a", " a", "a ", "  a b  ", "\t\r\na\u{a0}", "\u{3000} x y\u{2003}"] {
        let all = chars(sample);
        assert_eq!(text(trim(&all)), sample.trim(), "{sample:?}");
        let (start, end) = trim_bounds(&all);
        assert_eq!(text(&all[start..end]), sample.trim());
    }
    assert_eq!(text(strip_leading(&chars("##a#"), '#')), "a#");
    assert_eq!(text(strip_leading(&chars("a#"), '#')), "a#");
    assert_eq!(text(strip_leading(&chars("###"), '#')), "");
}

#[test]
fn digits_and_numbers() {
    assert_eq!(digit('0', 10), Some(0));
    assert_eq!(digit('9', 10), Some(9));
    assert_eq!(digit('a', 10), None);
    assert_eq!(digit('a', 16), Some(10));
    assert_eq!(digit('F', 16), Some(15));
    assert_eq!(digit('g', 16), None);
    assert_eq!(digit('z', 36), Some(35));
    assert_eq!(digit('7', 2), None);
    assert_eq!(digit('+', 16), None);
    for sample in ["", "+", "0", "+0", "255", "256", "0255", "12a", "-1", "+-1", "ff", "FF", " 1"] {
        let expected10 = u8::from_str_radix(sample, 10).ok().map(u64::from);
        let expected16 = u8::from_str_radix(sample, 16).ok().map(u64::from);
        assert_eq!(parse_unsigned(&chars(sample), 10, 255), expected10, "{sample:?}");
        assert_eq!(parse_unsigned(&chars(sample), 16, 255), expected16, "{sample:?}");
    }
    for sample in ["18446744073709551615", "18446744073709551616", "99999999999999999999999"] {
        assert_eq!(
            parse_unsigned(&chars(sample), 10, u64::MAX),
            sample.parse::<u64>().ok(),
            "{sample:?}"
        );
    }
    assert_eq!(parse_unsigned(&chars("zz"), 36, 2000), Some(35 * 36 + 35));
    assert_eq!(parse_unsigned(&chars("101"), 2, 5), Some(5));
    assert_eq!(parse_unsigned(&chars("110"), 2, 5), None);
}

#[test]
fn words_of_a_line() {
    for sample in ["", "   ", "a", " a  bc\td\n", "fx color keys ff0000", "\u{a0}x\u{2003}y z "] {
        let words: Vec<String> = tokens(&chars(sample)).iter().map(|word| text(word)).collect();
        let expected: Vec<String> = sample.split_whitespace().map(|w| w.to_string()).collect();
        assert_eq!(words, expected, "{sample:?}");
    }
}

#[test]
fn first_index_of_a_character() {
    assert_eq!(first_index(&chars("k a red # note"), '#'), 8);
    assert_eq!(first_index(&chars("#"), '#'), 0);
    assert_eq!(first_index(&chars("none"), '#'), 4);
    assert_eq!(first_index(&chars(""), '#'), 0);
}

#[test]
fn first_line_of_a_table_wins() {
    let table = [("a", 1), ("b", 2), ("a", 3)];
    assert_eq!(lookup(&table, &chars("a")), Some(1));
    assert_eq!(lookup(&table, &chars("b")), Some(2));
    assert_eq!(lookup(&table, &chars("c")), None);
    assert_eq!(lookup(&table, &chars("A")), None);
    let empty: [(&str, u8); 0] = [];
    assert_eq!(lookup(&empty, &chars("a")), None);
}
