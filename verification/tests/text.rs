use vcontrold_mqttd::text::{
    char_is_control, char_is_whitespace, find_in, first_token_str, has_prefix, i64_to_decimal,
    split_list, to_chars, trim_bounds, trim_str, u64_to_decimal,
};

fn chars(s: &str) -> Vec<char> {
    s.chars().collect()
}

#[test]
fn white_space_and_control_agree_with_the_platform() {
    for u in 0..=0x11_0000u32 {
        if let Some(c) = char::from_u32(u) {
            assert_eq!(char_is_whitespace(c), c.is_whitespace(), "white space {:x}", u);
            assert_eq!(char_is_control(c), c.is_control(), "control {:x}", u);
        }
    }
}

#[test]
fn to_chars_keeps_every_character() {
    for s in ["", "a", "vctrld>", "21 \u{b0}C", "\u{1f600}x\u{0}"] {
        assert_eq!(to_chars(s), chars(s));
    }
}

#[test]
fn trim_agrees_with_the_platform() {
    let samples = [
        "", " ", "a", " a", "a ", "  a b  ", "\t\r\n x \u{a0}\u{2003}", "\u{85}x\u{3000}",
        "\u{200b}x", "x\u{feff}", "   ",
    ];
    for s in samples {
        assert_eq!(trim_str(s), s.trim());
        let v = chars(s);
        let (a, b) = trim_bounds(&v);
        assert_eq!(v[a..b].iter().collect::<String>(), s.trim());
    }
}

#[test]
fn find_agrees_with_the_platform() {
    let hays = ["", "a", "vctrld>", "xvctrld>vctrld>", "vctrl", "aaab", "abcabcabd", "\u{b0}C\u{b0}"];
    let needles = ["", "a", "vctrld>", "ab", "abd", "b", "\u{b0}", "aab", "abcabcabdx"];
    for hay in hays {
        for needle in needles {
            let found = find_in(&chars(hay), &chars(needle));
            let expected = hay.find(needle).map(|byte| hay[..byte].chars().count());
            assert_eq!(found, expected, "{:?} in {:?}", needle, hay);
            assert_eq!(has_prefix(&chars(hay), &chars(needle)), hay.starts_with(needle));
        }
    }
}

#[test]
fn first_token_agrees_with_the_platform() {
    for s in ["", "  ", "a", " a b", "48.1 Grad", "\t7\n8", "x\u{a0}y", "\u{2003}z"] {
        assert_eq!(first_token_str(s), s.split_whitespace().next().unwrap_or(""));
    }
}

#[test]
fn split_list_agrees_with_the_platform() {
    for s in ["", ",", "a", "a,b", " a , b ,, c ", ",a,", "a b,c", "\u{e4},\u{f6}", ", ,"] {
        let expected: Vec<String> = s
            .split(',')
            .map(|p| p.trim().to_string())
            .filter(|p| !p.is_empty())
            .collect();
        assert_eq!(split_list(s), expected);
    }
}

#[test]
fn decimal_notation() {
    for n in [0u64, 1, 9, 10, 11, 99, 100, 12345, 1883, 3002, u32::MAX as u64, u64::MAX] {
        assert_eq!(u64_to_decimal(n), n.to_string());
    }
    for n in [0i64, 1, -1, 42, -10, 1000, -1000, i64::MAX, i64::MIN, i64::MIN + 1] {
        assert_eq!(i64_to_decimal(n), n.to_string());
    }
}
