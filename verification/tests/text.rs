use fuyao_core::text::{
    find_char, first_line, head, is_blank, is_white_space, quote_list, second, split_once,
    starts_with, take_chars, to_lower_name, trim, write_decimal,
};

#[test]
fn white_space_is_unicode_white_space() {
    for n in 0..=0x3100u32 {
        if let Some(c) = char::from_u32(n) {
            assert_eq!(is_white_space(c), c.is_whitespace(), "U+{n:04X}");
        }
    }
    assert!(!is_white_space('\u{feff}'));
}

#[test]
fn trimming_agrees_with_std() {
    for s in ["", " ", "a", " a ", "\t中 文\u{3000}", "\u{a0}x\u{2028}", "\n\r\n"] {
        assert_eq!(trim(s), s.trim());
        assert_eq!(is_blank(s), s.trim().is_empty());
    }
}

#[test]
fn first_lines_agree_with_std() {
    for s in ["", "a", "a\nb", "a\r\nb", "\nb", "\r\nb", "a\rb", "a\r", "a\n", "中\n文"] {
        assert_eq!(first_line(s), s.lines().next().unwrap_or(""), "{s:?}");
    }
}

#[test]
fn splitting_agrees_with_std() {
    for s in ["", "/", "a", "a/b", "a/b/c", "/b", "a/", "中/文"] {
        assert_eq!(split_once(s, '/'), s.split_once('/'));
        assert_eq!(second(s, '/'), s.split('/').nth(1));
        assert_eq!(head(s, '/'), s.split('/').next().unwrap());
        assert_eq!(find_char(s, '/'), s.chars().position(|c| c == '/').unwrap_or(s.chars().count()));
    }
}

#[test]
fn starts_and_prefixes() {
    assert!(starts_with("alpha/m", "alpha/"));
    assert!(!starts_with("alph", "alpha/"));
    assert!(starts_with("x", ""));
    assert_eq!(take_chars("中文字", 2), "中文");
    assert_eq!(take_chars("中", 2), "中");
}

#[test]
fn decimals_agree_with_std() {
    for n in [0u64, 7, 10, 99, 100, 12345, u64::MAX] {
        assert_eq!(write_decimal(n), n.to_string());
    }
}

#[test]
fn quoted_lists_agree_with_std() {
    for list in [vec![], vec!["a".to_string()], vec!["a\"b".to_string(), "中\n".to_string()]] {
        assert_eq!(quote_list(&list), format!("{list:?}"));
    }
}

#[test]
fn names_are_lowered_part_by_part() {
    assert_eq!(to_lower_name("OpenAI"), "openai");
    assert_eq!(to_lower_name("OpenAI/GPT-4/Turbo"), "openai/gpt-4/turbo");
    for name in ["", "/", "A//B/", "ΑΣ/ΣΑ/ΟΔΟΣ", "İ/ß/ẞ", "供应商/模型A"] {
        assert_eq!(to_lower_name(name), name.to_lowercase());
    }
}
