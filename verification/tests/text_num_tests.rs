use win_debloat::num::{parse_u32_exec, to_decimal};
use win_debloat::text::{
    chars_of, join_path_exec, replace_all_exec, split_on_exec, trim_char_exec,
    trim_end_seq_exec, trim_white_exec,
};

fn cs(s: &str) -> Vec<char> {
    s.chars().collect()
}

fn st(v: &[char]) -> String {
    v.iter().collect()
}

#[test]
fn join_adds_one_separator() {
    assert_eq!(join_path_exec("/mnt", "Windows/SystemApps"), "/mnt/Windows/SystemApps");
    assert_eq!(join_path_exec("/mnt/", "Windows"), "/mnt/Windows");
    assert_eq!(join_path_exec("", "Windows"), "Windows");
}

#[test]
fn join_absolute_replaces_and_empty_adds_separator() {
    assert_eq!(join_path_exec("/mnt", "/etc"), "/etc");
    assert_eq!(join_path_exec("a", ""), "a/");
}

#[test]
fn join_matches_std_path_join() {
    for (b, r) in [("/mnt", "x/y"), ("rel", "z"), ("/a/", "b"), ("", "c"), ("d", "/e"), ("f", "")] {
        let expected = std::path::Path::new(b).join(r).to_string_lossy().into_owned();
        assert_eq!(join_path_exec(b, r), expected);
    }
}

#[test]
fn chars_and_trim() {
    assert_eq!(chars_of("héllo"), cs("héllo"));
    assert_eq!(st(&trim_char_exec(&cs("**ab*c**"), '*')), "ab*c");
    assert_eq!(st(&trim_char_exec(&cs("***"), '*')), "");
    assert_eq!(st(&trim_white_exec(&cs(" \t x y \r\n\u{3000}"))), "x y");
    assert_eq!(st(&trim_white_exec(&cs("   "))), "");
}

#[test]
fn trim_white_matches_std_trim() {
    for s in ["  a b  ", "\u{85}x\u{a0}", "\u{2028}y\u{200b}", "", "z", "\u{1680}\u{205f}w\u{202f}"] {
        assert_eq!(st(&trim_white_exec(&cs(s))), s.trim());
    }
}

#[test]
fn split_keeps_empty_pieces() {
    let parts = split_on_exec(&cs("a\\\\b\\"), '\\');
    let got: Vec<String> = parts.iter().map(|p| st(p)).collect();
    assert_eq!(got, vec!["a", "", "b", ""]);
    assert_eq!(split_on_exec(&cs(""), ',').len(), 1);
}

#[test]
fn replace_all_is_str_replace() {
    let r = replace_all_exec(&cs("x-LANG-LANGLANG"), &cs("LANG"), &cs("en-US"));
    assert_eq!(st(&r), "x-LANG-LANGLANG".replace("LANG", "en-US"));
    let r = replace_all_exec(&cs("aaa"), &cs("aa"), &cs("b"));
    assert_eq!(st(&r), "ba");
}

#[test]
fn trim_end_seq_strips_repeats() {
    assert_eq!(st(&trim_end_seq_exec(&cs("pkg.mum.mum"), &cs(".mum"))), "pkg");
    assert_eq!(st(&trim_end_seq_exec(&cs("pkg.cat"), &cs(".mum"))), "pkg.cat");
}

#[test]
fn decimal_text() {
    assert_eq!(to_decimal(0), "0");
    assert_eq!(to_decimal(7), "7");
    assert_eq!(to_decimal(1234567890123), "1234567890123");
    assert_eq!(to_decimal(u64::MAX), u64::MAX.to_string());
}

#[test]
fn parse_u32_like_std() {
    for s in ["42", "+7", "", "+", "-1", "0", "007", "4294967295", "4294967296", " 1", "1 ", "12a", "99999999999999999999"] {
        assert_eq!(parse_u32_exec(&cs(s)), s.parse::<u32>().ok(), "input {:?}", s);
    }
}

#[test]
fn decimal_parses_back() {
    for n in [0u32, 1, 9, 10, 65535, 4294967295] {
        assert_eq!(parse_u32_exec(&cs(&to_decimal(n as u64))), Some(n));
    }
}
