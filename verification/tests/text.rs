use foruster::text::{
    append_str, contains, ends_with, extension_of_name, owned, parse_u32, path_extension_of, starts_with, to_ascii_lowercase,
    trim, u64_to_string,
};
use foruster::tokens::{parse_u64, parse_usize, split_lines, split_on_char, split_whitespace};

#[test]
fn lines_as_str_lines_gives_them() {
    assert_eq!(split_lines("a\r\nb\n\nc"), vec!["a", "b", "", "c"]);
    assert_eq!(split_lines("a\n"), vec!["a"]);
    assert_eq!(split_lines(""), Vec::<String>::new());
    let text = "one\ntwo\r\n\nthree\r";
    let expected: Vec<String> = text.lines().map(|l| l.to_string()).collect();
    assert_eq!(split_lines(text), expected);
}

#[test]
fn fields_as_split_whitespace_gives_them() {
    assert_eq!(split_whitespace("  a b\t\tc \n"), vec!["a", "b", "c"]);
    assert!(split_whitespace(" \t ").is_empty());
    let text = "\u{3000}x\u{00a0}y  z";
    let expected: Vec<String> = text.split_whitespace().map(|l| l.to_string()).collect();
    assert_eq!(split_whitespace(text), expected);
}

#[test]
fn pieces_as_split_gives_them() {
    assert_eq!(split_on_char("a.b..c", '.'), vec!["a", "b", "", "c"]);
    assert_eq!(split_on_char("", '.'), vec![""]);
    assert_eq!(split_on_char(".x.", '.'), vec!["", "x", ""]);
}

#[test]
fn numbers_parse_like_std() {
    for s in ["0", "42", "+7", "", "+", "-1", "12a", "18446744073709551615", "18446744073709551616", "007"] {
        assert_eq!(parse_u64(s), s.parse::<u64>().ok(), "u64 {}", s);
        assert_eq!(parse_usize(s), s.parse::<usize>().ok(), "usize {}", s);
        assert_eq!(parse_u32(s), s.parse::<u32>().ok(), "u32 {}", s);
    }
    assert_eq!(u64_to_string(1234567890), "1234567890");
    assert_eq!(u64_to_string(0), "0");
}

#[test]
fn string_helpers() {
    assert_eq!(trim("  a b \n"), "a b");
    assert_eq!(to_ascii_lowercase("ÄBc"), "Äbc");
    assert!(starts_with("/dev/sda", "/dev/"));
    assert!(ends_with("abc", "bc"));
    assert!(contains("statfs: bavail=", "statfs:"));
    assert!(!contains("abc", "d"));
    assert_eq!(append_str(owned("ab"), "cd"), "abcd");
    assert_eq!(extension_of_name(".bashrc"), None);
    assert_eq!(extension_of_name("a.tar.gz"), Some("gz".to_string()));
    assert_eq!(path_extension_of("/x/y.d/z"), None);
}
