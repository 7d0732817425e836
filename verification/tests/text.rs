use honeybee::text::{
    lines, parse_i32, parse_i64, parse_u64, replace_first_str, replace_str, split_on_char, split_whitespace, str_eq,
    trim_chars, u64_to_string, ParseIntError,
};

#[test]
fn replace_like_std() {
    for (s, n, w) in [
        ("aaa", "aa", "b"),
        ("abcabc", "bc", ""),
        ("abc", "", "-"),
        ("", "", "x"),
        ("", "a", "x"),
        ("%d and %d", "%d", "42"),
        ("xyz", "q", "r"),
    ] {
        assert_eq!(replace_str(s, n, w), s.replace(n, w), "{s} {n} {w}");
    }
}

#[test]
fn numbers_to_text() {
    assert_eq!(u64_to_string(0), "0");
    assert_eq!(u64_to_string(7), "7");
    assert_eq!(u64_to_string(1234567890), "1234567890");
    assert_eq!(u64_to_string(u64::MAX), u64::MAX.to_string());
}

#[test]
fn numbers_from_text_like_std() {
    assert_eq!(parse_u64("42"), Ok(42));
    assert_eq!(parse_u64("+42"), Ok(42));
    assert_eq!(parse_u64(""), Err(ParseIntError::Empty));
    assert_eq!(parse_u64("+"), Err(ParseIntError::InvalidDigit));
    assert_eq!(parse_u64("-1"), Err(ParseIntError::InvalidDigit));
    assert_eq!(parse_u64("18446744073709551615"), Ok(u64::MAX));
    assert_eq!(parse_u64("18446744073709551616"), Err(ParseIntError::PosOverflow));
    assert_eq!(parse_u64("1x"), Err(ParseIntError::InvalidDigit));
    assert_eq!(parse_i64("-9223372036854775808"), Ok(i64::MIN));
    assert_eq!(parse_i64("-9223372036854775809"), Err(ParseIntError::NegOverflow));
    assert_eq!(parse_i32("-17"), Ok(-17));
    assert_eq!(parse_i32("2147483648"), Err(ParseIntError::PosOverflow));
    assert_eq!(parse_i32(" 1"), Err(ParseIntError::InvalidDigit));
    assert_eq!(
        ParseIntError::PosOverflow.message(),
        "999999999999".parse::<i32>().unwrap_err().to_string()
    );
    assert_eq!(ParseIntError::Empty.message(), "".parse::<u64>().unwrap_err().to_string());
    assert_eq!(ParseIntError::InvalidDigit.message(), "a".parse::<u64>().unwrap_err().to_string());
    assert_eq!(ParseIntError::NegOverflow.message(), "-999999999999".parse::<i32>().unwrap_err().to_string());
}

fn chars(s: &str) -> Vec<char> {
    s.chars().collect()
}

#[test]
fn splitting_like_std() {
    for s in ["a=b=c", "=", "", "abc", "a==b"] {
        let expected: Vec<String> = s.split('=').map(String::from).collect();
        assert_eq!(split_on_char(&chars(s), '='), expected);
    }
    for s in ["  a  b\tc \n", "", "   ", "one"] {
        let expected: Vec<String> = s.split_whitespace().map(String::from).collect();
        assert_eq!(split_whitespace(&chars(s)), expected);
    }
    assert_eq!(trim_chars(&chars("\u{3000} x y \n")), chars("x y"));
}

#[test]
fn lines_like_a_reader() {
    assert_eq!(lines("a\nb\n"), vec!["a".to_string(), "b".to_string()]);
    assert_eq!(lines("a\nb"), vec!["a".to_string(), "b".to_string()]);
    assert_eq!(lines("a\n\nb\n"), vec!["a".to_string(), String::new(), "b".to_string()]);
    assert_eq!(lines(""), Vec::<String>::new());
    assert_eq!(lines("\n"), vec![String::new()]);
}

#[test]
fn string_equality() {
    assert!(str_eq("i3bar", "i3bar"));
    assert!(!str_eq("i3bar", "i3ba"));
    assert!(!str_eq("term", "Term"));
}

#[test]
fn replace_first_like_std() {
    for (s, n, w) in [
        ("aaa", "aa", "b"),
        ("abcabc", "bc", ""),
        ("x%dy%d", "%d", "7"),
        ("none", "zz", "q"),
        ("", "", "e"),
        ("ab", "", "-"),
        ("ab", "ab", "c"),
    ] {
        assert_eq!(replace_first_str(s, n, w), s.replacen(n, w, 1), "{s:?} {n:?} {w:?}");
    }
}
