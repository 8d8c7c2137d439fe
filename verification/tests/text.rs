use openshell::command::CommandOutput;
use openshell::paths::join_path;
use openshell::text::{
    decimal_text, first_word, join_from, parse_i32, split_lines, text_before, trim_text,
    white_space,
};

#[test]
fn white_space_is_that_of_char() {
    for c in '\0'..=char::MAX {
        assert_eq!(white_space(c), c.is_whitespace());
    }
}

#[test]
fn trimming_is_that_of_str() {
    for text in ["", " ", "a", " a", "a ", "\u{3000}a b\u{85}", "\t\r\n x\u{200b} "] {
        assert_eq!(trim_text(text), text.trim());
    }
}

#[test]
fn lines_are_those_of_str() {
    for text in ["", "\n", "a", "a\n", "a\r\nb", "a\n\nb\r", "\r\n", "a\r\r\nb\n\r\n"] {
        let lines: Vec<&str> = text.lines().collect();
        assert_eq!(split_lines(text), lines);
    }
}

#[test]
fn joining_is_that_of_slices() {
    let parts: Vec<String> = vec!["a".to_string(), String::new(), "b".to_string()];
    assert_eq!(join_from(&parts, 0, ", "), parts.join(", "));
    assert_eq!(join_from(&parts, 1, ", "), ", b");
    assert_eq!(join_from(&parts, 3, ", "), "");
}

#[test]
fn numbers_are_written_as_by_to_string() {
    for n in [0, 7, 10, 99, 100, 8080, 65535, u64::MAX] {
        assert_eq!(decimal_text(n), n.to_string());
    }
}

#[test]
fn numbers_are_read_as_by_parse() {
    for text in [
        "", "0", "-0", "+7", "-", "+", "007", "2147483647", "2147483648", "-2147483648",
        "-2147483649", " 1", "1 ", "1a", "--1", "99999999999999999999", "٣",
    ] {
        assert_eq!(parse_i32(text), text.parse::<i32>().ok());
    }
}

#[test]
fn words_are_those_of_split_whitespace() {
    for text in ["", "  ", "a b", "  0.5.0\n(build 1)", "\u{2003}x"] {
        assert_eq!(
            first_word(text),
            text.split_whitespace().next().map(String::from)
        );
    }
}

#[test]
fn heads_are_those_of_split() {
    for text in ["", "/", "10.0.0.1/24", "a/b/c", "abc"] {
        assert_eq!(text_before(text, '/'), text.split('/').next().unwrap());
    }
}

#[test]
fn paths_are_joined_as_by_path() {
    for (base, part) in [("/a", "b"), ("/a/", "b"), ("", "b"), ("/a", "/b"), ("/a", ""), ("", "")] {
        let joined = std::path::Path::new(base).join(part);
        assert_eq!(join_path(base, part), joined.to_string_lossy());
    }
}

#[test]
fn output_is_decoded() {
    let output = CommandOutput::from_bytes(true, "grün\n".as_bytes(), b"a\xffb");
    assert!(output.success);
    assert_eq!(output.stdout, "grün\n");
    assert_eq!(output.stderr, "a\u{fffd}b");
    let nothing = CommandOutput::from_bytes(false, b"", b"\xff");
    assert_eq!(nothing.stdout, "");
    assert!(!nothing.stderr.is_empty());
}

#[test]
fn joining_parts_in_any_order_gives_one_path() {
    let parts = ["", "/", "a", "a/", "/a", "b/c"];
    for base in parts {
        for part in parts {
            for last in parts {
                assert_eq!(
                    join_path(&join_path(base, part), last),
                    join_path(base, &join_path(part, last))
                );
            }
        }
    }
}
