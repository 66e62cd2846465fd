use container_pid::error::{unreadable, ErrorKind, LookupError};
use container_pid::number::{
    parse_pid, parse_unsigned_pid, pid_text, read_digits, unsigned_text,
};
use container_pid::output::{exit_failure, lossy_chars, start_failure, text_of, CommandOutput};
use container_pid::seqs::{
    chars_start_with, contains_bytes, contains_chars, find_byte, find_char, same_bytes,
    same_chars, split_bytes, split_chars,
};
use container_pid::text::{
    find_keyed_row, join2, join3, join5, join_all, same_text, skip_whitespace, spells,
    split_words, to_chars, trim_end_of, trim_of, trim_start_of, trimmed_length, whitespace,
    word_length,
};

fn chars(s: &str) -> Vec<char> {
    s.chars().collect()
}

#[test]
fn first_occurrence_is_found() {
    assert_eq!(find_byte(b"a;b;c", b';'), 1);
    assert_eq!(find_byte(b";", b';'), 0);
    assert_eq!(find_byte(b"abc", b';'), 3);
    assert_eq!(find_byte(b"", b';'), 0);
    assert_eq!(find_char(&chars("é/ü/"), '/'), 1);
    assert_eq!(find_char(&chars("éü"), '/'), 2);
}

#[test]
fn splitting_keeps_empty_pieces() {
    assert_eq!(split_bytes(b"a\nb\n", b'\n'), vec![&b"a"[..], b"b", b""]);
    assert_eq!(split_bytes(b"", b'\n'), vec![&b""[..]]);
    assert_eq!(split_bytes(b"\n\n", b'\n'), vec![&b""[..], b"", b""]);
    assert_eq!(split_bytes(b"abc", b'\n'), vec![&b"abc"[..]]);
    let text = chars("a b  c");
    let pieces = split_chars(&text, ' ');
    let pieces: Vec<String> = pieces.iter().map(|p| p.iter().collect()).collect();
    assert_eq!(pieces, vec!["a", "b", "", "c"]);
}

#[test]
fn slices_are_compared_by_their_elements() {
    assert!(same_bytes(b"", b""));
    assert!(same_bytes(b"abc", b"abc"));
    assert!(!same_bytes(b"abc", b"abd"));
    assert!(!same_bytes(b"abc", b"ab"));
    assert!(same_chars(&chars("héllo"), &chars("héllo")));
    assert!(!same_chars(&chars("héllo"), &chars("hello")));
    assert!(same_text("héllo", "héllo"));
    assert!(!same_text("héllo", "hèllo"));
    assert!(!same_text("a", ""));
}

#[test]
fn runs_are_found_anywhere() {
    assert!(contains_bytes(b"hello world", b"o w"));
    assert!(contains_bytes(b"hello", b"hello"));
    assert!(contains_bytes(b"hello", b""));
    assert!(contains_bytes(b"", b""));
    assert!(!contains_bytes(b"hello", b"hello!"));
    assert!(!contains_bytes(b"hello", b"ol"));
    assert!(contains_bytes(b"aab", b"ab"));
    assert!(contains_chars(&chars("xxfirecracker"), &chars("firecracker")));
    assert!(!contains_chars(&chars("firecracke"), &chars("firecracker")));
    assert!(chars_start_with(&chars("vmID=7"), &chars("vmID=")));
    assert!(chars_start_with(&chars("vmID="), &chars("vmID=")));
    assert!(!chars_start_with(&chars("vmID"), &chars("vmID=")));
    assert!(chars_start_with(&chars(""), &chars("")));
}

#[test]
fn characters_of_a_string_are_kept() {
    assert_eq!(to_chars("aé世🦀"), vec!['a', 'é', '世', '🦀']);
    assert_eq!(to_chars(""), Vec::<char>::new());
    assert_eq!(text_of(&['a', 'é', '世', '🦀']), "aé世🦀");
    assert_eq!(text_of(&[]), "");
}

#[test]
fn bytes_are_read_with_replacement_characters() {
    assert_eq!(lossy_chars(b"ab"), vec!['a', 'b']);
    assert_eq!(lossy_chars("é".as_bytes()), vec!['é']);
    assert_eq!(lossy_chars(b"a\xffb"), vec!['a', '\u{fffd}', 'b']);
    assert_eq!(lossy_chars(b"\xc3"), vec!['\u{fffd}']);
}

#[test]
fn strings_are_joined_in_order() {
    assert_eq!(join2("a", "b"), "ab");
    assert_eq!(join3("a", "", "c"), "ac");
    assert_eq!(join5("1", "2", "3", "4", "5"), "12345");
    let parts = vec![String::from("docker"), String::from("inspect"), String::from("c1")];
    assert_eq!(join_all(&parts, " "), "docker inspect c1");
    assert_eq!(join_all(&parts[..1], " "), "docker");
    assert_eq!(join_all(&[], " "), "");
    assert_eq!(join_all(&[String::new(), String::new()], ", "), ", ");
}

#[test]
fn ascii_words_are_spelled_byte_by_byte() {
    assert!(spells(b"true", "true"));
    assert!(!spells(b"True", "true"));
    assert!(!spells(b"true ", "true"));
    assert!(spells(b"", ""));
    let lines: Vec<&[u8]> = vec![b"state=running", b"pid", b"pid=12", b"pid=13"];
    assert_eq!(find_keyed_row(&lines, b'=', "pid"), 1);
    assert_eq!(find_keyed_row(&lines, b'=', "state"), 0);
    assert_eq!(find_keyed_row(&lines, b'=', "exited"), 4);
    assert_eq!(find_keyed_row(&lines, b':', "pid"), 1);
}

#[test]
fn white_space_is_what_unicode_says() {
    for c in ['\t', '\n', '\u{b}', '\u{c}', '\r', ' ', '\u{85}', '\u{a0}', '\u{1680}', '\u{2000}',
        '\u{2005}', '\u{200a}', '\u{2028}', '\u{2029}', '\u{202f}', '\u{205f}', '\u{3000}']
    {
        assert!(whitespace(c));
    }
    for c in ['a', '0', '\0', '\u{8}', '\u{e}', '\u{1f}', '!', '\u{84}', '\u{86}', '\u{9f}',
        '\u{a1}', '\u{180e}', '\u{1fff}', '\u{200b}', '\u{2027}', '\u{202a}', '\u{2060}', '\u{feff}',
        '\u{fffd}']
    {
        assert!(!whitespace(c));
    }
    for code in 0..0x11000u32 {
        if let Some(c) = char::from_u32(code) {
            assert_eq!(whitespace(c), c.is_whitespace());
        }
    }
}

#[test]
fn trimming_takes_white_space_off_the_ends_only() {
    let text = chars(" \t a b \u{a0}\n");
    assert_eq!(skip_whitespace(&text), 3);
    assert_eq!(trimmed_length(&text), 6);
    assert_eq!(text_of(trim_start_of(&text)), "a b \u{a0}\n");
    assert_eq!(text_of(trim_end_of(&text)), " \t a b");
    assert_eq!(text_of(trim_of(&text)), "a b");
    let blank = chars(" \n ");
    assert_eq!(text_of(trim_of(&blank)), "");
    assert_eq!(skip_whitespace(&blank), 3);
    assert_eq!(trimmed_length(&blank), 0);
    assert_eq!(text_of(trim_of(&[])), "");
    assert_eq!(text_of(trim_of(&chars("ab"))), "ab");
}

#[test]
fn words_are_the_runs_between_white_space() {
    let words = |s: &str| -> Vec<String> {
        let text = chars(s);
        split_words(&text).iter().map(|w| w.iter().collect()).collect()
    };
    assert_eq!(words("v2      17515    RUNNING"), vec!["v2", "17515", "RUNNING"]);
    assert_eq!(words("  a\tb\u{3000}c  "), vec!["a", "b", "c"]);
    assert_eq!(words(""), Vec::<String>::new());
    assert_eq!(words(" \n "), Vec::<String>::new());
    assert_eq!(words("one"), vec!["one"]);
    assert_eq!(word_length(&chars("ab cd")), 2);
    assert_eq!(word_length(&chars("abcd")), 4);
    assert_eq!(word_length(&chars(" ab")), 0);
}

#[test]
fn digits_are_read_up_to_the_limit() {
    assert_eq!(read_digits(&chars("0"), 0), Some(0));
    assert_eq!(read_digits(&chars("12"), 12), Some(12));
    assert_eq!(read_digits(&chars("13"), 12), None);
    assert_eq!(read_digits(&chars("0000013"), 13), Some(13));
    assert_eq!(read_digits(&chars(""), 13), None);
    assert_eq!(read_digits(&chars("1a"), 13), None);
    assert_eq!(read_digits(&chars("99a"), 13), None);
    assert_eq!(read_digits(&chars("18446744073709551615"), u64::MAX), Some(u64::MAX));
    assert_eq!(read_digits(&chars("18446744073709551616"), u64::MAX), None);
    assert_eq!(read_digits(&chars("٣"), 13), None);
}

#[test]
fn numbers_are_read_as_the_standard_library_reads_them() {
    for text in ["0", "1", "-1", "+1", "007", "-0", "+0", "2147483647", "-2147483648",
        "2147483648", "-2147483649", "", "+", "-", "+-1", "1 ", " 1", "1e3", "0x1", "१२"]
    {
        assert_eq!(parse_pid(&chars(text)), text.parse::<i32>().ok());
        let unsigned = text.parse::<u64>().ok().and_then(|n| i32::try_from(n).ok());
        assert_eq!(parse_unsigned_pid(&chars(text)), unsigned);
    }
    assert_eq!(parse_unsigned_pid(&chars("2147483647")), Some(2147483647));
    assert_eq!(parse_unsigned_pid(&chars("2147483648")), None);
    assert_eq!(parse_unsigned_pid(&chars("4294967297")), None);
    assert_eq!(parse_unsigned_pid(&chars("18446744073709551615")), None);
    assert_eq!(parse_unsigned_pid(&chars("18446744073709551616")), None);
}

#[test]
fn numbers_are_written_in_base_ten() {
    for n in [0u64, 1, 9, 10, 11, 99, 100, 101, 1234567890, u64::MAX] {
        assert_eq!(unsigned_text(n), n.to_string());
    }
    for n in [0i32, 1, -1, 9, -9, 10, -10, 12345, -12345, i32::MAX, i32::MIN] {
        assert_eq!(pid_text(n), n.to_string());
        assert_eq!(parse_pid(&chars(&pid_text(n))), Some(n));
    }
}

#[test]
fn failures_carry_their_kind_and_their_context() {
    let e = LookupError::new(ErrorKind::ParseError, String::from("bad"));
    assert_eq!(e.to_string(), "bad");
    let copy = e.duplicate();
    let e = e.context("while reading");
    assert_eq!(e.kind, ErrorKind::ParseError);
    assert_eq!(e.message, "while reading: bad");
    assert_eq!(copy.kind, ErrorKind::ParseError);
    assert_eq!(copy.message, "bad");
    let e = unreadable("cannot list /proc", "denied");
    assert_eq!(e.kind, ErrorKind::Internal);
    assert_eq!(e.message, "cannot list /proc: denied");
    let e = start_failure("cannot start x", "gone");
    assert_eq!(e.kind, ErrorKind::ExternalCommandFailed);
    assert_eq!(e.message, "cannot start x: gone");
    let e = exit_failure("x failed", "exit status: 2", "it said");
    assert_eq!(e.kind, ErrorKind::ExternalCommandFailed);
    assert_eq!(e.message, "x failed (exit status: 2): it said");
}

#[test]
fn program_succeeds_only_with_code_zero() {
    let output = |code| CommandOutput {
        code,
        status: String::new(),
        stdout: Vec::new(),
        stderr: Vec::new(),
    };
    assert!(output(Some(0)).success());
    assert!(!output(Some(1)).success());
    assert!(!output(Some(-1)).success());
    assert!(!output(None).success());
}

#[test]
fn trimming_and_words_agree_with_the_standard_library() {
    let samples = [
        "",
        " ",
        "a",
        " a",
        "a ",
        "\t a b \n",
        "\u{a0}x\u{a0}",
        "\u{2003}1234\u{3000}\r\n",
        "x\u{200b}",
        "\u{feff}x",
        "v2      17515    RUNNING",
        " \u{85}é世\u{1680}🦀\u{2028}",
        "no-space",
        "\u{b}\u{c}",
    ];
    for sample in samples {
        let text = chars(sample);
        assert_eq!(text_of(trim_of(&text)), sample.trim());
        assert_eq!(text_of(trim_start_of(&text)), sample.trim_start());
        assert_eq!(text_of(trim_end_of(&text)), sample.trim_end());
        let words: Vec<String> = split_words(&text).iter().map(|w| w.iter().collect()).collect();
        let expected: Vec<String> = sample.split_whitespace().map(String::from).collect();
        assert_eq!(words, expected);
        let pieces: Vec<String> =
            split_chars(&text, ' ').iter().map(|p| p.iter().collect()).collect();
        let expected: Vec<String> = sample.split(' ').map(String::from).collect();
        assert_eq!(pieces, expected);
    }
}

#[test]
fn splitting_bytes_agrees_with_the_standard_library() {
    for sample in [&b""[..], b"\n", b"a", b"a\n", b"\na", b"a\n\nb", b"Name: c\nPid: 1\n"] {
        let expected: Vec<&[u8]> = sample.split(|b| *b == b'\n').collect();
        assert_eq!(split_bytes(sample, b'\n'), expected);
    }
}
