use autodeployment::text::{
    find, from_chars, has_match, has_prefix, has_suffix, second_word, parse_u16, prefix_before,
    replaced, rfind, split_lines, to_chars, trimmed, trimmed_of,
};

fn chars(s: &str) -> Vec<char> {
    s.chars().collect()
}

fn lines_of(s: &str) -> Vec<String> {
    split_lines(&chars(s)).iter().map(|l| l.iter().collect()).collect()
}

#[test]
fn characters_and_strings() {
    assert_eq!(to_chars("héllo ✅"), chars("héllo ✅"));
    assert_eq!(from_chars(&chars("héllo ✅")), "héllo ✅");
    assert_eq!(to_chars(""), Vec::<char>::new());
}

#[test]
fn searching() {
    let s = chars("abcabc");
    assert_eq!(find(&s, &chars("bc")), Some(1));
    assert_eq!(rfind(&s, &chars("bc")), Some(4));
    assert_eq!(find(&s, &chars("cb")), None);
    assert_eq!(rfind(&s, &chars("abcabcd")), None);
    assert_eq!(find(&s, &chars("")), Some(0));
    assert_eq!(rfind(&s, &chars("")), Some(6));
    assert_eq!(find(&chars(""), &chars("")), Some(0));
    assert!(has_match(&s, &chars("cab")));
    assert!(!has_match(&s, &chars("x")));
    assert!(has_prefix(&s, &chars("abc")));
    assert!(!has_prefix(&s, &chars("bc")));
    assert!(has_suffix(&s, &chars("abc")));
    assert!(!has_suffix(&s, &chars("ab")));
    assert_eq!(prefix_before(&s, &chars("ca")), chars("ab"));
    assert_eq!(prefix_before(&s, &chars("x")), s);
}

#[test]
fn trimming() {
    assert_eq!(trimmed(&chars("  a b \t\r\n")), chars("a b"));
    assert_eq!(trimmed(&chars("\u{a0}\u{2003}x\u{3000}\u{85}")), chars("x"));
    assert_eq!(trimmed(&chars(" \n ")), chars(""));
    assert_eq!(trimmed(&chars("\u{200b}x")), chars("\u{200b}x"));
    assert_eq!(trimmed_of(&chars("\"\"/data\"x\"\""), '"'), chars("/data\"x"));
    assert_eq!(trimmed_of(&chars("\"\"\""), '"'), chars(""));
    for c in 0u32..0x3100 {
        if let Some(c) = char::from_u32(c) {
            let s: String = [c, 'x', c].iter().collect();
            assert_eq!(from_chars(&trimmed(&chars(&s))), s.trim(), "{:x}", c as u32);
        }
    }
}

#[test]
fn lines() {
    assert_eq!(lines_of("a\nb\r\nc"), vec!["a", "b", "c"]);
    assert_eq!(lines_of("a\n\nb\n"), vec!["a", "", "b"]);
    assert_eq!(lines_of(""), Vec::<String>::new());
    assert_eq!(lines_of("\n"), vec![""]);
    assert_eq!(lines_of("a\r"), vec!["a\r"]);
    assert_eq!(lines_of("a\r\r\nb"), vec!["a\r", "b"]);
    for s in ["x\ny", "x\r\n\r\ny\r", "\r\n", "one", "\n\n\n", "a\rb\nc"] {
        let expected: Vec<String> = s.lines().map(|l| l.to_string()).collect();
        assert_eq!(lines_of(s), expected);
    }
}

#[test]
fn tokens() {
    assert_eq!(second_word(&chars("EXPOSE 8080")), Some(chars("8080")));
    assert_eq!(second_word(&chars("  EXPOSE\t 80/tcp  9 ")), Some(chars("80/tcp")));
    assert_eq!(second_word(&chars("EXPOSE")), None);
    assert_eq!(second_word(&chars("EXPOSE   ")), None);
    assert_eq!(second_word(&chars("")), None);
}

#[test]
fn replacing() {
    assert_eq!(replaced(&chars("aaa"), &chars("aa"), &chars("b")), chars("ba"));
    assert_eq!(replaced(&chars("abcabc"), &chars("bc"), &chars("")), chars("aa"));
    assert_eq!(replaced(&chars("abc"), &chars("x"), &chars("y")), chars("abc"));
    assert_eq!(replaced(&chars("abc"), &chars(""), &chars("y")), chars("yaybycy"));
    assert_eq!(replaced(&chars(""), &chars(""), &chars("y")), chars("y"));
    assert_eq!(replaced(&chars(""), &chars("a"), &chars("y")), chars(""));
    assert_eq!(
        replaced(&chars("localhost:localhost"), &chars("localhost"), &chars("1.2.3.4")),
        chars("1.2.3.4:1.2.3.4")
    );
}

#[test]
fn unsigned_numbers() {
    assert_eq!(parse_u16(&chars("0")), Some(0));
    assert_eq!(parse_u16(&chars("8080")), Some(8080));
    assert_eq!(parse_u16(&chars("65535")), Some(65535));
    assert_eq!(parse_u16(&chars("65536")), None);
    assert_eq!(parse_u16(&chars("+443")), Some(443));
    assert_eq!(parse_u16(&chars("000080")), Some(80));
    assert_eq!(parse_u16(&chars("99999999999999999999")), None);
    for s in ["", "+", "-1", "-0", "80/tcp", " 80", "8 0", "0x10", "１２", "++1", "1e3"] {
        assert_eq!(parse_u16(&chars(s)), s.parse::<u16>().ok(), "{:?}", s);
        assert_eq!(parse_u16(&chars(s)), None);
    }
}

fn samples() -> Vec<String> {
    let alphabet = ['a', 'b', ' ', '=', '\n'];
    let mut all = vec![String::new()];
    let mut last = vec![String::new()];
    for _ in 0..5 {
        let mut next = Vec::new();
        for s in &last {
            for c in alphabet {
                let mut t = s.clone();
                t.push(c);
                next.push(t);
            }
        }
        all.extend(next.iter().cloned());
        last = next;
    }
    all
}

#[test]
fn routines_agree_with_the_standard_library_on_small_texts() {
    let patterns = ["a", "ab", "ba", "=", " ", "aa", "a b"];
    for s in samples() {
        let cs = chars(&s);
        assert_eq!(from_chars(&trimmed(&cs)), s.trim(), "{:?}", s);
        assert_eq!(lines_of(&s), s.lines().map(|l| l.to_string()).collect::<Vec<_>>(), "{:?}", s);
        assert_eq!(
            second_word(&cs).map(|w| from_chars(&w)),
            s.split_whitespace().nth(1).map(|w| w.to_string()),
            "{:?}",
            s
        );
        assert_eq!(from_chars(&trimmed_of(&cs, 'a')), s.trim_matches('a'), "{:?}", s);
        for p in patterns {
            let pc = chars(p);
            assert_eq!(find(&cs, &pc), s.find(p), "{:?} {:?}", s, p);
            assert_eq!(rfind(&cs, &pc), s.rfind(p), "{:?} {:?}", s, p);
            assert_eq!(has_match(&cs, &pc), s.contains(p), "{:?} {:?}", s, p);
            assert_eq!(has_prefix(&cs, &pc), s.starts_with(p), "{:?} {:?}", s, p);
            assert_eq!(has_suffix(&cs, &pc), s.ends_with(p), "{:?} {:?}", s, p);
            assert_eq!(
                from_chars(&prefix_before(&cs, &pc)),
                s.split(p).next().unwrap(),
                "{:?} {:?}",
                s,
                p
            );
            assert_eq!(from_chars(&replaced(&cs, &pc, &chars("xy"))), s.replace(p, "xy"));
            assert_eq!(from_chars(&replaced(&cs, &pc, &chars(""))), s.replace(p, ""));
        }
        assert_eq!(from_chars(&replaced(&cs, &chars(""), &chars("xy"))), s.replace("", "xy"));
    }
}
