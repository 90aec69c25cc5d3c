use vers::text::{contains_lowercased, find, is_whitespace, lines, remove_all, trim, trimmed_starts_with};

#[test]
fn lines_follow_str_lines() {
    for s in ["", "a", "a\n", "\n", "a\r\nb", "a\n\nb\n", "a\rb", "x\r", "x\r\n", "\r\n\r\n", "é\nü"] {
        let expected: Vec<String> = s.lines().map(|l| l.to_string()).collect();
        assert_eq!(lines(s), expected, "input {:?}", s);
    }
}

#[test]
fn trim_follows_str_trim() {
    for s in ["", "  ", " a ", "\t\u{a0}b c\u{3000}\n", "abc", "\u{2009}x\u{85}", "\u{200b}x"] {
        assert_eq!(trim(s), s.trim(), "input {:?}", s);
    }
}

#[test]
fn is_whitespace_follows_char() {
    for u in 0u32..0x3100 {
        if let Some(c) = char::from_u32(u) {
            assert_eq!(is_whitespace(c), c.is_whitespace(), "char {:x}", u);
        }
    }
}

#[test]
fn find_gives_char_index() {
    assert_eq!(find("00:02.0 VGA: Intel", ": "), Some(11));
    assert_eq!(find("no separator", ": "), None);
    assert_eq!(find("é: x", ": "), Some(1));
    assert_eq!(find("abc", ""), Some(0));
}

#[test]
fn contains_lowercased_ignores_ascii_case() {
    assert!(contains_lowercased("VGA compatible controller", "vga"));
    assert!(contains_lowercased("3D controller", "3d"));
    assert!(!contains_lowercased("Audio device", "vga"));
    assert!(contains_lowercased("anything", ""));
}

#[test]
fn remove_all_follows_replace() {
    for s in ["Chipset Model: Apple M1", "  Chipset Model: X Chipset Model:", "none", "Chipset Model:Chipset Model:"] {
        assert_eq!(remove_all(s, "Chipset Model:"), s.replace("Chipset Model:", ""));
    }
    assert_eq!(remove_all("aaa", "aa"), "aaa".replace("aa", ""));
}

#[test]
fn trimmed_starts_with_skips_indentation() {
    assert!(trimmed_starts_with("      Chipset Model: Apple M1", "Chipset Model:"));
    assert!(!trimmed_starts_with("      Type: GPU", "Chipset Model:"));
    assert!(!trimmed_starts_with("", "Chipset Model:"));
}

#[test]
fn trimming_twice_equals_trimming_once() {
    for s in ["  a b  ", "\u{3000}", "x", " \t\n "] {
        let once = trim(s);
        assert_eq!(trim(&once), once);
    }
}
