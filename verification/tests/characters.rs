use nthash::util::{same_chars, EqIgnoreAsciiCase, UnicodeString};
use widestring::Utf16String;

fn chars(s: &str) -> Vec<char> {
    s.chars().collect()
}

#[test]
fn test_eq_ignore_ascii_case() {
    assert!(chars("Bongour").eq_ignore_ascii_case(chars("bongour")));
    let testo: Vec<char> = Utf16String::from_str("Testo").chars().collect();
    assert!(testo.eq_ignore_ascii_case(chars("testo")));

    assert!("Bongour".eq_ignore_ascii_case("bongour".chars().as_str()));
}

#[test]
fn different_letters_do_not_agree() {
    assert!(!chars("Bongour").eq_ignore_ascii_case(chars("bonjour")));
    assert!(!chars("a").eq_ignore_ascii_case(chars("b")));
}

#[test]
fn comparison_stops_at_the_shorter_side() {
    assert!(chars("Test").eq_ignore_ascii_case(chars("testing")));
    assert!(chars("TESTING").eq_ignore_ascii_case(chars("test")));
    assert!(chars("").eq_ignore_ascii_case(chars("anything")));
    assert!(chars("anything").eq_ignore_ascii_case(chars("")));
    assert!(!chars("Tent").eq_ignore_ascii_case(chars("testing")));
}

#[test]
fn comparison_goes_by_the_lowercase_mapping() {
    // beyond ASCII: capital and small e with acute
    assert!(chars("\u{c9}t\u{e9}").eq_ignore_ascii_case(chars("\u{e9}T\u{c9}")));
    // capital I with dot above maps to two characters, small i to one
    assert!(!chars("\u{130}").eq_ignore_ascii_case(chars("i")));
    // a letter and a digit
    assert!(!chars("1").eq_ignore_ascii_case(chars("l")));
}

#[test]
fn same_chars_compares_length_and_content() {
    assert!(same_chars(&[], &[]));
    assert!(same_chars(&['a', 'b'], &['a', 'b']));
    assert!(!same_chars(&['a', 'b'], &['a']));
    assert!(!same_chars(&['a'], &['a', 'b']));
    assert!(!same_chars(&['a', 'b'], &['a', 'c']));
    assert!(!same_chars(&['a'], &['A']));
}

#[test]
fn unicode_string_agrees_with_its_text() {
    let units: Vec<u16> = "Kernel32.DLL".encode_utf16().collect();
    assert!(UnicodeString::new(units.clone()).eq_ignore_ascii_case(chars("kernel32.dll")));
    assert!(!UnicodeString::new(units).eq_ignore_ascii_case(chars("ntdll.dll")));
}

#[test]
fn unicode_string_holds_its_units() {
    let s = UnicodeString::new(vec![0x4e, 0x74]);
    assert_eq!(s.as_slice(), &[0x4e, 0x74]);
    assert_eq!(s.clone().as_slice(), &[0x4e, 0x74]);
}

#[test]
fn unicode_string_stops_at_the_shorter_side() {
    let units: Vec<u16> = "NTDLL".encode_utf16().collect();
    assert!(UnicodeString::new(units.clone()).eq_ignore_ascii_case(chars("ntdll.dll")));
    assert!(UnicodeString::new(units).eq_ignore_ascii_case(chars("")));
    assert!(UnicodeString::new(Vec::new()).eq_ignore_ascii_case(chars("ntdll")));
}

#[test]
fn unicode_string_that_is_not_utf16_agrees_with_nothing() {
    // a low surrogate alone
    assert!(!UnicodeString::new(vec![0xDC00]).eq_ignore_ascii_case(chars("")));
    // a high surrogate at the end
    assert!(!UnicodeString::new(vec![0x61, 0xD801]).eq_ignore_ascii_case(chars("a")));
    // a high surrogate followed by a letter
    assert!(!UnicodeString::new(vec![0xD801, 0x61]).eq_ignore_ascii_case(chars("a")));
    // two high surrogates
    assert!(!UnicodeString::new(vec![0xD801, 0xD801]).eq_ignore_ascii_case(chars("")));
}

#[test]
fn unicode_string_decodes_surrogate_pairs() {
    // U+10400 is a capital letter whose small form is U+10428
    let capital: Vec<u16> = vec![0xD801, 0xDC00];
    assert!(UnicodeString::new(capital.clone()).eq_ignore_ascii_case(chars("\u{10428}")));
    assert!(UnicodeString::new(capital.clone()).eq_ignore_ascii_case(chars("\u{10400}")));
    assert!(!UnicodeString::new(capital).eq_ignore_ascii_case(chars("\u{10429}")));
}
