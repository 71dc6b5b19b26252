use wvr_gui_core::text::{lex_less, push_decimal};

#[test]
fn lexicographic_order() {
    assert!(lex_less("a", "b"));
    assert!(lex_less("ab", "abc"));
    assert!(!lex_less("abc", "ab"));
    assert!(!lex_less("same", "same"));
    assert!(lex_less("", "a"));
    assert!(lex_less("Z", "a"));
    assert!(lex_less("é", "中"));
}

#[test]
fn decimal_notation() {
    let mut s = "n=".to_string();
    push_decimal(&mut s, 0);
    assert_eq!(s, "n=0");
    let mut t = String::new();
    push_decimal(&mut t, 1907);
    assert_eq!(t, "1907");
    let mut u = String::new();
    push_decimal(&mut u, u128::MAX);
    assert_eq!(u, u128::MAX.to_string());
}
