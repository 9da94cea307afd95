use hydra_nexus::text::{chars_of, eq_ignore_ascii_case, has_sub, join_texts, same_text, starts_with, text_le};

#[test]
fn substrings() {
    let cs = chars_of("GET /api HTTP/1.1");
    assert!(has_sub(&cs, "HTTP"));
    assert!(has_sub(&cs, ""));
    assert!(!has_sub(&cs, "POST"));
    assert!(starts_with(&cs, "GET"));
    assert!(!starts_with(&cs, "api"));
    assert!(!has_sub(&chars_of("ab"), "abc"));
}

#[test]
fn orders_and_equalities() {
    assert!(text_le("alpha", "beta"));
    assert!(!text_le("beta", "alpha"));
    assert!(text_le("Beta", "alpha"));
    assert!(text_le("ab", "abc"));
    assert!(text_le("", ""));
    assert!(eq_ignore_ascii_case("Hydra", "hYDRA"));
    assert!(eq_ignore_ascii_case("hYDRA", "Hydra"));
    assert!(!eq_ignore_ascii_case("Hydra", "Hydras"));
    assert!(eq_ignore_ascii_case("Étoile", "Étoile"));
    assert!(!eq_ignore_ascii_case("étoile", "Étoile"));
    assert!(same_text("x", "x"));
    assert!(!same_text("x", "y"));
    assert_eq!(join_texts(&vec!["a", "b", "c"], ", "), "a, b, c");
    assert_eq!(join_texts(&vec![], ", "), "");
}
