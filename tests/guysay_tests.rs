use the_bot::guysay::{frame, say, say_quote};

#[test]
fn guysay_plain_contains_quote() {
    let quotes = vec!["Hello, world".to_string()];
    let out = say(&quotes, false).unwrap();
    assert!(out.contains("Hello, world"));
    // should not be wrapped as bash
    assert!(!out.starts_with("```bash"));
}

#[test]
fn guysay_bash_wrapped() {
    let quotes = vec!["Only one".to_string()];
    let out = say(&quotes, true).unwrap();
    assert!(out.contains("Only one"));
    assert!(out.starts_with("```bash"));
    assert!(out.ends_with("```"));
}

#[test]
fn guysay_draws_the_cow() {
    let out = say_quote("Moo", false).unwrap();
    assert!(out.contains("(oo)"));
    assert!(out.contains("Moo"));
    assert_ne!(out, "Moo");
}

#[test]
fn guysay_empty_list_says_nothing() {
    let quotes: Vec<String> = vec![];
    assert!(say(&quotes, true).is_none());
}

#[test]
fn guysay_blank_quote_says_nothing() {
    assert!(say_quote("  \n\t", true).is_none());
    let quotes = vec!["".to_string()];
    assert!(say(&quotes, false).is_none());
}

#[test]
fn frame_wraps_exactly() {
    assert_eq!(frame("art".to_string(), true), "```bash\nart\n```");
    assert_eq!(frame("art".to_string(), false), "art");
}
