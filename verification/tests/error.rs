use openssl_rand::error::{Error, ErrorStack};

#[test]
fn error_holds_what_it_was_made_with() {
    let error = Error::new(
        0x2406_c06c,
        "crypto/rand/drbg_lib.c".to_string(),
        338,
        Some("error retrieving entropy".to_string()),
    );
    assert_eq!(error.code(), 0x2406_c06c);
    assert_eq!(error.file(), "crypto/rand/drbg_lib.c");
    assert_eq!(error.line(), 338);
    assert_eq!(error.data(), Some("error retrieving entropy"));
}

#[test]
fn error_without_text_has_no_data() {
    let error = Error::new(1, String::new(), 0, None);
    assert_eq!(error.code(), 1);
    assert_eq!(error.file(), "");
    assert_eq!(error.line(), 0);
    assert_eq!(error.data(), None);
}

#[test]
fn error_stack_keeps_its_records_in_order() {
    let first = Error::new(7, "a.c".to_string(), 10, None);
    let second = Error::new(9, "b.c".to_string(), 20, Some("second".to_string()));
    let stack = ErrorStack::new(vec![first.clone(), second.clone()]);
    assert_eq!(stack.errors().len(), 2);
    assert_eq!(stack.errors()[0], first);
    assert_eq!(stack.errors()[1], second);
    assert_ne!(stack, ErrorStack::new(vec![second, first]));
}

#[test]
fn error_stack_may_be_empty() {
    let stack = ErrorStack::new(Vec::new());
    assert!(stack.errors().is_empty());
}
