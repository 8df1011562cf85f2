use ghostdb::{ColumnStrategy, Transformer};

#[test]
fn keep_returns_token_unchanged() {
    let t = Transformer::new(42);
    assert_eq!(t.transform("'alice'", &ColumnStrategy::Keep), "'alice'");
    assert_eq!(t.transform("123", &ColumnStrategy::Keep), "123");
    assert_eq!(t.transform("NULL", &ColumnStrategy::Keep), "NULL");
}

#[test]
fn generator_is_deterministic_across_instances() {
    let a = Transformer::new(42);
    let b = Transformer::new(42);
    for strategy in [
        ColumnStrategy::FirstName,
        ColumnStrategy::LastName,
        ColumnStrategy::FullName,
        ColumnStrategy::Email,
        ColumnStrategy::Phone,
        ColumnStrategy::Mask,
    ] {
        assert_eq!(
            a.transform("'alice@example.com'", &strategy),
            b.transform("'alice@example.com'", &strategy)
        );
        assert_eq!(a.transform("plain", &strategy), b.transform("plain", &strategy));
    }
}

#[test]
fn repeated_invocations_agree() {
    let t = Transformer::new(7);
    let first = t.transform("'bob'", &ColumnStrategy::FullName);
    let second = t.transform("'bob'", &ColumnStrategy::FullName);
    assert_eq!(first, second);
}

#[test]
fn different_seeds_give_different_emails() {
    let a = Transformer::new(42);
    let b = Transformer::new(7);
    let ea = a.transform("'alice@example.com'", &ColumnStrategy::Email);
    let eb = b.transform("'alice@example.com'", &ColumnStrategy::Email);
    assert_ne!(ea, eb);
    assert!(ea.starts_with('\'') && ea.ends_with('\''));
    assert!(eb.starts_with('\'') && eb.ends_with('\''));
}

#[test]
fn quoted_tokens_stay_quoted() {
    let t = Transformer::new(42);
    for strategy in [
        ColumnStrategy::FirstName,
        ColumnStrategy::LastName,
        ColumnStrategy::FullName,
        ColumnStrategy::Email,
        ColumnStrategy::Phone,
        ColumnStrategy::Mask,
        ColumnStrategy::Fixed("x".to_string()),
    ] {
        let out = t.transform("'value'", &strategy);
        assert!(out.starts_with('\''), "{:?} -> {}", strategy, out);
        assert!(out.ends_with('\''), "{:?} -> {}", strategy, out);
    }
}

#[test]
fn unquoted_mask_has_no_surrounding_quotes() {
    let t = Transformer::new(42);
    let out = t.transform("Main Street", &ColumnStrategy::Mask);
    assert_eq!(out, "M***");
    assert!(!(out.starts_with('\'') && out.ends_with('\'')));
}

#[test]
fn generated_email_is_email_shaped() {
    let t = Transformer::new(42);
    let out = t.transform("'alice@example.com'", &ColumnStrategy::Email);
    let inner = &out[1..out.len() - 1];
    assert!(inner.contains('@'), "no @ in {}", inner);
    assert!(!inner.is_empty());
    assert_ne!(inner, "alice@example.com");
}

#[test]
fn mask_email_keeps_first_letter_and_domain() {
    let t = Transformer::new(42);
    assert_eq!(t.transform("'bob@co.com'", &ColumnStrategy::Mask), "'b***@co.com'");
}

#[test]
fn mask_plain_text_keeps_first_letter() {
    let t = Transformer::new(42);
    assert_eq!(t.transform("'Main Street'", &ColumnStrategy::Mask), "'M***'");
}

#[test]
fn mask_short_local_part_is_fully_hidden() {
    let t = Transformer::new(42);
    assert_eq!(t.transform("'a@b.c'", &ColumnStrategy::Mask), "'***@b.c'");
}

#[test]
fn mask_many_ats_falls_back_to_placeholder() {
    let t = Transformer::new(42);
    assert_eq!(t.transform("'a@b@c'", &ColumnStrategy::Mask), "'***@unknown.com'");
}

#[test]
fn mask_single_character_becomes_star() {
    let t = Transformer::new(42);
    assert_eq!(t.transform("x", &ColumnStrategy::Mask), "*");
    assert_eq!(t.transform("''", &ColumnStrategy::Mask), "'*'");
}

#[test]
fn fixed_replaces_and_requotes() {
    let t = Transformer::new(42);
    let strategy = ColumnStrategy::Fixed("N/A".to_string());
    assert_eq!(t.transform("'secret'", &strategy), "'N/A'");
    assert_eq!(t.transform("secret", &strategy), "N/A");
}

#[test]
fn same_value_same_strategy_agree_across_columns() {
    let t = Transformer::new(42);
    let in_email_column = t.transform("'sam'", &ColumnStrategy::FirstName);
    let in_other_column = t.transform("'sam'", &ColumnStrategy::FirstName);
    assert_eq!(in_email_column, in_other_column);
}
