use ghostdb::{guess_strategy, AppConfig, ColumnStrategy, Pipeline, TableConfig};

fn users_config() -> AppConfig {
    let mut tc = TableConfig::new();
    tc.set("id".to_string(), ColumnStrategy::Keep);
    tc.set("email".to_string(), ColumnStrategy::Email);
    let mut cfg = AppConfig::new();
    cfg.set("users".to_string(), tc);
    cfg
}

#[test]
fn tracked_statement_is_rewritten_deterministically() {
    let line = "INSERT INTO users (id, email) VALUES (1, 'alice@example.com');";
    let mut p1 = Pipeline::new(users_config(), 42);
    let out1 = p1.process_line(line);
    assert!(out1.starts_with("INSERT INTO users (id, email) VALUES (1, '"));
    assert!(out1.ends_with("');"));
    assert_ne!(out1, line);
    assert_eq!(p1.anonymized_count, 1);
    assert_eq!(p1.processed_lines, 1);

    let mut p2 = Pipeline::new(users_config(), 42);
    let out2 = p2.process_line(line);
    assert_eq!(out1, out2);
}

#[test]
fn another_seed_gives_another_but_still_quoted_substitute() {
    let line = "INSERT INTO users (id, email) VALUES (1, 'alice@example.com');";
    let mut p42 = Pipeline::new(users_config(), 42);
    let mut p7 = Pipeline::new(users_config(), 7);
    let out42 = p42.process_line(line);
    let out7 = p7.process_line(line);
    assert_ne!(out42, out7);
    assert!(out7.starts_with("INSERT INTO users (id, email) VALUES (1, '"));
    assert!(out7.ends_with("');"));
}

#[test]
fn mismatched_counts_pass_through() {
    let mut tc = TableConfig::new();
    tc.set("id".to_string(), ColumnStrategy::Keep);
    tc.set("amt".to_string(), ColumnStrategy::Keep);
    let mut cfg = AppConfig::new();
    cfg.set("orders".to_string(), tc);
    let mut p = Pipeline::new(cfg, 42);
    let line = "INSERT INTO orders (id, amt) VALUES (5, 10.00, 'extra');";
    let out = p.process_line(line);
    assert_eq!(out, line);
    assert_eq!(p.anonymized_count, 0);
    assert_eq!(p.processed_lines, 1);
}

#[test]
fn comments_pass_through() {
    let mut p = Pipeline::new(users_config(), 42);
    let out = p.process_line("-- a comment");
    assert_eq!(out, "-- a comment");
    assert_eq!(p.anonymized_count, 0);
    assert_eq!(p.processed_lines, 1);
}

#[test]
fn untracked_tables_pass_through() {
    let mut p = Pipeline::new(users_config(), 42);
    let line = "INSERT INTO invoices (id) VALUES (9);";
    let out = p.process_line(line);
    assert_eq!(out, line);
    assert_eq!(p.anonymized_count, 0);
}

#[test]
fn qualified_name_falls_back_to_unqualified_key() {
    let line = "INSERT INTO public.users (id, email) VALUES (1, 'a@b.c');";
    let mut p = Pipeline::new(users_config(), 42);
    let out = p.process_line(line);
    assert!(out.starts_with("INSERT INTO public.users (id, email) VALUES (1, '"));
    assert_eq!(p.anonymized_count, 1);
}

#[test]
fn unconfigured_columns_are_kept() {
    let mut tc = TableConfig::new();
    tc.set("email".to_string(), ColumnStrategy::Email);
    let mut cfg = AppConfig::new();
    cfg.set("users".to_string(), tc);
    let mut p = Pipeline::new(cfg, 42);
    let out = p.process_line("INSERT INTO users (id, email) VALUES (77, 'a@b.c');");
    assert!(out.starts_with("INSERT INTO users (id, email) VALUES (77, '"));
    assert_eq!(p.anonymized_count, 1);
}

#[test]
fn same_literal_in_different_columns_gets_the_same_substitute() {
    let mut tc = TableConfig::new();
    tc.set("a".to_string(), ColumnStrategy::FullName);
    tc.set("b".to_string(), ColumnStrategy::FullName);
    let mut cfg = AppConfig::new();
    cfg.set("t".to_string(), tc);
    let mut p = Pipeline::new(cfg, 42);
    let out = p.process_line("INSERT INTO t (a, b) VALUES ('sam', 'sam');");
    let inner = out.strip_prefix("INSERT INTO t (a, b) VALUES (").unwrap();
    let inner = inner.strip_suffix(");").unwrap();
    let parts: Vec<&str> = inner.split(", ").collect();
    assert_eq!(parts.len(), 2);
    assert_eq!(parts[0], parts[1]);
}

#[test]
fn counters_count_every_line() {
    let mut p = Pipeline::new(users_config(), 42);
    p.process_line("-- header");
    p.process_line("INSERT INTO users (id, email) VALUES (1, 'x@y.z');");
    p.process_line("COMMIT;");
    assert_eq!(p.processed_lines, 3);
    assert_eq!(p.anonymized_count, 1);
}

#[test]
fn fixed_strategy_rewrites_with_the_payload() {
    let mut tc = TableConfig::new();
    tc.set("city".to_string(), ColumnStrategy::Fixed("ANONYMIZED ADDRESS".to_string()));
    let mut cfg = AppConfig::new();
    cfg.set("places".to_string(), tc);
    let mut p = Pipeline::new(cfg, 42);
    let out = p.process_line("INSERT INTO places (city) VALUES ('Berlin');");
    assert_eq!(out, "INSERT INTO places (city) VALUES ('ANONYMIZED ADDRESS');");
}

#[test]
fn guesses_follow_column_names() {
    assert_eq!(guess_strategy("id"), ColumnStrategy::Keep);
    assert_eq!(guess_strategy("user_id"), ColumnStrategy::Keep);
    assert_eq!(guess_strategy("created_at"), ColumnStrategy::Keep);
    assert_eq!(guess_strategy("price"), ColumnStrategy::Keep);
    assert_eq!(guess_strategy("Email_Address"), ColumnStrategy::Email);
    assert_eq!(guess_strategy("phone"), ColumnStrategy::Phone);
    assert_eq!(guess_strategy("mobile_number"), ColumnStrategy::Phone);
    assert_eq!(guess_strategy("first_name"), ColumnStrategy::FirstName);
    assert_eq!(guess_strategy("surname"), ColumnStrategy::LastName);
    assert_eq!(guess_strategy("nickname"), ColumnStrategy::FullName);
    assert_eq!(guess_strategy("username"), ColumnStrategy::Keep);
    assert_eq!(
        guess_strategy("street_address"),
        ColumnStrategy::Fixed("ANONYMIZED ADDRESS".to_string())
    );
    assert_eq!(
        guess_strategy("api_key"),
        ColumnStrategy::Fixed("REDACTED_SECRET".to_string())
    );
    assert_eq!(guess_strategy("description"), ColumnStrategy::Mask);
}

#[test]
fn rewritten_lines_use_canonical_keywords() {
    let mut p = Pipeline::new(users_config(), 42);
    let out = p.process_line("insert into users (id, email) values (1, 'a@b.c');");
    assert!(out.starts_with("INSERT INTO users (id, email) VALUES (1, '"));
    assert_eq!(p.anonymized_count, 1);
}
