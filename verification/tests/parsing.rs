use ghostdb::{match_insert, match_insert_header, split_columns, Transformer};

#[test]
fn splits_on_commas_outside_quotes() {
    let toks = Transformer::parse_values("1, 'a,b', NULL");
    assert_eq!(toks, vec!["1", "'a,b'", "NULL"]);
}

#[test]
fn backslash_escapes_the_next_character() {
    let toks = Transformer::parse_values(r"'a\'b', 2");
    assert_eq!(toks, vec![r"'a\'b'", "2"]);
}

#[test]
fn unbalanced_quote_swallows_the_rest() {
    let toks = Transformer::parse_values("'abc, 2");
    assert_eq!(toks, vec!["'abc, 2"]);
}

#[test]
fn empty_input_gives_no_tokens() {
    assert_eq!(Transformer::parse_values(""), Vec::<String>::new());
    assert_eq!(Transformer::parse_values("   "), Vec::<String>::new());
}

#[test]
fn middle_tokens_may_be_empty() {
    let toks = Transformer::parse_values("a,,b");
    assert_eq!(toks, vec!["a", "", "b"]);
}

#[test]
fn tokens_are_trimmed() {
    let toks = Transformer::parse_values("  7 ,  'x y'  ");
    assert_eq!(toks, vec!["7", "'x y'"]);
}

#[test]
fn column_list_is_split_and_cleaned() {
    let cols = split_columns("id, \"name\", email");
    assert_eq!(cols, vec!["id", "name", "email"]);
}

#[test]
fn column_split_keeps_empty_tokens() {
    assert_eq!(split_columns(""), vec![""]);
    assert_eq!(split_columns("a,"), vec!["a", ""]);
}

#[test]
fn matches_a_plain_insert_line() {
    let r = match_insert("INSERT INTO users (id, email) VALUES (1, 'a@b.c');");
    let (t, c, v) = r.expect("line should match");
    assert_eq!(t, "users");
    assert_eq!(c, "id, email");
    assert_eq!(v, "1, 'a@b.c'");
}

#[test]
fn keywords_match_case_insensitively() {
    let r = match_insert("insert into Users (id) values (1);");
    let (t, c, v) = r.expect("line should match");
    assert_eq!(t, "Users");
    assert_eq!(c, "id");
    assert_eq!(v, "1");
}

#[test]
fn schema_qualified_table_name_is_kept_raw() {
    let r = match_insert("INSERT INTO public.users (id) VALUES (2);");
    let (t, _, _) = r.expect("line should match");
    assert_eq!(t, "public.users");
}

#[test]
fn non_insert_lines_do_not_match() {
    assert!(match_insert("-- a comment").is_none());
    assert!(match_insert("").is_none());
    assert!(match_insert("CREATE TABLE users (id int);").is_none());
    assert!(match_insert("SELECT * FROM users;").is_none());
}

#[test]
fn line_must_end_with_the_terminator() {
    assert!(match_insert("INSERT INTO users (id) VALUES (1)").is_none());
    assert!(match_insert("INSERT INTO users (id) VALUES (1); -- tail").is_none());
}

#[test]
fn values_keyword_is_required() {
    assert!(match_insert("INSERT INTO users (id) SELECT 1;").is_none());
}

#[test]
fn header_matches_without_values_list() {
    let r = match_insert_header("INSERT INTO public.users (id, email) VALUES");
    let (t, c) = r.expect("header should match");
    assert_eq!(t, "public.users");
    assert_eq!(c, "id, email");
    assert!(match_insert_header("-- nothing").is_none());
}

#[test]
fn value_fragment_spans_inner_parentheses() {
    let r = match_insert("INSERT INTO t (a) VALUES (concat(1,2));");
    let (_, _, v) = r.expect("line should match");
    assert_eq!(v, "concat(1,2)");
}

#[test]
fn trailing_blank_token_is_dropped() {
    assert_eq!(Transformer::parse_values("a, "), vec!["a"]);
}
