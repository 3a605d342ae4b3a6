use reason::tokenize::tokenize;

fn seg(tokens: &[&str]) -> Vec<String> {
    tokens.iter().map(|t| t.to_string()).collect()
}

#[test]
fn splits_on_whitespace() {
    assert_eq!(tokenize("ls shadowtutor"), vec![seg(&["ls", "shadowtutor"])]);
}

#[test]
fn quoted_space_is_preserved() {
    assert_eq!(tokenize("ls 'shadow tutor'"), vec![seg(&["ls", "shadow tutor"])]);
}

#[test]
fn unquoted_pipe_splits_segments() {
    assert_eq!(
        tokenize("ls shadow|tutor"),
        vec![seg(&["ls", "shadow"]), seg(&["tutor"])]
    );
}

#[test]
fn quoted_pipe_is_preserved() {
    assert_eq!(tokenize("ls 'shadow|tutor'"), vec![seg(&["ls", "shadow|tutor"])]);
}

#[test]
fn whitespace_runs_make_one_boundary() {
    assert_eq!(tokenize("a  \t  b   c"), vec![seg(&["a", "b", "c"])]);
}

#[test]
fn empty_line_yields_placeholder() {
    assert_eq!(tokenize(""), vec![seg(&[""])]);
}

#[test]
fn whitespace_only_line_yields_placeholder() {
    assert_eq!(tokenize("  \t  "), vec![seg(&[""])]);
}

#[test]
fn leading_whitespace_is_dropped() {
    assert_eq!(tokenize("  ls"), vec![seg(&["ls"])]);
}

#[test]
fn trailing_whitespace_makes_no_empty_token() {
    assert_eq!(tokenize("ls  "), vec![seg(&["ls"])]);
}

#[test]
fn escaped_quote_is_literal() {
    assert_eq!(tokenize("ls \\'x\\'"), vec![seg(&["ls", "'x'"])]);
}

#[test]
fn backslash_alone_is_literal() {
    assert_eq!(tokenize("a\\b"), vec![seg(&["a\\b"])]);
}

#[test]
fn unterminated_quote_closes_at_end() {
    assert_eq!(tokenize("ls 'shadow tutor"), vec![seg(&["ls", "shadow tutor"])]);
}

#[test]
fn unterminated_quote_swallows_pipe() {
    assert_eq!(tokenize("ls 'a|b"), vec![seg(&["ls", "a|b"])]);
}

#[test]
fn leading_pipe_yields_blank_first_segment() {
    assert_eq!(tokenize("|ls"), vec![seg(&[""]), seg(&["ls"])]);
}

#[test]
fn trailing_pipe_yields_blank_last_segment() {
    assert_eq!(tokenize("ls|"), vec![seg(&["ls"]), seg(&[""])]);
}

#[test]
fn double_pipe_yields_blank_interior_segment() {
    assert_eq!(tokenize("a||b"), vec![seg(&["a"]), seg(&[""]), seg(&["b"])]);
}

#[test]
fn pipe_with_spaces_keeps_segments_clean() {
    assert_eq!(tokenize("ls shadow | tutor x"), vec![seg(&["ls", "shadow"]), seg(&["tutor", "x"])]);
}

#[test]
fn quotes_touching_text_join_one_token() {
    assert_eq!(tokenize("ab'cd ef'gh"), vec![seg(&["abcd efgh"])]);
}
