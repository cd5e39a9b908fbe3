use gdfs::parse_fuse_args;

#[test]
fn single_token_passes_through() {
    let raw = vec!["allow_other".to_string()];
    let toks = parse_fuse_args(&raw);
    assert_eq!(toks, vec!["allow_other".to_string()]);
}

#[test]
fn key_value_splits_in_order() {
    let raw = vec!["uid 1000".to_string()];
    let toks = parse_fuse_args(&raw);
    assert_eq!(toks, vec!["uid".to_string(), "1000".to_string()]);
}

#[test]
fn empty_list_yields_no_tokens() {
    let raw: Vec<String> = Vec::new();
    let toks = parse_fuse_args(&raw);
    assert!(toks.is_empty());
}

#[test]
fn tokens_keep_input_order() {
    let raw = vec!["uid 1000".to_string(), "allow_other".to_string()];
    let toks = parse_fuse_args(&raw);
    assert_eq!(
        toks,
        vec!["uid".to_string(), "1000".to_string(), "allow_other".to_string()]
    );
}

#[test]
fn split_stops_after_first_whitespace_run() {
    let raw = vec!["key value with spaces".to_string()];
    let toks = parse_fuse_args(&raw);
    assert_eq!(toks, vec!["key".to_string(), "value with spaces".to_string()]);
}

#[test]
fn tab_separates_key_from_value() {
    let raw = vec!["uid\t1000".to_string()];
    let toks = parse_fuse_args(&raw);
    assert_eq!(toks, vec!["uid".to_string(), "1000".to_string()]);
}

#[test]
fn whitespace_run_counts_as_one_separator() {
    let raw = vec!["uid   1000".to_string()];
    let toks = parse_fuse_args(&raw);
    assert_eq!(toks, vec!["uid".to_string(), "1000".to_string()]);
}

#[test]
fn trailing_whitespace_leaves_empty_value() {
    let raw = vec!["uid ".to_string()];
    let toks = parse_fuse_args(&raw);
    assert_eq!(toks, vec!["uid".to_string(), "".to_string()]);
}

#[test]
fn leading_whitespace_leaves_empty_key() {
    let raw = vec![" uid".to_string()];
    let toks = parse_fuse_args(&raw);
    assert_eq!(toks, vec!["".to_string(), "uid".to_string()]);
}
