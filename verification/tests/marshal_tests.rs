use gdfs::prep_fuseargs;

#[test]
fn marshalling_preserves_order_and_content() {
    let items = vec![
        "uid".to_string(),
        "1000".to_string(),
        "allow_other".to_string(),
    ];
    let args = prep_fuseargs(&items);
    assert_eq!(args.len(), items.len());
    for (view, item) in args.iter().zip(items.iter()) {
        assert_eq!(*view, item.as_str());
    }
}

#[test]
fn marshalling_nothing_yields_nothing() {
    let items: Vec<String> = Vec::new();
    let args = prep_fuseargs(&items);
    assert!(args.is_empty());
}

#[test]
fn marshalling_keeps_bytes_exactly() {
    let items = vec!["uid 1000".to_string(), "".to_string()];
    let args = prep_fuseargs(&items);
    assert_eq!(args[0].as_bytes(), items[0].as_bytes());
    assert_eq!(args[1].as_bytes(), items[1].as_bytes());
}
