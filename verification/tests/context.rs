use proplate::context::Context;

#[test]
fn a_new_context_binds_nothing() {
    let ctx = Context::new();
    assert_eq!(ctx.len(), 0);
    assert!(!ctx.contains_key("name"));
    assert_eq!(ctx.get("name"), None);
}

#[test]
fn a_context_gives_back_what_was_bound() {
    let mut ctx = Context::new();
    ctx.insert("name".to_string(), "demo".to_string());
    ctx.insert("ver".to_string(), "1.0.0".to_string());
    assert_eq!(ctx.len(), 2);
    assert!(ctx.contains_key("name"));
    assert_eq!(ctx.get("name").map(|s| s.as_str()), Some("demo"));
    assert_eq!(ctx.get("ver").map(|s| s.as_str()), Some("1.0.0"));
    assert_eq!(ctx.get("other"), None);
}

#[test]
fn a_later_binding_replaces_an_earlier_one() {
    let mut ctx = Context::new();
    ctx.insert("name".to_string(), "old".to_string());
    ctx.insert("name".to_string(), "new".to_string());
    assert_eq!(ctx.len(), 1);
    assert_eq!(ctx.get("name").map(|s| s.as_str()), Some("new"));
}
