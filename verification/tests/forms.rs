use frontend::forms::{login_outcome, LoginData, RegisterData, SubmitGuard};

#[test]
fn login_inputs_fill_their_fields() {
    let mut d = LoginData::new();
    d.apply_input("username", "ann".to_string());
    d.apply_input("email", "a@x.org".to_string());
    d.apply_input("password", "pw".to_string());
    d.apply_input("other", "ignored".to_string());
    assert_eq!(d.username, "ann");
    assert_eq!(d.email, "a@x.org");
    assert_eq!(d.password, "pw");
}

#[test]
fn register_inputs_fill_their_fields() {
    let mut d = RegisterData::new();
    d.apply_input("password1", "one".to_string());
    d.apply_input("password2", "two".to_string());
    d.apply_input("password", "ignored".to_string());
    d.apply_input("username", "bob".to_string());
    assert_eq!(d.password1, "one");
    assert_eq!(d.password2, "two");
    assert_eq!(d.username, "bob");
    assert_eq!(d.email, "");
}

#[test]
fn submit_guard_blocks_second_submission() {
    let mut g = SubmitGuard::new();
    assert!(g.try_begin());
    assert!(!g.try_begin());
    assert!(g.loading);
    g.finish();
    assert!(!g.loading);
    assert!(g.try_begin());
}

#[test]
fn login_reply_with_tokens() {
    let o = login_outcome(Some(r#"{"tokens":{"access":"a1","refresh":"r1"}}"#));
    assert_eq!(o.store_access.as_deref(), Some("a1"));
    assert_eq!(o.store_refresh.as_deref(), Some("r1"));
    assert!(o.open_notes);
}

#[test]
fn login_reply_without_tokens_still_opens_notes() {
    let o = login_outcome(Some(r#"{"detail":"bad credentials"}"#));
    assert_eq!(o.store_access, None);
    assert_eq!(o.store_refresh, None);
    assert!(o.open_notes);
    let o = login_outcome(Some(r#"{"tokens":{"access":5}}"#));
    assert_eq!(o.store_access, None);
    assert!(o.open_notes);
}

#[test]
fn login_reply_not_json_changes_nothing() {
    let o = login_outcome(Some("<html>"));
    assert_eq!(o.store_access, None);
    assert!(!o.open_notes);
    let o = login_outcome(None);
    assert!(!o.open_notes);
}
