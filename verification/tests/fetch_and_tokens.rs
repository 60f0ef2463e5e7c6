use rustit::token::{new_token, subject_of, verify};
use rustit::xml_fetch::{
    fetch_answer, not_found_text, Binding, Global, DEFAULT_TIMEOUT_MS, MAX_TIMEOUT_MS,
    MIN_TIMEOUT_MS,
};

#[test]
fn binding_parameters() {
    let mut b = Binding::new();
    b.set_name("example");
    b.apply_param("gateway-url", "http://cfg.example.com/xml", "directory|dialplan");
    assert_eq!(b.name, "example");
    assert_eq!(b.url, "http://cfg.example.com/xml");
    assert_eq!(b.bindings, "directory|dialplan");
    b.apply_param("timeout", "10", "");
    assert_eq!(b.timeout, MIN_TIMEOUT_MS);
    b.apply_param("TIMEOUT", "120000", "");
    assert_eq!(b.timeout, MAX_TIMEOUT_MS);
    b.apply_param("timeout", "soon", "");
    assert_eq!(b.timeout, DEFAULT_TIMEOUT_MS);
    b.apply_param("timeout", "2500", "");
    assert_eq!(b.timeout, 2500);
    b.apply_param("debug", "true", "");
    assert!(b.debug);
    assert!(b.is_usable());
    b.apply_param("gateway-url", "file:///etc", "");
    assert!(!b.is_usable());
}

#[test]
fn running_state() {
    let mut g = Global::new();
    assert!(!g.start(5));
    assert!(!g.running);
    assert_eq!(g.shutdown(), None);
    let mut b = Binding::new();
    b.apply_param("gateway-url", "https://x", "configuration");
    g.bindings = Some(b);
    assert!(g.start(17));
    assert!(g.running);
    assert_eq!(g.bind_node, 17);
    assert_eq!(g.shutdown(), Some(17));
    assert!(!g.running);
}

#[test]
fn answers_to_the_core() {
    assert_eq!(fetch_answer(true, true, Some(b"<document/>".to_vec())), Some(b"<document/>".to_vec()));
    assert_eq!(fetch_answer(false, true, Some(b"<document/>".to_vec())), None);
    assert_eq!(fetch_answer(true, false, Some(b"<document/>".to_vec())), None);
    assert_eq!(fetch_answer(true, true, Some(vec![])), None);
    assert_eq!(fetch_answer(true, true, None), None);
    let nf = not_found_text();
    assert!(nf.starts_with("<?xml version=\"1.0\" encoding=\"UTF-8\" standalone=\"no\"?>\n"));
    assert!(nf.contains("<result status=\"not found\"/>"));
    assert!(nf.ends_with("</document>"));
}

#[test]
fn tokens_round_trip() {
    let t = new_token("secret".to_string(), "call-uuid-1".to_string()).unwrap();
    assert_eq!(t.split('.').count(), 3);
    assert_eq!(verify("secret", &t), Ok("call-uuid-1".to_string()));
    let u = new_token("".to_string(), "ünïcode".to_string()).unwrap();
    assert_eq!(verify("", &u), Ok("ünïcode".to_string()));
}

#[test]
fn tokens_are_deterministic_and_keyed() {
    let a = new_token("k".to_string(), "u".to_string()).unwrap();
    let b = new_token("k".to_string(), "u".to_string()).unwrap();
    assert_eq!(a, b);
    let c = new_token("other".to_string(), "u".to_string()).unwrap();
    assert_ne!(a, c);
    assert_eq!(verify("other", &a), Err("Parse failed"));
}

#[test]
fn malformed_tokens_fail_to_parse() {
    assert_eq!(verify("secret", ""), Err("Parse failed"));
    assert_eq!(verify("secret", "a.b.c"), Err("Parse failed"));
    let t = new_token("secret".to_string(), "x".to_string()).unwrap();
    let mut tampered = t.clone();
    tampered.push('A');
    assert_eq!(verify("secret", &tampered), Err("Parse failed"));
}

#[test]
fn reading_outcomes() {
    assert_eq!(subject_of(None), Err("Parse failed"));
    assert_eq!(subject_of(Some(None)), Err("Missing subject"));
    assert_eq!(subject_of(Some(Some("abc".to_string()))), Ok("abc".to_string()));
}
