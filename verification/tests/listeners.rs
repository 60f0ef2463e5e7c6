use rustit::event_types::{SWITCH_EVENT_ALL, SWITCH_EVENT_CUSTOM, SWITCH_EVENT_HEARTBEAT};
use rustit::listener::{
    auth_token_exec, check_auth, event_passes, in_use_text, jsapi_json_format, plan_command,
    plan_reload_mod, plan_unload_mod, reply_from, to_hex_lower, topic_from_request,
    topics_from_request, CommandPlan, Profile, Topic, DEFAULT_LISTEN_PORT, JSAPI_LISTEN_PORT,
};

fn topic(id: u32, sub: &str) -> Topic {
    Topic { id, subclass_name: sub.to_string() }
}

#[test]
fn profiles_start_from_defaults() {
    let p = Profile::new();
    assert_eq!(p.listen_ip, "0.0.0.0");
    assert_eq!(p.listen_port, DEFAULT_LISTEN_PORT);
    assert_eq!(p.password, "");
    assert!(!p.enable);
    assert_eq!(p.bind_address(), "0.0.0.0:8202");
    let j = Profile::new_jsapi();
    assert_eq!(j.listen_port, JSAPI_LISTEN_PORT);
    assert_eq!(j.bind_address(), "0.0.0.0:8203");
}

#[test]
fn profile_parameters() {
    let mut p = Profile::new();
    p.apply_param("Listen-IP", "127.0.0.1");
    p.apply_param("listen-port", "9000");
    p.apply_param("PASSWORD", "secret");
    p.apply_param("apply-inbound-acl", "lan");
    p.apply_param("enable", "yes");
    p.apply_param("unknown", "whatever");
    assert_eq!(p.listen_ip, "127.0.0.1");
    assert_eq!(p.listen_port, 9000);
    assert_eq!(p.password, "secret");
    assert_eq!(p.apply_inbound_acl, "lan");
    assert!(p.enable);
    assert_eq!(p.bind_address(), "127.0.0.1:9000");
    p.apply_param("listen-port", "99999");
    assert_eq!(p.listen_port, DEFAULT_LISTEN_PORT);
    p.apply_param("listen-port", "0");
    assert_eq!(p.bind_address(), "127.0.0.1:0");
    p.apply_param("enable", "0");
    assert!(!p.enable);
}

#[test]
fn replies_carry_status_codes() {
    let ok = reply_from(Ok("+OK".to_string()));
    assert_eq!((ok.code, ok.message.as_str()), (200, "+OK"));
    let err = reply_from(Err("-ERR no".to_string()));
    assert_eq!((err.code, err.message.as_str()), (500, "-ERR no"));
}

#[test]
fn commands_on_the_module_itself() {
    match plan_command("reload", "mod_rustit", "mod_rustit", true) {
        CommandPlan::Execute { cmd, args, json_format } => {
            assert_eq!(cmd, "bgapi");
            assert_eq!(args, "reload mod_rustit");
            assert!(!json_format);
        }
        _ => panic!("reload must run in the background"),
    }
    match plan_command("unload", "mod_rustit", "mod_rustit", true) {
        CommandPlan::Reject { code, message } => {
            assert_eq!(code, 501);
            assert_eq!(message, "-ERR Module mod_rustit is in use, cannot unload");
        }
        _ => panic!("unloading the module itself is refused"),
    }
    match plan_command("status", "json", "mod_rustit", false) {
        CommandPlan::Execute { cmd, args, json_format } => {
            assert_eq!((cmd.as_str(), args.as_str()), ("status", "json"));
            assert!(json_format);
        }
        _ => panic!("other commands run"),
    }
    assert_eq!(in_use_text("mod_zrs", false), "Module mod_zrs is in use, cannot unload");
}

#[test]
fn module_reload_and_unload() {
    assert_eq!(
        plan_reload_mod("mod_rustit", "mod_rustit"),
        ("bgapi".to_string(), "reload mod_rustit".to_string())
    );
    assert_eq!(plan_reload_mod("mod_sofia", "mod_rustit"), ("reload".to_string(), "mod_sofia".to_string()));
    match plan_unload_mod("mod_sofia", "mod_rustit") {
        CommandPlan::Execute { cmd, args, json_format } => {
            assert_eq!((cmd.as_str(), args.as_str(), json_format), ("unload", "mod_sofia", false));
        }
        _ => panic!("other modules unload"),
    }
    assert!(matches!(plan_unload_mod("mod_rustit", "mod_rustit"), CommandPlan::Reject { code: 501, .. }));
}

#[test]
fn jsapi_json_format_needs_fsapi_and_json() {
    assert!(jsapi_json_format("FSAPI", "{\"format\":\"json\"}"));
    assert!(!jsapi_json_format("fsapi", "{}"));
    assert!(!jsapi_json_format("api", "json"));
}

#[test]
fn subscription_topics() {
    let t = topic_from_request("switch_event_heartbeat", "").unwrap();
    assert_eq!(t.id, SWITCH_EVENT_HEARTBEAT);
    let all = topic_from_request("Switch_Event_All", "").unwrap();
    assert_eq!(all.id, SWITCH_EVENT_ALL);
    assert!(topic_from_request("no_such_event", "").is_none());
    let req = vec![
        ("SWITCH_EVENT_CUSTOM".to_string(), "sofia::register".to_string()),
        ("bogus".to_string(), "".to_string()),
        ("switch_event_channel_answer".to_string(), "".to_string()),
    ];
    let ts = topics_from_request(&req);
    assert_eq!(ts.len(), 2);
    assert_eq!((ts[0].id, ts[0].subclass_name.as_str()), (SWITCH_EVENT_CUSTOM, "sofia::register"));
    assert_eq!(ts[1].id, 6);
}

#[test]
fn event_filtering() {
    let all = vec![topic(SWITCH_EVENT_ALL, "")];
    assert!(event_passes(&all, SWITCH_EVENT_HEARTBEAT, ""));
    assert!(event_passes(&all, SWITCH_EVENT_CUSTOM, "x::y"));
    let none: Vec<Topic> = vec![];
    assert!(!event_passes(&none, SWITCH_EVENT_HEARTBEAT, ""));
    let custom = vec![topic(SWITCH_EVENT_CUSTOM, "sofia::register")];
    assert!(event_passes(&custom, SWITCH_EVENT_CUSTOM, "sofia::register"));
    // a custom topic matches every custom event by its number as well
    assert!(event_passes(&custom, SWITCH_EVENT_CUSTOM, "sofia::expire"));
    // and any event that carries its subclass
    assert!(event_passes(&custom, SWITCH_EVENT_HEARTBEAT, "sofia::register"));
    assert!(!event_passes(&custom, SWITCH_EVENT_HEARTBEAT, "sofia::expire"));
    let hb = vec![topic(SWITCH_EVENT_HEARTBEAT, "")];
    assert!(event_passes(&hb, SWITCH_EVENT_HEARTBEAT, "anything"));
    assert!(!event_passes(&hb, 8, ""));
}

#[test]
fn hex_and_auth_tokens() {
    let h: String = to_hex_lower(&[0x00, 0x0f, 0xa5, 0xff]).iter().collect();
    assert_eq!(h, "000fa5ff");
    let t: String = auth_token_exec("password").iter().collect();
    assert_eq!(t, "bearer 5f4dcc3b5aa765d61d8327deb882cf99");
    let e: String = auth_token_exec("").iter().collect();
    assert_eq!(e, "bearer d41d8cd98f00b204e9800998ecf8427e");
}

#[test]
fn authorisation() {
    assert_eq!(check_auth(true, None, "pw"), Ok(()));
    assert_eq!(check_auth(false, Some("bearer 5f4dcc3b5aa765d61d8327deb882cf99"), "password"), Ok(()));
    assert_eq!(check_auth(false, Some("BEARER 5F4DCC3B5AA765D61D8327DEB882CF99"), "password"), Ok(()));
    assert_eq!(
        check_auth(false, Some("bearer 00"), "password"),
        Err("authentication failure wrong password".to_string())
    );
    assert_eq!(check_auth(false, None, "password"), Err("No valid auth token".to_string()));
}
