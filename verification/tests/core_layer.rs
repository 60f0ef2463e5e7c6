use rustit::event_types::{
    switch_event_types_t, EventTypes, EVENT_TYPE_COUNT, SWITCH_EVENT_ALL,
    SWITCH_EVENT_CUSTOM, SWITCH_EVENT_HEARTBEAT,
};
use rustit::sys::{
    api_exec_result, check_json_command, event_subclass, headers_insert, json_parse_error_text,
    sendevent_result, sendmsg_result, switch_true, EventHeader, ModInterface, Module, Session,
    Stream,
};
use rustit::text::{parse_i32, parse_u16, parse_u64, str_to_chars, u64_to_decimal};

fn chars(s: &str) -> Vec<char> {
    s.chars().collect()
}

#[test]
fn switch_true_accepts_true_words_in_any_case() {
    for w in ["yes", "YES", "On", "true", "T", "enabled", "ACTIVE", "allow"] {
        assert!(switch_true(w), "{}", w);
    }
}

#[test]
fn switch_true_accepts_positive_integers_only() {
    assert!(switch_true("1"));
    assert!(switch_true("+7"));
    assert!(switch_true("2147483647"));
    assert!(!switch_true("0"));
    assert!(!switch_true("-1"));
    assert!(!switch_true("2147483648"));
    assert!(!switch_true(""));
    assert!(!switch_true("no"));
    assert!(!switch_true("off"));
    assert!(!switch_true(" yes"));
    assert!(!switch_true("1.5"));
}

#[test]
fn parsing_follows_str_parse() {
    assert_eq!(parse_i32(&chars("-2147483648")), Some(i32::MIN));
    assert_eq!(parse_i32(&chars("+12")), Some(12));
    assert_eq!(parse_i32(&chars("-")), None);
    assert_eq!(parse_i32(&chars("+")), None);
    assert_eq!(parse_i32(&chars("1a")), None);
    assert_eq!(parse_u16(&chars("8202")), Some(8202));
    assert_eq!(parse_u16(&chars("65536")), None);
    assert_eq!(parse_u16(&chars("-1")), None);
    assert_eq!(parse_u16(&chars("+80")), Some(80));
    assert_eq!(parse_u64(&chars("18446744073709551615")), Some(u64::MAX));
    assert_eq!(parse_u64(&chars("18446744073709551616")), None);
    assert_eq!(parse_u64(&chars("")), None);
}

#[test]
fn decimal_writing_reads_back() {
    for n in [0u64, 7, 10, 8203, 65535, u64::MAX] {
        let d = u64_to_decimal(n);
        let s: String = d.iter().collect();
        assert_eq!(s, n.to_string());
        assert_eq!(parse_u64(&d), Some(n));
    }
    assert_eq!(str_to_chars("héllo"), chars("héllo"));
}

#[test]
fn ports_written_in_decimal_read_back() {
    for port in [0u16, 1, 80, 8202, 8203, 65535] {
        assert_eq!(parse_u16(&u64_to_decimal(port as u64)), Some(port));
    }
}

#[test]
fn event_type_names_round_trip() {
    for i in 0..EVENT_TYPE_COUNT {
        let e = EventTypes::from_u32(i).unwrap();
        assert_eq!(e.as_u32(), i);
        let name = e.as_str_name();
        assert_eq!(EventTypes::from_str_name(name), Some(e));
    }
    assert_eq!(EventTypes::from_u32(EVENT_TYPE_COUNT), None);
}

#[test]
fn event_type_known_names() {
    assert_eq!(EventTypes::from_u32(0).unwrap().as_str_name(), "SWITCH_EVENT_CUSTOM");
    assert_eq!(
        EventTypes::from_str_name("SWITCH_EVENT_HEARTBEAT").unwrap().as_u32(),
        SWITCH_EVENT_HEARTBEAT
    );
    assert_eq!(EventTypes::from_str_name("SWITCH_EVENT_ALL").unwrap().as_u32(), SWITCH_EVENT_ALL);
    assert_eq!(EventTypes::from_str_name("SWITCH_EVENT_CHANNEL_CREATE").unwrap().as_u32(), 2);
    assert_eq!(EventTypes::from_str_name("switch_event_heartbeat"), None);
    assert_eq!(EventTypes::from_str_name("HEARTBEAT"), None);
    assert_eq!(EventTypes::from_str_name("NOPE"), None);
    assert_eq!(EventTypes::from_str_name(""), None);
}

#[test]
fn switch_event_names_round_trip() {
    for i in 0..=SWITCH_EVENT_ALL {
        let name = switch_event_types_t(i).event_id_str_name();
        assert_eq!(switch_event_types_t::from_str(name), Some(switch_event_types_t(i)));
    }
    assert_eq!(switch_event_types_t(SWITCH_EVENT_CUSTOM).event_id_str_name(), "SWITCH_EVENT_CUSTOM");
    assert_eq!(switch_event_types_t(2).event_id_str_name(), "SWITCH_EVENT_CHANNEL_CREATE");
    assert_eq!(switch_event_types_t(37).event_id_str_name(), "SWITCH_EVENT_MESSAGE");
    assert_eq!(switch_event_types_t(SWITCH_EVENT_HEARTBEAT).event_id_str_name(), "SWITCH_EVENT_HEARTBEAT");
    assert_eq!(switch_event_types_t(SWITCH_EVENT_ALL).event_id_str_name(), "SWITCH_EVENT_ALL");
    assert_eq!(switch_event_types_t(SWITCH_EVENT_ALL + 1).event_id_str_name(), "SWITCH_EVENT_NONE");
    assert_eq!(switch_event_types_t(100000).event_id_str_name(), "SWITCH_EVENT_NONE");
    assert_eq!(switch_event_types_t::from_str("SWITCH_EVENT_NONE"), None);
    assert_eq!(switch_event_types_t::from_str("CUSTOM"), None);
    assert_eq!(
        switch_event_types_t::from_str("SWITCH_EVENT_HEARTBEAT"),
        Some(switch_event_types_t(SWITCH_EVENT_HEARTBEAT))
    );
    assert_eq!(
        switch_event_types_t::from_str("SWITCH_EVENT_ALL"),
        Some(switch_event_types_t(SWITCH_EVENT_ALL))
    );
}

#[test]
fn handles_keep_their_address() {
    let s = Session::from_ptr(0x1000);
    assert_eq!(s.as_ptr(), 0x1000);
    let mut s = s;
    assert_eq!(s.as_mut_ptr(), 0x1000);
    let mut st = Stream::from_ptr(42);
    assert_eq!(st.as_ptr(), 42);
    assert_eq!(st.as_mut_ptr(), 42);
    let mut m = Module::from_ptr(7, 9);
    assert_eq!(m.as_ptr(), 7);
    assert_eq!(m.as_mut_ptr(), 7);
    assert_eq!(m.pool(), 9);
    let mut h = EventHeader::from_ptr(11);
    assert_eq!(h.as_ptr(), 11);
    assert_eq!(h.as_mut_ptr(), 11);
    let mut i = ModInterface::from_ptr(13);
    assert_eq!(i.as_ptr(), 13);
    assert_eq!(i.as_mut_ptr(), 13);
}

#[test]
fn api_exec_results() {
    assert_eq!(api_exec_result("status", true, "UP".to_string()), Ok("UP".to_string()));
    assert_eq!(
        api_exec_result("bogus", false, String::new()),
        Err("-ERR %s Command not found!bogus\n".to_string())
    );
}

#[test]
fn json_commands_must_be_objects() {
    assert_eq!(check_json_command("{\"command\":\"status\"}"), Ok(()));
    let err = json_parse_error_text();
    assert_eq!(err, "{\"status\":\"error\",\"message\":\"Parse command error\",\"response\":null}");
    assert_eq!(check_json_command("status"), Err(err.clone()));
    assert_eq!(check_json_command("{"), Err(err.clone()));
    assert_eq!(check_json_command(""), Err(err));
    assert_eq!(check_json_command("{}"), Ok(()));
}

#[test]
fn events_get_a_subclass_only_when_custom() {
    assert_eq!(event_subclass(SWITCH_EVENT_CUSTOM, "my::event"), Some("my::event".to_string()));
    assert_eq!(event_subclass(SWITCH_EVENT_CUSTOM, ""), None);
    assert_eq!(event_subclass(SWITCH_EVENT_HEARTBEAT, "my::event"), None);
}

#[test]
fn sendevent_and_sendmsg_answers() {
    assert_eq!(sendevent_result(true), Ok("+OK".to_string()));
    assert_eq!(sendevent_result(false), Err("-ERR create event error".to_string()));
    assert_eq!(sendmsg_result("", true, true, true), Err("-ERR invalid session id".to_string()));
    assert_eq!(sendmsg_result("abc", false, true, true), Err("create event error".to_string()));
    assert_eq!(
        sendmsg_result("abc", true, false, true),
        Err("-ERR invalid session id [abc]".to_string())
    );
    assert_eq!(sendmsg_result("abc", true, true, false), Err("-ERR memory error".to_string()));
    assert_eq!(sendmsg_result("abc", true, true, true), Ok("+OK".to_string()));
}

#[test]
fn headers_behave_as_a_map() {
    let mut h: Vec<(String, String)> = Vec::new();
    headers_insert(&mut h, "A".to_string(), "1".to_string());
    headers_insert(&mut h, "B".to_string(), "2".to_string());
    headers_insert(&mut h, "A".to_string(), "3".to_string());
    assert_eq!(h.len(), 2);
    let a: Vec<&(String, String)> = h.iter().filter(|p| p.0 == "A").collect();
    assert_eq!(a.len(), 1);
    assert_eq!(a[0].1, "3");
    let b: Vec<&(String, String)> = h.iter().filter(|p| p.0 == "B").collect();
    assert_eq!(b[0].1, "2");
}
