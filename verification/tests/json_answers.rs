use rustit::cache::cache_key;
use rustit::json::{
    command_answer, command_reply, find_field, jsapi_answer, jsapi_reply, response_message, with_response_exec,
    JsonValue,
};

fn s(t: &str) -> String {
    t.to_string()
}

fn obj(fields: Vec<(&str, JsonValue)>) -> JsonValue {
    JsonValue::Object(fields.into_iter().map(|(k, v)| (s(k), v)).collect())
}

#[test]
fn command_output_is_wrapped_when_json_is_asked_for() {
    let a = command_answer(true, Ok(s("{\"a\":1}")));
    assert_eq!((a.code, a.message.as_str()), (200, "OK"));
    assert_eq!(
        a.data,
        Some(obj(vec![
            ("response", obj(vec![("a", JsonValue::Number(s("1")))])),
            ("status", JsonValue::Str(s("success"))),
        ]))
    );
    let b = command_answer(true, Ok(s("+OK done")));
    assert_eq!((b.code, b.message.as_str()), (200, "+OK done"));
    assert_eq!(b.data, None);
    let c = command_answer(false, Ok(s("[1,2]")));
    assert_eq!((c.code, c.message.as_str()), (200, "[1,2]"));
    assert_eq!(c.data, None);
    let d = command_answer(true, Err(s("-ERR no")));
    assert_eq!((d.code, d.message.as_str()), (500, "-ERR no"));
    assert_eq!(d.data, None);
}

#[test]
fn command_reply_from_given_values() {
    let r = command_reply(true, Some(JsonValue::Bool(true)), s("true"));
    assert_eq!(r.message, "OK");
    assert_eq!(r.data, Some(obj(vec![("response", JsonValue::Bool(true)), ("status", JsonValue::Str(s("success")))])));
    let r = command_reply(true, None, s("text"));
    assert_eq!((r.message.as_str(), r.data), ("text", None));
}

#[test]
fn jsapi_replaces_the_response_with_the_json_message() {
    let reply = "{\"command\":\"fsapi\",\"response\":{\"message\":\"{\\\"x\\\":true}\"},\"status\":\"success\"}";
    let a = jsapi_answer(true, Ok(s(reply)));
    assert_eq!((a.code, a.message.as_str()), (200, "OK"));
    assert_eq!(
        a.data,
        Some(obj(vec![
            ("command", JsonValue::Str(s("fsapi"))),
            ("response", obj(vec![("x", JsonValue::Bool(true))])),
            ("status", JsonValue::Str(s("success"))),
        ]))
    );
    let b = jsapi_answer(false, Ok(s(reply)));
    assert_eq!(
        b.data,
        Some(obj(vec![
            ("command", JsonValue::Str(s("fsapi"))),
            ("response", obj(vec![("message", JsonValue::Str(s("{\"x\":true}")))])),
            ("status", JsonValue::Str(s("success"))),
        ]))
    );
}

#[test]
fn jsapi_keeps_a_message_that_is_not_json() {
    let reply = "{\"response\":{\"message\":\"+OK plain\"}}";
    let a = jsapi_answer(true, Ok(s(reply)));
    assert_eq!(a.data, Some(obj(vec![("response", obj(vec![("message", JsonValue::Str(s("+OK plain")))]))])));
    let n = jsapi_answer(true, Ok(s("{\"response\":{\"message\":7}}")));
    assert_eq!(n.data, Some(obj(vec![("response", obj(vec![]))])));
}

#[test]
fn jsapi_text_and_errors() {
    let a = jsapi_answer(true, Ok(s("not json")));
    assert_eq!((a.code, a.message.as_str(), a.data), (200, "not json", None));
    let e = jsapi_answer(true, Err(s("{\"status\":\"error\"}")));
    assert_eq!((e.code, e.message.as_str(), e.data), (500, "{\"status\":\"error\"}", None));
    let r = jsapi_reply(true, Some(JsonValue::Null), Some(JsonValue::Bool(true)), s("null"));
    assert_eq!((r.message.as_str(), r.data), ("OK", Some(JsonValue::Null)));
}

#[test]
fn response_messages() {
    let v = obj(vec![("response", obj(vec![("message", JsonValue::Str(s("hi")))]))]);
    assert_eq!(response_message(&v), Some(s("hi")));
    let w = obj(vec![("response", obj(vec![("message", JsonValue::Bool(false))]))]);
    assert_eq!(response_message(&w), Some(s("{}")));
    assert_eq!(response_message(&obj(vec![("response", JsonValue::Str(s("x")))])), None);
    assert_eq!(response_message(&JsonValue::Array(vec![])), None);
    let fields = vec![(s("a"), JsonValue::Null), (s("b"), JsonValue::Null), (s("a"), JsonValue::Bool(true))];
    assert_eq!(find_field(&fields, "a"), Some(0));
    assert_eq!(find_field(&fields, "b"), Some(1));
    assert_eq!(find_field(&fields, "c"), None);
    let replaced = with_response_exec(obj(vec![("k", JsonValue::Null), ("response", JsonValue::Null)]), JsonValue::Bool(true));
    assert_eq!(replaced, obj(vec![("k", JsonValue::Null), ("response", JsonValue::Bool(true))]));
}

#[test]
fn cache_keys_drop_the_fragment() {
    assert_eq!(cache_key("http://h.example/a/b.wav#part"), Some(s("http://h.example/a/b.wav")));
    assert_eq!(cache_key("http://h.example/a.wav?x=1"), Some(s("http://h.example/a.wav?x=1")));
    assert_eq!(cache_key("HTTP://H.EXAMPLE"), Some(s("http://h.example/")));
    assert_eq!(cache_key("not a url"), None);
    assert_eq!(cache_key("/relative/path.wav"), None);
}
