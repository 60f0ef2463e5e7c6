//! JSON values as plain data, and how the API front ends shape their answers
//! from the JSON the core sends back.
use crate::text::{chars_eq_str, str_to_chars};
use vstd::prelude::*;
use vstd::string::StringExecFns;

verus! {

broadcast use vstd::string::group_string_axioms;

/// A JSON value: numbers keep their text, objects their fields in order.
#[derive(Debug, PartialEq)]
pub enum JsonValue {
    Null,
    Bool(bool),
    Number(String),
    Str(String),
    Array(Vec<JsonValue>),
    Object(Vec<(String, JsonValue)>),
}

/// A JSON value as mathematical data.
pub enum JsonModel {
    Null,
    Bool(bool),
    Number(Seq<char>),
    Str(Seq<char>),
    Array(Seq<JsonModel>),
    Object(Seq<(Seq<char>, JsonModel)>),
}

/// The mathematical value of a JSON value.
pub open spec fn json_view(v: JsonValue) -> JsonModel
    decreases v,
{
    match v {
        JsonValue::Null => JsonModel::Null,
        JsonValue::Bool(b) => JsonModel::Bool(b),
        JsonValue::Number(n) => JsonModel::Number(n@),
        JsonValue::Str(s) => JsonModel::Str(s@),
        JsonValue::Array(items) => JsonModel::Array(
            Seq::new(
                items@.len(),
                |i: int|
                    if 0 <= i < items@.len() {
                        json_view(items@[i])
                    } else {
                        JsonModel::Null
                    },
            ),
        ),
        JsonValue::Object(fields) => JsonModel::Object(
            Seq::new(
                fields@.len(),
                |i: int|
                    if 0 <= i < fields@.len() {
                        (fields@[i].0@, json_view(fields@[i].1))
                    } else {
                        (Seq::empty(), JsonModel::Null)
                    },
            ),
        ),
    }
}

impl View for JsonValue {
    type V = JsonModel;

    open spec fn view(&self) -> JsonModel {
        json_view(*self)
    }
}

/// The fields of an object as mathematical data.
pub open spec fn fields_view(fs: Seq<(String, JsonValue)>) -> Seq<(Seq<char>, JsonModel)> {
    Seq::new(
        fs.len(),
        |i: int|
            if 0 <= i < fs.len() {
                (fs[i].0@, json_view(fs[i].1))
            } else {
                (Seq::empty(), JsonModel::Null)
            },
    )
}

/// An object's value is made of its fields' values.
pub proof fn lemma_object_view(fs: Vec<(String, JsonValue)>)
    ensures
        json_view(JsonValue::Object(fs)) == JsonModel::Object(fields_view(fs@)),
{
    match json_view(JsonValue::Object(fs)) {
        JsonModel::Object(m) => {
            assert(m =~= fields_view(fs@));
        },
        _ => {},
    }
}

/// An optional JSON value as mathematical data.
pub open spec fn opt_json(o: Option<JsonValue>) -> Option<JsonModel> {
    match o {
        Some(v) => Some(v@),
        None => None,
    }
}

/// The position of the first field named `key`.
pub open spec fn first_field(fields: Seq<(Seq<char>, JsonModel)>, key: Seq<char>) -> Option<int>
    decreases fields.len(),
{
    if fields.len() == 0 {
        None
    } else if fields[0].0 == key {
        Some(0)
    } else {
        match first_field(fields.drop_first(), key) {
            Some(i) => Some(i + 1),
            None => None,
        }
    }
}

/// What `first_field` finds: the first field with that name, or none when
/// no field has it.
pub proof fn lemma_first_field(fields: Seq<(Seq<char>, JsonModel)>, key: Seq<char>)
    ensures
        first_field(fields, key) matches Some(i) ==> 0 <= i < fields.len() && fields[i].0 == key
            && forall|j: int| 0 <= j < i ==> fields[j].0 != key,
        first_field(fields, key) is None ==> forall|j: int| 0 <= j < fields.len() ==> fields[j].0 != key,
    decreases fields.len(),
{
    if fields.len() > 0 && fields[0].0 != key {
        lemma_first_field(fields.drop_first(), key);
        assert forall|j: int| 1 <= j < fields.len() implies fields[j] == fields.drop_first()[j - 1] by {}
    }
}

/// The value of the field `key` of an object (the first one of that name);
/// nothing for other values.
pub open spec fn field(v: JsonModel, key: Seq<char>) -> Option<JsonModel> {
    match v {
        JsonModel::Object(fs) => match first_field(fs, key) {
            Some(i) => Some(fs[i].1),
            None => None,
        },
        _ => None,
    }
}

/// The text of `response.message` in a reply of the core's JSON API: the
/// string itself, or `{}` when the message is not a string; nothing when the
/// reply has no object `response` with a `message`.
pub open spec fn response_message_spec(v: JsonModel) -> Option<Seq<char>> {
    match field(v, "response"@) {
        Some(r) => if r is Object {
            match field(r, "message"@) {
                Some(JsonModel::Str(s)) => Some(s),
                Some(_) => Some("{}"@),
                None => None,
            }
        } else {
            None
        },
        None => None,
    }
}

/// The object `v` with its `response` field set to `inner`.
pub open spec fn with_response(v: JsonModel, inner: JsonModel) -> JsonModel {
    match v {
        JsonModel::Object(fs) => match first_field(fs, "response"@) {
            Some(i) => JsonModel::Object(fs.update(i, (fs[i].0, inner))),
            None => v,
        },
        _ => v,
    }
}

/// The JSON value that `serde_json` reads from `text`, if the text is JSON.
pub uninterp spec fn json_parse(text: Seq<char>) -> Option<JsonModel>;

#[verifier::external_type_specification]
#[verifier::external_body]
pub struct ExSerdeJsonValue(serde_json::Value);

/// The library's form of a `serde_json` value, variant for variant: a
/// number by its text, an object's fields in the map's order. Used by
/// `parse_json` to hand its result over.
#[verifier::external_body]
fn json_from_serde(v: serde_json::Value) -> JsonValue {
    match v {
        serde_json::Value::Null => JsonValue::Null,
        serde_json::Value::Bool(b) => JsonValue::Bool(b),
        serde_json::Value::Number(n) => JsonValue::Number(n.to_string()),
        serde_json::Value::String(s) => JsonValue::Str(s),
        serde_json::Value::Array(a) => JsonValue::Array(a.into_iter().map(json_from_serde).collect()),
        serde_json::Value::Object(m) => JsonValue::Object(m.into_iter().map(|(k, x)| (k, json_from_serde(x))).collect()),
    }
}

/// Calls `serde_json::from_str::<serde_json::Value>` on `text`.
/// Trusted: the contract names the outcome `json_parse(text)`: `None` when
/// the text is not JSON.
#[verifier::external_body]
fn parse_json(text: &str) -> (r: Option<JsonValue>)
    ensures
        opt_json(r) == json_parse(text@),
{
    serde_json::from_str::<serde_json::Value>(text).ok().map(json_from_serde)
}

/// The position of the first field named `key` (see `first_field`).
pub fn find_field(fs: &Vec<(String, JsonValue)>, key: &str) -> (r: Option<usize>)
    ensures
        match r {
            Some(i) => i < fs@.len() && first_field(fields_view(fs@), key@) == Some(i as int),
            None => first_field(fields_view(fs@), key@) is None,
        },
{
    let ghost fv = fields_view(fs@);
    proof {
        lemma_first_field(fv, key@);
    }
    let mut i: usize = 0;
    while i < fs.len()
        invariant
            i <= fs@.len(),
            fv == fields_view(fs@),
            forall|j: int| 0 <= j < i ==> fv[j].0 != key@,
        decreases fs@.len() - i,
    {
        let name = str_to_chars(fs[i].0.as_str());
        if chars_eq_str(name.as_slice(), key) {
            assert(fv[i as int].0 == key@);
            proof {
                lemma_first_field(fv, key@);
            }
            return Some(i);
        }
        assert(fv[i as int].0 != key@);
        i = i + 1;
    }
    None
}

/// The text of `response.message` in a reply (see `response_message_spec`).
pub fn response_message(v: &JsonValue) -> (r: Option<String>)
    ensures
        r.deep_view() == response_message_spec(v@),
{
    match v {
        JsonValue::Object(fs) => {
            proof {
                lemma_object_view(*fs);
            }
            match find_field(fs, "response") {
                Some(i) => {
                    proof {
                        lemma_first_field(fields_view(fs@), "response"@);
                    }
                    match &fs[i].1 {
                        JsonValue::Object(gs) => {
                            proof {
                                lemma_object_view(*gs);
                            }
                            match find_field(gs, "message") {
                                Some(j) => match &gs[j].1 {
                                    JsonValue::Str(s) => Some(s.clone()),
                                    _ => Some(String::from_str("{}")),
                                },
                                None => None,
                            }
                        },
                        _ => None,
                    }
                },
                None => None,
            }
        },
        _ => None,
    }
}

/// `v` with its `response` field set to `inner` (see `with_response`).
pub fn with_response_exec(v: JsonValue, inner: JsonValue) -> (r: JsonValue)
    ensures
        r@ == with_response(v@, inner@),
{
    match v {
        JsonValue::Object(fs) => {
            let ghost old_fv = fields_view(fs@);
            proof {
                lemma_object_view(fs);
                lemma_first_field(old_fv, "response"@);
            }
            let mut fs = fs;
            match find_field(&fs, "response") {
                Some(i) => {
                    let k = fs[i].0.clone();
                    fs.set(i, (k, inner));
                    assert(fields_view(fs@) =~= old_fv.update(i as int, (old_fv[i as int].0, inner@)));
                    proof {
                        lemma_object_view(fs);
                    }
                    JsonValue::Object(fs)
                },
                None => JsonValue::Object(fs),
            }
        },
        other => other,
    }
}

/// An answer of the HTTP API: a status code, a message and optional data.
#[derive(Debug)]
pub struct ApiAnswer {
    pub code: i32,
    pub message: String,
    pub data: Option<JsonValue>,
}

/// An answer as mathematical data.
pub struct AnswerModel {
    pub code: i32,
    pub message: Seq<char>,
    pub data: Option<JsonModel>,
}

impl View for ApiAnswer {
    type V = AnswerModel;

    open spec fn view(&self) -> AnswerModel {
        AnswerModel { code: self.code, message: self.message@, data: opt_json(self.data) }
    }
}

/// The answer to a JSON API request from the core's reply `message`, read
/// as JSON (`parsed`), and from `inner`, the JSON read from its
/// `response.message`: the reply as data with message `OK`, its `response`
/// replaced by `inner` when JSON output was asked for and both are there;
/// the reply as message when it is not JSON.
pub open spec fn jsapi_reply_spec(json_format: bool, parsed: Option<JsonModel>, inner: Option<JsonModel>, message: Seq<char>) -> AnswerModel {
    match parsed {
        None => AnswerModel { code: 200, message, data: None },
        Some(v) => AnswerModel {
            code: 200,
            message: "OK"@,
            data: Some(
                if json_format && response_message_spec(v) is Some && inner is Some {
                    with_response(v, inner->0)
                } else {
                    v
                },
            ),
        },
    }
}

/// The answer to a JSON API request (see `jsapi_reply_spec`).
pub fn jsapi_reply(json_format: bool, parsed: Option<JsonValue>, inner: Option<JsonValue>, message: String) -> (r: ApiAnswer)
    ensures
        r@ == jsapi_reply_spec(json_format, opt_json(parsed), opt_json(inner), message@),
{
    match parsed {
        None => ApiAnswer { code: 200, message, data: None },
        Some(v) => {
            let has_message = json_format && response_message(&v).is_some();
            if has_message {
                if let Some(iv) = inner {
                    let nv = with_response_exec(v, iv);
                    return ApiAnswer { code: 200, message: String::from_str("OK"), data: Some(nv) };
                }
            }
            ApiAnswer { code: 200, message: String::from_str("OK"), data: Some(v) }
        },
    }
}

/// What the JSON API reads from the reply's `response.message`: the JSON
/// in it, when JSON output was asked for.
pub open spec fn jsapi_inner(json_format: bool, parsed: Option<JsonModel>) -> Option<JsonModel> {
    match parsed {
        Some(v) => if json_format {
            match response_message_spec(v) {
                Some(t) => json_parse(t),
                None => None,
            }
        } else {
            None
        },
        None => None,
    }
}

/// The answer to a JSON API request given what the core did with it: its
/// error with code 500, or the answer built from its reply.
pub open spec fn jsapi_answer_spec(json_format: bool, res: Result<Seq<char>, Seq<char>>) -> AnswerModel {
    match res {
        Err(e) => AnswerModel { code: 500, message: e, data: None },
        Ok(m) => jsapi_reply_spec(json_format, json_parse(m), jsapi_inner(json_format, json_parse(m)), m),
    }
}

/// The answer to a JSON API request (see `jsapi_answer_spec`); reads the
/// reply as JSON.
pub fn jsapi_answer(json_format: bool, res: Result<String, String>) -> (r: ApiAnswer)
    ensures
        r@ == jsapi_answer_spec(json_format, crate::sys::result_view(res)),
{
    match res {
        Err(e) => ApiAnswer { code: 500, message: e, data: None },
        Ok(m) => {
            let parsed = parse_json(m.as_str());
            let inner = match &parsed {
                Some(v) => if json_format {
                    match response_message(v) {
                        Some(t) => parse_json(t.as_str()),
                        None => None,
                    }
                } else {
                    None
                },
                None => None,
            };
            jsapi_reply(json_format, parsed, inner, m)
        },
    }
}

/// The answer to an API command from its output `msg`, read as JSON
/// (`parsed`): when JSON output was asked for and the output is JSON, the
/// data `{"response": <output>, "status": "success"}` with message `OK`;
/// otherwise the output as message.
pub open spec fn command_reply_spec(json_format: bool, parsed: Option<JsonModel>, msg: Seq<char>) -> AnswerModel {
    if json_format && parsed is Some {
        AnswerModel {
            code: 200,
            message: "OK"@,
            data: Some(
                JsonModel::Object(
                    seq![("response"@, parsed->0), ("status"@, JsonModel::Str("success"@))],
                ),
            ),
        }
    } else {
        AnswerModel { code: 200, message: msg, data: None }
    }
}

/// The answer to an API command (see `command_reply_spec`).
pub fn command_reply(json_format: bool, parsed: Option<JsonValue>, msg: String) -> (r: ApiAnswer)
    ensures
        r@ == command_reply_spec(json_format, opt_json(parsed), msg@),
{
    if json_format {
        if let Some(v) = parsed {
            let ghost vv = v@;
            let mut fs: Vec<(String, JsonValue)> = Vec::new();
            fs.push((String::from_str("response"), v));
            fs.push((String::from_str("status"), JsonValue::Str(String::from_str("success"))));
            assert(fields_view(fs@) =~= seq![("response"@, vv), ("status"@, JsonModel::Str("success"@))]);
            proof {
                lemma_object_view(fs);
            }
            return ApiAnswer {
                code: 200,
                message: String::from_str("OK"),
                data: Some(JsonValue::Object(fs)),
            };
        }
    }
    ApiAnswer { code: 200, message: msg, data: None }
}

/// The answer to an API command given what the core did with it: its error
/// with code 500, or the answer built from its output, which is read as
/// JSON only when JSON output was asked for.
pub open spec fn command_answer_spec(json_format: bool, res: Result<Seq<char>, Seq<char>>) -> AnswerModel {
    match res {
        Err(e) => AnswerModel { code: 500, message: e, data: None },
        Ok(m) => command_reply_spec(json_format, if json_format { json_parse(m) } else { None }, m),
    }
}

/// The answer to an API command (see `command_answer_spec`).
pub fn command_answer(json_format: bool, res: Result<String, String>) -> (r: ApiAnswer)
    ensures
        r@ == command_answer_spec(json_format, crate::sys::result_view(res)),
{
    match res {
        Err(e) => ApiAnswer { code: 500, message: e, data: None },
        Ok(m) => {
            let parsed = if json_format {
                parse_json(m.as_str())
            } else {
                None
            };
            command_reply(json_format, parsed, m)
        },
    }
}

} // verus!
