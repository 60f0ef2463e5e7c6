//! The network front ends (HTTP API, JSON API): their configuration,
//! the address they bind, who may call them (by access list, or by the
//! password token that the RPC interface asks for), how commands are
//! routed and answered, and which events a subscriber receives.
use crate::event_types::{
    event_type_index, event_type_named, EventTypes, SWITCH_EVENT_ALL, SWITCH_EVENT_CUSTOM,
};
use crate::sys::{switch_true, switch_true_spec};
use crate::text::{
    ascii_lower,
    chars_eq_ignore_ascii_case, chars_to_ascii_uppercase, chars_to_string, contains,
    contains_str, decimal_digits, eq_ignore_ascii_case, eq_ignore_ascii_case_str,
    parse_u16, parse_u16_spec, str_to_chars, to_ascii_uppercase, u64_to_decimal,
};
use vstd::prelude::*;
use vstd::string::StringExecFns;

verus! {

broadcast use vstd::string::group_string_axioms;

/// The port the HTTP API and gRPC front ends listen on unless configured,
/// and the port a malformed `listen-port` falls back to.
pub const DEFAULT_LISTEN_PORT: u16 = 8202;

/// The port the JSON API front end listens on unless configured.
pub const JSAPI_LISTEN_PORT: u16 = 8203;

/// The configuration of a front end.
pub struct Profile {
    /// The event binding made when the front end started (0 if none).
    pub event_bind_node: u64,
    pub listen_ip: String,
    pub listen_port: u16,
    pub password: String,
    pub apply_inbound_acl: String,
    pub enable: bool,
}

/// A front end's configuration as plain values.
pub struct ProfileView {
    pub event_bind_node: u64,
    pub listen_ip: Seq<char>,
    pub listen_port: u16,
    pub password: Seq<char>,
    pub apply_inbound_acl: Seq<char>,
    pub enable: bool,
}

impl View for Profile {
    type V = ProfileView;

    open spec fn view(&self) -> ProfileView {
        ProfileView {
            event_bind_node: self.event_bind_node,
            listen_ip: self.listen_ip@,
            listen_port: self.listen_port,
            password: self.password@,
            apply_inbound_acl: self.apply_inbound_acl@,
            enable: self.enable,
        }
    }
}

/// The configuration before any parameter is read: listen on all addresses
/// at `port`, no password, no access list, disabled.
pub open spec fn default_profile(port: u16) -> ProfileView {
    ProfileView {
        event_bind_node: 0,
        listen_ip: "0.0.0.0"@,
        listen_port: port,
        password: Seq::empty(),
        apply_inbound_acl: Seq::empty(),
        enable: false,
    }
}

/// The effect of one `<param name=var value=val/>` on the configuration.
/// Names are matched ignoring case; unknown names change nothing.
pub open spec fn apply_param_spec(p: ProfileView, var: Seq<char>, val: Seq<char>) -> ProfileView {
    if eq_ignore_ascii_case(var, "listen-ip"@) {
        ProfileView { listen_ip: val, ..p }
    } else if eq_ignore_ascii_case(var, "listen-port"@) {
        ProfileView {
            listen_port: match parse_u16_spec(val) {
                Some(n) => n as u16,
                None => DEFAULT_LISTEN_PORT,
            },
            ..p
        }
    } else if eq_ignore_ascii_case(var, "password"@) {
        ProfileView { password: val, ..p }
    } else if eq_ignore_ascii_case(var, "apply-inbound-acl"@) {
        ProfileView { apply_inbound_acl: val, ..p }
    } else if eq_ignore_ascii_case(var, "enable"@) {
        ProfileView { enable: switch_true_spec(val), ..p }
    } else {
        p
    }
}

/// The address a front end binds: `ip:port`.
pub open spec fn bind_address_spec(p: ProfileView) -> Seq<char> {
    p.listen_ip + seq![':'] + decimal_digits(p.listen_port as nat)
}

impl Profile {
    /// The HTTP API and gRPC configuration before any parameter is read.
    pub fn new() -> (r: Profile)
        ensures
            r@ == default_profile(DEFAULT_LISTEN_PORT),
    {
        Profile {
            event_bind_node: 0,
            listen_ip: String::from_str("0.0.0.0"),
            listen_port: DEFAULT_LISTEN_PORT,
            password: String::new(),
            apply_inbound_acl: String::new(),
            enable: false,
        }
    }

    /// The JSON API configuration before any parameter is read.
    pub fn new_jsapi() -> (r: Profile)
        ensures
            r@ == default_profile(JSAPI_LISTEN_PORT),
    {
        Profile {
            event_bind_node: 0,
            listen_ip: String::from_str("0.0.0.0"),
            listen_port: JSAPI_LISTEN_PORT,
            password: String::new(),
            apply_inbound_acl: String::new(),
            enable: false,
        }
    }

    /// Reads one configuration parameter (`listen-ip`, `listen-port`,
    /// `password`, `apply-inbound-acl`, `enable`).
    pub fn apply_param(&mut self, var: &str, val: &str)
        ensures
            final(self)@ == apply_param_spec(old(self)@, var@, val@),
    {
        let v = str_to_chars(var);
        if eq_ignore_ascii_case_str(v.as_slice(), "listen-ip") {
            self.listen_ip = String::from_str(val);
        } else if eq_ignore_ascii_case_str(v.as_slice(), "listen-port") {
            let vv = str_to_chars(val);
            self.listen_port = match parse_u16(vv.as_slice()) {
                Some(n) => n,
                None => DEFAULT_LISTEN_PORT,
            };
        } else if eq_ignore_ascii_case_str(v.as_slice(), "password") {
            self.password = String::from_str(val);
        } else if eq_ignore_ascii_case_str(v.as_slice(), "apply-inbound-acl") {
            self.apply_inbound_acl = String::from_str(val);
        } else if eq_ignore_ascii_case_str(v.as_slice(), "enable") {
            self.enable = switch_true(val);
        }
    }

    /// The address to bind: `ip:port`.
    pub fn bind_address(&self) -> (r: String)
        ensures
            r@ == bind_address_spec(self@),
    {
        let mut a = str_to_chars(self.listen_ip.as_str());
        a.push(':');
        let mut d = u64_to_decimal(self.listen_port as u64);
        a.append(&mut d);
        chars_to_string(a.as_slice())
    }
}

/// The reply of a front end: a status code and a message.
pub struct Reply {
    pub code: i32,
    pub message: String,
}

/// The reply to the outcome of a core command: 200 with its output, or 500
/// with its error.
pub fn reply_from(res: Result<String, String>) -> (r: Reply)
    ensures
        res matches Ok(m) ==> r.code == 200 && r.message@ == m@,
        res matches Err(e) ==> r.code == 500 && r.message@ == e@,
{
    match res {
        Ok(m) => Reply { code: 200, message: m },
        Err(e) => Reply { code: 500, message: e },
    }
}

/// What a front end does with a command request: run a core command (and
/// whether to read its output as JSON), or refuse with a code and message.
#[derive(Debug, Clone, PartialEq, Eq)]
pub enum CommandPlan {
    Execute { cmd: String, args: String, json_format: bool },
    Reject { code: i32, message: String },
}

/// A command plan as plain values.
pub enum CommandPlanModel {
    Execute(Seq<char>, Seq<char>, bool),
    Reject(i32, Seq<char>),
}

impl View for CommandPlan {
    type V = CommandPlanModel;

    open spec fn view(&self) -> CommandPlanModel {
        match self {
            CommandPlan::Execute { cmd, args, json_format } => CommandPlanModel::Execute(
                cmd@,
                args@,
                *json_format,
            ),
            CommandPlan::Reject { code, message } => CommandPlanModel::Reject(*code, message@),
        }
    }
}

/// The refusal to unload the module that serves the request.
pub open spec fn in_use_message(module: Seq<char>, err_prefix: bool) -> Seq<char> {
    (if err_prefix {
        "-ERR "@
    } else {
        Seq::empty()
    }) + "Module "@ + module + " is in use, cannot unload"@
}

/// How a command request is carried out: its output is read as JSON when
/// the command or its arguments mention `json`; reloading the serving
/// module goes through `bgapi` (so that the reply still arrives), and
/// unloading it is refused with 501.
pub open spec fn plan_command_spec(cmd: Seq<char>, args: Seq<char>, module: Seq<char>, err_prefix: bool) -> CommandPlanModel {
    let json_format = contains(cmd, "json"@) || contains(args, "json"@);
    if contains(cmd, "reload"@) && contains(args, module) {
        CommandPlanModel::Execute("bgapi"@, "reload "@ + module, json_format)
    } else if contains(cmd, "unload"@) && contains(args, module) {
        CommandPlanModel::Reject(501, in_use_message(module, err_prefix))
    } else {
        CommandPlanModel::Execute(cmd, args, json_format)
    }
}

/// The refusal to unload the serving module.
pub fn in_use_text(module: &str, err_prefix: bool) -> (r: String)
    ensures
        r@ == in_use_message(module@, err_prefix),
{
    let mut m = if err_prefix {
        String::from_str("-ERR ")
    } else {
        String::new()
    };
    m.append("Module ");
    m.append(module);
    m.append(" is in use, cannot unload");
    m
}

/// Plans a command request (see `plan_command_spec`); `module` is the module
/// serving the request, `err_prefix` whether its refusals start `-ERR`.
pub fn plan_command(cmd: &str, args: &str, module: &str, err_prefix: bool) -> (r: CommandPlan)
    ensures
        r@ == plan_command_spec(cmd@, args@, module@, err_prefix),
{
    let cv = str_to_chars(cmd);
    let av = str_to_chars(args);
    let mv = str_to_chars(module);
    let json_format = contains_str(cv.as_slice(), "json") || contains_str(av.as_slice(), "json");
    let on_module = crate::text::chars_contains(av.as_slice(), mv.as_slice());
    if contains_str(cv.as_slice(), "reload") && on_module {
        let mut a = String::from_str("reload ");
        a.append(module);
        CommandPlan::Execute { cmd: String::from_str("bgapi"), args: a, json_format }
    } else if contains_str(cv.as_slice(), "unload") && on_module {
        CommandPlan::Reject { code: 501, message: in_use_text(module, err_prefix) }
    } else {
        CommandPlan::Execute {
            cmd: String::from_str(cmd),
            args: String::from_str(args),
            json_format,
        }
    }
}

/// How commands are routed: a command whose arguments do not name the
/// serving module runs as asked, with JSON output when the command or its
/// arguments mention `json`; a reload naming the module runs `reload
/// <module>` in the background; an unload naming it is refused with 501.
pub proof fn lemma_command_routing(cmd: Seq<char>, args: Seq<char>, module: Seq<char>, err_prefix: bool)
    ensures
        !contains(args, module) ==> plan_command_spec(cmd, args, module, err_prefix)
            == CommandPlanModel::Execute(cmd, args, contains(cmd, "json"@) || contains(args, "json"@)),
        contains(args, module) && contains(cmd, "reload"@) ==> plan_command_spec(cmd, args, module, err_prefix)
            == CommandPlanModel::Execute("bgapi"@, "reload "@ + module, contains(cmd, "json"@) || contains(args, "json"@)),
        contains(args, module) && !contains(cmd, "reload"@) && contains(cmd, "unload"@)
            ==> plan_command_spec(cmd, args, module, err_prefix) == CommandPlanModel::Reject(
            501,
            in_use_message(module, err_prefix),
        ),
        contains(args, module) && !contains(cmd, "reload"@) && !contains(cmd, "unload"@)
            ==> plan_command_spec(cmd, args, module, err_prefix)
            == CommandPlanModel::Execute(cmd, args, contains(cmd, "json"@) || contains(args, "json"@)),
{
}

/// How a module reload request is carried out: reloading the serving module
/// goes through `bgapi`; any other module is reloaded directly.
pub open spec fn plan_reload_spec(name: Seq<char>, module: Seq<char>) -> (Seq<char>, Seq<char>) {
    if contains(name, module) {
        ("bgapi"@, "reload "@ + module)
    } else {
        ("reload"@, name)
    }
}

/// The core command and arguments for reloading the module `name`.
pub fn plan_reload_mod(name: &str, module: &str) -> (r: (String, String))
    ensures
        (r.0@, r.1@) == plan_reload_spec(name@, module@),
{
    let nv = str_to_chars(name);
    let mv = str_to_chars(module);
    if crate::text::chars_contains(nv.as_slice(), mv.as_slice()) {
        let mut a = String::from_str("reload ");
        a.append(module);
        (String::from_str("bgapi"), a)
    } else {
        (String::from_str("reload"), String::from_str(name))
    }
}

/// How a module unload request is carried out: unloading the serving module
/// is refused with 501; any other module is unloaded.
pub fn plan_unload_mod(name: &str, module: &str) -> (r: CommandPlan)
    ensures
        r@ == (if contains(name@, module@) {
            CommandPlanModel::Reject(501, in_use_message(module@, true))
        } else {
            CommandPlanModel::Execute("unload"@, name@, false)
        }),
{
    let nv = str_to_chars(name);
    let mv = str_to_chars(module);
    if crate::text::chars_contains(nv.as_slice(), mv.as_slice()) {
        CommandPlan::Reject { code: 501, message: in_use_text(module, true) }
    } else {
        CommandPlan::Execute {
            cmd: String::from_str("unload"),
            args: String::from_str(name),
            json_format: false,
        }
    }
}

/// A JSON API request's reply is reshaped from JSON when it runs `fsapi`
/// (any case) and the request text mentions `json`.
pub fn jsapi_json_format(command: &str, request_text: &str) -> (r: bool)
    ensures
        r == (eq_ignore_ascii_case(command@, "fsapi"@) && contains(request_text@, "json"@)),
{
    let cv = str_to_chars(command);
    let tv = str_to_chars(request_text);
    eq_ignore_ascii_case_str(cv.as_slice(), "fsapi") && contains_str(tv.as_slice(), "json")
}

/// A subscription topic: an event number and, for custom events, a subclass.
#[derive(Debug, Clone, PartialEq, Eq)]
pub struct Topic {
    pub id: u32,
    pub subclass_name: String,
}

/// A topic lets an event through when it subscribes to all events, to
/// custom events of the event's subclass, or to the event's type.
pub open spec fn topic_passes(id: u32, subclass: Seq<char>, event_id: u32, event_subclass: Seq<char>) -> bool {
    ||| id == SWITCH_EVENT_ALL
    ||| (id == SWITCH_EVENT_CUSTOM && subclass == event_subclass)
    ||| id == event_id
}

/// Some topic of the list lets the event through.
pub open spec fn topics_pass(topics: Seq<Topic>, event_id: u32, event_subclass: Seq<char>) -> bool {
    exists|i: int|
        0 <= i < topics.len() && #[trigger] topic_passes(
            topics[i].id,
            topics[i].subclass_name@,
            event_id,
            event_subclass,
        )
}

/// Whether a subscriber with these topics receives an event.
pub fn event_passes(topics: &Vec<Topic>, event_id: u32, subclass_name: &str) -> (r: bool)
    ensures
        r == topics_pass(topics@, event_id, subclass_name@),
{
    let mut i: usize = 0;
    while i < topics.len()
        invariant
            i <= topics@.len(),
            forall|j: int|
                0 <= j < i ==> !#[trigger] topic_passes(
                    topics@[j].id,
                    topics@[j].subclass_name@,
                    event_id,
                    subclass_name@,
                ),
        decreases topics@.len() - i,
    {
        let t = &topics[i];
        let pass = t.id == SWITCH_EVENT_ALL || (t.id == SWITCH_EVENT_CUSTOM && str_eq_string(
            &t.subclass_name,
            subclass_name,
        )) || t.id == event_id;
        if pass {
            assert(topic_passes(
                topics@[i as int].id,
                topics@[i as int].subclass_name@,
                event_id,
                subclass_name@,
            ));
            return true;
        }
        i = i + 1;
    }
    false
}

/// A subscriber whose topics include all events, or the event's own type,
/// receives the event, whatever its subclass.
pub proof fn lemma_subscription_receives(topics: Seq<Topic>, k: int, event_id: u32, event_subclass: Seq<char>)
    requires
        0 <= k < topics.len(),
        topics[k].id == SWITCH_EVENT_ALL || topics[k].id == event_id,
    ensures
        topics_pass(topics, event_id, event_subclass),
{
    assert(topic_passes(topics[k].id, topics[k].subclass_name@, event_id, event_subclass));
}

/// A subscriber with no topics receives nothing.
pub proof fn lemma_no_topics_receive_nothing(event_id: u32, event_subclass: Seq<char>)
    ensures
        !topics_pass(Seq::<Topic>::empty(), event_id, event_subclass),
{
}

/// Equality of a string with a string slice.
fn str_eq_string(a: &String, b: &str) -> (r: bool)
    ensures
        r == (a@ == b@),
{
    let av = str_to_chars(a.as_str());
    crate::text::chars_eq_str(av.as_slice(), b)
}

/// The topic a subscription request names: the event type called `name`
/// (read in upper case), with the given subclass; nothing for an unknown
/// event name.
pub open spec fn topic_named(name: Seq<char>) -> Option<u32> {
    match event_type_named(to_ascii_uppercase(name)) {
        Some(e) => Some(event_type_index(e) as u32),
        None => None,
    }
}

/// The topic of a subscription request, if its event name is known.
pub fn topic_from_request(name: &str, subclass: &str) -> (r: Option<Topic>)
    ensures
        r matches Some(t) ==> topic_named(name@) == Some(t.id) && t.subclass_name@ == subclass@,
        r is None ==> topic_named(name@) is None,
{
    let nv = str_to_chars(name);
    let up = chars_to_ascii_uppercase(nv.as_slice());
    let us = chars_to_string(up.as_slice());
    match EventTypes::from_str_name(us.as_str()) {
        Some(e) => {
            proof {
                crate::event_types::lemma_event_type_index(e);
            }
            Some(Topic { id: e.as_u32(), subclass_name: String::from_str(subclass) })
        },
        None => None,
    }
}

/// The topics a subscription request asks for: one per entry (event name,
/// subclass) whose event name is known, in order.
pub open spec fn requested_topics(requested: Seq<(String, String)>) -> Seq<(u32, Seq<char>)>
    decreases requested.len(),
{
    if requested.len() == 0 {
        Seq::empty()
    } else {
        let last = requested.last();
        requested_topics(requested.drop_last()) + match topic_named(last.0@) {
            Some(id) => seq![(id, last.1@)],
            None => Seq::empty(),
        }
    }
}

/// A topic as plain values.
pub open spec fn topic_view(t: Topic) -> (u32, Seq<char>) {
    (t.id, t.subclass_name@)
}

/// The topics of a subscription request (see `requested_topics`).
pub fn topics_from_request(requested: &Vec<(String, String)>) -> (r: Vec<Topic>)
    ensures
        r@.map_values(|t: Topic| topic_view(t)) == requested_topics(requested@),
{
    let mut r: Vec<Topic> = Vec::new();
    let mut k: usize = 0;
    while k < requested.len()
        invariant
            k <= requested@.len(),
            r@.map_values(|t: Topic| topic_view(t)) == requested_topics(requested@.take(k as int)),
        decreases requested@.len() - k,
    {
        let entry = &requested[k];
        let ghost before = r@;
        proof {
            assert(requested@.take(k + 1).drop_last() =~= requested@.take(k as int));
            assert(requested@.take(k + 1).last() == requested@[k as int]);
        }
        match topic_from_request(entry.0.as_str(), entry.1.as_str()) {
            Some(t) => {
                r.push(t);
                proof {
                    assert(r@.map_values(|t: Topic| topic_view(t)) =~= before.map_values(
                        |t: Topic| topic_view(t),
                    ).push(topic_view(r@.last())));
                }
            },
            None => {
                proof {
                    assert(requested_topics(requested@.take(k + 1)) =~= requested_topics(
                        requested@.take(k as int),
                    ));
                }
            },
        }
        k = k + 1;
    }
    proof {
        assert(requested@.take(requested@.len() as int) =~= requested@);
    }
    r
}

/// The MD5 digest of `data` (16 bytes).
pub uninterp spec fn md5_digest(data: Seq<u8>) -> Seq<u8>;

/// Calls `md5::compute` on `data` and returns the digest's 16 bytes.
/// Trusted: the contract only names the bytes `md5_digest(data)`; that
/// they are the MD5 hash is not stated.
#[verifier::external_body]
fn md5_compute(data: &[u8]) -> (r: [u8; 16])
    ensures
        r@ == md5_digest(data@),
{
    md5::compute(data).0
}

/// The lower-case hexadecimal digit for `d` (0 to 15).
pub open spec fn hex_digit(d: int) -> char {
    if d < 10 {
        (d + 48) as char
    } else {
        (d + 87) as char
    }
}

/// Bytes written as lower-case hexadecimal, two digits per byte.
pub open spec fn hex_lower(b: Seq<u8>) -> Seq<char>
    decreases b.len(),
{
    if b.len() == 0 {
        Seq::empty()
    } else {
        hex_lower(b.drop_last()) + seq![hex_digit(b.last() as int / 16), hex_digit(b.last() as int % 16)]
    }
}

/// One lower-case hexadecimal digit.
fn hex_digit_exec(d: u8) -> (r: char)
    requires
        d < 16,
    ensures
        r == hex_digit(d as int),
{
    if d < 10 {
        (d + 48) as char
    } else {
        (d + 87) as char
    }
}

/// Bytes written as lower-case hexadecimal.
pub fn to_hex_lower(b: &[u8]) -> (r: Vec<char>)
    ensures
        r@ == hex_lower(b@),
{
    let mut r: Vec<char> = Vec::new();
    let mut i: usize = 0;
    while i < b.len()
        invariant
            i <= b@.len(),
            r@ == hex_lower(b@.take(i as int)),
        decreases b@.len() - i,
    {
        let x = b[i];
        r.push(hex_digit_exec(x / 16));
        r.push(hex_digit_exec(x % 16));
        proof {
            assert(b@.take(i + 1).drop_last() =~= b@.take(i as int));
            assert(b@.take(i + 1).last() == x);
        }
        i = i + 1;
    }
    proof {
        assert(b@.take(b@.len() as int) =~= b@);
    }
    r
}

/// The token a caller must present: `bearer ` and the lower-case
/// hexadecimal MD5 digest of the password's UTF-8 bytes.
pub open spec fn auth_token(password: Seq<char>) -> Seq<char> {
    "bearer "@ + hex_lower(md5_digest(vstd::utf8::encode_utf8(password)))
}

/// The token a caller must present for `password`.
pub fn auth_token_exec(password: &str) -> (r: Vec<char>)
    ensures
        r@ == auth_token(password@),
{
    let digest = md5_compute(password.as_bytes());
    let mut t = str_to_chars("bearer ");
    let mut h = to_hex_lower(&digest);
    t.append(&mut h);
    t
}

/// The outcome of authorising a call: `Ok` for a caller the access list
/// admits, or one presenting the password's token (compared ignoring ASCII
/// case); otherwise the refusal to report.
pub open spec fn check_auth_spec(acl_ok: bool, authorization: Option<Seq<char>>, password: Seq<char>) -> Result<(), Seq<char>> {
    if acl_ok {
        Ok(())
    } else {
        match authorization {
            Some(t) => if eq_ignore_ascii_case(auth_token(password), t) {
                Ok(())
            } else {
                Err("authentication failure wrong password"@)
            },
            None => Err("No valid auth token"@),
        }
    }
}

/// Who may call: a caller the access list admits is let in whatever it
/// sends; any other caller needs the password's token (any ASCII case) and
/// is told which check failed otherwise.
pub proof fn lemma_authorisation(acl_ok: bool, authorization: Option<Seq<char>>, password: Seq<char>)
    ensures
        acl_ok ==> check_auth_spec(acl_ok, authorization, password) is Ok,
        !acl_ok && authorization is None ==> check_auth_spec(acl_ok, authorization, password)
            == Err::<(), Seq<char>>("No valid auth token"@),
        !acl_ok && authorization is Some ==> (check_auth_spec(acl_ok, authorization, password) is Ok
            <==> eq_ignore_ascii_case(authorization->0, "bearer "@ + hex_lower(md5_digest(vstd::utf8::encode_utf8(password))))),
        !acl_ok && authorization is Some && !eq_ignore_ascii_case(authorization->0, auth_token(password))
            ==> check_auth_spec(acl_ok, authorization, password)
            == Err::<(), Seq<char>>("authentication failure wrong password"@),
{
    if authorization is Some {
        let t = authorization->0;
        let a = auth_token(password);
        assert(eq_ignore_ascii_case(a, t) == eq_ignore_ascii_case(t, a)) by {
            if eq_ignore_ascii_case(a, t) {
                assert forall|i: int| 0 <= i < t.len() implies #[trigger] ascii_lower(t[i]) == ascii_lower(a[i]) by {
                    assert(ascii_lower(a[i]) == ascii_lower(t[i]));
                }
            }
            if eq_ignore_ascii_case(t, a) {
                assert forall|i: int| 0 <= i < a.len() implies #[trigger] ascii_lower(a[i]) == ascii_lower(t[i]) by {
                    assert(ascii_lower(t[i]) == ascii_lower(a[i]));
                }
            }
        }
    }
}

/// Authorises a call, given whether the caller's address passed the access
/// list, the `authorization` header the caller sent, and the password.
pub fn check_auth(acl_ok: bool, authorization: Option<&str>, password: &str) -> (r: Result<(), String>)
    ensures
        r matches Ok(_) ==> check_auth_spec(acl_ok, match authorization {
            Some(t) => Some(t@),
            None => None,
        }, password@) is Ok,
        r matches Err(e) ==> check_auth_spec(acl_ok, match authorization {
            Some(t) => Some(t@),
            None => None,
        }, password@) == Err::<(), Seq<char>>(e@),
{
    if acl_ok {
        return Ok(());
    }
    match authorization {
        Some(t) => {
            let digest = auth_token_exec(password);
            let tv = str_to_chars(t);
            if chars_eq_ignore_ascii_case(digest.as_slice(), tv.as_slice()) {
                Ok(())
            } else {
                Err(String::from_str("authentication failure wrong password"))
            }
        },
        None => Err(String::from_str("No valid auth token")),
    }
}

} // verus!
