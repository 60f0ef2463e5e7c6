//! The core-facing layer: truth of configuration words, handles on core
//! objects, the event record, and the decisions around executing API
//! commands and sending events and messages into the core.
use crate::event_types::SWITCH_EVENT_CUSTOM;
use crate::text::{
    chars_to_string, eq_ignore_ascii_case, eq_ignore_ascii_case_str, ends_with, ends_with_str,
    parse_i32, parse_i32_spec, starts_with, starts_with_str, str_to_chars,
};
use vstd::prelude::*;
use vstd::string::StringExecFns;

verus! {

broadcast use vstd::string::group_string_axioms;

/// The words that read as true, whatever the case of their letters.
pub open spec fn is_true_word(s: Seq<char>) -> bool {
    ||| eq_ignore_ascii_case(s, "yes"@)
    ||| eq_ignore_ascii_case(s, "on"@)
    ||| eq_ignore_ascii_case(s, "true"@)
    ||| eq_ignore_ascii_case(s, "t"@)
    ||| eq_ignore_ascii_case(s, "enabled"@)
    ||| eq_ignore_ascii_case(s, "active"@)
    ||| eq_ignore_ascii_case(s, "allow"@)
}

/// A string expression is true when it is one of the true words or an
/// `i32` greater than zero.
pub open spec fn switch_true_spec(s: Seq<char>) -> bool {
    is_true_word(s) || (parse_i32_spec(s) matches Some(n) && n > 0)
}

/// Evaluates the truthfulness of a string expression (character form).
pub fn switch_true_chars(s: &[char]) -> (r: bool)
    ensures
        r == switch_true_spec(s@),
{
    if eq_ignore_ascii_case_str(s, "yes") || eq_ignore_ascii_case_str(s, "on")
        || eq_ignore_ascii_case_str(s, "true") || eq_ignore_ascii_case_str(s, "t")
        || eq_ignore_ascii_case_str(s, "enabled") || eq_ignore_ascii_case_str(s, "active")
        || eq_ignore_ascii_case_str(s, "allow") {
        return true;
    }
    match parse_i32(s) {
        Some(n) => n > 0,
        None => false,
    }
}

/// Evaluates the truthfulness of a string expression: true for `yes`, `on`,
/// `true`, `t`, `enabled`, `active`, `allow` (any case) and for integers
/// greater than zero.
pub fn switch_true(s: &str) -> (r: bool)
    ensures
        r == switch_true_spec(s@),
{
    let v = str_to_chars(s);
    switch_true_chars(v.as_slice())
}

/// A core session, known by its address.
pub struct Session(pub usize);

impl Session {
    /// Wraps the address of a core session.
    pub fn from_ptr(p: usize) -> (r: Session)
        ensures
            r.0 == p,
    {
        Session(p)
    }

    /// The session's address.
    pub fn as_ptr(&self) -> (r: usize)
        ensures
            r == self.0,
    {
        self.0
    }

    /// The session's address, for mutation.
    pub fn as_mut_ptr(&mut self) -> (r: usize)
        ensures
            r == old(self).0,
            *final(self) == *old(self),
    {
        self.0
    }
}

/// An API output stream of the core, known by its address.
pub struct Stream(pub usize);

impl Stream {
    /// Wraps the address of an output stream.
    pub fn from_ptr(p: usize) -> (r: Stream)
        ensures
            r.0 == p,
    {
        Stream(p)
    }

    /// The stream's address.
    pub fn as_ptr(&self) -> (r: usize)
        ensures
            r == self.0,
    {
        self.0
    }

    /// The stream's address, for mutation.
    pub fn as_mut_ptr(&mut self) -> (r: usize)
        ensures
            r == old(self).0,
            *final(self) == *old(self),
    {
        self.0
    }
}

/// A loadable module interface together with the memory pool it was
/// created in, both known by their addresses.
pub struct Module {
    pub module: usize,
    pub pool: usize,
}

impl Module {
    /// Wraps a module interface and its pool.
    pub fn from_ptr(module: usize, pool: usize) -> (r: Module)
        ensures
            r.module == module,
            r.pool == pool,
    {
        Module { module, pool }
    }

    /// The module interface's address.
    pub fn as_ptr(&mut self) -> (r: usize)
        ensures
            r == old(self).module,
            *final(self) == *old(self),
    {
        self.module
    }

    /// The module interface's address, for mutation.
    pub fn as_mut_ptr(&mut self) -> (r: usize)
        ensures
            r == old(self).module,
            *final(self) == *old(self),
    {
        self.module
    }

    /// The address of the module's memory pool.
    pub fn pool(&self) -> (r: usize)
        ensures
            r == self.pool,
    {
        self.pool
    }
}

/// One header of a core event, known by its address.
pub struct EventHeader(pub usize);

impl EventHeader {
    /// Wraps the address of an event header.
    pub fn from_ptr(p: usize) -> (r: EventHeader)
        ensures
            r.0 == p,
    {
        EventHeader(p)
    }

    /// The header's address.
    pub fn as_ptr(&self) -> (r: usize)
        ensures
            r == self.0,
    {
        self.0
    }

    /// The header's address, for mutation.
    pub fn as_mut_ptr(&mut self) -> (r: usize)
        ensures
            r == old(self).0,
            *final(self) == *old(self),
    {
        self.0
    }
}

/// A loadable module interface, known by its address.
pub struct ModInterface(pub usize);

impl ModInterface {
    /// Wraps the address of a module interface.
    pub fn from_ptr(p: usize) -> (r: ModInterface)
        ensures
            r.0 == p,
    {
        ModInterface(p)
    }

    /// The interface's address.
    pub fn as_ptr(&mut self) -> (r: usize)
        ensures
            r == old(self).0,
            *final(self) == *old(self),
    {
        self.0
    }

    /// The interface's address, for mutation.
    pub fn as_mut_ptr(&mut self) -> (r: usize)
        ensures
            r == old(self).0,
            *final(self) == *old(self),
    {
        self.0
    }
}

/// The error text of an API command that the core did not run.
pub open spec fn api_error_message(cmd: Seq<char>) -> Seq<char> {
    "-ERR %s Command not found!"@ + cmd + "\n"@
}

/// The result of executing an API command: its output when the core ran it,
/// else the not-found error naming the command.
pub fn api_exec_result(cmd: &str, executed: bool, output: String) -> (r: Result<String, String>)
    ensures
        executed ==> r == Ok::<String, String>(output),
        !executed ==> (r matches Err(e) && e@ == api_error_message(cmd@)),
{
    if executed {
        Ok(output)
    } else {
        let mut e = String::from_str("-ERR %s Command not found!");
        e.append(cmd);
        e.append("\n");
        Err(e)
    }
}

/// The answer the core's JSON API gives to a command it cannot parse.
pub open spec fn json_parse_error() -> Seq<char> {
    "{\"status\":\"error\",\"message\":\"Parse command error\",\"response\":null}"@
}

/// The JSON API's answer to a command it cannot parse.
pub fn json_parse_error_text() -> (r: String)
    ensures
        r@ == json_parse_error(),
{
    String::from_str("{\"status\":\"error\",\"message\":\"Parse command error\",\"response\":null}")
}

/// A JSON API command is handed to the core only when it is written as an
/// object: it starts with `{` and ends with `}`; otherwise the answer is the
/// parse error.
pub fn check_json_command(cmd: &str) -> (r: Result<(), String>)
    ensures
        r is Ok <==> starts_with(cmd@, "{"@) && ends_with(cmd@, "}"@),
        r matches Err(e) ==> e@ == json_parse_error(),
{
    let v = str_to_chars(cmd);
    if !starts_with_str(v.as_slice(), "{") || !ends_with_str(v.as_slice(), "}") {
        return Err(json_parse_error_text());
    }
    Ok(())
}

/// The subclass an event is created with: the given name, for custom events
/// that have one; none otherwise.
pub fn event_subclass(id: u32, subclass_name: &str) -> (r: Option<String>)
    ensures
        r matches Some(n) ==> n@ == subclass_name@,
        r is Some <==> id == SWITCH_EVENT_CUSTOM && subclass_name@.len() > 0,
{
    if id == SWITCH_EVENT_CUSTOM && !subclass_name.is_empty() {
        Some(String::from_str(subclass_name))
    } else {
        None
    }
}

/// The answer to sending an event: `+OK` once the event was created (it is
/// then fired), the creation error otherwise.
pub fn sendevent_result(created: bool) -> (r: Result<String, String>)
    ensures
        created ==> (r matches Ok(m) && m@ == "+OK"@),
        !created ==> (r matches Err(e) && e@ == "-ERR create event error"@),
{
    if created {
        Ok(String::from_str("+OK"))
    } else {
        Err(String::from_str("-ERR create event error"))
    }
}

/// The answer to sending a message to a session, given how far the sending
/// went: the session id must be given, the message event created, the
/// session found and the message queued on it.
pub open spec fn sendmsg_answer(uuid: Seq<char>, created: bool, session_found: bool, queued: bool) -> Result<Seq<char>, Seq<char>> {
    if uuid.len() == 0 {
        Err("-ERR invalid session id"@)
    } else if !created {
        Err("create event error"@)
    } else if !session_found {
        Err("-ERR invalid session id ["@ + uuid + "]"@)
    } else if !queued {
        Err("-ERR memory error"@)
    } else {
        Ok("+OK"@)
    }
}

/// The view of a textual result.
pub open spec fn result_view(r: Result<String, String>) -> Result<Seq<char>, Seq<char>> {
    match r {
        Ok(m) => Ok(m@),
        Err(e) => Err(e@),
    }
}

/// The answer to sending a message to a session (see `sendmsg_answer`).
pub fn sendmsg_result(uuid: &str, created: bool, session_found: bool, queued: bool) -> (r: Result<String, String>)
    ensures
        result_view(r) == sendmsg_answer(uuid@, created, session_found, queued),
{
    if uuid.is_empty() {
        return Err(String::from_str("-ERR invalid session id"));
    }
    if !created {
        return Err(String::from_str("create event error"));
    }
    if !session_found {
        let mut e = String::from_str("-ERR invalid session id [");
        e.append(uuid);
        e.append("]");
        return Err(e);
    }
    if !queued {
        return Err(String::from_str("-ERR memory error"));
    }
    Ok(String::from_str("+OK"))
}

/// A core event, as plain values: its type number, priority, owner,
/// subclass name, key, flags, headers (name and value) and body.
#[derive(Debug, Clone)]
pub struct Event {
    pub event_id: u32,
    pub priority: u32,
    pub owner: String,
    pub subclass_name: String,
    pub key: u64,
    pub flags: i32,
    pub headers: Vec<(String, String)>,
    pub body: String,
}

/// No two headers share a name.
pub open spec fn headers_unique(h: Seq<(String, String)>) -> bool {
    forall|i: int, j: int| 0 <= i < h.len() && 0 <= j < h.len() && i != j ==> #[trigger] h[i].0@ != #[trigger] h[j].0@
}

/// The value of the header called `name`, if there is one.
pub open spec fn header_value(h: Seq<(String, String)>, name: Seq<char>) -> Option<Seq<char>> {
    if exists|i: int| 0 <= i < h.len() && #[trigger] h[i].0@ == name {
        Some(h[choose|i: int| 0 <= i < h.len() && #[trigger] h[i].0@ == name].1@)
    } else {
        None
    }
}

/// Records a header the way a map does: a header of that name takes the new
/// value, any other header is kept.
pub fn headers_insert(headers: &mut Vec<(String, String)>, name: String, value: String)
    requires
        headers_unique(old(headers)@),
    ensures
        headers_unique(final(headers)@),
        header_value(final(headers)@, name@) == Some(value@),
        forall|n: Seq<char>| n != name@ ==> header_value(final(headers)@, n) == header_value(old(headers)@, n),
{
    let ghost old_h = headers@;
    let mut i: usize = 0;
    while i < headers.len()
        invariant
            headers@ == old_h,
            old_h == old(headers)@,
            headers_unique(old_h),
            i <= headers@.len(),
            forall|j: int| 0 <= j < i ==> headers@[j].0@ != name@,
        decreases headers@.len() - i,
    {
        if headers[i].0 == name {
            let v = value;
            headers.set(i, (name, v));
            proof {
                assert forall|n: Seq<char>| n != name@ implies header_value(headers@, n) == header_value(old_h, n) by {
                    if exists|k: int| 0 <= k < old_h.len() && #[trigger] old_h[k].0@ == n {
                        let k = choose|k: int| 0 <= k < old_h.len() && #[trigger] old_h[k].0@ == n;
                        assert(headers@[k].0@ == n);
                        let k2 = choose|k: int| 0 <= k < headers@.len() && #[trigger] headers@[k].0@ == n;
                        assert(k2 == k);
                    } else {
                        assert forall|k: int| 0 <= k < headers@.len() implies #[trigger] headers@[k].0@ != n by {
                            if k != i {
                                assert(headers@[k] == old_h[k]);
                            }
                        }
                    }
                }
                assert(headers@[i as int].0@ == name@);
                let k2 = choose|k: int| 0 <= k < headers@.len() && #[trigger] headers@[k].0@ == name@;
                assert(k2 == i);
            }
            return;
        }
        i = i + 1;
    }
    headers.push((name, value));
    proof {
        let n0 = headers@.len() - 1;
        assert forall|n: Seq<char>| n != name@ implies header_value(headers@, n) == header_value(old_h, n) by {
            if exists|k: int| 0 <= k < old_h.len() && #[trigger] old_h[k].0@ == n {
                let k = choose|k: int| 0 <= k < old_h.len() && #[trigger] old_h[k].0@ == n;
                assert(headers@[k] == old_h[k]);
                let k2 = choose|k: int| 0 <= k < headers@.len() && #[trigger] headers@[k].0@ == n;
                assert(k2 == k);
            } else {
                assert forall|k: int| 0 <= k < headers@.len() implies #[trigger] headers@[k].0@ != n by {
                    if k < n0 {
                        assert(headers@[k] == old_h[k]);
                    }
                }
            }
        }
        assert(headers@[n0].0@ == name@);
        let k2 = choose|k: int| 0 <= k < headers@.len() && #[trigger] headers@[k].0@ == name@;
        assert(k2 == n0);
    }
}

} // verus!
