//! Fetching the core's XML configuration over HTTP: the binding's
//! configuration rules, the module's running state, which answer the core
//! gets, and the pre-processing directives of a fetched document.
use crate::cdr::{clamp, url_accepted, is_http_url};
use crate::preprocess::{text_directives, text_directives_exec, Directive, DirectiveModel};
use crate::sys::{switch_true, switch_true_spec};
use crate::text::{
    contains, contains_str, eq_ignore_ascii_case, eq_ignore_ascii_case_str, parse_u64,
    parse_u64_spec, str_to_chars,
};
use vstd::prelude::*;
use vstd::string::StringExecFns;

verus! {

broadcast use vstd::string::group_string_axioms;

/// The shortest request timeout, in milliseconds.
pub const MIN_TIMEOUT_MS: u64 = 1000;

/// The longest request timeout, in milliseconds.
pub const MAX_TIMEOUT_MS: u64 = 60000;

/// The timeout a malformed `timeout` parameter gives, in milliseconds.
pub const DEFAULT_TIMEOUT_MS: u64 = 5000;

/// A configuration binding: the server that answers the core's
/// configuration lookups, and for which sections.
pub struct Binding {
    pub name: String,
    pub url: String,
    pub bindings: String,
    pub timeout: u64,
    pub debug: bool,
}

/// A binding as plain values.
pub struct BindingView {
    pub name: Seq<char>,
    pub url: Seq<char>,
    pub bindings: Seq<char>,
    pub timeout: u64,
    pub debug: bool,
}

impl View for Binding {
    type V = BindingView;

    open spec fn view(&self) -> BindingView {
        BindingView {
            name: self.name@,
            url: self.url@,
            bindings: self.bindings@,
            timeout: self.timeout,
            debug: self.debug,
        }
    }
}

/// The effect of one `<param name=var value=val bindings=mask/>` on a
/// binding: `gateway-url` sets the URL and the sections (`mask`),
/// `timeout` the request timeout (within 1000 to 60000 ms, 5000 if
/// unreadable), `debug` the logging of requests.
pub open spec fn apply_param_spec(b: BindingView, var: Seq<char>, val: Seq<char>, mask: Seq<char>) -> BindingView {
    if eq_ignore_ascii_case(var, "gateway-url"@) {
        BindingView { url: val, bindings: mask, ..b }
    } else if eq_ignore_ascii_case(var, "timeout"@) {
        let v = match parse_u64_spec(val) {
            Some(n) => n,
            None => DEFAULT_TIMEOUT_MS as int,
        };
        BindingView { timeout: clamp(v, MIN_TIMEOUT_MS as int, MAX_TIMEOUT_MS as int) as u64, ..b }
    } else if eq_ignore_ascii_case(var, "debug"@) {
        BindingView { debug: switch_true_spec(val), ..b }
    } else {
        b
    }
}

impl Binding {
    /// A binding before any parameter is read.
    pub fn new() -> (r: Binding)
        ensures
            r@ == (BindingView {
                name: Seq::empty(),
                url: Seq::empty(),
                bindings: Seq::empty(),
                timeout: 0,
                debug: false,
            }),
    {
        Binding {
            name: String::new(),
            url: String::new(),
            bindings: String::new(),
            timeout: 0,
            debug: false,
        }
    }

    /// Names the binding (from its `<binding name=...>` tag).
    pub fn set_name(&mut self, name: &str)
        ensures
            final(self)@ == (BindingView { name: name@, ..old(self)@ }),
    {
        self.name = String::from_str(name);
    }

    /// Reads one configuration parameter (see `apply_param_spec`); `mask`
    /// is the parameter's `bindings` attribute.
    pub fn apply_param(&mut self, var: &str, val: &str, mask: &str)
        ensures
            final(self)@ == apply_param_spec(old(self)@, var@, val@, mask@),
    {
        let v = str_to_chars(var);
        if eq_ignore_ascii_case_str(v.as_slice(), "gateway-url") {
            self.url = String::from_str(val);
            self.bindings = String::from_str(mask);
        } else if eq_ignore_ascii_case_str(v.as_slice(), "timeout") {
            let vv = str_to_chars(val);
            let mut t = match parse_u64(vv.as_slice()) {
                Some(n) => n,
                None => DEFAULT_TIMEOUT_MS,
            };
            if t < MIN_TIMEOUT_MS {
                t = MIN_TIMEOUT_MS;
            }
            if t > MAX_TIMEOUT_MS {
                t = MAX_TIMEOUT_MS;
            }
            self.timeout = t;
        } else if eq_ignore_ascii_case_str(v.as_slice(), "debug") {
            self.debug = switch_true(val);
        }
    }

    /// Whether the binding is used: its URL is an HTTP or HTTPS URL.
    pub fn is_usable(&self) -> (r: bool)
        ensures
            r == url_accepted(self.url@),
    {
        is_http_url(self.url.as_str())
    }
}

/// The configuration fetching state: the core binding made at start (0 if
/// none), whether lookups are answered, and the configured binding.
pub struct Global {
    pub bind_node: u64,
    pub running: bool,
    pub bindings: Option<Binding>,
}

impl Global {
    /// Nothing configured, nothing bound, not running.
    pub fn new() -> (r: Global)
        ensures
            r.bind_node == 0,
            !r.running,
            r.bindings is None,
    {
        Global { bind_node: 0, running: false, bindings: None }
    }

    /// Records that the configured binding was bound to the core as
    /// `node`: lookups are answered from now on. Without a configured
    /// binding nothing starts.
    pub fn start(&mut self, node: u64) -> (started: bool)
        ensures
            started == old(self).bindings is Some,
            started ==> final(self).running && final(self).bind_node == node,
            !started ==> final(self).running == old(self).running && final(self).bind_node
                == old(self).bind_node,
            final(self).bindings == old(self).bindings,
    {
        if self.bindings.is_some() {
            self.running = true;
            self.bind_node = node;
            true
        } else {
            false
        }
    }

    /// Stops answering lookups; returns the core binding to remove, if one
    /// was made.
    pub fn shutdown(&mut self) -> (unbind: Option<u64>)
        ensures
            !final(self).running,
            final(self).bind_node == old(self).bind_node,
            final(self).bindings == old(self).bindings,
            unbind == (if old(self).bind_node > 0 {
                Some(old(self).bind_node)
            } else {
                None
            }),
    {
        self.running = false;
        if self.bind_node > 0 {
            Some(self.bind_node)
        } else {
            None
        }
    }
}

/// The answer the core gets when nothing better is found.
pub open spec fn not_found_document() -> Seq<char> {
    "<?xml version=\"1.0\" encoding=\"UTF-8\" standalone=\"no\"?>\n<document type=\"freeswitch/xml\">\n<section name=\"result\">\n<result status=\"not found\"/>\n</section>\n</document>"@
}

/// The answer the core gets when nothing better is found.
pub fn not_found_text() -> (r: String)
    ensures
        r@ == not_found_document(),
{
    String::from_str(
        "<?xml version=\"1.0\" encoding=\"UTF-8\" standalone=\"no\"?>\n<document type=\"freeswitch/xml\">\n<section name=\"result\">\n<result status=\"not found\"/>\n</section>\n</document>",
    )
}

/// The fetched document is handed to the core when lookups are answered, a
/// binding is configured and the server sent a non-empty body; otherwise
/// (`None`) the core gets the not-found document.
pub fn fetch_answer(running: bool, has_binding: bool, body: Option<Vec<u8>>) -> (r: Option<Vec<u8>>)
    ensures
        r matches Some(b) ==> running && has_binding && body == Some(b) && b@.len() > 0,
        r is None ==> !running || !has_binding || body is None || body->0@.len() == 0,
{
    if !running || !has_binding {
        return None;
    }
    match body {
        Some(b) => if b.len() > 0 {
            Some(b)
        } else {
            None
        },
        None => None,
    }
}

/// The directives of a fetched document that are carried out: those of
/// every line, unless the document mentions `X-PRE-PROCESS` as such.
pub open spec fn fetched_directives(text: Seq<char>) -> Seq<DirectiveModel> {
    if contains(text, "X-PRE-PROCESS"@) {
        Seq::empty()
    } else {
        text_directives(text)
    }
}

/// The pre-processing directives of a fetched document to carry out, in
/// order (see `fetched_directives`); their data is expanded before use.
pub fn process(text: &str) -> (r: Vec<Directive>)
    ensures
        r@.map_values(|d: Directive| d@) == fetched_directives(text@),
{
    let tv = str_to_chars(text);
    if contains_str(tv.as_slice(), "X-PRE-PROCESS") {
        let r: Vec<Directive> = Vec::new();
        proof {
            assert(r@.map_values(|d: Directive| d@) =~= Seq::<DirectiveModel>::empty());
        }
        return r;
    }
    text_directives_exec(tv.as_slice())
}

} // verus!
