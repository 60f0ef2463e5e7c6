//! Call detail records: the CDR profile and its configuration rules, the
//! decision whether and how a call's record is produced, its file name, and
//! the posting of the record to the web server with retries.
use crate::paths::path_join;
use crate::sys::{switch_true, switch_true_spec};
use crate::text::{
    ascii_lower, eq_ignore_ascii_case, eq_ignore_ascii_case_str, parse_i32, parse_i32_spec, parse_u64,
    parse_u64_spec, starts_with, starts_with_str, str_to_chars,
};
use vstd::prelude::*;
use vstd::string::StringExecFns;

verus! {

broadcast use vstd::string::group_string_axioms;

/// The ranges a CDR profile keeps its numbers in, and the values used when a
/// number does not parse.
pub struct Limits {
    pub retries_default: i32,
    pub retries_min: i32,
    pub retries_max: i32,
    pub delay_default: i32,
    pub delay_min: i32,
    pub delay_max: i32,
    pub timeout_default: u64,
    pub timeout_min: u64,
    pub timeout_max: u64,
    /// The length of one unit of the delay, in milliseconds.
    pub delay_unit_ms: u64,
}

/// The limits are ordered ranges.
pub open spec fn limits_wf(l: Limits) -> bool {
    l.retries_min <= l.retries_max && l.delay_min <= l.delay_max && l.timeout_min <= l.timeout_max
}

impl Limits {
    /// The limits of the CDR module: 1 to 10 retries (1 if unreadable), a
    /// delay of 1 to 120 seconds (5), a timeout of 1000 to 6000 ms (5000);
    /// delays count in seconds.
    pub fn cdr() -> (r: Limits)
        ensures
            limits_wf(r),
            r.retries_default == 1 && r.retries_min == 1 && r.retries_max == 10,
            r.delay_default == 5 && r.delay_min == 1 && r.delay_max == 120,
            r.timeout_default == 5000 && r.timeout_min == 1000 && r.timeout_max == 6000,
            r.delay_unit_ms == 1000,
    {
        Limits {
            retries_default: 1,
            retries_min: 1,
            retries_max: 10,
            delay_default: 5,
            delay_min: 1,
            delay_max: 120,
            timeout_default: 5000,
            timeout_min: 1000,
            timeout_max: 6000,
            delay_unit_ms: 1000,
        }
    }

    /// The limits of the CDR posting module: 1 to 3 retries (0 if
    /// unreadable, then raised to 1), a delay of 10 to 6000 ms (20), a
    /// timeout of 10 to 6000 ms (20); delays count in milliseconds.
    pub fn cdr_post() -> (r: Limits)
        ensures
            limits_wf(r),
            r.retries_default == 0 && r.retries_min == 1 && r.retries_max == 3,
            r.delay_default == 20 && r.delay_min == 10 && r.delay_max == 6000,
            r.timeout_default == 20 && r.timeout_min == 10 && r.timeout_max == 6000,
            r.delay_unit_ms == 1,
    {
        Limits {
            retries_default: 0,
            retries_min: 1,
            retries_max: 3,
            delay_default: 20,
            delay_min: 10,
            delay_max: 6000,
            timeout_default: 20,
            timeout_min: 10,
            timeout_max: 6000,
            delay_unit_ms: 1,
        }
    }
}

/// `v` brought into `[lo, hi]`: raised to `lo`, then lowered to `hi`.
pub open spec fn clamp(v: int, lo: int, hi: int) -> int {
    let v1 = if v < lo {
        lo
    } else {
        v
    };
    if v1 > hi {
        hi
    } else {
        v1
    }
}

/// A CDR profile.
pub struct Profile {
    pub name: String,
    pub format: String,
    pub url: String,
    pub log_dir: String,
    pub err_log_dir: String,
    pub log_b_leg: bool,
    pub prefix_a_leg: bool,
    pub log_http_and_disk: bool,
    pub log_errors_to_disk: bool,
    pub timeout: u64,
    pub retries: i32,
    pub delay: i32,
    pub encode_values: bool,
}

/// A CDR profile as plain values.
pub struct ProfileView {
    pub name: Seq<char>,
    pub format: Seq<char>,
    pub url: Seq<char>,
    pub log_dir: Seq<char>,
    pub err_log_dir: Seq<char>,
    pub log_b_leg: bool,
    pub prefix_a_leg: bool,
    pub log_http_and_disk: bool,
    pub log_errors_to_disk: bool,
    pub timeout: u64,
    pub retries: i32,
    pub delay: i32,
    pub encode_values: bool,
}

impl View for Profile {
    type V = ProfileView;

    open spec fn view(&self) -> ProfileView {
        ProfileView {
            name: self.name@,
            format: self.format@,
            url: self.url@,
            log_dir: self.log_dir@,
            err_log_dir: self.err_log_dir@,
            log_b_leg: self.log_b_leg,
            prefix_a_leg: self.prefix_a_leg,
            log_http_and_disk: self.log_http_and_disk,
            log_errors_to_disk: self.log_errors_to_disk,
            timeout: self.timeout,
            retries: self.retries,
            delay: self.delay,
            encode_values: self.encode_values,
        }
    }
}

/// The profile before any parameter is read.
pub open spec fn default_profile() -> ProfileView {
    ProfileView {
        name: Seq::empty(),
        format: Seq::empty(),
        url: Seq::empty(),
        log_dir: Seq::empty(),
        err_log_dir: Seq::empty(),
        log_b_leg: false,
        prefix_a_leg: false,
        log_http_and_disk: false,
        log_errors_to_disk: true,
        timeout: 60,
        retries: 0,
        delay: 5,
        encode_values: true,
    }
}

/// A log directory setting: the given one, or `zrs_cdr` under the core's
/// `log_dir` when it is empty.
pub open spec fn log_dir_setting(val: Seq<char>, core_log_dir: Seq<char>) -> Seq<char> {
    if val.len() == 0 {
        core_log_dir + "/zrs_cdr"@
    } else {
        val
    }
}

/// The effect of one `<param name=var value=val/>` on a profile; names are
/// matched ignoring case, numbers that do not parse take the default and
/// all numbers are brought into their ranges.
pub open spec fn apply_param_spec(p: ProfileView, var: Seq<char>, val: Seq<char>, core_log_dir: Seq<char>, l: Limits) -> ProfileView {
    if eq_ignore_ascii_case(var, "url"@) {
        ProfileView { url: val, ..p }
    } else if eq_ignore_ascii_case(var, "format"@) {
        ProfileView { format: val, ..p }
    } else if eq_ignore_ascii_case(var, "retries"@) {
        let v = match parse_i32_spec(val) {
            Some(n) => n,
            None => l.retries_default as int,
        };
        ProfileView { retries: clamp(v, l.retries_min as int, l.retries_max as int) as i32, ..p }
    } else if eq_ignore_ascii_case(var, "delay"@) {
        let v = match parse_i32_spec(val) {
            Some(n) => n,
            None => l.delay_default as int,
        };
        ProfileView { delay: clamp(v, l.delay_min as int, l.delay_max as int) as i32, ..p }
    } else if eq_ignore_ascii_case(var, "log-http-and-disk"@) {
        ProfileView { log_http_and_disk: switch_true_spec(val), ..p }
    } else if eq_ignore_ascii_case(var, "log-dir"@) {
        ProfileView { log_dir: log_dir_setting(val, core_log_dir), ..p }
    } else if eq_ignore_ascii_case(var, "log-b-leg"@) {
        ProfileView { log_b_leg: switch_true_spec(val), ..p }
    } else if eq_ignore_ascii_case(var, "prefix-a-leg"@) {
        ProfileView { prefix_a_leg: switch_true_spec(val), ..p }
    } else if eq_ignore_ascii_case(var, "err-log-dir"@) {
        ProfileView { err_log_dir: log_dir_setting(val, core_log_dir), ..p }
    } else if eq_ignore_ascii_case(var, "timeout"@) {
        let v = match parse_u64_spec(val) {
            Some(n) => n,
            None => l.timeout_default as int,
        };
        ProfileView { timeout: clamp(v, l.timeout_min as int, l.timeout_max as int) as u64, ..p }
    } else if eq_ignore_ascii_case(var, "encode-values"@) {
        ProfileView { encode_values: switch_true_spec(val), ..p }
    } else {
        p
    }
}

/// A profile is used only when its URL is an HTTP or HTTPS URL.
pub open spec fn url_accepted(url: Seq<char>) -> bool {
    starts_with(url, "http://"@) || starts_with(url, "https://"@)
}

/// Whether a URL is an HTTP or HTTPS URL.
pub fn is_http_url(url: &str) -> (r: bool)
    ensures
        r == url_accepted(url@),
{
    let v = str_to_chars(url);
    starts_with_str(v.as_slice(), "http://") || starts_with_str(v.as_slice(), "https://")
}

/// `v` brought into `[lo, hi]`.
fn clamp_i32(v: i32, lo: i32, hi: i32) -> (r: i32)
    ensures
        r as int == clamp(v as int, lo as int, hi as int),
{
    let mut x = v;
    if x < lo {
        x = lo;
    }
    if x > hi {
        x = hi;
    }
    x
}

/// `v` brought into `[lo, hi]`.
fn clamp_u64(v: u64, lo: u64, hi: u64) -> (r: u64)
    ensures
        r as int == clamp(v as int, lo as int, hi as int),
{
    let mut x = v;
    if x < lo {
        x = lo;
    }
    if x > hi {
        x = hi;
    }
    x
}

/// A log directory setting (see `log_dir_setting`).
fn log_dir_value(val: &str, core_log_dir: &str) -> (r: String)
    ensures
        r@ == log_dir_setting(val@, core_log_dir@),
{
    if val.is_empty() {
        let mut d = String::from_str(core_log_dir);
        d.append("/zrs_cdr");
        d
    } else {
        String::from_str(val)
    }
}

impl Profile {
    /// The profile before any parameter is read.
    pub fn new() -> (r: Profile)
        ensures
            r@ == default_profile(),
    {
        Profile {
            name: String::new(),
            format: String::new(),
            url: String::new(),
            log_dir: String::new(),
            err_log_dir: String::new(),
            log_b_leg: false,
            prefix_a_leg: false,
            log_http_and_disk: false,
            log_errors_to_disk: true,
            timeout: 60,
            retries: 0,
            delay: 5,
            encode_values: true,
        }
    }

    /// Names the profile (from its `<cdr name=...>` tag).
    pub fn set_name(&mut self, name: &str)
        ensures
            final(self)@ == (ProfileView { name: name@, ..old(self)@ }),
    {
        self.name = String::from_str(name);
    }

    /// Reads one configuration parameter; `core_log_dir` is the core's
    /// `log_dir` variable, `limits` those of the module (see
    /// `apply_param_spec`).
    pub fn apply_param(&mut self, var: &str, val: &str, core_log_dir: &str, limits: &Limits)
        ensures
            final(self)@ == apply_param_spec(old(self)@, var@, val@, core_log_dir@, *limits),
    {
        let v = str_to_chars(var);
        let vs = v.as_slice();
        let valv = str_to_chars(val);
        if eq_ignore_ascii_case_str(vs, "url") {
            self.url = String::from_str(val);
        } else if eq_ignore_ascii_case_str(vs, "format") {
            self.format = String::from_str(val);
        } else if eq_ignore_ascii_case_str(vs, "retries") {
            let n = match parse_i32(valv.as_slice()) {
                Some(n) => n,
                None => limits.retries_default,
            };
            self.retries = clamp_i32(n, limits.retries_min, limits.retries_max);
        } else if eq_ignore_ascii_case_str(vs, "delay") {
            let n = match parse_i32(valv.as_slice()) {
                Some(n) => n,
                None => limits.delay_default,
            };
            self.delay = clamp_i32(n, limits.delay_min, limits.delay_max);
        } else if eq_ignore_ascii_case_str(vs, "log-http-and-disk") {
            self.log_http_and_disk = switch_true(val);
        } else if eq_ignore_ascii_case_str(vs, "log-dir") {
            self.log_dir = log_dir_value(val, core_log_dir);
        } else if eq_ignore_ascii_case_str(vs, "log-b-leg") {
            self.log_b_leg = switch_true(val);
        } else if eq_ignore_ascii_case_str(vs, "prefix-a-leg") {
            self.prefix_a_leg = switch_true(val);
        } else if eq_ignore_ascii_case_str(vs, "err-log-dir") {
            self.err_log_dir = log_dir_value(val, core_log_dir);
        } else if eq_ignore_ascii_case_str(vs, "timeout") {
            let n = match parse_u64(valv.as_slice()) {
                Some(n) => n,
                None => limits.timeout_default,
            };
            self.timeout = clamp_u64(n, limits.timeout_min, limits.timeout_max);
        } else if eq_ignore_ascii_case_str(vs, "encode-values") {
            self.encode_values = switch_true(val);
        }
    }

    /// Whether the profile is used: its URL is an HTTP or HTTPS URL.
    pub fn is_usable(&self) -> (r: bool)
        ensures
            r == url_accepted(self.url@),
    {
        is_http_url(self.url.as_str())
    }
}

/// A configured retry count, delay or timeout lies in its range, whatever
/// the text it was read from.
pub proof fn lemma_numbers_in_range(p: ProfileView, var: Seq<char>, val: Seq<char>, core_log_dir: Seq<char>, l: Limits)
    requires
        limits_wf(l),
    ensures
        eq_ignore_ascii_case(var, "retries"@) ==> l.retries_min <= apply_param_spec(p, var, val, core_log_dir, l).retries <= l.retries_max,
        eq_ignore_ascii_case(var, "delay"@) ==> l.delay_min <= apply_param_spec(p, var, val, core_log_dir, l).delay <= l.delay_max,
        eq_ignore_ascii_case(var, "timeout"@) ==> l.timeout_min <= apply_param_spec(p, var, val, core_log_dir, l).timeout <= l.timeout_max,
{
    reveal_strlit("url");
    reveal_strlit("format");
    reveal_strlit("retries");
    reveal_strlit("delay");
    reveal_strlit("log-http-and-disk");
    reveal_strlit("log-dir");
    reveal_strlit("log-b-leg");
    reveal_strlit("prefix-a-leg");
    reveal_strlit("err-log-dir");
    reveal_strlit("timeout");
    if eq_ignore_ascii_case(var, "timeout"@) {
        assert(ascii_lower(var[0]) == ascii_lower('t'));
    }
}

/// A `log-dir` or `err-log-dir` parameter (any case) with a non-empty value
/// sets that directory to the value as given; an empty value sets it to
/// `zrs_cdr` under the core's log directory. No other setting changes.
pub proof fn lemma_log_dirs_as_given(p: ProfileView, var: Seq<char>, val: Seq<char>, core_log_dir: Seq<char>, l: Limits)
    ensures
        eq_ignore_ascii_case(var, "log-dir"@) ==> apply_param_spec(p, var, val, core_log_dir, l)
            == (ProfileView {
            log_dir: if val.len() > 0 {
                val
            } else {
                core_log_dir + "/zrs_cdr"@
            },
            ..p
        }),
        eq_ignore_ascii_case(var, "err-log-dir"@) ==> apply_param_spec(p, var, val, core_log_dir, l)
            == (ProfileView {
            err_log_dir: if val.len() > 0 {
                val
            } else {
                core_log_dir + "/zrs_cdr"@
            },
            ..p
        }),
{
    reveal_strlit("url");
    reveal_strlit("format");
    reveal_strlit("retries");
    reveal_strlit("delay");
    reveal_strlit("log-http-and-disk");
    reveal_strlit("log-dir");
    reveal_strlit("log-b-leg");
    reveal_strlit("prefix-a-leg");
    reveal_strlit("err-log-dir");
    if eq_ignore_ascii_case(var, "log-dir"@) {
        assert(ascii_lower(var[4]) == ascii_lower('d'));
        assert(ascii_lower(var[0]) == ascii_lower('l'));
    }
    if eq_ignore_ascii_case(var, "err-log-dir"@) {
        assert(ascii_lower(var[0]) == ascii_lower('e'));
    }
}

/// A call's detail record: its format, text, call id and file name.
pub struct CdrData {
    pub fromat: String,
    pub text: String,
    pub uuid: String,
    pub filename: String,
}

/// What to do about a call's record.
#[derive(Debug, Clone, Copy, PartialEq, Eq)]
pub enum CdrPlan {
    /// No record (a B leg that is neither logged nor forced).
    Skip,
    /// Produce the record: as JSON or XML, marked B leg or not, with the
    /// `a_` file name prefix or not.
    Generate { json: bool, is_bleg: bool, a_prefix: bool },
}

/// Decides a call's record, given whether the call is a B leg and the
/// channel's force-processing variable: B legs are recorded only when the
/// profile logs them or the variable is true; the record is JSON when the
/// format is `json` (any case), XML otherwise; the `a_` prefix marks B legs
/// when the profile asks for it.
pub fn cdr_plan(profile: &Profile, is_b: bool, force_cdr: &str) -> (r: CdrPlan)
    ensures
        (!profile.log_b_leg && is_b && !switch_true_spec(force_cdr@)) <==> r is Skip,
        r matches CdrPlan::Generate { json, is_bleg, a_prefix } ==> json == eq_ignore_ascii_case(
            profile.format@,
            "json"@,
        ) && is_bleg == is_b && a_prefix == (is_b && profile.prefix_a_leg),
{
    if !profile.log_b_leg && is_b {
        if !switch_true(force_cdr) {
            return CdrPlan::Skip;
        }
    }
    let fv = str_to_chars(profile.format.as_str());
    CdrPlan::Generate {
        json: eq_ignore_ascii_case_str(fv.as_slice(), "json"),
        is_bleg: is_b,
        a_prefix: is_b && profile.prefix_a_leg,
    }
}

/// The record's file name: `[a_]<uuid>.cdr.<format>`.
pub open spec fn cdr_filename(a_prefix: bool, uuid: Seq<char>, format: Seq<char>) -> Seq<char> {
    (if a_prefix {
        "a_"@
    } else {
        Seq::empty()
    }) + uuid + ".cdr."@ + format
}

/// Assembles a call's record from its generated text.
pub fn make_cdr_data(profile: &Profile, a_prefix: bool, uuid: &str, text: String) -> (r: CdrData)
    ensures
        r.fromat@ == profile.format@,
        r.text@ == text@,
        r.uuid@ == uuid@,
        r.filename@ == cdr_filename(a_prefix, uuid@, profile.format@),
{
    let mut filename = if a_prefix {
        String::from_str("a_")
    } else {
        String::new()
    };
    filename.append(uuid);
    filename.append(".cdr.");
    filename.append(profile.format.as_str());
    CdrData {
        fromat: String::from_str(profile.format.as_str()),
        text,
        uuid: String::from_str(uuid),
        filename,
    }
}

/// The content type a record is posted with: `text/xml` when the format is
/// `json` (any case), `application/json` otherwise.
pub fn post_content_type(format: &str) -> (r: &'static str)
    ensures
        eq_ignore_ascii_case(format@, "json"@) ==> r@ == "text/xml"@,
        !eq_ignore_ascii_case(format@, "json"@) ==> r@ == "application/json"@,
{
    let fv = str_to_chars(format);
    if eq_ignore_ascii_case_str(fv.as_slice(), "json") {
        "text/xml"
    } else {
        "application/json"
    }
}

/// Where a record is written on disk: `<dir>/<year>/<month+day>/<file name>`.
pub fn record_path(dir: &str, year: &str, month_day: &str, filename: &str) -> (r: String)
    ensures
        r@ == path_join(path_join(path_join(dir@, year@), month_day@), filename@),
{
    let a = crate::paths::join_path(dir, year);
    let b = crate::paths::join_path(a.as_str(), month_day);
    crate::paths::join_path(b.as_str(), filename)
}

/// A record is also written to the log directory when the profile logs to
/// both web and disk and the day's directory was just created (not when it
/// already existed).
pub fn write_http_log(log_http_and_disk: bool, dir_existed: bool, created: bool) -> (r: bool)
    ensures
        r == (log_http_and_disk && !dir_existed && created),
{
    log_http_and_disk && !dir_existed && created
}

/// A record that could not be posted is written to the error directory when
/// the profile logs errors to disk and the day's directory exists or was
/// created.
pub fn write_error_log(success: bool, log_errors_to_disk: bool, dir_existed: bool, created: bool) -> (r: bool)
    ensures
        r == (!success && log_errors_to_disk && (dir_existed || created)),
{
    !success && log_errors_to_disk && (dir_existed || created)
}

/// The posting of one record: how many attempts were made, how many are
/// allowed, and whether one succeeded.
pub struct CdrPoster {
    pub made: u32,
    pub allowed: u32,
    pub retries: i32,
    pub success: bool,
    /// The wait before each retry, in milliseconds.
    pub delay_ms: u64,
}

/// The next thing to do when posting a record.
#[derive(Debug, Clone, Copy, PartialEq, Eq)]
pub enum PostStep {
    /// Post (again), first waiting `wait_ms` milliseconds; `wait_first`
    /// when there is a wait (every attempt but the first).
    Post { wait_first: bool, wait_ms: u64 },
    /// Stop, with or without success.
    Finished { success: bool },
}

/// The attempts a profile allows: `retries + 1` for the CDR module (a first
/// try and the retries), `retries` for the posting module; none when the
/// count is negative.
pub open spec fn attempts_allowed(retries: i32, with_first_try: bool) -> int {
    let n = if with_first_try {
        retries + 1
    } else {
        retries as int
    };
    if n < 0 {
        0
    } else {
        n
    }
}

/// The wait before a retry, in milliseconds: the profile's delay, read as
/// an unsigned number as the sleep does (a negative delay wraps around), in
/// units of `unit_ms`; a wait longer than `u64::MAX` milliseconds is
/// `u64::MAX`.
pub open spec fn delay_ms_spec(delay: i32, unit_ms: u64) -> int {
    let d: int = if delay >= 0 {
        delay as int
    } else {
        delay + 0x1_0000_0000_0000_0000
    };
    if d * unit_ms > u64::MAX {
        u64::MAX as int
    } else {
        d * unit_ms
    }
}

/// The poster's counts agree.
pub open spec fn poster_wf(p: CdrPoster) -> bool {
    &&& p.made <= p.allowed
    &&& p.success ==> p.made >= 1
}

impl CdrPoster {
    /// Starts posting a record with the profile's retry count and delay;
    /// `delay_unit_ms` is the length of a delay unit in milliseconds.
    pub fn new(retries: i32, delay: i32, delay_unit_ms: u64, with_first_try: bool) -> (r: CdrPoster)
        ensures
            poster_wf(r),
            r.made == 0,
            r.allowed == attempts_allowed(retries, with_first_try),
            r.retries == retries,
            !r.success,
            r.delay_ms == delay_ms_spec(delay, delay_unit_ms),
    {
        let d: u64 = delay as u64;
        assert(delay >= 0 ==> d == delay) by (bit_vector)
            requires
                d == delay as u64,
        ;
        assert(delay < 0 ==> d == delay + 0x1_0000_0000_0000_0000) by (bit_vector)
            requires
                d == delay as u64,
        ;
        let delay_ms: u64 = match d.checked_mul(delay_unit_ms) {
            Some(x) => x,
            None => u64::MAX,
        };
        let n: i64 = if with_first_try {
            retries as i64 + 1
        } else {
            retries as i64
        };
        let allowed: u32 = if n < 0 {
            0
        } else {
            n as u32
        };
        CdrPoster { made: 0, allowed, retries, success: false, delay_ms }
    }

    /// The next step: post while no attempt succeeded and attempts remain,
    /// waiting the delay before every attempt but the first.
    pub fn next(&self) -> (r: PostStep)
        requires
            poster_wf(*self),
        ensures
            r matches PostStep::Post { wait_first, wait_ms } ==> !self.success && self.made
                < self.allowed && wait_first == (self.made > 0) && wait_ms == (if self.made > 0 {
                self.delay_ms
            } else {
                0
            }),
            r matches PostStep::Finished { success } ==> success == self.success && (self.success
                || self.made == self.allowed),
    {
        if self.success || self.made >= self.allowed {
            PostStep::Finished { success: self.success }
        } else {
            PostStep::Post {
                wait_first: self.made > 0,
                wait_ms: if self.made > 0 {
                    self.delay_ms
                } else {
                    0
                },
            }
        }
    }

    /// Records the outcome of an attempt; returns whether another attempt
    /// is announced (a failed attempt that is not the last retry).
    pub fn record(&mut self, ok: bool) -> (announce_retry: bool)
        requires
            poster_wf(*old(self)),
            !old(self).success,
            old(self).made < old(self).allowed,
        ensures
            poster_wf(*final(self)),
            final(self).made == old(self).made + 1,
            final(self).allowed == old(self).allowed,
            final(self).retries == old(self).retries,
            final(self).delay_ms == old(self).delay_ms,
            final(self).success == ok,
            announce_retry == (!ok && (old(self).made as int) < old(self).retries),
    {
        let tried = self.made;
        self.made = self.made + 1;
        self.success = ok;
        !ok && (tried as i64) < (self.retries as i64)
    }
}

/// Posting stops at the first success and never makes more attempts than
/// allowed: from any state, each attempt moves the count up by one, and
/// `next` allows an attempt only below the limit and before a success.
pub proof fn lemma_posting_bounded(p: CdrPoster, q: CdrPoster, ok: bool)
    requires
        poster_wf(p),
        !p.success,
        p.made < p.allowed,
        q.made == p.made + 1,
        q.allowed == p.allowed,
        q.success == ok,
    ensures
        poster_wf(q),
        q.made <= q.allowed,
        ok ==> q.success,
{
}

} // verus!
