//! Remote file storage: the storage profiles and their configuration rules,
//! finding a profile by name, the state of an open file, and the decisions
//! of the file interface (silence at the start of playback, seeking, flags).
use crate::cdr::{clamp, url_accepted, is_http_url};
use crate::paths::{join_path, path_join};
use crate::text::{
    eq_ignore_ascii_case, eq_ignore_ascii_case_str, parse_i32, parse_i32_spec, str_to_chars,
};
use vstd::prelude::*;
use vstd::string::StringExecFns;

verus! {

broadcast use vstd::string::group_string_axioms;

/// The value a malformed expiry or time-to-live parameter gives.
pub const DEFAULT_EXPIRES: i32 = 5;

/// The range expiry and time-to-live parameters are kept in.
pub const MIN_EXPIRES: i32 = 1;

/// The range expiry and time-to-live parameters are kept in.
pub const MAX_EXPIRES: i32 = 120;

/// The samples of silence played before a file's own audio.
pub const LEADING_SILENCE_SAMPLES: u32 = 10;

/// A storage profile; `C` is the cache that serves its files.
pub struct Profile<C> {
    pub name: String,
    /// Time to keep files when discovered they were deleted from the server.
    pub file_not_found_expires: i32,
    /// How often to check that the remote file has not changed.
    pub file_cache_ttl: i32,
    /// The storage server's URL.
    pub url: String,
    /// Where cached files are kept.
    pub cache_dir: String,
    /// The cache, once created.
    pub cached: Option<C>,
}

/// A storage profile's settings as plain values.
pub struct ProfileView {
    pub name: Seq<char>,
    pub file_not_found_expires: i32,
    pub file_cache_ttl: i32,
    pub url: Seq<char>,
    pub cache_dir: Seq<char>,
}

impl<C> View for Profile<C> {
    type V = ProfileView;

    open spec fn view(&self) -> ProfileView {
        ProfileView {
            name: self.name@,
            file_not_found_expires: self.file_not_found_expires,
            file_cache_ttl: self.file_cache_ttl,
            url: self.url@,
            cache_dir: self.cache_dir@,
        }
    }
}

/// Only the `hfs` and `s3` storages (any case) are served.
pub open spec fn storage_name_accepted(name: Seq<char>) -> bool {
    eq_ignore_ascii_case(name, "hfs"@) || eq_ignore_ascii_case(name, "s3"@)
}

/// Whether a storage of this name is served.
pub fn accepts_storage_name(name: &str) -> (r: bool)
    ensures
        r == storage_name_accepted(name@),
{
    let v = str_to_chars(name);
    eq_ignore_ascii_case_str(v.as_slice(), "hfs") || eq_ignore_ascii_case_str(v.as_slice(), "s3")
}

/// An expiry or time-to-live parameter: read as a number (5 if
/// unreadable) and kept within 1 to 120.
pub open spec fn expires_setting(val: Seq<char>) -> int {
    clamp(
        match parse_i32_spec(val) {
            Some(n) => n,
            None => DEFAULT_EXPIRES as int,
        },
        MIN_EXPIRES as int,
        MAX_EXPIRES as int,
    )
}

/// The effect of one `<param name=var value=val/>` on a storage profile:
/// `url`, `file-not-found-expires`, `file-cache-ttl`, and a non-empty
/// `cache-dir`; afterwards a profile still without a cache directory gets
/// `<storage_dir>/<name>_cache`.
pub open spec fn apply_param_spec(p: ProfileView, var: Seq<char>, val: Seq<char>, storage_dir: Seq<char>) -> ProfileView {
    let q = if eq_ignore_ascii_case(var, "url"@) {
        ProfileView { url: val, ..p }
    } else if eq_ignore_ascii_case(var, "file-not-found-expires"@) {
        ProfileView { file_not_found_expires: expires_setting(val) as i32, ..p }
    } else if eq_ignore_ascii_case(var, "file-cache-ttl"@) {
        ProfileView { file_cache_ttl: expires_setting(val) as i32, ..p }
    } else if eq_ignore_ascii_case(var, "cache-dir"@) && val.len() > 0 {
        ProfileView { cache_dir: val, ..p }
    } else {
        p
    };
    if q.cache_dir.len() == 0 {
        ProfileView { cache_dir: path_join(storage_dir, q.name + "_cache"@), ..q }
    } else {
        q
    }
}

/// An expiry or time-to-live parameter (see `expires_setting`).
fn expires_value(val: &str) -> (r: i32)
    ensures
        r as int == expires_setting(val@),
{
    let v = str_to_chars(val);
    let mut n = match parse_i32(v.as_slice()) {
        Some(n) => n,
        None => DEFAULT_EXPIRES,
    };
    if n < MIN_EXPIRES {
        n = MIN_EXPIRES;
    }
    if n > MAX_EXPIRES {
        n = MAX_EXPIRES;
    }
    n
}

impl<C> Profile<C> {
    /// A profile named `name`, before any parameter is read.
    pub fn new(name: &str) -> (r: Profile<C>)
        ensures
            r@ == (ProfileView {
                name: name@,
                file_not_found_expires: 1,
                file_cache_ttl: 1,
                url: Seq::empty(),
                cache_dir: Seq::empty(),
            }),
            r.cached is None,
    {
        Profile {
            name: String::from_str(name),
            file_not_found_expires: 1,
            file_cache_ttl: 1,
            url: String::new(),
            cache_dir: String::new(),
            cached: None,
        }
    }

    /// Reads one configuration parameter; `storage_dir` is the core's
    /// `storage_dir` variable (see `apply_param_spec`).
    pub fn apply_param(&mut self, var: &str, val: &str, storage_dir: &str)
        ensures
            final(self)@ == apply_param_spec(old(self)@, var@, val@, storage_dir@),
            final(self).cached == old(self).cached,
    {
        let v = str_to_chars(var);
        if eq_ignore_ascii_case_str(v.as_slice(), "url") {
            self.url = String::from_str(val);
        } else if eq_ignore_ascii_case_str(v.as_slice(), "file-not-found-expires") {
            self.file_not_found_expires = expires_value(val);
        } else if eq_ignore_ascii_case_str(v.as_slice(), "file-cache-ttl") {
            self.file_cache_ttl = expires_value(val);
        } else if eq_ignore_ascii_case_str(v.as_slice(), "cache-dir") && !val.is_empty() {
            self.cache_dir = String::from_str(val);
        }
        if self.cache_dir.as_str().is_empty() {
            let mut dir_name = String::from_str(self.name.as_str());
            dir_name.append("_cache");
            self.cache_dir = join_path(storage_dir, dir_name.as_str());
        }
    }

    /// Whether the profile is served: its URL is an HTTP or HTTPS URL.
    pub fn is_usable(&self) -> (r: bool)
        ensures
            r == url_accepted(self.url@),
    {
        is_http_url(self.url.as_str())
    }
}

/// The served storage profiles, in the order they were configured.
pub struct Global<C> {
    pub profiles: Vec<Profile<C>>,
}

impl<C> Global<C> {
    /// No profile.
    pub fn new() -> (r: Global<C>)
        ensures
            r.profiles@.len() == 0,
    {
        Global { profiles: Vec::new() }
    }

    /// Adds a configured profile.
    pub fn add(&mut self, profile: Profile<C>)
        ensures
            final(self).profiles@ == old(self).profiles@.push(profile),
    {
        self.profiles.push(profile);
    }

    /// The first profile whose name is `name`, ignoring ASCII case.
    pub fn get(&self, name: &str) -> (r: Option<&Profile<C>>)
        ensures
            r matches Some(p) ==> exists|i: int|
                0 <= i < self.profiles@.len() && self.profiles@[i] == *p && eq_ignore_ascii_case(
                    p.name@,
                    name@,
                ) && forall|j: int|
                    0 <= j < i ==> !eq_ignore_ascii_case(#[trigger] self.profiles@[j].name@, name@),
            r is None ==> forall|j: int|
                0 <= j < self.profiles@.len() ==> !eq_ignore_ascii_case(
                    #[trigger] self.profiles@[j].name@,
                    name@,
                ),
    {
        let nv = str_to_chars(name);
        let mut i: usize = 0;
        while i < self.profiles.len()
            invariant
                i <= self.profiles@.len(),
                nv@ == name@,
                forall|j: int|
                    0 <= j < i ==> !eq_ignore_ascii_case(#[trigger] self.profiles@[j].name@, name@),
            decreases self.profiles@.len() - i,
        {
            let pv = str_to_chars(self.profiles[i].name.as_str());
            if crate::text::chars_eq_ignore_ascii_case(pv.as_slice(), nv.as_slice()) {
                return Some(&self.profiles[i]);
            }
            i = i + 1;
        }
        None
    }

    /// Removes every profile, last first; returns the caches to close, in
    /// that order.
    pub fn shutdown(&mut self) -> (to_close: Vec<C>)
        ensures
            final(self).profiles@.len() == 0,
            to_close@ == closing_order(old(self).profiles@),
    {
        let mut to_close: Vec<C> = Vec::new();
        loop
            invariant
                to_close@ + closing_order(self.profiles@) == closing_order(old(self).profiles@),
            decreases self.profiles@.len(),
        {
            let ghost before = self.profiles@;
            let ghost closed_before = to_close@;
            match self.profiles.pop() {
                Some(profile) => {
                    proof {
                        assert(before.drop_last() =~= self.profiles@);
                        assert(before.last() == profile);
                    }
                    match profile.cached {
                        Some(c) => {
                            to_close.push(c);
                            proof {
                                assert(to_close@ =~= closed_before + seq![c]);
                            }
                        },
                        None => {},
                    }
                },
                None => {
                    proof {
                        assert(to_close@ =~= to_close@ + closing_order(self.profiles@));
                    }
                    return to_close;
                },
            }
        }
    }
}

/// The caches of the profiles, last profile first.
pub open spec fn closing_order<C>(ps: Seq<Profile<C>>) -> Seq<C>
    decreases ps.len(),
{
    if ps.len() == 0 {
        Seq::empty()
    } else {
        (match ps.last().cached {
            Some(c) => seq![c],
            None => Seq::empty(),
        }) + closing_order(ps.drop_last())
    }
}

/// The state of a file opened through a storage profile; `F` is the core
/// file handle that does the actual reading and writing, `C` the cache.
pub struct FileContext<F, C> {
    pub file_url: String,
    pub file_path: String,
    pub stream: String,
    pub cache_file: String,
    /// Samples of silence still to play before the file's audio.
    pub samples: u32,
    pub fh: F,
    pub cached: Option<C>,
}

impl<F, C> FileContext<F, C> {
    /// A fresh context around the core file handle `fh`: nothing named yet,
    /// the leading silence still to play.
    pub fn new(fh: F) -> (r: FileContext<F, C>)
        ensures
            r.file_url@.len() == 0,
            r.file_path@.len() == 0,
            r.stream@.len() == 0,
            r.cache_file@.len() == 0,
            r.samples == LEADING_SILENCE_SAMPLES,
            r.fh == fh,
            r.cached is None,
    {
        FileContext {
            file_url: String::new(),
            file_path: String::new(),
            stream: String::new(),
            cache_file: String::new(),
            samples: LEADING_SILENCE_SAMPLES,
            fh,
            cached: None,
        }
    }

    /// The core file handle inside the context.
    pub fn file_ptr(&mut self) -> (r: &mut F)
        ensures
            *r == old(self).fh,
            final(self).fh == *final(r),
            final(self).samples == old(self).samples,
            final(self).file_url == old(self).file_url,
            final(self).file_path == old(self).file_path,
            final(self).stream == old(self).stream,
            final(self).cache_file == old(self).cache_file,
            final(self).cached == old(self).cached,
    {
        &mut self.fh
    }

    /// A read of `len` samples: while leading silence remains, up to that
    /// many samples of silence are produced (`Some(count)`) and the
    /// remaining silence shrinks by the count; afterwards (`None`) the read
    /// goes to the file.
    pub fn silence_read(&mut self, len: usize) -> (r: Option<usize>)
        ensures
            old(self).samples > 0 ==> r == Some(
                if len > old(self).samples as usize {
                    old(self).samples as usize
                } else {
                    len
                },
            ) && final(self).samples == old(self).samples - r->0,
            old(self).samples == 0 ==> r is None && final(self).samples == 0,
            final(self).fh == old(self).fh,
            final(self).file_url == old(self).file_url,
            final(self).file_path == old(self).file_path,
            final(self).stream == old(self).stream,
            final(self).cache_file == old(self).cache_file,
            final(self).cached == old(self).cached,
    {
        if self.samples > 0 {
            let n: usize = if len > self.samples as usize {
                self.samples as usize
            } else {
                len
            };
            self.samples = self.samples - n as u32;
            Some(n)
        } else {
            None
        }
    }
}

/// The URL of a file of a storage: `<url>/<path>`.
pub fn file_url(url: &str, file_path: &str) -> (r: String)
    ensures
        r@ == url@ + "/"@ + file_path@,
{
    let mut r = String::from_str(url);
    r.append("/");
    r.append(file_path);
    r
}

/// Seeking is refused when the handle's `seekable` field is 1.
pub fn seek_allowed(seekable: i32) -> (r: bool)
    ensures
        r == (seekable != 1),
{
    seekable != 1
}

/// The handle's flags with the flag `bit` set exactly as in the inner
/// file's flags.
pub fn propagate_flag(handle_flags: u32, inner_flags: u32, bit: u32) -> (r: u32)
    ensures
        r == (if inner_flags & bit != 0 {
            handle_flags | bit
        } else {
            handle_flags & !bit
        }),
        r & !bit == handle_flags & !bit,
        (r & bit == 0) == (inner_flags & bit == 0),
{
    let r = if inner_flags & bit != 0 {
        handle_flags | bit
    } else {
        handle_flags & !bit
    };
    proof {
        assert((handle_flags | bit) & !bit == handle_flags & !bit) by (bit_vector);
        assert((handle_flags & !bit) & !bit == handle_flags & !bit) by (bit_vector);
        assert(inner_flags & bit != 0 ==> (handle_flags | bit) & bit != 0) by (bit_vector);
        assert((handle_flags & !bit) & bit == 0) by (bit_vector);
    }
    r
}

} // verus!
