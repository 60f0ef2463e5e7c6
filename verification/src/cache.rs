//! The local cache of files kept on an HTTP storage server: what is known
//! of a cached URL, how a lookup proceeds (use the local copy, revalidate
//! it, or download), which stale file to remove, which URLs are being
//! worked on, and the names of new cache files.
use crate::paths::{extension_of, join_path, path_extension, path_join};
use crate::text::{chars_eq_str, chars_to_string, str_to_chars};
use vstd::prelude::*;
use vstd::string::StringExecFns;

verus! {

broadcast use vstd::string::group_string_axioms;

/// All the information we have about a given URL.
#[derive(Debug, Clone, PartialEq, Eq)]
pub struct CacheRecord {
    /// The path to the cached file, relative to the cache's root.
    pub path: String,
    /// The value of the Last-Modified header in the original response.
    pub last_modified: Option<String>,
    /// The value of the Etag header in the original response.
    pub etag: Option<String>,
    /// Whether the file has been uploaded to the server.
    pub synchronized: bool,
}

impl CacheRecord {
    /// The record of a file written locally and not yet uploaded.
    pub fn unsynchronized(path: &str) -> (r: CacheRecord)
        ensures
            r.path@ == path@,
            r.last_modified is None,
            r.etag is None,
            !r.synchronized,
    {
        CacheRecord {
            path: String::from_str(path),
            last_modified: None,
            etag: None,
            synchronized: false,
        }
    }

    /// The record of a file that matches the server's copy, with the
    /// validators the server sent.
    pub fn synchronized(path: String, last_modified: Option<String>, etag: Option<String>) -> (r: CacheRecord)
        ensures
            r.path == path,
            r.last_modified == last_modified,
            r.etag == etag,
            r.synchronized,
    {
        CacheRecord { path, last_modified, etag, synchronized: true }
    }
}

/// How a lookup of a URL proceeds.
#[derive(Debug, Clone, PartialEq, Eq)]
pub enum LoadPlan {
    /// Nothing is known of the URL: download it.
    Download,
    /// Use the local copy at this path as it is.
    UseLocal { path: String },
    /// Ask the server whether the local copy is still fresh, with these
    /// validators (`If-Modified-Since`, `If-None-Match`).
    Validate { if_modified_since: Option<String>, if_none_match: Option<String> },
}

/// Plans the lookup of a URL from what the cache knows of it: a local copy
/// not yet uploaded is used as it is, an uploaded one is revalidated, and
/// an unknown URL is downloaded. `root` is the cache's root directory.
pub fn load_plan(record: Option<&CacheRecord>, root: &str) -> (r: LoadPlan)
    ensures
        record is None ==> r is Download,
        record matches Some(rec) ==> (!rec.synchronized ==> (r matches LoadPlan::UseLocal { path }
            && path@ == path_join(root@, rec.path@))),
        record matches Some(rec) ==> (rec.synchronized ==> (r matches LoadPlan::Validate {
            if_modified_since,
            if_none_match,
        } && if_modified_since == rec.last_modified && if_none_match == rec.etag)),
{
    match record {
        None => LoadPlan::Download,
        Some(rec) => {
            if !rec.synchronized {
                LoadPlan::UseLocal { path: join_path(root, rec.path.as_str()) }
            } else {
                LoadPlan::Validate {
                    if_modified_since: clone_opt(&rec.last_modified),
                    if_none_match: clone_opt(&rec.etag),
                }
            }
        },
    }
}

/// A copy of an optional string.
fn clone_opt(s: &Option<String>) -> (r: Option<String>)
    ensures
        r == *s,
{
    match s {
        Some(v) => Some(v.clone()),
        None => None,
    }
}

/// After revalidating a local copy, whether it is kept: when the request
/// failed (`None`), the server answered with a client or server error (400
/// to 599), or the copy is not modified (304). Otherwise the new response
/// replaces it.
pub fn keeps_local_copy(status: Option<u16>) -> (r: bool)
    ensures
        r == (match status {
            None => true,
            Some(s) => (400 <= s && s < 600) || s == 304,
        }),
{
    match status {
        None => true,
        Some(s) => (400 <= s && s < 600) || s == 304,
    }
}

/// The file made stale when a URL's record is replaced: the old record's
/// file, when there was one with a non-empty path other than the new one.
pub open spec fn stale_file_spec(old_path: Option<Seq<char>>, new_path: Seq<char>) -> Option<Seq<char>> {
    match old_path {
        Some(p) => if p.len() > 0 && p != new_path {
            Some(p)
        } else {
            None
        },
        None => None,
    }
}

/// The file to remove when a URL's record is replaced (see
/// `stale_file_spec`).
pub fn stale_file(old: Option<&CacheRecord>, new: &CacheRecord) -> (r: Option<String>)
    ensures
        (match r {
            Some(p) => Some(p@),
            None => None,
        }) == stale_file_spec(
            match old {
                Some(o) => Some(o.path@),
                None => None,
            },
            new.path@,
        ),
{
    match old {
        Some(o) => {
            let ov = str_to_chars(o.path.as_str());
            if ov.len() > 0 && !chars_eq_str(ov.as_slice(), new.path.as_str()) {
                Some(o.path.clone())
            } else {
                None
            }
        },
        None => None,
    }
}

/// The URLs being fetched or stored right now; a URL is worked on by one
/// request at a time.
pub struct FileLocks {
    pub locked: Vec<String>,
}

/// The set of URLs held.
pub open spec fn held(locks: Seq<String>) -> Set<Seq<char>> {
    Set::new(|u: Seq<char>| exists|i: int| 0 <= i < locks.len() && #[trigger] locks[i]@ == u)
}

/// No URL is held twice.
pub open spec fn locks_wf(locks: Seq<String>) -> bool {
    forall|i: int, j: int| 0 <= i < locks.len() && 0 <= j < locks.len() && i != j ==> #[trigger] locks[i]@ != #[trigger] locks[j]@
}

impl FileLocks {
    /// No URL held.
    pub fn new() -> (r: FileLocks)
        ensures
            locks_wf(r.locked@),
            held(r.locked@) == Set::<Seq<char>>::empty(),
    {
        let r = FileLocks { locked: Vec::new() };
        proof {
            assert(held(r.locked@) =~= Set::<Seq<char>>::empty());
        }
        r
    }

    /// Whether `uri` is held.
    pub fn is_locked(&self, uri: &str) -> (r: bool)
        ensures
            r == held(self.locked@).contains(uri@),
    {
        self.position(uri).is_some()
    }

    /// Where `uri` is held, if it is.
    fn position(&self, uri: &str) -> (r: Option<usize>)
        ensures
            r matches Some(i) ==> i < self.locked@.len() && self.locked@[i as int]@ == uri@,
            r is None ==> !held(self.locked@).contains(uri@),
    {
        let mut i: usize = 0;
        while i < self.locked.len()
            invariant
                i <= self.locked@.len(),
                forall|j: int| 0 <= j < i ==> #[trigger] self.locked@[j]@ != uri@,
            decreases self.locked@.len() - i,
        {
            let lv = str_to_chars(self.locked[i].as_str());
            if chars_eq_str(lv.as_slice(), uri) {
                return Some(i);
            }
            i = i + 1;
        }
        None
    }

    /// Takes `uri` if no one holds it; returns whether it was taken.
    pub fn try_lock(&mut self, uri: &str) -> (taken: bool)
        requires
            locks_wf(old(self).locked@),
        ensures
            locks_wf(final(self).locked@),
            taken == !held(old(self).locked@).contains(uri@),
            held(final(self).locked@) == held(old(self).locked@).insert(uri@),
    {
        match self.position(uri) {
            Some(_) => {
                proof {
                    assert(held(self.locked@) =~= held(self.locked@).insert(uri@));
                }
                false
            },
            None => {
                let ghost before = self.locked@;
                self.locked.push(String::from_str(uri));
                proof {
                    let n = before.len() as int;
                    assert forall|i: int, j: int|
                        0 <= i < self.locked@.len() && 0 <= j < self.locked@.len() && i != j implies #[trigger] self.locked@[i]@
                        != #[trigger] self.locked@[j]@ by {
                        if i == n {
                            assert(!held(before).contains(uri@));
                            assert(self.locked@[j] == before[j]);
                        } else if j == n {
                            assert(!held(before).contains(uri@));
                            assert(self.locked@[i] == before[i]);
                        } else {
                            assert(self.locked@[i] == before[i]);
                            assert(self.locked@[j] == before[j]);
                        }
                    }
                    assert forall|u: Seq<char>| held(self.locked@).contains(u) <==> held(before).insert(uri@).contains(u) by {
                        if held(before).contains(u) {
                            let k = choose|k: int| 0 <= k < before.len() && #[trigger] before[k]@ == u;
                            assert(self.locked@[k] == before[k]);
                        }
                        if u == uri@ {
                            assert(self.locked@[n]@ == u);
                        }
                        if held(self.locked@).contains(u) {
                            let k = choose|k: int| 0 <= k < self.locked@.len() && #[trigger] self.locked@[k]@ == u;
                            if k < n {
                                assert(self.locked@[k] == before[k]);
                            }
                        }
                    }
                    assert(held(self.locked@) =~= held(before).insert(uri@));
                }
                true
            },
        }
    }

    /// Releases `uri`.
    pub fn unlock(&mut self, uri: &str)
        requires
            locks_wf(old(self).locked@),
        ensures
            locks_wf(final(self).locked@),
            held(final(self).locked@) == held(old(self).locked@).remove(uri@),
    {
        match self.position(uri) {
            None => {
                proof {
                    assert(held(self.locked@) =~= held(self.locked@).remove(uri@));
                }
            },
            Some(i) => {
                let ghost before = self.locked@;
                self.locked.remove(i);
                proof {
                    assert forall|a: int, b: int|
                        0 <= a < self.locked@.len() && 0 <= b < self.locked@.len() && a != b implies #[trigger] self.locked@[a]@
                        != #[trigger] self.locked@[b]@ by {
                        let a0 = if a < i { a } else { a + 1 };
                        let b0 = if b < i { b } else { b + 1 };
                        assert(self.locked@[a] == before[a0]);
                        assert(self.locked@[b] == before[b0]);
                    }
                    assert forall|u: Seq<char>| held(self.locked@).contains(u) <==> held(before).remove(uri@).contains(u) by {
                        if held(self.locked@).contains(u) {
                            let k = choose|k: int| 0 <= k < self.locked@.len() && #[trigger] self.locked@[k]@ == u;
                            let k0 = if k < i { k } else { k + 1 };
                            assert(self.locked@[k] == before[k0]);
                            assert(k0 != i);
                        }
                        if held(before).remove(uri@).contains(u) {
                            let k = choose|k: int| 0 <= k < before.len() && #[trigger] before[k]@ == u;
                            assert(k != i);
                            let k1 = if k < i { k } else { k - 1 };
                            assert(self.locked@[k1] == before[k]);
                        }
                    }
                    assert(held(self.locked@) =~= held(before).remove(uri@));
                }
            },
        }
    }
}

/// Two requests never work on the same URL at once: while a URL is held a
/// second `try_lock` of it fails, and once released it can be taken again.
pub proof fn lemma_lock_exclusive(h: Set<Seq<char>>, uri: Seq<char>)
    ensures
        h.insert(uri).contains(uri),
        !h.insert(uri).remove(uri).contains(uri),
        forall|u: Seq<char>| u != uri ==> (h.insert(uri).remove(uri).contains(u) == h.contains(u)),
{
}

/// The URL `uri` as the `url` crate parses and writes it back, with its
/// fragment removed; nothing when `uri` is not a valid absolute URL.
pub uninterp spec fn url_without_fragment(uri: Seq<char>) -> Option<Seq<char>>;

/// Calls `reqwest::Url::parse(uri)`, then `Url::set_fragment(None)` on the
/// result, and writes the URL back as text.
/// Trusted: the contract names the outcome `url_without_fragment(uri)`.
#[verifier::external_body]
fn normalized_url(uri: &str) -> (r: Option<String>)
    ensures
        r.deep_view() == url_without_fragment(uri@),
{
    reqwest::Url::parse(uri).ok().map(|mut u| {
        u.set_fragment(None);
        u.to_string()
    })
}

/// The key under which the cache records a URL: the URL without its
/// fragment; nothing for a URI that is not a valid URL (the lookup then
/// answers with no file).
pub fn cache_key(uri: &str) -> (r: Option<String>)
    ensures
        r.deep_view() == url_without_fragment(uri@),
{
    normalized_url(uri)
}

/// An ASCII letter or digit.
pub open spec fn is_ascii_alphanumeric(c: char) -> bool {
    ('A' <= c && c <= 'Z') || ('a' <= c && c <= 'z') || ('0' <= c && c <= '9')
}

#[verifier::external_type_specification]
#[verifier::external_body]
pub struct ExThreadRng(rand::rngs::ThreadRng);

/// Calls `rand::thread_rng`: the thread's random number generator.
#[verifier::external_body]
fn thread_rng() -> rand::rngs::ThreadRng {
    rand::thread_rng()
}

/// Calls `Rng::sample(rng, Alphanumeric)`: one random character of
/// `A`-`Z`, `a`-`z`, `0`-`9`. Trusted: the contract states only that the
/// character is one of these.
#[verifier::external_body]
fn sample_alphanumeric(rng: &mut rand::rngs::ThreadRng) -> (c: char)
    ensures
        is_ascii_alphanumeric(c),
{
    rand::Rng::sample(rng, rand::distributions::Alphanumeric) as char
}

/// The length of the random part of a cache file's name.
pub const STEM_LEN: usize = 20;

/// A random name stem: 20 ASCII letters and digits.
pub fn random_stem() -> (r: String)
    ensures
        r@.len() == STEM_LEN,
        forall|i: int| 0 <= i < r@.len() ==> is_ascii_alphanumeric(#[trigger] r@[i]),
{
    let mut rng = thread_rng();
    let mut v: Vec<char> = Vec::new();
    while v.len() < STEM_LEN
        invariant
            v@.len() <= STEM_LEN,
            forall|i: int| 0 <= i < v@.len() ==> is_ascii_alphanumeric(#[trigger] v@[i]),
        decreases STEM_LEN - v@.len(),
    {
        let c = sample_alphanumeric(&mut rng);
        v.push(c);
    }
    chars_to_string(v.as_slice())
}

/// The extension a cache file takes from the name it stands for: that
/// name's extension, `wav` when it has none.
pub open spec fn cache_extension(source: Seq<char>) -> Seq<char> {
    match path_extension(source) {
        Some(e) => e,
        None => "wav"@,
    }
}

/// The name of a cache file in `dir` with the random `stem`, for the file
/// or URL `source`: `<dir>/<stem>.<extension>` (no dot for an empty
/// extension).
pub open spec fn cache_file_name(dir: Seq<char>, stem: Seq<char>, source: Seq<char>) -> Seq<char> {
    let ext = cache_extension(source);
    path_join(dir, stem) + if ext.len() > 0 {
        seq!['.'] + ext
    } else {
        Seq::empty()
    }
}

/// The name of a cache file in `dir` with `stem` for `source`.
pub fn cache_file_name_exec(dir: &str, stem: &str, source: &str) -> (r: String)
    ensures
        r@ == cache_file_name(dir@, stem@, source@),
{
    let ext = match extension_of(source) {
        Some(e) => e,
        None => String::from_str("wav"),
    };
    let mut name = join_path(dir, stem);
    if !ext.as_str().is_empty() {
        name.append(".");
        name.append(ext.as_str());
        proof {
            reveal_strlit(".");
        }
    }
    name
}

/// A candidate name for a new upload file for `file_path` in the cache at
/// `root`: `<root>/upload/<20 random letters and digits>.<extension>`. The
/// caller retries while a file of that name exists.
pub fn create_cached_file_candidate(root: &str, file_path: &str) -> (r: String)
    ensures
        exists|stem: Seq<char>|
            stem.len() == STEM_LEN && (forall|i: int| 0 <= i < stem.len() ==> is_ascii_alphanumeric(#[trigger] stem[i]))
                && r@ == cache_file_name(path_join(root@, "upload"@), stem, file_path@),
{
    let dir = join_path(root, "upload");
    let stem = random_stem();
    cache_file_name_exec(dir.as_str(), stem.as_str(), file_path)
}

/// A candidate name for a downloaded copy of `url` in the cache at `root`,
/// and the same name relative to the root (what the record keeps):
/// `download/<20 random letters and digits>.<extension>`.
pub fn download_file_candidate(root: &str, url: &str) -> (r: (String, String))
    ensures
        exists|stem: Seq<char>|
            stem.len() == STEM_LEN && (forall|i: int| 0 <= i < stem.len() ==> is_ascii_alphanumeric(#[trigger] stem[i]))
                && r.1@ == cache_file_name("download"@, stem, url@) && r.0@ == path_join(root@, r.1@),
{
    let stem = random_stem();
    let rel = cache_file_name_exec("download", stem.as_str(), url);
    let abs = join_path(root, rel.as_str());
    (abs, rel)
}

} // verus!
