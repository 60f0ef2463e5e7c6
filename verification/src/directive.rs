//! Recognition of the XML pre-processing directives
//!
//! ```text
//! <X-PRE-PROCESS cmd="set" data="name=value"/>
//! ```
//!
//! in a line of text, with the grammar of the case-insensitive pattern
//!
//! ```text
//! <X-PRE-PROCESS\s+cmd\s*=\s*"(set|env-set|exec-set|stun-set|include|exec)"\s+data\s*=\s*"(.+)"\s*/>
//! ```
//!
//! read the way a leftmost-first, backtracking matcher reads it: letters
//! match whatever the case (with the Unicode simple case folds `ſ` for `s`
//! and the Kelvin sign for `k`), `\s` is Unicode white space, the data runs
//! to the last closing `"\s*/>` on the line, and matches are taken from
//! left to right without overlapping.
use crate::text::{ascii_lower, char_to_ascii_lower, str_to_chars};
use vstd::prelude::*;

verus! {

broadcast use vstd::string::group_string_axioms;

/// Unicode white space (the `\s` class).
pub open spec fn is_space(c: char) -> bool {
    ||| ('\t' <= c && c <= '\r')
    ||| c == ' '
    ||| c == '\u{85}'
    ||| c == '\u{a0}'
    ||| c == '\u{1680}'
    ||| ('\u{2000}' <= c && c <= '\u{200a}')
    ||| c == '\u{2028}'
    ||| c == '\u{2029}'
    ||| c == '\u{202f}'
    ||| c == '\u{205f}'
    ||| c == '\u{3000}'
}

/// The character `c` matches the pattern character `p` ignoring case.
pub open spec fn folds_to(c: char, p: char) -> bool {
    ||| ascii_lower(c) == ascii_lower(p)
    ||| (ascii_lower(p) == 's' && c == '\u{17f}')
    ||| (ascii_lower(p) == 'k' && c == '\u{212a}')
}

/// The literal `lit` occurs, ignoring case, in `l` at position `i`.
pub open spec fn lit_at(l: Seq<char>, i: int, lit: Seq<char>) -> bool {
    &&& 0 <= i
    &&& i + lit.len() <= l.len()
    &&& forall|k: int| 0 <= k < lit.len() ==> #[trigger] folds_to(l[i + k], lit[k])
}

/// The first position at or after `i` that does not hold white space.
pub open spec fn skip_space(l: Seq<char>, i: int) -> int
    decreases l.len() - i,
{
    if 0 <= i < l.len() && is_space(l[i]) {
        skip_space(l, i + 1)
    } else {
        i
    }
}

/// The command words, in the order the pattern tries them.
pub open spec fn cmd_words() -> Seq<Seq<char>> {
    seq!["set"@, "env-set"@, "exec-set"@, "stun-set"@, "include"@, "exec"@]
}

/// The length of the first command word, from the `k`-th on, that occurs at
/// `i` and is followed by a quote.
pub open spec fn cmd_word_from(l: Seq<char>, i: int, k: int) -> Option<int>
    decreases 6 - k,
{
    if k < 0 || k >= 6 {
        None
    } else if lit_at(l, i, cmd_words()[k]) && i + cmd_words()[k].len() < l.len() && l[i
        + cmd_words()[k].len()] == '"' {
        Some(cmd_words()[k].len() as int)
    } else {
        cmd_word_from(l, i, k + 1)
    }
}

/// The part of a directive before its data: where the command word starts
/// and ends, and where the data starts.
pub open spec fn directive_head(l: Seq<char>, p: int) -> Option<(int, int, int)> {
    if !lit_at(l, p, "<X-PRE-PROCESS"@) {
        None
    } else {
        let a = p + "<X-PRE-PROCESS"@.len();
        let b = skip_space(l, a);
        if b == a || !lit_at(l, b, "cmd"@) {
            None
        } else {
            let c = skip_space(l, b + "cmd"@.len());
            if !(c < l.len() && l[c] == '=') {
                None
            } else {
                let d = skip_space(l, c + 1);
                if !(d < l.len() && l[d] == '"') {
                    None
                } else {
                    match cmd_word_from(l, d + 1, 0) {
                        None => None,
                        Some(n) => {
                            let e = d + 1 + n + 1;
                            let f = skip_space(l, e);
                            if f == e || !lit_at(l, f, "data"@) {
                                None
                            } else {
                                let g = skip_space(l, f + "data"@.len());
                                if !(g < l.len() && l[g] == '=') {
                                    None
                                } else {
                                    let h = skip_space(l, g + 1);
                                    if !(h < l.len() && l[h] == '"') {
                                        None
                                    } else {
                                        Some((d + 1, d + 1 + n, h + 1))
                                    }
                                }
                            }
                        },
                    }
                }
            }
        }
    }
}

/// Where the directive ends when its data ends at the quote at `q`: after
/// `"\s*/>`, if that follows.
pub open spec fn closer_end(l: Seq<char>, q: int) -> Option<int> {
    if 0 <= q < l.len() && l[q] == '"' {
        let r = skip_space(l, q + 1);
        if r + 1 < l.len() && l[r] == '/' && l[r + 1] == '>' {
            Some(r + 2)
        } else {
            None
        }
    } else {
        None
    }
}

/// No line break between `from` and `to`.
pub open spec fn no_newline(l: Seq<char>, from: int, to: int) -> bool {
    forall|k: int| from <= k < to ==> l[k] != '\n'
}

/// The largest position `q`, from `q` down to just after `ds`, at which data
/// starting at `ds` can end: a closing quote follows and the data holds no
/// line break.
pub open spec fn data_end_from(l: Seq<char>, ds: int, q: int) -> Option<int>
    decreases q - ds,
{
    if q <= ds {
        None
    } else if closer_end(l, q) is Some && no_newline(l, ds, q) {
        Some(q)
    } else {
        data_end_from(l, ds, q - 1)
    }
}

/// The positions of a directive in a line.
pub struct Span {
    pub start: usize,
    pub cmd_start: usize,
    pub cmd_end: usize,
    pub data_start: usize,
    pub data_end: usize,
    pub end: usize,
}

/// The positions of a directive, as mathematical integers.
pub struct SpanModel {
    pub start: int,
    pub cmd_start: int,
    pub cmd_end: int,
    pub data_start: int,
    pub data_end: int,
    pub end: int,
}

impl View for Span {
    type V = SpanModel;

    open spec fn view(&self) -> SpanModel {
        SpanModel {
            start: self.start as int,
            cmd_start: self.cmd_start as int,
            cmd_end: self.cmd_end as int,
            data_start: self.data_start as int,
            data_end: self.data_end as int,
            end: self.end as int,
        }
    }
}

/// The directive that starts at position `p`, if one does.
pub open spec fn directive_at(l: Seq<char>, p: int) -> Option<SpanModel> {
    match directive_head(l, p) {
        None => None,
        Some((cs, ce, ds)) => match data_end_from(l, ds, l.len() - 1) {
            None => None,
            Some(q) => Some(
                SpanModel {
                    start: p,
                    cmd_start: cs,
                    cmd_end: ce,
                    data_start: ds,
                    data_end: q,
                    end: closer_end(l, q)->0,
                },
            ),
        },
    }
}

/// The leftmost directive starting at or after `from`.
pub open spec fn first_directive_from(l: Seq<char>, from: int) -> Option<SpanModel>
    decreases l.len() - from,
{
    if from < 0 || from >= l.len() {
        None
    } else {
        match directive_at(l, from) {
            Some(m) => Some(m),
            None => first_directive_from(l, from + 1),
        }
    }
}

/// All the directives of a line from position `from` on, left to right,
/// each search starting where the previous directive ended.
pub open spec fn directives_from(l: Seq<char>, from: int) -> Seq<SpanModel>
    decreases l.len() - from,
{
    if from < 0 || from >= l.len() {
        Seq::empty()
    } else {
        match first_directive_from(l, from) {
            Some(m) => if from < m.end <= l.len() {
                seq![m] + directives_from(l, m.end)
            } else {
                Seq::empty()
            },
            None => Seq::empty(),
        }
    }
}

/// All the directives of a line.
pub open spec fn directives(l: Seq<char>) -> Seq<SpanModel> {
    directives_from(l, 0)
}

/// The first position at or after `i` that does not hold white space.
pub fn skip_space_exec(l: &[char], i: usize) -> (r: usize)
    requires
        i <= l@.len(),
    ensures
        r as int == skip_space(l@, i as int),
        i <= r <= l@.len(),
{
    let mut j = i;
    while j < l.len() && is_space_exec(l[j])
        invariant
            i <= j <= l@.len(),
            skip_space(l@, i as int) == skip_space(l@, j as int),
        decreases l@.len() - j,
    {
        j = j + 1;
    }
    j
}

/// Whether `c` is Unicode white space.
pub fn is_space_exec(c: char) -> (r: bool)
    ensures
        r == is_space(c),
{
    ('\t' <= c && c <= '\r') || c == ' ' || c == '\u{85}' || c == '\u{a0}' || c == '\u{1680}'
        || ('\u{2000}' <= c && c <= '\u{200a}') || c == '\u{2028}' || c == '\u{2029}' || c
        == '\u{202f}' || c == '\u{205f}' || c == '\u{3000}'
}

/// Whether `c` matches the pattern character `p` ignoring case.
pub fn folds_to_exec(c: char, p: char) -> (r: bool)
    ensures
        r == folds_to(c, p),
{
    let lc = char_to_ascii_lower(c);
    let lp = char_to_ascii_lower(p);
    lc == lp || (lp == 's' && c == '\u{17f}') || (lp == 'k' && c == '\u{212a}')
}

/// Whether the literal `lit` occurs, ignoring case, in `l` at `i`.
pub fn lit_at_exec(l: &[char], i: usize, lit: &str) -> (r: bool)
    ensures
        r == lit_at(l@, i as int, lit@),
{
    let v = str_to_chars(lit);
    if i > l.len() || v.len() > l.len() - i {
        return false;
    }
    let mut k: usize = 0;
    while k < v.len()
        invariant
            v@ == lit@,
            i + v@.len() <= l@.len(),
            l.len() == l@.len(),
            k <= v@.len(),
            forall|j: int| 0 <= j < k ==> #[trigger] folds_to(l@[i + j], v@[j]),
        decreases v@.len() - k,
    {
        if !folds_to_exec(l[i + k], v[k]) {
            return false;
        }
        k = k + 1;
    }
    true
}

/// The length of the first command word that occurs at `i` followed by a
/// quote.
pub fn cmd_word_exec(l: &[char], i: usize) -> (r: Option<usize>)
    requires
        i <= l@.len(),
    ensures
        r matches Some(n) ==> cmd_word_from(l@, i as int, 0) == Some(n as int),
        r is None ==> cmd_word_from(l@, i as int, 0) is None,
{
    let words: [&str; 6] = ["set", "env-set", "exec-set", "stun-set", "include", "exec"];
    let mut k: usize = 0;
    while k < 6
        invariant
            k <= 6,
            i <= l@.len(),
            l.len() == l@.len(),
            forall|j: int| 0 <= j < 6 ==> #[trigger] words@[j]@ == cmd_words()[j],
            cmd_word_from(l@, i as int, 0) == cmd_word_from(l@, i as int, k as int),
        decreases 6 - k,
    {
        let w = words[k];
        let wv = str_to_chars(w);
        assert(wv@ == cmd_words()[k as int]);
        if lit_at_exec(l, i, w) && wv.len() < l.len() - i && l[i + wv.len()] == '"' {
            return Some(wv.len());
        }
        k = k + 1;
    }
    None
}

/// The part of a directive before its data, when one starts at `p`.
pub fn directive_head_exec(l: &[char], p: usize) -> (r: Option<(usize, usize, usize)>)
    requires
        p <= l@.len(),
    ensures
        r matches Some(t) ==> directive_head(l@, p as int) == Some((t.0 as int, t.1 as int, t.2 as int)),
        r matches Some(t) ==> p < t.0 <= t.1 < t.2 <= l@.len(),
        r is None ==> directive_head(l@, p as int) is None,
{
    let n = l.len();
    if !lit_at_exec(l, p, "<X-PRE-PROCESS") {
        return None;
    }
    let a = p + str_to_chars("<X-PRE-PROCESS").len();
    let b = skip_space_exec(l, a);
    if b == a || !lit_at_exec(l, b, "cmd") {
        return None;
    }
    let c = skip_space_exec(l, b + str_to_chars("cmd").len());
    if !(c < n && l[c] == '=') {
        return None;
    }
    let d = skip_space_exec(l, c + 1);
    if !(d < n && l[d] == '"') {
        return None;
    }
    match cmd_word_exec(l, d + 1) {
        None => None,
        Some(w) => {
            proof {
                lemma_cmd_word_fits(l@, (d + 1) as int, 0);
            }
            let e = d + 1 + w + 1;
            let f = skip_space_exec(l, e);
            if f == e || !lit_at_exec(l, f, "data") {
                return None;
            }
            let g = skip_space_exec(l, f + str_to_chars("data").len());
            if !(g < n && l[g] == '=') {
                return None;
            }
            let h = skip_space_exec(l, g + 1);
            if !(h < n && l[h] == '"') {
                return None;
            }
            Some((d + 1, d + 1 + w, h + 1))
        },
    }
}

/// A command word that is found fits in the line, quote included.
proof fn lemma_cmd_word_fits(l: Seq<char>, i: int, k: int)
    ensures
        cmd_word_from(l, i, k) matches Some(n) ==> 0 <= i && i + n < l.len() && n > 0,
    decreases 6 - k,
{
    reveal_strlit("set");
    reveal_strlit("env-set");
    reveal_strlit("exec-set");
    reveal_strlit("stun-set");
    reveal_strlit("include");
    reveal_strlit("exec");
    if 0 <= k < 6 {
        lemma_cmd_word_fits(l, i, k + 1);
    }
}

/// Where the directive ends when its data ends at `q`.
pub fn closer_end_exec(l: &[char], q: usize) -> (r: Option<usize>)
    ensures
        r matches Some(e) ==> closer_end(l@, q as int) == Some(e as int),
        r is None ==> closer_end(l@, q as int) is None,
{
    let n = l.len();
    if q < n && l[q] == '"' {
        let r = skip_space_exec(l, q + 1);
        if r < n - 1 && l[r] == '/' && l[r + 1] == '>' {
            Some(r + 2)
        } else {
            None
        }
    } else {
        None
    }
}

/// No line break between `from` and `to`.
pub fn no_newline_exec(l: &[char], from: usize, to: usize) -> (r: bool)
    requires
        from <= to <= l@.len(),
    ensures
        r == no_newline(l@, from as int, to as int),
{
    let mut k = from;
    while k < to
        invariant
            from <= k <= to <= l@.len(),
            forall|j: int| from <= j < k ==> l@[j] != '\n',
        decreases to - k,
    {
        if l[k] == '\n' {
            return false;
        }
        k = k + 1;
    }
    true
}

/// The largest position after `ds` at which data starting at `ds` can end.
pub fn data_end_exec(l: &[char], ds: usize) -> (r: Option<usize>)
    requires
        ds <= l@.len(),
    ensures
        r matches Some(q) ==> data_end_from(l@, ds as int, l@.len() - 1) == Some(q as int),
        r is None ==> data_end_from(l@, ds as int, l@.len() - 1) is None,
{
    let n = l.len();
    if n == 0 {
        return None;
    }
    let mut q: usize = n - 1;
    loop
        invariant
            n == l@.len(),
            n > 0,
            ds <= n,
            q < n,
            data_end_from(l@, ds as int, l@.len() - 1) == data_end_from(l@, ds as int, q as int),
        decreases q,
    {
        if q <= ds {
            return None;
        }
        if closer_end_exec(l, q).is_some() && no_newline_exec(l, ds, q) {
            return Some(q);
        }
        q = q - 1;
    }
}

/// The directive that starts at `p`, if one does.
pub fn directive_at_exec(l: &[char], p: usize) -> (r: Option<Span>)
    requires
        p <= l@.len(),
    ensures
        r matches Some(s) ==> directive_at(l@, p as int) == Some(s@),
        r matches Some(s) ==> p < s.end <= l@.len(),
        r is None ==> directive_at(l@, p as int) is None,
{
    match directive_head_exec(l, p) {
        None => None,
        Some((cs, ce, ds)) => match data_end_exec(l, ds) {
            None => None,
            Some(q) => {
                proof {
                    lemma_data_end_bounds(l@, ds as int, l@.len() - 1);
                }
                match closer_end_exec(l, q) {
                    Some(e) => {
                        proof {
                            assert(skip_space(l@, q + 1) >= q + 1) by {
                                lemma_skip_space_bounds(l@, q + 1);
                            }
                        }
                        Some(
                            Span {
                                start: p,
                                cmd_start: cs,
                                cmd_end: ce,
                                data_start: ds,
                                data_end: q,
                                end: e,
                            },
                        )
                    },
                    None => None,
                }
            },
        },
    }
}

/// `skip_space` moves forward and stays within the line.
proof fn lemma_skip_space_bounds(l: Seq<char>, i: int)
    ensures
        skip_space(l, i) >= i,
        0 <= i <= l.len() ==> skip_space(l, i) <= l.len(),
    decreases l.len() - i,
{
    if 0 <= i < l.len() && is_space(l[i]) {
        lemma_skip_space_bounds(l, i + 1);
    }
}

/// Data that is found ends after it starts, at a closing quote.
proof fn lemma_data_end_bounds(l: Seq<char>, ds: int, q: int)
    ensures
        data_end_from(l, ds, q) matches Some(e) ==> ds < e <= q && closer_end(l, e) is Some,
    decreases q - ds,
{
    if q > ds {
        lemma_data_end_bounds(l, ds, q - 1);
    }
}

/// The leftmost directive starting at or after `from`.
pub fn first_directive_exec(l: &[char], from: usize) -> (r: Option<Span>)
    ensures
        r matches Some(s) ==> first_directive_from(l@, from as int) == Some(s@),
        r matches Some(s) ==> from < s.end <= l@.len(),
        r is None ==> first_directive_from(l@, from as int) is None,
{
    let n = l.len();
    let mut p = from;
    while p < n
        invariant
            n == l@.len(),
            from <= p,
            first_directive_from(l@, from as int) == first_directive_from(l@, p as int),
        decreases n - p,
    {
        match directive_at_exec(l, p) {
            Some(s) => {
                return Some(s);
            },
            None => {},
        }
        p = p + 1;
    }
    None
}

/// All the directives of a line, left to right.
pub fn directives_exec(l: &[char]) -> (r: Vec<Span>)
    ensures
        r@.map_values(|s: Span| s@) == directives(l@),
{
    let mut r: Vec<Span> = Vec::new();
    let mut from: usize = 0;
    let n = l.len();
    while from < n
        invariant
            n == l@.len(),
            from <= n,
            r@.map_values(|s: Span| s@) + directives_from(l@, from as int) == directives(l@),
        decreases n - from,
    {
        match first_directive_exec(l, from) {
            Some(s) => {
                let e = s.end;
                r.push(s);
                proof {
                    let prev = r@.drop_last();
                    assert(r@.map_values(|s: Span| s@) =~= prev.map_values(|s: Span| s@).push(s@));
                    assert(directives_from(l@, from as int) =~= seq![s@] + directives_from(l@, e as int));
                }
                from = e;
            },
            None => {
                proof {
                    assert(directives_from(l@, from as int) =~= Seq::<SpanModel>::empty());
                }
                return r;
            },
        }
    }
    proof {
        assert(directives_from(l@, from as int) =~= Seq::<SpanModel>::empty());
    }
    r
}

/// Where a directive found at `p` lies: its parts follow one another within
/// the line.
pub proof fn lemma_directive_at_bounds(l: Seq<char>, p: int)
    requires
        0 <= p,
    ensures
        directive_at(l, p) matches Some(m) ==> m.start == p && p < m.cmd_start <= m.cmd_end
            < m.data_start < m.data_end < m.end <= l.len(),
{
    if directive_at(l, p) is Some {
        reveal_strlit("<X-PRE-PROCESS");
        reveal_strlit("cmd");
        reveal_strlit("data");
        let a = p + "<X-PRE-PROCESS"@.len();
        lemma_skip_space_bounds(l, a);
        let b = skip_space(l, a);
        lemma_skip_space_bounds(l, b + "cmd"@.len());
        let c = skip_space(l, b + "cmd"@.len());
        lemma_skip_space_bounds(l, c + 1);
        let d = skip_space(l, c + 1);
        lemma_cmd_word_fits(l, d + 1, 0);
        let n = cmd_word_from(l, d + 1, 0)->0;
        let e = d + 1 + n + 1;
        lemma_skip_space_bounds(l, e);
        let f = skip_space(l, e);
        lemma_skip_space_bounds(l, f + "data"@.len());
        let g = skip_space(l, f + "data"@.len());
        lemma_skip_space_bounds(l, g + 1);
        let h = skip_space(l, g + 1);
        lemma_data_end_bounds(l, h + 1, l.len() - 1);
        let q = data_end_from(l, h + 1, l.len() - 1)->0;
        lemma_skip_space_bounds(l, q + 1);
    }
}

/// The leftmost directive from `from` on starts at or after `from`.
pub proof fn lemma_first_directive_bounds(l: Seq<char>, from: int)
    ensures
        first_directive_from(l, from) matches Some(m) ==> from <= m.start && m.start < m.cmd_start
            <= m.cmd_end < m.data_start < m.data_end < m.end <= l.len(),
    decreases l.len() - from,
{
    if 0 <= from < l.len() {
        lemma_directive_at_bounds(l, from);
        lemma_first_directive_bounds(l, from + 1);
    }
}

/// Every directive found from `from` on lies within the line after `from`.
pub proof fn lemma_directives_bounds(l: Seq<char>, from: int, m: SpanModel)
    requires
        directives_from(l, from).contains(m),
    ensures
        from <= m.start <= m.cmd_start <= m.cmd_end <= m.data_start <= m.data_end <= m.end <= l.len(),
    decreases l.len() - from,
{
    lemma_first_directive_bounds(l, from);
    let m0 = first_directive_from(l, from)->0;
    let rest = directives_from(l, m0.end);
    assert(directives_from(l, from) == seq![m0] + rest);
    if m != m0 {
        assert(rest.contains(m)) by {
            let k = choose|k: int| 0 <= k < directives_from(l, from).len() && directives_from(l, from)[k] == m;
            assert(rest[k - 1] == m);
        }
        lemma_directives_bounds(l, m0.end, m);
    }
}

/// The directives of a line come in order and never overlap: each one ends
/// at or before the start of the next.
pub proof fn lemma_directives_ordered(l: Seq<char>, from: int)
    ensures
        forall|i: int, j: int|
            0 <= i < j < directives_from(l, from).len() ==> #[trigger] directives_from(l, from)[i].end
                <= #[trigger] directives_from(l, from)[j].start,
    decreases l.len() - from,
{
    if 0 <= from < l.len() {
        if let Some(m0) = first_directive_from(l, from) {
            if from < m0.end <= l.len() {
                let rest = directives_from(l, m0.end);
                let ds = directives_from(l, from);
                lemma_directives_ordered(l, m0.end);
                assert(ds == seq![m0] + rest);
                assert forall|i: int, j: int| 0 <= i < j < ds.len() implies #[trigger] ds[i].end <= #[trigger] ds[j].start by {
                    assert(ds[j] == rest[j - 1]);
                    if i == 0 {
                        assert(rest.contains(ds[j]));
                        lemma_directives_bounds(l, m0.end, ds[j]);
                    } else {
                        assert(ds[i] == rest[i - 1]);
                    }
                }
            }
        }
    }
}

} // verus!
