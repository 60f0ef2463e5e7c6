//! XML pre-processing: the directives of a configuration text become actions
//! (set a core variable, note an environment or STUN setting, or report an
//! unsupported command), and `$${name}` references are expanded.
use crate::directive::{directives, directives_exec, Span, SpanModel};
use crate::text::{
    chars_to_string, contains, contains_str, eq_ignore_ascii_case, eq_ignore_ascii_case_str,
    find_char, first_index_of, lemma_first_index_of, lines, occurs_at, occurs_at_exec,
    split_once, split_once_char, str_to_chars, sub_chars,
};
use vstd::prelude::*;
use vstd::string::StringExecFns;
use vstd::slice::slice_subrange;

verus! {

broadcast use {vstd::string::group_string_axioms, vstd::slice::group_slice_axioms};

/// The lines of a text, as std's `str::lines` yields them.
pub fn lines_exec(s: &[char]) -> (r: Vec<Vec<char>>)
    ensures
        r@.map_values(|l: Vec<char>| l@) == lines(s@),
{
    let mut r: Vec<Vec<char>> = Vec::new();
    let mut start: usize = 0;
    let n = s.len();
    proof {
        assert(s@.subrange(0, n as int) =~= s@);
        assert(r@.map_values(|l: Vec<char>| l@) =~= Seq::<Seq<char>>::empty());
    }
    while start < n
        invariant
            n == s@.len(),
            start <= n,
            r@.map_values(|l: Vec<char>| l@) + lines(s@.subrange(start as int, n as int)) == lines(s@),
        decreases n - start,
    {
        let rest = slice_subrange(s, start, n);
        let ghost rs = rest@;
        proof {
            lemma_first_index_of(rs, '\n');
        }
        match find_char(rest, '\n') {
            None => {
                r.push(sub_chars(s, start, n));
                proof {
                    assert(lines(rs) == seq![rs]);
                    let m = r@.map_values(|l: Vec<char>| l@);
                    assert(m =~= r@.drop_last().map_values(|l: Vec<char>| l@).push(rs));
                    assert(s@.subrange(n as int, n as int) =~= Seq::<char>::empty());
                }
                start = n;
            },
            Some(i) => {
                let mut end = start + i;
                if i > 0 && s[start + i - 1] == '\r' {
                    end = start + i - 1;
                }
                r.push(sub_chars(s, start, end));
                proof {
                    let m = r@.map_values(|l: Vec<char>| l@);
                    assert(m =~= r@.drop_last().map_values(|l: Vec<char>| l@).push(
                        s@.subrange(start as int, end as int),
                    ));
                    assert(rs.subrange(i + 1, rs.len() as int) =~= s@.subrange(
                        start + i + 1,
                        n as int,
                    ));
                    let raw = rs.subrange(0, i as int);
                    if i > 0 && s@[start + i - 1] == '\r' {
                        assert(raw.drop_last() =~= s@.subrange(start as int, end as int));
                    } else {
                        assert(raw =~= s@.subrange(start as int, end as int));
                    }
                }
                start = start + i + 1;
            },
        }
    }
    proof {
        assert(lines(s@.subrange(start as int, n as int)) =~= Seq::<Seq<char>>::empty());
    }
    r
}

/// A directive found in a line: the whole directive, its command word and
/// its data.
#[derive(Debug, Clone, PartialEq, Eq)]
pub struct Directive {
    pub full: String,
    pub cmd: String,
    pub data: String,
}

/// A directive as plain character sequences.
pub struct DirectiveModel {
    pub full: Seq<char>,
    pub cmd: Seq<char>,
    pub data: Seq<char>,
}

impl View for Directive {
    type V = DirectiveModel;

    open spec fn view(&self) -> DirectiveModel {
        DirectiveModel { full: self.full@, cmd: self.cmd@, data: self.data@ }
    }
}

/// The text of a directive found at `m` in line `l`.
pub open spec fn directive_text(l: Seq<char>, m: SpanModel) -> DirectiveModel {
    DirectiveModel {
        full: l.subrange(m.start, m.end),
        cmd: l.subrange(m.cmd_start, m.cmd_end),
        data: l.subrange(m.data_start, m.data_end),
    }
}

/// The directives of a sequence of lines, in order.
pub open spec fn directives_of_lines(ls: Seq<Seq<char>>) -> Seq<DirectiveModel>
    decreases ls.len(),
{
    if ls.len() == 0 {
        Seq::empty()
    } else {
        directives_of_lines(ls.drop_last()) + directives(ls.last()).map_values(
            |m: SpanModel| directive_text(ls.last(), m),
        )
    }
}

/// The directives of a text, line by line.
pub open spec fn text_directives(text: Seq<char>) -> Seq<DirectiveModel> {
    directives_of_lines(lines(text))
}

/// The spans of a line's directives lie within the line, in order.
proof fn lemma_directive_spans(l: Seq<char>, m: SpanModel)
    requires
        directives(l).contains(m),
    ensures
        0 <= m.start <= m.cmd_start <= m.cmd_end <= m.data_start <= m.data_end <= m.end <= l.len(),
{
    crate::directive::lemma_directives_bounds(l, 0, m);
}

/// The directives of one line, as text.
fn line_directives(l: &[char]) -> (r: Vec<Directive>)
    ensures
        r@.map_values(|d: Directive| d@) == directives(l@).map_values(
            |m: SpanModel| directive_text(l@, m),
        ),
{
    let spans = directives_exec(l);
    let ghost ms = spans@.map_values(|s: Span| s@);
    let mut r: Vec<Directive> = Vec::new();
    let mut i: usize = 0;
    while i < spans.len()
        invariant
            i <= spans@.len(),
            ms == spans@.map_values(|s: Span| s@),
            ms == directives(l@),
            r@.map_values(|d: Directive| d@) == ms.take(i as int).map_values(
                |m: SpanModel| directive_text(l@, m),
            ),
        decreases spans@.len() - i,
    {
        let s = &spans[i];
        proof {
            assert(ms[i as int] == s@);
            assert(directives(l@).contains(s@));
            lemma_directive_spans(l@, s@);
        }
        let full = chars_to_string(sub_chars(l, s.start, s.end).as_slice());
        let cmd = chars_to_string(sub_chars(l, s.cmd_start, s.cmd_end).as_slice());
        let data = chars_to_string(sub_chars(l, s.data_start, s.data_end).as_slice());
        let ghost old_r = r@;
        r.push(Directive { full, cmd, data });
        proof {
            assert(ms.take(i + 1) =~= ms.take(i as int).push(s@));
            assert(ms.take(i + 1).map_values(|m: SpanModel| directive_text(l@, m)) =~= ms.take(
                i as int,
            ).map_values(|m: SpanModel| directive_text(l@, m)).push(directive_text(l@, s@)));
            assert(r@.map_values(|d: Directive| d@) =~= old_r.map_values(|d: Directive| d@).push(
                directive_text(l@, s@),
            ));
        }
        i = i + 1;
    }
    proof {
        assert(ms.take(spans@.len() as int) =~= ms);
    }
    r
}

/// The directives of a text, line by line.
pub fn text_directives_exec(text: &[char]) -> (r: Vec<Directive>)
    ensures
        r@.map_values(|d: Directive| d@) == text_directives(text@),
{
    let ls = lines_exec(text);
    let ghost lv = ls@.map_values(|l: Vec<char>| l@);
    let mut r: Vec<Directive> = Vec::new();
    let mut i: usize = 0;
    while i < ls.len()
        invariant
            i <= ls@.len(),
            lv == ls@.map_values(|l: Vec<char>| l@),
            lv == lines(text@),
            r@.map_values(|d: Directive| d@) == directives_of_lines(lv.take(i as int)),
        decreases ls@.len() - i,
    {
        let mut ds = line_directives(ls[i].as_slice());
        let ghost before = r@;
        let ghost added = ds@;
        r.append(&mut ds);
        proof {
            assert(lv.take(i + 1).drop_last() =~= lv.take(i as int));
            assert(lv.take(i + 1).last() == ls@[i as int]@);
            assert(r@.map_values(|d: Directive| d@) =~= before.map_values(|d: Directive| d@)
                + added.map_values(|d: Directive| d@));
        }
        i = i + 1;
    }
    proof {
        assert(lv.take(ls@.len() as int) =~= lv);
    }
    r
}

/// What a pre-processing directive asks for.
#[derive(Debug, Clone, PartialEq, Eq)]
pub enum PreProcessAction {
    /// Set the core variable `name` to `value`.
    SetVariable { name: String, value: String },
    /// An environment setting (reported, not applied).
    EnvSet { name: String, value: String },
    /// A STUN setting (reported, not applied).
    StunSet { name: String, value: String },
    /// A command this pre-processor does not carry out; the whole directive.
    Unsupported { directive: String },
}

/// A pre-processing action as plain character sequences.
pub enum ActionModel {
    SetVariable(Seq<char>, Seq<char>),
    EnvSet(Seq<char>, Seq<char>),
    StunSet(Seq<char>, Seq<char>),
    Unsupported(Seq<char>),
}

impl View for PreProcessAction {
    type V = ActionModel;

    open spec fn view(&self) -> ActionModel {
        match self {
            PreProcessAction::SetVariable { name, value } => ActionModel::SetVariable(name@, value@),
            PreProcessAction::EnvSet { name, value } => ActionModel::EnvSet(name@, value@),
            PreProcessAction::StunSet { name, value } => ActionModel::StunSet(name@, value@),
            PreProcessAction::Unsupported { directive } => ActionModel::Unsupported(directive@),
        }
    }
}

/// `name=value` with both sides non-empty, split at the first `=`.
pub open spec fn assignment(data: Seq<char>) -> Option<(Seq<char>, Seq<char>)> {
    match split_once(data, '=') {
        Some((n, v)) => if n.len() > 0 && v.len() > 0 {
            Some((n, v))
        } else {
            None
        },
        None => None,
    }
}

/// The action a directive asks for: `set`, `stun-set` and `env-set` (any
/// case) act on an assignment and do nothing without one; any other command
/// is reported as unsupported.
pub open spec fn directive_action(d: DirectiveModel) -> Option<ActionModel> {
    if eq_ignore_ascii_case(d.cmd, "set"@) {
        match assignment(d.data) {
            Some((n, v)) => Some(ActionModel::SetVariable(n, v)),
            None => None,
        }
    } else if eq_ignore_ascii_case(d.cmd, "stun-set"@) {
        match assignment(d.data) {
            Some((n, v)) => Some(ActionModel::StunSet(n, v)),
            None => None,
        }
    } else if eq_ignore_ascii_case(d.cmd, "env-set"@) {
        match assignment(d.data) {
            Some((n, v)) => Some(ActionModel::EnvSet(n, v)),
            None => None,
        }
    } else {
        Some(ActionModel::Unsupported(d.full))
    }
}

/// The actions of a sequence of directives, in order.
pub open spec fn actions_of(ds: Seq<DirectiveModel>) -> Seq<ActionModel>
    decreases ds.len(),
{
    if ds.len() == 0 {
        Seq::empty()
    } else {
        actions_of(ds.drop_last()) + match directive_action(ds.last()) {
            Some(a) => seq![a],
            None => Seq::empty(),
        }
    }
}

/// The actions of a configuration text: none unless it mentions
/// `X-PRE-PROCESS`; otherwise those of its directives, line by line.
pub open spec fn process_spec(text: Seq<char>) -> Seq<ActionModel> {
    if contains(text, "X-PRE-PROCESS"@) {
        actions_of(text_directives(text))
    } else {
        Seq::empty()
    }
}

/// `name=value` split at the first `=`, when both sides are non-empty.
pub fn assignment_exec(data: &str) -> (r: Option<(String, String)>)
    ensures
        r matches Some(p) ==> assignment(data@) == Some((p.0@, p.1@)),
        r is None ==> assignment(data@) is None,
{
    let v = str_to_chars(data);
    match split_once_char(v.as_slice(), '=') {
        Some((n, val)) => {
            if n.len() > 0 && val.len() > 0 {
                Some((chars_to_string(n.as_slice()), chars_to_string(val.as_slice())))
            } else {
                None
            }
        },
        None => None,
    }
}

/// The action a directive asks for (see `directive_action`).
pub fn directive_action_exec(d: &Directive) -> (r: Option<PreProcessAction>)
    ensures
        r matches Some(a) ==> directive_action(d@) == Some(a@),
        r is None ==> directive_action(d@) is None,
{
    let cmd = str_to_chars(d.cmd.as_str());
    if eq_ignore_ascii_case_str(cmd.as_slice(), "set") {
        match assignment_exec(d.data.as_str()) {
            Some((name, value)) => Some(PreProcessAction::SetVariable { name, value }),
            None => None,
        }
    } else if eq_ignore_ascii_case_str(cmd.as_slice(), "stun-set") {
        match assignment_exec(d.data.as_str()) {
            Some((name, value)) => Some(PreProcessAction::StunSet { name, value }),
            None => None,
        }
    } else if eq_ignore_ascii_case_str(cmd.as_slice(), "env-set") {
        match assignment_exec(d.data.as_str()) {
            Some((name, value)) => Some(PreProcessAction::EnvSet { name, value }),
            None => None,
        }
    } else {
        Some(PreProcessAction::Unsupported { directive: d.full.clone() })
    }
}

/// The actions that the pre-processing directives of `text` ask for, in
/// order (none unless the text mentions `X-PRE-PROCESS`).
pub fn process(text: &str) -> (r: Vec<PreProcessAction>)
    ensures
        r@.map_values(|a: PreProcessAction| a@) == process_spec(text@),
{
    let mut r: Vec<PreProcessAction> = Vec::new();
    let tv = str_to_chars(text);
    if !contains_str(tv.as_slice(), "X-PRE-PROCESS") {
        proof {
            assert(r@.map_values(|a: PreProcessAction| a@) =~= Seq::<ActionModel>::empty());
        }
        return r;
    }
    let ds = text_directives_exec(tv.as_slice());
    let ghost dv = ds@.map_values(|d: Directive| d@);
    let mut i: usize = 0;
    while i < ds.len()
        invariant
            i <= ds@.len(),
            dv == ds@.map_values(|d: Directive| d@),
            dv == text_directives(text@),
            r@.map_values(|a: PreProcessAction| a@) == actions_of(dv.take(i as int)),
        decreases ds@.len() - i,
    {
        let ghost old_r = r@;
        let a = directive_action_exec(&ds[i]);
        proof {
            assert(dv.take(i + 1).drop_last() =~= dv.take(i as int));
            assert(dv.take(i + 1).last() == ds@[i as int]@);
        }
        match a {
            Some(a) => {
                r.push(a);
                proof {
                    assert(r@.map_values(|a: PreProcessAction| a@) =~= old_r.map_values(
                        |a: PreProcessAction| a@,
                    ).push(a@));
                }
            },
            None => {
                proof {
                    assert(actions_of(dv.take(i + 1)) =~= actions_of(dv.take(i as int)));
                }
            },
        }
        i = i + 1;
    }
    proof {
        assert(dv.take(ds@.len() as int) =~= dv);
    }
    r
}

/// The opening of a variable reference, `$${`.
pub open spec fn var_marker() -> Seq<char> {
    seq!['$', '$', '{']
}

/// The reference to the variable `name`: `$${name}`.
pub open spec fn var_reference(name: Seq<char>) -> Seq<char> {
    var_marker() + name + seq!['}']
}

/// The first occurrence of `p` in `s` at or after `from`.
pub open spec fn first_occurrence_from(s: Seq<char>, p: Seq<char>, from: int) -> Option<int>
    decreases s.len() - from,
{
    if from < 0 || from + p.len() > s.len() {
        None
    } else if p.len() == 0 || occurs_at(s, p, from) {
        Some(from)
    } else {
        first_occurrence_from(s, p, from + 1)
    }
}

/// An occurrence that is found is one, and lies at or after `from`.
pub proof fn lemma_first_occurrence(s: Seq<char>, p: Seq<char>, from: int)
    ensures
        first_occurrence_from(s, p, from) matches Some(i) ==> from <= i && i + p.len() <= s.len()
            && occurs_at(s, p, i),
    decreases s.len() - from,
{
    if !(from < 0 || from + p.len() > s.len()) && p.len() == 0 {
        assert(s.subrange(from, from) =~= p);
    }
    if !(from < 0 || from + p.len() > s.len()) && p.len() > 0 && !occurs_at(s, p, from) {
        lemma_first_occurrence(s, p, from + 1);
    }
}

/// The variable names referenced in `s` from `from` on: for each `$${`, in
/// order, the text up to the first `}` after it (references without a
/// closing `}` name nothing).
pub open spec fn var_names_from(s: Seq<char>, from: int) -> Seq<Seq<char>>
    decreases s.len() - from,
{
    match first_occurrence_from(s, var_marker(), from) {
        None => Seq::empty(),
        Some(i) => if from <= i && i + 3 <= s.len() {
            let found = match first_index_of(s.subrange(i, s.len() as int), '}') {
                Some(k) => seq![s.subrange(i + 3, i + k)],
                None => Seq::empty(),
            };
            found + var_names_from(s, i + 3)
        } else {
            Seq::empty()
        },
    }
}

/// The variable names referenced in `s`, in order.
pub open spec fn var_names_spec(s: Seq<char>) -> Seq<Seq<char>> {
    var_names_from(s, 0)
}

/// `s` with every occurrence of `p` replaced by `r`, left to right, as std's
/// `str::replace` does.
pub open spec fn replace_all(s: Seq<char>, p: Seq<char>, r: Seq<char>) -> Seq<char>
    decreases s.len(),
{
    if p.len() == 0 {
        s
    } else {
        match first_occurrence_from(s, p, 0) {
            None => s,
            Some(i) => if 0 <= i && i + p.len() <= s.len() {
                s.subrange(0, i) + r + replace_all(s.subrange(i + p.len(), s.len() as int), p, r)
            } else {
                s
            },
        }
    }
}

/// `s` with the references to `names` replaced by `values`, one name after
/// the other.
pub open spec fn expand_with(s: Seq<char>, names: Seq<Seq<char>>, values: Seq<Seq<char>>) -> Seq<char>
    decreases names.len(),
{
    if names.len() == 0 || values.len() != names.len() {
        s
    } else {
        replace_all(
            expand_with(s, names.drop_last(), values.drop_last()),
            var_reference(names.last()),
            values.last(),
        )
    }
}

/// The first occurrence of `p` in `s` at or after `from`.
pub fn first_occurrence_exec(s: &[char], p: &[char], from: usize) -> (r: Option<usize>)
    ensures
        r matches Some(i) ==> first_occurrence_from(s@, p@, from as int) == Some(i as int),
        r is None ==> first_occurrence_from(s@, p@, from as int) is None,
{
    let n = s.len();
    if p.len() > n {
        return None;
    }
    let mut i = from;
    while i <= n - p.len()
        invariant
            n == s@.len(),
            p@.len() <= n,
            from <= i,
            first_occurrence_from(s@, p@, from as int) == first_occurrence_from(s@, p@, i as int),
        decreases n - i,
    {
        if p.len() == 0 {
            assert(s@.subrange(i as int, i as int) =~= p@);
        }
        if occurs_at_exec(s, p, i) {
            return Some(i);
        }
        if i == n - p.len() {
            assert(first_occurrence_from(s@, p@, i + 1) is None);
            return None;
        }
        i = i + 1;
    }
    None
}

/// `s` with every occurrence of `p` replaced by `r`.
pub fn replace_all_exec(s: &[char], p: &[char], r: &[char]) -> (out: Vec<char>)
    ensures
        out@ == replace_all(s@, p@, r@),
{
    let n = s.len();
    if p.len() == 0 {
        return sub_chars(s, 0, n);
    }
    let mut out: Vec<char> = Vec::new();
    let mut pos: usize = 0;
    proof {
        assert(s@.subrange(0, n as int) =~= s@);
    }
    while pos <= n
        invariant
            n == s@.len(),
            p@.len() > 0,
            pos <= n,
            out@ + replace_all(s@.subrange(pos as int, n as int), p@, r@) == replace_all(s@, p@, r@),
        decreases n - pos,
    {
        let rest = slice_subrange(s, pos, n);
        proof {
            lemma_first_occurrence(rest@, p@, 0);
        }
        match first_occurrence_exec(rest, p, 0) {
            None => {
                let tail = sub_chars(s, pos, n);
                let ghost before = out@;
                let mut tail = tail;
                out.append(&mut tail);
                proof {
                    assert(out@ =~= before + s@.subrange(pos as int, n as int));
                }
                return out;
            },
            Some(i) => {
                let ghost before = out@;
                let mut head = sub_chars(s, pos, pos + i);
                out.append(&mut head);
                let mut rep = sub_chars(r, 0, r.len());
                out.append(&mut rep);
                proof {
                    assert(r@.subrange(0, r@.len() as int) =~= r@);
                    assert(rest@.subrange(0, i as int) =~= s@.subrange(pos as int, pos + i));
                    assert(rest@.subrange(i + p@.len(), rest@.len() as int) =~= s@.subrange(
                        pos + i + p@.len(),
                        n as int,
                    ));
                    assert(out@ =~= before + s@.subrange(pos as int, pos + i) + r@);
                }
                pos = pos + i + p.len();
            },
        }
    }
    out
}

/// The first occurrence of `p` from `from` on is at `k` when `p` occurs
/// there and no earlier position holds `p`'s first character.
proof fn lemma_occurrence_at(s: Seq<char>, p: Seq<char>, from: int, k: int)
    requires
        p.len() > 0,
        0 <= from <= k,
        occurs_at(s, p, k),
        forall|j: int| from <= j < k ==> s[j] != p[0],
    ensures
        first_occurrence_from(s, p, from) == Some(k),
    decreases k - from,
{
    if from < k {
        assert(s.subrange(from, from + p.len())[0] == s[from]);
        assert(!occurs_at(s, p, from));
        lemma_occurrence_at(s, p, from + 1, k);
    }
}

/// No occurrence of `p` from `from` on when `p`'s first character does not
/// appear there.
proof fn lemma_no_occurrence(s: Seq<char>, p: Seq<char>, from: int)
    requires
        p.len() > 0,
        0 <= from,
        forall|j: int| from <= j < s.len() ==> s[j] != p[0],
    ensures
        first_occurrence_from(s, p, from) is None,
    decreases s.len() - from,
{
    if from + p.len() <= s.len() {
        assert(s.subrange(from, from + p.len())[0] == s[from]);
        assert(!occurs_at(s, p, from));
        lemma_no_occurrence(s, p, from + 1);
    }
}

/// A text with one variable reference `$${n}`, with no `$` around it and
/// neither `$` nor `}` in the name, names just that variable, and expanding
/// it with the value `v` puts `v` in the reference's place and leaves the
/// rest as it was.
pub proof fn lemma_expand_single_reference(a: Seq<char>, n: Seq<char>, b: Seq<char>, v: Seq<char>)
    requires
        forall|i: int| 0 <= i < a.len() ==> a[i] != '$',
        forall|i: int| 0 <= i < b.len() ==> b[i] != '$',
        forall|i: int| 0 <= i < n.len() ==> n[i] != '$' && n[i] != '}',
    ensures
        var_names_spec(a + var_reference(n) + b) == seq![n],
        expand_with(a + var_reference(n) + b, seq![n], seq![v]) == a + v + b,
{
    let r = var_reference(n);
    let s = a + r + b;
    let k = a.len() as int;
    let m = var_marker();
    assert(r.len() == n.len() + 4);
    assert forall|j: int| 0 <= j < k implies s[j] != '$' by {
        assert(s[j] == a[j]);
    }
    assert(s.subrange(k, k + 3) =~= m);
    lemma_occurrence_at(s, m, 0, k);
    let t = s.subrange(k, s.len() as int);
    let c: int = 3 + n.len() as int;
    assert(t[c] == '}');
    assert forall|j: int| 0 <= j < c implies t[j] != '}' by {
        if j >= 3 {
            assert(t[j] == n[j - 3]);
        }
    }
    lemma_first_index_of(t, '}');
    assert(first_index_of(t, '}') == Some(c));
    assert(s.subrange(k + 3, k + c) =~= n);
    assert forall|j: int| k + 3 <= j < s.len() implies s[j] != m[0] by {
        if j < k + 3 + n.len() {
            assert(s[j] == n[j - k - 3]);
        } else if j >= k + r.len() {
            assert(s[j] == b[j - k - r.len()]);
        }
    }
    lemma_no_occurrence(s, m, k + 3);
    assert(var_names_from(s, k + 3) =~= Seq::<Seq<char>>::empty());
    assert(var_names_spec(s) =~= seq![n]);
    assert(seq![n].drop_last() =~= Seq::<Seq<char>>::empty());
    assert(seq![v].drop_last() =~= Seq::<Seq<char>>::empty());
    assert(expand_with(s, Seq::<Seq<char>>::empty(), Seq::<Seq<char>>::empty()) == s);
    assert(s.subrange(k, k + r.len()) =~= r);
    lemma_occurrence_at(s, r, 0, k);
    assert(s.subrange(0, k) =~= a);
    assert(s.subrange(k + r.len(), s.len() as int) =~= b);
    lemma_no_occurrence(b, r, 0);
    assert(replace_all(b, r, v) == b);
    assert(replace_all(s, r, v) =~= a + v + b);
}

/// No occurrence of `p` from `from` on when `p` occurs at no position there.
proof fn lemma_nowhere(s: Seq<char>, p: Seq<char>, from: int)
    requires
        p.len() > 0,
        0 <= from,
        forall|j: int| from <= j ==> !#[trigger] occurs_at(s, p, j),
    ensures
        first_occurrence_from(s, p, from) is None,
    decreases s.len() - from,
{
    if from + p.len() <= s.len() {
        assert(!occurs_at(s, p, from));
        lemma_nowhere(s, p, from + 1);
    }
}

/// A reference to another name does not contain a reference to `n1`.
proof fn lemma_other_reference(x: Seq<char>, n1: Seq<char>, n2: Seq<char>, k: int)
    requires
        n1 != n2,
        forall|i: int| 0 <= i < n1.len() ==> n1[i] != '$' && n1[i] != '}',
        forall|i: int| 0 <= i < n2.len() ==> n2[i] != '$' && n2[i] != '}',
        0 <= k,
        k + var_reference(n2).len() <= x.len(),
        x.subrange(k, k + var_reference(n2).len()) == var_reference(n2),
        forall|j: int| 0 <= j < x.len() && (j < k || j >= k + var_reference(n2).len()) ==> x[j] != '$',
    ensures
        forall|j: int| 0 <= j ==> !#[trigger] occurs_at(x, var_reference(n1), j),
{
    let r1 = var_reference(n1);
    let r2 = var_reference(n2);
    assert forall|j: int| 0 <= j implies !#[trigger] occurs_at(x, r1, j) by {
        if occurs_at(x, r1, j) {
            let w = x.subrange(j, j + r1.len());
            assert(w[0] == x[j]);
            assert(w[0] == '$');
            if j == k {
                if n1.len() < n2.len() {
                    assert(w[3 + n1.len() as int] == '}');
                    assert(x[k + 3 + n1.len() as int] == r2[3 + n1.len() as int]);
                    assert(r2[3 + n1.len() as int] == n2[n1.len() as int]);
                } else if n1.len() > n2.len() {
                    assert(w[3 + n2.len() as int] == n1[n2.len() as int]);
                    assert(x[k + 3 + n2.len() as int] == r2[3 + n2.len() as int]);
                } else {
                    assert forall|i: int| 0 <= i < n1.len() implies n1[i] == n2[i] by {
                        assert(w[3 + i] == n1[i]);
                        assert(x[k + 3 + i] == r2[3 + i]);
                    }
                    assert(n1 =~= n2);
                }
            } else if j == k + 1 {
                assert(w[1] == '$');
                assert(x[k + 2] == r2[2]);
            } else if k + 2 <= j < k + r2.len() {
                assert(x[j] == r2[j - k]);
                if 3 <= j - k < 3 + n2.len() {
                    assert(r2[j - k] == n2[j - k - 3]);
                }
            }
        }
    }
}

/// The names part of `lemma_expand_two_references`.
proof fn lemma_two_names(
    a: Seq<char>,
    n1: Seq<char>,
    b: Seq<char>,
    n2: Seq<char>,
    c: Seq<char>,
    v1: Seq<char>,
    v2: Seq<char>,
)
    requires
        n1 != n2,
        forall|i: int| 0 <= i < a.len() ==> a[i] != '$',
        forall|i: int| 0 <= i < b.len() ==> b[i] != '$',
        forall|i: int| 0 <= i < c.len() ==> c[i] != '$',
        forall|i: int| 0 <= i < v1.len() ==> v1[i] != '$',
        forall|i: int| 0 <= i < n1.len() ==> n1[i] != '$' && n1[i] != '}',
        forall|i: int| 0 <= i < n2.len() ==> n2[i] != '$' && n2[i] != '}',
    ensures
        var_names_spec(a + var_reference(n1) + b + var_reference(n2) + c) == seq![n1, n2],
{
    let r1 = var_reference(n1);
    let r2 = var_reference(n2);
    let s = a + r1 + b + r2 + c;
    let m = var_marker();
    let k1 = a.len() as int;
    let k2: int = (a.len() + r1.len() + b.len()) as int;
    let e2: int = k2 + r2.len();
    // The names.
    assert forall|j: int| 0 <= j < k1 implies s[j] != '$' by {
        assert(s[j] == a[j]);
    }
    assert(s.subrange(k1, k1 + 3) =~= m);
    lemma_occurrence_at(s, m, 0, k1);
    let t1 = s.subrange(k1, s.len() as int);
    let c1: int = 3 + n1.len() as int as int;
    assert(t1[c1] == '}');
    assert forall|j: int| 0 <= j < c1 implies t1[j] != '}' by {
        if j >= 3 {
            assert(t1[j] == n1[j - 3]);
        }
    }
    lemma_first_index_of(t1, '}');
    assert(s.subrange(k1 + 3, k1 + c1) =~= n1);
    assert forall|j: int| k1 + 3 <= j < k2 implies s[j] != m[0] by {
        if j < k1 + 3 + n1.len() as int {
            assert(s[j] == n1[j - k1 - 3]);
        } else if j >= k1 + r1.len() {
            assert(s[j] == b[j - k1 - r1.len()]);
        }
    }
    assert(s.subrange(k2, k2 + 3) =~= m);
    lemma_occurrence_at(s, m, k1 + 3, k2);
    let t2 = s.subrange(k2, s.len() as int);
    let c2: int = 3 + n2.len() as int as int;
    assert(t2[c2] == '}');
    assert forall|j: int| 0 <= j < c2 implies t2[j] != '}' by {
        if j >= 3 {
            assert(t2[j] == n2[j - 3]);
        }
    }
    lemma_first_index_of(t2, '}');
    assert(s.subrange(k2 + 3, k2 + c2) =~= n2);
    assert forall|j: int| k2 + 3 <= j < s.len() implies s[j] != m[0] by {
        if j < k2 + 3 + n2.len() as int {
            assert(s[j] == n2[j - k2 - 3]);
        } else if j >= e2 {
            assert(s[j] == c[j - e2]);
        }
    }
    lemma_no_occurrence(s, m, k2 + 3);
    assert(var_names_from(s, k2 + 3) =~= Seq::<Seq<char>>::empty());
    assert(var_names_from(s, k1 + 3) =~= seq![n2]);
    assert(var_names_spec(s) =~= seq![n1, n2]);
}

/// Expanding with one name replaces that name's references.
proof fn lemma_expand_last(s: Seq<char>, names: Seq<Seq<char>>, values: Seq<Seq<char>>)
    requires
        names.len() > 0,
        values.len() == names.len(),
    ensures
        expand_with(s, names, values) == replace_all(
            expand_with(s, names.drop_last(), values.drop_last()),
            var_reference(names.last()),
            values.last(),
        ),
{
}

/// The expansion part of `lemma_expand_two_references`.
proof fn lemma_two_expansions(
    a: Seq<char>,
    n1: Seq<char>,
    b: Seq<char>,
    n2: Seq<char>,
    c: Seq<char>,
    v1: Seq<char>,
    v2: Seq<char>,
)
    requires
        n1 != n2,
        forall|i: int| 0 <= i < a.len() ==> a[i] != '$',
        forall|i: int| 0 <= i < b.len() ==> b[i] != '$',
        forall|i: int| 0 <= i < c.len() ==> c[i] != '$',
        forall|i: int| 0 <= i < v1.len() ==> v1[i] != '$',
        forall|i: int| 0 <= i < n1.len() ==> n1[i] != '$' && n1[i] != '}',
        forall|i: int| 0 <= i < n2.len() ==> n2[i] != '$' && n2[i] != '}',
    ensures
        expand_with(a + var_reference(n1) + b + var_reference(n2) + c, seq![n1, n2], seq![v1, v2])
            == a + v1 + b + v2 + c,
{
    let r1 = var_reference(n1);
    let r2 = var_reference(n2);
    let s = a + r1 + b + r2 + c;
    let m = var_marker();
    let k1 = a.len() as int;
    let k2: int = (a.len() + r1.len() + b.len()) as int;
    let e2: int = k2 + r2.len();
    // The first replacement.
    assert(seq![n1, n2].drop_last() =~= seq![n1]);
    assert(seq![v1, v2].drop_last() =~= seq![v1]);
    assert(seq![n1].drop_last() =~= Seq::<Seq<char>>::empty());
    assert(seq![v1].drop_last() =~= Seq::<Seq<char>>::empty());
    assert(s.subrange(k1, k1 + r1.len()) =~= r1);
    lemma_occurrence_at(s, r1, 0, k1);
    let rest = b + r2 + c;
    assert(s.subrange(k1 + r1.len(), s.len() as int) =~= rest);
    assert(rest.subrange(b.len() as int, (b.len() + r2.len()) as int) =~= r2);
    assert forall|j: int|
        0 <= j < rest.len() && (j < b.len() || j >= b.len() + r2.len()) implies rest[j] != '$' by {
        if j < b.len() {
            assert(rest[j] == b[j]);
        } else {
            assert(rest[j] == c[j - b.len() - r2.len()]);
        }
    }
    lemma_other_reference(rest, n1, n2, b.len() as int);
    lemma_nowhere(rest, r1, 0);
    assert(replace_all(rest, r1, v1) == rest);
    assert(s.subrange(0, k1) =~= a);
    let s1 = a + v1 + rest;
    assert(replace_all(s, r1, v1) == s1);
    lemma_expand_last(s, seq![n1], seq![v1]);
    assert(expand_with(s, Seq::<Seq<char>>::empty(), Seq::<Seq<char>>::empty()) == s);
    assert(expand_with(s, seq![n1], seq![v1]) == s1);
    lemma_expand_last(s, seq![n1, n2], seq![v1, v2]);
    // The second replacement.
    let k3: int = (a.len() + v1.len() + b.len()) as int;
    assert forall|j: int| 0 <= j < k3 implies s1[j] != r2[0] by {
        if j < a.len() {
            assert(s1[j] == a[j]);
        } else if j < a.len() + v1.len() {
            assert(s1[j] == v1[j - a.len()]);
        } else {
            assert(s1[j] == b[j - a.len() - v1.len()]);
        }
    }
    assert(s1.subrange(k3, k3 + r2.len()) =~= r2);
    lemma_occurrence_at(s1, r2, 0, k3);
    assert(s1.subrange(0, k3) =~= a + v1 + b);
    assert(s1.subrange(k3 + r2.len(), s1.len() as int) =~= c);
    lemma_no_occurrence(c, r2, 0);
    assert(replace_all(c, r2, v2) == c);
    assert(replace_all(s1, r2, v2) =~= a + v1 + b + v2 + c);
}

/// A text with two references to different variables, with no `$` around
/// them and neither `$` nor `}` in the names, names these two variables in
/// order, and expanding it with values `v1` (which holds no `$`) and `v2`
/// puts each value in its reference's place and leaves the rest as it was.
pub proof fn lemma_expand_two_references(
    a: Seq<char>,
    n1: Seq<char>,
    b: Seq<char>,
    n2: Seq<char>,
    c: Seq<char>,
    v1: Seq<char>,
    v2: Seq<char>,
)
    requires
        n1 != n2,
        forall|i: int| 0 <= i < a.len() ==> a[i] != '$',
        forall|i: int| 0 <= i < b.len() ==> b[i] != '$',
        forall|i: int| 0 <= i < c.len() ==> c[i] != '$',
        forall|i: int| 0 <= i < v1.len() ==> v1[i] != '$',
        forall|i: int| 0 <= i < n1.len() ==> n1[i] != '$' && n1[i] != '}',
        forall|i: int| 0 <= i < n2.len() ==> n2[i] != '$' && n2[i] != '}',
    ensures
        var_names_spec(a + var_reference(n1) + b + var_reference(n2) + c) == seq![n1, n2],
        expand_with(a + var_reference(n1) + b + var_reference(n2) + c, seq![n1, n2], seq![v1, v2])
            == a + v1 + b + v2 + c,
{
    lemma_two_names(a, n1, b, n2, c, v1, v2);
    lemma_two_expansions(a, n1, b, n2, c, v1, v2);
}

/// The names of the variables referenced in `s` (`$${name}`), in order; the
/// values to expand them with are looked up from these.
pub fn var_names(s: &str) -> (r: Vec<String>)
    ensures
        r@.map_values(|n: String| n@) == var_names_spec(s@),
{
    let v = str_to_chars(s);
    let n = v.len();
    let marker: Vec<char> = vec!['$', '$', '{'];
    let mut r: Vec<String> = Vec::new();
    let mut from: usize = 0;
    while from <= n
        invariant
            n == v@.len(),
            v@ == s@,
            marker@ == var_marker(),
            r@.map_values(|x: String| x@) + var_names_from(s@, from as int) == var_names_spec(s@),
        decreases n + 1 - from,
    {
        proof {
            lemma_first_occurrence(v@, marker@, from as int);
        }
        match first_occurrence_exec(v.as_slice(), marker.as_slice(), from) {
            None => {
                proof {
                    assert(r@.map_values(|x: String| x@) =~= r@.map_values(|x: String| x@) + Seq::<Seq<char>>::empty());
                }
                return r;
            },
            Some(i) => {
                let rest = slice_subrange(v.as_slice(), i, n);
                proof {
                    lemma_first_index_of(rest@, '}');
                }
                let ghost before = r@;
                match find_char(rest, '}') {
                    Some(k) => {
                        proof {
                            assert(rest@[0] == '$' && rest@[1] == '$' && rest@[2] == '{') by {
                                assert(v@.subrange(i as int, i + 3) == marker@);
                                assert(v@.subrange(i as int, i + 3)[0] == v@[i as int]);
                            }
                            assert(k >= 3);
                        }
                        let name = chars_to_string(sub_chars(v.as_slice(), i + 3, i + k).as_slice());
                        r.push(name);
                        proof {
                            assert(r@.map_values(|x: String| x@) =~= before.map_values(|x: String| x@).push(
                                v@.subrange(i + 3, i + k),
                            ));
                        }
                    },
                    None => {},
                }
                from = i + 3;
            },
        }
    }
    r
}

/// Expands the variable references of `s`: each name of `var_names(s)` is
/// replaced, in order, by the value at the same position of `values`.
pub fn expand_vars(s: &str, values: &Vec<String>) -> (r: String)
    requires
        values@.len() == var_names_spec(s@).len(),
    ensures
        r@ == expand_with(s@, var_names_spec(s@), values@.map_values(|x: String| x@)),
{
    let names = var_names(s);
    let ghost nv = names@.map_values(|x: String| x@);
    let ghost vv = values@.map_values(|x: String| x@);
    let mut e = str_to_chars(s);
    let mut i: usize = 0;
    while i < names.len()
        invariant
            i <= names@.len(),
            names@.len() == values@.len(),
            nv == names@.map_values(|x: String| x@),
            nv == var_names_spec(s@),
            vv == values@.map_values(|x: String| x@),
            e@ == expand_with(s@, nv.take(i as int), vv.take(i as int)),
        decreases names@.len() - i,
    {
        let mut pat: Vec<char> = vec!['$', '$', '{'];
        let mut nm = str_to_chars(names[i].as_str());
        pat.append(&mut nm);
        pat.push('}');
        let val = str_to_chars(values[i].as_str());
        proof {
            assert(pat@ =~= var_reference(nv[i as int]));
            assert(nv.take(i + 1).drop_last() =~= nv.take(i as int));
            assert(vv.take(i + 1).drop_last() =~= vv.take(i as int));
            assert(nv.take(i + 1).last() == nv[i as int]);
            assert(vv.take(i + 1).last() == vv[i as int]);
        }
        e = replace_all_exec(e.as_slice(), pat.as_slice(), val.as_slice());
        i = i + 1;
    }
    proof {
        assert(nv.take(names@.len() as int) =~= nv);
        assert(vv.take(names@.len() as int) =~= vv);
    }
    chars_to_string(e.as_slice())
}

} // verus!
