//! Variable substitution in manifest strings.
//!
//! A placeholder is written `%{name}`, where `name` is made of ASCII letters,
//! digits and underscores and may be empty. Every placeholder of a template
//! is replaced, in one pass from left to right, by the value of the variable
//! it names; what was put in is not scanned again. A template that names an
//! unknown variable is refused as a whole.

use std::borrow::Cow;
use vstd::prelude::*;
use vstd::string::StringExecFns;

use crate::error::{fault, BuildError, ErrorKind, ErrorView};
use crate::package::{Info, InfoView};
use crate::text::{chars_of, spells, string_of};

verus! {

/// Whether `c` may occur in the name of a placeholder.
pub open spec fn is_name_char(c: char) -> bool {
    ||| 'a' <= c && c <= 'z'
    ||| 'A' <= c && c <= 'Z'
    ||| '0' <= c && c <= '9'
    ||| c == '_'
}

/// Where the run of name characters that starts at `from` ends: the first
/// index at or after `from` that holds no name character, or the length of
/// `s`.
pub open spec fn name_end(s: Seq<char>, from: int) -> int
    decreases s.len() - from,
{
    if 0 <= from < s.len() && is_name_char(s[from]) {
        name_end(s, from + 1)
    } else {
        from
    }
}

/// The run of name characters that starts at `from` holds name characters
/// only, stays inside `s`, and stops before a character that is none.
pub proof fn lemma_name_run(s: Seq<char>, from: int)
    ensures
        from <= name_end(s, from),
        from <= s.len() ==> name_end(s, from) <= s.len(),
        forall|k: int| from <= k < name_end(s, from) ==> 0 <= k < s.len() && is_name_char(s[k]),
        0 <= name_end(s, from) < s.len() ==> !is_name_char(s[name_end(s, from)]),
    decreases s.len() - from,
{
    if 0 <= from < s.len() && is_name_char(s[from]) {
        lemma_name_run(s, from + 1);
    }
}

/// Whether a placeholder starts at index `at` of `s`: `%`, `{`, a run of name
/// characters and `}`.
pub open spec fn placeholder_at(s: Seq<char>, at: int) -> bool {
    &&& 0 <= at
    &&& at + 2 < s.len()
    &&& s[at] == '%'
    &&& s[at + 1] == '{'
    &&& name_end(s, at + 2) < s.len()
    &&& s[name_end(s, at + 2)] == '}'
}

/// The name between the braces of the placeholder that starts at `at`.
pub open spec fn placeholder_name(s: Seq<char>, at: int) -> Seq<char> {
    s.subrange(at + 2, name_end(s, at + 2))
}

/// The index just after the placeholder that starts at `at`.
pub open spec fn placeholder_end(s: Seq<char>, at: int) -> int {
    name_end(s, at + 2) + 1
}

/// Whether `s` holds a placeholder anywhere.
pub open spec fn has_placeholder(s: Seq<char>) -> bool {
    exists|at: int| placeholder_at(s, at)
}

/// The value of the variable `name`, if there is such a variable. The only
/// one is `version`.
pub open spec fn variable(name: Seq<char>, info: InfoView) -> Option<Seq<char>> {
    if name == "version"@ {
        Some(info.version)
    } else {
        None
    }
}

/// The name of the first placeholder at or after `from` that names no
/// variable.
pub open spec fn first_unrecognized(s: Seq<char>, from: int, info: InfoView) -> Option<Seq<char>>
    decreases s.len() - from,
{
    if from < 0 || from >= s.len() {
        None
    } else if placeholder_at(s, from) {
        if variable(placeholder_name(s, from), info) is Some {
            proof {
                lemma_name_run(s, from + 2);
            }
            first_unrecognized(s, placeholder_end(s, from), info)
        } else {
            Some(placeholder_name(s, from))
        }
    } else {
        first_unrecognized(s, from + 1, info)
    }
}

/// `s` from index `from` on, with each placeholder that names a variable
/// replaced by the variable's value.
pub open spec fn expanded(s: Seq<char>, from: int, info: InfoView) -> Seq<char>
    decreases s.len() - from,
{
    if from < 0 || from >= s.len() {
        Seq::empty()
    } else if placeholder_at(s, from) && variable(placeholder_name(s, from), info) is Some {
        proof {
            lemma_name_run(s, from + 2);
        }
        variable(placeholder_name(s, from), info)->0 + expanded(s, placeholder_end(s, from), info)
    } else {
        seq![s[from]] + expanded(s, from + 1, info)
    }
}

/// What substitution makes of the template `s`: the expanded text, or the
/// refusal of the first placeholder that names no variable.
pub open spec fn substituted(s: Seq<char>, info: InfoView) -> Result<Seq<char>, ErrorView> {
    match first_unrecognized(s, 0, info) {
        Some(name) => Err(fault(ErrorKind::UnrecognizedPlaceholder, name)),
        None => Ok(expanded(s, 0, info)),
    }
}

fn name_char(c: char) -> (yes: bool)
    ensures
        yes == is_name_char(c),
{
    ('a' <= c && c <= 'z') || ('A' <= c && c <= 'Z') || ('0' <= c && c <= '9') || c == '_'
}

/// The value of the variable spelled by `chars[from..to]`.
fn lookup<'a>(chars: &Vec<char>, from: usize, to: usize, info: &'a Info) -> (value: Option<&'a str>)
    requires
        from <= to <= chars@.len(),
    ensures
        match value {
            Some(v) => variable(chars@.subrange(from as int, to as int), info@) == Some(v@),
            None => variable(chars@.subrange(from as int, to as int), info@) is None,
        },
{
    if spells(chars, from, to, "version") {
        Some(info.version.as_str())
    } else {
        None
    }
}

/// The end of the run of name characters that starts at `from`.
fn scan_name(chars: &Vec<char>, from: usize) -> (end: usize)
    requires
        from <= chars@.len(),
    ensures
        end == name_end(chars@, from as int),
        from <= end <= chars@.len(),
{
    let mut end: usize = from;
    while end < chars.len() && name_char(chars[end])
        invariant
            from <= end <= chars@.len(),
            name_end(chars@, from as int) == name_end(chars@, end as int),
        decreases chars@.len() - end,
    {
        end += 1;
    }
    end
}

/// Replaces every placeholder of `haystack` by the value of its variable.
///
/// A template without placeholders is handed back as it is, borrowed. A
/// template with a placeholder that names no variable is refused, with the
/// name of the first such placeholder; nothing partly substituted is ever
/// returned.
pub fn replace_vars<'a>(haystack: &'a str, info: &Info) -> (result: Result<Cow<'a, str>, BuildError>)
    ensures
        match result {
            Ok(text) => {
                &&& substituted(haystack@, info@) == Ok::<Seq<char>, ErrorView>(text@)
                &&& (text is Borrowed) <==> !has_placeholder(haystack@)
            },
            Err(e) => substituted(haystack@, info@) == Err::<Seq<char>, ErrorView>(e@),
        },
{
    let chars = chars_of(haystack);
    let n = chars.len();
    let mut out = String::new();
    let mut changed = false;
    let mut i: usize = 0;
    while i < n
        invariant
            chars@ == haystack@,
            n == chars@.len(),
            i <= n,
            first_unrecognized(chars@, 0, info@) == first_unrecognized(chars@, i as int, info@),
            expanded(chars@, 0, info@) == out@ + expanded(chars@, i as int, info@),
            !changed ==> out@ == chars@.take(i as int),
            !changed ==> forall|at: int| 0 <= at < i ==> !placeholder_at(chars@, at),
            changed ==> has_placeholder(chars@),
        decreases n - i,
    {
        let mut stepped = false;
        if chars[i] == '%' && n - i > 2 && chars[i + 1] == '{' {
            let end = scan_name(&chars, i + 2);
            if end < n && chars[end] == '}' {
                assert(placeholder_at(chars@, i as int));
                match lookup(&chars, i + 2, end, info) {
                    Some(value) => {
                        out.append(value);
                        changed = true;
                        i = end + 1;
                        stepped = true;
                    },
                    None => {
                        let name = string_of(&chars, i + 2, end);
                        return Err(BuildError::new(ErrorKind::UnrecognizedPlaceholder, name));
                    },
                }
            }
        }
        if !stepped {
            let ghost before = out@;
            let ghost rest = expanded(chars@, i + 1, info@);
            out.push(chars[i]);
            assert(chars@.take(i + 1) == chars@.take(i as int).push(chars@[i as int]));
            assert(before.push(chars@[i as int]) + rest == before + (seq![chars@[i as int]] + rest));
            i += 1;
        }
    }
    if changed {
        Ok(Cow::Owned(out))
    } else {
        assert(chars@.take(n as int) == chars@);
        Ok(Cow::Borrowed(haystack))
    }
}

/// A run of name characters that is known from end to end: if
/// `s[from..end]` holds name characters only and `end` is the length of `s` or
/// holds another character, the run that starts at `from` ends at `end`.
pub proof fn lemma_name_end_is(s: Seq<char>, from: int, end: int)
    requires
        0 <= from <= end <= s.len(),
        forall|k: int| from <= k < end ==> is_name_char(s[k]),
        end == s.len() || !is_name_char(s[end]),
    ensures
        name_end(s, from) == end,
    decreases end - from,
{
    if from < end {
        lemma_name_end_is(s, from + 1, end);
    }
}

/// Over a stretch without placeholders nothing is replaced and nothing is
/// refused: the text of `s[from..to]` is copied.
pub proof fn lemma_plain_stretch(s: Seq<char>, from: int, to: int, info: InfoView)
    requires
        0 <= from <= to <= s.len(),
        forall|at: int| from <= at < to ==> !placeholder_at(s, at),
    ensures
        expanded(s, from, info) == s.subrange(from, to) + expanded(s, to, info),
        first_unrecognized(s, from, info) == first_unrecognized(s, to, info),
    decreases to - from,
{
    if from < to {
        lemma_plain_stretch(s, from + 1, to, info);
        assert(seq![s[from]] + (s.subrange(from + 1, to) + expanded(s, to, info)) == s.subrange(
            from,
            to,
        ) + expanded(s, to, info));
    } else {
        assert(s.subrange(from, to) + expanded(s, to, info) == expanded(s, to, info));
    }
}

/// A template without placeholders is its own substitution.
pub proof fn lemma_no_placeholder_unchanged(s: Seq<char>, info: InfoView)
    requires
        !has_placeholder(s),
    ensures
        substituted(s, info) == Ok::<Seq<char>, ErrorView>(s),
{
    lemma_plain_stretch(s, 0, s.len() as int, info);
    assert(s.subrange(0, s.len() as int) + Seq::<char>::empty() == s);
}

/// The placeholder `%{version}` between two texts without placeholders is
/// replaced by the version, and the texts around it are kept.
pub proof fn lemma_version_between(before: Seq<char>, after: Seq<char>, info: InfoView)
    requires
        !has_placeholder(before),
        !has_placeholder(after),
    ensures
        substituted(before + "%{version}"@ + after, info) == Ok::<Seq<char>, ErrorView>(
            before + info.version + after,
        ),
{
    reveal_strlit("%{version}");
    reveal_strlit("version");
    let mark = "%{version}"@;
    let s = before + mark + after;
    let p = before.len() as int;
    let q = p + 10;
    assert(s.subrange(p, q) == mark);
    assert(s.subrange(q, s.len() as int) == after);
    assert(s.subrange(0, p) == before);
    // The placeholder itself.
    assert forall|k: int| p + 2 <= k < p + 9 implies is_name_char(s[k]) by {
        assert(s[k] == mark[k - p]);
    }
    assert(s[p + 9] == mark[9]);
    lemma_name_end_is(s, p + 2, p + 9);
    assert(s[p] == mark[0] && s[p + 1] == mark[1]);
    assert(placeholder_at(s, p));
    assert(placeholder_name(s, p) == "version"@);
    // Nothing starts before it.
    assert forall|at: int| 0 <= at < p implies !placeholder_at(s, at) by {
        if placeholder_at(s, at) {
            let end = name_end(s, at + 2);
            lemma_name_run(s, at + 2);
            assert(s[p] == '%');
            if at + 1 == p {
                assert(false);
            }
            if at + 2 <= p && p < end {
                assert(is_name_char(s[p]));
            }
            assert(end < p);
            assert forall|k: int| at + 2 <= k < end implies is_name_char(before[k]) by {
                assert(before[k] == s[k]);
            }
            assert(before[end] == s[end]);
            lemma_name_end_is(before, at + 2, end);
            assert(before[at] == s[at] && before[at + 1] == s[at + 1]);
            assert(placeholder_at(before, at));
        }
    }
    // Nothing starts after it.
    assert forall|at: int| q <= at < s.len() implies !placeholder_at(s, at) by {
        if placeholder_at(s, at) {
            let end = name_end(s, at + 2);
            lemma_name_run(s, at + 2);
            assert forall|k: int| at + 2 - q <= k < end - q implies is_name_char(after[k]) by {
                assert(after[k] == s[k + q]);
            }
            assert(after[end - q] == s[end]);
            lemma_name_end_is(after, at + 2 - q, end - q);
            assert(after[at - q] == s[at] && after[at - q + 1] == s[at + 1]);
            assert(placeholder_at(after, at - q));
        }
    }
    lemma_plain_stretch(s, 0, p, info);
    lemma_plain_stretch(s, q, s.len() as int, info);
    assert(expanded(s, p, info) == info.version + expanded(s, q, info));
    assert(before + (info.version + (after + Seq::<char>::empty())) == before + info.version
        + after);
}

/// A template that is `%{version}` and nothing else becomes the version.
pub proof fn lemma_version_alone(info: InfoView)
    ensures
        substituted("%{version}"@, info) == Ok::<Seq<char>, ErrorView>(info.version),
{
    let none = Seq::<char>::empty();
    assert forall|at: int| !placeholder_at(none, at) by {}
    lemma_version_between(none, none, info);
    assert(none + "%{version}"@ + none == "%{version}"@);
    assert(none + info.version + none == info.version);
}

/// `pre-%{version}-post` becomes `pre-`, the version and `-post`.
pub proof fn lemma_version_in_context(info: InfoView)
    ensures
        substituted("pre-%{version}-post"@, info) == Ok::<Seq<char>, ErrorView>(
            "pre-"@ + info.version + "-post"@,
        ),
{
    reveal_strlit("pre-%{version}-post");
    reveal_strlit("pre-");
    reveal_strlit("-post");
    reveal_strlit("%{version}");
    let before = "pre-"@;
    let after = "-post"@;
    assert forall|at: int| !placeholder_at(before, at) by {}
    assert forall|at: int| !placeholder_at(after, at) by {}
    lemma_version_between(before, after, info);
    assert(before + "%{version}"@ + after == "pre-%{version}-post"@);
}

/// A placeholder that names no variable makes substitution fail, wherever in
/// the template it stands and whatever stands around it.
pub proof fn lemma_unrecognized_fails(s: Seq<char>, at: int, info: InfoView)
    requires
        placeholder_at(s, at),
        variable(placeholder_name(s, at), info) is None,
    ensures
        substituted(s, info) is Err,
        substituted(s, info)->Err_0.kind == ErrorKind::UnrecognizedPlaceholder,
{
    lemma_refused_from(s, 0, at, info);
}

/// Scanning from any index up to an unrecognized placeholder finds an
/// unrecognized placeholder.
proof fn lemma_refused_from(s: Seq<char>, from: int, at: int, info: InfoView)
    requires
        0 <= from <= at,
        placeholder_at(s, at),
        variable(placeholder_name(s, at), info) is None,
    ensures
        first_unrecognized(s, from, info) is Some,
    decreases at - from,
{
    if from < at {
        if placeholder_at(s, from) {
            if variable(placeholder_name(s, from), info) is Some {
                let end = name_end(s, from + 2);
                lemma_name_run(s, from + 2);
                if from + 2 <= at && at < end {
                    assert(is_name_char(s[at]));
                }
                lemma_refused_from(s, end + 1, at, info);
            }
        } else {
            lemma_refused_from(s, from + 1, at, info);
        }
    }
}

} // verus!
