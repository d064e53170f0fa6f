//! Character-level helpers shared by the rest of the library.
//!
//! A string is modelled by its sequence of characters; the functions here
//! move between `str`, `String` and `Vec<char>` without changing that
//! sequence.

use vstd::prelude::*;

verus! {

/// `String::push` of the standard library: the character is appended to the
/// end of the string and nothing else changes.
pub assume_specification[ String::push ](s: &mut String, c: char)
    ensures
        final(s)@ == old(s)@.push(c),
;

/// The characters of `s`, in order.
pub(crate) fn chars_of(s: &str) -> (chars: Vec<char>)
    ensures
        chars@ == s@,
{
    let mut chars: Vec<char> = Vec::new();
    for c in it: s.chars()
        invariant
            it.seq() == s@,
            chars@ == it.seq().take(it.index() as int),
    {
        chars.push(c);
        assert(it.seq().take(it.index() + 1) == it.seq().take(it.index() as int).push(c));
    }
    chars
}

/// The string made of the characters `chars[from..to]`.
pub(crate) fn string_of(chars: &Vec<char>, from: usize, to: usize) -> (s: String)
    requires
        from <= to <= chars@.len(),
    ensures
        s@ == chars@.subrange(from as int, to as int),
{
    let mut s = String::new();
    let mut i: usize = from;
    while i < to
        invariant
            from <= i <= to <= chars@.len(),
            s@ == chars@.subrange(from as int, i as int),
        decreases to - i,
    {
        s.push(chars[i]);
        assert(chars@.subrange(from as int, i + 1) == chars@.subrange(from as int, i as int).push(
            chars@[i as int],
        ));
        i += 1;
    }
    s
}

/// The characters `chars[from..to]`.
pub(crate) fn slice_of(chars: &Vec<char>, from: usize, to: usize) -> (part: Vec<char>)
    requires
        from <= to <= chars@.len(),
    ensures
        part@ == chars@.subrange(from as int, to as int),
{
    let mut part: Vec<char> = Vec::new();
    let mut i: usize = from;
    while i < to
        invariant
            from <= i <= to <= chars@.len(),
            part@ == chars@.subrange(from as int, i as int),
        decreases to - i,
    {
        part.push(chars[i]);
        assert(chars@.subrange(from as int, i + 1) == chars@.subrange(from as int, i as int).push(
            chars@[i as int],
        ));
        i += 1;
    }
    part
}

/// Whether `chars[from..to]` spells `word`.
pub(crate) fn spells(chars: &Vec<char>, from: usize, to: usize, word: &str) -> (same: bool)
    requires
        from <= to <= chars@.len(),
    ensures
        same == (chars@.subrange(from as int, to as int) == word@),
{
    let letters = chars_of(word);
    if letters.len() != to - from {
        return false;
    }
    let mut i: usize = 0;
    while i < letters.len()
        invariant
            from <= to <= chars@.len(),
            letters@ == word@,
            letters@.len() == to - from,
            i <= letters@.len(),
            forall|k: int| 0 <= k < i ==> chars@[from + k] == letters@[k],
        decreases letters@.len() - i,
    {
        if chars[from + i] != letters[i] {
            assert(chars@.subrange(from as int, to as int)[i as int] != word@[i as int]);
            return false;
        }
        i += 1;
    }
    assert(chars@.subrange(from as int, to as int) =~= word@);
    true
}

/// The lower-case form of an ASCII capital letter; every other character is
/// left as it is.
pub open spec fn ascii_lower(c: char) -> char {
    if 'A' <= c && c <= 'Z' {
        ((c as u32) + 32) as char
    } else {
        c
    }
}

/// `s` with every ASCII capital letter replaced by its lower-case form.
pub open spec fn lowered(s: Seq<char>) -> Seq<char> {
    Seq::new(s.len(), |i: int| ascii_lower(s[i]))
}

/// Computes [`ascii_lower`].
pub(crate) fn to_ascii_lower(c: char) -> (lower: char)
    ensures
        lower == ascii_lower(c),
{
    if 'A' <= c && c <= 'Z' {
        let code: u32 = c as u32;
        let shifted: u8 = (code + 32) as u8;
        shifted as char
    } else {
        c
    }
}

/// The first index at or after `from` at which `s` holds `c`, or the length
/// of `s` if there is none.
pub open spec fn find_from(s: Seq<char>, c: char, from: int) -> int
    decreases s.len() - from,
{
    if from < 0 || from >= s.len() {
        s.len() as int
    } else if s[from] == c {
        from
    } else {
        find_from(s, c, from + 1)
    }
}

/// The last index before `upto` at which `s` holds `c`, or -1 if there is
/// none.
pub open spec fn find_back(s: Seq<char>, c: char, upto: int) -> int
    decreases upto,
{
    if upto <= 0 || upto > s.len() {
        -1
    } else if s[upto - 1] == c {
        upto - 1
    } else {
        find_back(s, c, upto - 1)
    }
}

/// What [`find_from`] finds is the first occurrence.
pub proof fn lemma_find_from(s: Seq<char>, c: char, from: int)
    requires
        0 <= from <= s.len(),
    ensures
        from <= find_from(s, c, from) <= s.len(),
        find_from(s, c, from) < s.len() ==> s[find_from(s, c, from)] == c,
        forall|k: int| from <= k < find_from(s, c, from) ==> s[k] != c,
    decreases s.len() - from,
{
    if from < s.len() && s[from] != c {
        lemma_find_from(s, c, from + 1);
    }
}

/// What [`find_back`] finds is the last occurrence.
pub proof fn lemma_find_back(s: Seq<char>, c: char, upto: int)
    requires
        0 <= upto <= s.len(),
    ensures
        -1 <= find_back(s, c, upto) < upto,
        find_back(s, c, upto) >= 0 ==> s[find_back(s, c, upto)] == c,
        forall|k: int| find_back(s, c, upto) < k < upto ==> s[k] != c,
    decreases upto,
{
    if upto > 0 && s[upto - 1] != c {
        lemma_find_back(s, c, upto - 1);
    }
}

/// An occurrence with none before it is what [`find_from`] finds.
pub proof fn lemma_find_from_is(s: Seq<char>, c: char, from: int, at: int)
    requires
        0 <= from <= at <= s.len(),
        forall|k: int| from <= k < at ==> s[k] != c,
        at == s.len() || s[at] == c,
    ensures
        find_from(s, c, from) == at,
    decreases at - from,
{
    if from < at {
        lemma_find_from_is(s, c, from + 1, at);
    }
}

/// An occurrence with none after it is what [`find_back`] finds.
pub proof fn lemma_find_back_is(s: Seq<char>, c: char, upto: int, at: int)
    requires
        -1 <= at < upto <= s.len(),
        forall|k: int| at < k < upto ==> s[k] != c,
        at == -1 || s[at] == c,
    ensures
        find_back(s, c, upto) == at,
    decreases upto - at,
{
    if at + 1 < upto {
        lemma_find_back_is(s, c, upto - 1, at);
    }
}

/// Computes [`find_from`] from the start of `chars`.
pub(crate) fn position(chars: &Vec<char>, c: char) -> (at: usize)
    ensures
        at == find_from(chars@, c, 0),
        at <= chars@.len(),
{
    let mut at: usize = 0;
    while at < chars.len() && chars[at] != c
        invariant
            at <= chars@.len(),
            find_from(chars@, c, 0) == find_from(chars@, c, at as int),
        decreases chars@.len() - at,
    {
        at += 1;
    }
    at
}

/// Computes [`find_back`] from the end of `chars`: the index after the last
/// occurrence of `c`, or 0 if there is none.
pub(crate) fn after_last(chars: &Vec<char>, c: char) -> (after: usize)
    ensures
        after == find_back(chars@, c, chars@.len() as int) + 1,
        after <= chars@.len(),
{
    let mut after: usize = chars.len();
    while after > 0 && chars[after - 1] != c
        invariant
            after <= chars@.len(),
            find_back(chars@, c, chars@.len() as int) == find_back(chars@, c, after as int),
        decreases after,
    {
        after -= 1;
    }
    after
}

} // verus!
