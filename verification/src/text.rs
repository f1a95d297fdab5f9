//! Matching of text by characters: prefixes, suffixes, occurrences.
use vstd::prelude::*;

verus! {

/// `needle` stands in `hay` from position `i` on.
pub open spec fn occurs_at(needle: Seq<char>, hay: Seq<char>, i: int) -> bool {
    &&& 0 <= i
    &&& i + needle.len() <= hay.len()
    &&& hay.subrange(i, i + needle.len()) == needle
}

/// `needle` stands somewhere in `hay`.
pub open spec fn occurs_in(needle: Seq<char>, hay: Seq<char>) -> bool {
    exists|i: int| occurs_at(needle, hay, i)
}

/// `hay` begins with `prefix`.
pub open spec fn has_prefix(hay: Seq<char>, prefix: Seq<char>) -> bool {
    occurs_at(prefix, hay, 0)
}

/// `hay` ends with `suffix`.
pub open spec fn has_suffix(hay: Seq<char>, suffix: Seq<char>) -> bool {
    occurs_at(suffix, hay, hay.len() - suffix.len())
}

/// The characters of `s`.
pub fn chars_of(s: &str) -> (out: Vec<char>)
    ensures
        out@ == s@,
{
    let mut out: Vec<char> = Vec::new();
    let ghost chars = s@;
    for c in it: s.chars()
        invariant
            it.seq() == chars,
            out@ == chars.take(it.index() as int),
    {
        let ghost i = it.index();
        out.push(c);
        proof {
            assert(out@ =~= chars.take(i + 1));
        }
    }
    proof {
        assert(chars.take(chars.len() as int) =~= chars);
    }
    out
}

/// Whether `needle` stands in `hay` from position `start` on.
fn matches_at(hay: &Vec<char>, needle: &Vec<char>, start: usize) -> (res: bool)
    ensures
        res == occurs_at(needle@, hay@, start as int),
{
    if needle.len() > hay.len() || start > hay.len() - needle.len() {
        return false;
    }
    let mut j: usize = 0;
    while j < needle.len()
        invariant
            j <= needle@.len(),
            start + needle@.len() <= hay@.len() <= usize::MAX,
            forall|k: int| 0 <= k < j ==> hay@[start + k] == needle@[k],
        decreases needle@.len() - j,
    {
        if hay[start + j] != needle[j] {
            proof {
                let sub = hay@.subrange(start as int, start + needle@.len());
                assert(sub[j as int] != needle@[j as int]);
            }
            return false;
        }
        j = j + 1;
    }
    assert(hay@.subrange(start as int, start + needle@.len()) =~= needle@);
    true
}

/// Whether `s` begins with `prefix`.
pub fn starts_with(s: &str, prefix: &str) -> (res: bool)
    ensures
        res == has_prefix(s@, prefix@),
{
    let hay = chars_of(s);
    let needle = chars_of(prefix);
    matches_at(&hay, &needle, 0)
}

/// Whether `s` ends with `suffix`.
pub fn ends_with(s: &str, suffix: &str) -> (res: bool)
    ensures
        res == has_suffix(s@, suffix@),
{
    let hay = chars_of(s);
    let needle = chars_of(suffix);
    if needle.len() > hay.len() {
        return false;
    }
    matches_at(&hay, &needle, hay.len() - needle.len())
}

/// Whether `needle` stands somewhere in `s`.
pub fn contains(s: &str, needle: &str) -> (res: bool)
    ensures
        res == occurs_in(needle@, s@),
{
    let hay = chars_of(s);
    let pat = chars_of(needle);
    if pat.len() > hay.len() {
        assert forall|i: int| !occurs_at(needle@, s@, i) by {}
        return false;
    }
    let last = hay.len() - pat.len();
    let mut i: usize = 0;
    while i <= last
        invariant
            last + pat@.len() == hay@.len(),
            hay@ == s@,
            pat@ == needle@,
            forall|k: int| 0 <= k < i ==> !occurs_at(needle@, s@, k),
        decreases last + 1 - i,
    {
        if matches_at(&hay, &pat, i) {
            return true;
        }
        if i == last {
            assert forall|k: int| !occurs_at(needle@, s@, k) by {}
            return false;
        }
        i = i + 1;
    }
    assert forall|k: int| !occurs_at(needle@, s@, k) by {}
    false
}

/// Whether `a` and `b` hold the same characters.
pub fn same_text(a: &str, b: &str) -> (res: bool)
    ensures
        res == (a@ == b@),
{
    let x = chars_of(a);
    let y = chars_of(b);
    if x.len() != y.len() {
        return false;
    }
    let res = matches_at(&x, &y, 0);
    proof {
        assert(x@.subrange(0, y@.len() as int) =~= x@);
    }
    res
}

/// Text stands in any text that holds it, whatever stands around it.
pub proof fn law_occurs_in_context(needle: Seq<char>, before: Seq<char>, after: Seq<char>)
    ensures
        occurs_in(needle, before + needle + after),
        occurs_at(needle, before + needle + after, before.len() as int),
{
    let hay = before + needle + after;
    assert(hay.subrange(before.len() as int, (before.len() + needle.len()) as int) =~= needle);
    assert(occurs_at(needle, hay, before.len() as int));
}

/// A text begins with what was put in front of it, and ends with what was
/// put behind it.
pub proof fn law_prefix_suffix_of_concat(prefix: Seq<char>, middle: Seq<char>, suffix: Seq<char>)
    ensures
        has_prefix(prefix + middle + suffix, prefix),
        has_suffix(prefix + middle + suffix, suffix),
{
    let hay = prefix + middle + suffix;
    assert(hay.subrange(0, prefix.len() as int) =~= prefix);
    assert(hay.subrange(hay.len() - suffix.len(), hay.len() as int) =~= suffix);
}

} // verus!
