//! Small text utilities: file extensions and suffixes over `Seq<char>`.

use vstd::prelude::*;
use vstd::string::*;

verus! {

/// Length of the longest suffix of `s` that holds no `'.'`.
pub open spec fn tail_len(s: Seq<char>) -> nat
    decreases s.len(),
{
    if s.len() == 0 || s.last() == '.' {
        0
    } else {
        1 + tail_len(s.drop_last())
    }
}

/// The text after the last `'.'` of `s`; all of `s` where it holds no `'.'`.
pub open spec fn extension(s: Seq<char>) -> Seq<char> {
    s.subrange(s.len() - tail_len(s), s.len() as int)
}

/// `s` ends with `suffix`.
pub open spec fn ends_with(s: Seq<char>, suffix: Seq<char>) -> bool {
    s.len() >= suffix.len() && s.subrange(s.len() - suffix.len(), s.len() as int) == suffix
}

/// `tail_len` never exceeds the length, and the suffix it measures is free of
/// dots and cannot be extended to the left.
pub proof fn lemma_tail_len(s: Seq<char>)
    ensures
        tail_len(s) <= s.len(),
        forall|i: int| s.len() - tail_len(s) <= i < s.len() ==> s[i] != '.',
        tail_len(s) < s.len() ==> s[s.len() - tail_len(s) - 1] == '.',
    decreases s.len(),
{
    if s.len() == 0 || s.last() == '.' {
    } else {
        let t = s.drop_last();
        lemma_tail_len(t);
        assert forall|i: int| s.len() - tail_len(s) <= i < s.len() implies s[i] != '.' by {
            if i < t.len() {
                assert(t[i] == s[i]);
            }
        }
        if tail_len(s) < s.len() {
            assert(t[t.len() - tail_len(t) - 1] == s[s.len() - tail_len(s) - 1]);
        }
    }
}

/// A dot-free suffix that cannot be extended to the left is the one that
/// `tail_len` measures.
pub proof fn lemma_tail_len_unique(s: Seq<char>, start: int)
    requires
        0 <= start <= s.len(),
        forall|i: int| start <= i < s.len() ==> s[i] != '.',
        start > 0 ==> s[start - 1] == '.',
    ensures
        tail_len(s) == s.len() - start,
    decreases s.len(),
{
    if s.len() == 0 || s.last() == '.' {
    } else {
        let t = s.drop_last();
        assert forall|i: int| start <= i < t.len() implies t[i] != '.' by {
            assert(t[i] == s[i]);
        }
        if start > 0 {
            assert(t[start - 1] == s[start - 1]);
        }
        lemma_tail_len_unique(t, start);
    }
}

/// The extension of `s` is a suffix of `s` without a dot, and it is either all
/// of `s` or preceded by a dot.
pub proof fn lemma_extension(s: Seq<char>)
    ensures
        ends_with(s, extension(s)),
        !extension(s).contains('.'),
        extension(s).len() == s.len() <==> !s.contains('.'),
        extension(s).len() < s.len() ==> s[s.len() - extension(s).len() - 1] == '.',
{
    lemma_tail_len(s);
    let e = extension(s);
    assert(s.subrange(s.len() - e.len(), s.len() as int) == e);
    if e.contains('.') {
        let i = choose|i: int| 0 <= i < e.len() && e[i] == '.';
        assert(s[s.len() - tail_len(s) + i] == '.');
    }
    if e.len() == s.len() && s.contains('.') {
        let i = choose|i: int| 0 <= i < s.len() && s[i] == '.';
        assert(false);
    }
    if e.len() < s.len() {
        assert(s.contains(s[s.len() - tail_len(s) - 1]));
    }
}

/// `s` ends with a dot and `e` exactly where `e` is the extension of `s` and a
/// dot stands before it.
pub proof fn lemma_dotted_suffix(s: Seq<char>, e: Seq<char>)
    requires
        !e.contains('.'),
    ensures
        ends_with(s, seq!['.'] + e) <==> extension(s) == e && e.len() < s.len(),
{
    let dotted = seq!['.'] + e;
    lemma_extension(s);
    if ends_with(s, dotted) {
        let start = s.len() - e.len();
        let tail = s.subrange(s.len() - dotted.len(), s.len() as int);
        assert forall|i: int| start <= i < s.len() implies s[i] != '.' by {
            assert(s[i] == tail[i - start + 1]);
            assert(e.contains(e[i - start]));
        }
        assert(s[start - 1] == tail[0]);
        lemma_tail_len_unique(s, start);
        assert forall|k: int| 0 <= k < e.len() implies extension(s)[k] == e[k] by {
            assert(s[start + k] == tail[k + 1]);
        }
        assert(extension(s) =~= e);
    }
    if extension(s) == e && e.len() < s.len() {
        assert(s.subrange(s.len() - dotted.len(), s.len() as int) =~= dotted);
    }
}

/// Returns the text after the last `'.'` of `uri`, or all of `uri` where it
/// holds no `'.'`.
pub fn find_ext(uri: &str) -> (ext: String)
    ensures
        ext@ == extension(uri@),
{
    let n: usize = uri.unicode_len();
    let mut start: usize = n;
    while start > 0 && uri.get_char(start - 1) != '.'
        invariant
            start <= n,
            n == uri@.len(),
            forall|i: int| start <= i < n ==> uri@[i] != '.',
        decreases start,
    {
        start = start - 1;
    }
    proof {
        lemma_tail_len_unique(uri@, start as int);
    }
    uri.substring_char(start, n).to_owned()
}

} // verus!
