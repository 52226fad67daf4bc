//! Small verified helpers over `&str`: equality, prefix test, and splitting
//! on a separator character, as the scene-node role strings need.

use vstd::prelude::*;
use vstd::string::StrSliceExecFns;

verus! {

/// Character-for-character string equality.
pub(crate) fn str_eq(a: &str, b: &str) -> (r: bool)
    ensures
        r == (a@ == b@),
{
    let a_len = a.unicode_len();
    let b_len = b.unicode_len();
    if a_len != b_len {
        return false;
    }
    let mut i: usize = 0;
    while i < a_len
        invariant
            a_len == a@.len(),
            b_len == b@.len(),
            a_len == b_len,
            0 <= i <= a_len,
            forall|k: int| 0 <= k < i ==> a@[k] == b@[k],
        decreases a_len - i,
    {
        if a.get_char(i) != b.get_char(i) {
            return false;
        }
        i = i + 1;
    }
    proof {
        assert(a@ =~= b@);
    }
    true
}

/// Does `s` start with `p`?
pub(crate) fn str_starts_with(s: &str, p: &str) -> (r: bool)
    ensures
        r == p@.is_prefix_of(s@),
{
    let s_len = s.unicode_len();
    let p_len = p.unicode_len();
    if s_len < p_len {
        return false;
    }
    let mut i: usize = 0;
    while i < p_len
        invariant
            s_len == s@.len(),
            p_len == p@.len(),
            p_len <= s_len,
            0 <= i <= p_len,
            forall|k: int| 0 <= k < i ==> s@[k] == p@[k],
        decreases p_len - i,
    {
        if s.get_char(i) != p.get_char(i) {
            return false;
        }
        i = i + 1;
    }
    proof {
        assert(s@.subrange(0, p@.len() as int) =~= p@);
    }
    true
}

/// The position of the first `sep` in `s`, if there is one.
pub(crate) fn find_char(s: &str, sep: char) -> (r: Option<usize>)
    ensures
        match r {
            Some(i) => i < s@.len() && s@[i as int] == sep && forall|k: int|
                0 <= k < i ==> s@[k] != sep,
            None => forall|k: int| 0 <= k < s@.len() ==> s@[k] != sep,
        },
{
    let len = s.unicode_len();
    let mut i: usize = 0;
    while i < len
        invariant
            len == s@.len(),
            0 <= i <= len,
            forall|k: int| 0 <= k < i ==> s@[k] != sep,
        decreases len - i,
    {
        if s.get_char(i) == sep {
            return Some(i);
        }
        i = i + 1;
    }
    None
}

/// What splitting a character sequence on a separator yields: the text
/// between consecutive separators, with an empty piece at each end the
/// separator touches; a sequence without the separator is one piece.
pub open spec fn split_chars(s: Seq<char>, sep: char) -> Seq<Seq<char>>
    decreases s.len(),
{
    if s.len() == 0 {
        seq![Seq::<char>::empty()]
    } else {
        let rest = split_chars(s.skip(1), sep);
        if s[0] == sep {
            seq![Seq::<char>::empty()] + rest
        } else {
            seq![seq![s[0]] + rest[0]] + rest.skip(1)
        }
    }
}

pub proof fn lemma_split_chars_len(s: Seq<char>, sep: char)
    ensures
        split_chars(s, sep).len() >= 1,
    decreases s.len(),
{
    if s.len() != 0 {
        lemma_split_chars_len(s.skip(1), sep);
    }
}

/// A sequence without the separator splits into itself alone.
pub proof fn lemma_split_chars_no_sep(s: Seq<char>, sep: char)
    requires
        forall|k: int| 0 <= k < s.len() ==> s[k] != sep,
    ensures
        split_chars(s, sep) =~~= seq![s],
    decreases s.len(),
{
    if s.len() == 0 {
        assert(s =~= Seq::<char>::empty());
    } else {
        lemma_split_chars_no_sep(s.skip(1), sep);
        let rest = split_chars(s.skip(1), sep);
        assert(seq![s[0]] + rest[0] =~= s);
    }
}

/// Splitting at the first separator: the text before it is the first piece,
/// and the rest splits on its own.
pub proof fn lemma_split_chars_first(s: Seq<char>, sep: char, j: int)
    requires
        0 <= j < s.len(),
        s[j] == sep,
        forall|k: int| 0 <= k < j ==> s[k] != sep,
    ensures
        split_chars(s, sep) =~~= seq![s.take(j)] + split_chars(s.skip(j + 1), sep),
    decreases j,
{
    if j == 0 {
        assert(s.take(0) =~= Seq::<char>::empty());
    } else {
        lemma_split_chars_first(s.skip(1), sep, j - 1);
        let rest = split_chars(s.skip(1), sep);
        lemma_split_chars_len(s.skip(1).skip(j), sep);
        assert(rest[0] == s.skip(1).take(j - 1));
        assert(seq![s[0]] + s.skip(1).take(j - 1) =~= s.take(j));
        assert(s.skip(1).skip(j) =~= s.skip(j + 1));
    }
}

/// Split `s` on `sep` into owned pieces.
pub(crate) fn split_str(s: &str, sep: char) -> (r: Vec<String>)
    ensures
        r.deep_view() == split_chars(s@, sep),
{
    let len = s.unicode_len();
    let mut r: Vec<String> = Vec::new();
    let mut start: usize = 0;
    let mut j: usize = 0;
    proof {
        assert(s@.skip(0) =~= s@);
        assert(r.deep_view() + split_chars(s@, sep) =~~= split_chars(s@, sep));
    }
    while j < len
        invariant
            len == s@.len(),
            0 <= start <= j <= len,
            forall|k: int| start <= k < j ==> s@[k] != sep,
            split_chars(s@, sep) =~~= r.deep_view() + split_chars(
                s@.skip(start as int),
                sep,
            ),
        decreases len - j,
    {
        if s.get_char(j) == sep {
            let piece = s.substring_char(start, j).to_owned();
            let ghost old_dv = r.deep_view();
            let ghost tail = s@.skip(start as int);
            r.push(piece);
            proof {
                lemma_split_chars_first(tail, sep, j - start);
                assert(tail.take(j - start) =~= s@.subrange(start as int, j as int));
                assert(tail.skip(j - start + 1) =~= s@.skip(j + 1));
                assert(r.deep_view() =~~= old_dv.push(piece@));
                assert(old_dv.push(piece@) + split_chars(s@.skip(j + 1), sep) =~~= old_dv + (seq![
                    piece@,
                ] + split_chars(s@.skip(j + 1), sep)));
            }
            start = j + 1;
        }
        j = j + 1;
    }
    let piece = s.substring_char(start, len).to_owned();
    let ghost old_dv = r.deep_view();
    let ghost tail = s@.skip(start as int);
    r.push(piece);
    proof {
        lemma_split_chars_no_sep(tail, sep);
        assert(tail =~= s@.subrange(start as int, len as int));
        assert(r.deep_view() =~~= old_dv.push(piece@));
        assert(old_dv.push(piece@) =~~= old_dv + seq![piece@]);
        assert(r.deep_view() =~~= split_chars(s@, sep));
    }
    r
}

} // verus!
