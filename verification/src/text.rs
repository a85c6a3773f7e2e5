//! Splitting a string on a separator character.
//!
//! The server list is split on single spaces and a version string on dots and
//! dashes; the splits keep empty tokens, exactly as the separators stand.

use vstd::prelude::*;

verus! {

/// Index of the first `sep` in `s`, or `s.len()` if there is none.
pub open spec fn first_sep_at(s: Seq<char>, sep: char) -> int
    decreases s.len(),
{
    if s.len() == 0 {
        0
    } else if s[0] == sep {
        0
    } else {
        1 + first_sep_at(s.drop_first(), sep)
    }
}

/// The tokens of `s` between single `sep` characters, in order, empty tokens
/// included; a string without `sep` is one token.
pub open spec fn split_on_char(s: Seq<char>, sep: char) -> Seq<Seq<char>>
    decreases s.len(),
{
    let i = first_sep_at(s, sep);
    if 0 <= i < s.len() {
        seq![s.subrange(0, i)] + split_on_char(s.subrange(i + 1, s.len() as int), sep)
    } else {
        seq![s]
    }
}

pub proof fn lemma_first_sep_at(s: Seq<char>, sep: char)
    ensures
        0 <= first_sep_at(s, sep) <= s.len(),
        first_sep_at(s, sep) < s.len() ==> s[first_sep_at(s, sep)] == sep,
        forall|j: int| 0 <= j < first_sep_at(s, sep) ==> s[j] != sep,
    decreases s.len(),
{
    if s.len() > 0 && s[0] != sep {
        lemma_first_sep_at(s.drop_first(), sep);
        assert forall|j: int| 0 <= j < first_sep_at(s, sep) implies s[j] != sep by {
            if j > 0 {
                assert(s.drop_first()[j - 1] == s[j]);
            }
        }
    }
}

/// The first `sep` of `s` is at `i` exactly when `s[i]` is `sep` and no
/// earlier character is.
pub proof fn lemma_first_sep_at_is(s: Seq<char>, sep: char, i: int)
    requires
        0 <= i < s.len(),
        s[i] == sep,
        forall|j: int| 0 <= j < i ==> s[j] != sep,
    ensures
        first_sep_at(s, sep) == i,
{
    lemma_first_sep_at(s, sep);
    let f = first_sep_at(s, sep);
    if f < i {
        assert(s[f] != sep);
    }
    if f > i {
        assert(s[i] != sep);
    }
}

/// A string without `sep` is a single token.
pub proof fn lemma_no_sep_single_token(s: Seq<char>, sep: char)
    requires
        forall|j: int| 0 <= j < s.len() ==> s[j] != sep,
    ensures
        first_sep_at(s, sep) == s.len(),
        split_on_char(s, sep) == seq![s],
{
    lemma_first_sep_at(s, sep);
    let f = first_sep_at(s, sep);
    if f < s.len() {
        assert(s[f] != sep);
    }
}

/// Relies on `String::push`: appends exactly one character.
#[verifier::external_body]
pub(crate) fn push_char(s: &mut String, c: char)
    ensures
        final(s)@ == old(s)@.push(c),
{
    s.push(c);
}

/// Splits `s` on single `sep` characters, empty tokens included.
pub fn split_string(s: &str, sep: char) -> (r: Vec<String>)
    ensures
        r@.len() == split_on_char(s@, sep).len(),
        forall|k: int| 0 <= k < r@.len() ==> (#[trigger] r@[k])@ == split_on_char(s@, sep)[k],
{
    let n: usize = s.unicode_len();
    let mut out: Vec<String> = Vec::new();
    let mut start: usize = 0;
    let mut i: usize = 0;
    let ghost whole: Seq<char> = s@;
    let ghost mut toks_done: Seq<Seq<char>> = seq![];
    proof {
        assert(whole.subrange(0, n as int) =~= whole);
    }
    loop
        invariant
            whole == s@,
            whole.len() == n,
            0 <= start <= i <= n,
            forall|j: int| start <= j < i ==> whole[j] != sep,
            split_on_char(whole, sep) == toks_done + split_on_char(
                whole.subrange(start as int, n as int),
                sep,
            ),
            out@.len() == toks_done.len(),
            forall|k: int| 0 <= k < out@.len() ==> (#[trigger] out@[k])@ == toks_done[k],
        decreases n - i,
    {
        if i == n {
            let token = s.substring_char(start, n);
            proof {
                lemma_no_sep_single_token(whole.subrange(start as int, n as int), sep);
            }
            out.push(token.to_owned());
            proof {
                toks_done = toks_done + seq![whole.subrange(start as int, n as int)];
                assert(split_on_char(whole, sep) =~= toks_done);
            }
            return out;
        } else if s.get_char(i) == sep {
            let token = s.substring_char(start, i);
            proof {
                let suffix = whole.subrange(start as int, n as int);
                assert forall|j: int| 0 <= j < i - start implies suffix[j] != sep by {
                    assert(suffix[j] == whole[start + j]);
                }
                assert(suffix[i - start] == whole[i as int]);
                lemma_first_sep_at_is(suffix, sep, i - start);
                assert(suffix.subrange(0, i - start) =~= whole.subrange(start as int, i as int));
                assert(suffix.subrange(i - start + 1, suffix.len() as int) =~= whole.subrange(
                    i as int + 1,
                    n as int,
                ));
            }
            out.push(token.to_owned());
            proof {
                toks_done = toks_done + seq![whole.subrange(start as int, i as int)];
            }
            start = i + 1;
            i = i + 1;
        } else {
            i = i + 1;
        }
    }
}

} // verus!
