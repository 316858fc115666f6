//! Small text helpers: the character-sequence view of a few `str`
//! operations that `vstd` gives no specification for, and word breaking.

use vstd::prelude::*;
use vstd::string::StrSliceExecFns;

verus! {

/// Relies on `str` equality (`PartialEq::eq`): two string slices are equal
/// exactly when their character sequences are.
#[verifier::external_body]
pub fn str_eq(a: &str, b: &str) -> (r: bool)
    ensures
        r == (a@ == b@),
{
    a == b
}

/// Relies on `str::starts_with`: whether `prefix` matches a prefix of `s`.
#[verifier::external_body]
pub fn str_starts_with(s: &str, prefix: &str) -> (r: bool)
    ensures
        r == (prefix@.len() <= s@.len() && s@.subrange(0, prefix@.len() as int) == prefix@),
{
    s.starts_with(prefix)
}

/// Relies on `String: FromIterator<char>` (`collect`): the collected string
/// holds exactly the iterated characters, in order.
#[verifier::external_body]
pub fn chars_to_string(v: &Vec<char>) -> (r: String)
    ensures
        r@ == v@,
{
    v.iter().collect()
}

/// The character index where the last word of `s` starts: everything after
/// the last separator, or the whole of `s` when no separator occurs; a
/// trailing separator makes it `s.len()`.
pub open spec fn word_start(s: Seq<char>, seps: Seq<char>) -> int
    decreases s.len(),
{
    if s.len() == 0 {
        0
    } else if seps.contains(s.last()) {
        s.len() as int
    } else {
        word_start(s.drop_last(), seps)
    }
}

/// The character index at which the last word of `s` begins, broken on any
/// of the given separator characters.
pub fn word_break_start(s: &str, word_break_ch: &Vec<char>) -> (r: usize)
    ensures
        r == word_start(s@, word_break_ch@),
        r <= s@.len(),
{
    let n = s.unicode_len();
    let mut i: usize = n;
    proof {
        assert(s@.take(n as int) =~= s@);
    }
    while i > 0
        invariant
            i <= n,
            n == s@.len(),
            word_start(s@.take(i as int), word_break_ch@) == word_start(s@, word_break_ch@),
        decreases i,
    {
        let ghost prefix = s@.take(i as int);
        proof {
            assert(prefix.drop_last() =~= s@.take(i as int - 1));
            assert(prefix.last() == s@[i as int - 1]);
        }
        let c = s.get_char(i - 1);
        let mut k: usize = 0;
        while k < word_break_ch.len()
            invariant
                k <= word_break_ch.len(),
                0 < i <= n,
                n == s@.len(),
                c == s@[i as int - 1],
                word_start(s@.take(i as int), word_break_ch@) == word_start(s@, word_break_ch@),
                forall|j: int| 0 <= j < k ==> word_break_ch@[j] != c,
            decreases word_break_ch.len() - k,
        {
            if word_break_ch[k] == c {
                proof {
                    let prefix = s@.take(i as int);
                    assert(word_break_ch@[k as int] == c);
                    assert(word_break_ch@.contains(c));
                    assert(prefix.last() == c);
                }
                return i;
            }
            k += 1;
        }
        proof {
            assert(!word_break_ch@.contains(prefix.last()));
        }
        i -= 1;
    }
    proof {
        assert(s@.take(0) =~= Seq::<char>::empty());
    }
    0
}

} // verus!
