//! Text handling for pending input: trimming leading and trailing
//! whitespace, as the client does before submitting a new item.

use vstd::prelude::*;
use vstd::string::StrSliceExecFns;

verus! {

/// Whether a character counts as whitespace; the value `char::is_whitespace`
/// returns for it.
pub uninterp spec fn whitespace(c: char) -> bool;

/// Relies on char::is_whitespace: whether `c` has the Unicode White_Space
/// property, a function of the character alone.
#[verifier::external_body]
fn char_is_whitespace(c: char) -> (r: bool)
    ensures
        r == whitespace(c),
{
    c.is_whitespace()
}

/// `s` with every leading and trailing whitespace character removed.
pub open spec fn trimmed(s: Seq<char>) -> Seq<char>
    decreases s.len(),
{
    if s.len() == 0 {
        s
    } else if whitespace(s.first()) {
        trimmed(s.drop_first())
    } else if whitespace(s.last()) {
        trimmed(s.drop_last())
    } else {
        s
    }
}

/// `trimmed(s)` is the subrange of `s` that remains when `a` characters of
/// leading whitespace and `s.len() - b` characters of trailing whitespace
/// are cut off, provided the cut really stops at the first and last
/// non-whitespace characters (or removes everything, when `a == b`).
proof fn lemma_trimmed_subrange(s: Seq<char>, a: int, b: int)
    requires
        0 <= a <= b <= s.len(),
        forall|k: int| 0 <= k < a ==> whitespace(s[k]),
        forall|k: int| b <= k < s.len() ==> whitespace(s[k]),
        a < b ==> !whitespace(s[a]) && !whitespace(s[b - 1]),
    ensures
        trimmed(s) == s.subrange(a, b),
    decreases s.len(),
{
    if s.len() == 0 {
        assert(s.subrange(a, b) =~= s);
    } else if whitespace(s.first()) {
        let t = s.drop_first();
        if a == 0 {
            assert(a == b);
            lemma_trimmed_subrange(t, 0, 0);
            assert(s.subrange(0, 0) =~= t.subrange(0, 0));
        } else {
            lemma_trimmed_subrange(t, a - 1, b - 1);
            assert(s.subrange(a, b) =~= t.subrange(a - 1, b - 1));
        }
    } else if whitespace(s.last()) {
        assert(b < s.len()) by {
            if b == s.len() {
                if a < b {
                    assert(!whitespace(s[b - 1]));
                } else {
                    assert(whitespace(s[0]));
                }
            }
        }
        let t = s.drop_last();
        lemma_trimmed_subrange(t, a, b);
        assert(s.subrange(a, b) =~= t.subrange(a, b));
    } else {
        assert(a == 0) by {
            if a > 0 {
                assert(whitespace(s[0]));
            }
        }
        assert(b == s.len()) by {
            if b < s.len() {
                assert(whitespace(s[s.len() - 1]));
            }
        }
        assert(s.subrange(0, s.len() as int) =~= s);
    }
}

/// A copy of `s` with leading and trailing whitespace removed, as
/// `str::trim` would produce.
pub fn trim_text(s: &str) -> (r: String)
    ensures
        r@ == trimmed(s@),
{
    let n = s.unicode_len();
    let mut a: usize = 0;
    while a < n && char_is_whitespace(s.get_char(a))
        invariant
            0 <= a <= n,
            n == s@.len(),
            forall|k: int| 0 <= k < a ==> whitespace(s@[k]),
        decreases n - a,
    {
        a = a + 1;
    }
    let mut b: usize = n;
    while b > a && char_is_whitespace(s.get_char(b - 1))
        invariant
            a <= b <= n,
            n == s@.len(),
            forall|k: int| b <= k < n ==> whitespace(s@[k]),
        decreases b,
    {
        b = b - 1;
    }
    if a == b {
        proof {
            lemma_trimmed_subrange(s@, a as int, a as int);
            assert(s@.subrange(a as int, a as int) =~= Seq::<char>::empty());
        }
        String::new()
    } else {
        proof {
            lemma_trimmed_subrange(s@, a as int, b as int);
        }
        let r = s.substring_char(a, b);
        r.to_owned()
    }
}

} // verus!
