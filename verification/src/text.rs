//! Textual normalization of string-valued fields: every space and quote
//! character embedded in a raw value is removed, all other characters are
//! kept in order.

use vstd::prelude::*;

verus! {

/// A character survives normalization iff it is neither a space nor a
/// double quote.
pub open spec fn keeps_char(c: char) -> bool {
    c != ' ' && c != '"'
}

/// The normalized form of a string: the subsequence of its characters that
/// are neither spaces nor double quotes, in their original order.
pub open spec fn strip_chars(s: Seq<char>) -> Seq<char>
    decreases s.len(),
{
    if s.len() == 0 {
        Seq::empty()
    } else {
        let rest = strip_chars(s.drop_last());
        if keeps_char(s.last()) {
            rest.push(s.last())
        } else {
            rest
        }
    }
}

/// Normalization never leaves a space or a quote behind.
pub proof fn lemma_strip_chars_clean(s: Seq<char>)
    ensures
        forall|i: int|
            0 <= i < strip_chars(s).len() ==> #[trigger] keeps_char(strip_chars(s)[i]),
    decreases s.len(),
{
    if s.len() > 0 {
        lemma_strip_chars_clean(s.drop_last());
        let rest = strip_chars(s.drop_last());
        if keeps_char(s.last()) {
            assert forall|i: int| 0 <= i < strip_chars(s).len() implies #[trigger] keeps_char(
                strip_chars(s)[i],
            ) by {
                if i < rest.len() {
                    assert(strip_chars(s)[i] == rest[i]);
                } else {
                    assert(strip_chars(s)[i] == s.last());
                }
            }
        }
    }
}

/// Normalization is idempotent: a string that holds no space and no quote
/// is returned unchanged.
pub proof fn lemma_strip_chars_idempotent(s: Seq<char>)
    ensures
        strip_chars(strip_chars(s)) == strip_chars(s),
    decreases s.len(),
{
    lemma_strip_chars_clean(s);
    lemma_strip_of_clean(strip_chars(s));
}

/// A string whose characters all survive normalization is left unchanged.
pub proof fn lemma_strip_of_clean(s: Seq<char>)
    requires
        forall|i: int| 0 <= i < s.len() ==> #[trigger] keeps_char(s[i]),
    ensures
        strip_chars(s) == s,
    decreases s.len(),
{
    if s.len() == 0 {
        assert(strip_chars(s) =~= s);
    } else {
        lemma_strip_of_clean(s.drop_last());
        assert(strip_chars(s) =~= s);
    }
}

/// Removes every space and double quote from a string.
pub fn strip(s: &str) -> (r: String)
    ensures
        r@ == strip_chars(s@),
{
    let n = s.unicode_len();
    let mut out = String::new();
    let mut i: usize = 0;
    while i < n
        invariant
            n == s@.len(),
            i <= n,
            out@ == strip_chars(s@.take(i as int)),
        decreases n - i,
    {
        let c = s.get_char(i);
        proof {
            assert(s@.take(i as int + 1).drop_last() =~= s@.take(i as int));
            assert(s@.take(i as int + 1).last() == s@[i as int]);
        }
        if c != ' ' && c != '"' {
            let piece = s.substring_char(i, i + 1);
            proof {
                assert(piece@ =~= seq![s@[i as int]]);
            }
            out.append(piece);
            proof {
                assert(out@ =~= strip_chars(s@.take(i as int)).push(s@[i as int]));
            }
        }
        i = i + 1;
    }
    proof {
        assert(s@.take(n as int) =~= s@);
    }
    out
}

} // verus!
