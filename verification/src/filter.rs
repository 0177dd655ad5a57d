//! The vowel filter: dropping the ten vowel characters from a string while
//! keeping every other character in its original order.

use vstd::prelude::*;
use vstd::string::StrSliceExecFns;

verus! {

/// A character is a vowel when it is one of the ten characters
/// `a`, `e`, `i`, `o`, `u`, `A`, `E`, `I`, `O`, `U`. Every other Unicode
/// scalar value, accented letters included, is not a vowel here.
pub open spec fn is_vowel(c: char) -> bool {
    ||| c == 'a'
    ||| c == 'e'
    ||| c == 'i'
    ||| c == 'o'
    ||| c == 'u'
    ||| c == 'A'
    ||| c == 'E'
    ||| c == 'I'
    ||| c == 'O'
    ||| c == 'U'
}

/// The characters of `s` that are not vowels, in their original order.
pub open spec fn filter_vowels(s: Seq<char>) -> Seq<char>
    decreases s.len(),
{
    if s.len() == 0 {
        Seq::empty()
    } else if is_vowel(s.last()) {
        filter_vowels(s.drop_last())
    } else {
        filter_vowels(s.drop_last()).push(s.last())
    }
}

/// Relies on `String::push`: it appends the given character to the end of
/// the string.
pub assume_specification[ String::push ](s: &mut String, ch: char)
    ensures
        final(s)@ == old(s)@.push(ch),
;

/// Decides whether `c` is one of the ten vowel characters.
pub fn is_vowel_char(c: char) -> (r: bool)
    ensures
        r == is_vowel(c),
{
    c == 'a' || c == 'e' || c == 'i' || c == 'o' || c == 'u' || c == 'A' || c == 'E' || c == 'I'
        || c == 'O' || c == 'U'
}

/// Returns `input` with every vowel removed: the result holds exactly the
/// non-vowel characters of `input`, in their original order.
pub fn remove_vowels(input: String) -> (r: String)
    ensures
        r@ == filter_vowels(input@),
{
    let s: &str = input.as_str();
    let n: usize = s.unicode_len();
    let mut out = String::new();
    let mut i: usize = 0;
    while i < n
        invariant
            s@ == input@,
            n as nat == input@.len(),
            i <= n,
            out@ == filter_vowels(input@.subrange(0, i as int)),
        decreases n - i,
    {
        let c = s.get_char(i);
        proof {
            let pre = input@.subrange(0, i as int);
            let post = input@.subrange(0, i as int + 1);
            assert(post.drop_last() =~= pre);
            assert(post.last() == c);
        }
        if !is_vowel_char(c) {
            out.push(c);
        }
        i = i + 1;
    }
    proof {
        assert(input@.subrange(0, n as int) =~= input@);
    }
    out
}

/// No vowel stands in the filter's output.
pub proof fn lemma_filter_vowels_has_no_vowels(s: Seq<char>)
    ensures
        forall|i: int|
            0 <= i < filter_vowels(s).len() ==> !is_vowel(#[trigger] filter_vowels(s)[i]),
    decreases s.len(),
{
    if s.len() > 0 {
        let t = s.drop_last();
        lemma_filter_vowels_has_no_vowels(t);
        if !is_vowel(s.last()) {
            let f = filter_vowels(t).push(s.last());
            assert forall|i: int| 0 <= i < f.len() implies !is_vowel(#[trigger] f[i]) by {
                if i < f.len() - 1 {
                    assert(f[i] == filter_vowels(t)[i]);
                } else {
                    assert(f[i] == s.last());
                }
            }
        }
    }
}

/// A string without vowels passes the filter unchanged.
pub proof fn lemma_filter_vowels_no_vowels_identity(s: Seq<char>)
    requires
        forall|i: int| 0 <= i < s.len() ==> !is_vowel(#[trigger] s[i]),
    ensures
        filter_vowels(s) == s,
    decreases s.len(),
{
    if s.len() == 0 {
        assert(filter_vowels(s) =~= s);
    } else {
        let t = s.drop_last();
        assert forall|i: int| 0 <= i < t.len() implies !is_vowel(#[trigger] t[i]) by {
            assert(t[i] == s[i]);
        }
        lemma_filter_vowels_no_vowels_identity(t);
        assert(!is_vowel(s.last()));
        assert(filter_vowels(s) =~= s);
    }
}

/// Filtering an already filtered string yields it unchanged: the vowel
/// filter is idempotent.
pub proof fn lemma_filter_vowels_idempotent(s: Seq<char>)
    ensures
        filter_vowels(filter_vowels(s)) == filter_vowels(s),
{
    lemma_filter_vowels_has_no_vowels(s);
    lemma_filter_vowels_no_vowels_identity(filter_vowels(s));
}

/// The filter never lengthens a string, and keeps its length exactly when
/// the string holds no vowel.
pub proof fn lemma_filter_vowels_len(s: Seq<char>)
    ensures
        filter_vowels(s).len() <= s.len(),
        filter_vowels(s).len() == s.len() <==> (forall|i: int|
            0 <= i < s.len() ==> !is_vowel(#[trigger] s[i])),
    decreases s.len(),
{
    if s.len() > 0 {
        let t = s.drop_last();
        lemma_filter_vowels_len(t);
        if is_vowel(s.last()) {
            assert(is_vowel(s[s.len() - 1]));
            assert(filter_vowels(s).len() < s.len());
        } else {
            if filter_vowels(s).len() == s.len() {
                assert(filter_vowels(t).len() == t.len());
                assert forall|i: int| 0 <= i < s.len() implies !is_vowel(#[trigger] s[i]) by {
                    if i < s.len() - 1 {
                        assert(t[i] == s[i]);
                    }
                }
            }
            if forall|i: int| 0 <= i < s.len() ==> !is_vowel(#[trigger] s[i]) {
                assert forall|i: int| 0 <= i < t.len() implies !is_vowel(#[trigger] t[i]) by {
                    assert(t[i] == s[i]);
                }
                assert(filter_vowels(t).len() == t.len());
            }
        }
    }
}

/// A string made of vowels alone filters to the empty string.
proof fn lemma_filter_vowels_all_vowels_empty(s: Seq<char>)
    requires
        forall|i: int| 0 <= i < s.len() ==> is_vowel(#[trigger] s[i]),
    ensures
        filter_vowels(s) == Seq::<char>::empty(),
    decreases s.len(),
{
    if s.len() == 0 {
        assert(filter_vowels(s) =~= Seq::<char>::empty());
    } else {
        let t = s.drop_last();
        assert forall|i: int| 0 <= i < t.len() implies is_vowel(#[trigger] t[i]) by {
            assert(t[i] == s[i]);
        }
        lemma_filter_vowels_all_vowels_empty(t);
        assert(is_vowel(s[s.len() - 1]));
    }
}

/// A run of one vowel, however long, filters to the empty string.
pub proof fn lemma_filter_vowels_repeated_vowel(c: char, n: nat)
    requires
        is_vowel(c),
    ensures
        filter_vowels(Seq::new(n, |i: int| c)) == Seq::<char>::empty(),
{
    let s = Seq::new(n, |i: int| c);
    lemma_filter_vowels_all_vowels_empty(s);
}

} // verus!
