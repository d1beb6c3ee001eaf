//! Helpers on strings that the rest of the crate shares.

use vstd::prelude::*;
use vstd::string::*;
use vstd::utf8::*;

verus! {

/// Whether two strings hold the same characters.
pub fn str_eq(a: &str, b: &str) -> (r: bool)
    ensures
        r == (a@ == b@),
{
    let x = a.as_bytes();
    let y = b.as_bytes();
    if x.len() != y.len() {
        return false;
    }
    let n = x.len();
    let mut i: usize = 0;
    while i < n
        invariant
            n == x@.len(),
            n == y@.len(),
            i <= n,
            x@ == a.spec_bytes(),
            y@ == b.spec_bytes(),
            forall|j: int| 0 <= j < i ==> x@[j] == y@[j],
        decreases n - i,
    {
        if x[i] != y[i] {
            return false;
        }
        i += 1;
    }
    proof {
        assert(x@ =~= y@);
        encode_utf8_decode_utf8(a@);
        encode_utf8_decode_utf8(b@);
    }
    true
}

/// A string of `n` asterisks: what stands in for a secret of `n` bytes when a
/// value that holds one is shown.
pub open spec fn stars(n: nat) -> Seq<char>
    decreases n,
{
    if n == 0 {
        Seq::empty()
    } else {
        stars((n - 1) as nat).push('*')
    }
}

/// Hides `txt`: the result has one asterisk for each byte of `txt` and
/// nothing of its content.
pub fn obscure(txt: &str) -> (r: String)
    ensures
        r@ == stars(txt.spec_bytes().len()),
{
    let n = txt.as_bytes().len();
    let mut out = String::new();
    let mut i: usize = 0;
    while i < n
        invariant
            i <= n,
            n == txt.spec_bytes().len(),
            out@ == stars(i as nat),
        decreases n - i,
    {
        proof {
            reveal_strlit("*");
            assert("*"@ =~= seq!['*']);
            assert(out@ + seq!['*'] =~= out@.push('*'));
        }
        out.append("*");
        i += 1;
    }
    out
}

/// `stars(n)` has `n` characters and every one of them is an asterisk.
pub proof fn lemma_stars(n: nat)
    ensures
        stars(n).len() == n,
        forall|i: int| 0 <= i < n ==> stars(n)[i] == '*',
    decreases n,
{
    if n > 0 {
        lemma_stars((n - 1) as nat);
    }
}

/// The texts `parts` in a row with `sep` between each two.
pub open spec fn spec_join(parts: Seq<Seq<char>>, sep: Seq<char>) -> Seq<char>
    decreases parts.len(),
{
    if parts.len() == 0 {
        Seq::empty()
    } else if parts.len() == 1 {
        parts[0]
    } else {
        spec_join(parts.drop_last(), sep) + sep + parts.last()
    }
}

/// The texts that a list of strings holds.
pub open spec fn texts_of(parts: Seq<String>) -> Seq<Seq<char>> {
    Seq::new(parts.len(), |i: int| parts[i]@)
}

/// Puts the strings `parts` in a row with `sep` between each two.
pub fn join(parts: &Vec<String>, sep: &str) -> (r: String)
    ensures
        r@ == spec_join(texts_of(parts@), sep@),
{
    let mut out = String::new();
    let n = parts.len();
    let mut i: usize = 0;
    while i < n
        invariant
            i <= n,
            n == parts@.len(),
            out@ == spec_join(texts_of(parts@).subrange(0, i as int), sep@),
        decreases n - i,
    {
        let ghost before = texts_of(parts@).subrange(0, i as int);
        let ghost after = texts_of(parts@).subrange(0, i + 1);
        proof {
            assert(after.drop_last() =~= before);
            assert(after.last() == parts@[i as int]@);
            if i == 0 {
                assert(out@ =~= Seq::<char>::empty());
                assert(out@ + parts@[0]@ =~= parts@[0]@);
            }
        }
        if i > 0 {
            out.append(sep);
        }
        out.append(parts[i].as_str());
        i += 1;
    }
    proof {
        assert(texts_of(parts@).subrange(0, n as int) =~= texts_of(parts@));
    }
    out
}

} // verus!
