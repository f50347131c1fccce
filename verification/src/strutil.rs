use vstd::prelude::*;

verus! {

/// Character-wise equality of two string slices.
pub fn str_eq(a: &str, b: &str) -> (r: bool)
    ensures
        r == (a@ == b@),
{
    let na = a.unicode_len();
    let nb = b.unicode_len();
    if na != nb {
        proof {
            assert(a@.len() != b@.len());
        }
        return false;
    }
    let mut i: usize = 0;
    while i < na
        invariant
            a@.len() == na,
            b@.len() == nb,
            na == nb,
            0 <= i <= na,
            forall|k: int| 0 <= k < i ==> a@[k] == b@[k],
        decreases na - i,
    {
        if a.get_char(i) != b.get_char(i) {
            return false;
        }
        i += 1;
    }
    proof {
        assert(a@ =~= b@);
    }
    true
}

/// `s` with every double quote removed.
pub open spec fn dequoted(s: Seq<char>) -> Seq<char>
    decreases s.len(),
{
    if s.len() == 0 {
        Seq::<char>::empty()
    } else {
        dequoted(s.drop_last()) + (if s.last() == '"' {
            Seq::<char>::empty()
        } else {
            seq![s.last()]
        })
    }
}

/// Removes every double quote.
#[verifier::loop_isolation(false)]
pub fn remove_quotes(s: &str) -> (r: String)
    ensures
        r@ == dequoted(s@),
{
    let n = s.unicode_len();
    let mut out = String::new();
    let mut i: usize = 0;
    while i < n
        invariant
            0 <= i <= n,
            out@ == dequoted(s@.subrange(0, i as int)),
        decreases n - i,
    {
        let c = s.get_char(i);
        if c != '"' {
            out.append(s.substring_char(i, i + 1));
            assert(s@.subrange(i as int, i + 1 as int) =~= seq![s@[i as int]]);
        }
        proof {
            let sub1 = s@.subrange(0, i + 1 as int);
            assert(sub1.drop_last() =~= s@.subrange(0, i as int));
            assert(sub1.last() == s@[i as int]);
        }
        i += 1;
    }
    proof {
        assert(s@.subrange(0, n as int) =~= s@);
    }
    out
}

} // verus!
