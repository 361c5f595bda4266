use vstd::prelude::*;

verus! {

/// True iff the two byte vectors hold the same bytes.
pub fn bytes_eq(a: &Vec<u8>, b: &Vec<u8>) -> (r: bool)
    ensures
        r == (a@ == b@),
{
    if a.len() != b.len() {
        return false;
    }
    let n = a.len();
    let mut i: usize = 0;
    while i < n
        invariant
            i <= n,
            n == a@.len(),
            n == b@.len(),
            forall|j: int| 0 <= j < i ==> a@[j] == b@[j],
        decreases n - i,
    {
        if a[i] != b[i] {
            return false;
        }
        i += 1;
    }
    proof {
        assert(a@ =~= b@);
    }
    true
}

/// A fresh vector holding the same bytes as the argument.
pub fn copy_bytes(a: &Vec<u8>) -> (r: Vec<u8>)
    ensures
        r@ == a@,
{
    let n = a.len();
    let mut r: Vec<u8> = Vec::new();
    let mut i: usize = 0;
    while i < n
        invariant
            i <= n,
            n == a@.len(),
            r@ == a@.subrange(0, i as int),
        decreases n - i,
    {
        r.push(a[i]);
        proof {
            assert(a@.subrange(0, i + 1 as int) =~= a@.subrange(0, i as int).push(a@[i as int]));
        }
        i += 1;
    }
    proof {
        assert(a@.subrange(0, n as int) =~= a@);
    }
    r
}

/// Composes the short link for an identifier: the base URL, a single `/`,
/// then the identifier.
pub fn short_link(base: &Vec<u8>, id: &Vec<u8>) -> (r: Vec<u8>)
    ensures
        r@ == base@ + seq![47u8] + id@,
{
    let mut r = copy_bytes(base);
    r.push(47);
    proof {
        assert(r@ =~= base@ + seq![47u8] + id@.subrange(0, 0));
    }
    let n = id.len();
    let mut i: usize = 0;
    while i < n
        invariant
            i <= n,
            n == id@.len(),
            r@ == base@ + seq![47u8] + id@.subrange(0, i as int),
        decreases n - i,
    {
        proof {
            assert(base@ + seq![47u8] + id@.subrange(0, i + 1 as int) =~= (base@ + seq![47u8]
                + id@.subrange(0, i as int)).push(id@[i as int]));
        }
        r.push(id[i]);
        i += 1;
    }
    proof {
        assert(base@ + seq![47u8] + id@.subrange(0, n as int) =~= base@ + seq![47u8] + id@);
    }
    r
}

} // verus!
