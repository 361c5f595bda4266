use vstd::prelude::*;

verus! {

/// Bytes the accepted URL pattern allows after the scheme separator:
/// letters, digits, and `. / ? = _ -`.
pub open spec fn is_url_byte(b: u8) -> bool {
    ||| 97 <= b && b <= 122
    ||| 65 <= b && b <= 90
    ||| 48 <= b && b <= 57
    ||| b == 46
    ||| b == 47
    ||| b == 63
    ||| b == 61
    ||| b == 95
    ||| b == 45
}

/// The scheme prefix `http` stands at position `i`.
pub open spec fn http_at(s: Seq<u8>, i: int) -> bool {
    &&& 0 <= i
    &&& i + 4 <= s.len()
    &&& s[i] == 104
    &&& s[i + 1] == 116
    &&& s[i + 2] == 116
    &&& s[i + 3] == 112
}

/// The separator `://` stands at position `i`, followed by at least one
/// allowed byte.
pub open spec fn sep_then_url_byte_at(s: Seq<u8>, i: int) -> bool {
    &&& 0 <= i
    &&& i + 4 <= s.len()
    &&& s[i] == 58
    &&& s[i + 1] == 47
    &&& s[i + 2] == 47
    &&& is_url_byte(s[i + 3])
}

/// The pattern `https?://[allowed byte]+` matches starting at position `i`:
/// `http`, an optional `s`, then `://` and at least one allowed byte.
pub open spec fn url_match_at(s: Seq<u8>, i: int) -> bool {
    http_at(s, i) && (sep_then_url_byte_at(s, i + 4) || (i + 5 <= s.len() && s[i + 4] == 115
        && sep_then_url_byte_at(s, i + 5)))
}

/// The accepted pattern occurs somewhere in `s`: the match is unanchored,
/// exactly as the service accepts it.
pub open spec fn contains_url_pattern(s: Seq<u8>) -> bool {
    exists|i: int| url_match_at(s, i)
}

/// Whether `b` is one of the bytes the pattern allows after the separator.
fn is_url_byte_exec(b: u8) -> (r: bool)
    ensures
        r == is_url_byte(b),
{
    (97 <= b && b <= 122) || (65 <= b && b <= 90) || (48 <= b && b <= 57) || b == 46
        || b == 47 || b == 63 || b == 61 || b == 95 || b == 45
}

/// Whether `://` followed by an allowed byte stands at position `i`.
fn sep_then_url_byte_here(s: &Vec<u8>, i: usize) -> (r: bool)
    requires
        i <= s@.len(),
    ensures
        r == sep_then_url_byte_at(s@, i as int),
{
    let n = s.len();
    if n - i < 4 {
        return false;
    }
    s[i] == 58 && s[i + 1] == 47 && s[i + 2] == 47 && is_url_byte_exec(s[i + 3])
}

/// Whether the accepted pattern matches starting at position `i`.
fn url_match_here(s: &Vec<u8>, i: usize) -> (r: bool)
    requires
        i <= s@.len(),
    ensures
        r == url_match_at(s@, i as int),
{
    let n = s.len();
    if n - i < 4 {
        return false;
    }
    if !(s[i] == 104 && s[i + 1] == 116 && s[i + 2] == 116 && s[i + 3] == 112) {
        return false;
    }
    if sep_then_url_byte_here(s, i + 4) {
        return true;
    }
    n - i >= 5 && s[i + 4] == 115 && sep_then_url_byte_here(s, i + 5)
}

/// Syntactic validation of a URL: true iff the pattern
/// `https?://[a-zA-Z0-9./?=_-]+` occurs anywhere in `url`.
pub fn validate_url(url: &Vec<u8>) -> (r: bool)
    ensures
        r == contains_url_pattern(url@),
{
    let n = url.len();
    let mut i: usize = 0;
    while i < n
        invariant
            i <= n,
            n == url@.len(),
            forall|j: int| 0 <= j < i ==> !url_match_at(url@, j),
        decreases n - i,
    {
        if url_match_here(url, i) {
            return true;
        }
        i += 1;
    }
    proof {
        assert forall|j: int| !url_match_at(url@, j) by {
            if 0 <= j < n as int {
                assert(!url_match_at(url@, j));
            }
        }
    }
    false
}

} // verus!
