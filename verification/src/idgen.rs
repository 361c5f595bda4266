use rand::Rng;
use vstd::prelude::*;

verus! {

/// Length of every issued identifier.
pub const ID_LENGTH: usize = 6;

/// Size of the identifier alphabet `a-z0-9`.
pub const ALPHABET_SIZE: usize = 36;

/// The identifier alphabet, as a map from an index below 36 to a byte:
/// indexes 0..26 give `a`..`z`, indexes 26..36 give `0`..`9`.
pub open spec fn alphabet_byte_at(i: int) -> u8 {
    if 0 <= i < 26 {
        (97 + i) as u8
    } else {
        (48 + (i - 26)) as u8
    }
}

/// Bytes an identifier may hold: `a-z` or `0-9`.
pub open spec fn is_id_byte(b: u8) -> bool {
    (97 <= b && b <= 122) || (48 <= b && b <= 57)
}

/// A well-formed identifier: exactly six bytes, each from `a-z0-9`.
pub open spec fn is_valid_id(s: Seq<u8>) -> bool {
    s.len() == ID_LENGTH && forall|k: int| 0 <= k < s.len() ==> is_id_byte(#[trigger] s[k])
}

/// Relies on `rand::thread_rng` and `rand::Rng::gen_range`: draws a value
/// uniformly from `0..bound`; panics only on an empty range, which the
/// precondition rules out.
#[verifier::external_body]
fn random_index(bound: usize) -> (r: usize)
    requires
        bound > 0,
    ensures
        r < bound,
{
    rand::thread_rng().gen_range(0..bound)
}

/// The byte of the identifier alphabet at index `idx`.
fn alphabet_byte(idx: usize) -> (b: u8)
    requires
        idx < ALPHABET_SIZE,
    ensures
        b == alphabet_byte_at(idx as int),
        is_id_byte(b),
{
    if idx < 26 {
        97 + idx as u8
    } else {
        48 + (idx as u8 - 26)
    }
}

/// Mints a fresh identifier: six bytes drawn independently at random from
/// the alphabet `a-z0-9`.
pub fn generate_id() -> (id: Vec<u8>)
    ensures
        is_valid_id(id@),
{
    let mut id: Vec<u8> = Vec::new();
    let mut i: usize = 0;
    while i < ID_LENGTH
        invariant
            i <= ID_LENGTH,
            id@.len() == i,
            forall|k: int| 0 <= k < id@.len() ==> is_id_byte(#[trigger] id@[k]),
        decreases ID_LENGTH - i,
    {
        let idx = random_index(ALPHABET_SIZE);
        id.push(alphabet_byte(idx));
        i += 1;
    }
    id
}

} // verus!
