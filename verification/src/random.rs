//! Random replacement text.

use rand::Rng;
use vstd::prelude::*;

verus! {

/// Whether `c` is an ASCII letter or an ASCII digit.
pub open spec fn is_alphanumeric(c: char) -> bool {
    ||| 'A' <= c <= 'Z'
    ||| 'a' <= c <= 'z'
    ||| '0' <= c <= '9'
}

/// Whether every character of `s` is an ASCII letter or an ASCII digit.
pub open spec fn all_alphanumeric(s: Seq<char>) -> bool {
    forall|i: int| 0 <= i < s.len() ==> is_alphanumeric(#[trigger] s[i])
}

/// Draws `len` characters from `rand::distributions::Alphanumeric` with the
/// thread-local generator `rand::thread_rng` and collects them into a string.
///
/// Trusted: the distribution only ever yields one of the 62 characters
/// `A-Z`, `a-z`, `0-9`, and taking `len` items of its endless iterator gives
/// exactly `len` of them. Which characters come out is left open.
#[verifier::external_body]
pub(crate) fn rand_string_of_len(len: usize) -> (s: String)
    ensures
        s@.len() == len,
        all_alphanumeric(s@),
{
    let mut rng = rand::thread_rng();
    rng.sample_iter(&rand::distributions::Alphanumeric).take(len).collect()
}

} // verus!
