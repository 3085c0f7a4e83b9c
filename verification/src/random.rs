//! Random identifiers.

use rand::Rng;
use vstd::prelude::*;

verus! {

/// Whether a character is an ASCII letter or digit.
pub open spec fn is_alphanumeric(c: char) -> bool {
    ('a' <= c && c <= 'z') || ('A' <= c && c <= 'Z') || ('0' <= c && c <= '9')
}

/// A random string of `length` ASCII letters and digits, drawn with `rand`'s
/// `Alphanumeric` distribution from the thread-local generator. Only the
/// length and the alphabet are stated; the characters themselves are random.
#[verifier::external_body]
pub fn generate_random_id(length: usize) -> (res: String)
    ensures
        res@.len() == length,
        forall|i: int| 0 <= i < res@.len() ==> is_alphanumeric(#[trigger] res@[i]),
{
    rand::rng().sample_iter(&rand::distr::Alphanumeric).take(length).map(char::from).collect()
}

} // verus!
