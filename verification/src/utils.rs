//! Small helpers over outside services.

use vstd::prelude::*;

use rand::distr::SampleString;

verus! {

/// A fresh random string: `size` characters, each an ASCII letter or digit.
/// Relies on rand's `SampleString::sample_string` with the `Alphanumeric`
/// distribution: it appends exactly `size` characters drawn from `a`–`z`,
/// `A`–`Z` and `0`–`9`. Which characters come back is up to the generator;
/// nothing beyond the length and the character set holds of every outcome.
#[verifier::external_body]
pub fn rand_alphanumeric(size: usize) -> (r: String)
    ensures
        r@.len() == size,
        forall|i: int|
            0 <= i < r@.len() ==> {
                let c = #[trigger] r@[i];
                ('a' <= c && c <= 'z') || ('A' <= c && c <= 'Z') || ('0' <= c && c <= '9')
            },
{
    rand::distr::Alphanumeric.sample_string(&mut rand::rng(), size)
}

} // verus!
