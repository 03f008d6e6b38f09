//! The name of the temporary file that a recording goes to.
use vstd::prelude::*;
use crate::text::push_char;

verus! {

/// An ASCII letter or digit.
pub open spec fn is_alphanumeric(c: char) -> bool {
    ('A' <= c && c <= 'Z') || ('a' <= c && c <= 'z') || ('0' <= c && c <= '9')
}

/// The length of the random part of a file name.
pub const SEED_LEN: usize = 8;

/// The file name for the random part `seed`.
pub open spec fn file_name_for(seed: Seq<char>) -> Seq<char> {
    "whisper_connector_audio_sample_"@ + seed + ".mp3"@
}

/// Relies on `rand::thread_rng` sampled through `rand::distributions::Alphanumeric`,
/// which yields one of `A-Z`, `a-z`, `0-9`.
#[verifier::external_body]
fn random_alphanumeric() -> (r: char)
    ensures
        is_alphanumeric(r),
{
    char::from(rand::Rng::sample(&mut rand::thread_rng(), rand::distributions::Alphanumeric))
}

/// `len` random letters and digits.
pub fn random_seed(len: usize) -> (r: String)
    ensures
        r@.len() == len,
        forall|i: int| 0 <= i < len ==> is_alphanumeric(#[trigger] r@[i]),
{
    let mut seed = String::new();
    let mut i: usize = 0;
    while i < len
        invariant
            i <= len,
            seed@.len() == i,
            forall|j: int| 0 <= j < i ==> is_alphanumeric(#[trigger] seed@[j]),
        decreases len - i,
    {
        let c = random_alphanumeric();
        push_char(&mut seed, c);
        i += 1;
    }
    seed
}

/// The file name for the random part `seed`.
pub fn sample_file_name(seed: &str) -> (r: String)
    ensures
        r@ == file_name_for(seed@),
{
    String::from_str("whisper_connector_audio_sample_").concat(seed).concat(".mp3")
}

/// A fresh file name: a fixed prefix, eight random letters and digits, and
/// the `.mp3` extension.
pub fn new_sample_file_name() -> (r: String)
    ensures
        exists|seed: Seq<char>|
            seed.len() == SEED_LEN && (forall|i: int|
                0 <= i < seed.len() ==> is_alphanumeric(#[trigger] seed[i])) && r@ == file_name_for(
                seed,
            ),
{
    let seed = random_seed(SEED_LEN);
    sample_file_name(seed.as_str())
}

} // verus!
