use vstd::prelude::*;
use crate::text::digit_char;

verus! {

/// `bcrypt::BcryptError`, the error of the bcrypt crate, carried opaquely.
#[verifier::external_type_specification]
#[verifier::external_body]
pub struct ExBcryptError(bcrypt::BcryptError);

/// What `bcrypt::verify(password, hash)` returns: `Some(matches)` when it
/// returns `Ok(matches)`, `None` when it returns an error.
pub uninterp spec fn bcrypt_verify_outcome(password: Seq<char>, hash: Seq<char>) -> Option<bool>;

/// Whether a bcrypt error is the failure of the operating system's
/// randomness (`BcryptError::Rand`), the one error that hashing at an
/// allowed cost can give.
pub uninterp spec fn bcrypt_error_is_random_failure(e: bcrypt::BcryptError) -> bool;

/// The two-digit spelling of a bcrypt cost (zero-padded below 10).
pub open spec fn two_digit_cost(cost: nat) -> Seq<char> {
    seq![digit_char(cost / 10), digit_char(cost % 10)]
}

/// The shape of a hash that bcrypt issues: `$2b$`, the two-digit cost, `$`,
/// then 22 salt and 31 hash characters, 60 characters in all.
pub open spec fn issued_hash_shape(hash: Seq<char>, cost: nat) -> bool {
    &&& hash.len() == 60
    &&& hash.subrange(0, 7) == "$2b$"@ + two_digit_cost(cost) + "$"@
}

/// The cost that the library hashes with.
pub open spec fn default_cost() -> nat {
    12
}

/// `bcrypt::DEFAULT_COST`, which the crate's source sets to 12.
#[verifier::external_body]
fn bcrypt_default_cost() -> (c: u32)
    ensures
        c == default_cost(),
{
    bcrypt::DEFAULT_COST
}

/// `bcrypt::hash(password, cost)`. The salt comes from the operating
/// system's randomness, so the hash is not a function of the arguments and
/// gets no name; the contract states what holds of every outcome, as the
/// crate's source shows it: a cost outside 4..=31 is refused; a hash that is
/// issued has the `$2b$` shape with that cost, and `bcrypt::verify` accepts
/// the same password against it. At an allowed cost the only error is the
/// failure of the randomness (bcrypt draws the salt first and checks the cost
/// after, so an error at an allowed cost is that failure); nothing is stated
/// of when the randomness fails.
#[verifier::external_body]
fn bcrypt_hash(password: &str, cost: u32) -> (res: Result<String, bcrypt::BcryptError>)
    ensures
        !(4 <= cost <= 31) ==> res is Err,
        res matches Err(e) ==> (4 <= cost <= 31 ==> bcrypt_error_is_random_failure(e)),
        res matches Ok(h) ==> issued_hash_shape(h@, cost as nat),
        res matches Ok(h) ==> bcrypt_verify_outcome(password@, h@) == Some(true),
{
    bcrypt::hash(password, cost)
}

/// `bcrypt::verify(password, hash)`: its result is named by
/// [`bcrypt_verify_outcome`].
#[verifier::external_body]
fn bcrypt_verify(password: &str, hash: &str) -> (res: Result<bool, bcrypt::BcryptError>)
    ensures
        match res {
            Ok(b) => bcrypt_verify_outcome(password@, hash@) == Some(b),
            Err(_) => bcrypt_verify_outcome(password@, hash@) is None,
        },
{
    bcrypt::verify(password, hash)
}

/// The display text of a bcrypt error (`format!("{}", e)`); nothing is
/// claimed of its contents.
#[verifier::external_body]
pub(crate) fn bcrypt_error_text(e: &bcrypt::BcryptError) -> String {
    format!("{}", e)
}

/// Hashes a password with bcrypt at the default cost.
/// Returns the hashed password, or the error of bcrypt when hashing fails,
/// which happens only when the system's randomness fails.
pub fn hash_password(plain: &str) -> (res: Result<String, bcrypt::BcryptError>)
    ensures
        res matches Err(e) ==> bcrypt_error_is_random_failure(e),
        res matches Ok(h) ==> issued_hash_shape(h@, default_cost()),
        res matches Ok(h) ==> bcrypt_verify_outcome(plain@, h@) == Some(true),
{
    bcrypt_hash(plain, bcrypt_default_cost())
}

/// Verifies a plaintext password against a bcrypt hash.
/// Returns whether the password matches, or the error of bcrypt when the
/// hash cannot be read.
pub fn verify_password(plain: &str, hashed: &str) -> (res: Result<bool, bcrypt::BcryptError>)
    ensures
        res is Ok <==> bcrypt_verify_outcome(plain@, hashed@) is Some,
        res matches Ok(b) ==> bcrypt_verify_outcome(plain@, hashed@) == Some(b),
{
    bcrypt_verify(plain, hashed)
}

} // verus!
