//! The credential verifier: checks a submitted password against a stored
//! adaptive hash, and produces such hashes with a fixed work factor.

use vstd::prelude::*;

verus! {

/// The work factor every stored hash is produced with. Lowering it is a
/// regression, not a tuning choice.
pub const BCRYPT_COST: u32 = 12;

/// Whether a stored hash text parses as a usable adaptive hash (well
/// formed, with an allowed work factor). Depends on the text alone.
pub uninterp spec fn spec_hash_accepted(h: Seq<char>) -> bool;

/// Whether a password matches a stored hash. Depends on the password and
/// the hash alone.
pub uninterp spec fn spec_password_matches(pw: Seq<char>, h: Seq<char>) -> bool;

/// The work factor a stored hash encodes; depends on the text alone.
pub uninterp spec fn spec_hash_cost(h: Seq<char>) -> u32;

/// A malformed stored hash: the verifier's internal failure, deliberately
/// distinct from "password did not match".
#[derive(Clone, Copy, Debug, PartialEq, Eq, Structural)]
pub struct MalformedHash;

/// Producing a hash failed: the work factor was out of range, or the
/// random salt could not be drawn.
#[derive(Clone, Copy, Debug, PartialEq, Eq, Structural)]
pub struct HashFailure;

/// Relies on `bcrypt::verify`: the outcome depends on the password and
/// the stored hash alone; the comparison itself is constant-time; it
/// fails exactly when the stored hash does not parse as a bcrypt hash
/// with an allowed cost.
#[verifier::external_body]
fn bcrypt_verify(password: &str, stored_hash: &str) -> (r: Result<bool, MalformedHash>)
    ensures
        r == if spec_hash_accepted(stored_hash@) {
            Ok::<bool, MalformedHash>(spec_password_matches(password@, stored_hash@))
        } else {
            Err::<bool, MalformedHash>(MalformedHash)
        },
{
    match bcrypt::verify(password, stored_hash) {
        Ok(b) => Ok(b),
        Err(_) => Err(MalformedHash),
    }
}

/// Relies on `bcrypt::hash`: a returned hash is a well-formed bcrypt hash
/// of 60 characters that verifies against the hashed password and
/// encodes the cost it was produced with; a cost outside the allowed
/// range is refused; the random salt may also fail to be drawn, so
/// success is never owed.
#[verifier::external_body]
fn bcrypt_hash(password: &str, cost: u32) -> (r: Result<String, HashFailure>)
    ensures
        r matches Ok(h) ==> spec_hash_accepted(h@) && spec_password_matches(password@, h@)
            && h@.len() == 60 && spec_hash_cost(h@) == cost,
        cost < 4 || cost > 31 ==> r is Err,
{
    match bcrypt::hash(password, cost) {
        Ok(h) => Ok(h),
        Err(_) => Err(HashFailure),
    }
}

/// Checks `password` against `stored_hash`. A malformed stored hash
/// surfaces as the internal error, never as a mismatch.
pub fn verify_password(password: &str, stored_hash: &str) -> (r: Result<bool, MalformedHash>)
    ensures
        spec_hash_accepted(stored_hash@) ==> r == Ok::<bool, MalformedHash>(
            spec_password_matches(password@, stored_hash@),
        ),
        !spec_hash_accepted(stored_hash@) ==> r == Err::<bool, MalformedHash>(MalformedHash),
{
    bcrypt_verify(password, stored_hash)
}

/// Hashes a password with the fixed work factor. Any hash returned
/// verifies against the password it was produced from and encodes
/// exactly that work factor; producing a weaker hash is ruled out.
pub fn hash_password(password: &str) -> (r: Result<String, HashFailure>)
    ensures
        r matches Ok(h) ==> spec_hash_accepted(h@) && spec_password_matches(password@, h@)
            && spec_hash_cost(h@) == BCRYPT_COST,
{
    bcrypt_hash(password, BCRYPT_COST)
}

} // verus!
