//! Password hashing and user ids, through the `bcrypt` and `uuid` crates.
use vstd::prelude::*;

verus! {

/// `bcrypt::BcryptError`, the failure of a hash or a verification.
#[verifier::external_type_specification]
#[verifier::external_body]
pub struct ExBcryptError(bcrypt::BcryptError);

/// What `bcrypt::verify(password, hash)` returns: `None` for its error
/// (a hash that does not parse), else whether the password matches the hash.
pub uninterp spec fn bcrypt_verify_outcome(password: Seq<char>, hash: Seq<char>) -> Option<bool>;

/// Calls `bcrypt::verify`. The contract claims only that the result is the
/// one named by `bcrypt_verify_outcome` for these two arguments: the check
/// re-hashes the password with the cost and salt read from `hash` and
/// compares, so it depends on nothing else.
#[verifier::external_body]
pub(crate) fn verify_password(password: &str, hash: &str) -> (r: Result<bool, bcrypt::BcryptError>)
    ensures
        r is Ok <==> bcrypt_verify_outcome(password@, hash@) is Some,
        r matches Ok(b) ==> bcrypt_verify_outcome(password@, hash@) == Some(b),
{
    bcrypt::verify(password, hash)
}

/// The shape of a hash `bcrypt::hash` formats at the default cost: `$2b$12$`,
/// then 22 characters of salt and 31 of hash, 60 in all.
pub open spec fn is_default_cost_hash(hash: Seq<char>) -> bool {
    &&& hash.len() == 60
    &&& hash.subrange(0, 7) == "$2b$12$"@
}

/// A stored hash for `password`: it verifies the password and has the shape
/// of a default-cost hash.
pub open spec fn is_bcrypt_hash_of(password: Seq<char>, hash: Seq<char>) -> bool {
    &&& bcrypt_verify_outcome(password, hash) == Some(true)
    &&& is_default_cost_hash(hash)
}

/// Calls `bcrypt::hash(password, bcrypt::DEFAULT_COST)`, which draws a random
/// salt. The contract claims that a hash it returns verifies the same password
/// (it is produced by the computation `bcrypt::verify` repeats) and has the
/// `$2b$12$` shape of 60 characters that the crate formats; which salt comes
/// out, and whether the random source fails (the only error `bcrypt::hash`
/// can return at the default cost), is not stated.
#[verifier::external_body]
pub(crate) fn hash_password(password: &str) -> (r: Result<String, bcrypt::BcryptError>)
    ensures
        r matches Ok(h) ==> is_bcrypt_hash_of(password@, h@),
{
    bcrypt::hash(password, bcrypt::DEFAULT_COST)
}

/// A lowercase hexadecimal digit.
pub open spec fn is_lower_hex(c: char) -> bool {
    ('0' <= c && c <= '9') || ('a' <= c && c <= 'f')
}

/// The hyphenated form of a random (version 4) UUID: 36 characters, hyphens
/// at 8, 13, 18 and 23, lowercase hexadecimal digits elsewhere, the version
/// digit `4` at 14 and a variant digit among `8`, `9`, `a`, `b` at 19.
pub open spec fn is_uuid_v4_string(id: Seq<char>) -> bool {
    &&& id.len() == 36
    &&& forall|i: int| 0 <= i < 36 ==> if i == 8 || i == 13 || i == 18 || i == 23 {
        #[trigger] id[i] == '-'
    } else {
        is_lower_hex(id[i])
    }
    &&& id[14] == '4'
    &&& id[19] == '8' || id[19] == '9' || id[19] == 'a' || id[19] == 'b'
}

/// Calls `uuid::Uuid::new_v4()` and renders it with `to_string`, which
/// `Display` writes as the lowercase hyphenated form. `new_v4` masks the
/// random bits so that the version nibble is 4 and the variant bits are `10`.
/// The contract claims only that form: the other digits are random. `new_v4` panics when the
/// operating system's random source fails, which no precondition can rule out.
#[verifier::external_body]
pub(crate) fn fresh_user_id() -> (id: String)
    ensures
        is_uuid_v4_string(id@),
{
    uuid::Uuid::new_v4().to_string()
}

} // verus!
