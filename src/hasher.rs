use crate::error::Error;
use vstd::prelude::*;

verus! {

/// The PHC string that Argon2 (default parameters) derives from a password and
/// a B64-encoded salt, or `None` when the salt is not valid B64 or hashing fails.
pub uninterp spec fn argon2_phc(password: Seq<char>, salt: Seq<char>) -> Option<Seq<char>>;

/// Whether a string parses as a PHC password hash.
pub uninterp spec fn phc_parses(phc: Seq<char>) -> bool;

/// What Argon2 makes of the password against a parsed PHC string: `Some(true)`
/// when it matches, `Some(false)` when it does not, `None` when the hash
/// cannot be verified at all (another algorithm, invalid parameters).
pub uninterp spec fn argon2_verdict(password: Seq<char>, phc: Seq<char>) -> Option<bool>;

/// The outcome of checking a password against a stored hash.
#[derive(Clone, Copy, Debug, PartialEq, Eq, Structural)]
pub enum Verdict {
    /// The password matches.
    Match,
    /// The password does not match.
    Mismatch,
    /// The stored string is not a PHC hash.
    Malformed,
    /// The hash parses but cannot be verified.
    Failed,
}

/// What verifying `password` against the stored hash `phc` yields: only a
/// mismatch is `Unauthorized`; a hash that cannot be verified is an internal
/// error.
pub open spec fn verification(password: Seq<char>, phc: Seq<char>) -> Result<(), Error> {
    if !phc_parses(phc) {
        Err(Error::MalformedHash)
    } else {
        match argon2_verdict(password, phc) {
            Some(true) => Ok(()),
            Some(false) => Err(Error::Unauthorized),
            None => Err(Error::Internal),
        }
    }
}

/// The start of the PHC string that Argon2id with default parameters makes
/// under `salt`: algorithm, version, parameters and the salt itself; the
/// derived hash follows.
pub open spec fn phc_prefix(salt: Seq<char>) -> Seq<char> {
    "$argon2id$v=19$m=19456,t=2,p=1$"@ + salt + "$"@
}

/// `phc` names Argon2id with its default parameters and embeds `salt`,
/// followed by a non-empty derived hash.
pub open spec fn embeds_salt(phc: Seq<char>, salt: Seq<char>) -> bool {
    &&& phc_prefix(salt).len() < phc.len()
    &&& phc.subrange(0, phc_prefix(salt).len() as int) == phc_prefix(salt)
}

/// Passwords that Argon2 takes: at most 2^32 - 1 bytes, which every string of
/// at most 2^30 - 1 characters is.
pub open spec fn password_fits(password: Seq<char>) -> bool {
    password.len() <= 0x3fff_ffff
}

/// Relies on `SaltString::generate` (password-hash) fed by rand's `thread_rng`:
/// 16 random bytes, B64-encoded without padding as 22 characters. Argon2 takes
/// such a salt with any password that fits its length bound.
#[verifier::external_body]
fn generate_salt() -> (r: String)
    ensures
        r@.len() == 22,
        forall|p: Seq<char>| password_fits(p) ==> (#[trigger] argon2_phc(p, r@)) is Some,
{
    argon2::password_hash::SaltString::generate(rand::thread_rng()).as_str().to_string()
}

/// Relies on `Salt::from_b64` and `PasswordHash::generate` with `Argon2::default()`:
/// the PHC string of the password under the given salt. Its `Display` writes
/// the algorithm, version, parameters and salt, then the derived hash. As the
/// argon2 crate's documentation shows, a generated hash parses again and
/// verifies the password it was made from.
#[verifier::external_body]
fn argon2_generate(password: &str, salt: &str) -> (r: Option<String>)
    ensures
        r is Some == argon2_phc(password@, salt@) is Some,
        r matches Some(h) ==> argon2_phc(password@, salt@) == Some(h@),
        r matches Some(h) ==> phc_parses(h@) && argon2_verdict(password@, h@) == Some(true),
        r matches Some(h) ==> embeds_salt(h@, salt@),
{
    let salt = argon2::password_hash::Salt::from_b64(salt).ok()?;
    argon2::PasswordHash::generate(argon2::Argon2::default(), password, salt).ok().map(
        |h| h.to_string(),
    )
}

/// Relies on `PasswordHash::new` and argon2's `PasswordVerifier::verify_password`
/// on `Argon2::default()`: `Malformed` when the string does not parse; else
/// `Match` on success, `Mismatch` on `Error::Password`, `Failed` on any other
/// error, which the verifier passes through from the hash's algorithm and
/// parameters.
#[verifier::external_body]
fn argon2_check(password: &str, phc: &str) -> (r: Verdict)
    ensures
        (r == Verdict::Malformed) == !phc_parses(phc@),
        phc_parses(phc@) ==> r == match argon2_verdict(password@, phc@) {
            Some(true) => Verdict::Match,
            Some(false) => Verdict::Mismatch,
            None => Verdict::Failed,
        },
{
    match argon2::PasswordHash::new(phc) {
        Err(_) => Verdict::Malformed,
        Ok(hash) => match argon2::PasswordVerifier::verify_password(
            &argon2::Argon2::default(),
            password.as_bytes(),
            &hash,
        ) {
            Ok(()) => Verdict::Match,
            Err(argon2::password_hash::Error::Password) => Verdict::Mismatch,
            Err(_) => Verdict::Failed,
        },
    }
}

/// Turns the outcome of a verification into the service's result: a hash that
/// does not parse is `MalformedHash`, a mismatch is `Unauthorized`, a hash that
/// cannot be verified is `Internal`.
pub fn verdict_result(verdict: Verdict) -> (r: Result<(), Error>)
    ensures
        r == match verdict {
            Verdict::Match => Ok(()),
            Verdict::Mismatch => Err(Error::Unauthorized),
            Verdict::Malformed => Err(Error::MalformedHash),
            Verdict::Failed => Err(Error::Internal),
        },
{
    match verdict {
        Verdict::Match => Ok(()),
        Verdict::Mismatch => Err(Error::Unauthorized),
        Verdict::Malformed => Err(Error::MalformedHash),
        Verdict::Failed => Err(Error::Internal),
    }
}

/// Checks a password against a stored PHC hash.
pub fn verify_password(password: &str, password_hash: &str) -> (r: Result<(), Error>)
    ensures
        r == verification(password@, password_hash@),
{
    verdict_result(argon2_check(password, password_hash))
}

/// Hashes a password under a given B64 salt; a salt that is not valid B64 or a
/// failure of the hasher is an internal error.
pub fn hash_password_with_salt(password: &str, salt: &str) -> (r: Result<String, Error>)
    ensures
        r is Ok == argon2_phc(password@, salt@) is Some,
        r matches Ok(h) ==> argon2_phc(password@, salt@) == Some(h@),
        r matches Ok(h) ==> verification(password@, h@) == Ok::<(), Error>(()),
        r matches Ok(h) ==> embeds_salt(h@, salt@),
        r matches Err(e) ==> e == Error::Internal,
{
    match argon2_generate(password, salt) {
        Some(h) => Ok(h),
        None => Err(Error::Internal),
    }
}

/// Hashes a password under a fresh random salt. Any password within Argon2's
/// length bound is hashed; the hash embeds a 22-character salt and verifies
/// the password it was made from.
pub fn hash_password(password: &str) -> (r: Result<String, Error>)
    ensures
        password_fits(password@) ==> r is Ok,
        r matches Ok(h) ==> verification(password@, h@) == Ok::<(), Error>(()),
        r matches Ok(h) ==> exists|salt: Seq<char>| salt.len() == 22 && #[trigger] embeds_salt(h@, salt),
        r matches Err(e) ==> e == Error::Internal,
{
    let salt = generate_salt();
    let r = hash_password_with_salt(password, salt.as_str());
    proof {
        if r is Ok {
            assert(embeds_salt(r->Ok_0@, salt@));
        }
    }
    r
}

/// Hashes under different salts of one length differ, whatever the passwords.
pub proof fn lemma_distinct_salts_distinct_hashes(
    first: Seq<char>,
    first_salt: Seq<char>,
    second: Seq<char>,
    second_salt: Seq<char>,
)
    requires
        embeds_salt(first, first_salt),
        embeds_salt(second, second_salt),
        first_salt.len() == second_salt.len(),
        first_salt != second_salt,
    ensures
        first != second,
{
    let head = "$argon2id$v=19$m=19456,t=2,p=1$"@;
    assert(!(first_salt =~= second_salt));
    let i = choose|i: int| 0 <= i < first_salt.len() && first_salt[i] != second_salt[i];
    let k = head.len() + i;
    assert(phc_prefix(first_salt)[k] == first_salt[i]);
    assert(phc_prefix(second_salt)[k] == second_salt[i]);
    assert(first.subrange(0, phc_prefix(first_salt).len() as int)[k] == first[k]);
    assert(second.subrange(0, phc_prefix(second_salt).len() as int)[k] == second[k]);
}

} // verus!
