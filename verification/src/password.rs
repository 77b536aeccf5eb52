//! Password checks against stored bcrypt hashes, with the upgrade of
//! passwords still stored in plain text.
use vstd::prelude::*;
use crate::error::AppError;
use crate::text::{digit_char, starts_with, str_eq};

verus! {

#[verifier::external_type_specification]
#[verifier::external_body]
pub struct ExBcryptError(bcrypt::BcryptError);

/// The text starts with one of the bcrypt version markers `$2a$`, `$2b$`, `$2y$`.
pub open spec fn bcrypt_like(value: Seq<char>) -> bool {
    ||| (value.len() >= 4 && value.subrange(0, 4) == "$2a$"@)
    ||| (value.len() >= 4 && value.subrange(0, 4) == "$2b$"@)
    ||| (value.len() >= 4 && value.subrange(0, 4) == "$2y$"@)
}

proof fn lemma_marker_len()
    ensures
        "$2a$"@.len() == 4,
        "$2b$"@.len() == 4,
        "$2y$"@.len() == 4,
{
    reveal_strlit("$2a$");
    reveal_strlit("$2b$");
    reveal_strlit("$2y$");
}

/// Whether a stored password is already a bcrypt hash.
pub fn is_bcrypt_hash(value: &str) -> (r: bool)
    ensures
        r == bcrypt_like(value@),
{
    proof {
        lemma_marker_len();
    }
    starts_with(value, "$2a$") || starts_with(value, "$2b$") || starts_with(value, "$2y$")
}

/// What `bcrypt::verify` answers for a password and a stored hash:
/// `Some(matches)`, or `None` when it fails with an error.
pub uninterp spec fn bcrypt_verify_result(password: Seq<char>, hash: Seq<char>) -> Option<bool>;

/// Calls `bcrypt::verify(password, hash)`. Its answer, or the fact that it
/// failed, is named `bcrypt_verify_result` of the two texts; the error's
/// contents are left unsaid.
#[verifier::external_body]
fn bcrypt_verify(password: &str, hash: &str) -> (r: Result<bool, bcrypt::BcryptError>)
    ensures
        match r {
            Ok(b) => bcrypt_verify_result(password@, hash@) == Some(b),
            Err(_) => bcrypt_verify_result(password@, hash@) is None,
        },
{
    bcrypt::verify(password, hash)
}

/// A number below 100 written with two digits (`{:02}`).
pub open spec fn two_digits(n: nat) -> Seq<char> {
    seq![digit_char(n / 10), digit_char(n % 10)]
}

/// Calls `bcrypt::hash(password, cost)`. The salt is random, so the text of
/// the hash is not named; what holds of every success is that the cost was
/// accepted (`4..=31`, checked by `_hash_password`), that the text starts
/// with the `$2b$` marker and the cost in two digits (`HashParts::format`),
/// and that
/// `bcrypt::verify` accepts the same password against it: both run
/// `_hash_password` on the password with the same truncation, and `verify`
/// reads the salt and cost back from the formatted hash.
#[verifier::external_body]
fn bcrypt_hash(password: &str, cost: u32) -> (r: Result<String, bcrypt::BcryptError>)
    ensures
        r matches Ok(h) ==> 4 <= cost <= 31 && h@.len() >= 7 && h@.subrange(0, 7) == "$2b$"@
            + two_digits(cost as nat) + "$"@,
        r matches Ok(h) ==> bcrypt_verify_result(password@, h@) == Some(true),
{
    bcrypt::hash(password, cost)
}

/// Calls `ToString::to_string` on a bcrypt error: its display text,
/// which is left unsaid.
#[verifier::external_body]
fn bcrypt_error_text(error: &bcrypt::BcryptError) -> String {
    error.to_string()
}

/// The cost with which upgraded passwords are hashed (`bcrypt::DEFAULT_COST`).
pub const HASH_COST: u32 = 12;

/// The outcome of checking a password.
#[derive(Debug)]
pub enum PasswordCheck {
    /// The password does not match.
    Rejected,
    /// The password matches the stored hash.
    Accepted,
    /// The password matched a plain-text record; the record must be
    /// replaced by this hash.
    AcceptedWithNewHash(String),
}

/// A bcrypt hash made at the usual cost: it starts `$2b$12$`.
pub open spec fn hashed_at_usual_cost(h: Seq<char>) -> bool {
    h.len() >= 7 && h.subrange(0, 7) == "$2b$12$"@
}

proof fn lemma_usual_cost_prefix()
    ensures
        "$2b$"@ + two_digits(HASH_COST as nat) + "$"@ == "$2b$12$"@,
        forall|h: Seq<char>| #[trigger] hashed_at_usual_cost(h) ==> bcrypt_like(h),
{
    reveal_strlit("$2b$");
    reveal_strlit("$");
    reveal_strlit("$2b$12$");
    assert(digit_char(1) == '1' && digit_char(2) == '2');
    assert("$2b$"@ + two_digits(HASH_COST as nat) + "$"@ =~= "$2b$12$"@);
    assert forall|h: Seq<char>| #[trigger] hashed_at_usual_cost(h) implies bcrypt_like(h) by {
        assert(h.subrange(0, 4) =~= h.subrange(0, 7).subrange(0, 4));
        assert("$2b$12$"@.subrange(0, 4) =~= "$2b$"@);
    }
}

/// What checking `clave` against the stored password may give: a stored
/// bcrypt hash is verified with bcrypt; a plain-text record that equals the
/// password is accepted, with a bcrypt hash of that same password, made at
/// the usual cost, to replace it (or a security error if bcrypt fails);
/// anything else is rejected.
pub open spec fn password_check_outcome(clave: Seq<char>, stored: Seq<char>, r: Result<PasswordCheck, AppError>) -> bool {
    if bcrypt_like(stored) {
        match r {
            Ok(PasswordCheck::Accepted) => bcrypt_verify_result(clave, stored) == Some(true),
            Ok(PasswordCheck::Rejected) => bcrypt_verify_result(clave, stored) == Some(false),
            Ok(PasswordCheck::AcceptedWithNewHash(_)) => false,
            Err(e) => e is Crypto && bcrypt_verify_result(clave, stored) is None,
        }
    } else if stored == clave {
        match r {
            Ok(PasswordCheck::AcceptedWithNewHash(h)) => bcrypt_like(h@) && hashed_at_usual_cost(h@)
                && bcrypt_verify_result(clave, h@) == Some(true),
            Ok(_) => false,
            Err(e) => e is Crypto,
        }
    } else {
        r matches Ok(PasswordCheck::Rejected)
    }
}

/// Checks `clave` against the stored password (see `password_check_outcome`).
pub fn verify_password_and_migrate(clave: &str, stored_password: &str) -> (r: Result<PasswordCheck, AppError>)
    ensures
        password_check_outcome(clave@, stored_password@, r),
{
    if is_bcrypt_hash(stored_password) {
        return match bcrypt_verify(clave, stored_password) {
            Ok(true) => Ok(PasswordCheck::Accepted),
            Ok(false) => Ok(PasswordCheck::Rejected),
            Err(e) => Err(AppError::Crypto(bcrypt_error_text(&e))),
        };
    }
    proof {
        lemma_marker_len();
        lemma_usual_cost_prefix();
    }
    if str_eq(stored_password, clave) {
        return match bcrypt_hash(clave, HASH_COST) {
            Ok(h) => {
                assert(hashed_at_usual_cost(h@));
                assert(bcrypt_like(h@));
                Ok(PasswordCheck::AcceptedWithNewHash(h))
            },
            Err(e) => Err(AppError::Crypto(bcrypt_error_text(&e))),
        };
    }
    Ok(PasswordCheck::Rejected)
}


/// A password hashed with bcrypt at the usual cost (12), to be stored; a failure
/// of bcrypt is a security error. Whatever salt bcrypt drew, the stored hash
/// accepts this password.
pub fn hash_password(password: &str) -> (r: Result<String, AppError>)
    ensures
        r matches Ok(h) ==> bcrypt_like(h@) && hashed_at_usual_cost(h@) && bcrypt_verify_result(password@, h@)
            == Some(true),
        r matches Err(e) ==> e is Crypto,
{
    proof {
        lemma_marker_len();
        lemma_usual_cost_prefix();
    }
    match bcrypt_hash(password, HASH_COST) {
        Ok(h) => {
            assert(hashed_at_usual_cost(h@));
            assert(bcrypt_like(h@));
            Ok(h)
        },
        Err(e) => Err(AppError::Crypto(bcrypt_error_text(&e))),
    }
}

/// A password upgraded from plain text is afterwards stored as a bcrypt
/// hash that accepts the same password, so the user's next check of it is
/// accepted through bcrypt.
pub proof fn law_upgraded_password_accepted_next_time(
    clave: Seq<char>,
    stored: Seq<char>,
    r: Result<PasswordCheck, AppError>,
    h: String,
    next: Result<PasswordCheck, AppError>,
)
    requires
        password_check_outcome(clave, stored, r),
        r == Ok::<PasswordCheck, AppError>(PasswordCheck::AcceptedWithNewHash(h)),
        password_check_outcome(clave, h@, next),
    ensures
        next matches Ok(PasswordCheck::Accepted),
{
}

} // verus!
