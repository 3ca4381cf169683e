//! Password hashing with Argon2id and the check of a username and password.

use vstd::prelude::*;
use vstd::string::*;
use vstd::utf8::encode_utf8;
use vstd::slice::slice_to_vec;
use argon2::{Algorithm, Argon2, Params, PasswordHash, PasswordHasher, PasswordVerifier, Version};
use argon2::password_hash::SaltString;
use crate::authentication::middleware::UserId;
use crate::domain::subscriber_password::SubscriberPassword;
use crate::secret::SecretText;
use crate::text::strip_prefix;
use crate::utils::{ErrorKind, Failure};

verus! {

/// Memory cost of every hash, in KiB.
pub const ARGON2_MEMORY_KIB: u32 = 15000;

/// Number of passes of every hash.
pub const ARGON2_ITERATIONS: u32 = 2;

/// Degree of parallelism of every hash.
pub const ARGON2_PARALLELISM: u32 = 1;

/// The highest degree of parallelism that Argon2 takes.
pub const ARGON2_MAX_PARALLELISM: u32 = 0x00ff_ffff;

/// How every hash of this service begins: the algorithm, its version and
/// the three cost parameters.
pub const FIXED_PARAMETERS: &'static str = "$argon2id$v=19$m=15000,t=2,p=1$";

/// The hash that stands in for the stored one when the username is unknown,
/// so that the same work is done either way. It was made with the
/// parameters above.
pub const FALLBACK_PASSWORD_HASH: &'static str =
    "$argon2id$v=19$m=15000,t=2,p=1$gZiV/M1gPc22ElAH/Jh1Hw$CWOrkoo7oJBQ/iyh7uJ0LO2aLEfrHwTWllSAxT0zRno";

#[verifier::external_type_specification]
#[verifier::external_body]
pub struct ExPasswordHashError(argon2::password_hash::Error);

/// The PHC string that Argon2id, version 0x13, computes for a password, a
/// salt in B64 and the three cost parameters; `None` where it refuses them.
pub uninterp spec fn argon2id_phc(
    password: Seq<u8>,
    salt: Seq<char>,
    m_cost: u32,
    t_cost: u32,
    p_cost: u32,
) -> Option<Seq<char>>;

/// Whether a text parses as a PHC string.
pub uninterp spec fn is_phc_string(s: Seq<char>) -> bool;

/// Whether recomputing the hash of `password` with the algorithm, version,
/// parameters and salt that the PHC string `phc` names gives the digest
/// that `phc` holds.
pub uninterp spec fn argon2_accepts(password: Seq<u8>, phc: Seq<char>) -> bool;

/// `SaltString::generate` draws 16 random bytes from the thread's generator
/// and encodes them in B64. Nothing is promised of the outcome.
#[verifier::external_body]
pub(crate) fn generate_salt() -> (r: String) {
    SaltString::generate(&mut rand::thread_rng()).as_str().to_owned()
}

/// `Argon2::new(Argon2id, V0x13, Params::new(m, t, p, None))` followed by
/// `hash_password` computes the PHC string of the password under the salt,
/// or fails where the parameters or the salt are refused. The string
/// depends on the arguments alone, it parses as a PHC string, and verifying
/// the same password against it succeeds, since verification recomputes the
/// digest from what the string names. `Params::new` multiplies the degree
/// of parallelism by 8 before it tests its upper bound, so `requires` keeps
/// the degree within that bound, where the product fits.
#[verifier::external_body]
pub(crate) fn argon2id_hash(
    password: &[u8],
    salt: &str,
    m_cost: u32,
    t_cost: u32,
    p_cost: u32,
) -> (r: Result<String, argon2::password_hash::Error>)
    requires
        p_cost <= ARGON2_MAX_PARALLELISM,
    ensures
        r matches Ok(phc) ==> argon2id_phc(password@, salt@, m_cost, t_cost, p_cost) == Some(phc@)
            && is_phc_string(phc@) && argon2_accepts(password@, phc@),
        r is Err ==> argon2id_phc(password@, salt@, m_cost, t_cost, p_cost) is None,
{
    let params = Params::new(m_cost, t_cost, p_cost, None)?;
    let salt = SaltString::from_b64(salt)?;
    let hasher = Argon2::new(Algorithm::Argon2id, Version::V0x13, params);
    Ok(hasher.hash_password(password, &salt)?.to_string())
}

/// `PasswordHash::new` parses a text in the PHC string format; the wrapper
/// tells whether it parsed.
#[verifier::external_body]
pub(crate) fn phc_parses(s: &str) -> (r: bool)
    ensures
        r == is_phc_string(s@),
{
    PasswordHash::new(s).is_ok()
}

/// `PasswordVerifier::verify_password` on `Argon2::default()` recomputes the
/// hash of the password with what the parsed PHC string names and compares
/// the digests; the wrapper tells whether they agreed. The text is parsed
/// with `PasswordHash::new` first, which `requires` says succeeds. The
/// parameters are built from what the string names, with the same
/// multiplication as in hashing, so `requires` admits only strings that
/// name the fixed parameters, whose degree of parallelism is 1.
#[verifier::external_body]
pub(crate) fn argon2_verify(password: &[u8], phc: &str) -> (r: bool)
    requires
        is_phc_string(phc@),
        names_fixed_parameters(phc@),
    ensures
        r == argon2_accepts(password@, phc@),
{
    match PasswordHash::new(phc) {
        Ok(hash) => Argon2::default().verify_password(password, &hash).is_ok(),
        Err(_) => false,
    }
}

/// Why a credential check said no.
#[derive(Debug, Clone, Copy, PartialEq, Eq, Structural)]
pub enum InvalidCause {
    /// The password does not match the hash.
    InvalidPassword,
    /// No user has the username.
    UnknownUsername,
}

/// What went wrong where nothing should have.
#[derive(Debug, Clone, Copy, PartialEq, Eq, Structural)]
pub enum UnexpectedCause {
    /// The stored hash is not a PHC string.
    MalformedHash,
    /// The stored hash was made with another algorithm, version or cost
    /// than the fixed ones.
    ParameterMismatch,
    /// The hash could not be computed.
    HashingFailed,
    /// The credential store failed.
    StoreFailed,
    /// The task that does the hashing did not finish.
    TaskFailed,
}

/// The two ways a credential check fails. The caller shows the same message
/// for `InvalidCredentials` whatever its cause.
#[derive(Debug, Clone, Copy, PartialEq, Eq, Structural)]
pub enum AuthError {
    /// Bad username or bad password.
    InvalidCredentials(InvalidCause),
    /// A failure of the store or the machinery.
    UnexpectedError(UnexpectedCause),
}

/// An invalid credential's cause in words.
pub open spec fn invalid_cause_message(cause: InvalidCause) -> Seq<char> {
    match cause {
        InvalidCause::InvalidPassword => "Invalid password."@,
        InvalidCause::UnknownUsername => "Unknown username."@,
    }
}

/// An unexpected error's cause in words.
pub open spec fn unexpected_cause_message(cause: UnexpectedCause) -> Seq<char> {
    match cause {
        UnexpectedCause::MalformedHash => "Failed to parse hash in PHC string format."@,
        UnexpectedCause::ParameterMismatch =>
            "The hash was not made with the fixed Argon2id parameters."@,
        UnexpectedCause::HashingFailed => "Failed to hash password"@,
        UnexpectedCause::StoreFailed => "Failed to perform a query to retrieve stored credentials."@,
        UnexpectedCause::TaskFailed => "Failed to spawn blocking task."@,
    }
}

/// The message of an error for the user: one text for every invalid
/// credential, the cause itself for the rest.
pub open spec fn auth_error_message(e: AuthError) -> Seq<char> {
    match e {
        AuthError::InvalidCredentials(_) => "Invalid Credentials."@,
        AuthError::UnexpectedError(cause) => unexpected_cause_message(cause),
    }
}

/// The cause behind an error in words.
pub open spec fn auth_error_source(e: AuthError) -> Seq<char> {
    match e {
        AuthError::InvalidCredentials(cause) => invalid_cause_message(cause),
        AuthError::UnexpectedError(cause) => unexpected_cause_message(cause),
    }
}

impl InvalidCause {
    /// The cause in words, for the operator's log.
    pub fn message(&self) -> (r: &'static str)
        ensures
            r@ == invalid_cause_message(*self),
    {
        match self {
            InvalidCause::InvalidPassword => "Invalid password.",
            InvalidCause::UnknownUsername => "Unknown username.",
        }
    }
}

impl UnexpectedCause {
    /// The cause in words, for the operator's log.
    pub fn message(&self) -> (r: &'static str)
        ensures
            r@ == unexpected_cause_message(*self),
    {
        match self {
            UnexpectedCause::MalformedHash => "Failed to parse hash in PHC string format.",
            UnexpectedCause::ParameterMismatch =>
                "The hash was not made with the fixed Argon2id parameters.",
            UnexpectedCause::HashingFailed => "Failed to hash password",
            UnexpectedCause::StoreFailed =>
                "Failed to perform a query to retrieve stored credentials.",
            UnexpectedCause::TaskFailed => "Failed to spawn blocking task.",
        }
    }
}

impl AuthError {
    /// The message for the user: one text for every invalid credential, the
    /// cause itself for the rest.
    pub fn to_string(&self) -> (r: String)
        ensures
            r@ == auth_error_message(*self),
    {
        match self {
            AuthError::InvalidCredentials(_) => String::from_str("Invalid Credentials."),
            AuthError::UnexpectedError(cause) => String::from_str(cause.message()),
        }
    }

    /// The kind of this error: an invalid credential is unauthorized, the
    /// rest is unexpected.
    pub fn kind(&self) -> (r: ErrorKind)
        ensures
            r == (match *self {
                AuthError::InvalidCredentials(_) => ErrorKind::Unauthorized,
                AuthError::UnexpectedError(_) => ErrorKind::Unexpected,
            }),
    {
        match self {
            AuthError::InvalidCredentials(_) => ErrorKind::Unauthorized,
            AuthError::UnexpectedError(_) => ErrorKind::Unexpected,
        }
    }

    /// The cause behind the error, for the operator's log.
    pub fn source(&self) -> (r: &'static str)
        ensures
            r@ == auth_error_source(*self),
    {
        match self {
            AuthError::InvalidCredentials(cause) => cause.message(),
            AuthError::UnexpectedError(cause) => cause.message(),
        }
    }
}

/// A username and a password, as a login form hands them in.
pub struct Credentials {
    pub username: String,
    pub password: SecretText,
}

/// What the credential store holds for a username.
pub struct StoredCredentials {
    pub user_id: UserId,
    pub password_hash: SecretText,
}

/// The bytes that are hashed: the password's, then the pepper's.
pub open spec fn peppered(password: Seq<char>, pepper: Seq<char>) -> Seq<u8> {
    encode_utf8(password) + encode_utf8(pepper)
}

/// A PHC string names the fixed algorithm, version and cost parameters.
pub open spec fn names_fixed_parameters(phc: Seq<char>) -> bool {
    FIXED_PARAMETERS@.is_prefix_of(phc)
}

/// Tells whether a PHC string names the fixed algorithm, version and cost
/// parameters.
pub fn has_fixed_parameters(phc: &str) -> (r: bool)
    ensures
        r == names_fixed_parameters(phc@),
{
    match strip_prefix(phc, FIXED_PARAMETERS) {
        Some(rest) => {
            assert((FIXED_PARAMETERS@ + rest@).subrange(0, FIXED_PARAMETERS@.len() as int)
                =~= FIXED_PARAMETERS@);
            true
        },
        None => false,
    }
}

/// What a verification comes to, given whether the expected hash parsed,
/// whether it names the fixed parameters and whether Argon2 accepted the
/// password. A hash that does not parse or that was made with other
/// parameters is an unexpected error: it is never verified as if it were
/// one of ours. A password that is not accepted is an invalid credential.
pub open spec fn verification_outcome(parsed: bool, fixed: bool, accepted: bool) -> Result<
    (),
    AuthError,
> {
    if !parsed {
        Err(AuthError::UnexpectedError(UnexpectedCause::MalformedHash))
    } else if !fixed {
        Err(AuthError::UnexpectedError(UnexpectedCause::ParameterMismatch))
    } else if !accepted {
        Err(AuthError::InvalidCredentials(InvalidCause::InvalidPassword))
    } else {
        Ok(())
    }
}

/// What a credential check comes to, given the user that the store named
/// and the outcome of the verification. A failed verification decides; a
/// passed one authenticates only a user that the store named.
pub open spec fn credentials_outcome(
    user_id: Option<UserId>,
    verification: Result<(), AuthError>,
) -> Result<UserId, AuthError> {
    match verification {
        Err(e) => Err(e),
        Ok(_) => match user_id {
            Some(user_id) => Ok(user_id),
            None => Err(AuthError::InvalidCredentials(InvalidCause::UnknownUsername)),
        },
    }
}

/// The hash that a password is verified against: the stored one, or the
/// fallback where the store has none.
pub open spec fn expected_hash(stored: Option<StoredCredentials>) -> Seq<char> {
    match stored {
        Some(found) => found.password_hash@,
        None => FALLBACK_PASSWORD_HASH@,
    }
}

/// The user that the store named, if any.
pub open spec fn stored_user(stored: Option<StoredCredentials>) -> Option<UserId> {
    match stored {
        Some(found) => Some(found.user_id),
        None => None,
    }
}

/// Joins the bytes of a password and of the pepper.
pub fn pepper_password(password: &str, pepper: &str) -> (r: Vec<u8>)
    ensures
        r@ == peppered(password@, pepper@),
{
    let mut bytes = slice_to_vec(password.as_bytes());
    bytes.extend_from_slice(pepper.as_bytes());
    bytes
}

/// Turns the three answers of a verification into its outcome.
pub fn verification_result(parsed: bool, fixed: bool, accepted: bool) -> (r: Result<(), AuthError>)
    ensures
        r == verification_outcome(parsed, fixed, accepted),
{
    if !parsed {
        Err(AuthError::UnexpectedError(UnexpectedCause::MalformedHash))
    } else if !fixed {
        Err(AuthError::UnexpectedError(UnexpectedCause::ParameterMismatch))
    } else if !accepted {
        Err(AuthError::InvalidCredentials(InvalidCause::InvalidPassword))
    } else {
        Ok(())
    }
}

/// Turns the store's answer and the verification's outcome into the result
/// of the credential check.
pub fn credentials_result(user_id: Option<UserId>, verification: Result<(), AuthError>) -> (r:
    Result<UserId, AuthError>)
    ensures
        r == credentials_outcome(user_id, verification),
{
    match verification {
        Err(e) => Err(e),
        Ok(_) => match user_id {
            Some(user_id) => Ok(user_id),
            None => Err(AuthError::InvalidCredentials(InvalidCause::UnknownUsername)),
        },
    }
}

/// What a credential check comes to once the task that ran it has ended:
/// its own result where the task finished, and an unexpected error, never
/// an invalid credential, where it did not.
pub open spec fn task_outcome(joined: Result<Result<UserId, AuthError>, Failure>) -> Result<
    UserId,
    AuthError,
> {
    match joined {
        Ok(outcome) => outcome,
        Err(_) => Err(AuthError::UnexpectedError(UnexpectedCause::TaskFailed)),
    }
}

/// Turns the end of the task that ran a credential check into the result
/// of the check.
pub fn task_result(joined: Result<Result<UserId, AuthError>, Failure>) -> (r: Result<
    UserId,
    AuthError,
>)
    ensures
        r == task_outcome(joined),
{
    match joined {
        Ok(outcome) => outcome,
        Err(_) => Err(AuthError::UnexpectedError(UnexpectedCause::TaskFailed)),
    }
}

/// Hashes and verifies passwords with one process-wide pepper.
pub struct PasswordService {
    pepper: SecretText,
}

impl PasswordService {
    /// The pepper that this service appends to every password.
    pub closed spec fn pepper(&self) -> Seq<char> {
        self.pepper@
    }

    /// A service that uses `pepper`.
    pub fn new(pepper: SecretText) -> (r: Self)
        ensures
            r.pepper() == pepper@,
    {
        Self { pepper }
    }

    /// Checks a username and password against the outcome of looking the
    /// username up in the store. A lookup that failed is an unexpected
    /// error, never an invalid credential, and nothing is verified for it.
    /// For a lookup that succeeded the password is verified in every case,
    /// against the fallback hash where the username is unknown; a user is
    /// authenticated only where the store named one and the stored hash
    /// accepted the password.
    pub fn validate_credentials(
        &self,
        credentials: Credentials,
        lookup: Result<Option<StoredCredentials>, Failure>,
    ) -> (r: Result<UserId, AuthError>)
        ensures
            match lookup {
                Err(_) => r == Err::<UserId, AuthError>(
                    AuthError::UnexpectedError(UnexpectedCause::StoreFailed),
                ),
                Ok(stored) => r == credentials_outcome(
                    stored_user(stored),
                    verification_outcome(
                        is_phc_string(expected_hash(stored)),
                        names_fixed_parameters(expected_hash(stored)),
                        argon2_accepts(
                            peppered(credentials.password@, self.pepper()),
                            expected_hash(stored),
                        ),
                    ),
                ),
            },
    {
        match lookup {
            Err(_) => Err(AuthError::UnexpectedError(UnexpectedCause::StoreFailed)),
            Ok(stored) => self.validate_stored(credentials, stored),
        }
    }

    /// Checks a username and password against what the store holds for the
    /// username. The password is verified in every case, against the
    /// fallback hash where the username is unknown; a user is authenticated
    /// only where the store named one and the stored hash accepted the
    /// password.
    pub fn validate_stored(
        &self,
        credentials: Credentials,
        stored: Option<StoredCredentials>,
    ) -> (r: Result<UserId, AuthError>)
        ensures
            r == credentials_outcome(
                stored_user(stored),
                verification_outcome(
                    is_phc_string(expected_hash(stored)),
                    names_fixed_parameters(expected_hash(stored)),
                    argon2_accepts(
                        peppered(credentials.password@, self.pepper()),
                        expected_hash(stored),
                    ),
                ),
            ),
    {
        let (user_id, expected_password_hash) = match stored {
            Some(found) => (Some(found.user_id), found.password_hash),
            None => (None, SecretText::new(String::from_str(FALLBACK_PASSWORD_HASH))),
        };
        let verification = Self::verify_password_hash(
            expected_password_hash,
            credentials.password,
            &self.pepper,
        );
        credentials_result(user_id, verification)
    }

    /// Verifies a candidate password, with the pepper appended, against a
    /// hash in PHC string format.
    pub fn verify_password_hash(
        expected_password_hash: SecretText,
        password_candidate: SecretText,
        pepper: &SecretText,
    ) -> (r: Result<(), AuthError>)
        ensures
            r == verification_outcome(
                is_phc_string(expected_password_hash@),
                names_fixed_parameters(expected_password_hash@),
                argon2_accepts(
                    peppered(password_candidate@, pepper@),
                    expected_password_hash@,
                ),
            ),
    {
        let expected = expected_password_hash.expose_secret();
        if !phc_parses(expected) {
            return verification_result(false, false, false);
        }
        if !has_fixed_parameters(expected) {
            return verification_result(true, false, false);
        }
        let peppered_password = pepper_password(
            password_candidate.expose_secret(),
            pepper.expose_secret(),
        );
        let accepted = argon2_verify(peppered_password.as_slice(), expected);
        verification_result(true, true, accepted)
    }

    /// Hashes a new password for storing: the hash that replaces the user's
    /// stored one. A fresh salt is drawn for every call. The call fails
    /// only where hashing under the drawn salt gave no hash with the fixed
    /// parameters.
    pub fn change_password(&self, password: SubscriberPassword) -> (r: Result<
        SecretText,
        UnexpectedCause,
    >)
        ensures
            r matches Ok(hash) ==> is_phc_string(hash@) && names_fixed_parameters(hash@)
                && argon2_accepts(peppered(password@, self.pepper()), hash@) && (exists|
                salt: Seq<char>,
            | hashed_with(password@, self.pepper(), salt) == Some(hash@)),
            r matches Err(cause) ==> cause == UnexpectedCause::HashingFailed,
            r is Err ==> exists|salt: Seq<char>| gives_no_hash(password@, self.pepper(), salt),
    {
        let r = Self::compute_password_hash(password, &self.pepper);
        proof {
            if r is Ok {
                let salt = choose|salt: Seq<char>|
                    hashed_with(password@, self.pepper@, salt) == Some(r->Ok_0@);
                assert(hashed_with(password@, self.pepper(), salt) == Some(r->Ok_0@));
            } else {
                let salt = choose|salt: Seq<char>| gives_no_hash(password@, self.pepper@, salt);
                assert(gives_no_hash(password@, self.pepper(), salt));
            }
        }
        r
    }

    /// Hashes a password, with the pepper appended, under a fresh random
    /// salt. The call fails only where hashing under the drawn salt gave no
    /// hash with the fixed parameters.
    pub fn compute_password_hash(password: SubscriberPassword, pepper: &SecretText) -> (r: Result<
        SecretText,
        UnexpectedCause,
    >)
        ensures
            r matches Ok(hash) ==> is_phc_string(hash@) && names_fixed_parameters(hash@)
                && argon2_accepts(peppered(password@, pepper@), hash@) && (exists|salt: Seq<char>|
                hashed_with(password@, pepper@, salt) == Some(hash@)),
            r matches Err(cause) ==> cause == UnexpectedCause::HashingFailed,
            r is Err ==> exists|salt: Seq<char>| gives_no_hash(password@, pepper@, salt),
    {
        let salt = generate_salt();
        let r = Self::hash_with_salt(&password, pepper, salt.as_str());
        proof {
            if r is Ok {
                assert(hashed_with(password@, pepper@, salt@) == Some(r->Ok_0@));
            } else {
                assert(gives_no_hash(password@, pepper@, salt@));
            }
        }
        r
    }

    /// Hashes a password, with the pepper appended, under the given salt,
    /// with Argon2id and the fixed parameters. The hash is handed out only
    /// where it names those parameters.
    pub fn hash_with_salt(password: &SubscriberPassword, pepper: &SecretText, salt: &str) -> (r:
        Result<SecretText, UnexpectedCause>)
        ensures
            match r {
                Ok(hash) => hashed_with(password@, pepper@, salt@) == Some(hash@)
                    && is_phc_string(hash@) && names_fixed_parameters(hash@) && argon2_accepts(
                    peppered(password@, pepper@),
                    hash@,
                ),
                Err(cause) => cause == UnexpectedCause::HashingFailed && gives_no_hash(
                    password@,
                    pepper@,
                    salt@,
                ),
            },
    {
        let peppered_password = pepper_password(password.expose(), pepper.expose_secret());
        let hashed = argon2id_hash(
            peppered_password.as_slice(),
            salt,
            ARGON2_MEMORY_KIB,
            ARGON2_ITERATIONS,
            ARGON2_PARALLELISM,
        );
        match hashed {
            Ok(phc) => {
                if has_fixed_parameters(phc.as_str()) {
                    Ok(SecretText::new(phc))
                } else {
                    Err(UnexpectedCause::HashingFailed)
                }
            },
            Err(_) => Err(UnexpectedCause::HashingFailed),
        }
    }
}

/// Hashing a password and pepper under a salt gives no hash to hand out:
/// Argon2 refuses, or what it returns does not name the fixed parameters.
pub open spec fn gives_no_hash(password: Seq<char>, pepper: Seq<char>, salt: Seq<char>) -> bool {
    match hashed_with(password, pepper, salt) {
        Some(phc) => !names_fixed_parameters(phc),
        None => true,
    }
}

/// The PHC string for a password and pepper under a salt, with the fixed
/// parameters.
pub open spec fn hashed_with(password: Seq<char>, pepper: Seq<char>, salt: Seq<char>) -> Option<
    Seq<char>,
> {
    argon2id_phc(
        peppered(password, pepper),
        salt,
        ARGON2_MEMORY_KIB,
        ARGON2_ITERATIONS,
        ARGON2_PARALLELISM,
    )
}

/// A user is authenticated exactly when the store named that user, the
/// stored hash parsed, it names the fixed parameters and Argon2 accepted
/// the password against it.
pub proof fn lemma_authenticated_iff_stored_hash_accepts(
    user_id: Option<UserId>,
    parsed: bool,
    fixed: bool,
    accepted: bool,
    authenticated: UserId,
)
    ensures
        credentials_outcome(user_id, verification_outcome(parsed, fixed, accepted)) == Ok::<
            UserId,
            AuthError,
        >(authenticated) <==> user_id == Some(authenticated) && parsed && fixed && accepted,
{
}

/// An unknown username never authenticates, whatever the verification
/// against the fallback hash says.
pub proof fn lemma_unknown_username_never_authenticates(verification: Result<(), AuthError>)
    ensures
        credentials_outcome(None, verification) is Err,
        verification is Ok ==> credentials_outcome(None, verification) == Err::<UserId, AuthError>(
            AuthError::InvalidCredentials(InvalidCause::UnknownUsername),
        ),
{
}

/// A wrong password and an unknown username give the same kind of error
/// with the same message, so that the caller cannot tell them apart.
pub proof fn lemma_invalid_credentials_are_not_distinguished(user_id: Option<UserId>, accepted: bool)
    requires
        user_id is None || !accepted,
    ensures
        credentials_outcome(user_id, verification_outcome(true, true, accepted)) matches Err(
            AuthError::InvalidCredentials(_),
        ),
        auth_error_message(
            credentials_outcome(user_id, verification_outcome(true, true, accepted))->Err_0,
        ) == "Invalid Credentials."@,
{
}

/// A failure of the store or of the task is an unexpected error, never an
/// invalid credential and never a success.
pub proof fn lemma_infrastructure_failures_are_unexpected(failure: Failure)
    ensures
        task_outcome(Err(failure)) matches Err(AuthError::UnexpectedError(_)),
        auth_error_message(task_outcome(Err(failure))->Err_0) != "Invalid Credentials."@,
{
    reveal_strlit("Invalid Credentials.");
    reveal_strlit("Failed to spawn blocking task.");
    assert("Failed to spawn blocking task."@.len() != "Invalid Credentials."@.len());
}

/// A hash made with other parameters than the fixed ones is never
/// accepted, even where Argon2 would accept the password against it.
pub proof fn lemma_parameter_mismatch_fails_closed(user_id: Option<UserId>, accepted: bool)
    ensures
        credentials_outcome(user_id, verification_outcome(true, false, accepted)) == Err::<
            UserId,
            AuthError,
        >(AuthError::UnexpectedError(UnexpectedCause::ParameterMismatch)),
{
}

/// The fallback hash names the same parameters as every hash that this
/// service makes, so that verifying against it costs what a real
/// verification costs.
pub proof fn lemma_fallback_hash_names_fixed_parameters()
    ensures
        names_fixed_parameters(FALLBACK_PASSWORD_HASH@),
{
    reveal_strlit("$argon2id$v=19$m=15000,t=2,p=1$");
    reveal_strlit(
        "$argon2id$v=19$m=15000,t=2,p=1$gZiV/M1gPc22ElAH/Jh1Hw$CWOrkoo7oJBQ/iyh7uJ0LO2aLEfrHwTWllSAxT0zRno",
    );
    assert(FIXED_PARAMETERS@ =~= FALLBACK_PASSWORD_HASH@.subrange(
        0,
        FIXED_PARAMETERS@.len() as int,
    ));
}

/// A hash that `change_password` returned, once stored for a user, lets
/// that user in with the password it was made from.
pub proof fn lemma_changed_password_validates(
    user_id: UserId,
    password: Seq<char>,
    pepper: Seq<char>,
    hash: Seq<char>,
)
    ensures
        is_phc_string(hash) && names_fixed_parameters(hash) && argon2_accepts(
            peppered(password, pepper),
            hash,
        ) ==> credentials_outcome(
            Some(user_id),
            verification_outcome(
                is_phc_string(hash),
                names_fixed_parameters(hash),
                argon2_accepts(peppered(password, pepper), hash),
            ),
        ) == Ok::<UserId, AuthError>(user_id),
{
}

} // verus!
