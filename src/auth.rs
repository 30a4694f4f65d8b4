use vstd::prelude::*;
use vstd::string::StringExecFns;
use crate::error::{is_error, ApiError, ApiErrorKind};
use crate::frame::{trim_text, trimmed};
use crate::ids::{fresh_id, parse_id, parsed_uuid};
use vstd::utf8::encode_utf8;

verus! {

/// The body of a registration request.
pub struct RegisterRequest {
    pub username: String,
    pub password: String,
    /// Optional display name; the username stands in where it is missing.
    pub display_name: Option<String>,
}

/// The body of a login request.
pub struct LoginRequest {
    pub username: String,
    pub password: String,
}

/// A profile about to be stored by a registration.
pub struct NewProfile {
    pub id: u128,
    pub username: String,
    pub password_hash: String,
    pub display_name: String,
}

/// What a login needs of the stored profile of a username.
pub struct StoredCredentials {
    pub id: u128,
    pub password_hash: Option<String>,
}

/// Whether `password` matches the Argon2 hash string `hash`: `None` where the
/// string is no valid hash.
pub uninterp spec fn password_check(password: Seq<char>, hash: Seq<char>) -> Option<bool>;

/// Relies on argon2's PasswordHasher::hash_password with a salt drawn by
/// SaltString::generate from the OS random source. The salt is random, so the
/// hash string itself is not fixed; with the default parameters hashing fails
/// only on a password of more than `0xFFFF_FFFF` bytes, and the PHC string it
/// gives carries its own salt and parameters, so verifying the same password
/// against it succeeds.
#[verifier::external_body]
fn hash_password(password: &str) -> (r: Option<String>)
    ensures
        encode_utf8(password@).len() <= 0xFFFF_FFFF ==> r is Some,
        r is Some ==> password_check(password@, r->Some_0@) == Some(true),
{
    let salt = argon2::password_hash::SaltString::generate(
        &mut argon2::password_hash::rand_core::OsRng,
    );
    argon2::PasswordHasher::hash_password(&argon2::Argon2::default(), password.as_bytes(), &salt)
        .ok()
        .map(|h| h.to_string())
}

/// Relies on argon2's PasswordHash::new to read the stored hash and on
/// PasswordVerifier::verify_password to check the password against it.
#[verifier::external_body]
fn check_password(password: &str, hash: &str) -> (r: Option<bool>)
    ensures
        r == password_check(password@, hash@),
{
    match argon2::password_hash::PasswordHash::new(hash) {
        Ok(parsed) => Some(
            argon2::PasswordVerifier::verify_password(
                &argon2::Argon2::default(),
                password.as_bytes(),
                &parsed,
            ).is_ok(),
        ),
        Err(_) => None,
    }
}

/// The user that a session credential names: the UUID that the cookie value
/// spells. A missing or malformed credential is unauthorized.
pub fn session_user(cookie: Option<String>) -> (r: Result<u128, ApiError>)
    ensures
        r is Ok <==> (cookie is Some && parsed_uuid(cookie->Some_0@) is Some),
        r is Ok ==> r->Ok_0 == parsed_uuid(cookie->Some_0@)->Some_0,
        r is Err ==> r->Err_0 is Unauthorized,
{
    match cookie {
        Some(v) => match parse_id(v.as_str()) {
            Some(id) => Ok(id),
            None => Err(ApiError::Unauthorized),
        },
        None => Err(ApiError::Unauthorized),
    }
}

/// Checks the fields of a registration: the username, trimmed, must not be
/// empty and the password must have at least six bytes. Returns the trimmed
/// username.
pub fn validate_registration(username: &str, password: &str) -> (r: Result<String, ApiError>)
    ensures
        r is Ok <==> (trimmed(username@).len() > 0 && encode_utf8(password@).len() as usize >= 6),
        r is Ok ==> r->Ok_0@ == trimmed(username@),
        trimmed(username@).len() == 0 ==> r is Err && is_error(
            r->Err_0,
            ApiErrorKind::BadRequest,
            "Username cannot be empty"@,
        ),
        trimmed(username@).len() > 0 && (encode_utf8(password@).len() as usize) < 6 ==> r is Err
            && is_error(r->Err_0, ApiErrorKind::BadRequest, "Password must be at least 6 characters"@),
{
    let name = trim_text(username);
    if name.is_empty() {
        return Err(ApiError::bad_request("Username cannot be empty"));
    }
    if password.len() < 6 {
        return Err(ApiError::bad_request("Password must be at least 6 characters"));
    }
    Ok(name.to_string())
}

/// Whether the fields of a registration are acceptable.
pub open spec fn registration_valid(req: &RegisterRequest) -> bool {
    trimmed(req.username@).len() > 0 && encode_utf8(req.password@).len() as usize >= 6
}

/// Builds the profile that a registration stores, once the store has said
/// whether the trimmed username is taken. The new user gets a fresh random
/// id and the hash of the password; the display name defaults to the
/// username. Fails where the fields are invalid, where the username is
/// taken, and where hashing fails.
pub fn register_profile(req: &RegisterRequest, username_taken: bool) -> (r: Result<
    NewProfile,
    ApiError,
>)
    ensures
        trimmed(req.username@).len() == 0 ==> r is Err && is_error(
            r->Err_0,
            ApiErrorKind::BadRequest,
            "Username cannot be empty"@,
        ),
        trimmed(req.username@).len() > 0 && (encode_utf8(req.password@).len() as usize) < 6 ==> r is Err
            && is_error(r->Err_0, ApiErrorKind::BadRequest, "Password must be at least 6 characters"@),
        registration_valid(req) && username_taken ==> r is Err && is_error(
            r->Err_0,
            ApiErrorKind::BadRequest,
            "Username is already taken"@,
        ),
        registration_valid(req) && !username_taken && encode_utf8(req.password@).len() <= 0xFFFF_FFFF
            ==> r is Ok,
        r is Err && registration_valid(req) && !username_taken ==> is_error(
            r->Err_0,
            ApiErrorKind::Internal,
            "Password processing failed"@,
        ),
        r is Ok ==> {
            &&& registration_valid(req) && !username_taken
            &&& r->Ok_0.username@ == trimmed(req.username@)
            &&& r->Ok_0.display_name@ == match req.display_name {
                Some(d) => d@,
                None => trimmed(req.username@),
            }
            &&& password_check(req.password@, r->Ok_0.password_hash@) == Some(true)
        },
{
    let username = match validate_registration(req.username.as_str(), req.password.as_str()) {
        Ok(u) => u,
        Err(e) => return Err(e),
    };
    if username_taken {
        return Err(ApiError::bad_request("Username is already taken"));
    }
    let password_hash = match hash_password(req.password.as_str()) {
        Some(h) => h,
        None => return Err(ApiError::Internal(String::from_str("Password processing failed"))),
    };
    let display_name = match &req.display_name {
        Some(d) => d.clone(),
        None => username.clone(),
    };
    Ok(NewProfile { id: fresh_id(), username, password_hash, display_name })
}

/// Checks the fields of a login: neither the trimmed username nor the
/// password may be empty. Returns the trimmed username.
pub fn validate_login(req: &LoginRequest) -> (r: Result<String, ApiError>)
    ensures
        r is Ok <==> (trimmed(req.username@).len() > 0 && req.password@.len() > 0),
        r is Ok ==> r->Ok_0@ == trimmed(req.username@),
        r is Err ==> is_error(r->Err_0, ApiErrorKind::BadRequest, "Username and password are required"@),
{
    let name = trim_text(req.username.as_str());
    if name.is_empty() || req.password.as_str().is_empty() {
        return Err(ApiError::bad_request("Username and password are required"));
    }
    Ok(name.to_string())
}

/// Decides a login, given the stored credentials of the username, if it has
/// a profile: the user's id where the password matches its stored hash.
pub fn login_user(password: &str, found: Option<StoredCredentials>) -> (r: Result<u128, ApiError>)
    ensures
        match found {
            None => r is Err && r->Err_0 is InvalidCredentials,
            Some(c) => match c.password_hash {
                None => r is Err && is_error(r->Err_0, ApiErrorKind::Internal, "No password hash stored"@),
                Some(h) => match password_check(password@, h@) {
                    None => r is Err && is_error(r->Err_0, ApiErrorKind::Internal, "Bad stored hash"@),
                    Some(false) => r is Err && r->Err_0 is InvalidCredentials,
                    Some(true) => r == Ok::<u128, ApiError>(c.id),
                },
            },
        },
{
    let creds = match found {
        Some(c) => c,
        None => return Err(ApiError::InvalidCredentials),
    };
    let hash = match &creds.password_hash {
        Some(h) => h,
        None => return Err(ApiError::Internal(String::from_str("No password hash stored"))),
    };
    match check_password(password, hash.as_str()) {
        None => Err(ApiError::Internal(String::from_str("Bad stored hash"))),
        Some(false) => Err(ApiError::InvalidCredentials),
        Some(true) => Ok(creds.id),
    }
}

} // verus!
