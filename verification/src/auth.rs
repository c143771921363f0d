//! Admin authentication: one configured admin, a bcrypt-checked password,
//! and JWT bearer tokens signed with a configured secret.

use vstd::prelude::*;
use crate::text::{concat2, str_chars, string_from_chars};

verus! {

/// The claims a token carries.
pub struct Claims {
    /// Subject: the admin's email.
    pub sub: String,
    /// Expiration time, seconds since the Unix epoch.
    pub exp: u64,
    /// Issue time, seconds since the Unix epoch.
    pub iat: u64,
}

/// The authentication configuration: the one admin identity and the token
/// secret.
pub struct AuthConfig {
    pub admin_email: String,
    pub admin_password_hash: String,
    pub jwt_secret: String,
    pub jwt_expiry_hours: u64,
}

/// Why an authentication step failed.
#[derive(Debug)]
pub enum AuthError {
    InvalidCredentials,
    InvalidToken,
    TokenGenerationFailed,
    Unauthorized,
}

/// A login request body.
pub struct LoginRequest {
    pub email: String,
    pub password: String,
}

/// A successful login response.
pub struct LoginResponse {
    pub token: String,
    pub expires_in: u64,
    pub token_type: String,
}

/// The user a verified token identifies.
pub struct UserInfo {
    pub email: String,
}

/// Whether `bcrypt::verify(password, hash)` accepts the pair; deterministic
/// in the two arguments.
pub uninterp spec fn bcrypt_matches(password: Seq<char>, hash: Seq<char>) -> bool;

/// The HS256 token jsonwebtoken derives from these claims and this secret;
/// deterministic in the arguments.
pub uninterp spec fn token_of(sub: Seq<char>, exp: int, iat: int, secret: Seq<char>) -> Seq<char>;

/// The claims a token carries under a secret, if it is a well-formed token
/// signed with that secret; deterministic in the two arguments.
pub uninterp spec fn claims_in(token: Seq<char>, secret: Seq<char>) -> Option<(Seq<char>, int, int)>;

/// Relies on bcrypt::hash with the default cost: on success, a fresh salted
/// hash that bcrypt::verify accepts for this password.
#[verifier::external_body]
fn bcrypt_hash(password: &String) -> (r: Option<String>)
    ensures
        r matches Some(h) ==> bcrypt_matches(password@, h@),
{
    bcrypt::hash(password.as_str(), bcrypt::DEFAULT_COST).ok()
}

/// Relies on bcrypt::verify: deterministic in password and hash; it errors
/// only on a hash it cannot parse.
#[verifier::external_body]
fn bcrypt_verify(password: &str, hash: &String) -> (r: Option<bool>)
    ensures
        r matches Some(b) ==> b == bcrypt_matches(password@, hash@),
{
    bcrypt::verify(password, hash.as_str()).ok()
}

/// Relies on jsonwebtoken::encode with the default header (HS256): the token
/// is a function of the claims and the secret alone.
#[verifier::external_body]
fn jwt_encode(sub: &String, exp: u64, iat: u64, secret: &String) -> (r: Option<String>)
    ensures
        r matches Some(t) ==> t@ == token_of(sub@, exp as int, iat as int, secret@),
{
    let mut claims = serde_json::Map::new();
    claims.insert("sub".to_string(), serde_json::Value::String(sub.clone()));
    claims.insert("exp".to_string(), serde_json::Value::from(exp));
    claims.insert("iat".to_string(), serde_json::Value::from(iat));
    jsonwebtoken::encode(
        &jsonwebtoken::Header::default(),
        &serde_json::Value::Object(claims),
        &jsonwebtoken::EncodingKey::from_secret(secret.as_bytes()),
    ).ok()
}

/// Relies on jsonwebtoken::decode with default validation (HS256, expiry
/// checked against the clock): a returned claim set is the one the token
/// carries under this secret; whether one is returned also depends on time.
#[verifier::external_body]
fn jwt_decode(token: &str, secret: &String) -> (r: Option<(String, u64, u64)>)
    ensures
        r matches Some(c) ==> claims_in(token@, secret@) == Some((c.0@, c.1 as int, c.2 as int)),
{
    let data = jsonwebtoken::decode::<serde_json::Value>(
        token,
        &jsonwebtoken::DecodingKey::from_secret(secret.as_bytes()),
        &jsonwebtoken::Validation::default(),
    ).ok()?;
    let sub = data.claims.get("sub")?.as_str()?.to_string();
    let exp = data.claims.get("exp")?.as_u64()?;
    let iat = data.claims.get("iat")?.as_u64()?;
    Some((sub, exp, iat))
}

/// Relies on SystemTime::now: the clock's seconds since the Unix epoch, or
/// zero where the clock reads earlier than that.
#[verifier::external_body]
fn now_unix_secs() -> (r: u64)
{
    match std::time::SystemTime::now().duration_since(std::time::UNIX_EPOCH) {
        Ok(d) => d.as_secs(),
        Err(_) => 0,
    }
}

impl AuthConfig {
    /// Builds the configuration: hashes the admin password and takes the
    /// given token secret, or derives one from the password where none is
    /// configured. `None` only where hashing itself failed.
    pub fn from_env(admin_email: String, admin_password: String, jwt_secret: Option<String>) -> (r:
        Option<AuthConfig>)
        ensures
            r matches Some(cfg) ==> {
                &&& cfg.admin_email@ == admin_email@
                &&& bcrypt_matches(admin_password@, cfg.admin_password_hash@)
                &&& cfg.jwt_secret@ == match jwt_secret {
                    Some(s) => s@,
                    None => "portfolio-jwt-secret-"@ + admin_password@,
                }
                &&& cfg.jwt_expiry_hours == 24
            },
    {
        let admin_password_hash = match bcrypt_hash(&admin_password) {
            Some(h) => h,
            None => { return None },
        };
        let jwt_secret = match jwt_secret {
            Some(s) => s,
            None => concat2("portfolio-jwt-secret-", admin_password.as_str()),
        };
        Some(
            AuthConfig {
                admin_email,
                admin_password_hash,
                jwt_secret,
                jwt_expiry_hours: 24,
            },
        )
    }

    /// Checks the email and password against the configured admin and, where
    /// both match, issues a token. A wrong email or a rejected password is
    /// `InvalidCredentials`; a token can fail to be issued only as
    /// `TokenGenerationFailed`.
    pub fn authenticate(&self, email: &str, password: &str) -> (r: Result<String, AuthError>)
        ensures
            r matches Ok(t) ==> {
                &&& email@ == self.admin_email@
                &&& bcrypt_matches(password@, self.admin_password_hash@)
                &&& issued_token(*self, email@, t@)
            },
            email@ != self.admin_email@ ==> (r matches Err(e) && e is InvalidCredentials),
            email@ == self.admin_email@ && !bcrypt_matches(password@, self.admin_password_hash@)
                ==> (r matches Err(e) && e is InvalidCredentials),
            r matches Err(e) ==> (e is InvalidCredentials || e is TokenGenerationFailed),
    {
        if !crate::text::str_eq(email, self.admin_email.as_str()) {
            return Err(AuthError::InvalidCredentials);
        }
        let password_ok = match bcrypt_verify(password, &self.admin_password_hash) {
            Some(b) => b,
            None => false,
        };
        if !password_ok {
            return Err(AuthError::InvalidCredentials);
        }
        self.generate_token(email)
    }

    /// Issues a token for `email` with the configured expiry window.
    fn generate_token(&self, email: &str) -> (r: Result<String, AuthError>)
        ensures
            r matches Ok(t) ==> issued_token(*self, email@, t@),
            r matches Err(e) ==> e is TokenGenerationFailed,
    {
        let now = now_unix_secs();
        let window = match self.jwt_expiry_hours.checked_mul(3600) {
            Some(w) => w,
            None => { return Err(AuthError::TokenGenerationFailed) },
        };
        let expiry = match now.checked_add(window) {
            Some(e) => e,
            None => { return Err(AuthError::TokenGenerationFailed) },
        };
        let sub = email.to_owned();
        match jwt_encode(&sub, expiry, now, &self.jwt_secret) {
            Some(t) => {
                proof {
                    assert(token_of(
                        email@,
                        now + self.jwt_expiry_hours * 3600,
                        now as int,
                        self.jwt_secret@,
                    ) == t@);
                }
                Ok(t)
            },
            None => Err(AuthError::TokenGenerationFailed),
        }
    }

    /// Verifies a bearer token and returns its claims; any rejection is
    /// `InvalidToken`.
    pub fn verify_token(&self, token: &str) -> (r: Result<Claims, AuthError>)
        ensures
            r matches Ok(c) ==> claims_in(token@, self.jwt_secret@) == Some(
                (c.sub@, c.exp as int, c.iat as int),
            ),
            r matches Err(e) ==> e is InvalidToken,
    {
        match jwt_decode(token, &self.jwt_secret) {
            Some((sub, exp, iat)) => Ok(Claims { sub, exp, iat }),
            None => Err(AuthError::InvalidToken),
        }
    }

    /// Whether the claims identify the configured admin.
    pub fn is_admin(&self, claims: &Claims) -> (r: bool)
        ensures
            r == (claims.sub@ == self.admin_email@),
    {
        claims.sub == self.admin_email
    }
}

/// The token was issued for `sub` under this configuration: signed with its
/// secret, expiring one configured window after some issue time.
pub open spec fn issued_token(cfg: AuthConfig, sub: Seq<char>, token: Seq<char>) -> bool {
    exists|iat: int|
        0 <= iat && #[trigger] token_of(
            sub,
            iat + cfg.jwt_expiry_hours * 3600,
            iat,
            cfg.jwt_secret@,
        ) == token
}

/// The token part of an `Authorization` header: the rest of the header after
/// the exact prefix `Bearer `, where the header has it.
pub fn bearer_token(header: &str) -> (r: Option<String>)
    ensures
        match r {
            Some(t) => header@.len() >= 7 && header@.subrange(0, 7) == "Bearer "@ && t@
                == header@.skip(7),
            None => !(header@.len() >= 7 && header@.subrange(0, 7) == "Bearer "@),
        },
{
    proof {
        reveal_strlit("Bearer ");
    }
    let cs = str_chars(header);
    if cs.len() < 7 {
        return None;
    }
    if cs[0] == 'B' && cs[1] == 'e' && cs[2] == 'a' && cs[3] == 'r' && cs[4] == 'e' && cs[5] == 'r'
        && cs[6] == ' ' {
        let mut rest: Vec<char> = Vec::new();
        let mut i: usize = 7;
        while i < cs.len()
            invariant
                7 <= i <= cs@.len(),
                cs@ == header@,
                rest@ == header@.subrange(7, i as int),
            decreases cs@.len() - i,
        {
            rest.push(cs[i]);
            proof {
                assert(header@.subrange(7, i + 1) =~= header@.subrange(7, i as int).push(
                    header@[i as int],
                ));
            }
            i = i + 1;
        }
        proof {
            assert(header@.subrange(0, 7) =~= "Bearer "@);
            assert(rest@ =~= header@.skip(7));
        }
        Some(string_from_chars(&rest))
    } else {
        proof {
            let sub = header@.subrange(0, 7);
            assert(sub[0] == header@[0]);
            assert(sub[1] == header@[1]);
            assert(sub[2] == header@[2]);
            assert(sub[3] == header@[3]);
            assert(sub[4] == header@[4]);
            assert(sub[5] == header@[5]);
            assert(sub[6] == header@[6]);
            assert(sub != "Bearer "@);
        }
        None
    }
}

} // verus!
