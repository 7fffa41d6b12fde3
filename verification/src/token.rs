//! The token service: issuing and checking signed bearer tokens. A token
//! encodes the subject's id and username, the issue and expiry timestamps,
//! and the session identifier that ties it to the subject's current login
//! session. Signing and signature checking are done by an outside crate
//! behind the trusted wrappers below; what signing produces for given
//! claims and a given secret is named by `token_of`. Expiry is checked here
//! against an
//! injected clock, never against ambient time; the revocation check against
//! the store is a separate phase (`verify_token`).

use vstd::prelude::*;

use jsonwebtoken::errors::ErrorKind;
use jsonwebtoken::{Algorithm, DecodingKey, EncodingKey, Header, Validation};

use crate::store::{Store, User};
use crate::users::LoginInfoDTO;

verus! {

/// The validity window of a token: the number of seconds in a week.
pub const ONE_WEEK: u64 = 604800;

/// The claim set carried by a bearer token.
pub struct UserToken {
    /// Issued at, in whole seconds since the epoch.
    pub iat: u64,
    /// Expiry, in whole seconds since the epoch; `now >= exp` means expired.
    pub exp: u64,
    /// The subject's user id.
    pub id: i32,
    /// The subject's username.
    pub username: String,
    /// The session identifier the subject held when the token was issued.
    pub session: u64,
}

/// Why a token was rejected. All four are surfaced to the client alike, as a
/// generic authentication failure.
#[derive(Clone, Copy, Debug, PartialEq, Eq, Structural)]
pub enum TokenError {
    /// The string does not parse as a token.
    Malformed,
    /// The signature does not match the secret.
    BadSignature,
    /// The expiry timestamp has passed.
    Expired,
    /// The session identifier has been superseded by a later login.
    Revoked,
}

/// The token string that signing produces for these claims and this secret:
/// a fixed header, the claims as a JSON object, and an HMAC-SHA256
/// signature, each of them a deterministic function of the arguments alone.
pub uninterp spec fn token_of(
    iat: u64,
    exp: u64,
    id: i32,
    username: Seq<char>,
    session: u64,
    secret: Seq<u8>,
) -> Seq<char>;

/// Relies on jsonwebtoken::encode with the default (HS256) header and a
/// JSON object holding the five claims. Its output is derived from the
/// serialized header and claims and the HMAC-SHA256 signature over them,
/// all deterministic in the arguments, so it is `token_of` of them. For an
/// HMAC key and a string-keyed JSON object none of its steps can fail, so
/// the error branch is never taken.
#[verifier::external_body]
fn encode_claims(
    iat: u64,
    exp: u64,
    id: i32,
    username: &String,
    session: u64,
    secret: &Vec<u8>,
) -> (r: String)
    ensures
        r@ == token_of(iat, exp, id, username@, session, secret@),
{
    let mut claims = serde_json::Map::new();
    claims.insert("exp".to_string(), serde_json::Value::from(exp));
    claims.insert("iat".to_string(), serde_json::Value::from(iat));
    claims.insert("id".to_string(), serde_json::Value::from(id));
    claims.insert("session".to_string(), serde_json::Value::from(session));
    claims.insert("username".to_string(), serde_json::Value::from(username.as_str()));
    let key = EncodingKey::from_secret(secret.as_slice());
    jsonwebtoken::encode(&Header::default(), &serde_json::Value::Object(claims), &key)
        .unwrap_or_default()
}

/// The canonical text of the claim set: what the claims object carrying
/// these five values prints as, with its keys in sorted order — a
/// deterministic function of the values alone.
pub uninterp spec fn claims_json_of(
    iat: u64,
    exp: u64,
    id: i32,
    username: Seq<char>,
    session: u64,
) -> Seq<char>;

/// Relies on jsonwebtoken::decode with expiry validation switched off, so
/// that no ambient clock is consulted: it accepts exactly the well-formed
/// HS256 tokens whose signature matches the secret — in particular
/// whatever `encode` produced for the same secret — and hands back the
/// decoded claims object, printed by serde_json to its canonical text. A
/// signature mismatch is the one error it reports apart from
/// malformedness.
#[verifier::external_body]
fn decode_claims_text(token: &str, secret: &Vec<u8>) -> (r: Result<String, TokenError>)
    ensures
        r matches Err(e) ==> (e is BadSignature || e is Malformed),
        r is Err ==> forall|iat: u64, exp: u64, id: i32, username: Seq<char>, session: u64|
            token@ != token_of(iat, exp, id, username, session, secret@),
        r matches Ok(s) ==> forall|iat: u64, exp: u64, id: i32, username: Seq<char>, session: u64|
            token@ == token_of(iat, exp, id, username, session, secret@) ==> s@ == claims_json_of(
                iat,
                exp,
                id,
                username,
                session,
            ),
{
    let mut validation = Validation::new(Algorithm::HS256);
    validation.validate_exp = false;
    let key = DecodingKey::from_secret(secret.as_slice());
    match jsonwebtoken::decode::<serde_json::Value>(token, &key, &validation) {
        Ok(data) => Ok(data.claims.to_string()),
        Err(e) => Err(
            match e.kind() {
                ErrorKind::InvalidSignature => TokenError::BadSignature,
                _ => TokenError::Malformed,
            },
        ),
    }
}

/// Relies on serde_json to parse the canonical claims text back to the
/// object it was printed from, and on its field accessors: the five claims
/// of a canonical text come back exactly as they were, and a text that is
/// not canonical — not an object, or missing or mistyping a claim — is
/// refused.
#[verifier::external_body]
fn parse_claims_text(s: &str) -> (r: Result<UserToken, TokenError>)
    ensures
        r matches Err(e) ==> e is Malformed,
        r is Err ==> forall|iat: u64, exp: u64, id: i32, username: Seq<char>, session: u64|
            s@ != claims_json_of(iat, exp, id, username, session),
        r matches Ok(c) ==> forall|iat: u64, exp: u64, id: i32, username: Seq<char>, session: u64|
            s@ == claims_json_of(iat, exp, id, username, session) ==> (c.iat == iat && c.exp == exp
                && c.id == id && c.username@ == username && c.session == session),
{
    let d: serde_json::Value = match serde_json::from_str(s) {
        Ok(v) => v,
        Err(_) => return Err(TokenError::Malformed),
    };
    let id = d["id"].as_i64().and_then(|x| i32::try_from(x).ok());
    match (d["iat"].as_u64(), d["exp"].as_u64(), id, d["session"].as_u64(), d["username"].as_str())
    {
        (Some(iat), Some(exp), Some(id), Some(session), Some(u)) => Ok(
            UserToken { iat, exp, id, username: u.to_string(), session },
        ),
        _ => Err(TokenError::Malformed),
    }
}

/// Decodes a token string: the signature phase, then the claims text.
fn decode_claims(token: &str, secret: &Vec<u8>) -> (r: Result<UserToken, TokenError>)
    ensures
        r matches Err(e) ==> (e is BadSignature || e is Malformed),
        r is Err ==> forall|iat: u64, exp: u64, id: i32, username: Seq<char>, session: u64|
            token@ != token_of(iat, exp, id, username, session, secret@),
        r matches Ok(c) ==> forall|iat: u64, exp: u64, id: i32, username: Seq<char>, session: u64|
            token@ == token_of(iat, exp, id, username, session, secret@) ==> (c.iat == iat
                && c.exp == exp && c.id == id && c.username@ == username && c.session == session),
{
    let text = match decode_claims_text(token, secret) {
        Ok(s) => s,
        Err(e) => {
            return Err(e);
        },
    };
    match parse_claims_text(text.as_str()) {
        Ok(c) => {
            proof {
                assert forall|iat: u64, exp: u64, id: i32, username: Seq<char>, session: u64|
                    token@ == token_of(iat, exp, id, username, session, secret@) implies (c.iat
                    == iat && c.exp == exp && c.id == id && c.username@ == username && c.session
                    == session) by {
                    assert(text@ == claims_json_of(iat, exp, id, username, session));
                }
            }
            Ok(c)
        },
        Err(e) => {
            proof {
                assert forall|iat: u64, exp: u64, id: i32, username: Seq<char>, session: u64|
                    token@ != token_of(iat, exp, id, username, session, secret@) by {
                    if token@ == token_of(iat, exp, id, username, session, secret@) {
                        assert(text@ == claims_json_of(iat, exp, id, username, session));
                    }
                }
            }
            Err(e)
        },
    }
}

/// Encodes a token for the given login information: issued now, expiring a
/// week from now, carrying the identity and session of the login.
pub fn generate_token(login: LoginInfoDTO, now: u64, secret: &Vec<u8>) -> (r: String)
    requires
        now + ONE_WEEK <= u64::MAX,
    ensures
        r@ == token_of(
            now,
            (now + ONE_WEEK) as u64,
            login.id,
            login.username@,
            login.session,
            secret@,
        ),
{
    let exp = now + ONE_WEEK;
    encode_claims(now, exp, login.id, &login.username, login.session, secret)
}

/// Decodes the given string token into its claims, rejecting anything that
/// does not parse or whose signature does not match the secret.
pub fn decode_token(token: &str, secret: &Vec<u8>) -> (r: Result<UserToken, TokenError>)
    ensures
        forall|iat: u64, exp: u64, id: i32, username: Seq<char>, session: u64|
            token@ == token_of(iat, exp, id, username, session, secret@) ==> (r matches Ok(c)
                && c.iat == iat && c.exp == exp && c.id == id && c.username@ == username
                && c.session == session),
        r matches Err(e) ==> (e is BadSignature || e is Malformed),
{
    decode_claims(token, secret)
}

/// The cryptographic phase of verification: decode and check the signature,
/// then check expiry against the injected clock. A decoded token is expired
/// from the moment `now` reaches its expiry timestamp. The revocation phase
/// (`verify_token`) still has to follow before the claims are trusted.
pub fn verify(token: &str, secret: &Vec<u8>, now: u64) -> (r: Result<UserToken, TokenError>)
    ensures
        forall|iat: u64, exp: u64, id: i32, username: Seq<char>, session: u64|
            token@ == token_of(iat, exp, id, username, session, secret@) ==> if now >= exp {
                r == Result::<UserToken, TokenError>::Err(TokenError::Expired)
            } else {
                r matches Ok(c) && c.iat == iat && c.exp == exp && c.id == id && c.username@
                    == username && c.session == session
            },
        r matches Ok(c) ==> now < c.exp,
        r matches Err(e) ==> !(e is Revoked),
{
    match decode_claims(token, secret) {
        Ok(c) => {
            if now >= c.exp {
                Err(TokenError::Expired)
            } else {
                Ok(c)
            }
        },
        Err(e) => Err(e),
    }
}

/// The liveness phase of verification: a cryptographically valid token is
/// honoured only while its session identifier is the one currently stored
/// on the subject's user record.
pub fn verify_token(token_data: &UserToken, store: &Store) -> (r: bool)
    ensures
        r == store.spec_token_live(*token_data),
{
    User::is_valid_login_token(token_data, store)
}

} // verus!
