//! JSON Web Tokens that name a user: building them and checking them.

use jsonwebtoken::errors::Error as JwtLibError;
use vstd::prelude::*;

verus! {

/// The issuer that the server writes into its tokens and asks of the tokens
/// it accepts.
pub const ISSUER: &'static str = "StandardNotesRustServer";

/// The expiry time, in seconds since the Unix epoch, that the server writes
/// into its tokens.
pub const _EXPIRATION_TIME: u64 = 10000000000;

#[verifier::external_type_specification]
#[verifier::external_body]
pub struct ExJwtLibError(JwtLibError);

/// The claims of a token: the user it names, its issuer and its expiry time.
#[derive(Debug)]
pub struct Claims {
    pub sub: String,
    pub iss: String,
    pub exp: u64,
}

/// A token as the API hands it out.
#[derive(Debug)]
pub struct Token {
    pub token: String,
}

/// Why a token could not be built or accepted.
#[derive(Debug)]
pub enum JwtError {
    /// The token library refused: a malformed token, a bad signature, a wrong
    /// issuer, an expired token, or a failure to encode.
    Token(JwtLibError),
    /// The token was accepted, but its claims have no string `sub`, no string
    /// `iss` or no non-negative integer `exp`.
    InvalidClaims,
}

/// The claims of a verified token as they were found: each is present only
/// where the token has it with the right JSON type.
#[derive(Debug)]
pub struct ClaimFields {
    pub sub: Option<String>,
    pub iss: Option<String>,
    pub exp: Option<u64>,
}

/// The number of `'.'` characters in `s`.
pub open spec fn dot_count(s: Seq<char>) -> nat
    decreases s.len(),
{
    if s.len() == 0 {
        0
    } else {
        dot_count(s.drop_last()) + if s.last() == '.' { 1nat } else { 0nat }
    }
}

/// The token that `jsonwebtoken::encode` makes with the default header
/// (HS256, type JWT) for the claims object `{"sub": sub, "iss": iss, "exp": exp}`,
/// in that order, signed with the HMAC secret `secret`.
pub uninterp spec fn jwt_encoding(sub: Seq<char>, iss: Seq<char>, exp: u64, secret: Seq<char>) -> Seq<char>;

/// The signature check that `jsonwebtoken::decode` makes of `token` under the
/// HMAC key `secret` with the default validation: the token's header segment
/// (before its first `'.'`) decodes to a header whose algorithm is HS256, and
/// `jsonwebtoken::crypto::verify` of the part after its last `'.'` (the
/// signature) over the part before it (the message) returns `Ok(true)`.
pub uninterp spec fn jwt_hs256_signed(token: Seq<char>, secret: Seq<char>) -> bool;

/// The member `name` of the JSON object in the payload of `token` (the
/// segment between its two `'.'`, base64url-decoded), as `jsonwebtoken::decode`
/// reads it into a `serde_json::Map` (a repeated member keeps its last
/// value), where that member is a JSON string.
pub uninterp spec fn jwt_claim_str(token: Seq<char>, name: Seq<char>) -> Option<Seq<char>>;

/// The member `name` of the JSON object in the payload of `token`, read as
/// for `jwt_claim_str`, where that member is a non-negative integer that fits
/// in a `u64`.
pub uninterp spec fn jwt_claim_u64(token: Seq<char>, name: Seq<char>) -> Option<u64>;

/// The view of an optional string.
pub open spec fn opt_str_view(s: Option<String>) -> Option<Seq<char>> {
    match s {
        Some(x) => Some(x@),
        None => None,
    }
}

/// What `encode` is shown to give: a token of three segments, signed under
/// `secret` with HS256, whose payload holds exactly the claims `sub`, `iss`
/// and `exp`.
pub open spec fn encodes_claims(t: Seq<char>, sub: Seq<char>, iss: Seq<char>, exp: u64, secret: Seq<char>) -> bool {
    &&& t == jwt_encoding(sub, iss, exp, secret)
    &&& dot_count(t) == 2
    &&& jwt_hs256_signed(t, secret)
    &&& jwt_claim_str(t, "sub"@) == Some(sub)
    &&& jwt_claim_str(t, "iss"@) == Some(iss)
    &&& jwt_claim_u64(t, "exp"@) == Some(exp)
}

/// Calls `jsonwebtoken::encode` with the default header, the claims
/// `{"sub", "iss", "exp"}` as a JSON object, and `secret` as HMAC key. Claimed:
/// it returns a token, since with an HMAC key and the default header
/// `encode` has no failing step (the key's family matches HS256, the header
/// and a map with string keys serialize, and HMAC signing returns `Ok`); the
/// token is `jwt_encoding` of the arguments, its three base64url segments
/// are joined by two dots, `decode`'s signature check holds of it under
/// `secret`, and its payload holds the three claims given.
#[verifier::external_body]
fn encode_claims(sub: &str, iss: &str, exp: u64, secret: &str) -> (res: Result<String, JwtLibError>)
    ensures
        res is Ok,
        res matches Ok(t) ==> encodes_claims(t@, sub@, iss@, exp, secret@),
{
    let mut claims = serde_json::Map::new();
    claims.insert(String::from("sub"), serde_json::Value::from(sub));
    claims.insert(String::from("iss"), serde_json::Value::from(iss));
    claims.insert(String::from("exp"), serde_json::Value::from(exp));
    let key = jsonwebtoken::EncodingKey::from_secret(secret.as_bytes());
    jsonwebtoken::encode(&jsonwebtoken::Header::default(), &claims, &key)
}

/// Calls `jsonwebtoken::decode` on `token` with `secret` as HMAC key and the
/// default validation (HS256, an `exp` that has not passed) asking for the
/// issuer `issuer`, and reads the claims `sub`, `iss` and `exp` of the token
/// it accepts. Claimed: an accepted token has exactly two dots (`decode`
/// splits it at its last two and refuses a header segment that is not
/// base64url), passes the signature check `jwt_hs256_signed`, has the issuer
/// `issuer` and an integer `exp`; the claims read are those of its payload;
/// and an accepted token that is `jwt_encoding(s, i, e, secret)` has exactly
/// the claims `s`, `i` and `e`. Whether a token that passes these checks is
/// accepted depends on the clock and is left unsaid.
#[verifier::external_body]
fn decode_claims(token: &str, secret: &str, issuer: &str) -> (res: Result<ClaimFields, JwtLibError>)
    ensures
        res is Ok ==> dot_count(token@) == 2 && jwt_hs256_signed(token@, secret@),
        res matches Ok(f) ==> {
            &&& opt_str_view(f.sub) == jwt_claim_str(token@, "sub"@)
            &&& opt_str_view(f.iss) == jwt_claim_str(token@, "iss"@)
            &&& f.exp == jwt_claim_u64(token@, "exp"@)
        },
        res matches Ok(f) ==> (f.iss matches Some(i) && i@ == issuer@),
        res matches Ok(f) ==> f.exp is Some,
        forall|s: Seq<char>, i: Seq<char>, e: u64|
            #[trigger] jwt_encoding(s, i, e, secret@) == token@ ==> (res matches Ok(f) ==> {
                &&& f.sub matches Some(x) && x@ == s
                &&& f.iss matches Some(y) && y@ == i
                &&& f.exp == Some(e)
            }),
{
    let validation = jsonwebtoken::Validation { iss: Some(issuer.to_string()), ..jsonwebtoken::Validation::default() };
    let key = jsonwebtoken::DecodingKey::from_secret(secret.as_bytes());
    let data = jsonwebtoken::decode::<serde_json::Map<String, serde_json::Value>>(token, &key, &validation)?;
    Ok(ClaimFields {
        sub: data.claims.get("sub").and_then(serde_json::Value::as_str).map(String::from),
        iss: data.claims.get("iss").and_then(serde_json::Value::as_str).map(String::from),
        exp: data.claims.get("exp").and_then(serde_json::Value::as_u64),
    })
}

/// Builds a token for `subject`, issued by `ISSUER`, that expires at
/// `_EXPIRATION_TIME`, signed with `secret`. It always succeeds, and the
/// token depends on `subject` and `secret` alone.
pub fn _build_jwt(subject: &str, secret: &str) -> (res: Result<String, JwtError>)
    ensures
        res matches Ok(t) && encodes_claims(t@, subject@, ISSUER@, _EXPIRATION_TIME, secret@),
{
    match encode_claims(subject, ISSUER, _EXPIRATION_TIME, secret) {
        Ok(token) => Ok(token),
        Err(e) => Err(JwtError::Token(e)),
    }
}

/// What the claims read from an accepted token make: the claims, where all
/// three are present.
pub open spec fn claims_of(fields: ClaimFields) -> Option<(Seq<char>, Seq<char>, u64)> {
    match (fields.sub, fields.iss, fields.exp) {
        (Some(sub), Some(iss), Some(exp)) => Some((sub@, iss@, exp)),
        _ => None,
    }
}

/// What the claims read by the token library give: its error where it
/// refused the token, `InvalidClaims` where a claim is missing, and else the
/// three claims.
pub open spec fn claims_from_found(found: Result<ClaimFields, JwtLibError>, res: Result<Claims, JwtError>) -> bool {
    &&& found matches Err(e) ==> res == Err::<Claims, JwtError>(JwtError::Token(e))
    &&& found matches Ok(f) ==> match claims_of(f) {
        Some((sub, iss, exp)) => (res matches Ok(c) && c.sub@ == sub && c.iss@ == iss && c.exp == exp),
        None => (res matches Err(e) && e is InvalidClaims),
    }
}

/// Turns what the token library found into the token's claims: its error
/// where it refused the token, `InvalidClaims` where a claim is missing, and
/// else the three claims.
pub fn claims_from_fields(found: Result<ClaimFields, JwtLibError>) -> (res: Result<Claims, JwtError>)
    ensures
        claims_from_found(found, res),
{
    match found {
        Err(e) => Err(JwtError::Token(e)),
        Ok(fields) => match (fields.sub, fields.iss, fields.exp) {
            (Some(sub), Some(iss), Some(exp)) => Ok(Claims { sub, iss, exp }),
            _ => Err(JwtError::InvalidClaims),
        },
    }
}

/// What holds of every result of checking `token` with `secret`: a token is
/// refused for a missing claim only where it passed every other check and its
/// payload has no string `sub`; an accepted token has exactly two dots, passes the HS256 signature check under
/// `secret`, and its payload holds the claims returned, with the issuer
/// `ISSUER` (so a token without a string `sub`, a string `iss` or an integer
/// `exp` is refused); and a token that was built by encoding claims with
/// `secret` gives back exactly those claims where it is accepted.
pub open spec fn decoded_from(token: Seq<char>, secret: Seq<char>, res: Result<Claims, JwtError>) -> bool {
    &&& res is Ok ==> dot_count(token) == 2 && jwt_hs256_signed(token, secret)
    &&& res matches Ok(c) ==> {
        &&& c.iss@ == ISSUER@
        &&& jwt_claim_str(token, "sub"@) == Some(c.sub@)
        &&& jwt_claim_str(token, "iss"@) == Some(c.iss@)
        &&& jwt_claim_u64(token, "exp"@) == Some(c.exp)
    }
    &&& res matches Err(JwtError::InvalidClaims) ==> {
        &&& dot_count(token) == 2
        &&& jwt_hs256_signed(token, secret)
        &&& jwt_claim_str(token, "iss"@) == Some(ISSUER@)
        &&& jwt_claim_u64(token, "exp"@) is Some
        &&& jwt_claim_str(token, "sub"@) is None
    }
    &&& forall|s: Seq<char>, i: Seq<char>, e: u64|
        #[trigger] jwt_encoding(s, i, e, secret) == token ==> (res matches Ok(c) ==> c.sub@ == s && c.iss@ == i && c.exp == e)
}

/// Checks `token` against `secret` and `ISSUER` and returns its claims.
pub fn decode_jwt(token: &str, secret: &str) -> (res: Result<Claims, JwtError>)
    ensures
        decoded_from(token@, secret@, res),
{
    let found = decode_claims(token, secret, ISSUER);
    claims_from_fields(found)
}

/// A token built for a subject, when it is accepted, names that subject, the
/// issuer `ISSUER` and the expiry time `_EXPIRATION_TIME`.
pub proof fn lemma_build_then_decode(subject: Seq<char>, secret: Seq<char>, res: Result<Claims, JwtError>)
    requires
        decoded_from(jwt_encoding(subject, ISSUER@, _EXPIRATION_TIME, secret), secret, res),
    ensures
        res matches Ok(c) ==> c.sub@ == subject && c.iss@ == ISSUER@ && c.exp == _EXPIRATION_TIME,
{
    let t = jwt_encoding(subject, ISSUER@, _EXPIRATION_TIME, secret);
    assert(jwt_encoding(subject, ISSUER@, _EXPIRATION_TIME, secret) == t);
}


/// A token built by `_build_jwt` for `subject` and checked with the same
/// secret is never refused for a missing claim: it is either accepted, naming
/// `subject`, `ISSUER` and `_EXPIRATION_TIME`, or refused by the token library
/// (which alone reads the clock).
pub proof fn lemma_built_token_is_accepted_or_refused_by_library(
    token: Seq<char>,
    subject: Seq<char>,
    secret: Seq<char>,
    res: Result<Claims, JwtError>,
)
    requires
        encodes_claims(token, subject, ISSUER@, _EXPIRATION_TIME, secret),
        decoded_from(token, secret, res),
    ensures
        !(res matches Err(JwtError::InvalidClaims)),
        res matches Ok(c) ==> c.sub@ == subject && c.iss@ == ISSUER@ && c.exp == _EXPIRATION_TIME,
{
}

} // verus!
