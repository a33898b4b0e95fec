//! Identity tokens: compact HS256-signed assertions of a subject, the
//! moment of issue and the moment of expiry.

use crate::identity::{uuid_text, UserId};
use jsonwebtoken::errors::ErrorKind;
use jsonwebtoken::{decode, encode, Algorithm, DecodingKey, EncodingKey, Header, Validation};
use serde_json::Value;
use vstd::prelude::*;
use vstd::string::*;

verus! {

/// The `jsonwebtoken` crate's error type, carried through unread.
#[verifier::external_type_specification]
#[verifier::external_body]
pub struct ExTokenLibraryError(jsonwebtoken::errors::Error);

/// How long a token lives, in seconds: 24 hours.
pub const TOKEN_LIFETIME_SECONDS: usize = 86400;

/// The payload of a token.
#[derive(Debug)]
pub struct Claims {
    /// The subject: the text of a user identifier.
    pub sub: String,
    /// Expiry, in seconds since the epoch.
    pub exp: usize,
    /// Moment of issue, in seconds since the epoch.
    pub iat: usize,
}

/// The mathematical content of `Claims`.
pub struct ClaimsView {
    pub sub: Seq<char>,
    pub exp: nat,
    pub iat: nat,
}

impl View for Claims {
    type V = ClaimsView;

    open spec fn view(&self) -> ClaimsView {
        ClaimsView { sub: self.sub@, exp: self.exp as nat, iat: self.iat as nat }
    }
}

/// The claims as they stand in a payload whose signature has been checked:
/// each of the three may be absent or of another JSON type.
#[derive(Debug)]
pub struct RawClaims {
    pub sub: Option<String>,
    pub exp: Option<u64>,
    pub iat: Option<u64>,
}

/// The mathematical content of `RawClaims`.
pub struct RawClaimsView {
    pub sub: Option<Seq<char>>,
    pub exp: Option<u64>,
    pub iat: Option<u64>,
}

impl View for RawClaims {
    type V = RawClaimsView;

    open spec fn view(&self) -> RawClaimsView {
        RawClaimsView {
            sub: match self.sub {
                Some(s) => Some(s@),
                None => None,
            },
            exp: self.exp,
            iat: self.iat,
        }
    }
}

/// Why the token library refused a token.
#[derive(Clone, Copy, Debug, PartialEq, Eq, Structural)]
pub enum DecodeFailure {
    /// The text is not three segments joined by dots.
    InvalidToken,
    /// The signature does not belong to the first two segments under the key.
    InvalidSignature,
    /// The header names an algorithm other than HS256.
    InvalidAlgorithm,
    /// Anything else: bad base64, bad JSON, an unknown algorithm name, a
    /// missing `exp`, an unexpected audience.
    Other,
}

/// Why a token was not accepted.
#[derive(Clone, Copy, Debug, PartialEq, Eq, Structural)]
pub enum TokenError {
    InvalidSignature,
    Expired,
    Malformed,
}

/// Why no token was issued.
#[derive(Clone, Copy, Debug, PartialEq, Eq, Structural)]
pub enum IssueError {
    /// The clock is before the epoch, or so late that the expiry cannot be
    /// represented.
    ClockOutOfRange,
    /// The token library failed to sign.
    SigningFailed,
}

/// What `jsonwebtoken::decode` makes of a token under a secret key when it
/// accepts HS256 only and leaves the expiry to the caller: the claims `sub`,
/// `exp` and `iat` of a payload whose signature holds, or the reason for
/// refusing the token.
pub uninterp spec fn jwt_decoded(token: Seq<char>, secret: Seq<char>) -> Result<
    RawClaimsView,
    DecodeFailure,
>;

/// The view of a decoding result.
pub open spec fn decoded_view(decoded: Result<RawClaims, DecodeFailure>) -> Result<
    RawClaimsView,
    DecodeFailure,
> {
    match decoded {
        Ok(raw) => Ok(raw@),
        Err(e) => Err(e),
    }
}

/// The raw form in which a payload carries well-formed claims.
pub open spec fn raw_of(claims: ClaimsView) -> RawClaimsView {
    RawClaimsView {
        sub: Some(claims.sub),
        exp: Some(claims.exp as u64),
        iat: Some(claims.iat as u64),
    }
}

/// Whether a character belongs to the URL-safe base64 alphabet.
pub open spec fn is_base64url_char(c: char) -> bool {
    ('A' <= c && c <= 'Z') || ('a' <= c && c <= 'z') || ('0' <= c && c <= '9') || c == '-' || c
        == '_'
}

/// Whether a text has the compact form of a token with dots at `first` and
/// `second`: three segments, none of them empty, of URL-safe base64
/// characters.
pub open spec fn is_compact_at(token: Seq<char>, first: int, second: int) -> bool {
    &&& 0 < first
    &&& first + 1 < second
    &&& second + 1 < token.len()
    &&& token[first] == '.'
    &&& token[second] == '.'
    &&& forall|k: int|
        0 <= k < token.len() && k != first && k != second ==> is_base64url_char(#[trigger] token[k])
}

/// Whether a text has the compact form of a token: header, claims and
/// signature, each in URL-safe base64 without padding, joined by two dots.
pub open spec fn is_compact_token(token: Seq<char>) -> bool {
    exists|first: int, second: int| is_compact_at(token, first, second)
}

/// Tells whether a text has the compact form of a token.
pub fn has_compact_form(token: &str) -> (r: bool)
    ensures
        r == is_compact_token(token@),
{
    let n: usize = token.unicode_len();
    let mut dots: usize = 0;
    let mut first: usize = 0;
    let mut second: usize = 0;
    let mut i: usize = 0;
    while i < n
        invariant
            n == token@.len(),
            i <= n,
            dots <= 2,
            forall|k: int| 0 <= k < i ==> token@[k] == '.' || is_base64url_char(#[trigger] token@[k]),
            dots == 0 ==> forall|k: int| 0 <= k < i ==> #[trigger] token@[k] != '.',
            dots >= 1 ==> first < i && token@[first as int] == '.',
            dots == 1 ==> forall|k: int| 0 <= k < i && k != first ==> #[trigger] token@[k] != '.',
            dots == 2 ==> first < second && second < i && token@[second as int] == '.',
            dots == 2 ==> forall|k: int|
                0 <= k < i && k != first && k != second ==> #[trigger] token@[k] != '.',
        decreases n - i,
    {
        let c: char = token.get_char(i);
        if c == '.' {
            if dots == 2 {
                assert forall|a: int, b: int| !is_compact_at(token@, a, b) by {
                    if is_compact_at(token@, a, b) {
                        assert(is_base64url_char(token@[first as int]) || a == first || b == first);
                        assert(is_base64url_char(token@[second as int]) || a == second || b
                            == second);
                        assert(is_base64url_char(token@[i as int]) || a == i || b == i);
                    }
                }
                return false;
            }
            if dots == 0 {
                first = i;
            } else {
                second = i;
            }
            dots = dots + 1;
        } else if !((c >= 'A' && c <= 'Z') || (c >= 'a' && c <= 'z') || (c >= '0' && c <= '9')
            || c == '-' || c == '_') {
            assert forall|a: int, b: int| !is_compact_at(token@, a, b) by {
                if is_compact_at(token@, a, b) {
                    assert(is_base64url_char(token@[i as int]) || a == i || b == i);
                }
            }
            return false;
        }
        i = i + 1;
    }
    if dots == 2 && 0 < first && first + 1 < second && second + 1 < n {
        assert(is_compact_at(token@, first as int, second as int));
        true
    } else {
        assert forall|a: int, b: int| !is_compact_at(token@, a, b) by {
            if is_compact_at(token@, a, b) {
                if dots == 0 {
                    assert(token@[a] != '.');
                } else if dots == 1 {
                    assert(token@[a] != '.' || a == first);
                    assert(token@[b] != '.' || b == first);
                } else {
                    assert(token@[a] != '.' || a == first || a == second);
                    assert(token@[b] != '.' || b == first || b == second);
                }
            }
        }
        false
    }
}

/// The signature scheme that the header of a token names.
#[derive(Clone, Copy, Debug, PartialEq, Eq, Structural)]
pub enum SigningAlgorithm {
    /// HMAC with SHA-256: the one scheme that tokens of this library use.
    Hs256,
    /// HMAC with SHA-384.
    Hs384,
    /// HMAC with SHA-512.
    Hs512,
    /// ECDSA, with any digest.
    Ecdsa,
    /// RSA with PKCS #1 v1.5 padding, with any digest.
    RsaPkcs1,
    /// RSA with PSS padding, with any digest.
    RsaPss,
    /// The Edwards-curve scheme.
    EdDsa,
}

/// What `jsonwebtoken::decode_header` reads from a token, as far as the
/// scheme goes: the scheme that the header names, or `None` where the text
/// has no header that can be read (fewer than three segments, a first
/// segment that is not base64 of a JSON header, a scheme that the token
/// library does not know, `none` among them).
pub uninterp spec fn jwt_header_algorithm(token: Seq<char>) -> Option<SigningAlgorithm>;

/// Calls `jsonwebtoken::decode_header` and tells the variants of the
/// header's `alg` apart, by family beyond HMAC. Checks no signature.
/// Trusted: the result is what `jwt_header_algorithm` names.
#[verifier::external_body]
fn read_header_algorithm(token: &str) -> (r: Option<SigningAlgorithm>)
    ensures
        r == jwt_header_algorithm(token@),
{
    match jsonwebtoken::decode_header(token) {
        Err(_) => None,
        Ok(header) => Some(match header.alg {
            Algorithm::HS256 => SigningAlgorithm::Hs256,
            Algorithm::HS384 => SigningAlgorithm::Hs384,
            Algorithm::HS512 => SigningAlgorithm::Hs512,
            Algorithm::ES256 | Algorithm::ES384 => SigningAlgorithm::Ecdsa,
            Algorithm::RS256 | Algorithm::RS384 | Algorithm::RS512 => SigningAlgorithm::RsaPkcs1,
            Algorithm::PS256 | Algorithm::PS384 | Algorithm::PS512 => SigningAlgorithm::RsaPss,
            Algorithm::EdDSA => SigningAlgorithm::EdDsa,
        }),
    }
}

/// Calls `jsonwebtoken::decode` with `Validation::new(Algorithm::HS256)`,
/// expiry validation switched off, and a key made by
/// `DecodingKey::from_secret`; reads the three claims out of the JSON
/// payload. With expiry validation off the call reads no clock. Trusted: the
/// result is what `jwt_decoded` names.
#[verifier::external_body]
fn decode_hs256(token: &str, secret: &str) -> (r: Result<RawClaims, DecodeFailure>)
    ensures
        decoded_view(r) == jwt_decoded(token@, secret@),
{
    let mut rules = Validation::new(Algorithm::HS256);
    rules.validate_exp = false;
    match decode::<Value>(token, &DecodingKey::from_secret(secret.as_bytes()), &rules) {
        Ok(data) => Ok(RawClaims {
            sub: data.claims["sub"].as_str().map(String::from),
            exp: data.claims["exp"].as_u64(),
            iat: data.claims["iat"].as_u64(),
        }),
        Err(e) => Err(match e.kind() {
            ErrorKind::InvalidToken => DecodeFailure::InvalidToken,
            ErrorKind::InvalidSignature => DecodeFailure::InvalidSignature,
            ErrorKind::InvalidAlgorithm => DecodeFailure::InvalidAlgorithm,
            _ => DecodeFailure::Other,
        }),
    }
}

/// The compact token that `jsonwebtoken::encode` makes of the three claims
/// under a secret key, with the header that `Header::default()` gives.
pub uninterp spec fn jwt_encoded(claims: ClaimsView, secret: Seq<char>) -> Seq<char>;

/// Calls `jsonwebtoken::encode` with `Header::default()` (HS256), a JSON
/// object of the three claims, and a key made by
/// `EncodingKey::from_secret`. Trusted:
/// - the call succeeds: `encode` fails only where the key's family is not
///   the header's, where the payload cannot be serialised, or where signing
///   fails, and none of these arises for a secret key under HS256 and a JSON
///   object of one text and two numbers;
/// - the token is what `jwt_encoded` names;
/// - it has the compact form (`encode` joins the base64 of header and
///   claims and the base64 of the signature with dots);
/// - its header names HS256, which is what `Header::default()` holds;
/// - it decodes, under the same secret, to the claims that went in.
#[verifier::external_body]
fn encode_hs256(claims: &Claims, secret: &str) -> (r: Result<String, jsonwebtoken::errors::Error>)
    ensures
        r is Ok,
        r matches Ok(t) ==> t@ == jwt_encoded(claims@, secret@),
        r matches Ok(t) ==> jwt_header_algorithm(t@) == Some(SigningAlgorithm::Hs256),
        r matches Ok(t) ==> (jwt_decoded(t@, secret@) matches Ok(raw) && raw == raw_of(claims@)),
        r matches Ok(t) ==> is_compact_token(t@),
{
    let mut payload = serde_json::Map::new();
    payload.insert(String::from("sub"), Value::from(claims.sub.as_str()));
    payload.insert(String::from("exp"), Value::from(claims.exp));
    payload.insert(String::from("iat"), Value::from(claims.iat));
    encode(&Header::default(), &payload, &EncodingKey::from_secret(secret.as_bytes()))
}

/// Reads the system clock with `std::time::SystemTime::now`, converts it
/// with `chrono`'s `From<SystemTime>` for `DateTime<Utc>` and takes its
/// `timestamp`: seconds since the epoch, negative before it. Nothing is
/// promised of the value. (The conversion gives up only on a clock beyond
/// the years that `chrono` can represent.)
#[verifier::external_body]
pub(crate) fn current_timestamp() -> i64 {
    chrono::DateTime::<chrono::Utc>::from(std::time::SystemTime::now()).timestamp()
}

/// Whether a token can be issued at `now`: the clock is not before the
/// epoch, and the expiry is representable.
pub open spec fn clock_in_range(now: i64) -> bool {
    0 <= now && now + TOKEN_LIFETIME_SECONDS <= usize::MAX
}

/// The claims of a token issued for `user_id` at `now`.
pub open spec fn issued_claims(user_id: UserId, now: i64) -> ClaimsView {
    ClaimsView {
        sub: uuid_text(user_id.value),
        exp: (now + TOKEN_LIFETIME_SECONDS) as nat,
        iat: now as nat,
    }
}

/// Whether a payload's expiry lies before `now`.
pub open spec fn is_expired(exp: u64, now: i64) -> bool {
    exp < now
}

/// What verification answers at `now` for each result of decoding.
///
/// A signature that does not hold is `InvalidSignature`, any other refusal
/// `Malformed`. Of a decoded payload the expiry is judged first, with no
/// tolerance: an `exp` before `now` is `Expired`. Then the shape: `sub`,
/// `exp` and `iat` must all be there and the two times representable, and
/// `sub` must spell a user identifier; otherwise `Malformed`.
pub open spec fn verify_outcome(decoded: Result<RawClaimsView, DecodeFailure>, now: i64) -> Result<
    ClaimsView,
    TokenError,
> {
    match decoded {
        Err(DecodeFailure::InvalidSignature) => Err(TokenError::InvalidSignature),
        Err(_) => Err(TokenError::Malformed),
        Ok(raw) => {
            if raw.exp is Some && is_expired(raw.exp->0, now) {
                Err(TokenError::Expired)
            } else if raw.sub is None || raw.exp is None || raw.iat is None {
                Err(TokenError::Malformed)
            } else if raw.exp->0 > usize::MAX || raw.iat->0 > usize::MAX {
                Err(TokenError::Malformed)
            } else if UserId::spelled_by(raw.sub->0) is None {
                Err(TokenError::Malformed)
            } else {
                Ok(ClaimsView { sub: raw.sub->0, exp: raw.exp->0 as nat, iat: raw.iat->0 as nat })
            }
        },
    }
}

/// Whether a header's scheme is the one that this library accepts: the
/// header can be read and names HS256.
pub open spec fn is_accepted_algorithm(algorithm: Option<SigningAlgorithm>) -> bool {
    algorithm == Some(SigningAlgorithm::Hs256)
}

/// What verification answers at `now` for a token under a secret.
///
/// The header is judged first, before any signature is looked at: a token
/// whose header cannot be read, or names a scheme other than HS256, is
/// `Malformed`. Else the answer is `verify_outcome` of what decoding gives.
pub open spec fn token_outcome(token: Seq<char>, secret: Seq<char>, now: i64) -> Result<
    ClaimsView,
    TokenError,
> {
    if !is_accepted_algorithm(jwt_header_algorithm(token)) {
        Err(TokenError::Malformed)
    } else {
        verify_outcome(jwt_decoded(token, secret), now)
    }
}

/// Tells whether a header's scheme is the one that this library accepts.
pub fn accepts_algorithm(algorithm: Option<SigningAlgorithm>) -> (r: bool)
    ensures
        r == is_accepted_algorithm(algorithm),
{
    match algorithm {
        Some(SigningAlgorithm::Hs256) => true,
        _ => false,
    }
}

/// Whether an executable verification result is the given outcome.
pub open spec fn is_outcome(r: Result<Claims, TokenError>, outcome: Result<ClaimsView, TokenError>) -> bool {
    match outcome {
        Ok(v) => r matches Ok(c) && c@ == v,
        Err(e) => r matches Err(f) && f == e,
    }
}

/// The claims of a token issued for `user_id` at `now`: subject the
/// identifier's canonical text, expiry exactly 24 hours after issue.
/// `None` where the clock is out of range.
pub fn claims_for(user_id: UserId, now: i64) -> (r: Option<Claims>)
    ensures
        clock_in_range(now) <==> r is Some,
        r matches Some(c) ==> c@ == issued_claims(user_id, now) && c.iat < c.exp && c.exp == c.iat
            + TOKEN_LIFETIME_SECONDS && UserId::spelled_by(c@.sub) == Some(user_id),
{
    if now < 0 {
        return None;
    }
    let seconds: u64 = now as u64;
    if seconds > usize::MAX as u64 - TOKEN_LIFETIME_SECONDS as u64 {
        return None;
    }
    let iat: usize = seconds as usize;
    let exp: usize = iat + TOKEN_LIFETIME_SECONDS;
    Some(Claims { sub: user_id.to_text(), exp, iat })
}

/// The answer for each outcome of the signing call: the token itself, or
/// `SigningFailed` in place of the outside error.
pub fn signed_or_failed(made: Result<String, jsonwebtoken::errors::Error>) -> (r: Result<
    String,
    IssueError,
>)
    ensures
        match made {
            Ok(t) => r matches Ok(kept) && kept == t,
            Err(_) => r matches Err(e) && e == IssueError::SigningFailed,
        },
{
    match made {
        Ok(t) => Ok(t),
        Err(_) => Err(IssueError::SigningFailed),
    }
}

/// What issuing for `user_id` at `now` under `secret` answers: with the
/// clock in range the encoded token of the issued claims, else
/// `ClockOutOfRange`.
pub open spec fn issuance(user_id: UserId, secret: Seq<char>, now: i64) -> Result<
    Seq<char>,
    IssueError,
> {
    if clock_in_range(now) {
        Ok(jwt_encoded(issued_claims(user_id, now), secret))
    } else {
        Err(IssueError::ClockOutOfRange)
    }
}

/// The view of an issuing result.
pub open spec fn issued_text(r: Result<String, IssueError>) -> Result<Seq<char>, IssueError> {
    match r {
        Ok(t) => Ok(t@),
        Err(e) => Err(e),
    }
}

/// Issues a token for `user_id` as of `now`, signed with `secret`.
///
/// With the clock in range a token is issued: the encoded form of the
/// claims `{sub: text of user_id, iat: now, exp: now + 24 h}`. It has the
/// compact form, decodes under the same secret to those claims, and
/// verifies to them at every moment up to its expiry; their subject spells
/// `user_id`. With the clock out of range the answer is `ClockOutOfRange`.
pub fn create_jwt_at(user_id: UserId, secret: &str, now: i64) -> (r: Result<String, IssueError>)
    ensures
        !clock_in_range(now) ==> r == Err::<String, IssueError>(IssueError::ClockOutOfRange),
        clock_in_range(now) ==> (r matches Ok(t) && t@ == jwt_encoded(
            issued_claims(user_id, now),
            secret@,
        )),
        issued_text(r) == issuance(user_id, secret@, now),
        r matches Ok(t) ==> {
            &&& is_compact_token(t@)
            &&& jwt_header_algorithm(t@) == Some(SigningAlgorithm::Hs256)
            &&& jwt_decoded(t@, secret@) == Ok::<RawClaimsView, DecodeFailure>(
                raw_of(issued_claims(user_id, now)),
            )
            &&& UserId::spelled_by(issued_claims(user_id, now).sub) == Some(user_id)
            &&& forall|later: i64|
                later <= now + TOKEN_LIFETIME_SECONDS ==> #[trigger] token_outcome(
                    t@,
                    secret@,
                    later,
                ) == Ok::<ClaimsView, TokenError>(issued_claims(user_id, now))
        },
{
    match claims_for(user_id, now) {
        None => Err(IssueError::ClockOutOfRange),
        Some(claims) => signed_or_failed(encode_hs256(&claims, secret)),
    }
}

/// Issues a token for `user_id` as of the system clock, signed with
/// `secret`. Whatever the clock says, the answer is that of `create_jwt_at`
/// at some moment: a token that comes back has the compact form and decodes
/// under the same secret to a subject that spells `user_id`, issued before
/// its expiry and expiring exactly 24 hours after issue; and the only error
/// is `ClockOutOfRange`.
pub fn create_jwt(user_id: UserId, secret: &str) -> (r: Result<String, IssueError>)
    ensures
        exists|now: i64| issued_text(r) == #[trigger] issuance(user_id, secret@, now),
        r matches Err(e) ==> e == IssueError::ClockOutOfRange,
        r matches Ok(t) ==> UserId::spelled_by(uuid_text(user_id.value)) == Some(user_id),
        r matches Ok(t) ==> is_compact_token(t@),
        r matches Ok(t) ==> jwt_header_algorithm(t@) == Some(SigningAlgorithm::Hs256),
        r matches Ok(t) ==> exists|now: i64|
            #![trigger clock_in_range(now)]
            clock_in_range(now) && t@ == jwt_encoded(issued_claims(user_id, now), secret@)
                && jwt_decoded(t@, secret@) == Ok::<RawClaimsView, DecodeFailure>(
                raw_of(issued_claims(user_id, now)),
            ),
{
    let now: i64 = current_timestamp();
    create_jwt_at(user_id, secret, now)
}

/// Judges a decoding result at `now`.
pub fn judge_claims(decoded: Result<RawClaims, DecodeFailure>, now: i64) -> (r: Result<
    Claims,
    TokenError,
>)
    ensures
        is_outcome(r, verify_outcome(decoded_view(decoded), now)),
{
    match decoded {
        Err(DecodeFailure::InvalidSignature) => Err(TokenError::InvalidSignature),
        Err(_) => Err(TokenError::Malformed),
        Ok(raw) => {
            if let Some(exp) = raw.exp {
                if (exp as i128) < (now as i128) {
                    return Err(TokenError::Expired);
                }
            }
            match (raw.sub, raw.exp, raw.iat) {
                (Some(sub), Some(exp), Some(iat)) => {
                    if exp > usize::MAX as u64 || iat > usize::MAX as u64 {
                        Err(TokenError::Malformed)
                    } else if UserId::parse(sub.as_str()).is_none() {
                        Err(TokenError::Malformed)
                    } else {
                        Ok(Claims { sub, exp: exp as usize, iat: iat as usize })
                    }
                },
                _ => Err(TokenError::Malformed),
            }
        },
    }
}

/// Verifies a token under `secret` as of `now`: reads the header and
/// refuses every scheme but HS256, then decodes the token and judges the
/// result. The answer is exactly `token_outcome`.
pub fn verify_jwt_at(token: &str, secret: &str, now: i64) -> (r: Result<Claims, TokenError>)
    ensures
        is_outcome(r, token_outcome(token@, secret@, now)),
{
    if accepts_algorithm(read_header_algorithm(token)) {
        judge_claims(decode_hs256(token, secret), now)
    } else {
        Err(TokenError::Malformed)
    }
}

/// Verifies a token under `secret` as of the system clock. Whatever the
/// clock says, the answer is the outcome for some moment; so a token whose
/// header names another scheme, or that does not decode, is refused
/// whatever the clock says, and accepted claims are those of the payload.
pub fn verify_jwt(token: &str, secret: &str) -> (r: Result<Claims, TokenError>)
    ensures
        exists|now: i64| #[trigger] is_outcome(r, token_outcome(token@, secret@, now)),
        !is_accepted_algorithm(jwt_header_algorithm(token@)) ==> (r matches Err(e) && e
            == TokenError::Malformed),
        jwt_decoded(token@, secret@) is Err ==> r is Err,
{
    let now: i64 = current_timestamp();
    verify_jwt_at(token, secret, now)
}

/// A token whose header cannot be read, or names a scheme other than
/// HS256 (`none` is no scheme that can be read), is never accepted,
/// whatever its payload and signature, the secret and the moment.
pub proof fn other_algorithm_is_rejected(token: Seq<char>, secret: Seq<char>, now: i64)
    requires
        jwt_header_algorithm(token) != Some(SigningAlgorithm::Hs256),
    ensures
        token_outcome(token, secret, now) == Err::<ClaimsView, TokenError>(TokenError::Malformed),
{
}

/// A token is accepted only where its header names HS256, its signature
/// holds under the secret, its expiry has not passed and its subject spells
/// a user identifier.
pub proof fn accepted_token_is_signed_and_current(token: Seq<char>, secret: Seq<char>, now: i64)
    ensures
        token_outcome(token, secret, now) matches Ok(claims) ==> {
            &&& jwt_header_algorithm(token) == Some(SigningAlgorithm::Hs256)
            &&& jwt_decoded(token, secret) == Ok::<RawClaimsView, DecodeFailure>(raw_of(claims))
            &&& claims.exp >= now
            &&& UserId::spelled_by(claims.sub) is Some
        },
{
}

/// A payload whose expiry lies before `now` is `Expired`, whatever else it
/// holds: a signature that checks out does not keep an old token alive.
pub proof fn expired_payload_is_rejected(raw: RawClaimsView, now: i64)
    requires
        raw.exp is Some,
        raw.exp->0 < now,
    ensures
        verify_outcome(Ok(raw), now) == Err::<ClaimsView, TokenError>(TokenError::Expired),
{
}

/// A token that the token library refuses is never accepted: a signature
/// that does not hold gives `InvalidSignature`, every other refusal (a
/// header that names another algorithm or none among them) `Malformed`.
pub proof fn refused_token_is_rejected(failure: DecodeFailure, now: i64)
    ensures
        verify_outcome(Err(failure), now) is Err,
        failure == DecodeFailure::InvalidSignature <==> verify_outcome(Err(failure), now) == Err::<
            ClaimsView,
            TokenError,
        >(TokenError::InvalidSignature),
        failure != DecodeFailure::InvalidSignature <==> verify_outcome(Err(failure), now) == Err::<
            ClaimsView,
            TokenError,
        >(TokenError::Malformed),
{
}

/// Accepted claims are those of the payload: they have not expired, and
/// their subject spells a user identifier.
pub proof fn accepted_claims_are_well_formed(
    decoded: Result<RawClaimsView, DecodeFailure>,
    now: i64,
)
    ensures
        verify_outcome(decoded, now) matches Ok(claims) ==> {
            &&& decoded == Ok::<RawClaimsView, DecodeFailure>(raw_of(claims))
            &&& claims.exp >= now
            &&& UserId::spelled_by(claims.sub) is Some
        },
{
}

/// Claims issued at `now` verify at every moment up to their expiry, and
/// at no later one, provided their subject reads back as an identifier.
pub proof fn issued_claims_verify_until_expiry(user_id: UserId, now: i64, later: i64)
    requires
        clock_in_range(now),
        UserId::spelled_by(uuid_text(user_id.value)) is Some,
    ensures
        issued_claims(user_id, now).iat < issued_claims(user_id, now).exp,
        issued_claims(user_id, now).exp == issued_claims(user_id, now).iat + 86400,
        later <= now + TOKEN_LIFETIME_SECONDS ==> verify_outcome(
            Ok(raw_of(issued_claims(user_id, now))),
            later,
        ) == Ok::<ClaimsView, TokenError>(issued_claims(user_id, now)),
        later > now + TOKEN_LIFETIME_SECONDS ==> verify_outcome(
            Ok(raw_of(issued_claims(user_id, now))),
            later,
        ) == Err::<ClaimsView, TokenError>(TokenError::Expired),
{
}

} // verus!
