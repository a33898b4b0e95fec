//! Admission of requests: the bearer token of the `Authorization` header is
//! verified before a protected operation runs, and the administrator gate
//! is layered on top.

use crate::identity::UserId;
use crate::token::{
    is_accepted_algorithm, jwt_decoded, jwt_header_algorithm, token_outcome, verify_jwt,
    verify_jwt_at, Claims, ClaimsView, TokenError,
};
use vstd::prelude::*;
use vstd::string::*;

verus! {

/// Why a request was not admitted. For the log only: a caller never sees
/// which of these it was.
#[derive(Clone, Copy, Debug, PartialEq, Eq, Structural)]
pub enum AuthFailure {
    /// The request has no `Authorization` header.
    MissingCredential,
    /// The header is not a bearer credential, or its token is malformed.
    MalformedCredential,
    /// The token's signature does not hold under the signing secret.
    InvalidSignature,
    /// The token has expired.
    Expired,
}

/// What a rejected caller is told.
#[derive(Clone, Copy, Debug, PartialEq, Eq, Structural)]
pub enum AuthError {
    /// No valid credential was presented.
    Unauthorized,
    /// The credential is valid, the privilege is missing.
    Forbidden,
}

impl AuthError {
    /// The HTTP status that tells the caller of the rejection: 401 for
    /// `Unauthorized`, 403 for `Forbidden`.
    pub fn status_code(&self) -> (r: u16)
        ensures
            r == (match *self {
                AuthError::Unauthorized => 401u16,
                AuthError::Forbidden => 403u16,
            }),
    {
        match self {
            AuthError::Unauthorized => 401,
            AuthError::Forbidden => 403,
        }
    }
}

/// The literal prefix of a bearer credential: `Bearer` and one space.
pub open spec fn bearer_prefix() -> Seq<char> {
    seq!['B', 'e', 'a', 'r', 'e', 'r', ' ']
}

/// Whether a header value starts with the bearer prefix.
pub open spec fn has_bearer_prefix(header: Seq<char>) -> bool {
    header.len() >= 7 && header.subrange(0, 7) == bearer_prefix()
}

/// What follows the seven characters of the prefix.
pub open spec fn bearer_part(header: Seq<char>) -> Seq<char>
    recommends
        header.len() >= 7,
{
    header.subrange(7, header.len() as int)
}

/// The token of a bearer credential: the header value without its prefix,
/// or `None` where the value does not start with the prefix.
pub fn bearer_token<'a>(header: &'a str) -> (r: Option<&'a str>)
    ensures
        has_bearer_prefix(header@) ==> (r matches Some(t) && t@ == bearer_part(header@)),
        !has_bearer_prefix(header@) ==> r is None,
{
    let n: usize = header.unicode_len();
    if n < 7 {
        return None;
    }
    if header.get_char(0) != 'B' || header.get_char(1) != 'e' || header.get_char(2) != 'a'
        || header.get_char(3) != 'r' || header.get_char(4) != 'e' || header.get_char(5) != 'r'
        || header.get_char(6) != ' ' {
        proof {
            let head = header@.subrange(0, 7);
            assert(forall|i: int| 0 <= i < 7 ==> head[i] == header@[i]);
            assert(bearer_prefix()[0] == 'B' && bearer_prefix()[1] == 'e' && bearer_prefix()[2]
                == 'a' && bearer_prefix()[3] == 'r' && bearer_prefix()[4] == 'e'
                && bearer_prefix()[5] == 'r' && bearer_prefix()[6] == ' ');
        }
        return None;
    }
    proof {
        assert(header@.subrange(0, 7) =~= bearer_prefix());
    }
    Some(header.substring_char(7, n))
}

/// The reason to log for a token that was not accepted.
pub open spec fn failure_of(e: TokenError) -> AuthFailure {
    match e {
        TokenError::InvalidSignature => AuthFailure::InvalidSignature,
        TokenError::Expired => AuthFailure::Expired,
        TokenError::Malformed => AuthFailure::MalformedCredential,
    }
}

/// The decision for each outcome of verifying the bearer token: the
/// subject that the accepted claims spell, or the reason for refusing.
pub open spec fn subject_or_failure(outcome: Result<ClaimsView, TokenError>) -> Result<
    UserId,
    AuthFailure,
> {
    match outcome {
        Ok(claims) => match UserId::spelled_by(claims.sub) {
            Some(id) => Ok(id),
            None => Err(AuthFailure::MalformedCredential),
        },
        Err(e) => Err(failure_of(e)),
    }
}

/// The admission decision at `now` for a request with the given
/// `Authorization` header value, if it has one.
///
/// No header: `MissingCredential`. A value without the bearer prefix:
/// `MalformedCredential`. Otherwise what verifying the rest gives.
pub open spec fn admission(header: Option<Seq<char>>, secret: Seq<char>, now: i64) -> Result<
    UserId,
    AuthFailure,
> {
    match header {
        None => Err(AuthFailure::MissingCredential),
        Some(h) => if !has_bearer_prefix(h) {
            Err(AuthFailure::MalformedCredential)
        } else {
            subject_or_failure(token_outcome(bearer_part(h), secret, now))
        },
    }
}

/// The view of an optional header value.
pub open spec fn header_view(header: Option<&str>) -> Option<Seq<char>> {
    match header {
        Some(h) => Some(h@),
        None => None,
    }
}

/// Turns the result of verifying a token into the admission decision.
pub fn subject_of(verified: Result<Claims, TokenError>) -> (r: Result<UserId, AuthFailure>)
    ensures
        match verified {
            Ok(claims) => r == subject_or_failure(Ok(claims@)),
            Err(e) => r == subject_or_failure(Err(e)),
        },
{
    match verified {
        Ok(claims) => match UserId::parse(claims.sub.as_str()) {
            Some(id) => Ok(id),
            None => Err(AuthFailure::MalformedCredential),
        },
        Err(TokenError::InvalidSignature) => Err(AuthFailure::InvalidSignature),
        Err(TokenError::Expired) => Err(AuthFailure::Expired),
        Err(TokenError::Malformed) => Err(AuthFailure::MalformedCredential),
    }
}

/// Decides at `now` whether a request is admitted, and for whom.
pub fn authenticate_at(header: Option<&str>, secret: &str, now: i64) -> (r: Result<
    UserId,
    AuthFailure,
>)
    ensures
        r == admission(header_view(header), secret@, now),
{
    match header {
        None => Err(AuthFailure::MissingCredential),
        Some(h) => match bearer_token(h) {
            None => Err(AuthFailure::MalformedCredential),
            Some(token) => subject_of(verify_jwt_at(token, secret, now)),
        },
    }
}

/// Decides by the system clock whether a request is admitted, and for
/// whom. Whatever the clock says, the answer is the admission decision at
/// some moment.
pub fn authenticate(header: Option<&str>, secret: &str) -> (r: Result<UserId, AuthFailure>)
    ensures
        exists|now: i64| r == #[trigger] admission(header_view(header), secret@, now),
{
    match header {
        None => {
            proof {
                assert(admission(header_view(header), secret@, 0) == Err::<UserId, AuthFailure>(
                    AuthFailure::MissingCredential,
                ));
            }
            Err(AuthFailure::MissingCredential)
        },
        Some(h) => match bearer_token(h) {
            None => {
                proof {
                    assert(admission(header_view(header), secret@, 0) == Err::<UserId, AuthFailure>(
                        AuthFailure::MalformedCredential,
                    ));
                }
                Err(AuthFailure::MalformedCredential)
            },
            Some(token) => {
                let verified = verify_jwt(token, secret);
                let r = subject_of(verified);
                proof {
                    let now = choose|now: i64| #[trigger]
                        crate::token::is_outcome(
                            verified,
                            token_outcome(token@, secret@, now),
                        );
                    assert(r == admission(header_view(header), secret@, now));
                }
                r
            },
        },
    }
}

/// The web framework's request, carried through unread.
#[verifier::external_type_specification]
#[verifier::external_body]
pub struct ExHttpRequest(actix_web::HttpRequest);

/// Calls `HttpRequest::headers`, `HeaderMap::get` with the name
/// `Authorization`, and `HeaderValue::to_str` on the first value found:
/// `None` where the request has no such header, `Some(None)` where its value
/// is not visible ASCII, else the value as text. Nothing is promised of the
/// result.
#[verifier::external_body]
fn authorization_of(req: &actix_web::HttpRequest) -> Option<Option<String>> {
    req.headers().get("Authorization").map(|value| value.to_str().ok().map(String::from))
}

/// The view of a header lookup.
pub open spec fn lookup_view(found: Option<Option<String>>) -> Option<Option<Seq<char>>> {
    match found {
        None => None,
        Some(None) => Some(None),
        Some(Some(text)) => Some(Some(text@)),
    }
}

/// The admission decision at `now` for each result of looking up the
/// `Authorization` header: a header whose value is not text is a
/// `MalformedCredential`; else the decision is `admission`'s.
pub open spec fn lookup_admission(
    found: Option<Option<Seq<char>>>,
    secret: Seq<char>,
    now: i64,
) -> Result<UserId, AuthFailure> {
    match found {
        None => admission(None, secret, now),
        Some(None) => Err(AuthFailure::MalformedCredential),
        Some(Some(text)) => admission(Some(text), secret, now),
    }
}

/// Decides at `now` for the result of a header lookup.
pub fn authenticate_lookup_at(found: Option<Option<String>>, secret: &str, now: i64) -> (r: Result<
    UserId,
    AuthFailure,
>)
    ensures
        r == lookup_admission(lookup_view(found), secret@, now),
{
    match found {
        None => authenticate_at(None, secret, now),
        Some(None) => Err(AuthFailure::MalformedCredential),
        Some(Some(text)) => authenticate_at(Some(text.as_str()), secret, now),
    }
}

/// Decides by the system clock whether a request is admitted, and for
/// whom. Whatever the request holds and the clock says, the answer is the
/// decision for some header lookup at some moment.
pub fn authenticate_request(req: &actix_web::HttpRequest, secret: &str) -> (r: Result<
    UserId,
    AuthFailure,
>)
    ensures
        exists|found: Option<Option<Seq<char>>>, now: i64|
            r == #[trigger] lookup_admission(found, secret@, now),
{
    let found = authorization_of(req);
    match found {
        None => {
            let r = authenticate(None, secret);
            proof {
                let now = choose|now: i64| r == #[trigger] admission(None, secret@, now);
                assert(r == lookup_admission(None, secret@, now));
            }
            r
        },
        Some(None) => {
            proof {
                assert(lookup_admission(Some(None), secret@, 0) == Err::<UserId, AuthFailure>(
                    AuthFailure::MalformedCredential,
                ));
            }
            Err(AuthFailure::MalformedCredential)
        },
        Some(Some(text)) => {
            let r = authenticate(Some(text.as_str()), secret);
            proof {
                let now = choose|now: i64| r == #[trigger] admission(Some(text@), secret@, now);
                assert(r == lookup_admission(Some(Some(text@)), secret@, now));
            }
            r
        },
    }
}

/// The identity context of an authenticated request.
#[derive(Clone, Copy, Debug, PartialEq, Eq, Structural)]
pub struct AuthenticatedUser {
    pub user_id: UserId,
}

/// The identity context of a request that passed the administrator gate.
#[derive(Clone, Copy, Debug, PartialEq, Eq, Structural)]
pub struct AdminOnly {
    pub user_id: UserId,
}

impl AuthenticatedUser {
    /// Admits or rejects a request, as of the system clock. Every
    /// rejection is `Unauthorized`; an admitted request is one that the
    /// decision for some header lookup at some moment admits.
    pub fn from_request(req: &actix_web::HttpRequest, secret: &str) -> (r: Result<
        AuthenticatedUser,
        AuthError,
    >)
        ensures
            exists|found: Option<Option<Seq<char>>>, now: i64|
                r == AuthenticatedUser::admitted(#[trigger] lookup_admission(found, secret@, now)),
            r matches Err(e) ==> e == AuthError::Unauthorized,
    {
        AuthenticatedUser::respond(authenticate_request(req, secret))
    }

    /// The sentence that every rejected caller of a protected operation is
    /// told, whatever the reason.
    pub fn rejection_message() -> (r: &'static str)
        ensures
            r@ == "Invalid or missing authentication token"@,
    {
        "Invalid or missing authentication token"
    }

    /// What the caller gets for an admission decision: the identity
    /// context, or `Unauthorized` whatever the reason was.
    pub open spec fn admitted(decision: Result<UserId, AuthFailure>) -> Result<
        AuthenticatedUser,
        AuthError,
    > {
        match decision {
            Ok(user_id) => Ok(AuthenticatedUser { user_id }),
            Err(_) => Err(AuthError::Unauthorized),
        }
    }

    /// Turns an admission decision into what the caller gets.
    pub fn respond(decision: Result<UserId, AuthFailure>) -> (r: Result<AuthenticatedUser, AuthError>)
        ensures
            r == AuthenticatedUser::admitted(decision),
    {
        match decision {
            Ok(user_id) => Ok(AuthenticatedUser { user_id }),
            Err(_) => Err(AuthError::Unauthorized),
        }
    }

    /// Admits or rejects at `now` by the value of the `Authorization`
    /// header, if the request has one.
    pub fn from_header_at(header: Option<&str>, secret: &str, now: i64) -> (r: Result<
        AuthenticatedUser,
        AuthError,
    >)
        ensures
            r == AuthenticatedUser::admitted(admission(header_view(header), secret@, now)),
    {
        AuthenticatedUser::respond(authenticate_at(header, secret, now))
    }

    /// Admits or rejects by the value of the `Authorization` header, as of
    /// the system clock. A request without the header, or with a value that
    /// is no bearer credential, is rejected; every rejection is
    /// `Unauthorized`.
    pub fn from_header(header: Option<&str>, secret: &str) -> (r: Result<
        AuthenticatedUser,
        AuthError,
    >)
        ensures
            exists|now: i64|
                r == AuthenticatedUser::admitted(
                    #[trigger] admission(header_view(header), secret@, now),
                ),
            r matches Err(e) ==> e == AuthError::Unauthorized,
            header is None ==> r is Err,
            header matches Some(h) && !has_bearer_prefix(h@) ==> r is Err,
    {
        AuthenticatedUser::respond(authenticate(header, secret))
    }
}

impl AdminOnly {
    /// Admits or rejects a request, as of the system clock, by the token
    /// alone. Every rejection is `Unauthorized`; an admitted request is one
    /// that the decision for some header lookup at some moment admits.
    pub fn from_request(req: &actix_web::HttpRequest, secret: &str) -> (r: Result<
        AdminOnly,
        AuthError,
    >)
        ensures
            exists|found: Option<Option<Seq<char>>>, now: i64|
                r == AdminOnly::admitted(#[trigger] lookup_admission(found, secret@, now)),
            r matches Err(e) ==> e == AuthError::Unauthorized,
    {
        AdminOnly::respond(authenticate_request(req, secret))
    }

    /// The sentence that every rejected caller of an administrator
    /// operation is told, whatever the reason.
    pub fn rejection_message() -> (r: &'static str)
        ensures
            r@ == "Admin access required"@,
    {
        "Admin access required"
    }

    /// What the caller of an administrator operation gets for an admission
    /// decision. The decision rests on the token alone: every holder of a
    /// valid token passes.
    pub open spec fn admitted(decision: Result<UserId, AuthFailure>) -> Result<
        AdminOnly,
        AuthError,
    > {
        match decision {
            Ok(user_id) => Ok(AdminOnly { user_id }),
            Err(_) => Err(AuthError::Unauthorized),
        }
    }

    /// Turns an admission decision into what the caller gets.
    pub fn respond(decision: Result<UserId, AuthFailure>) -> (r: Result<AdminOnly, AuthError>)
        ensures
            r == AdminOnly::admitted(decision),
    {
        match decision {
            Ok(user_id) => Ok(AdminOnly { user_id }),
            Err(_) => Err(AuthError::Unauthorized),
        }
    }

    /// Admits or rejects at `now` by the value of the `Authorization`
    /// header, exactly as `AuthenticatedUser::from_header_at` does.
    pub fn from_header_at(header: Option<&str>, secret: &str, now: i64) -> (r: Result<
        AdminOnly,
        AuthError,
    >)
        ensures
            r == AdminOnly::admitted(admission(header_view(header), secret@, now)),
    {
        AdminOnly::respond(authenticate_at(header, secret, now))
    }

    /// Admits or rejects by the value of the `Authorization` header, as of
    /// the system clock.
    pub fn from_header(header: Option<&str>, secret: &str) -> (r: Result<AdminOnly, AuthError>)
        ensures
            exists|now: i64|
                r == AdminOnly::admitted(#[trigger] admission(header_view(header), secret@, now)),
            r matches Err(e) ==> e == AuthError::Unauthorized,
            header is None ==> r is Err,
            header matches Some(h) && !has_bearer_prefix(h@) ==> r is Err,
    {
        AdminOnly::respond(authenticate(header, secret))
    }

    /// Completes the privilege decision with the user store's answer: an
    /// authenticated user passes where the store marks the account as an
    /// administrator, and is `Forbidden` where it does not.
    pub fn confirm(user: AuthenticatedUser, is_admin: bool) -> (r: Result<AdminOnly, AuthError>)
        ensures
            is_admin ==> r == Ok::<AdminOnly, AuthError>(AdminOnly { user_id: user.user_id }),
            !is_admin ==> r == Err::<AdminOnly, AuthError>(AuthError::Forbidden),
    {
        if is_admin {
            Ok(AdminOnly { user_id: user.user_id })
        } else {
            Err(AuthError::Forbidden)
        }
    }
}

/// A request without an `Authorization` header is rejected, by both gates,
/// with `Unauthorized`.
pub proof fn missing_header_is_unauthorized(secret: Seq<char>, now: i64)
    ensures
        admission(None, secret, now) == Err::<UserId, AuthFailure>(AuthFailure::MissingCredential),
        AuthenticatedUser::admitted(admission(None, secret, now)) == Err::<
            AuthenticatedUser,
            AuthError,
        >(AuthError::Unauthorized),
        AdminOnly::admitted(admission(None, secret, now)) == Err::<AdminOnly, AuthError>(
            AuthError::Unauthorized,
        ),
{
}

/// A bearer credential whose token names another scheme than HS256, or
/// that the token library refuses, is rejected with the same `Unauthorized`
/// as a missing header.
pub proof fn refused_bearer_is_unauthorized(header: Seq<char>, secret: Seq<char>, now: i64)
    requires
        has_bearer_prefix(header),
        !is_accepted_algorithm(jwt_header_algorithm(bearer_part(header))) || jwt_decoded(
            bearer_part(header),
            secret,
        ) is Err,
    ensures
        AuthenticatedUser::admitted(admission(Some(header), secret, now))
            == AuthenticatedUser::admitted(admission(None, secret, now)),
        AdminOnly::admitted(admission(Some(header), secret, now)) == AdminOnly::admitted(
            admission(None, secret, now),
        ),
{
}

/// Two rejected requests get the same answer, whatever the two reasons:
/// the answer tells nothing of why.
pub proof fn rejections_are_alike(a: AuthFailure, b: AuthFailure)
    ensures
        AuthenticatedUser::admitted(Err(a)) == AuthenticatedUser::admitted(Err(b)),
        AdminOnly::admitted(Err(a)) == AdminOnly::admitted(Err(b)),
{
}

/// An admitted request carries a token that was accepted at that moment,
/// and the identity is the subject of its claims.
pub proof fn admitted_request_holds_accepted_token(
    header: Option<Seq<char>>,
    secret: Seq<char>,
    now: i64,
)
    ensures
        admission(header, secret, now) matches Ok(id) ==> {
            &&& header is Some
            &&& has_bearer_prefix(header->0)
            &&& token_outcome(bearer_part(header->0), secret, now) matches Ok(claims)
            &&& UserId::spelled_by(
                token_outcome(bearer_part(header->0), secret, now)->Ok_0.sub,
            ) == Some(id)
        },
{
}

/// The administrator gate decides as the authenticator does: it admits
/// the same requests for the same user.
pub proof fn gate_decides_as_authenticator(decision: Result<UserId, AuthFailure>)
    ensures
        AdminOnly::admitted(decision) is Ok <==> AuthenticatedUser::admitted(decision) is Ok,
        AdminOnly::admitted(decision) matches Ok(admin) ==> AuthenticatedUser::admitted(decision)
            == Ok::<AuthenticatedUser, AuthError>(AuthenticatedUser { user_id: admin.user_id }),
        AdminOnly::admitted(decision) matches Err(e) ==> AuthenticatedUser::admitted(decision)
            == Err::<AuthenticatedUser, AuthError>(e),
{
}

} // verus!
