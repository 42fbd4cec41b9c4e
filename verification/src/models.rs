//! Request, response and storage models, with their conversions.

use crate::jwt::{decode_jwt, decoded_from, dot_count, jwt_claim_str, jwt_encoding, jwt_hs256_signed, Claims, JwtError, ISSUER};
use vstd::prelude::*;

verus! {

/// An HTTP status that the server answers with, by its numeric code.
#[derive(Debug, Clone, Copy, PartialEq, Eq, Structural)]
pub struct Status {
    pub code: u16,
}

impl Status {
    /// 200 OK.
    pub fn ok() -> (s: Status)
        ensures
            s.code == 200,
    {
        Status { code: 200 }
    }

    /// 204 No Content.
    pub fn no_content() -> (s: Status)
        ensures
            s.code == 204,
    {
        Status { code: 204 }
    }

    /// 401 Unauthorized.
    pub fn unauthorized() -> (s: Status)
        ensures
            s.code == 401,
    {
        Status { code: 401 }
    }
}

/// Joins `parts` with `sep` between each two of them.
pub open spec fn join_with(parts: Seq<Seq<char>>, sep: Seq<char>) -> Seq<char>
    decreases parts.len(),
{
    if parts.len() == 0 {
        Seq::empty()
    } else if parts.len() == 1 {
        parts[0]
    } else {
        join_with(parts.drop_last(), sep) + sep + parts.last()
    }
}

/// The JSON body that answers a request with these error messages.
pub open spec fn error_body(errors: Seq<Seq<char>>) -> Seq<char> {
    "{\"errors\":[\""@ + join_with(errors, ", "@) + "\"]}"@
}

/// The body for one message `m` is `{"errors":["m"]}`.
pub proof fn lemma_single_error_body(m: Seq<char>)
    ensures
        error_body(seq![m]) == "{\"errors\":[\""@ + m + "\"]}"@,
{
    assert(join_with(seq![m], ", "@) == m);
}

/// An error with the API.
#[derive(Debug)]
pub struct ApiError {
    pub errors: Vec<String>,
}

impl ApiError {
    /// The views of the error messages.
    pub open spec fn messages(&self) -> Seq<Seq<char>> {
        self.errors@.map_values(|e: String| e@)
    }

    /// The JSON body of the response that carries this error: the messages,
    /// joined with `", "`, as the one string of an `errors` array.
    pub fn body(&self) -> (b: String)
        ensures
            b@ == error_body(self.messages()),
    {
        let mut joined = String::new();
        let n: usize = self.errors.len();
        let mut i: usize = 0;
        while i < n
            invariant
                i <= n,
                n == self.errors@.len(),
                joined@ == join_with(self.messages().take(i as int), ", "@),
            decreases n - i,
        {
            if i != 0 {
                joined.append(", ");
            }
            joined.append(self.errors[i].as_str());
            assert(self.messages().take(i + 1).drop_last() =~= self.messages().take(i as int));
            i = i + 1;
        }
        assert(self.messages().take(n as int) =~= self.messages());
        let mut body = String::new();
        body.append("{\"errors\":[\"");
        body.append(joined.as_str());
        body.append("\"]}");
        body
    }
}

/// The result of a request handler.
pub type ApiResponse<T> = Result<T, ApiError>;


/// A user as it is stored: the account's key parameters and credentials.
#[derive(Debug)]
pub struct User {
    pub uuid: String,
    pub api: String,
    pub created: String,
    pub email: String,
    pub identifier: String,
    pub origination: String,
    pub password: String,
    pub pw_nonce: String,
    pub version: String,
}

/// A user to be stored: what registration asks for, without the key that the
/// store gives it.
#[derive(Debug)]
pub struct NewUser {
    pub api: String,
    pub created: String,
    pub email: String,
    pub identifier: String,
    pub origination: String,
    pub password: String,
    pub pw_nonce: String,
    pub version: String,
}

/// A registration request.
#[derive(Debug)]
pub struct CreateUser {
    pub api: String,
    pub created: String,
    pub email: String,
    pub ephemeral: bool,
    pub identifier: String,
    pub origination: String,
    pub password: String,
    pub pw_nonce: String,
    pub version: String,
}

impl From<CreateUser> for NewUser {
    /// The user to store for a registration: every field of the request but
    /// `ephemeral`.
    fn from(create_user: CreateUser) -> (new_user: NewUser)
        ensures
            new_user.api@ == create_user.api@,
            new_user.created@ == create_user.created@,
            new_user.email@ == create_user.email@,
            new_user.identifier@ == create_user.identifier@,
            new_user.origination@ == create_user.origination@,
            new_user.password@ == create_user.password@,
            new_user.pw_nonce@ == create_user.pw_nonce@,
            new_user.version@ == create_user.version@,
    {
        NewUser {
            api: create_user.api,
            created: create_user.created,
            email: create_user.email,
            identifier: create_user.identifier,
            origination: create_user.origination,
            password: create_user.password,
            pw_nonce: create_user.pw_nonce,
            version: create_user.version,
        }
    }
}

impl vstd::std_specs::convert::FromSpecImpl<CreateUser> for NewUser {
    open spec fn obeys_from_spec() -> bool {
        true
    }

    open spec fn from_spec(create_user: CreateUser) -> NewUser {
        NewUser {
            api: create_user.api,
            created: create_user.created,
            email: create_user.email,
            identifier: create_user.identifier,
            origination: create_user.origination,
            password: create_user.password,
            pw_nonce: create_user.pw_nonce,
            version: create_user.version,
        }
    }
}

/// What a handler asks of the store of users.
#[derive(Debug)]
pub enum UserQuery {
    /// The first user whose email and password are these.
    ByCredentials { email: String, password: String },
    /// The first user whose email is this.
    ByEmail { email: String },
    /// The user whose key is `identifier`, if its password is
    /// `current_password`, with its password set to `new_password`.
    UpdatePassword { identifier: String, current_password: String, new_password: String },
}

/// The user stored for a registration copies each field of the request to
/// the field of the same name, whatever `ephemeral` is.
pub proof fn lemma_new_user_copies_request(req: CreateUser)
    ensures
        ({
            let n = <NewUser as vstd::std_specs::convert::FromSpec<CreateUser>>::from_spec(req);
            &&& n.api@ == req.api@
            &&& n.created@ == req.created@
            &&& n.email@ == req.email@
            &&& n.identifier@ == req.identifier@
            &&& n.origination@ == req.origination@
            &&& n.password@ == req.password@
            &&& n.pw_nonce@ == req.pw_nonce@
            &&& n.version@ == req.version@
        }),
{
}

/// A request to change a user's password.
#[derive(Debug)]
pub struct ChangePassword {
    pub api: String,
    pub created: String,
    pub identifier: String,
    pub origination: String,
    pub current_password: String,
    pub new_password: String,
    pub pw_nonce: String,
    pub version: String,
}

/// A sign-in request.
#[derive(Debug)]
pub struct SignIn {
    pub api: String,
    pub email: String,
    pub ephemeral: bool,
    pub password: String,
}

/// The query of a key-parameters request.
#[derive(Debug)]
pub struct Params {
    pub api: String,
    pub email: String,
}

/// The key parameters of a user.
#[derive(Debug)]
pub struct ParamsResponse {
    pub identifier: String,
    pub pw_nonce: String,
    pub version: String,
}

impl<'a> From<&'a User> for ParamsResponse {
    /// A user's identifier, password nonce and protocol version.
    fn from(user: &'a User) -> (params: ParamsResponse)
        ensures
            params.identifier@ == user.identifier@,
            params.pw_nonce@ == user.pw_nonce@,
            params.version@ == user.version@,
    {
        ParamsResponse {
            identifier: user.identifier.clone(),
            pw_nonce: user.pw_nonce.clone(),
            version: user.version.clone(),
        }
    }
}

impl<'a> vstd::std_specs::convert::FromSpecImpl<&'a User> for ParamsResponse {
    open spec fn obeys_from_spec() -> bool {
        true
    }

    open spec fn from_spec(user: &'a User) -> ParamsResponse {
        ParamsResponse {
            identifier: user.identifier,
            pw_nonce: user.pw_nonce,
            version: user.version,
        }
    }
}

/// A synchronisation request: the items that the client sends.
#[derive(Debug)]
pub struct Sync {
    pub items: Vec<Item>,
    pub sync_token: String,
    pub limit: Option<String>,
}

/// An encrypted item of a user.
#[derive(Debug)]
pub struct Item {
    pub uuid: String,
    pub content: String,
    pub content_type: String,
    pub enc_item_key: String,
    pub deleted: bool,
    pub created_at: String,
    pub updated_at: String,
}

/// The answer to a synchronisation request.
#[derive(Debug)]
pub struct SyncResponse {
    pub retrieved_items: Option<Vec<Item>>,
    pub saved_items: Option<Vec<Item>>,
    pub unsaved: Option<Vec<Item>>,
    pub sync_token: Option<String>,
}

/// The user that a request is made for, as its bearer token names it.
#[derive(Debug)]
pub struct AuthUser {
    pub email: String,
}

/// What the bearer-token guard decides for a request.
#[derive(Debug)]
pub enum AuthOutcome {
    /// The request is made for this user.
    Success(AuthUser),
    /// The request is refused with this status, for this reason.
    Failure(Status, ApiKeyError),
}

/// The scheme that an `Authorization` header must start with.
pub open spec fn bearer_prefix() -> Seq<char> {
    "Bearer "@
}

/// `h` starts with `"Bearer "`.
pub open spec fn has_bearer_prefix(h: Seq<char>) -> bool {
    h.len() >= bearer_prefix().len() && h.subrange(0, bearer_prefix().len() as int) == bearer_prefix()
}

/// `o` refuses with 401 Unauthorized, for the reason `reason`.
pub open spec fn refused_with(o: AuthOutcome, reason: Seq<char>) -> bool {
    o matches AuthOutcome::Failure(s, e) && s.code == 401 && e.0@ == reason
}

/// What the guard decides on the result of checking a token: the user that
/// accepted claims name, and else a refusal.
pub open spec fn outcome_of_decoded(decoded: Result<Claims, JwtError>, o: AuthOutcome) -> bool {
    match decoded {
        Ok(c) => o matches AuthOutcome::Success(u) && u.email@ == c.sub@,
        Err(_) => refused_with(o, "Unable to authenticate"@),
    }
}

/// What holds of every decision of the guard on the bearer token `token`,
/// checked with `secret`: a refusal is for "Unable to authenticate"; a token
/// that does not have exactly two dots, or that fails the HS256 signature
/// check under `secret`, or whose payload has no string `sub` or not the
/// issuer `ISSUER`, is refused; and a user that it accepts is the `sub` of
/// the token's payload, which for a token that the server built with
/// `secret` is the subject it was built for.
pub open spec fn outcome_of_token(token: Seq<char>, secret: Seq<char>, o: AuthOutcome) -> bool {
    &&& o is Failure ==> refused_with(o, "Unable to authenticate"@)
    &&& o is Success ==> {
        &&& dot_count(token) == 2
        &&& jwt_hs256_signed(token, secret)
        &&& jwt_claim_str(token, "iss"@) == Some(ISSUER@)
    }
    &&& o matches AuthOutcome::Success(u) ==> jwt_claim_str(token, "sub"@) == Some(u.email@)
    &&& forall|s: Seq<char>, e: u64|
        #[trigger] jwt_encoding(s, ISSUER@, e, secret) == token ==> (o matches AuthOutcome::Success(u) ==> u.email@ == s)
}

/// What the guard decides from the `Authorization` header alone: a missing
/// header and one without the bearer scheme are refused for that reason, and
/// else the token after `"Bearer "` is to be checked.
pub open spec fn header_checked(header: Option<Seq<char>>, c: HeaderCheck) -> bool {
    match header {
        None => c matches HeaderCheck::Refused(o) && refused_with(o, "Authorization header missing"@),
        Some(h) => if has_bearer_prefix(h) {
            c matches HeaderCheck::Bearer(t) && t@ == h.skip(bearer_prefix().len() as int)
        } else {
            c matches HeaderCheck::Refused(o) && refused_with(o, "Authorization header malformed"@)
        },
    }
}

/// The guard's decision from the `Authorization` header alone.
#[derive(Debug)]
pub enum HeaderCheck {
    /// The request is refused before any token is checked.
    Refused(AuthOutcome),
    /// The bearer token that is to be checked.
    Bearer(String),
}

/// The view of an optional header.
pub open spec fn header_view(header: Option<&str>) -> Option<Seq<char>> {
    match header {
        Some(h) => Some(h@),
        None => None,
    }
}

/// What the guard decides on a request with the `Authorization` header
/// `header`, if any: a missing header and one without the bearer scheme are
/// refused for that reason, and else the decision is one on the token that
/// follows `"Bearer "`.
pub open spec fn guard_decides(header: Option<Seq<char>>, secret: Seq<char>, o: AuthOutcome) -> bool {
    match header {
        None => refused_with(o, "Authorization header missing"@),
        Some(h) => if has_bearer_prefix(h) {
            outcome_of_token(h.skip(bearer_prefix().len() as int), secret, o)
        } else {
            refused_with(o, "Authorization header malformed"@)
        },
    }
}

/// A request whose header carries, after `"Bearer "`, a token that the server
/// built for `subject` with `secret` is made for `subject` where the guard
/// accepts it, and is refused for "Unable to authenticate" where it does not.
pub proof fn lemma_guard_names_token_subject(subject: Seq<char>, secret: Seq<char>, o: AuthOutcome)
    requires
        guard_decides(
            Some(bearer_prefix() + jwt_encoding(subject, ISSUER@, crate::jwt::_EXPIRATION_TIME, secret)),
            secret,
            o,
        ),
    ensures
        o matches AuthOutcome::Success(u) ==> u.email@ == subject,
        o is Failure ==> refused_with(o, "Unable to authenticate"@),
{
    reveal_strlit("Bearer ");
    let t = jwt_encoding(subject, ISSUER@, crate::jwt::_EXPIRATION_TIME, secret);
    let h = bearer_prefix() + t;
    assert(h.subrange(0, 7) =~= bearer_prefix());
    assert(h.skip(7) =~= t);
}

/// A bearer token that is not three segments joined by two dots, or that is
/// not signed with HS256 under the server's secret, is refused for "Unable to
/// authenticate", whatever the clock.
pub proof fn lemma_guard_refuses_unsigned_token(token: Seq<char>, secret: Seq<char>, o: AuthOutcome)
    requires
        outcome_of_token(token, secret, o),
        dot_count(token) != 2 || !jwt_hs256_signed(token, secret),
    ensures
        refused_with(o, "Unable to authenticate"@),
{
}

/// For a header that carries a bearer token, the guard's decision is exactly
/// the decision of the token step on the token after `"Bearer "`, whatever
/// the token.
pub proof fn lemma_guard_is_token_step(h: &str, secret: &str, o: AuthOutcome)
    requires
        call_ensures(AuthUser::from_request, (Some(h), secret), o),
        has_bearer_prefix(h@),
    ensures
        exists|t: &str, r: (AuthOutcome, Option<JwtError>)|
            t@ == h@.skip(bearer_prefix().len() as int) && #[trigger] call_ensures(AuthUser::from_token, (t, secret), r)
                && r.0 == o,
{
}

/// The token step accepts whatever the token check accepts: on the result of
/// checking the token with the same secret it is a success naming the
/// accepted subject, and a refusal, with the check's error, only where the
/// check refused.
pub proof fn lemma_token_step_follows_check(token: &str, secret: &str, r: (AuthOutcome, Option<JwtError>))
    requires
        call_ensures(AuthUser::from_token, (token, secret), r),
    ensures
        exists|d: Result<Claims, JwtError>|
            #[trigger] call_ensures(decode_jwt, (token, secret), d) && match d {
                Ok(c) => r.0 matches AuthOutcome::Success(u) && u.email@ == c.sub@ && r.1 is None,
                Err(e) => refused_with(r.0, "Unable to authenticate"@) && r.1 == Some(e),
            },
{
}

/// Whether `h` starts with `"Bearer "`.
fn starts_with_bearer(h: &str) -> (b: bool)
    ensures
        b == has_bearer_prefix(h@),
{
    let prefix = "Bearer ";
    proof {
        reveal_strlit("Bearer ");
    }
    let n: usize = h.unicode_len();
    if n < 7 {
        return false;
    }
    let mut i: usize = 0;
    while i < 7
        invariant
            i <= 7,
            n == h@.len(),
            n >= 7,
            prefix@ == bearer_prefix(),
            prefix@.len() == 7,
            forall|j: int| 0 <= j < i ==> h@[j] == prefix@[j],
        decreases 7 - i,
    {
        if h.get_char(i) != prefix.get_char(i) {
            assert(h@.subrange(0, 7)[i as int] != prefix@[i as int]);
            return false;
        }
        i = i + 1;
    }
    assert(h@.subrange(0, 7) =~= prefix@);
    true
}

impl AuthUser {
    /// The guard's decision on the result of checking the bearer token.
    pub fn from_decoded(decoded: Result<Claims, JwtError>) -> (o: AuthOutcome)
        ensures
            outcome_of_decoded(decoded, o),
    {
        match decoded {
            Ok(claims) => AuthOutcome::Success(AuthUser { email: claims.sub }),
            Err(_) => AuthOutcome::Failure(Status::unauthorized(), ApiKeyError(String::from_str("Unable to authenticate"))),
        }
    }

    /// The first step of the guard: decides from a request's `Authorization`
    /// header, if it has one, whether it is refused at once or which bearer
    /// token is to be checked.
    pub fn check_header(header: Option<&str>) -> (c: HeaderCheck)
        ensures
            header_checked(header_view(header), c),
    {
        match header {
            None => HeaderCheck::Refused(
                AuthOutcome::Failure(Status::unauthorized(), ApiKeyError(String::from_str("Authorization header missing"))),
            ),
            Some(h) => {
                if !starts_with_bearer(h) {
                    return HeaderCheck::Refused(
                        AuthOutcome::Failure(
                            Status::unauthorized(),
                            ApiKeyError(String::from_str("Authorization header malformed")),
                        ),
                    );
                }
                proof {
                    reveal_strlit("Bearer ");
                }
                let n: usize = h.unicode_len();
                let token = h.substring_char(7, n);
                assert(token@ =~= h@.skip(7));
                HeaderCheck::Bearer(token.to_owned())
            },
        }
    }

    /// The second step of the guard: checks the bearer token against the
    /// server's token secret and decides which user the request is made for;
    /// beside the decision, the reason why the token was not accepted, if it
    /// was not.
    pub fn from_token(token: &str, secret: &str) -> (r: (AuthOutcome, Option<JwtError>))
        ensures
            outcome_of_token(token@, secret@, r.0),
            r.1 is None <==> r.0 is Success,
            r.1 matches Some(e) ==> decoded_from(token@, secret@, Err(e)),
            r.0 matches AuthOutcome::Success(u) ==> jwt_claim_str(token@, "sub"@) == Some(u.email@),
            exists|d: Result<Claims, JwtError>|
                #[trigger] call_ensures(decode_jwt, (token, secret), d) && match d {
                    Ok(c) => r.0 matches AuthOutcome::Success(u) && u.email@ == c.sub@ && r.1 is None,
                    Err(e) => refused_with(r.0, "Unable to authenticate"@) && r.1 == Some(e),
                },
    {
        let decoded = decode_jwt(token, secret);
        assert(call_ensures(decode_jwt, (token, secret), decoded));
        match decoded {
            Ok(claims) => (AuthUser::from_decoded(Ok(claims)), None),
            Err(e) => (
                AuthOutcome::Failure(Status::unauthorized(), ApiKeyError(String::from_str("Unable to authenticate"))),
                Some(e),
            ),
        }
    }

    /// The bearer-token guard: decides from a request's `Authorization`
    /// header, if it has one, and the server's token secret, which user the
    /// request is made for.
    pub fn from_request(header: Option<&str>, secret: &str) -> (o: AuthOutcome)
        ensures
            guard_decides(header_view(header), secret@, o),
            header matches Some(h) ==> (has_bearer_prefix(h@) ==> exists|t: &str, r: (AuthOutcome, Option<JwtError>)|
                t@ == h@.skip(bearer_prefix().len() as int) && #[trigger] call_ensures(AuthUser::from_token, (t, secret), r)
                    && r.0 == o),
    {
        match AuthUser::check_header(header) {
            HeaderCheck::Refused(o) => o,
            HeaderCheck::Bearer(token) => {
                let t = token.as_str();
                let r = AuthUser::from_token(t, secret);
                assert(call_ensures(AuthUser::from_token, (t, secret), r));
                r.0
            },
        }
    }
}

/// The answer to a registration, sign-in or password change.
#[derive(Debug)]
pub struct AuthResponse {
    pub session: Session,
    pub key_params: KeyParams,
    pub user: UserResponse,
}

impl AuthResponse {
    /// What an authentication answers for `user`: an empty session, the
    /// user's key parameters, and its key and email.
    pub open spec fn answers(self, user: User) -> bool {
        &&& self.session.is_empty()
        &&& self.key_params == KeyParams {
            created: user.created,
            identifier: user.identifier,
            origination: user.origination,
            pw_nonce: user.pw_nonce,
            version: user.version,
        }
        &&& self.user == UserResponse { uuid: user.uuid, email: user.email }
    }
}

/// An authentication answer for a user is determined by the user: two answers
/// for the same user show the same key parameters and user, and empty
/// sessions. So the answer made by taking a user and the one made by copying
/// it agree.
pub proof fn lemma_answer_determined(a: AuthResponse, b: AuthResponse, user: User)
    requires
        a.answers(user),
        b.answers(user),
    ensures
        a.key_params == b.key_params,
        a.user == b.user,
        a.session.is_empty() && b.session.is_empty(),
{
}

/// An authentication answer for a user shows that user's own key parameters
/// and identity field for field, with an empty session.
pub proof fn lemma_answer_shows_user(a: AuthResponse, user: User)
    requires
        a.answers(user),
    ensures
        a.session.access_token@.len() == 0 && a.session.refresh_token@.len() == 0,
        a.session.access_expiration == 0 && a.session.refresh_expiration == 0,
        a.key_params.created@ == user.created@,
        a.key_params.identifier@ == user.identifier@,
        a.key_params.origination@ == user.origination@,
        a.key_params.pw_nonce@ == user.pw_nonce@,
        a.key_params.version@ == user.version@,
        a.user.uuid@ == user.uuid@,
        a.user.email@ == user.email@,
{
}

impl From<User> for AuthResponse {
    /// The answer for a user, taking its strings.
    fn from(user: User) -> (r: AuthResponse)
        ensures
            r.answers(user),
            r.session.is_empty(),
            r.key_params.created@ == user.created@,
            r.key_params.identifier@ == user.identifier@,
            r.key_params.origination@ == user.origination@,
            r.key_params.pw_nonce@ == user.pw_nonce@,
            r.key_params.version@ == user.version@,
            r.user.uuid@ == user.uuid@,
            r.user.email@ == user.email@,
    {
        let key_params = KeyParams {
            created: user.created.clone(),
            identifier: user.identifier.clone(),
            origination: user.origination.clone(),
            pw_nonce: user.pw_nonce.clone(),
            version: user.version.clone(),
        };
        let r = AuthResponse {
            session: Session::default(),
            key_params,
            user: UserResponse { uuid: user.uuid.clone(), email: user.email },
        };
        r
    }
}

impl vstd::std_specs::convert::FromSpecImpl<User> for AuthResponse {
    /// The session's strings are new, so the answer is stated by
    /// `AuthResponse::answers` rather than as one value.
    open spec fn obeys_from_spec() -> bool {
        false
    }

    open spec fn from_spec(user: User) -> AuthResponse {
        arbitrary()
    }
}

impl<'a> From<&'a User> for AuthResponse {
    /// The answer for a user, copying its strings.
    fn from(user: &'a User) -> (r: AuthResponse)
        ensures
            r.answers(*user),
            r.session.is_empty(),
            r.key_params.created@ == user.created@,
            r.key_params.identifier@ == user.identifier@,
            r.key_params.origination@ == user.origination@,
            r.key_params.pw_nonce@ == user.pw_nonce@,
            r.key_params.version@ == user.version@,
            r.user.uuid@ == user.uuid@,
            r.user.email@ == user.email@,
    {
        AuthResponse {
            session: Session::default(),
            key_params: KeyParams {
                created: user.created.clone(),
                identifier: user.identifier.clone(),
                origination: user.origination.clone(),
                pw_nonce: user.pw_nonce.clone(),
                version: user.version.clone(),
            },
            user: UserResponse { uuid: user.uuid.clone(), email: user.email.clone() },
        }
    }
}

impl<'a> vstd::std_specs::convert::FromSpecImpl<&'a User> for AuthResponse {
    /// The session's strings are new, so the answer is stated by
    /// `AuthResponse::answers` rather than as one value.
    open spec fn obeys_from_spec() -> bool {
        false
    }

    open spec fn from_spec(user: &'a User) -> AuthResponse {
        arbitrary()
    }
}

/// A session's tokens and their lifetimes, in seconds.
#[derive(Debug)]
pub struct Session {
    pub access_token: String,
    pub refresh_token: String,
    pub access_expiration: usize,
    pub refresh_expiration: usize,
}

impl Session {
    /// Empty tokens and no lifetimes.
    pub open spec fn is_empty(self) -> bool {
        &&& self.access_token@ == Seq::<char>::empty()
        &&& self.refresh_token@ == Seq::<char>::empty()
        &&& self.access_expiration == 0
        &&& self.refresh_expiration == 0
    }

    /// A session with placeholder tokens, an access lifetime of 60 days and a
    /// refresh lifetime of a year.
    pub fn _new() -> (s: Session)
        ensures
            s.access_token@ == "blah"@,
            s.refresh_token@ == "blah"@,
            s.access_expiration == 5184000,
            s.refresh_expiration == 31557600,
    {
        Session {
            access_token: String::from_str("blah"),
            refresh_token: String::from_str("blah"),
            access_expiration: 5184000,
            refresh_expiration: 31557600,
        }
    }
}

impl Default for Session {
    fn default() -> (s: Session)
        ensures
            s.is_empty(),
    {
        Session {
            access_token: String::new(),
            refresh_token: String::new(),
            access_expiration: 0,
            refresh_expiration: 0,
        }
    }
}

/// The parameters from which a client derives a user's keys.
#[derive(Debug)]
pub struct KeyParams {
    pub created: String,
    pub identifier: String,
    pub origination: String,
    pub pw_nonce: String,
    pub version: String,
}

impl KeyParams {
    /// All strings empty.
    pub open spec fn is_empty(self) -> bool {
        &&& self.created@ == Seq::<char>::empty()
        &&& self.identifier@ == Seq::<char>::empty()
        &&& self.origination@ == Seq::<char>::empty()
        &&& self.pw_nonce@ == Seq::<char>::empty()
        &&& self.version@ == Seq::<char>::empty()
    }
}

impl Default for KeyParams {
    fn default() -> (k: KeyParams)
        ensures
            k.is_empty(),
    {
        KeyParams {
            created: String::new(),
            identifier: String::new(),
            origination: String::new(),
            pw_nonce: String::new(),
            version: String::new(),
        }
    }
}

/// A user as an authentication answer shows it.
#[derive(Debug)]
pub struct UserResponse {
    pub uuid: String,
    pub email: String,
}

impl UserResponse {
    /// Both strings empty.
    pub open spec fn is_empty(self) -> bool {
        &&& self.uuid@ == Seq::<char>::empty()
        &&& self.email@ == Seq::<char>::empty()
    }
}

impl Default for UserResponse {
    fn default() -> (u: UserResponse)
        ensures
            u.is_empty(),
    {
        UserResponse { uuid: String::new(), email: String::new() }
    }
}

/// Why a request could not be authenticated.
#[derive(Debug)]
pub struct ApiKeyError(pub String);

/// A session as it is stored.
#[derive(Debug)]
pub struct FullSession {
    pub uuid: String,
    pub user_uuid: String,
    pub user_agent: String,
    pub api_version: String,
    pub access_token: String,
    pub refresh_token: String,
    pub access_expiration: String,
    pub renew_expiration: String,
    pub created_at: String,
    pub updated_at: String,
}

/// A list of a user's sessions.
#[derive(Debug)]
pub struct SessionsResponse {
    pub sessions: Vec<SessionResponse>,
}

/// One session of a list of sessions.
#[derive(Debug)]
pub struct SessionResponse {
    pub uuid: String,
    pub user_agent: String,
    pub api_version: String,
    pub current: bool,
    pub created_at: String,
}

/// An error answer with a tag and a message.
#[derive(Debug)]
pub struct ErrorResponse {
    pub error: Error,
}

/// The error of an error answer.
#[derive(Debug)]
pub struct Error {
    pub tag: String,
    pub message: String,
}

/// The answer to a session refresh.
#[derive(Debug)]
pub struct RefreshResponse {
    pub token: String,
    pub session: RefreshSession,
}

/// The refreshed part of a session.
#[derive(Debug)]
pub struct RefreshSession {
    pub refresh_expiration: usize,
    pub refresh_token: String,
}

} // verus!
