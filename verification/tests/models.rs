use standardnotes_rs::jwt::_build_jwt;
use standardnotes_rs::models::{
    ApiError, AuthOutcome, HeaderCheck, AuthResponse, AuthUser, CreateUser, KeyParams, NewUser, ParamsResponse,
    Session, User, UserResponse,
};

fn sample_user() -> User {
    User {
        uuid: String::from("u-1"),
        api: String::from("20190520"),
        created: String::from("2020-01-01"),
        email: String::from("a@b.c"),
        identifier: String::from("a@b.c"),
        origination: String::from("registration"),
        password: String::from("pw"),
        pw_nonce: String::from("nonce"),
        version: String::from("003"),
    }
}

fn check_answer(r: &AuthResponse) {
    assert_eq!(r.session.access_token, "");
    assert_eq!(r.session.refresh_token, "");
    assert_eq!(r.session.access_expiration, 0);
    assert_eq!(r.session.refresh_expiration, 0);
    assert_eq!(r.key_params.created, "2020-01-01");
    assert_eq!(r.key_params.identifier, "a@b.c");
    assert_eq!(r.key_params.origination, "registration");
    assert_eq!(r.key_params.pw_nonce, "nonce");
    assert_eq!(r.key_params.version, "003");
    assert_eq!(r.user.uuid, "u-1");
    assert_eq!(r.user.email, "a@b.c");
}

#[test]
fn error_body_of_one_message() {
    let e = ApiError { errors: vec![String::from("Bad request")] };
    assert_eq!(e.body(), "{\"errors\":[\"Bad request\"]}");
}

#[test]
fn error_body_joins_messages() {
    let e = ApiError { errors: vec![String::from("one"), String::from("two"), String::from("three")] };
    assert_eq!(e.body(), "{\"errors\":[\"one, two, three\"]}");
}

#[test]
fn error_body_without_messages() {
    let e = ApiError { errors: vec![] };
    assert_eq!(e.body(), "{\"errors\":[\"\"]}");
}

#[test]
fn new_user_from_registration() {
    let c = CreateUser {
        api: String::from("api"),
        created: String::from("created"),
        email: String::from("e@x.y"),
        ephemeral: true,
        identifier: String::from("id"),
        origination: String::from("orig"),
        password: String::from("pw"),
        pw_nonce: String::from("nonce"),
        version: String::from("003"),
    };
    let n = NewUser::from(c);
    assert_eq!(n.api, "api");
    assert_eq!(n.created, "created");
    assert_eq!(n.email, "e@x.y");
    assert_eq!(n.identifier, "id");
    assert_eq!(n.origination, "orig");
    assert_eq!(n.password, "pw");
    assert_eq!(n.pw_nonce, "nonce");
    assert_eq!(n.version, "003");
}

#[test]
fn params_response_from_user() {
    let u = sample_user();
    let p = ParamsResponse::from(&u);
    assert_eq!(p.identifier, "a@b.c");
    assert_eq!(p.pw_nonce, "nonce");
    assert_eq!(p.version, "003");
}

#[test]
fn auth_response_from_user_and_from_ref_agree() {
    let u = sample_user();
    let by_ref = AuthResponse::from(&u);
    check_answer(&by_ref);
    let by_value = AuthResponse::from(u);
    check_answer(&by_value);
}

#[test]
fn session_defaults_and_new() {
    let d = Session::default();
    assert_eq!(d.access_token, "");
    assert_eq!(d.refresh_token, "");
    assert_eq!(d.access_expiration, 0);
    assert_eq!(d.refresh_expiration, 0);
    let s = Session::_new();
    assert_eq!(s.access_token, "blah");
    assert_eq!(s.refresh_token, "blah");
    assert_eq!(s.access_expiration, 5184000);
    assert_eq!(s.refresh_expiration, 31557600);
    let k = KeyParams::default();
    assert_eq!(k.created, "");
    assert_eq!(k.version, "");
    let u = UserResponse::default();
    assert_eq!(u.uuid, "");
    assert_eq!(u.email, "");
}

fn refusal(o: AuthOutcome) -> (u16, String) {
    match o {
        AuthOutcome::Failure(s, e) => (s.code, e.0),
        AuthOutcome::Success(u) => panic!("accepted {}", u.email),
    }
}

#[test]
fn guard_refuses_missing_header() {
    assert_eq!(
        refusal(AuthUser::from_request(None, "test_secret")),
        (401, String::from("Authorization header missing"))
    );
}

#[test]
fn guard_refuses_malformed_header() {
    let token = _build_jwt("a@b.c", "test_secret").unwrap();
    let basic = format!("Basic {}", token);
    assert_eq!(
        refusal(AuthUser::from_request(Some(&basic), "test_secret")),
        (401, String::from("Authorization header malformed"))
    );
    assert_eq!(
        refusal(AuthUser::from_request(Some("Bearer"), "test_secret")),
        (401, String::from("Authorization header malformed"))
    );
    assert_eq!(
        refusal(AuthUser::from_request(Some("bearer x"), "test_secret")),
        (401, String::from("Authorization header malformed"))
    );
}

#[test]
fn guard_accepts_token_of_the_server() {
    let token = _build_jwt("a@b.c", "test_secret").unwrap();
    let header = format!("Bearer {}", token);
    match AuthUser::from_request(Some(&header), "test_secret") {
        AuthOutcome::Success(u) => assert_eq!(u.email, "a@b.c"),
        AuthOutcome::Failure(_, e) => panic!("refused: {}", e.0),
    }
}

#[test]
fn guard_refuses_bad_token() {
    assert_eq!(
        refusal(AuthUser::from_request(Some("Bearer not-a-token"), "test_secret")),
        (401, String::from("Unable to authenticate"))
    );
    let token = _build_jwt("a@b.c", "test_secret").unwrap();
    let header = format!("Bearer {}", token);
    assert_eq!(
        refusal(AuthUser::from_request(Some(&header), "other_secret")),
        (401, String::from("Unable to authenticate"))
    );
}

#[test]
fn guard_steps() {
    match AuthUser::check_header(Some("Bearer abc.def")) {
        HeaderCheck::Bearer(t) => assert_eq!(t, "abc.def"),
        HeaderCheck::Refused(_) => panic!("refused"),
    }
    match AuthUser::check_header(None) {
        HeaderCheck::Refused(o) => assert_eq!(refusal(o), (401, String::from("Authorization header missing"))),
        HeaderCheck::Bearer(_) => panic!("accepted"),
    }
    assert_eq!(refusal(AuthUser::from_token("abc", "test_secret").0), (401, String::from("Unable to authenticate")));
    let token = _build_jwt("a@b.c", "test_secret").unwrap();
    match AuthUser::from_token(&token, "test_secret").0 {
        AuthOutcome::Success(u) => assert_eq!(u.email, "a@b.c"),
        AuthOutcome::Failure(_, e) => panic!("refused: {}", e.0),
    }
}

#[test]
fn guard_token_step_gives_the_reason() {
    let (o, e) = AuthUser::from_token("abc", "test_secret");
    assert!(matches!(o, AuthOutcome::Failure(_, _)));
    assert!(e.is_some());
    let token = _build_jwt("a@b.c", "test_secret").unwrap();
    let (o, e) = AuthUser::from_token(&token, "test_secret");
    assert!(matches!(o, AuthOutcome::Success(_)));
    assert!(e.is_none());
}
