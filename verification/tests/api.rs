use standardnotes_rs::api::{auth, bad_request, build_api_error, not_found, server_error, session, sync, unauthorized};
use standardnotes_rs::models::{
    ChangePassword, Item, SignIn, Sync, User, UserQuery,
};
use standardnotes_rs::{rocket, Handler, Method};

fn user(n: &str) -> User {
    User {
        uuid: format!("uuid-{}", n),
        api: String::from("api"),
        created: String::from("created"),
        email: format!("{}@x.y", n),
        identifier: format!("id-{}", n),
        origination: String::from("orig"),
        password: String::from("pw"),
        pw_nonce: format!("nonce-{}", n),
        version: String::from("003"),
    }
}

fn item(uuid: &str) -> Item {
    Item {
        uuid: String::from(uuid),
        content: String::from("c"),
        content_type: String::from("Note"),
        enc_item_key: String::from("k"),
        deleted: false,
        created_at: String::from("t0"),
        updated_at: String::from("t1"),
    }
}

#[test]
fn build_api_error_has_one_message() {
    let e = build_api_error("Some error");
    assert_eq!(e.errors, vec![String::from("Some error")]);
}

#[test]
fn bad_request_body() {
    let e = bad_request().unwrap_err();
    assert_eq!(e.body(), "{\"errors\":[\"Bad request\"]}");
}

#[test]
fn unauthorized_body() {
    let e = unauthorized().unwrap_err();
    assert_eq!(e.body(), "{\"errors\":[\"Unauthorized\"]}");
}

#[test]
fn not_found_body() {
    let e = not_found().unwrap_err();
    assert_eq!(e.body(), "{\"errors\":[\"Not found\"]}");
}

#[test]
fn server_error_body() {
    let e = server_error().unwrap_err();
    assert_eq!(e.body(), "{\"errors\":[\"Server error\"]}");
}

#[test]
fn create_user_answers_created_user() {
    let a = auth::create_user(user("a")).unwrap();
    assert_eq!(a.user.uuid, "uuid-a");
    assert_eq!(a.user.email, "a@x.y");
    assert_eq!(a.key_params.identifier, "id-a");
    assert_eq!(a.key_params.pw_nonce, "nonce-a");
    assert_eq!(a.session.access_token, "");
}

#[test]
fn sign_in_query_and_answer() {
    let req = SignIn {
        api: String::from("api"),
        email: String::from("a@x.y"),
        ephemeral: false,
        password: String::from("pw"),
    };
    match auth::sign_in_query(&req) {
        UserQuery::ByCredentials { email, password } => {
            assert_eq!(email, "a@x.y");
            assert_eq!(password, "pw");
        }
        q => panic!("unexpected query {:?}", q),
    }
    let a = auth::sign_in(&vec![user("a"), user("b")]).unwrap();
    assert_eq!(a.user.email, "a@x.y");
    assert_eq!(a.key_params.identifier, "id-a");
}

#[test]
fn params_query_and_answer() {
    match auth::params_query("a@x.y", "api") {
        UserQuery::ByEmail { email } => assert_eq!(email, "a@x.y"),
        q => panic!("unexpected query {:?}", q),
    }
    let p = auth::params(&vec![user("b"), user("a")]).unwrap();
    assert_eq!(p.identifier, "id-b");
    assert_eq!(p.pw_nonce, "nonce-b");
    assert_eq!(p.version, "003");
}

#[test]
fn change_pw_query_and_answer() {
    let req = ChangePassword {
        api: String::from("api"),
        created: String::from("created"),
        identifier: String::from("a@x.y"),
        origination: String::from("orig"),
        current_password: String::from("old"),
        new_password: String::from("new"),
        pw_nonce: String::from("n"),
        version: String::from("003"),
    };
    match auth::change_pw_query(&req) {
        UserQuery::UpdatePassword { identifier, current_password, new_password } => {
            assert_eq!(identifier, "a@x.y");
            assert_eq!(current_password, "old");
            assert_eq!(new_password, "new");
        }
        q => panic!("unexpected query {:?}", q),
    }
    let a = auth::change_pw(user("c")).unwrap();
    assert_eq!(a.user.uuid, "uuid-c");
}

#[test]
fn status_only_handlers() {
    assert_eq!(auth::sign_out().unwrap().code, 204);
    assert_eq!(auth::params_options(String::from("a@x.y")).unwrap().code, 204);
    assert_eq!(session::delete_session(String::from("s")).unwrap().code, 204);
    assert_eq!(session::delete_sessions().unwrap().code, 204);
    assert_eq!(session::get_sessions().unwrap().code, 200);
    assert_eq!(session::refresh_session(String::from("t")).unwrap().code, 200);
}

#[test]
fn sync_saves_sent_items() {
    let req = Sync { items: vec![item("i1"), item("i2")], sync_token: String::new(), limit: None };
    let r = sync::sync(req, Some(item("i1"))).unwrap();
    let saved = r.saved_items.unwrap();
    assert_eq!(saved.len(), 2);
    assert_eq!(saved[0].uuid, "i1");
    assert_eq!(saved[1].uuid, "i2");
    assert!(r.retrieved_items.is_none());
    assert!(r.unsaved.is_none());
    assert!(r.sync_token.is_none());
}

#[test]
fn sync_fails_when_store_refuses() {
    let req = Sync { items: vec![item("i1")], sync_token: String::new(), limit: None };
    let e = sync::sync(req, None).unwrap_err();
    assert_eq!(e.errors, vec![String::from("Error syncing item")]);
}

#[test]
fn route_table() {
    let r = rocket();
    let routes: Vec<(String, Method, String, Handler)> = r
        .routes
        .into_iter()
        .map(|x| (x.base, x.method, x.uri, x.handler))
        .collect();
    let expected = vec![
        ("/auth", Method::Post, "/", Handler::CreateUser),
        ("/auth", Method::Post, "/sign_in", Handler::SignIn),
        ("/auth", Method::Post, "/sign_out", Handler::SignOut),
        ("/auth", Method::Get, "/params?<_email>&<_api>", Handler::Params),
        ("/auth", Method::Options, "/params/<_params_email>", Handler::ParamsOptions),
        ("/auth", Method::Post, "/change_pw", Handler::ChangePw),
        ("/", Method::Delete, "/session", Handler::DeleteSession),
        ("/", Method::Delete, "/sessions", Handler::DeleteSessions),
        ("/", Method::Get, "/sessions", Handler::GetSessions),
        ("/", Method::Post, "/session/token/refresh", Handler::RefreshSession),
        ("/items", Method::Post, "/sync", Handler::Sync),
    ];
    assert_eq!(routes.len(), expected.len());
    for (got, want) in routes.iter().zip(expected.iter()) {
        assert_eq!(got.0, want.0);
        assert_eq!(got.1, want.1);
        assert_eq!(got.2, want.2);
        assert_eq!(got.3, want.3);
    }
    assert_eq!(r.catchers, vec![400, 401, 404, 500]);
}
