//! The logic of a synchronisation server for Standard Notes: the request and
//! response models, the bearer-token guard, JWT building and checking, the
//! handlers' decisions and the server's route table.

pub mod api;
pub mod jwt;
pub mod models;

use vstd::prelude::*;

verus! {

/// An HTTP method that a route answers.
#[derive(Debug, Clone, Copy, PartialEq, Eq, Structural)]
pub enum Method {
    Get,
    Post,
    Delete,
    Options,
}

/// A request handler of the server.
#[derive(Debug, Clone, Copy, PartialEq, Eq, Structural)]
pub enum Handler {
    CreateUser,
    SignIn,
    SignOut,
    Params,
    ParamsOptions,
    ChangePw,
    DeleteSession,
    DeleteSessions,
    GetSessions,
    RefreshSession,
    Sync,
}

/// A route: the handler that answers `method` on `uri` under the mount point
/// `base`. The URI is a template: `<name>` stands for a segment or a query
/// value.
#[derive(Debug)]
pub struct Route {
    pub base: String,
    pub method: Method,
    pub uri: String,
    pub handler: Handler,
}

impl Route {
    /// The route as plain values: mount point, method, URI, handler.
    pub open spec fn spec_view(self) -> (Seq<char>, Method, Seq<char>, Handler) {
        (self.base@, self.method, self.uri@, self.handler)
    }
}

/// A server ready for launch: its routes, and the status codes whose failed
/// requests it answers itself.
#[derive(Debug)]
pub struct Rocket {
    pub routes: Vec<Route>,
    pub catchers: Vec<u16>,
}

impl Rocket {
    /// The routes as plain values, in order.
    pub open spec fn routes_view(self) -> Seq<(Seq<char>, Method, Seq<char>, Handler)> {
        self.routes@.map_values(|r: Route| r.spec_view())
    }
}

/// The server's routes: the account handlers under `/auth`, the session
/// handlers under `/`, and synchronisation under `/items`.
pub open spec fn server_routes() -> Seq<(Seq<char>, Method, Seq<char>, Handler)> {
    seq![
        ("/auth"@, Method::Post, "/"@, Handler::CreateUser),
        ("/auth"@, Method::Post, "/sign_in"@, Handler::SignIn),
        ("/auth"@, Method::Post, "/sign_out"@, Handler::SignOut),
        ("/auth"@, Method::Get, "/params?<_email>&<_api>"@, Handler::Params),
        ("/auth"@, Method::Options, "/params/<_params_email>"@, Handler::ParamsOptions),
        ("/auth"@, Method::Post, "/change_pw"@, Handler::ChangePw),
        ("/"@, Method::Delete, "/session"@, Handler::DeleteSession),
        ("/"@, Method::Delete, "/sessions"@, Handler::DeleteSessions),
        ("/"@, Method::Get, "/sessions"@, Handler::GetSessions),
        ("/"@, Method::Post, "/session/token/refresh"@, Handler::RefreshSession),
        ("/items"@, Method::Post, "/sync"@, Handler::Sync),
    ]
}

/// The status codes whose failed requests the server answers with an error
/// body: 400, 401, 404 and 500.
pub open spec fn server_catchers() -> Seq<u16> {
    seq![400u16, 401u16, 404u16, 500u16]
}

/// Builds a route.
fn route(base: &str, method: Method, uri: &str, handler: Handler) -> (r: Route)
    ensures
        r.spec_view() == (base@, method, uri@, handler),
{
    Route { base: base.to_owned(), method, uri: uri.to_owned(), handler }
}

/// Makes a server that is ready for launch.
pub fn rocket() -> (r: Rocket)
    ensures
        r.routes_view() == server_routes(),
        r.catchers@ == server_catchers(),
{
    let mut routes: Vec<Route> = Vec::new();
    routes.push(route("/auth", Method::Post, "/", Handler::CreateUser));
    routes.push(route("/auth", Method::Post, "/sign_in", Handler::SignIn));
    routes.push(route("/auth", Method::Post, "/sign_out", Handler::SignOut));
    routes.push(route("/auth", Method::Get, "/params?<_email>&<_api>", Handler::Params));
    routes.push(route("/auth", Method::Options, "/params/<_params_email>", Handler::ParamsOptions));
    routes.push(route("/auth", Method::Post, "/change_pw", Handler::ChangePw));
    routes.push(route("/", Method::Delete, "/session", Handler::DeleteSession));
    routes.push(route("/", Method::Delete, "/sessions", Handler::DeleteSessions));
    routes.push(route("/", Method::Get, "/sessions", Handler::GetSessions));
    routes.push(route("/", Method::Post, "/session/token/refresh", Handler::RefreshSession));
    routes.push(route("/items", Method::Post, "/sync", Handler::Sync));
    let mut catchers: Vec<u16> = Vec::new();
    catchers.push(400);
    catchers.push(401);
    catchers.push(404);
    catchers.push(500);
    let r = Rocket { routes, catchers };
    assert(r.routes_view() =~= server_routes());
    assert(r.catchers@ =~= server_catchers());
    r
}

/// No two routes of the server answer the same method on the same URI under
/// the same mount point, so none hides another.
pub proof fn lemma_routes_distinct()
    ensures
        forall|i: int, j: int|
            0 <= i < j < server_routes().len() ==> {
                let a = #[trigger] server_routes()[i];
                let b = #[trigger] server_routes()[j];
                a.0 != b.0 || a.1 != b.1 || a.2 != b.2
            },
{
    reveal_strlit("/auth");
    reveal_strlit("/");
    reveal_strlit("/items");
    reveal_strlit("/sign_in");
    reveal_strlit("/sign_out");
    reveal_strlit("/params?<_email>&<_api>");
    reveal_strlit("/params/<_params_email>");
    reveal_strlit("/change_pw");
    reveal_strlit("/session");
    reveal_strlit("/sessions");
    reveal_strlit("/session/token/refresh");
    reveal_strlit("/sync");
    let rs = server_routes();
    assert forall|i: int, j: int| 0 <= i < j < rs.len() implies
        rs[i].0.len() != rs[j].0.len() || rs[i].1 != rs[j].1 || rs[i].2.len() != rs[j].2.len() by {
    }
}

/// Some route of the server is answered by `h`.
pub open spec fn is_mounted(h: Handler) -> bool {
    exists|i: int| 0 <= i < server_routes().len() && (#[trigger] server_routes()[i]).3 == h
}

/// Every handler of the server is mounted, and on one route only.
pub proof fn lemma_each_handler_mounted_once()
    ensures
        forall|h: Handler| #[trigger] is_mounted(h),
        forall|i: int, j: int|
            0 <= i < j < server_routes().len() ==> (#[trigger] server_routes()[i]).3 != (#[trigger] server_routes()[j]).3,
{
    let rs = server_routes();
    assert forall|h: Handler| #[trigger] is_mounted(h) by {
        match h {
            Handler::CreateUser => assert(rs[0].3 == h),
            Handler::SignIn => assert(rs[1].3 == h),
            Handler::SignOut => assert(rs[2].3 == h),
            Handler::Params => assert(rs[3].3 == h),
            Handler::ParamsOptions => assert(rs[4].3 == h),
            Handler::ChangePw => assert(rs[5].3 == h),
            Handler::DeleteSession => assert(rs[6].3 == h),
            Handler::DeleteSessions => assert(rs[7].3 == h),
            Handler::GetSessions => assert(rs[8].3 == h),
            Handler::RefreshSession => assert(rs[9].3 == h),
            Handler::Sync => assert(rs[10].3 == h),
        }
    }
}

/// The server answers each status code with one catcher only.
pub proof fn lemma_catchers_distinct()
    ensures
        forall|i: int, j: int|
            0 <= i < j < server_catchers().len() ==> #[trigger] server_catchers()[i] != #[trigger] server_catchers()[j],
{
}

} // verus!
