//! Account handlers: registration, sign-in and sign-out, key parameters and
//! password changes. Each one that needs the store of users is split in two:
//! what to ask of the store, and what to answer with what the store gave.

use crate::models::{
    ApiResponse, AuthResponse, ChangePassword, ParamsResponse, SignIn, Status, User, UserQuery,
};
use vstd::prelude::*;

verus! {

/// Answers a registration with the user that the store created from it (the
/// store is given `NewUser::from` of the request).
pub fn create_user(created: User) -> (r: ApiResponse<AuthResponse>)
    ensures
        r matches Ok(a) && a.answers(created),
{
    Ok(AuthResponse::from(created))
}

/// What a sign-in asks of the store: the first user with the request's email
/// and password.
pub fn sign_in_query(sign_in: &SignIn) -> (q: UserQuery)
    ensures
        q == (UserQuery::ByCredentials { email: sign_in.email, password: sign_in.password }),
{
    UserQuery::ByCredentials { email: sign_in.email.clone(), password: sign_in.password.clone() }
}

/// Answers a sign-in with the users that the store found: the first one.
pub fn sign_in(found: &Vec<User>) -> (r: ApiResponse<AuthResponse>)
    requires
        found.len() > 0,
    ensures
        r matches Ok(a) && a.answers(found[0]),
{
    Ok(AuthResponse::from(&found[0]))
}

/// Signs out: answers 204 No Content.
pub fn sign_out() -> (r: ApiResponse<Status>)
    ensures
        r matches Ok(s) && s.code == 204,
{
    Ok(Status::no_content())
}

/// What a key-parameters request asks of the store: the first user with the
/// request's email, whatever the API version.
pub fn params_query(email: &str, _api: &str) -> (q: UserQuery)
    ensures
        q matches UserQuery::ByEmail { email: e } && e@ == email@,
{
    UserQuery::ByEmail { email: email.to_owned() }
}

/// Answers a key-parameters request with the users that the store found: the
/// key parameters of the first one.
pub fn params(found: &Vec<User>) -> (r: ApiResponse<ParamsResponse>)
    requires
        found.len() > 0,
    ensures
        r matches Ok(p) && p == (ParamsResponse {
            identifier: found[0].identifier,
            pw_nonce: found[0].pw_nonce,
            version: found[0].version,
        }),
{
    Ok(ParamsResponse::from(&found[0]))
}

/// Answers the pre-flight request for key parameters: 204 No Content.
pub fn params_options(_params_email: String) -> (r: ApiResponse<Status>)
    ensures
        r matches Ok(s) && s.code == 204,
{
    Ok(Status::no_content())
}

/// What a password change asks of the store: set the password of the user
/// keyed by the request's identifier to the new password, where its password
/// is the current one.
pub fn change_pw_query(change_pw: &ChangePassword) -> (q: UserQuery)
    ensures
        q == (UserQuery::UpdatePassword {
            identifier: change_pw.identifier,
            current_password: change_pw.current_password,
            new_password: change_pw.new_password,
        }),
{
    UserQuery::UpdatePassword {
        identifier: change_pw.identifier.clone(),
        current_password: change_pw.current_password.clone(),
        new_password: change_pw.new_password.clone(),
    }
}

/// Answers a password change with the user that the store updated.
pub fn change_pw(updated: User) -> (r: ApiResponse<AuthResponse>)
    ensures
        r matches Ok(a) && a.answers(updated),
{
    Ok(AuthResponse::from(updated))
}

} // verus!
