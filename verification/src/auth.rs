//! Signing in: the request, and what the reply means.

use vstd::prelude::*;
use crate::json::{json_text_at, text_at};
use crate::text::join;

verus! {

/// The user who signed in.
pub struct User {
    pub id: Option<String>,
    pub nombre: Option<String>,
    pub email: String,
    pub suscripcion: Option<String>,
}

/// What the service answers to a login that it accepts.
pub struct AuthResponse {
    pub mensaje: Option<String>,
    pub token: String,
    pub usuario: User,
}

/// The request that signs a user in.
pub struct LoginRequest {
    /// Where the `POST` goes.
    pub url: String,
    /// The `Content-Type` header.
    pub content_type: String,
    /// The two members of the body.
    pub email: String,
    pub password: String,
}

/// The request that signs in at the server `server_url`.
pub fn login_request(email: String, password: String, server_url: &str) -> (request: LoginRequest)
    ensures
        request.url@ == server_url@ + "/api/auth/login"@,
        request.content_type@ == "application/json"@,
        request.email == email,
        request.password == password,
{
    LoginRequest {
        url: join(server_url, "/api/auth/login"),
        content_type: "application/json".to_owned(),
        email,
        password,
    }
}

/// What came back for a `LoginRequest`.
pub enum LoginReply {
    /// The request could not be sent; the transport's message.
    Unreachable(String),
    /// The service accepted the login; the body read as its answer, or the
    /// reason why it holds none.
    Accepted(Result<AuthResponse, String>),
    /// The service refused the login; the body.
    Refused(String),
}

/// The sentence for a refusal that gives no reason.
pub const LOGIN_REFUSED: &'static str = "Error de autenticación";

/// Why a reply signs nobody in; `None` where it signs the user in. A refusal
/// fails with the message that the service put under `error` in its body,
/// and with a fixed sentence where there is no such message.
pub open spec fn login_failure(reply: LoginReply) -> Option<Seq<char>> {
    match reply {
        LoginReply::Unreachable(reason) => Some("Error de conexión: "@ + reason@),
        LoginReply::Accepted(Ok(_)) => None,
        LoginReply::Accepted(Err(reason)) => Some("Error al decodificar respuesta: "@ + reason@),
        LoginReply::Refused(body) => match json_text_at(body@, "/error"@) {
            Some(message) => Some(message),
            None => Some(LOGIN_REFUSED@),
        },
    }
}

/// The user and the token that a reply holds, or the sentence that says why
/// it holds none.
pub fn login(reply: LoginReply) -> (outcome: Result<AuthResponse, String>)
    ensures
        outcome is Ok <==> login_failure(reply) is None,
        outcome matches Ok(answer) ==> reply == LoginReply::Accepted(Ok(answer)),
        outcome matches Err(message) ==> login_failure(reply) == Some(message@),
{
    match reply {
        LoginReply::Unreachable(reason) => Err(join("Error de conexión: ", reason.as_str())),
        LoginReply::Accepted(Ok(answer)) => Ok(answer),
        LoginReply::Accepted(Err(reason)) => Err(
            join("Error al decodificar respuesta: ", reason.as_str()),
        ),
        LoginReply::Refused(body) => match text_at(body.as_str(), "/error") {
            Some(message) => Err(message),
            None => Err(LOGIN_REFUSED.to_owned()),
        },
    }
}

/// Whether a token can be used: any token that is not empty can. The server
/// is not asked.
pub fn verify_token(token: &str, server_url: &str) -> (valid: Result<bool, String>)
    ensures
        valid == Ok::<bool, String>(token@.len() > 0),
{
    Ok(!token.is_empty())
}

} // verus!
