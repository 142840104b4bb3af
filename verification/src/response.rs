//! HTTP-shaped responses and the rendering of provider outcomes into them.
//!
//! The gateway answers with one of three fixed plain-text diagnostics, an
//! empty `405`, or a `200` whose JSON body echoes what the identity provider
//! returned: the user snapshot for a read, or the authentication outcome for a
//! password flow.

use vstd::prelude::*;

use crate::text::{json_escape, json_escaped};

verus! {

/// An HTTP-shaped response: status code, body text, and whether the body is
/// JSON (the embedding program turns `json` into a `Content-Type` header).
#[derive(Debug, Clone)]
pub struct HttpResponse {
    pub status: u16,
    pub body: String,
    pub json: bool,
}

/// The mathematical value of an [`HttpResponse`].
#[verifier::ext_equal]
pub struct ResponseModel {
    pub status: int,
    pub body: Seq<char>,
    pub json: bool,
}

impl View for HttpResponse {
    type V = ResponseModel;

    open spec fn view(&self) -> ResponseModel {
        ResponseModel { status: self.status as int, body: self.body@, json: self.json }
    }
}

/// What the identity provider reports of a user on a read: whether the
/// account is enabled, and the account status rendered as text.
#[derive(Debug, Clone)]
pub struct UserSnapshot {
    pub enabled: bool,
    pub status: String,
}

/// The mathematical value of a [`UserSnapshot`].
#[verifier::ext_equal]
pub struct UserSnapshotModel {
    pub enabled: bool,
    pub status: Seq<char>,
}

impl View for UserSnapshot {
    type V = UserSnapshotModel;

    open spec fn view(&self) -> UserSnapshotModel {
        UserSnapshotModel { enabled: self.enabled, status: self.status@ }
    }
}

/// What the identity provider reports when a password authentication flow is
/// started: a rendering of the authentication result (absent when a challenge
/// is issued instead), a rendering of the challenge name, and the opaque
/// session token of a multi-step challenge.
#[derive(Debug, Clone)]
pub struct AuthOutcome {
    pub auth_result: Option<String>,
    pub challenge_name: Option<String>,
    pub session: Option<String>,
}

/// The mathematical value of an [`AuthOutcome`].
#[verifier::ext_equal]
pub struct AuthOutcomeModel {
    pub auth_result: Option<Seq<char>>,
    pub challenge_name: Option<Seq<char>>,
    pub session: Option<Seq<char>>,
}

impl View for AuthOutcome {
    type V = AuthOutcomeModel;

    open spec fn view(&self) -> AuthOutcomeModel {
        AuthOutcomeModel {
            auth_result: self.auth_result.deep_view(),
            challenge_name: self.challenge_name.deep_view(),
            session: self.session.deep_view(),
        }
    }
}

/// The `500` answer when no user pool was resolved at startup.
pub open spec fn pool_unresolved_reply() -> ResponseModel {
    ResponseModel { status: 500, body: "UsersPoolNotFound"@, json: false }
}

/// The `400` answer when the request body is absent or not a valid payload.
pub open spec fn missing_payload_reply() -> ResponseModel {
    ResponseModel { status: 400, body: "PayloadDoesntExist"@, json: false }
}

/// The `400` answer when an authentication request carries no password.
pub open spec fn missing_password_reply() -> ResponseModel {
    ResponseModel { status: 400, body: "NotFoundPasswordForAuth"@, json: false }
}

/// The empty `405` answer for a method that is neither GET nor POST.
pub open spec fn unsupported_method_reply() -> ResponseModel {
    ResponseModel { status: 405, body: Seq::empty(), json: false }
}

/// The JSON body answering a user read: the pool id, the enabled flag, and
/// the status text, each value taken verbatim (JSON-escaped) from its source.
pub open spec fn user_reply_body(pool_id: Seq<char>, user: UserSnapshotModel) -> Seq<char> {
    "{\"pool-id\":\""@ + json_escaped(pool_id) + "\",\"user-enabled\":"@ + (if user.enabled {
        "true"@
    } else {
        "false"@
    }) + ",\"user-status\":\""@ + json_escaped(user.status) + "\"}"@
}

/// The `200` answer to a user read.
pub open spec fn user_reply(pool_id: Seq<char>, user: UserSnapshotModel) -> ResponseModel {
    ResponseModel { status: 200, body: user_reply_body(pool_id, user), json: true }
}

/// The text standing for an optional value: the value itself, or empty.
pub open spec fn opt_text(o: Option<Seq<char>>) -> Seq<char> {
    match o {
        Some(s) => s,
        None => Seq::empty(),
    }
}

/// The JSON body answering an authentication request: the provider's
/// authentication result and challenge name as (possibly empty) strings, and
/// the session token as a string or `null`, each value taken verbatim
/// (JSON-escaped) from the outcome.
pub open spec fn auth_reply_body(outcome: AuthOutcomeModel) -> Seq<char> {
    "{\"auth-result\":\""@ + json_escaped(opt_text(outcome.auth_result))
        + "\",\"challenge-name\":\""@ + json_escaped(opt_text(outcome.challenge_name))
        + "\",\"session\":"@ + (match outcome.session {
        Some(s) => "\""@ + json_escaped(s) + "\""@,
        None => "null"@,
    }) + "}"@
}

/// The `200` answer to an authentication request.
pub open spec fn auth_reply(outcome: AuthOutcomeModel) -> ResponseModel {
    ResponseModel { status: 200, body: auth_reply_body(outcome), json: true }
}

/// Renders the `200` answer to a user read: exactly the pool id, enabled
/// flag, and status string the provider returned, shaped as JSON.
pub fn render_user_response(pool_id: &str, user: &UserSnapshot) -> (r: HttpResponse)
    ensures
        r@ == user_reply(pool_id@, user@),
{
    let mut body = String::from_str("{\"pool-id\":\"");
    let escaped_pool = json_escape(pool_id);
    body.append(escaped_pool.as_str());
    body.append("\",\"user-enabled\":");
    if user.enabled {
        body.append("true");
    } else {
        body.append("false");
    }
    body.append(",\"user-status\":\"");
    let escaped_status = json_escape(user.status.as_str());
    body.append(escaped_status.as_str());
    body.append("\"}");
    proof {
        assert(body@ =~= user_reply_body(pool_id@, user@));
    }
    let r = HttpResponse { status: 200, body, json: true };
    proof {
        assert(r@ =~= user_reply(pool_id@, user@));
    }
    r
}

/// Renders the `200` answer to an authentication request: the provider's
/// outcome echoed verbatim, shaped as JSON.
pub fn render_auth_response(outcome: &AuthOutcome) -> (r: HttpResponse)
    ensures
        r@ == auth_reply(outcome@),
{
    let mut body = String::from_str("{\"auth-result\":\"");
    match &outcome.auth_result {
        Some(s) => {
            let escaped = json_escape(s.as_str());
            body.append(escaped.as_str());
        },
        None => {
            proof {
                assert(json_escaped(Seq::<char>::empty()) =~= Seq::<char>::empty());
            }
        },
    }
    body.append("\",\"challenge-name\":\"");
    match &outcome.challenge_name {
        Some(s) => {
            let escaped = json_escape(s.as_str());
            body.append(escaped.as_str());
        },
        None => {
            proof {
                assert(json_escaped(Seq::<char>::empty()) =~= Seq::<char>::empty());
            }
        },
    }
    body.append("\",\"session\":");
    match &outcome.session {
        Some(s) => {
            body.append("\"");
            let escaped = json_escape(s.as_str());
            body.append(escaped.as_str());
            body.append("\"");
        },
        None => {
            body.append("null");
        },
    }
    body.append("}");
    proof {
        assert(body@ =~= auth_reply_body(outcome@));
    }
    let r = HttpResponse { status: 200, body, json: true };
    proof {
        assert(r@ =~= auth_reply(outcome@));
    }
    r
}

} // verus!
