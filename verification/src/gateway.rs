//! Request dispatch: from an inbound HTTP-shaped event to either an immediate
//! response or one identity-provider operation, plus the startup selection of
//! the active user pool.
//!
//! The order of the checks is part of the contract: an unresolved pool is
//! answered first (`500`), then a missing or invalid body (`400`), and only
//! then is the method looked at. The embedding program performs the chosen
//! provider operation and renders its result with the functions of
//! [`crate::response`].

use vstd::prelude::*;

use crate::payload::{parse_payload, parse_payload_spec, PayloadModel};
use crate::response::{
    missing_password_reply, missing_payload_reply, pool_unresolved_reply,
    unsupported_method_reply, user_reply, HttpResponse, ResponseModel, UserSnapshotModel,
};

verus! {

/// The intent carried by the HTTP method: GET reads a user, POST starts an
/// authentication flow, anything else is unsupported.
#[derive(Clone, Copy, Debug, PartialEq, Eq, Structural)]
pub enum HttpMethod {
    Get,
    Post,
    Other,
}

/// What the gateway decides to do with a request: answer at once, fetch the
/// user's snapshot from the provider, or run a username/password
/// authentication flow with the provider.
#[derive(Debug, Clone)]
pub enum GatewayAction {
    Reply(HttpResponse),
    FetchUser { pool_id: String, username: String },
    Authenticate { pool_id: String, username: String, password: String },
}

/// The mathematical value of a [`GatewayAction`].
#[verifier::ext_equal]
pub enum ActionModel {
    Reply(ResponseModel),
    FetchUser { pool_id: Seq<char>, username: Seq<char> },
    Authenticate { pool_id: Seq<char>, username: Seq<char>, password: Seq<char> },
}

impl View for GatewayAction {
    type V = ActionModel;

    open spec fn view(&self) -> ActionModel {
        match self {
            GatewayAction::Reply(r) => ActionModel::Reply(r@),
            GatewayAction::FetchUser { pool_id, username } => ActionModel::FetchUser {
                pool_id: pool_id@,
                username: username@,
            },
            GatewayAction::Authenticate { pool_id, username, password } => {
                ActionModel::Authenticate {
                    pool_id: pool_id@,
                    username: username@,
                    password: password@,
                }
            },
        }
    }
}

/// The whole dispatch rule, over the resolved pool, the method, and the raw
/// request body (`None` when the event carried none).
pub open spec fn plan_spec(
    pool_id: Option<Seq<char>>,
    method: HttpMethod,
    body: Option<Seq<char>>,
) -> ActionModel {
    match pool_id {
        None => ActionModel::Reply(pool_unresolved_reply()),
        Some(pid) => match body {
            None => ActionModel::Reply(missing_payload_reply()),
            Some(text) => match parse_payload_spec(text) {
                None => ActionModel::Reply(missing_payload_reply()),
                Some(p) => match method {
                    HttpMethod::Get => ActionModel::FetchUser {
                        pool_id: pid,
                        username: p.username,
                    },
                    HttpMethod::Post => match p.password {
                        None => ActionModel::Reply(missing_password_reply()),
                        Some(pw) => ActionModel::Authenticate {
                            pool_id: pid,
                            username: p.username,
                            password: pw,
                        },
                    },
                    HttpMethod::Other => ActionModel::Reply(unsupported_method_reply()),
                },
            },
        },
    }
}

/// Decides one request, exactly as [`plan_spec`] reads it: the pool check
/// first, then body validation, then method dispatch.
pub fn plan_request(pool_id: &Option<String>, method: HttpMethod, body: &Option<String>) -> (a:
    GatewayAction)
    ensures
        a@ == plan_spec(pool_id.deep_view(), method, body.deep_view()),
{
    match pool_id {
        None => GatewayAction::Reply(
            HttpResponse {
                status: 500,
                body: String::from_str("UsersPoolNotFound"),
                json: false,
            },
        ),
        Some(pid) => match body {
            None => GatewayAction::Reply(
                HttpResponse {
                    status: 400,
                    body: String::from_str("PayloadDoesntExist"),
                    json: false,
                },
            ),
            Some(text) => match parse_payload(text.as_str()) {
                None => GatewayAction::Reply(
                    HttpResponse {
                        status: 400,
                        body: String::from_str("PayloadDoesntExist"),
                        json: false,
                    },
                ),
                Some(p) => match method {
                    HttpMethod::Get => GatewayAction::FetchUser {
                        pool_id: pid.clone(),
                        username: p.username,
                    },
                    HttpMethod::Post => match p.password {
                        None => GatewayAction::Reply(
                            HttpResponse {
                                status: 400,
                                body: String::from_str("NotFoundPasswordForAuth"),
                                json: false,
                            },
                        ),
                        Some(pw) => GatewayAction::Authenticate {
                            pool_id: pid.clone(),
                            username: p.username,
                            password: pw,
                        },
                    },
                    HttpMethod::Other => GatewayAction::Reply(
                        HttpResponse { status: 405, body: String::new(), json: false },
                    ),
                },
            },
        },
    }
}

/// The pool the gateway serves, out of the page of pool ids listed at
/// startup: the last record wins (a record may lack an id), and an empty page
/// leaves the pool unresolved.
pub open spec fn select_pool_spec(ids: Seq<Option<Seq<char>>>) -> Option<Seq<char>> {
    if ids.len() == 0 {
        None
    } else {
        ids.last()
    }
}

/// Selects the active user pool from the listed pool ids, exactly as
/// [`select_pool_spec`] does: the last record of the page wins.
pub fn select_pool(pool_ids: &Vec<Option<String>>) -> (r: Option<String>)
    ensures
        r.deep_view() == select_pool_spec(pool_ids.deep_view()),
{
    if pool_ids.len() == 0 {
        None
    } else {
        match &pool_ids[pool_ids.len() - 1] {
            None => None,
            Some(id) => Some(id.clone()),
        }
    }
}

/// Law: a request against an unresolved pool is answered `500` with body
/// `UsersPoolNotFound`, whatever the method and whatever the body.
pub proof fn lemma_pool_unresolved_rejected(method: HttpMethod, body: Option<Seq<char>>)
    ensures
        plan_spec(None, method, body) == ActionModel::Reply(pool_unresolved_reply()),
{
}

/// Law: with a resolved pool, a request whose body is absent or not a valid
/// payload is answered `400` with body `PayloadDoesntExist`, whatever the
/// method. (With an unresolved pool the `500` answer comes first.)
pub proof fn lemma_invalid_payload_rejected(
    pool_id: Seq<char>,
    method: HttpMethod,
    body: Option<Seq<char>>,
)
    requires
        (body matches Some(text) ==> parse_payload_spec(text) is None),
    ensures
        plan_spec(Some(pool_id), method, body) == ActionModel::Reply(missing_payload_reply()),
{
}

/// Law: a GET request with a resolved pool and a valid body asks the provider
/// for exactly the decoded username, in exactly the resolved pool; the `200`
/// answer is then rendered from the snapshot by
/// [`crate::response::render_user_response`].
pub proof fn lemma_get_fetches_user(pool_id: Seq<char>, body: Seq<char>, p: PayloadModel)
    requires
        parse_payload_spec(body) == Some(p),
    ensures
        plan_spec(Some(pool_id), HttpMethod::Get, Some(body)) == (ActionModel::FetchUser {
            pool_id: pool_id,
            username: p.username,
        }),
{
}

/// Law: a POST request with a resolved pool and a valid body that carries no
/// password is answered `400` with body `NotFoundPasswordForAuth`.
pub proof fn lemma_missing_password_rejected(pool_id: Seq<char>, body: Seq<char>, p: PayloadModel)
    requires
        parse_payload_spec(body) == Some(p),
        (p.password is None),
    ensures
        plan_spec(Some(pool_id), HttpMethod::Post, Some(body)) == ActionModel::Reply(
            missing_password_reply(),
        ),
{
}

/// Law: a POST request with a resolved pool and a valid body that carries a
/// password starts the password authentication flow with exactly the decoded
/// username and password, in exactly the resolved pool; the `200` answer is
/// then rendered verbatim from the provider's outcome by
/// [`crate::response::render_auth_response`].
pub proof fn lemma_post_authenticates_with_credentials(
    pool_id: Seq<char>,
    body: Seq<char>,
    p: PayloadModel,
    password: Seq<char>,
)
    requires
        parse_payload_spec(body) == Some(p),
        p.password == Some(password),
    ensures
        plan_spec(Some(pool_id), HttpMethod::Post, Some(body)) == (ActionModel::Authenticate {
            pool_id: pool_id,
            username: p.username,
            password: password,
        }),
{
}

/// Law: a request with a method that is neither GET nor POST, a resolved
/// pool, and a valid body is answered `405` with an empty body. (The pool and
/// body checks come first: without them the `500` or `400` answer wins.)
pub proof fn lemma_unsupported_method_rejected(
    pool_id: Seq<char>,
    body: Seq<char>,
    p: PayloadModel,
)
    requires
        parse_payload_spec(body) == Some(p),
    ensures
        plan_spec(Some(pool_id), HttpMethod::Other, Some(body)) == ActionModel::Reply(
            unsupported_method_reply(),
        ),
{
}

/// Law: a GET request never plans an authentication flow, whatever the pool
/// and the body.
pub proof fn lemma_get_never_authenticates(pool_id: Option<Seq<char>>, body: Option<Seq<char>>)
    ensures
        (!(plan_spec(pool_id, HttpMethod::Get, body) matches ActionModel::Authenticate { .. })),
{
}

/// The response of a whole GET handling: the immediate answer where the
/// dispatch rule gives one, and otherwise the `200` rendered from the user
/// snapshot the provider returned for the decoded username. (A GET never
/// plans an authentication — [`lemma_get_never_authenticates`] — so that arm
/// does not arise.)
pub open spec fn get_flow_reply(
    pool_id: Option<Seq<char>>,
    body: Option<Seq<char>>,
    user: UserSnapshotModel,
) -> ResponseModel {
    match plan_spec(pool_id, HttpMethod::Get, body) {
        ActionModel::Reply(r) => r,
        ActionModel::FetchUser { pool_id: pid, username } => user_reply(pid, user),
        ActionModel::Authenticate { .. } => unsupported_method_reply(),
    }
}

/// Law: serving the same GET request twice against an unchanged provider
/// yields identical responses. An unchanged provider answers the same
/// username with the same snapshot, so any two responses that the contracts
/// of [`plan_request`] and [`crate::response::render_user_response`] allow
/// for the same pool, body, and snapshot are equal.
pub proof fn lemma_get_idempotent(
    r1: ResponseModel,
    r2: ResponseModel,
    pool_id: Option<Seq<char>>,
    body: Option<Seq<char>>,
    user: UserSnapshotModel,
)
    requires
        r1 == get_flow_reply(pool_id, body, user),
        r2 == get_flow_reply(pool_id, body, user),
    ensures
        r1 == r2,
{
}

} // verus!
