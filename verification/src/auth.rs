//! The session check that every protected page runs on mount: read the
//! stored access token, refresh it when it has expired, then ask the
//! backend who the user is. The decisions are a state machine; the page
//! performs each action (storage, HTTP) and reports the outcome back as
//! an event.

use vstd::prelude::*;
use vstd::utf8::encode_utf8;
use crate::api::{bearer, bearer_authorization};
use crate::json::{json_str_member, read_str_member};
use crate::token::{is_token_expired, token_expired};

verus! {

/// The signed-in user as the backend describes them.
pub struct UserData {
    pub id: usize,
    pub username: String,
    pub email: String,
}

/// Where the session check stands.
pub enum AuthState {
    /// Waiting for the stored access token.
    AwaitAccessToken,
    /// The access token has expired; waiting for the stored refresh token.
    AwaitRefreshToken,
    /// Waiting for the status of the refresh request.
    AwaitRefreshReply,
    /// Waiting for the new access token from the refresh reply.
    AwaitRefreshBody,
    /// Waiting until the new access token `token` is stored.
    AwaitStored { token: String },
    /// Waiting for the status of the user request.
    AwaitUserReply,
    /// Waiting for the body of the user reply.
    AwaitUserBody,
    /// The check is over.
    Done,
}

/// What the page observed after performing the last action.
pub enum AuthEvent {
    /// The stored access token (`None` when there is none) and the current
    /// time in milliseconds since the epoch.
    AccessTokenRead { token: Option<String>, now_ms: u64 },
    /// The stored refresh token, if any.
    RefreshTokenRead { token: Option<String> },
    /// The HTTP status of the refresh reply; `None` when the request failed.
    RefreshReplied { status: Option<u16> },
    /// The `access` field of the refresh reply, as the reply deserializes
    /// into a refresh response (a JSON object with a string `access`);
    /// `None` when the body could not be read or deserialized.
    RefreshBodyRead { access: Option<String> },
    /// The new access token is stored.
    AccessTokenStored,
    /// The HTTP status of the user reply; `None` when the request failed.
    UserReplied { status: Option<u16> },
    /// The text of the user reply; `None` when it could not be read.
    UserBodyRead { body: Option<String> },
}

/// What the page must do next.
pub enum AuthAction {
    /// Read `access_token` from local storage.
    ReadAccessToken,
    /// Read `refresh_token` from local storage.
    ReadRefreshToken,
    /// POST `{"refresh_token": <token>}` to the refresh endpoint.
    PostRefresh { refresh_token: String },
    /// Read the body of the refresh reply.
    ReadRefreshBody,
    /// Store `token` as `access_token` in local storage.
    StoreAccessToken { token: String },
    /// GET the user endpoint with this `Authorization` header.
    FetchUser { authorization: String },
    /// Read the body of the user reply.
    ReadUserBody,
    /// Show the session as signed in (with the user name) or signed out.
    Publish { logged_in: bool, username: Option<String> },
    /// Stop and leave the shown session as it is.
    Halt,
}

/// The key `username`.
pub open spec fn username_key() -> Seq<char> {
    seq!['u', 's', 'e', 'r', 'n', 'a', 'm', 'e']
}

/// The user name that a user reply body carries, if it is JSON with a
/// string member `username`.
pub open spec fn reply_username(body: Seq<char>) -> Option<Seq<char>> {
    match json_str_member(body, username_key()) {
        Some(Some(name)) => Some(name),
        _ => None,
    }
}

/// Steps left at most before the check is over.
pub open spec fn auth_rank(s: AuthState) -> nat {
    match s {
        AuthState::AwaitAccessToken => 7,
        AuthState::AwaitRefreshToken => 6,
        AuthState::AwaitRefreshReply => 5,
        AuthState::AwaitRefreshBody => 4,
        AuthState::AwaitStored { .. } => 3,
        AuthState::AwaitUserReply => 2,
        AuthState::AwaitUserBody => 1,
        AuthState::Done => 0,
    }
}

/// The transition table of the session check: in state `s` on event `e`,
/// the check moves to `next` and asks for `act`. An event that does not
/// belong to the state ends the check without changing the session.
pub open spec fn auth_step_spec(s: AuthState, e: AuthEvent, next: AuthState, act: AuthAction) -> bool {
    match (s, e) {
        (AuthState::AwaitAccessToken, AuthEvent::AccessTokenRead { token: None, .. }) => {
            &&& next is Done
            &&& act == AuthAction::Publish { logged_in: false, username: None }
        },
        (AuthState::AwaitAccessToken, AuthEvent::AccessTokenRead { token: Some(t), now_ms }) => {
            if token_expired(encode_utf8(t@), now_ms) {
                next is AwaitRefreshToken && act is ReadRefreshToken
            } else {
                &&& next is AwaitUserReply
                &&& act matches AuthAction::FetchUser { authorization } && authorization@ == bearer(t@)
            }
        },
        (AuthState::AwaitRefreshToken, AuthEvent::RefreshTokenRead { token: Some(r) }) => {
            &&& next is AwaitRefreshReply
            &&& act matches AuthAction::PostRefresh { refresh_token } && refresh_token@ == r@
        },
        (AuthState::AwaitRefreshReply, AuthEvent::RefreshReplied { status: Some(code) }) => {
            if code == 200 {
                next is AwaitRefreshBody && act is ReadRefreshBody
            } else {
                next is Done && act is Halt
            }
        },
        (AuthState::AwaitRefreshBody, AuthEvent::RefreshBodyRead { access: Some(a) }) => {
            &&& next matches AuthState::AwaitStored { token } && token@ == a@
            &&& act matches AuthAction::StoreAccessToken { token } && token@ == a@
        },
        (AuthState::AwaitStored { token }, AuthEvent::AccessTokenStored) => {
            &&& next is AwaitUserReply
            &&& act matches AuthAction::FetchUser { authorization } && authorization@ == bearer(token@)
        },
        (AuthState::AwaitUserReply, AuthEvent::UserReplied { status }) => {
            if status == Some(200u16) {
                next is AwaitUserBody && act is ReadUserBody
            } else {
                &&& next is Done
                &&& act == AuthAction::Publish { logged_in: false, username: None }
            }
        },
        (AuthState::AwaitUserBody, AuthEvent::UserBodyRead { body: Some(text) }) => {
            &&& next is Done
            &&& match reply_username(text@) {
                Some(name) => act matches AuthAction::Publish { logged_in: true, username: Some(u) }
                    && u@ == name,
                None => act is Halt,
            }
        },
        _ => next is Done && act is Halt,
    }
}

/// Starts the session check: the first action is to read the access token.
pub fn auth_start() -> (r: (AuthState, AuthAction))
    ensures
        r.0 is AwaitAccessToken,
        r.1 is ReadAccessToken,
{
    (AuthState::AwaitAccessToken, AuthAction::ReadAccessToken)
}

/// One step of the session check.
pub fn auth_step(s: AuthState, e: AuthEvent) -> (r: (AuthState, AuthAction))
    ensures
        auth_step_spec(s, e, r.0, r.1),
{
    match (s, e) {
        (AuthState::AwaitAccessToken, AuthEvent::AccessTokenRead { token: None, .. }) => {
            (AuthState::Done, AuthAction::Publish { logged_in: false, username: None })
        },
        (AuthState::AwaitAccessToken, AuthEvent::AccessTokenRead { token: Some(t), now_ms }) => {
            if is_token_expired(t.as_str(), now_ms) {
                (AuthState::AwaitRefreshToken, AuthAction::ReadRefreshToken)
            } else {
                (
                    AuthState::AwaitUserReply,
                    AuthAction::FetchUser { authorization: bearer_authorization(t.as_str()) },
                )
            }
        },
        (AuthState::AwaitRefreshToken, AuthEvent::RefreshTokenRead { token: Some(r) }) => {
            (AuthState::AwaitRefreshReply, AuthAction::PostRefresh { refresh_token: r })
        },
        (AuthState::AwaitRefreshReply, AuthEvent::RefreshReplied { status: Some(code) }) => {
            if code == 200 {
                (AuthState::AwaitRefreshBody, AuthAction::ReadRefreshBody)
            } else {
                (AuthState::Done, AuthAction::Halt)
            }
        },
        (AuthState::AwaitRefreshBody, AuthEvent::RefreshBodyRead { access: Some(a) }) => {
            let stored = a.clone();
            (AuthState::AwaitStored { token: a }, AuthAction::StoreAccessToken { token: stored })
        },
        (AuthState::AwaitStored { token }, AuthEvent::AccessTokenStored) => {
            (
                AuthState::AwaitUserReply,
                AuthAction::FetchUser { authorization: bearer_authorization(token.as_str()) },
            )
        },
        (AuthState::AwaitUserReply, AuthEvent::UserReplied { status }) => {
            match status {
                Some(code) if code == 200 => (AuthState::AwaitUserBody, AuthAction::ReadUserBody),
                _ => (AuthState::Done, AuthAction::Publish { logged_in: false, username: None }),
            }
        },
        (AuthState::AwaitUserBody, AuthEvent::UserBodyRead { body: Some(text) }) => {
            (AuthState::Done, publish_user(text.as_str()))
        },
        _ => (AuthState::Done, AuthAction::Halt),
    }
}

/// The outcome of a user reply body: signed in as its `username` when it
/// is JSON with that string member, else no change.
pub fn publish_user(body: &str) -> (act: AuthAction)
    ensures
        match reply_username(body@) {
            Some(name) => act matches AuthAction::Publish { logged_in: true, username: Some(u) }
                && u@ == name,
            None => act is Halt,
        },
        match json_str_member(body@, seq!['u', 's', 'e', 'r', 'n', 'a', 'm', 'e']) {
            Some(Some(name)) => act matches AuthAction::Publish { logged_in: true, username: Some(u) }
                && u@ == name,
            _ => act is Halt,
        },
{
    proof {
        reveal_strlit("username");
        assert("username"@ =~= username_key());
    }
    match read_str_member(body, "username") {
        Ok(Some(name)) => AuthAction::Publish { logged_in: true, username: Some(name) },
        _ => AuthAction::Halt,
    }
}

/// Every step from a state that is not `Done` moves closer to `Done`: the
/// session check ends after at most seven events.
pub proof fn law_auth_terminates(s: AuthState, e: AuthEvent, next: AuthState, act: AuthAction)
    requires
        auth_step_spec(s, e, next, act),
        !(s is Done),
    ensures
        auth_rank(next) < auth_rank(s),
{
}

/// A token is stored only when a refresh reply delivered it, and the
/// user endpoint is then asked with exactly that token.
pub proof fn law_stored_token_from_reply(s: AuthState, e: AuthEvent, next: AuthState, act: AuthAction)
    requires
        auth_step_spec(s, e, next, act),
        (act is StoreAccessToken),
    ensures
        (e matches AuthEvent::RefreshBodyRead { access: Some(a) } && a@ == act->token@),
        (next matches AuthState::AwaitStored { token } && token@ == act->token@),
{
}

/// A run of the session check from its start: `states[i]` on `events[i]`
/// moves to `states[i + 1]` and asks for `actions[i]`.
pub open spec fn is_auth_run(
    states: Seq<AuthState>,
    events: Seq<AuthEvent>,
    actions: Seq<AuthAction>,
) -> bool {
    &&& states.len() == events.len() + 1
    &&& actions.len() == events.len()
    &&& states[0] is AwaitAccessToken
    &&& forall|i: int|
        0 <= i < events.len() ==> auth_step_spec(
            #[trigger] states[i],
            events[i],
            states[i + 1],
            actions[i],
        )
}

proof fn lemma_auth_step_facts(s: AuthState, e: AuthEvent, next: AuthState, act: AuthAction)
    requires
        auth_step_spec(s, e, next, act),
    ensures
        auth_rank(next) <= auth_rank(s),
        !(s is Done) ==> auth_rank(next) < auth_rank(s),
        (act is PostRefresh) ==> (s is AwaitRefreshToken),
        (act is FetchUser) ==> (next is AwaitUserReply) && auth_rank(s) >= 3,
{
}

proof fn lemma_auth_rank_falls(
    states: Seq<AuthState>,
    events: Seq<AuthEvent>,
    actions: Seq<AuthAction>,
    i: int,
    j: int,
)
    requires
        is_auth_run(states, events, actions),
        0 <= i < j < states.len(),
    ensures
        auth_rank(states[j]) < auth_rank(states[i]) || states[i] is Done,
        auth_rank(states[j]) <= auth_rank(states[i + 1]),
    decreases j - i,
{
    lemma_auth_step_facts(states[j - 1], events[j - 1], states[j], actions[j - 1]);
    lemma_auth_step_facts(states[i], events[i], states[i + 1], actions[i]);
    if j - 1 > i {
        lemma_auth_rank_falls(states, events, actions, i, j - 1);
    }
}

/// A session check sends at most one refresh request and at most one user
/// request: in a run from the start, `PostRefresh` and `FetchUser` each
/// come up at most once.
pub proof fn law_one_refresh_one_user_request(
    states: Seq<AuthState>,
    events: Seq<AuthEvent>,
    actions: Seq<AuthAction>,
    i: int,
    j: int,
)
    requires
        is_auth_run(states, events, actions),
        0 <= i < j < actions.len(),
    ensures
        !((actions[i] is PostRefresh) && (actions[j] is PostRefresh)),
        !((actions[i] is FetchUser) && (actions[j] is FetchUser)),
{
    lemma_auth_step_facts(states[i], events[i], states[i + 1], actions[i]);
    lemma_auth_step_facts(states[j], events[j], states[j + 1], actions[j]);
    lemma_auth_rank_falls(states, events, actions, i, j);
}

/// The published user name is the reply's `username` member and nothing
/// else: a reply names a user exactly when it is JSON whose `username`
/// member is a string, and then that string is the name.
pub proof fn law_username_is_username_member(body: Seq<char>, name: Seq<char>)
    ensures
        reply_username(body) == Some(name) <==> json_str_member(
            body,
            seq!['u', 's', 'e', 'r', 'n', 'a', 'm', 'e'],
        ) == Some(Some(name)),
        (reply_username(body) is None) <==> !(json_str_member(
            body,
            seq!['u', 's', 'e', 'r', 'n', 'a', 'm', 'e'],
        ) matches Some(Some(_))),
{
}

/// An access token that has expired is never used and never signs the user
/// out by itself: the check goes on to read the refresh token.
pub proof fn law_expired_token_refreshes(t: String, now_ms: u64, next: AuthState, act: AuthAction)
    requires
        auth_step_spec(
            AuthState::AwaitAccessToken,
            AuthEvent::AccessTokenRead { token: Some(t), now_ms },
            next,
            act,
        ),
        token_expired(encode_utf8(t@), now_ms),
    ensures
        (next is AwaitRefreshToken),
        (act is ReadRefreshToken),
{
}

/// An access token that has not expired is sent as is, as a bearer token,
/// to ask who the user is.
pub proof fn law_fresh_token_fetches_user(t: String, now_ms: u64, next: AuthState, act: AuthAction)
    requires
        auth_step_spec(
            AuthState::AwaitAccessToken,
            AuthEvent::AccessTokenRead { token: Some(t), now_ms },
            next,
            act,
        ),
        !token_expired(encode_utf8(t@), now_ms),
    ensures
        (next is AwaitUserReply),
        (act matches AuthAction::FetchUser { authorization } && authorization@ == seq![
            'B',
            'e',
            'a',
            'r',
            'e',
            'r',
            ' ',
        ] + t@),
{
}

/// A published session is signed in exactly when it carries a user name,
/// and publishing ends the check.
pub proof fn law_published_session_consistent(s: AuthState, e: AuthEvent, next: AuthState, act: AuthAction)
    requires
        auth_step_spec(s, e, next, act),
        (act is Publish),
    ensures
        (act->logged_in <==> act->username is Some),
        (next is Done),
{
}

/// The user endpoint is only ever asked with an access token that had not
/// expired when it was read, or with the token that a refresh reply
/// delivered, once it is stored.
pub proof fn law_fetch_user_token_fresh(s: AuthState, e: AuthEvent, next: AuthState, act: AuthAction)
    requires
        auth_step_spec(s, e, next, act),
        (act is FetchUser),
    ensures
        (e matches AuthEvent::AccessTokenRead { token: Some(t), now_ms } && !token_expired(
            encode_utf8(t@),
            now_ms,
        ) && act->authorization@ == bearer(t@)) || (s matches AuthState::AwaitStored { token }
            && e is AccessTokenStored && act->authorization@ == bearer(token@)),
{
}

/// Without a stored access token the session is shown signed out.
pub proof fn law_no_token_signed_out(e: AuthEvent, next: AuthState, act: AuthAction)
    requires
        auth_step_spec(AuthState::AwaitAccessToken, e, next, act),
        (e matches AuthEvent::AccessTokenRead { token, .. } && token is None),
    ensures
        (act matches AuthAction::Publish { logged_in, username } && !logged_in && username is None),
{
}

} // verus!
