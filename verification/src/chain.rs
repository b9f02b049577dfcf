//! The exchange chain: four requests, one after the other, that turn the
//! identity provider's tokens into a game session and a profile, then the
//! two writes that keep the secrets, then the account record.
//!
//! The chain is a state machine. `step` takes the state and the reply to the
//! last request and gives the next state and what to do next; it is a function
//! of its arguments and nothing else. `advance` does the same and carries out
//! by itself whatever needs no network.
//!
//! The secrets are written one at a time, the game access token first. The
//! identity refresh token is written only once the store has accepted the
//! first, and the account is made out only once it has accepted both.

use vstd::prelude::*;
use vstd::string::*;
use crate::config::{
    ACCOUNT_KIND, CONSOLE_AUTH_URL, GAME_LOGIN_URL, MS_CLIENT_ID, MS_SCOPE, PROFILE_URL,
    REFRESH_GRANT, RELYING_PARTY_AUTH_URL, TOKEN_URL,
};
use crate::error::{AuthError, Failure, Hop};
use crate::model::{
    HttpReply, LauncherAccount, MinecraftAuthResponse, MinecraftProfile, TokenResponse,
    XboxLiveAuthResponse, read_reply, reply_failure,
};
use crate::request::{
    ConsoleRequest, FormRequest, LoginRequest, RelyingPartyRequest, console_request,
    identity_token_text, login_request, refresh_token_request, relying_party_request,
};
use crate::secrets::{
    access_token_key, access_token_key_text, keyring_set, persist_plan_of, refresh_token_key,
    refresh_token_key_text, stored_refresh_token,
};

verus! {

/// Where the chain stands: which reply it is waiting for, and what it has
/// gathered so far.
#[derive(Debug)]
pub enum ChainState {
    /// Waiting for the console-identity token.
    Console { tokens: TokenResponse },
    /// Waiting for the relying-party token.
    RelyingParty { tokens: TokenResponse, user_hash: String },
    /// Waiting for the game session.
    Login { tokens: TokenResponse },
    /// Waiting for the profile.
    Profile { tokens: TokenResponse, session: MinecraftAuthResponse },
    /// Waiting for the game access token to be written.
    StoringAccess { profile: MinecraftProfile, refresh_token: String },
    /// Waiting for the identity refresh token to be written.
    StoringRefresh { profile: MinecraftProfile },
    /// Finished, with an account or with a failure.
    Done,
}

/// What came back from the step that the chain asked for.
#[derive(Debug)]
pub enum ChainEvent {
    Console(HttpReply<XboxLiveAuthResponse>),
    RelyingParty(HttpReply<XboxLiveAuthResponse>),
    Login(HttpReply<MinecraftAuthResponse>),
    Profile(HttpReply<MinecraftProfile>),
    Stored(Result<(), AuthError>),
}

/// What the chain asks for next.
#[derive(Debug)]
pub enum ChainAction {
    /// Post this body to the console-identity endpoint.
    PostConsole(ConsoleRequest),
    /// Post this body to the relying-party endpoint.
    PostRelyingParty(RelyingPartyRequest),
    /// Post this body to the game-service login.
    PostLogin(LoginRequest),
    /// Get the profile, with this bearer token.
    GetProfile { bearer: String },
    /// Write `value` to the credential store under `key`.
    Store { key: String, value: String },
    /// Make out the account record for this profile.
    Issue(MinecraftProfile),
    /// The chain has produced this account.
    Complete(LauncherAccount),
    /// The chain has failed.
    Fail(AuthError),
}

impl ChainAction {
    /// The endpoint that this action is sent to; none for what needs no
    /// network.
    pub open spec fn endpoint_text(self) -> Option<Seq<char>> {
        match self {
            ChainAction::PostConsole(_) => Some(CONSOLE_AUTH_URL@),
            ChainAction::PostRelyingParty(_) => Some(RELYING_PARTY_AUTH_URL@),
            ChainAction::PostLogin(_) => Some(GAME_LOGIN_URL@),
            ChainAction::GetProfile { bearer } => Some(PROFILE_URL@),
            _ => None,
        }
    }

    /// Where to send this action.
    pub fn endpoint(&self) -> (r: Option<&'static str>)
        ensures
            match self.endpoint_text() {
                Some(url) => r is Some && r->0@ == url,
                None => r is None,
            },
    {
        match self {
            ChainAction::PostConsole(_) => Some(CONSOLE_AUTH_URL),
            ChainAction::PostRelyingParty(_) => Some(RELYING_PARTY_AUTH_URL),
            ChainAction::PostLogin(_) => Some(GAME_LOGIN_URL),
            ChainAction::GetProfile { bearer } => Some(PROFILE_URL),
            _ => None,
        }
    }
}

/// The failure reported for a reply that the chain was not waiting for.
pub open spec fn out_of_turn(event: ChainEvent) -> Failure {
    match event {
        ChainEvent::Console(_) => Failure::Protocol {
            hop: Hop::ConsoleIdentity,
            detail: "reply out of turn"@,
        },
        ChainEvent::RelyingParty(_) => Failure::Protocol {
            hop: Hop::RelyingParty,
            detail: "reply out of turn"@,
        },
        ChainEvent::Login(_) => Failure::Protocol {
            hop: Hop::GameLogin,
            detail: "reply out of turn"@,
        },
        ChainEvent::Profile(_) => Failure::Protocol {
            hop: Hop::Profile,
            detail: "reply out of turn"@,
        },
        ChainEvent::Stored(_) => Failure::Store("write reported out of turn"@),
    }
}

/// The state that follows `state` on `event`. The chain moves one stage
/// forward on a decoded reply that holds what the stage needs, and is done on
/// anything else.
pub open spec fn next_state(state: ChainState, event: ChainEvent) -> ChainState {
    match (state, event) {
        (ChainState::Console { tokens }, ChainEvent::Console(HttpReply::Body(auth))) => {
            if auth.display_claims.xui@.len() > 0 {
                ChainState::RelyingParty { tokens, user_hash: auth.display_claims.xui@[0].uhs }
            } else {
                ChainState::Done
            }
        },
        (
            ChainState::RelyingParty { tokens, user_hash },
            ChainEvent::RelyingParty(HttpReply::Body(auth)),
        ) => ChainState::Login { tokens },
        (ChainState::Login { tokens }, ChainEvent::Login(HttpReply::Body(session))) => {
            ChainState::Profile { tokens, session }
        },
        (
            ChainState::Profile { tokens, session },
            ChainEvent::Profile(HttpReply::Body(profile)),
        ) => ChainState::StoringAccess { profile, refresh_token: tokens.refresh_token },
        (ChainState::StoringAccess { profile, refresh_token }, ChainEvent::Stored(Ok(_))) => {
            ChainState::StoringRefresh { profile }
        },
        _ => ChainState::Done,
    }
}

/// Whether `action` is what the chain asks for when `event` arrives in
/// `state`.
pub open spec fn emits(state: ChainState, event: ChainEvent, action: ChainAction) -> bool {
    match (state, event) {
        (ChainState::Console { tokens }, ChainEvent::Console(reply)) => match reply {
            HttpReply::Body(auth) => if auth.display_claims.xui@.len() > 0 {
                action is PostRelyingParty && action->PostRelyingParty_0.presents(auth.token@)
            } else {
                action is Fail && action->Fail_0@ == Failure::MissingClaim
            },
            _ => action == ChainAction::Fail(reply_failure(Hop::ConsoleIdentity, reply)),
        },
        (ChainState::RelyingParty { tokens, user_hash }, ChainEvent::RelyingParty(reply)) => {
            match reply {
                HttpReply::Body(auth) => action is PostLogin
                    && action->PostLogin_0.identity_token@ == identity_token_text(
                    user_hash@,
                    auth.token@,
                ),
                _ => action == ChainAction::Fail(reply_failure(Hop::RelyingParty, reply)),
            }
        },
        (ChainState::Login { tokens }, ChainEvent::Login(reply)) => match reply {
            HttpReply::Body(session) => action is GetProfile && action->bearer@
                == session.access_token@,
            _ => action == ChainAction::Fail(reply_failure(Hop::GameLogin, reply)),
        },
        (ChainState::Profile { tokens, session }, ChainEvent::Profile(reply)) => match reply {
            HttpReply::Body(profile) => {
                &&& action is Store
                &&& action->key@ == access_token_key_text(profile.id@)
                &&& action->value@ == session.access_token@
            },
            _ => action == ChainAction::Fail(reply_failure(Hop::Profile, reply)),
        },
        (ChainState::StoringAccess { profile, refresh_token }, ChainEvent::Stored(outcome)) => {
            match outcome {
                Ok(_) => {
                    &&& action is Store
                    &&& action->key@ == refresh_token_key_text(profile.id@)
                    &&& action->value@ == refresh_token@
                },
                Err(e) => action == ChainAction::Fail(e),
            }
        },
        (ChainState::StoringRefresh { profile }, ChainEvent::Stored(outcome)) => match outcome {
            Ok(_) => action == ChainAction::Issue(profile),
            Err(e) => action == ChainAction::Fail(e),
        },
        _ => action is Fail && action->Fail_0@ == out_of_turn(event),
    }
}

/// Starts the chain on a fresh pair of tokens: the first thing to do is the
/// console-identity exchange with the access token.
pub fn begin(tokens: TokenResponse) -> (r: (ChainState, ChainAction))
    ensures
        r.0 == (ChainState::Console { tokens }),
        r.1 is PostConsole,
        r.1->PostConsole_0.presents(tokens.access_token@),
{
    let request = console_request(tokens.access_token.as_str());
    (ChainState::Console { tokens }, ChainAction::PostConsole(request))
}

/// The request that refreshes an account, given what the credential store
/// answered when asked for the account's refresh token: the refresh request
/// with that token, or the store's failure as it is.
pub fn refresh_request_from(stored: Result<String, AuthError>) -> (r: Result<
    FormRequest,
    AuthError,
>)
    ensures
        match stored {
            Err(e) => r == Err::<FormRequest, AuthError>(e),
            Ok(token) => r is Ok && r->Ok_0.url@ == TOKEN_URL@ && r->Ok_0.pairs() == seq![
                ("client_id"@, MS_CLIENT_ID@),
                ("grant_type"@, REFRESH_GRANT@),
                ("refresh_token"@, token@),
                ("scope"@, MS_SCOPE@),
            ],
        },
{
    match stored {
        Err(e) => Err(e),
        Ok(token) => Ok(refresh_token_request(token.as_str())),
    }
}

/// The request that refreshes the account, made with the refresh token that
/// the credential store holds for it. Without a stored token there is no
/// request: the failure is `CredentialNotFound`, or the store's own.
pub fn refresh_request(account_uuid: &str) -> (r: Result<FormRequest, AuthError>)
    ensures
        r is Err ==> r->Err_0@ is Store || r->Err_0@ is CredentialNotFound,
        r is Ok ==> {
            &&& r->Ok_0.url@ == TOKEN_URL@
            &&& r->Ok_0.pairs().len() == 4
            &&& r->Ok_0.pairs()[0] == ("client_id"@, MS_CLIENT_ID@)
            &&& r->Ok_0.pairs()[1] == ("grant_type"@, REFRESH_GRANT@)
            &&& r->Ok_0.pairs()[2].0 == "refresh_token"@
            &&& r->Ok_0.pairs()[3] == ("scope"@, MS_SCOPE@)
        },
{
    refresh_request_from(stored_refresh_token(account_uuid))
}

/// Starts the chain on the reply to a refresh request: with the new tokens
/// where the reply holds them, and not at all where it does not.
pub fn begin_refreshed(reply: HttpReply<TokenResponse>) -> (r: (ChainState, ChainAction))
    ensures
        reply is Body ==> {
            &&& r.0 == (ChainState::Console { tokens: reply->Body_0 })
            &&& r.1 is PostConsole
            &&& r.1->PostConsole_0.presents(reply->Body_0.access_token@)
        },
        !(reply is Body) ==> r.0 is Done && r.1 == ChainAction::Fail(
            reply_failure(Hop::Refresh, reply),
        ),
{
    match read_reply(Hop::Refresh, reply) {
        Ok(tokens) => begin(tokens),
        Err(e) => (ChainState::Done, ChainAction::Fail(e)),
    }
}

fn turn_failure(event: ChainEvent) -> (r: AuthError)
    ensures
        r@ == out_of_turn(event),
{
    match event {
        ChainEvent::Console(_) => AuthError::Protocol {
            hop: Hop::ConsoleIdentity,
            detail: String::from_str("reply out of turn"),
        },
        ChainEvent::RelyingParty(_) => AuthError::Protocol {
            hop: Hop::RelyingParty,
            detail: String::from_str("reply out of turn"),
        },
        ChainEvent::Login(_) => AuthError::Protocol {
            hop: Hop::GameLogin,
            detail: String::from_str("reply out of turn"),
        },
        ChainEvent::Profile(_) => AuthError::Protocol {
            hop: Hop::Profile,
            detail: String::from_str("reply out of turn"),
        },
        ChainEvent::Stored(_) => AuthError::Store(String::from_str("write reported out of turn")),
    }
}

/// One step of the chain. The first reply that is not a decoded body, or that
/// lacks what the next request needs, ends the chain with that failure;
/// nothing is written before the profile has arrived.
pub fn step(state: ChainState, event: ChainEvent) -> (r: (ChainState, ChainAction))
    ensures
        r.0 == next_state(state, event),
        emits(state, event, r.1),
        !(r.1 is Complete),
        !(r.1 is PostConsole),
{
    match (state, event) {
        (ChainState::Console { tokens }, ChainEvent::Console(reply)) => {
            match read_reply(Hop::ConsoleIdentity, reply) {
                Err(e) => (ChainState::Done, ChainAction::Fail(e)),
                Ok(auth) => {
                    if auth.display_claims.xui.len() == 0 {
                        (ChainState::Done, ChainAction::Fail(AuthError::MissingClaim))
                    } else {
                        let user_hash = auth.display_claims.xui[0].uhs.clone();
                        let request = relying_party_request(auth.token.as_str());
                        (
                            ChainState::RelyingParty { tokens, user_hash },
                            ChainAction::PostRelyingParty(request),
                        )
                    }
                },
            }
        },
        (ChainState::RelyingParty { tokens, user_hash }, ChainEvent::RelyingParty(reply)) => {
            match read_reply(Hop::RelyingParty, reply) {
                Err(e) => (ChainState::Done, ChainAction::Fail(e)),
                Ok(auth) => {
                    let request = login_request(user_hash.as_str(), auth.token.as_str());
                    (ChainState::Login { tokens }, ChainAction::PostLogin(request))
                },
            }
        },
        (ChainState::Login { tokens }, ChainEvent::Login(reply)) => {
            match read_reply(Hop::GameLogin, reply) {
                Err(e) => (ChainState::Done, ChainAction::Fail(e)),
                Ok(session) => {
                    let bearer = session.access_token.clone();
                    (ChainState::Profile { tokens, session }, ChainAction::GetProfile { bearer })
                },
            }
        },
        (ChainState::Profile { tokens, session }, ChainEvent::Profile(reply)) => {
            match read_reply(Hop::Profile, reply) {
                Err(e) => (ChainState::Done, ChainAction::Fail(e)),
                Ok(profile) => {
                    let key = access_token_key(profile.id.as_str());
                    (
                        ChainState::StoringAccess { profile, refresh_token: tokens.refresh_token },
                        ChainAction::Store { key, value: session.access_token },
                    )
                },
            }
        },
        (ChainState::StoringAccess { profile, refresh_token }, ChainEvent::Stored(outcome)) => {
            match outcome {
                Ok(()) => {
                    let key = refresh_token_key(profile.id.as_str());
                    (
                        ChainState::StoringRefresh { profile },
                        ChainAction::Store { key, value: refresh_token },
                    )
                },
                Err(e) => (ChainState::Done, ChainAction::Fail(e)),
            }
        },
        (ChainState::StoringRefresh { profile }, ChainEvent::Stored(outcome)) => {
            match outcome {
                Ok(()) => (ChainState::Done, ChainAction::Issue(profile)),
                Err(e) => (ChainState::Done, ChainAction::Fail(e)),
            }
        },
        (_, event) => (ChainState::Done, ChainAction::Fail(turn_failure(event))),
    }
}

/// Whether `account` is the record of `profile`: the profile's id and name,
/// the fixed account kind, and no last use.
pub open spec fn account_of(account: LauncherAccount, profile: MinecraftProfile) -> bool {
    &&& account.uuid == profile.id
    &&& account.username == profile.name
    &&& account.account_type@ == ACCOUNT_KIND@
    &&& account.last_used is None
}

/// The account record of `profile`, with the given local id and creation time.
pub fn account_for(profile: MinecraftProfile, id: String, created_at: String) -> (r:
    LauncherAccount)
    ensures
        account_of(r, profile),
        r.id == id,
        r.created_at == created_at,
{
    LauncherAccount {
        id,
        uuid: profile.id,
        username: profile.name,
        account_type: String::from_str(ACCOUNT_KIND),
        last_used: None,
        created_at,
    }
}

/// `uuid::Uuid::new_v4`, written out by the `Display` of `Uuid`: a random
/// identifier. Nothing is claimed of the result.
#[verifier::external_body]
fn fresh_account_id() -> String {
    uuid::Uuid::new_v4().to_string()
}

/// `chrono::Utc::now` and `DateTime::to_rfc3339`: the current time as text.
/// Nothing is claimed of the result.
#[verifier::external_body]
fn current_timestamp() -> String {
    chrono::Utc::now().to_rfc3339()
}

/// The account record of `profile`, with a fresh local id and the current
/// time as its creation time.
pub fn new_account(profile: MinecraftProfile) -> (r: LauncherAccount)
    ensures
        account_of(r, profile),
{
    let id = fresh_account_id();
    let created_at = current_timestamp();
    account_for(profile, id, created_at)
}

/// The profile whose account the chain is about to finish, where `event`
/// brings the chain in `state` to its writes or past one of them.
pub open spec fn finishing_profile(state: ChainState, event: ChainEvent) -> Option<
    MinecraftProfile,
> {
    match (state, event) {
        (ChainState::Profile { tokens, session }, ChainEvent::Profile(HttpReply::Body(profile))) => {
            Some(profile)
        },
        (ChainState::StoringAccess { profile, refresh_token }, ChainEvent::Stored(Ok(_))) => Some(
            profile,
        ),
        (ChainState::StoringRefresh { profile }, ChainEvent::Stored(Ok(_))) => Some(profile),
        _ => None,
    }
}

/// One step of the chain, with the writes and the account record done on the
/// spot. Where `step` asks for a request to be sent or reports a failure,
/// this is `step`. Where `step` asks for a secret to be written, it is
/// written here, and so is the one after it if the store accepted the first;
/// the chain is then done: with the account of the profile that arrived, or
/// with the store's failure.
pub fn advance(state: ChainState, event: ChainEvent) -> (r: (ChainState, ChainAction))
    ensures
        !(r.1 is Store),
        !(r.1 is Issue),
        match finishing_profile(state, event) {
            Some(profile) => {
                &&& r.0 is Done
                &&& r.1 is Complete || r.1 is Fail
                &&& r.1 is Complete ==> account_of(r.1->Complete_0, profile)
                &&& r.1 is Fail ==> r.1->Fail_0@ is Store
                &&& state is StoringRefresh ==> r.1 is Complete
            },
            None => r.0 == next_state(state, event) && emits(state, event, r.1),
        },
{
    let (first_state, first) = step(state, event);
    let (second_state, second) = match first {
        ChainAction::Store { key, value } => {
            let stored = keyring_set(key.as_str(), value.as_str());
            step(first_state, ChainEvent::Stored(stored))
        },
        other => (first_state, other),
    };
    let (last_state, last) = match second {
        ChainAction::Store { key, value } => {
            let stored = keyring_set(key.as_str(), value.as_str());
            step(second_state, ChainEvent::Stored(stored))
        },
        other => (second_state, other),
    };
    match last {
        ChainAction::Issue(profile) => (last_state, ChainAction::Complete(new_account(profile))),
        other => (last_state, other),
    }
}

/// Nothing is written unless the profile has arrived: the chain asks for a
/// secret to be stored only on a decoded profile, which it awaits only after
/// the three exchanges before it have succeeded, or once the store has
/// accepted the first secret.
pub proof fn law_store_only_after_profile(
    state: ChainState,
    event: ChainEvent,
    action: ChainAction,
)
    requires
        emits(state, event, action),
        action is Store,
    ensures
        (state is Profile && event is Profile && event->Profile_0 is Body) || (state
            is StoringAccess && event is Stored && event->Stored_0 is Ok),
{
}

/// The state that the chain is in after `events` have arrived one after the
/// other, starting in `state`.
pub open spec fn state_after(state: ChainState, events: Seq<ChainEvent>) -> ChainState
    decreases events.len(),
{
    if events.len() == 0 {
        state
    } else {
        next_state(state_after(state, events.drop_last()), events.last())
    }
}

/// A chain that is done stays done, whatever arrives.
pub proof fn law_done_stays_done(events: Seq<ChainEvent>)
    ensures
        state_after(ChainState::Done, events) is Done,
    decreases events.len(),
{
    if events.len() > 0 {
        law_done_stays_done(events.drop_last());
    }
}

/// A failed game-service login ends the chain with that failure, and whatever
/// arrives afterwards, the chain asks for nothing but reports a failure: no
/// write can follow.
pub proof fn law_failed_login_writes_nothing(
    tokens: TokenResponse,
    reply: HttpReply<MinecraftAuthResponse>,
    action: ChainAction,
    later: Seq<ChainEvent>,
    last: ChainEvent,
    last_action: ChainAction,
)
    requires
        !(reply is Body),
        emits(ChainState::Login { tokens }, ChainEvent::Login(reply), action),
        emits(
            state_after(
                next_state(ChainState::Login { tokens }, ChainEvent::Login(reply)),
                later,
            ),
            last,
            last_action,
        ),
    ensures
        action == ChainAction::Fail(reply_failure(Hop::GameLogin, reply)),
        next_state(ChainState::Login { tokens }, ChainEvent::Login(reply)) is Done,
        last_action is Fail,
{
    law_done_stays_done(later);
}

/// A write that the store refuses fails the chain: no second write is asked
/// for after a refused first, and no account is made out after either.
pub proof fn law_refused_write_fails_the_chain(
    state: ChainState,
    failure: AuthError,
    action: ChainAction,
)
    requires
        state is StoringAccess || state is StoringRefresh,
        emits(state, ChainEvent::Stored(Err(failure)), action),
    ensures
        action == ChainAction::Fail(failure),
        next_state(state, ChainEvent::Stored(Err(failure))) is Done,
{
}

/// A chain in which all four exchanges succeed asks, in this order, for the
/// relying-party exchange with the console token, the login with the user
/// hash and the relying-party token, the profile with the session's access
/// token, then for the session's access token to be stored under the access
/// token key of the profile's id, then for the identity provider's refresh
/// token to be stored under the refresh token key of that id. Once both are
/// stored it asks for the account of that profile and is done.
pub proof fn law_successful_chain(
    tokens: TokenResponse,
    console: XboxLiveAuthResponse,
    relying: XboxLiveAuthResponse,
    session: MinecraftAuthResponse,
    profile: MinecraftProfile,
    a1: ChainAction,
    a2: ChainAction,
    a3: ChainAction,
    a4: ChainAction,
    a5: ChainAction,
    a6: ChainAction,
)
    requires
        console.display_claims.xui@.len() > 0,
        emits(ChainState::Console { tokens }, ChainEvent::Console(HttpReply::Body(console)), a1),
        emits(
            ChainState::RelyingParty { tokens, user_hash: console.display_claims.xui@[0].uhs },
            ChainEvent::RelyingParty(HttpReply::Body(relying)),
            a2,
        ),
        emits(ChainState::Login { tokens }, ChainEvent::Login(HttpReply::Body(session)), a3),
        emits(
            ChainState::Profile { tokens, session },
            ChainEvent::Profile(HttpReply::Body(profile)),
            a4,
        ),
        emits(
            ChainState::StoringAccess { profile, refresh_token: tokens.refresh_token },
            ChainEvent::Stored(Ok(())),
            a5,
        ),
        emits(ChainState::StoringRefresh { profile }, ChainEvent::Stored(Ok(())), a6),
    ensures
        next_state(ChainState::Console { tokens }, ChainEvent::Console(HttpReply::Body(console)))
            == (ChainState::RelyingParty { tokens, user_hash: console.display_claims.xui@[0].uhs }),
        next_state(
            ChainState::RelyingParty { tokens, user_hash: console.display_claims.xui@[0].uhs },
            ChainEvent::RelyingParty(HttpReply::Body(relying)),
        ) == (ChainState::Login { tokens }),
        next_state(ChainState::Login { tokens }, ChainEvent::Login(HttpReply::Body(session)))
            == (ChainState::Profile { tokens, session }),
        next_state(
            ChainState::Profile { tokens, session },
            ChainEvent::Profile(HttpReply::Body(profile)),
        ) == (ChainState::StoringAccess { profile, refresh_token: tokens.refresh_token }),
        next_state(
            ChainState::StoringAccess { profile, refresh_token: tokens.refresh_token },
            ChainEvent::Stored(Ok(())),
        ) == (ChainState::StoringRefresh { profile }),
        next_state(ChainState::StoringRefresh { profile }, ChainEvent::Stored(Ok(()))) is Done,
        a1 is PostRelyingParty && a1->PostRelyingParty_0.presents(console.token@),
        a2 is PostLogin && a2->PostLogin_0.identity_token@ == identity_token_text(
            console.display_claims.xui@[0].uhs@,
            relying.token@,
        ),
        a3 is GetProfile && a3->bearer@ == session.access_token@,
        a4 is Store && a5 is Store,
        seq![(a4->key@, a4->value@), (a5->key@, a5->value@)] == persist_plan_of(
            profile.id@,
            session.access_token@,
            tokens.refresh_token@,
        ),
        a6 == ChainAction::Issue(profile),
{
}

} // verus!
