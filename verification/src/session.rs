//! The device-code session: at most one outstanding device code, created by a
//! start and ended by the first poll that settles it.

use vstd::prelude::*;
use vstd::string::*;
use crate::error::{AuthError, Failure, Hop};
use crate::model::{
    DeviceCodeResponse, HttpReply, LauncherAccount, MSAuthStatus, PollReply, TokenResponse,
    read_reply, reply_failure,
};
use crate::request::{FormRequest, device_token_request};
use crate::config::{DEVICE_CODE_GRANT, MS_CLIENT_ID, TOKEN_URL};

verus! {

/// The sign-in state of the process.
#[derive(Debug)]
pub struct AuthState {
    /// The device code that is waiting for the user's approval, if any.
    pub pending_auth: Option<DeviceCodeResponse>,
}

/// What a poll reply leads to.
#[derive(Debug)]
pub enum PollProgress {
    /// The poll is answered: this is the status to report.
    Settled(MSAuthStatus),
    /// The device code was approved: these tokens go through the exchange
    /// chain, and its result is handed to `finish_exchange`.
    Exchange(TokenResponse),
}

/// The provider's error code in a refused poll, or `unknown` where the reply
/// carried none.
pub open spec fn poll_error_code(error: Option<String>) -> Seq<char> {
    match error {
        Some(code) => code@,
        None => "unknown"@,
    }
}

/// The session after the reply to a start.
pub open spec fn session_after_start(reply: HttpReply<DeviceCodeResponse>) -> Option<
    DeviceCodeResponse,
> {
    match reply {
        HttpReply::Body(code) => Some(code),
        _ => None,
    }
}

/// Whether a poll reply leaves the device code outstanding.
pub open spec fn poll_keeps_session(reply: PollReply) -> bool {
    match reply {
        PollReply::Transport(_) => true,
        PollReply::Tokens(_) => true,
        PollReply::Refused { error } => poll_error_code(error) == "authorization_pending"@,
        _ => false,
    }
}

/// The session after a poll reply.
pub open spec fn session_after_poll(
    pending: Option<DeviceCodeResponse>,
    reply: PollReply,
) -> Option<DeviceCodeResponse> {
    if poll_keeps_session(reply) {
        pending
    } else {
        None
    }
}

/// What a poll reply means for the caller.
pub open spec fn poll_result(reply: PollReply, r: Result<PollProgress, AuthError>) -> bool {
    match reply {
        PollReply::Transport(detail) => r is Err && r->Err_0@ == (Failure::Network {
            hop: Hop::TokenPoll,
            detail: detail@,
        }),
        PollReply::Status { code, body } => r is Err && r->Err_0@ == (Failure::Protocol {
            hop: Hop::TokenPoll,
            detail: body@,
        }),
        PollReply::Malformed(detail) => r is Err && r->Err_0@ == (Failure::Protocol {
            hop: Hop::TokenPoll,
            detail: detail@,
        }),
        PollReply::Tokens(tokens) => r == Ok::<PollProgress, AuthError>(
            PollProgress::Exchange(tokens),
        ),
        PollReply::Refused { error } => {
            let code = poll_error_code(error);
            &&& r is Ok
            &&& r->Ok_0 is Settled
            &&& if code == "authorization_pending"@ {
                r->Ok_0->Settled_0.is_pending()
            } else if code == "expired_token"@ {
                r->Ok_0->Settled_0.is_expired()
            } else {
                r->Ok_0->Settled_0.is_error("Auth error: "@ + code)
            }
        },
    }
}

/// What asking for a poll request gives: the request for the outstanding
/// device code, or `NoPendingAuth` where there is none.
pub open spec fn poll_request_result(
    pending: Option<DeviceCodeResponse>,
    r: Result<FormRequest, AuthError>,
) -> bool {
    match pending {
        None => r is Err && r->Err_0@ == Failure::NoPendingAuth,
        Some(code) => r is Ok && r->Ok_0.url@ == TOKEN_URL@ && r->Ok_0.pairs() == seq![
            ("client_id"@, MS_CLIENT_ID@),
            ("grant_type"@, DEVICE_CODE_GRANT@),
            ("device_code"@, code.device_code@),
        ],
    }
}

fn status_pending() -> (r: MSAuthStatus)
    ensures
        r.is_pending(),
{
    MSAuthStatus { status: String::from_str("pending"), account: None, error: None }
}

fn status_expired() -> (r: MSAuthStatus)
    ensures
        r.is_expired(),
{
    MSAuthStatus {
        status: String::from_str("expired"),
        account: None,
        error: Some(String::from_str("Device code expired")),
    }
}

fn status_error(text: String) -> (r: MSAuthStatus)
    ensures
        r.is_error(text@),
{
    MSAuthStatus { status: String::from_str("error"), account: None, error: Some(text) }
}

fn status_complete(account: LauncherAccount) -> (r: MSAuthStatus)
    ensures
        r.is_complete(account),
{
    MSAuthStatus { status: String::from_str("complete"), account: Some(account), error: None }
}

impl AuthState {
    /// A state with no device code outstanding.
    pub fn new() -> (r: Self)
        ensures
            r.pending_auth is None,
    {
        AuthState { pending_auth: None }
    }

    /// Takes the reply to a device-code request. A decoded reply becomes the
    /// outstanding device code, replacing any earlier one, and is returned as
    /// it came. Any other reply is a failure and leaves no device code
    /// outstanding.
    pub fn finish_start(&mut self, reply: HttpReply<DeviceCodeResponse>) -> (r: Result<
        DeviceCodeResponse,
        AuthError,
    >)
        ensures
            final(self).pending_auth == session_after_start(reply),
            reply is Body ==> r == Ok::<DeviceCodeResponse, AuthError>(reply->Body_0),
            !(reply is Body) ==> r == Err::<DeviceCodeResponse, AuthError>(
                reply_failure(Hop::DeviceCode, reply),
            ),
    {
        match read_reply(Hop::DeviceCode, reply) {
            Ok(code) => {
                self.pending_auth = Some(code.clone());
                Ok(code)
            },
            Err(e) => {
                self.pending_auth = None;
                Err(e)
            },
        }
    }

    /// The request that polls the outstanding device code, or
    /// `NoPendingAuth` where there is none.
    pub fn poll_request(&self) -> (r: Result<FormRequest, AuthError>)
        ensures
            poll_request_result(self.pending_auth, r),
    {
        match &self.pending_auth {
            None => Err(AuthError::NoPendingAuth),
            Some(code) => Ok(device_token_request(code.device_code.as_str())),
        }
    }

    /// Takes the reply to a poll. `authorization_pending` is an ordinary
    /// answer and keeps the device code outstanding; `expired_token`, any
    /// other refusal, an unexpected status and an unreadable body all end it.
    /// Approved tokens are handed back for the exchange chain.
    pub fn finish_poll(&mut self, reply: PollReply) -> (r: Result<PollProgress, AuthError>)
        ensures
            final(self).pending_auth == session_after_poll(old(self).pending_auth, reply),
            poll_result(reply, r),
    {
        match reply {
            PollReply::Transport(detail) => Err(
                AuthError::Network { hop: Hop::TokenPoll, detail },
            ),
            PollReply::Status { code, body } => {
                self.pending_auth = None;
                Err(AuthError::Protocol { hop: Hop::TokenPoll, detail: body })
            },
            PollReply::Malformed(detail) => {
                self.pending_auth = None;
                Err(AuthError::Protocol { hop: Hop::TokenPoll, detail })
            },
            PollReply::Tokens(tokens) => Ok(PollProgress::Exchange(tokens)),
            PollReply::Refused { error } => {
                let code = match error {
                    Some(code) => code,
                    None => String::from_str("unknown"),
                };
                if code == String::from_str("authorization_pending") {
                    Ok(PollProgress::Settled(status_pending()))
                } else if code == String::from_str("expired_token") {
                    self.pending_auth = None;
                    Ok(PollProgress::Settled(status_expired()))
                } else {
                    self.pending_auth = None;
                    let text = String::from_str("Auth error: ").concat(code.as_str());
                    Ok(PollProgress::Settled(status_error(text)))
                }
            },
        }
    }

    /// Takes the result of the exchange chain that an approved poll started.
    /// The device code is spent either way, so none is outstanding afterwards.
    pub fn finish_exchange(&mut self, outcome: Result<LauncherAccount, AuthError>) -> (r:
        MSAuthStatus)
        ensures
            final(self).pending_auth is None,
            outcome is Ok ==> r.is_complete(outcome->Ok_0),
            outcome is Err ==> r.is_error(outcome->Err_0@.text()),
    {
        self.pending_auth = None;
        match outcome {
            Ok(account) => status_complete(account),
            Err(e) => status_error(e.message()),
        }
    }
}

/// A poll answered with `authorization_pending` right after a start reports
/// `pending` and leaves the device code of that start outstanding, so the next
/// poll gets its request.
pub proof fn law_pending_poll_keeps_session(
    code: DeviceCodeResponse,
    error: Option<String>,
    r: Result<PollProgress, AuthError>,
    next: Result<FormRequest, AuthError>,
)
    requires
        poll_error_code(error) == "authorization_pending"@,
        poll_result(PollReply::Refused { error }, r),
        poll_request_result(
            session_after_poll(
                session_after_start(HttpReply::Body(code)),
                PollReply::Refused { error },
            ),
            next,
        ),
    ensures
        r is Ok,
        r->Ok_0 is Settled,
        r->Ok_0->Settled_0.is_pending(),
        session_after_poll(
            session_after_start(HttpReply::Body(code)),
            PollReply::Refused { error },
        ) == Some(code),
        next is Ok,
{
}

/// A poll answered with `expired_token` reports `expired` and leaves no
/// device code outstanding, whatever was outstanding before: the next poll
/// is refused with `NoPendingAuth`.
pub proof fn law_expired_poll_clears_session(
    pending: Option<DeviceCodeResponse>,
    error: Option<String>,
    r: Result<PollProgress, AuthError>,
    next: Result<FormRequest, AuthError>,
)
    requires
        poll_error_code(error) == "expired_token"@,
        poll_result(PollReply::Refused { error }, r),
        poll_request_result(session_after_poll(pending, PollReply::Refused { error }), next),
    ensures
        r is Ok,
        r->Ok_0 is Settled,
        r->Ok_0->Settled_0.is_expired(),
        session_after_poll(pending, PollReply::Refused { error }) is None,
        next is Err,
        next->Err_0@ == Failure::NoPendingAuth,
{
    reveal_strlit("expired_token");
    reveal_strlit("authorization_pending");
    assert("expired_token"@.len() != "authorization_pending"@.len());
}

} // verus!
