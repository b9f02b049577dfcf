//! The values that travel through a sign-in.

use vstd::prelude::*;
use crate::error::AuthError;

verus! {

/// A device code as issued by the identity provider.
#[derive(Debug, PartialEq, Eq)]
pub struct DeviceCodeResponse {
    pub user_code: String,
    pub device_code: String,
    pub verification_uri: String,
    pub expires_in: u64,
    pub interval: u64,
}

impl Clone for DeviceCodeResponse {
    fn clone(&self) -> (r: Self)
        ensures
            r == *self,
    {
        DeviceCodeResponse {
            user_code: self.user_code.clone(),
            device_code: self.device_code.clone(),
            verification_uri: self.verification_uri.clone(),
            expires_in: self.expires_in,
            interval: self.interval,
        }
    }
}

/// Access and refresh token of the identity provider.
#[derive(Debug, Clone, PartialEq, Eq)]
pub struct TokenResponse {
    pub access_token: String,
    pub refresh_token: String,
    pub expires_in: u64,
}

/// One entry of the user claims in an identity reply.
#[derive(Debug, Clone, PartialEq, Eq)]
pub struct XboxUserInfo {
    pub uhs: String,
}

/// The claims that come with an identity token.
#[derive(Debug, Clone, PartialEq, Eq)]
pub struct XboxDisplayClaims {
    pub xui: Vec<XboxUserInfo>,
}

/// Reply of the console-identity and of the relying-party exchange.
#[derive(Debug, Clone, PartialEq, Eq)]
pub struct XboxLiveAuthResponse {
    pub token: String,
    pub display_claims: XboxDisplayClaims,
}

/// Session credential of the game service.
#[derive(Debug, Clone, PartialEq, Eq)]
pub struct MinecraftAuthResponse {
    pub access_token: String,
    pub expires_in: u64,
}

/// Profile of the signed-in player.
#[derive(Debug, Clone, PartialEq, Eq)]
pub struct MinecraftProfile {
    pub id: String,
    pub name: String,
}

/// The account record handed to the caller after a completed sign-in.
#[derive(Debug, Clone, PartialEq, Eq)]
pub struct LauncherAccount {
    pub id: String,
    pub uuid: String,
    pub username: String,
    pub account_type: String,
    pub last_used: Option<String>,
    pub created_at: String,
}

/// What a poll reports to the user interface.
#[derive(Debug, Clone, PartialEq, Eq)]
pub struct MSAuthStatus {
    pub status: String,
    pub account: Option<LauncherAccount>,
    pub error: Option<String>,
}

impl MSAuthStatus {
    /// The user has not yet approved the device code.
    pub open spec fn is_pending(self) -> bool {
        &&& self.status@ == "pending"@
        &&& self.account is None
        &&& self.error is None
    }

    /// The device code ran out before the user approved it.
    pub open spec fn is_expired(self) -> bool {
        &&& self.status@ == "expired"@
        &&& self.account is None
        &&& self.error is Some
        &&& self.error->0@ == "Device code expired"@
    }

    /// The sign-in ended with the failure described by `text`.
    pub open spec fn is_error(self, text: Seq<char>) -> bool {
        &&& self.status@ == "error"@
        &&& self.account is None
        &&& self.error is Some
        &&& self.error->0@ == text
    }

    /// The sign-in produced `account`.
    pub open spec fn is_complete(self, account: LauncherAccount) -> bool {
        &&& self.status@ == "complete"@
        &&& self.account == Some(account)
        &&& self.error is None
    }
}

/// What came back from one request of the exchange chain.
#[derive(Debug)]
pub enum HttpReply<T> {
    /// No response arrived; the text says why.
    Transport(String),
    /// A response outside the success range, with its body.
    Status { code: u16, body: String },
    /// A successful response whose body could not be decoded; the text says why.
    Malformed(String),
    /// A successful response, decoded.
    Body(T),
}

/// What came back from the token endpoint while polling a device code.
#[derive(Debug)]
pub enum PollReply {
    /// No response arrived; the text says why.
    Transport(String),
    /// A bad-request response; `error` is the provider's error code, where
    /// the body carried one.
    Refused { error: Option<String> },
    /// Any other response outside the success range, with its body.
    Status { code: u16, body: String },
    /// A response whose body could not be decoded; the text says why.
    Malformed(String),
    /// The tokens of an approved device code.
    Tokens(TokenResponse),
}

/// How a response is to be read, going by its status code.
#[derive(Clone, Copy, Debug, PartialEq, Eq, Structural)]
pub enum ReplyKind {
    Success,
    BadRequest,
    Unexpected,
}

pub open spec fn reply_kind(code: u16) -> ReplyKind {
    if 200 <= code <= 299 {
        ReplyKind::Success
    } else if code == 400 {
        ReplyKind::BadRequest
    } else {
        ReplyKind::Unexpected
    }
}

/// Sorts a status code into the three kinds the sign-in tells apart.
pub fn classify_status(code: u16) -> (r: ReplyKind)
    ensures
        r == reply_kind(code),
{
    if 200 <= code && code <= 299 {
        ReplyKind::Success
    } else if code == 400 {
        ReplyKind::BadRequest
    } else {
        ReplyKind::Unexpected
    }
}

/// The failure that a reply other than a decoded body stands for at `hop`.
pub open spec fn reply_failure<T>(hop: crate::error::Hop, reply: HttpReply<T>) -> AuthError
    recommends
        !(reply is Body),
{
    match reply {
        HttpReply::Transport(detail) => AuthError::Network { hop, detail },
        HttpReply::Status { code, body } => AuthError::Protocol { hop, detail: body },
        HttpReply::Malformed(detail) => AuthError::Protocol { hop, detail },
        HttpReply::Body(_) => arbitrary(),
    }
}

/// Reads a reply: the decoded body, or the failure it stands for at `hop`.
pub fn read_reply<T>(hop: crate::error::Hop, reply: HttpReply<T>) -> (r: Result<T, AuthError>)
    ensures
        reply is Body ==> r == Ok::<T, AuthError>(reply->Body_0),
        !(reply is Body) ==> r == Err::<T, AuthError>(reply_failure(hop, reply)),
{
    match reply {
        HttpReply::Transport(detail) => Err(AuthError::Network { hop, detail }),
        HttpReply::Status { code, body } => Err(AuthError::Protocol { hop, detail: body }),
        HttpReply::Malformed(detail) => Err(AuthError::Protocol { hop, detail }),
        HttpReply::Body(value) => Ok(value),
    }
}

} // verus!
