//! What can go wrong during sign-in, and how it is put into words.

use vstd::prelude::*;
use vstd::string::*;

verus! {

/// One request of the sign-in, named so that a failure says where it happened.
#[derive(Clone, Copy, Debug, PartialEq, Eq, Structural)]
pub enum Hop {
    DeviceCode,
    TokenPoll,
    Refresh,
    ConsoleIdentity,
    RelyingParty,
    GameLogin,
    Profile,
}

impl Hop {
    /// The words that stand for this hop in a message.
    pub open spec fn label_text(self) -> Seq<char> {
        match self {
            Hop::DeviceCode => "device code"@,
            Hop::TokenPoll => "token poll"@,
            Hop::Refresh => "refresh token"@,
            Hop::ConsoleIdentity => "Xbox Live auth"@,
            Hop::RelyingParty => "XSTS auth"@,
            Hop::GameLogin => "Minecraft auth"@,
            Hop::Profile => "Minecraft profile"@,
        }
    }

    /// The words that stand for this hop in a message.
    pub fn label(self) -> (r: &'static str)
        ensures
            r@ == self.label_text(),
    {
        match self {
            Hop::DeviceCode => "device code",
            Hop::TokenPoll => "token poll",
            Hop::Refresh => "refresh token",
            Hop::ConsoleIdentity => "Xbox Live auth",
            Hop::RelyingParty => "XSTS auth",
            Hop::GameLogin => "Minecraft auth",
            Hop::Profile => "Minecraft profile",
        }
    }
}

/// A failure of the sign-in.
#[derive(Debug, Clone, PartialEq, Eq)]
pub enum AuthError {
    /// The endpoint of `hop` could not be reached.
    Network { hop: Hop, detail: String },
    /// The endpoint of `hop` answered with an unexpected status or with a
    /// body that could not be read.
    Protocol { hop: Hop, detail: String },
    /// The console-identity reply named no user.
    MissingClaim,
    /// The credential store holds no secret under the requested key.
    CredentialNotFound,
    /// A poll was asked for while no device code was outstanding.
    NoPendingAuth,
    /// The credential store failed for a reason other than absence.
    Store(String),
}

/// A failure as contracts speak of it: the same cases, with texts as sequences
/// of characters.
pub enum Failure {
    Network { hop: Hop, detail: Seq<char> },
    Protocol { hop: Hop, detail: Seq<char> },
    MissingClaim,
    CredentialNotFound,
    NoPendingAuth,
    Store(Seq<char>),
}

impl View for AuthError {
    type V = Failure;

    open spec fn view(&self) -> Failure {
        match *self {
            AuthError::Network { hop, detail } => Failure::Network { hop, detail: detail@ },
            AuthError::Protocol { hop, detail } => Failure::Protocol { hop, detail: detail@ },
            AuthError::MissingClaim => Failure::MissingClaim,
            AuthError::CredentialNotFound => Failure::CredentialNotFound,
            AuthError::NoPendingAuth => Failure::NoPendingAuth,
            AuthError::Store(detail) => Failure::Store(detail@),
        }
    }
}

impl Failure {
    /// The text shown for this failure.
    pub open spec fn text(self) -> Seq<char> {
        match self {
            Failure::Network { hop, detail } => hop.label_text() + " request failed: "@ + detail,
            Failure::Protocol { hop, detail } => hop.label_text() + " response rejected: "@
                + detail,
            Failure::MissingClaim => "No Xbox user hash in response"@,
            Failure::CredentialNotFound => "No stored credential for this account"@,
            Failure::NoPendingAuth => "No pending auth"@,
            Failure::Store(detail) => detail,
        }
    }
}

impl AuthError {
    /// The text shown for this failure.
    pub open spec fn message_text(self) -> Seq<char> {
        self@.text()
    }

    /// Puts this failure into words.
    pub fn message(&self) -> (r: String)
        ensures
            r@ == self.message_text(),
    {
        match self {
            AuthError::Network { hop, detail } => String::from_str(hop.label()).concat(
                " request failed: ",
            ).concat(detail.as_str()),
            AuthError::Protocol { hop, detail } => String::from_str(hop.label()).concat(
                " response rejected: ",
            ).concat(detail.as_str()),
            AuthError::MissingClaim => String::from_str("No Xbox user hash in response"),
            AuthError::CredentialNotFound => String::from_str(
                "No stored credential for this account",
            ),
            AuthError::NoPendingAuth => String::from_str("No pending auth"),
            AuthError::Store(detail) => detail.clone(),
        }
    }
}

} // verus!
