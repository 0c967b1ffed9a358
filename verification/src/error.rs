//! The failures this library reports, and the message shown for each.

use crate::strings::{decimal, push_decimal};
use vstd::prelude::*;
use vstd::string::*;

verus! {

/// Every way an operation of this library can fail. Each failure is final
/// for the call that met it: nothing is retried.
#[derive(Clone, Debug, PartialEq, Eq)]
pub enum NexusError {
    /// No stored session cookie was found in any store.
    DiscoveryMiss,
    /// A stored cookie could not be decrypted: malformed record or key blob,
    /// refused unwrap, or failed authentication.
    DecryptionFailed,
    /// The identity check answered with anything but success.
    SessionInvalid,
    /// The first request of a handshake brought no anti-forgery token.
    TokenAcquisitionFailed,
    /// The second request of a handshake was answered with a failure.
    ActionRejected { status: u16, body: String },
    /// Another process holds the singleton lock.
    LaunchConflict,
    /// The network, or an answer that could not be read.
    TransportFailure(String),
}

/// A failure with its texts as sequences of characters.
pub enum Failure {
    DiscoveryMiss,
    DecryptionFailed,
    SessionInvalid,
    TokenAcquisitionFailed,
    ActionRejected { status: u16, body: Seq<char> },
    LaunchConflict,
    TransportFailure(Seq<char>),
}

impl View for NexusError {
    type V = Failure;

    open spec fn view(&self) -> Failure {
        match *self {
            NexusError::DiscoveryMiss => Failure::DiscoveryMiss,
            NexusError::DecryptionFailed => Failure::DecryptionFailed,
            NexusError::SessionInvalid => Failure::SessionInvalid,
            NexusError::TokenAcquisitionFailed => Failure::TokenAcquisitionFailed,
            NexusError::ActionRejected { status, body } => Failure::ActionRejected {
                status,
                body: body@,
            },
            NexusError::LaunchConflict => Failure::LaunchConflict,
            NexusError::TransportFailure(detail) => Failure::TransportFailure(detail@),
        }
    }
}

/// The message for each failure.
pub open spec fn message_text(error: Failure) -> Seq<char> {
    match error {
        Failure::DiscoveryMiss => "No cookies found"@,
        Failure::DecryptionFailed => "Failed to decrypt cookie"@,
        Failure::SessionInvalid => "Cookie is invalid or expired"@,
        Failure::TokenAcquisitionFailed => "Failed to get CSRF token"@,
        Failure::ActionRejected { status, body } => "Failed: HTTP "@ + decimal(status as nat)
            + " - "@ + body,
        Failure::LaunchConflict =>
            "Roblox is already running - close it first to enable multi-instance"@,
        Failure::TransportFailure(detail) => detail,
    }
}

impl NexusError {
    /// The message to show for this failure.
    pub fn message(&self) -> (text: String)
        ensures
            text@ == message_text(self@),
    {
        match self {
            NexusError::DiscoveryMiss => String::from_str("No cookies found"),
            NexusError::DecryptionFailed => String::from_str("Failed to decrypt cookie"),
            NexusError::SessionInvalid => String::from_str("Cookie is invalid or expired"),
            NexusError::TokenAcquisitionFailed => String::from_str("Failed to get CSRF token"),
            NexusError::ActionRejected { status, body } => {
                let mut text = String::from_str("Failed: HTTP ");
                push_decimal(&mut text, *status as u64);
                text.append(" - ");
                text.append(body.as_str());
                text
            },
            NexusError::LaunchConflict => String::from_str(
                "Roblox is already running - close it first to enable multi-instance",
            ),
            NexusError::TransportFailure(detail) => detail.clone(),
        }
    }
}

} // verus!
