//! Error taxonomy of the gateway core.
//!
//! Each enum covers one failure family; every variant is produced on an
//! exactly specified class of inputs, stated in the `ensures` of the
//! function that returns it.

use vstd::prelude::*;

verus! {

/// Failure to read a canonical identity string.
#[derive(Clone, Copy, Debug, PartialEq, Eq, Structural)]
pub enum ParseError {
    /// Not of the form `label.audience`.
    BadAccountId,
    /// Not of the form `label.account_label.audience`.
    BadAgentId,
    /// Not of the form `label.account_label.audience` (shared group form).
    BadSharedGroup,
}

/// A destination or source variant incompatible with the message kind.
#[derive(Clone, Copy, Debug, PartialEq, Eq, Structural)]
pub enum AddressingError {
    /// The destination variant cannot carry this outgoing message kind.
    DestinationKindMismatch,
    /// The source variant cannot feed this subscription kind.
    SourceKindMismatch,
}

/// A malformed or mismatched wire frame.
#[derive(Clone, Copy, Debug, PartialEq, Eq, Structural)]
pub enum CodecError {
    /// The frame is not a JSON object of string fields.
    MalformedFrame,
    /// The `type` discriminator is missing or unknown.
    BadKind,
    /// A field required by the discriminated kind is missing.
    MissingField,
    /// The `status` field is not a three-digit code in 100..=999.
    BadStatus,
    /// The discriminator does not match the requested message kind.
    KindMismatch,
}

/// Misuse of the correlation store.
#[derive(Clone, Copy, Debug, PartialEq, Eq, Structural)]
pub enum CorrelationError {
    /// The correlation id is already registered.
    DuplicateId,
}

/// Failure of the synchronous HTTP request bridge, with its HTTP mapping.
#[derive(Clone, Copy, Debug, PartialEq, Eq, Structural)]
pub enum RequestError {
    /// `me` is not a canonical agent id.
    BadMe,
    /// The destination value is not a canonical identity string.
    BadDestination,
    /// The authenticated account differs from the account in `me`.
    IdentityMismatch,
}

/// Failure to read an authentication token from a header value.
#[derive(Clone, Copy, Debug, PartialEq, Eq, Structural)]
pub enum AuthnError {
    /// The value is not of the form `Bearer <token>`.
    BadTokenType,
}

/// Reasons an inbound broadcast event is dropped instead of forwarded.
#[derive(Clone, Copy, Debug, PartialEq, Eq, Structural)]
pub enum ForwardError {
    /// The topic does not end in `audiences/<audience>/events`.
    BadTopic,
    /// No tenant is configured for the extracted audience.
    UnknownAudience,
    /// The originating account is not in the tenant's allow-list.
    SourceNotAllowed,
    /// No bearer token was minted for the audience.
    MissingToken,
}

impl RequestError {
    /// The HTTP status the bridge answers with for this failure.
    pub fn http_status(&self) -> (r: u16)
        ensures
            r == self.http_status_spec(),
    {
        match self {
            RequestError::BadMe => 422,
            RequestError::BadDestination => 422,
            RequestError::IdentityMismatch => 403,
        }
    }

    /// Status mapping: malformed input is unprocessable, identity spoofing
    /// is forbidden.
    pub open spec fn http_status_spec(&self) -> u16 {
        match self {
            RequestError::BadMe => 422u16,
            RequestError::BadDestination => 422u16,
            RequestError::IdentityMismatch => 403u16,
        }
    }
}

} // verus!
