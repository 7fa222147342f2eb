//! The errors of this client.
use vstd::prelude::*;

verus! {

/// Why a request or a reply was refused.
pub enum ClientError {
    /// The login URL made from the account name is not a valid URL.
    InvalidUrl,
    /// The reply is not the JSON envelope that was expected.
    Protocol,
    /// The reply parsed, but the service reported `success: false`; its
    /// `code` and `message`, where it sent them as strings.
    Application { code: Option<String>, message: Option<String> },
    /// The rows of a reply do not have the shape of the requested row type.
    Deserialization,
}

} // verus!
