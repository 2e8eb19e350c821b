//! Why a datagram is not a message, and why a message names no resource.

use vstd::prelude::*;

verus! {

/// Why a datagram could not be decoded. A datagram that fails to decode is
/// dropped without a reply.
#[derive(Clone, Copy, Debug, PartialEq, Eq, Structural)]
pub enum DecodeError {
    /// Fewer than the four mandatory header bytes.
    HeaderTooShort,
    /// The header announces a token of more than eight bytes.
    TokenTooLong,
    /// The delta nibble of an option is the reserved value 15.
    ReservedDelta,
    /// The length nibble of an option is the reserved value 15.
    ReservedLength,
    /// The token, an extended delta or length, or an option value runs
    /// past the end of the datagram.
    Truncated,
    /// An accumulated option number or an option length needs more than
    /// sixteen bits.
    OutOfRange,
}

/// Why the options of a request name no resource. Each of these is
/// answered with a bad-request response.
#[derive(Clone, Copy, Debug, PartialEq, Eq, Structural)]
pub enum ResolveError {
    /// A Uri-Host option names another host than this one.
    WrongHost,
    /// The value of a Uri-Host or Uri-Path option is not UTF-8.
    MalformedOption,
    /// An option other than Uri-Host and Uri-Path is present.
    UnsupportedOption,
    /// No Uri-Path option is present.
    NoPathFound,
}

} // verus!
