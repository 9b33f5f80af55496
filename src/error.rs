//! Errors of the session and of the values it decodes.
use vstd::prelude::*;

verus! {

/// Why a hex string could not be decoded into bytes.
#[derive(Clone, Debug, PartialEq, Eq)]
pub enum HexError {
    /// The character at `index` is not a hex digit.
    InvalidHexCharacter { c: char, index: usize },
    /// The string has an odd number of digits.
    OddLength,
    /// The string's length does not fit the expected output.
    InvalidStringLength,
}

/// Why bytes could not be read as a signature.
#[derive(Clone, Debug, PartialEq, Eq)]
pub enum SignatureError {
    /// A signature is 65 bytes long; this many were given.
    InvalidLength(usize),
}

/// Errors of the session.
#[derive(Clone, Debug, PartialEq, Eq)]
pub enum EthereumError {
    /// The requested wallet kind cannot be used here: no host provider, no relay
    /// project configured, or a chain that the remote wallet never granted.
    Unavailable,
    /// No backend is connected.
    NotConnected,
    /// A backend is connected already.
    AlreadyConnected,
    /// A chain id that is not a hex quantity fitting in 64 bits.
    ConversionError,
    SignatureError(SignatureError),
    HexError(HexError),
    /// The injected host provider vanished before the call.
    HostUnavailable,
    /// The provider answered with a JSON-RPC error envelope.
    RpcError { code: i64, message: String },
    /// The provider's answer does not have the expected shape.
    DecodeError(String),
    /// The relay session does not serve the method and no fallback node is configured.
    MissingProvider,
    /// A bridge call, relay round trip or HTTP call failed.
    Transport(String),
}

} // verus!
