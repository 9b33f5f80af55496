//! A dApp client library that keeps one wallet session over either an injected
//! EIP-1193 provider or a WalletConnect relay session.
//!
//! The library holds the session's state machine: which backend is active, the
//! account and chain snapshot, the ordered queue of session events, the state to
//! persist across reloads, and the parsing of the values that providers hand back.
//! The host bridge, the relay client and the key-value store stay with the caller,
//! who performs the work each decision names and hands the outcome back.
pub mod builder;
pub mod eip1193;
pub mod error;
pub mod event;
pub mod explorer;
pub mod laws;
pub mod numeral;
pub mod session;
pub mod signature;
pub mod wallet;
pub mod walletconnect;

pub use builder::{EthereumBuilder, Metadata};
pub use error::EthereumError;
pub use event::{Event, WalletEvent};
pub use session::{Established, Ethereum, EthereumState, Handshake, RelayEvent};
pub use signature::Signature;
pub use wallet::{Address, WalletType};
