//! Request routing in a WalletConnect session.
use vstd::prelude::*;

use crate::error::EthereumError;

verus! {

/// Who serves a request made in a WalletConnect session.
#[derive(Clone, Copy, Debug, PartialEq, Eq, Structural)]
pub enum RelayRoute {
    /// The remote wallet, over the relay session.
    Relay,
    /// The fallback RPC node, over plain HTTP.
    Fallback,
}

/// Picks who serves a request: the relay session when it supports the method (signing,
/// calls scoped to the session's chains), else the fallback node if one is configured;
/// fails with `MissingProvider` otherwise.
pub fn route_relay_request(supported_by_relay: bool, has_fallback: bool) -> (r: Result<RelayRoute, EthereumError>)
    ensures
        supported_by_relay ==> r == Ok::<RelayRoute, EthereumError>(RelayRoute::Relay),
        !supported_by_relay && has_fallback ==> r == Ok::<RelayRoute, EthereumError>(RelayRoute::Fallback),
        !supported_by_relay && !has_fallback ==> r == Err::<RelayRoute, EthereumError>(
            EthereumError::MissingProvider,
        ),
{
    if supported_by_relay {
        Ok(RelayRoute::Relay)
    } else if has_fallback {
        Ok(RelayRoute::Fallback)
    } else {
        Err(EthereumError::MissingProvider)
    }
}

} // verus!
