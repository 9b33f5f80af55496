//! Session events: the provider notifications a listener can subscribe to, and the
//! closed set of events that the session hands to its caller.
use vstd::prelude::*;

use crate::wallet::Address;

verus! {

/// Notifications that an injected provider delivers to registered listeners.
#[derive(Clone, Copy, Debug, PartialEq, Eq, Structural)]
pub enum WalletEvent {
    AccountsChanged,
    ChainChanged,
    Disconnect,
}

impl WalletEvent {
    /// The name under which the provider publishes the notification.
    pub open spec fn name(self) -> Seq<char> {
        match self {
            WalletEvent::AccountsChanged => "accountsChanged"@,
            WalletEvent::ChainChanged => "chainChanged"@,
            WalletEvent::Disconnect => "disconnect"@,
        }
    }

    pub fn as_str(&self) -> (r: &'static str)
        ensures
            r@ == self.name(),
    {
        match self {
            WalletEvent::AccountsChanged => "accountsChanged",
            WalletEvent::ChainChanged => "chainChanged",
            WalletEvent::Disconnect => "disconnect",
        }
    }
}

/// A connection event of the session.
#[derive(Clone, Debug, PartialEq)]
pub enum Event {
    /// A WalletConnect pairing waits for approval at the given URI.
    ConnectionWaiting(String),
    Connected,
    Disconnected,
    /// The transport is degraded; the backend stays in place.
    Broken,
    ChainIdChanged(Option<u64>),
    AccountsChanged(Option<Vec<Address>>),
}

/// The mathematical value of an [`Event`].
pub enum EventView {
    ConnectionWaiting(Seq<char>),
    Connected,
    Disconnected,
    Broken,
    ChainIdChanged(Option<u64>),
    AccountsChanged(Option<Seq<Address>>),
}

/// The view of an optional account list.
pub open spec fn accounts_view(a: Option<Vec<Address>>) -> Option<Seq<Address>> {
    match a {
        Some(v) => Some(v@),
        None => None,
    }
}

impl View for Event {
    type V = EventView;

    open spec fn view(&self) -> EventView {
        match self {
            Event::ConnectionWaiting(uri) => EventView::ConnectionWaiting(uri@),
            Event::Connected => EventView::Connected,
            Event::Disconnected => EventView::Disconnected,
            Event::Broken => EventView::Broken,
            Event::ChainIdChanged(c) => EventView::ChainIdChanged(*c),
            Event::AccountsChanged(a) => EventView::AccountsChanged(accounts_view(*a)),
        }
    }
}

impl EventView {
    /// Whether the event leaves the session in a state worth remembering: every event
    /// but a pending pairing, a disconnection, or an unset chain or account list.
    pub open spec fn established(self) -> bool {
        match self {
            EventView::ConnectionWaiting(_) => false,
            EventView::Disconnected => false,
            EventView::ChainIdChanged(None) => false,
            EventView::AccountsChanged(None) => false,
            _ => true,
        }
    }
}

impl Event {
    pub fn is_connection_established(&self) -> (r: bool)
        ensures
            r == self@.established(),
    {
        match self {
            Event::ConnectionWaiting(_) => false,
            Event::Disconnected => false,
            Event::ChainIdChanged(None) => false,
            Event::AccountsChanged(None) => false,
            _ => true,
        }
    }
}

} // verus!
