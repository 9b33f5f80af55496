//! The session manager: which backend is active, the account and chain snapshot,
//! the ordered event queue that the caller drains, and the state to persist.
//!
//! Outside work (probing the host, the handshakes, relay polling, storage) is done by
//! the caller. Each method here takes the outcome of that work as an argument and
//! decides what happens next; its contract states the transition over the view
//! [`SessionView`] with one of the spec functions below.
//!
//! The queue is unbounded and strictly first in, first out: events are never dropped,
//! merged or reordered.
use vstd::prelude::*;

use crate::builder::{copy_opt_string, Metadata};
use crate::error::EthereumError;
use crate::event::{accounts_view, Event, EventView};
use crate::numeral::{has_prefix, numeral, parse_numeral, starts_with};
use crate::wallet::{copy_accounts, copy_addresses, Address, WalletType, WebProvider};

verus! {

/// The state written to the key-value store, and read back on reload.
#[derive(Clone, Debug, PartialEq, Eq)]
pub struct EthereumState {
    pub chain_id: Option<u64>,
    /// The relay session's resumable state, serialized; present only when a
    /// WalletConnect session was active.
    pub wc_state: Option<String>,
}

pub struct StateView {
    pub chain_id: Option<u64>,
    pub wc_state: Option<Seq<char>>,
}

impl View for EthereumState {
    type V = StateView;

    open spec fn view(&self) -> StateView {
        StateView {
            chain_id: self.chain_id,
            wc_state: match self.wc_state {
                Some(s) => Some(s@),
                None => None,
            },
        }
    }
}

pub open spec fn stored_view(s: Option<EthereumState>) -> Option<StateView> {
    match s {
        Some(x) => Some(x@),
        None => None,
    }
}

/// The outside work that a connection needs before [`Ethereum::establish`].
#[derive(Debug, PartialEq, Eq)]
pub enum Handshake {
    /// Ask the host provider for its accounts and its chain id.
    Injected,
    /// Open a relay session for `project_id` on `chain_id`, resuming from `resume`
    /// when it is given, and start its pairing.
    WalletConnect { project_id: String, chain_id: u64, resume: Option<String> },
}

/// What a handshake brought back.
pub enum Established {
    /// The host's answers to `eth_requestAccounts` and to `eth_chainId` (a hex quantity).
    Injected { accounts: Vec<Address>, chain_id: String },
    /// The relay session: the pairing URI (empty when a resumed session needs no
    /// pairing), its chain, and the accounts granted on that chain.
    WalletConnect { pairing_url: String, chain_id: u64, accounts: Option<Vec<Address>> },
}

/// An event delivered by the relay session.
pub enum RelayEvent {
    /// The pairing was approved; the session's chain and the accounts granted on it.
    Connected { chain_id: u64, accounts: Option<Vec<Address>> },
    Disconnected,
    Broken,
    ChainIdChanged(u64),
    AccountsChanged(Option<Vec<Address>>),
}

/// The mathematical state of a session.
pub struct SessionView {
    pub backend: WebProvider,
    pub accounts: Option<Seq<Address>>,
    pub chain_id: Option<u64>,
    /// The chain a relay session starts on when the snapshot has none.
    pub default_chain_id: u64,
    /// Events not yet handed to the caller, oldest first.
    pub queue: Seq<EventView>,
    /// What the key-value store should hold.
    pub stored: Option<StateView>,
}

/// The state of a session, changed only through the methods of [`Ethereum`].
pub struct Session {
    default_chain_id: u64,
    accounts: Option<Vec<Address>>,
    chain_id: Option<u64>,
    wallet: WebProvider,
    events: Vec<Event>,
    stored: Option<EthereumState>,
}

impl View for Session {
    type V = SessionView;

    closed spec fn view(&self) -> SessionView {
        SessionView {
            backend: self.wallet,
            accounts: accounts_view(self.accounts),
            chain_id: self.chain_id,
            default_chain_id: self.default_chain_id,
            queue: self.events@.map_values(|e: Event| e@),
            stored: stored_view(self.stored),
        }
    }
}

/// The wallet session: its configuration and its state.
pub struct Ethereum {
    pub metadata: Metadata,
    pub wc_project_id: Option<String>,
    pub rpc_node: Option<String>,
    pub session: Session,
}

impl View for Ethereum {
    type V = SessionView;

    open spec fn view(&self) -> SessionView {
        self.session@
    }
}

/// The configuration of `b` (metadata, relay project, fallback node) is that of `a`.
pub open spec fn same_config(a: Ethereum, b: Ethereum) -> bool {
    a.metadata == b.metadata && a.wc_project_id == b.wc_project_id && a.rpc_node == b.rpc_node
}

/// A fresh session on `chain_id`.
pub open spec fn initial(chain_id: u64) -> SessionView {
    SessionView {
        backend: WebProvider::Absent,
        accounts: None,
        chain_id: Some(chain_id),
        default_chain_id: chain_id,
        queue: Seq::empty(),
        stored: None,
    }
}

/// `s` with `evs` queued after its pending events.
pub open spec fn queued(s: SessionView, evs: Seq<EventView>) -> SessionView {
    SessionView { queue: s.queue + evs, ..s }
}

/// Why a connection to `wallet` is refused at once, if it is.
pub open spec fn connect_refusal(
    s: SessionView,
    wallet: WalletType,
    host_available: bool,
    relay_configured: bool,
) -> Option<EthereumError> {
    if s.backend != WebProvider::Absent {
        Some(EthereumError::AlreadyConnected)
    } else {
        match wallet {
            WalletType::Injected => if host_available {
                None
            } else {
                Some(EthereumError::Unavailable)
            },
            WalletType::WalletConnect => if relay_configured {
                None
            } else {
                Some(EthereumError::Unavailable)
            },
        }
    }
}

/// The events of a completed connection, in order.
pub open spec fn connected_events(chain_id: u64, accounts: Option<Seq<Address>>) -> Seq<EventView> {
    seq![
        EventView::Connected,
        EventView::ChainIdChanged(Some(chain_id)),
        EventView::AccountsChanged(accounts),
    ]
}

/// The events of a disconnection, in order.
pub open spec fn disconnect_events() -> Seq<EventView> {
    seq![
        EventView::ChainIdChanged(None),
        EventView::AccountsChanged(None),
        EventView::Disconnected,
    ]
}

/// A chain id as providers write it: `0x` and hex digits, fitting in 64 bits.
pub open spec fn hex_quantity(s: Seq<char>) -> Option<u64> {
    if has_prefix(s, "0x"@) {
        numeral(s.skip(2), 16)
    } else {
        None
    }
}

/// The result of completing a handshake with `outcome`.
pub open spec fn establish_result(s: SessionView, outcome: Result<Established, EthereumError>) -> Result<
    (),
    EthereumError,
> {
    if s.backend != WebProvider::Absent {
        Err(EthereumError::AlreadyConnected)
    } else {
        match outcome {
            Err(e) => Err(e),
            Ok(Established::Injected { accounts, chain_id }) => match hex_quantity(chain_id@) {
                Some(_) => Ok(()),
                None => Err(EthereumError::ConversionError),
            },
            Ok(Established::WalletConnect { .. }) => Ok(()),
        }
    }
}

/// The session after completing a handshake with `outcome`.
pub open spec fn after_establish(s: SessionView, outcome: Result<Established, EthereumError>) -> SessionView {
    if establish_result(s, outcome) is Err {
        s
    } else {
        match outcome {
            Ok(Established::Injected { accounts, chain_id }) => {
                let id = hex_quantity(chain_id@).unwrap();
                SessionView {
                    backend: WebProvider::Injected,
                    accounts: Some(accounts@),
                    chain_id: Some(id),
                    queue: s.queue + connected_events(id, Some(accounts@)),
                    ..s
                }
            },
            Ok(Established::WalletConnect { pairing_url, chain_id, accounts }) => {
                if pairing_url@.len() > 0 {
                    SessionView {
                        backend: WebProvider::WalletConnect,
                        queue: s.queue.push(EventView::ConnectionWaiting(pairing_url@)),
                        ..s
                    }
                } else {
                    SessionView {
                        backend: WebProvider::WalletConnect,
                        accounts: accounts_view(accounts),
                        chain_id: Some(chain_id),
                        queue: s.queue + connected_events(chain_id, accounts_view(accounts)),
                        ..s
                    }
                }
            },
            Err(_) => s,
        }
    }
}

/// The session after a disconnection.
pub open spec fn after_disconnect(s: SessionView) -> SessionView {
    if s.backend == WebProvider::Absent {
        s
    } else {
        SessionView {
            backend: WebProvider::Absent,
            accounts: None,
            chain_id: None,
            queue: s.queue + disconnect_events(),
            ..s
        }
    }
}

/// Whether a switch to a chain with the `granted` accounts goes through.
pub open spec fn switch_allowed(s: SessionView, granted: Option<Seq<Address>>) -> bool {
    s.backend == WebProvider::WalletConnect && granted is Some && granted.unwrap().len() > 0
}

/// The session after a switch to `chain_id`, whose granted accounts are `granted`.
pub open spec fn after_switch(s: SessionView, chain_id: u64, granted: Option<Seq<Address>>) -> SessionView {
    if switch_allowed(s, granted) {
        SessionView {
            accounts: granted,
            chain_id: Some(chain_id),
            queue: s.queue + seq![
                EventView::ChainIdChanged(Some(chain_id)),
                EventView::AccountsChanged(granted),
            ],
            ..s
        }
    } else {
        s
    }
}

/// The events that an injected `accountsChanged` notification stands for: an empty
/// or unreadable list also means the wallet logged out.
pub open spec fn injected_accounts_events(accounts: Option<Seq<Address>>) -> Seq<EventView> {
    if accounts is Some && accounts.unwrap().len() > 0 {
        seq![EventView::AccountsChanged(accounts)]
    } else {
        seq![EventView::AccountsChanged(accounts), EventView::Disconnected]
    }
}

/// `s` after a notification of the injected provider that stands for `evs`; ignored
/// unless the injected backend is active.
pub open spec fn after_injected(s: SessionView, evs: Seq<EventView>) -> SessionView {
    if s.backend == WebProvider::Injected {
        queued(s, evs)
    } else {
        s
    }
}

/// The events that a relay event stands for.
pub open spec fn relay_events(e: RelayEvent) -> Seq<EventView> {
    match e {
        RelayEvent::Connected { chain_id, accounts } => connected_events(
            chain_id,
            accounts_view(accounts),
        ),
        RelayEvent::Disconnected => seq![EventView::Disconnected],
        RelayEvent::Broken => seq![EventView::Broken],
        RelayEvent::ChainIdChanged(c) => seq![EventView::ChainIdChanged(Some(c))],
        RelayEvent::AccountsChanged(a) => seq![EventView::AccountsChanged(accounts_view(a))],
    }
}

/// `s` after a poll of the relay session that gave `polled`.
pub open spec fn after_relay(s: SessionView, polled: Result<Option<RelayEvent>, EthereumError>) -> SessionView {
    match polled {
        Ok(Some(e)) => if s.backend == WebProvider::WalletConnect {
            queued(s, relay_events(e))
        } else {
            s
        },
        _ => s,
    }
}

/// The snapshot after the session takes in `e`.
pub open spec fn absorb(s: SessionView, e: EventView) -> SessionView {
    match e {
        EventView::ChainIdChanged(c) => SessionView { chain_id: c, ..s },
        EventView::AccountsChanged(a) => SessionView { accounts: a, ..s },
        EventView::Disconnected => SessionView { accounts: None, chain_id: None, ..s },
        _ => s,
    }
}

/// The state to persist for `s`, given the relay session's current resumable state.
pub open spec fn collected(s: SessionView, relay_state: Option<Seq<char>>) -> StateView {
    StateView {
        chain_id: s.chain_id,
        wc_state: if s.backend == WebProvider::WalletConnect {
            relay_state
        } else {
            None
        },
    }
}

/// `s` after its oldest pending event is handed out: the snapshot takes it in, and the
/// store keeps the collected state if the event is established, nothing otherwise.
pub open spec fn after_next(s: SessionView, relay_state: Option<Seq<char>>) -> SessionView {
    if s.queue.len() == 0 {
        s
    } else {
        let e = s.queue[0];
        let t = SessionView { queue: s.queue.skip(1), ..absorb(s, e) };
        SessionView {
            stored: if e.established() {
                Some(collected(t, relay_state))
            } else {
                None
            },
            ..t
        }
    }
}

/// The characters of an optional string.
pub open spec fn text_view(s: Option<String>) -> Option<Seq<char>> {
    match s {
        Some(x) => Some(x@),
        None => None,
    }
}

/// The chain a new relay session starts on: the snapshot's, else the default.
pub open spec fn session_chain(s: SessionView) -> u64 {
    match s.chain_id {
        Some(c) => c,
        None => s.default_chain_id,
    }
}

/// The handshake for `wallet`, with the relay session opened on `chain_id` from `resume`.
pub open spec fn planned(eth: Ethereum, wallet: WalletType, chain_id: u64, resume: Option<String>) -> Handshake {
    match wallet {
        WalletType::Injected => Handshake::Injected,
        WalletType::WalletConnect => Handshake::WalletConnect {
            project_id: eth.wc_project_id.unwrap(),
            chain_id,
            resume,
        },
    }
}

/// The wallet kind that a saved state asks to resume: WalletConnect exactly when it
/// holds a relay session's state.
pub open spec fn saved_kind(saved: EthereumState) -> WalletType {
    if saved.wc_state is Some {
        WalletType::WalletConnect
    } else {
        WalletType::Injected
    }
}

/// The wallet kinds usable here, injected first.
pub open spec fn available(host_available: bool, relay_configured: bool) -> Seq<WalletType> {
    (if host_available {
        seq![WalletType::Injected]
    } else {
        Seq::empty()
    }) + (if relay_configured {
        seq![WalletType::WalletConnect]
    } else {
        Seq::empty()
    })
}

/// Reads a chain id written as a hex quantity.
pub fn parse_chain_id(s: &str) -> (r: Option<u64>)
    ensures
        r == hex_quantity(s@),
{
    proof {
        reveal_strlit("0x");
    }
    if starts_with(s, "0x") {
        parse_numeral(s, 2, 16)
    } else {
        None
    }
}

impl Ethereum {
    pub(crate) fn new(chain_id: u64, metadata: Metadata, wc_project_id: Option<String>, rpc_node: Option<String>) -> (r: Ethereum)
        ensures
            r@ == initial(chain_id),
            r.metadata == metadata,
            r.wc_project_id == wc_project_id,
            r.rpc_node == rpc_node,
    {
        let session = Session {
            default_chain_id: chain_id,
            accounts: None,
            chain_id: Some(chain_id),
            wallet: WebProvider::Absent,
            events: Vec::new(),
            stored: None,
        };
        let r = Ethereum { metadata, wc_project_id, rpc_node, session };
        assert(r@.queue =~= Seq::<EventView>::empty());
        r
    }

    /// Whether `wallet_type` can be used here; `host_available` is the answer of the
    /// host provider's probe.
    pub fn is_available(&self, wallet_type: WalletType, host_available: bool) -> (r: bool)
        ensures
            r == match wallet_type {
                WalletType::Injected => host_available,
                WalletType::WalletConnect => self.wc_project_id is Some,
            },
    {
        match wallet_type {
            WalletType::Injected => host_available,
            WalletType::WalletConnect => self.walletconnect_available(),
        }
    }

    /// Whether a backend is connected.
    pub fn has_provider(&self) -> (r: bool)
        ensures
            r == (self@.backend != WebProvider::Absent),
    {
        self.session.wallet.is_some()
    }

    /// The kind of the connected backend.
    pub fn connected_wallet_type(&self) -> (r: Option<WalletType>)
        ensures
            r == self@.backend.kind(),
    {
        match self.session.wallet {
            WebProvider::Absent => None,
            WebProvider::Injected => Some(WalletType::Injected),
            WebProvider::WalletConnect => Some(WalletType::WalletConnect),
        }
    }

    /// The wallet kinds usable here, injected first: injected when the host probe
    /// succeeded, WalletConnect when a relay project is configured.
    pub fn available_wallets(&self, host_available: bool) -> (r: Vec<WalletType>)
        ensures
            r@ == available(host_available, self.wc_project_id is Some),
    {
        let mut types: Vec<WalletType> = Vec::new();
        if host_available {
            types.push(WalletType::Injected);
        }
        if self.wc_project_id.is_some() {
            types.push(WalletType::WalletConnect);
        }
        assert(types@ =~= available(host_available, self.wc_project_id is Some));
        types
    }

    /// Whether a relay project is configured.
    pub fn walletconnect_available(&self) -> (r: bool)
        ensures
            r == self.wc_project_id is Some,
    {
        self.wc_project_id.is_some()
    }

    /// The handshake for `wallet`, with the relay session on `chain_id` from `resume`.
    fn plan(&self, wallet: WalletType, chain_id: u64, resume: Option<String>) -> (r: Handshake)
        requires
            wallet == WalletType::WalletConnect ==> self.wc_project_id is Some,
        ensures
            r == planned(*self, wallet, chain_id, resume),
    {
        match wallet {
            WalletType::Injected => Handshake::Injected,
            WalletType::WalletConnect => {
                let project_id = match &self.wc_project_id {
                    Some(p) => p.clone(),
                    None => {
                        return Handshake::Injected;
                    },
                };
                Handshake::WalletConnect { project_id, chain_id, resume }
            },
        }
    }

    /// The chain a new relay session starts on.
    fn start_chain(&self) -> (r: u64)
        ensures
            r == session_chain(self@),
    {
        match self.session.chain_id {
            Some(c) => c,
            None => self.session.default_chain_id,
        }
    }

    /// Starts a connection to `wallet`; `host_available` is the answer of the host
    /// provider's probe. Fails with `AlreadyConnected` while a backend is connected,
    /// and with `Unavailable` when the kind cannot be used here; otherwise returns the
    /// handshake to perform, whose outcome goes to [`Ethereum::establish`].
    pub fn connect(&self, wallet: WalletType, host_available: bool) -> (r: Result<Handshake, EthereumError>)
        ensures
            match connect_refusal(self@, wallet, host_available, self.wc_project_id is Some) {
                Some(e) => r == Err::<Handshake, EthereumError>(e),
                None => r == Ok::<Handshake, EthereumError>(
                    planned(*self, wallet, session_chain(self@), None),
                ),
            },
    {
        if self.session.wallet.is_some() {
            return Err(EthereumError::AlreadyConnected);
        }
        if !self.is_available(wallet, host_available) {
            return Err(EthereumError::Unavailable);
        }
        let chain_id = self.start_chain();
        Ok(self.plan(wallet, chain_id, None))
    }

    /// Starts a connection that resumes the saved state: the relay session it holds,
    /// else the injected provider, which may still have the dApp authorized. Refused
    /// as [`Ethereum::connect`] refuses; the relay session starts on the saved chain.
    pub fn restore(&self, saved: &EthereumState, host_available: bool) -> (r: Result<Handshake, EthereumError>)
        ensures
            match connect_refusal(self@, saved_kind(*saved), host_available, self.wc_project_id is Some) {
                Some(e) => r == Err::<Handshake, EthereumError>(e),
                None => r == Ok::<Handshake, EthereumError>(
                    planned(
                        *self,
                        saved_kind(*saved),
                        match saved.chain_id {
                            Some(c) => c,
                            None => session_chain(self@),
                        },
                        saved.wc_state,
                    ),
                ),
            },
    {
        let wallet = if saved.wc_state.is_some() {
            WalletType::WalletConnect
        } else {
            WalletType::Injected
        };
        if self.session.wallet.is_some() {
            return Err(EthereumError::AlreadyConnected);
        }
        if !self.is_available(wallet, host_available) {
            return Err(EthereumError::Unavailable);
        }
        let chain_id = match saved.chain_id {
            Some(c) => c,
            None => self.start_chain(),
        };
        Ok(self.plan(wallet, chain_id, copy_opt_string(&saved.wc_state)))
    }

    /// Completes a connection with the outcome of its handshake. A failed handshake,
    /// or an injected chain id that is not a hex quantity, leaves the session as it
    /// was. An injected wallet, or a relay session that needs no pairing, becomes the
    /// backend and queues `Connected`, its chain and its accounts; a relay session
    /// that waits for pairing becomes the backend and queues `ConnectionWaiting`.
    pub fn establish(&mut self, outcome: Result<Established, EthereumError>) -> (r: Result<(), EthereumError>)
        ensures
            r == establish_result(old(self)@, outcome),
            final(self)@ == after_establish(old(self)@, outcome),
            same_config(*old(self), *final(self)),
    {
        if self.session.wallet.is_some() {
            return Err(EthereumError::AlreadyConnected);
        }
        match outcome {
            Err(e) => {
                Err(e)
            },
            Ok(Established::Injected { accounts, chain_id }) => {
                let id = match parse_chain_id(chain_id.as_str()) {
                    Some(id) => id,
                    None => {
                        return Err(EthereumError::ConversionError);
                    },
                };
                let listed = copy_addresses(&accounts);
                self.session.wallet = WebProvider::Injected;
                self.session.accounts = Some(accounts);
                self.session.chain_id = Some(id);
                self.push_event(Event::Connected);
                self.push_event(Event::ChainIdChanged(Some(id)));
                self.push_event(Event::AccountsChanged(Some(listed)));
                assert(self@.queue =~= old(self)@.queue + connected_events(id, Some(listed@)));
                Ok(())
            },
            Ok(Established::WalletConnect { pairing_url, chain_id, accounts }) => {
                self.session.wallet = WebProvider::WalletConnect;
                if pairing_url.unicode_len() > 0 {
                    let ghost uri = pairing_url@;
                    self.push_event(Event::ConnectionWaiting(pairing_url));
                    assert(self@.queue =~= old(self)@.queue.push(EventView::ConnectionWaiting(uri)));
                } else {
                    let listed = copy_accounts(&accounts);
                    self.session.accounts = accounts;
                    self.session.chain_id = Some(chain_id);
                    self.push_event(Event::Connected);
                    self.push_event(Event::ChainIdChanged(Some(chain_id)));
                    self.push_event(Event::AccountsChanged(listed));
                    assert(self@.queue =~= old(self)@.queue + connected_events(
                        chain_id,
                        accounts_view(listed),
                    ));
                }
                Ok(())
            },
        }
    }

    /// Switches a WalletConnect session to `chain_id`; `granted` is what the relay
    /// session lists as granted on that chain. Fails with `Unavailable`, changing
    /// nothing, for any other backend and for a chain with no granted account;
    /// otherwise takes the chain and its accounts and queues their events.
    pub fn switch_network(&mut self, chain_id: u64, granted: Option<Vec<Address>>) -> (r: Result<(), EthereumError>)
        ensures
            switch_allowed(old(self)@, accounts_view(granted)) ==> r is Ok,
            !switch_allowed(old(self)@, accounts_view(granted)) ==> r == Err::<(), EthereumError>(
                EthereumError::Unavailable,
            ),
            final(self)@ == after_switch(old(self)@, chain_id, accounts_view(granted)),
            same_config(*old(self), *final(self)),
    {
        match self.session.wallet {
            WebProvider::WalletConnect => {},
            _ => {
                return Err(EthereumError::Unavailable);
            },
        }
        let accounts = match granted {
            Some(a) => a,
            None => {
                return Err(EthereumError::Unavailable);
            },
        };
        if accounts.len() == 0 {
            return Err(EthereumError::Unavailable);
        }
        let listed = copy_addresses(&accounts);
        self.session.accounts = Some(accounts);
        self.session.chain_id = Some(chain_id);
        self.push_event(Event::ChainIdChanged(Some(chain_id)));
        self.push_event(Event::AccountsChanged(Some(listed)));
        assert(self@.queue =~= old(self)@.queue + seq![
            EventView::ChainIdChanged(Some(chain_id)),
            EventView::AccountsChanged(Some(listed@)),
        ]);
        Ok(())
    }

    /// Takes in the injected provider's `accountsChanged` notification, whose list
    /// could not be read when `accounts` is `None`. Ignored unless the injected
    /// backend is connected.
    pub fn injected_accounts_changed(&mut self, accounts: Option<Vec<Address>>)
        ensures
            final(self)@ == after_injected(old(self)@, injected_accounts_events(accounts_view(accounts))),
            same_config(*old(self), *final(self)),
    {
        match self.session.wallet {
            WebProvider::Injected => {},
            _ => {
                return;
            },
        }
        let logged_out = match &accounts {
            Some(a) => a.len() == 0,
            None => true,
        };
        let ghost given = accounts_view(accounts);
        self.push_event(Event::AccountsChanged(accounts));
        if logged_out {
            self.push_event(Event::Disconnected);
        }
        assert(self@.queue =~= old(self)@.queue + injected_accounts_events(given));
    }

    /// Takes in the injected provider's `chainChanged` notification; a chain id that
    /// is not a hex quantity is queued as unset. Ignored unless the injected backend is
    /// connected.
    pub fn injected_chain_changed(&mut self, chain_id: &str)
        ensures
            final(self)@ == after_injected(
                old(self)@,
                seq![EventView::ChainIdChanged(hex_quantity(chain_id@))],
            ),
            same_config(*old(self), *final(self)),
    {
        match self.session.wallet {
            WebProvider::Injected => {},
            _ => {
                return;
            },
        }
        self.push_event(Event::ChainIdChanged(parse_chain_id(chain_id)));
    }

    /// Takes in the injected provider's `disconnect` notification. Ignored unless the
    /// injected backend is connected.
    pub fn injected_disconnected(&mut self)
        ensures
            final(self)@ == after_injected(old(self)@, seq![EventView::Disconnected]),
            same_config(*old(self), *final(self)),
    {
        match self.session.wallet {
            WebProvider::Injected => {},
            _ => {
                return;
            },
        }
        self.push_event(Event::Disconnected);
    }

    /// Takes in the outcome of one poll of the relay session. A failed poll is handed
    /// back unchanged; a poll that brought nothing changes nothing; an event is queued
    /// as the events it stands for, unless no relay session is connected.
    pub fn relay_event(&mut self, polled: Result<Option<RelayEvent>, EthereumError>) -> (r: Result<(), EthereumError>)
        ensures
            r == match polled {
                Err(e) => Err::<(), EthereumError>(e),
                Ok(_) => Ok(()),
            },
            final(self)@ == after_relay(old(self)@, polled),
            same_config(*old(self), *final(self)),
    {
        let event = match polled {
            Err(e) => {
                return Err(e);
            },
            Ok(None) => {
                return Ok(());
            },
            Ok(Some(e)) => e,
        };
        match self.session.wallet {
            WebProvider::WalletConnect => {},
            _ => {
                return Ok(());
            },
        }
        let ghost evs = relay_events(event);
        match event {
            RelayEvent::Connected { chain_id, accounts } => {
                self.push_event(Event::Connected);
                self.push_event(Event::ChainIdChanged(Some(chain_id)));
                self.push_event(Event::AccountsChanged(accounts));
            },
            RelayEvent::Disconnected => self.push_event(Event::Disconnected),
            RelayEvent::Broken => self.push_event(Event::Broken),
            RelayEvent::ChainIdChanged(c) => self.push_event(Event::ChainIdChanged(Some(c))),
            RelayEvent::AccountsChanged(a) => self.push_event(Event::AccountsChanged(a)),
        }
        assert(self@.queue =~= old(self)@.queue + evs);
        Ok(())
    }

    /// Whether events wait to be handed out.
    pub fn has_pending_events(&self) -> (r: bool)
        ensures
            r == (self@.queue.len() > 0),
    {
        self.session.events.len() > 0
    }

    /// The state to persist; `relay_state` is the relay session's current resumable
    /// state, kept only while a relay session is connected.
    fn collect_state(&self, relay_state: Option<String>) -> (r: EthereumState)
        ensures
            r@ == collected(self@, text_view(relay_state)),
    {
        let wc_state = match self.session.wallet {
            WebProvider::WalletConnect => relay_state,
            _ => None,
        };
        EthereumState { chain_id: self.session.chain_id, wc_state }
    }

    /// Hands out the oldest pending event, or `None` when there is none. The snapshot
    /// takes the event in; then the store is to keep the collected state if the event
    /// is established, and nothing otherwise. `relay_state` is the relay session's
    /// current resumable state.
    pub fn next(&mut self, relay_state: Option<String>) -> (r: Option<Event>)
        ensures
            old(self)@.queue.len() == 0 ==> r is None,
            old(self)@.queue.len() > 0 ==> r is Some && r->Some_0@ == old(self)@.queue[0],
            final(self)@ == after_next(old(self)@, text_view(relay_state)),
            same_config(*old(self), *final(self)),
    {
        if self.session.events.len() == 0 {
            return None;
        }
        let e = self.session.events.remove(0);
        assert(self.session.events@.map_values(|e: Event| e@) =~= old(self)@.queue.skip(1));
        match &e {
            Event::ChainIdChanged(c) => {
                self.session.chain_id = *c;
            },
            Event::AccountsChanged(a) => {
                self.session.accounts = copy_accounts(a);
            },
            Event::Disconnected => {
                self.session.accounts = None;
                self.session.chain_id = None;
            },
            _ => {},
        }
        if e.is_connection_established() {
            let state = self.collect_state(relay_state);
            self.session.stored = Some(state);
        } else {
            self.session.stored = None;
        }
        Some(e)
    }

    /// What the key-value store should hold.
    pub fn persisted(&self) -> (r: &Option<EthereumState>)
        ensures
            stored_view(*r) == self@.stored,
    {
        &self.session.stored
    }

    /// The connected accounts.
    pub fn accounts(&self) -> (r: Option<Vec<Address>>)
        ensures
            accounts_view(r) == self@.accounts,
    {
        copy_accounts(&self.session.accounts)
    }

    /// The chain the session is on.
    pub fn chain_id(&self) -> (r: Option<u64>)
        ensures
            r == self@.chain_id,
    {
        self.session.chain_id
    }

    /// The backend that serves a request or a signature: fails with `NotConnected`
    /// when none is connected.
    pub fn route_request(&self) -> (r: Result<WalletType, EthereumError>)
        ensures
            match self@.backend.kind() {
                Some(k) => r == Ok::<WalletType, EthereumError>(k),
                None => r == Err::<WalletType, EthereumError>(EthereumError::NotConnected),
            },
    {
        match self.session.wallet {
            WebProvider::Absent => Err(EthereumError::NotConnected),
            WebProvider::Injected => Ok(WalletType::Injected),
            WebProvider::WalletConnect => Ok(WalletType::WalletConnect),
        }
    }

    /// Queues one event.
    fn push_event(&mut self, e: Event)
        ensures
            final(self)@ == queued(old(self)@, seq![e@]),
            same_config(*old(self), *final(self)),
    {
        self.session.events.push(e);
        assert(self@.queue =~= old(self)@.queue + seq![e@]);
    }

    /// Ends the session: the backend is dropped, the snapshot cleared, and the
    /// disconnection events queued. Returns the kind of backend that the caller must
    /// now tear down (remove the listeners, or close the relay session); nothing
    /// happens when no backend is connected.
    pub fn disconnect(&mut self) -> (r: Option<WalletType>)
        ensures
            r == old(self)@.backend.kind(),
            final(self)@ == after_disconnect(old(self)@),
            same_config(*old(self), *final(self)),
    {
        let kind = match self.session.wallet {
            WebProvider::Absent => {
                return None;
            },
            WebProvider::Injected => WalletType::Injected,
            WebProvider::WalletConnect => WalletType::WalletConnect,
        };
        self.session.wallet = WebProvider::Absent;
        self.session.accounts = None;
        self.session.chain_id = None;
        self.push_event(Event::ChainIdChanged(None));
        self.push_event(Event::AccountsChanged(None));
        self.push_event(Event::Disconnected);
        assert(self@.queue =~= old(self)@.queue + disconnect_events());
        Some(kind)
    }
}

} // verus!
