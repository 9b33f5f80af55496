//! Laws of the session that span several operations, stated over the transitions
//! that the methods of [`crate::session::Ethereum`] are specified with.
use vstd::prelude::*;

use crate::error::EthereumError;
use crate::event::{accounts_view, EventView};
use crate::session::{
    after_disconnect, after_establish, after_injected, after_next, after_switch, available, collected,
    connect_refusal, connected_events, disconnect_events, establish_result, hex_quantity,
    injected_accounts_events, planned, saved_kind, switch_allowed, Established,
    Ethereum, EthereumState, SessionView,
};
use crate::wallet::{Address, WalletType, WebProvider};

verus! {

/// Connecting the injected wallet and then disconnecting leaves no backend, no
/// accounts and no chain: whenever the connection went through, or a backend was
/// connected before.
pub proof fn lemma_connect_then_disconnect(s: SessionView, outcome: Result<Established, EthereumError>)
    requires
        establish_result(s, outcome) is Ok || s.backend != WebProvider::Absent,
    ensures
        after_disconnect(after_establish(s, outcome)).backend == WebProvider::Absent,
        after_disconnect(after_establish(s, outcome)).accounts is None,
        after_disconnect(after_establish(s, outcome)).chain_id is None,
{
}

/// Once a connection went through, connecting again is refused with
/// `AlreadyConnected` whatever the wallet kind, and completing another handshake is
/// refused the same way and changes nothing.
pub proof fn lemma_connect_twice(
    s: SessionView,
    first: Result<Established, EthereumError>,
    wallet: WalletType,
    host_available: bool,
    relay_configured: bool,
    second: Result<Established, EthereumError>,
)
    requires
        establish_result(s, first) is Ok,
    ensures
        connect_refusal(after_establish(s, first), wallet, host_available, relay_configured)
            == Some(EthereumError::AlreadyConnected),
        establish_result(after_establish(s, first), second) == Err::<(), EthereumError>(
            EthereumError::AlreadyConnected,
        ),
        after_establish(after_establish(s, first), second) == after_establish(s, first),
{
}

/// After a successful injected connection on a session with no pending events, the
/// next three events handed out are `Connected`, the chain, and the accounts, and
/// then none is left.
pub proof fn lemma_injected_connect_order(
    s: SessionView,
    accounts: Vec<Address>,
    chain_id: String,
    relay_states: Seq<Option<Seq<char>>>,
)
    requires
        s.backend == WebProvider::Absent,
        s.queue.len() == 0,
        hex_quantity(chain_id@) is Some,
        relay_states.len() == 3,
    ensures
        ({
            let id = hex_quantity(chain_id@).unwrap();
            let t0 = after_establish(s, Ok(Established::Injected { accounts, chain_id }));
            let t1 = after_next(t0, relay_states[0]);
            let t2 = after_next(t1, relay_states[1]);
            let t3 = after_next(t2, relay_states[2]);
            &&& t0.queue.len() == 3 && t0.queue[0] == EventView::Connected
            &&& t1.queue.len() == 2 && t1.queue[0] == EventView::ChainIdChanged(Some(id))
            &&& t2.queue.len() == 1 && t2.queue[0] == EventView::AccountsChanged(Some(accounts@))
            &&& t3.queue.len() == 0
        }),
{
    let id = hex_quantity(chain_id@).unwrap();
    let t0 = after_establish(s, Ok(Established::Injected { accounts, chain_id }));
    assert(t0.queue =~= connected_events(id, Some(accounts@)));
    let t1 = after_next(t0, relay_states[0]);
    assert(t1.queue =~= seq![EventView::ChainIdChanged(Some(id)), EventView::AccountsChanged(Some(accounts@))]);
    let t2 = after_next(t1, relay_states[1]);
    assert(t2.queue =~= seq![EventView::AccountsChanged(Some(accounts@))]);
}

/// After a disconnection of a connected session with no pending events, the next three
/// events handed out are the unset chain, the unset accounts and `Disconnected`; the
/// store then holds nothing.
pub proof fn lemma_disconnect_order(s: SessionView, relay_states: Seq<Option<Seq<char>>>)
    requires
        s.backend != WebProvider::Absent,
        s.queue.len() == 0,
        relay_states.len() == 3,
    ensures
        ({
            let t0 = after_disconnect(s);
            let t1 = after_next(t0, relay_states[0]);
            let t2 = after_next(t1, relay_states[1]);
            let t3 = after_next(t2, relay_states[2]);
            &&& t0.queue.len() == 3 && t0.queue[0] == EventView::ChainIdChanged(None)
            &&& t1.queue.len() == 2 && t1.queue[0] == EventView::AccountsChanged(None)
            &&& t2.queue.len() == 1 && t2.queue[0] == EventView::Disconnected
            &&& t3.queue.len() == 0 && t3.stored is None
        }),
{
    let t0 = after_disconnect(s);
    assert(t0.queue =~= disconnect_events());
    let t1 = after_next(t0, relay_states[0]);
    assert(t1.queue =~= seq![EventView::AccountsChanged(None), EventView::Disconnected]);
    let t2 = after_next(t1, relay_states[1]);
    assert(t2.queue =~= seq![EventView::Disconnected]);
}

/// An injected `accountsChanged` with an empty list queues the empty list and then
/// `Disconnected`.
pub proof fn lemma_empty_accounts_logout(s: SessionView)
    requires
        s.backend == WebProvider::Injected,
    ensures
        after_injected(s, injected_accounts_events(Some(Seq::<Address>::empty()))).queue == s.queue
            + seq![EventView::AccountsChanged(Some(Seq::<Address>::empty())), EventView::Disconnected],
{
}

/// Switching a WalletConnect session to a chain with no granted account fails and
/// leaves the session as it was.
pub proof fn lemma_switch_to_ungranted_chain(s: SessionView, chain_id: u64, granted: Option<Seq<Address>>)
    requires
        s.backend == WebProvider::WalletConnect,
        granted is None || granted.unwrap().len() == 0,
    ensures
        !switch_allowed(s, granted),
        after_switch(s, chain_id, granted) == s,
{
}

/// Switching the network of an injected session always fails and changes nothing.
pub proof fn lemma_switch_injected(s: SessionView, chain_id: u64, granted: Option<Seq<Address>>)
    requires
        s.backend == WebProvider::Injected,
    ensures
        !switch_allowed(s, granted),
        after_switch(s, chain_id, granted) == s,
{
}

/// Handing out an established event leaves the collected state in the store, with the
/// chain of the snapshot; handing out `Disconnected` leaves the store empty.
pub proof fn lemma_persistence(s: SessionView, relay_state: Option<Seq<char>>)
    requires
        s.queue.len() > 0,
    ensures
        s.queue[0].established() ==> after_next(s, relay_state).stored is Some
            && after_next(s, relay_state).stored.unwrap().chain_id == after_next(s, relay_state).chain_id,
        s.queue[0] == EventView::Disconnected ==> after_next(s, relay_state).stored is None,
{
}

/// A state saved while a WalletConnect session was connected, read back on a session
/// with nothing connected and a relay project configured, resumes that relay session
/// from exactly the saved relay state; when the relay accepts it without a new
/// pairing, the session connects without queueing `ConnectionWaiting`.
pub proof fn lemma_resume_round_trip(
    eth: Ethereum,
    t: SessionView,
    relay_state: Seq<char>,
    saved: EthereumState,
    host_available: bool,
    pairing_url: String,
    chain_id: u64,
    accounts: Option<Vec<Address>>,
)
    requires
        t.backend == WebProvider::WalletConnect,
        saved@ == collected(t, Some(relay_state)),
        eth@.backend == WebProvider::Absent,
        eth.wc_project_id is Some,
        pairing_url@.len() == 0,
    ensures
        saved_kind(saved) == WalletType::WalletConnect,
        connect_refusal(eth@, saved_kind(saved), host_available, eth.wc_project_id is Some) is None,
        ({
            let plan = planned(eth, saved_kind(saved), chain_id, saved.wc_state);
            plan is WalletConnect && plan->WalletConnect_resume is Some
                && plan->WalletConnect_resume.unwrap()@ == relay_state
        }),
        ({
            let u = after_establish(
                eth@,
                Ok(Established::WalletConnect { pairing_url, chain_id, accounts }),
            );
            &&& u.queue == eth@.queue + connected_events(chain_id, accounts_view(accounts))
            &&& forall|i: int|
                eth@.queue.len() <= i < u.queue.len() ==> !(#[trigger] u.queue[i] is ConnectionWaiting)
        }),
{
    let u = after_establish(eth@, Ok(Established::WalletConnect { pairing_url, chain_id, accounts }));
    let n = eth@.queue.len();
    let evs = connected_events(chain_id, accounts_view(accounts));
    assert forall|i: int| n <= i < u.queue.len() implies !(#[trigger] u.queue[i] is ConnectionWaiting) by {
        assert(u.queue[i] == evs[i - n]);
    }
}

/// Without a relay project, only the injected wallet can be offered, and only when
/// the host probe succeeds; a WalletConnect connection is refused as unavailable.
pub proof fn lemma_no_relay_project(s: SessionView, host_available: bool)
    requires
        s.backend == WebProvider::Absent,
    ensures
        available(host_available, false) == if host_available {
            seq![WalletType::Injected]
        } else {
            Seq::<WalletType>::empty()
        },
        connect_refusal(s, WalletType::WalletConnect, host_available, false) == Some(
            EthereumError::Unavailable,
        ),
{
    assert(available(host_available, false) =~= if host_available {
        seq![WalletType::Injected]
    } else {
        Seq::<WalletType>::empty()
    });
}

} // verus!
