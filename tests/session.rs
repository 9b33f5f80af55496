use ethers_web::{
    Address, Established, Ethereum, EthereumBuilder, EthereumError, EthereumState, Event, Handshake,
    RelayEvent, WalletType,
};

fn addr(b: u8) -> Address {
    Address([b; 20])
}

fn plain() -> Ethereum {
    EthereumBuilder::new().build()
}

fn with_relay() -> Ethereum {
    let mut b = EthereumBuilder::new();
    b.walletconnect_id("project-1");
    b.build()
}

fn drain(eth: &mut Ethereum) -> Vec<Event> {
    let mut out = Vec::new();
    while let Some(e) = eth.next(None) {
        out.push(e);
    }
    out
}

fn connect_injected(eth: &mut Ethereum, accounts: Vec<Address>, chain_id: &str) -> Result<(), EthereumError> {
    let plan = eth.connect(WalletType::Injected, true)?;
    assert_eq!(plan, Handshake::Injected);
    eth.establish(Ok(Established::Injected { accounts, chain_id: chain_id.to_string() }))
}

#[test]
fn builder_defaults() {
    let b = EthereumBuilder::new();
    assert_eq!(b.chain_id, 1);
    assert_eq!(b.name, "Example dApp");
    assert_eq!(b.description, "An example dApp written in Rust");
    assert_eq!(b.url, "https://github.com/quay-rs/ethers-web");
    assert_eq!(b.wc_project_id, None);
    assert!(b.icons.is_empty());
    assert_eq!(b.rpc_node, None);
}

#[test]
fn builder_setters_and_build() {
    let mut b = EthereumBuilder::new();
    b.chain_id(137);
    b.name("Shop");
    b.description("A shop");
    b.url("http://localhost");
    b.walletconnect_id("abc");
    b.rpc_node("https://rpc.example");
    b.add_icon("https://example/icon.png");
    let r = b.add_icon("https://example/icon2.png");
    assert_eq!(r.icons.len(), 2);
    let eth = b.build();
    assert_eq!(eth.metadata.name, "Shop");
    assert_eq!(eth.metadata.description, "A shop");
    assert_eq!(eth.metadata.url, "http://localhost");
    assert_eq!(eth.metadata.icons, vec!["https://example/icon.png".to_string(), "https://example/icon2.png".to_string()]);
    assert_eq!(eth.wc_project_id, Some("abc".to_string()));
    assert_eq!(eth.rpc_node, Some("https://rpc.example".to_string()));
    assert_eq!(eth.chain_id(), Some(137));
    assert_eq!(eth.accounts(), None);
    assert!(!eth.has_provider());
    assert_eq!(eth.connected_wallet_type(), None);
}

#[test]
fn available_wallets_without_relay_project() {
    let eth = plain();
    assert_eq!(eth.available_wallets(true), vec![WalletType::Injected]);
    assert_eq!(eth.available_wallets(false), Vec::<WalletType>::new());
    assert!(!eth.walletconnect_available());
    assert!(!eth.is_available(WalletType::WalletConnect, true));
    assert!(eth.is_available(WalletType::Injected, true));
    assert_eq!(eth.connect(WalletType::WalletConnect, true), Err(EthereumError::Unavailable));
    assert_eq!(eth.connect(WalletType::WalletConnect, false), Err(EthereumError::Unavailable));
}

#[test]
fn available_wallets_with_relay_project() {
    let eth = with_relay();
    assert_eq!(eth.available_wallets(true), vec![WalletType::Injected, WalletType::WalletConnect]);
    assert_eq!(eth.available_wallets(false), vec![WalletType::WalletConnect]);
    assert!(eth.walletconnect_available());
}

#[test]
fn injected_connect_without_host_fails() {
    let mut eth = plain();
    assert_eq!(eth.connect(WalletType::Injected, false), Err(EthereumError::Unavailable));
    assert!(!eth.has_provider());
    assert!(!eth.has_pending_events());
    assert_eq!(eth.next(None), None);
}

#[test]
fn injected_connect_event_order() {
    let mut eth = plain();
    connect_injected(&mut eth, vec![addr(1)], "0x89").unwrap();
    assert_eq!(eth.connected_wallet_type(), Some(WalletType::Injected));
    assert_eq!(eth.chain_id(), Some(137));
    assert_eq!(eth.accounts(), Some(vec![addr(1)]));
    assert_eq!(eth.next(None), Some(Event::Connected));
    assert_eq!(eth.persisted(), &Some(EthereumState { chain_id: Some(137), wc_state: None }));
    assert_eq!(eth.next(None), Some(Event::ChainIdChanged(Some(137))));
    assert_eq!(eth.next(None), Some(Event::AccountsChanged(Some(vec![addr(1)]))));
    assert_eq!(eth.next(None), None);
}

#[test]
fn connect_twice_is_refused() {
    let mut eth = plain();
    connect_injected(&mut eth, vec![addr(1)], "0x1").unwrap();
    assert_eq!(eth.connect(WalletType::Injected, true), Err(EthereumError::AlreadyConnected));
    assert_eq!(eth.connect(WalletType::WalletConnect, true), Err(EthereumError::AlreadyConnected));
    let again = eth.establish(Ok(Established::Injected { accounts: vec![addr(2)], chain_id: "0x5".to_string() }));
    assert_eq!(again, Err(EthereumError::AlreadyConnected));
    assert_eq!(eth.accounts(), Some(vec![addr(1)]));
    assert_eq!(eth.chain_id(), Some(1));
    assert_eq!(drain(&mut eth).len(), 3);
}

#[test]
fn disconnect_clears_and_orders_events() {
    let mut eth = plain();
    connect_injected(&mut eth, vec![addr(1)], "0x1").unwrap();
    drain(&mut eth);
    assert_eq!(eth.disconnect(), Some(WalletType::Injected));
    assert!(!eth.has_provider());
    assert_eq!(eth.accounts(), None);
    assert_eq!(eth.chain_id(), None);
    assert_eq!(eth.next(None), Some(Event::ChainIdChanged(None)));
    assert_eq!(eth.persisted(), &None);
    assert_eq!(eth.next(None), Some(Event::AccountsChanged(None)));
    assert_eq!(eth.next(None), Some(Event::Disconnected));
    assert_eq!(eth.persisted(), &None);
    assert_eq!(eth.next(None), None);
    assert_eq!(eth.disconnect(), None);
    assert!(!eth.has_pending_events());
}

#[test]
fn injected_empty_accounts_means_logout() {
    let mut eth = plain();
    connect_injected(&mut eth, vec![addr(1)], "0x1").unwrap();
    drain(&mut eth);
    eth.injected_accounts_changed(Some(vec![]));
    assert_eq!(drain(&mut eth), vec![Event::AccountsChanged(Some(vec![])), Event::Disconnected]);
    assert_eq!(eth.accounts(), None);
    assert_eq!(eth.persisted(), &None);
}

#[test]
fn injected_notifications() {
    let mut eth = plain();
    eth.injected_chain_changed("0x5");
    eth.injected_disconnected();
    assert!(!eth.has_pending_events());
    connect_injected(&mut eth, vec![addr(1)], "0x1").unwrap();
    drain(&mut eth);
    eth.injected_accounts_changed(Some(vec![addr(2)]));
    eth.injected_chain_changed("0x5");
    eth.injected_chain_changed("five");
    eth.injected_accounts_changed(None);
    eth.injected_disconnected();
    assert_eq!(
        drain(&mut eth),
        vec![
            Event::AccountsChanged(Some(vec![addr(2)])),
            Event::ChainIdChanged(Some(5)),
            Event::ChainIdChanged(None),
            Event::AccountsChanged(None),
            Event::Disconnected,
            Event::Disconnected,
        ]
    );
}

#[test]
fn injected_chain_id_must_be_hex_quantity() {
    for bad in ["89", "0x", "0xzz", "0x10000000000000000"] {
        let mut eth = plain();
        assert_eq!(connect_injected(&mut eth, vec![addr(1)], bad), Err(EthereumError::ConversionError));
        assert!(!eth.has_provider());
        assert!(!eth.has_pending_events());
    }
    let mut eth = plain();
    connect_injected(&mut eth, vec![], "0xffffffffffffffff").unwrap();
    assert_eq!(eth.chain_id(), Some(u64::MAX));
    let mut eth = plain();
    connect_injected(&mut eth, vec![], "0xAbC").unwrap();
    assert_eq!(eth.chain_id(), Some(0xabc));
}

#[test]
fn failed_handshake_is_propagated() {
    let mut eth = plain();
    let r = eth.establish(Err(EthereumError::Transport("closed".to_string())));
    assert_eq!(r, Err(EthereumError::Transport("closed".to_string())));
    assert!(!eth.has_provider());
    assert!(!eth.has_pending_events());
}

#[test]
fn walletconnect_pairing_and_approval() {
    let mut eth = with_relay();
    let plan = eth.connect(WalletType::WalletConnect, false).unwrap();
    assert_eq!(plan, Handshake::WalletConnect { project_id: "project-1".to_string(), chain_id: 1, resume: None });
    eth.establish(Ok(Established::WalletConnect { pairing_url: "wc:abc@2".to_string(), chain_id: 1, accounts: None }))
        .unwrap();
    assert_eq!(eth.connected_wallet_type(), Some(WalletType::WalletConnect));
    assert_eq!(eth.next(Some("s".to_string())), Some(Event::ConnectionWaiting("wc:abc@2".to_string())));
    assert_eq!(eth.persisted(), &None);
    let polled = Ok(Some(RelayEvent::Connected { chain_id: 10, accounts: Some(vec![addr(3)]) }));
    assert_eq!(eth.relay_event(polled), Ok(()));
    assert_eq!(eth.next(Some("state-1".to_string())), Some(Event::Connected));
    assert_eq!(eth.next(Some("state-1".to_string())), Some(Event::ChainIdChanged(Some(10))));
    assert_eq!(eth.next(Some("state-2".to_string())), Some(Event::AccountsChanged(Some(vec![addr(3)]))));
    assert_eq!(
        eth.persisted(),
        &Some(EthereumState { chain_id: Some(10), wc_state: Some("state-2".to_string()) })
    );
    assert_eq!(eth.relay_event(Ok(None)), Ok(()));
    assert!(!eth.has_pending_events());
    assert_eq!(eth.relay_event(Ok(Some(RelayEvent::Broken))), Ok(()));
    assert_eq!(eth.next(None), Some(Event::Broken));
    assert!(eth.has_provider());
    let failed = eth.relay_event(Err(EthereumError::Transport("socket".to_string())));
    assert_eq!(failed, Err(EthereumError::Transport("socket".to_string())));
}

#[test]
fn relay_events_ignored_without_relay_session() {
    let mut eth = plain();
    assert_eq!(eth.relay_event(Ok(Some(RelayEvent::ChainIdChanged(5)))), Ok(()));
    assert!(!eth.has_pending_events());
}

#[test]
fn switch_network_rules() {
    let mut eth = with_relay();
    eth.establish(Ok(Established::WalletConnect { pairing_url: String::new(), chain_id: 1, accounts: Some(vec![addr(1)]) }))
        .unwrap();
    drain(&mut eth);
    assert_eq!(eth.switch_network(5, None), Err(EthereumError::Unavailable));
    assert_eq!(eth.switch_network(5, Some(vec![])), Err(EthereumError::Unavailable));
    assert_eq!(eth.chain_id(), Some(1));
    assert_eq!(eth.accounts(), Some(vec![addr(1)]));
    assert!(!eth.has_pending_events());
    assert_eq!(eth.switch_network(5, Some(vec![addr(7)])), Ok(()));
    assert_eq!(eth.chain_id(), Some(5));
    assert_eq!(eth.accounts(), Some(vec![addr(7)]));
    assert_eq!(drain(&mut eth), vec![Event::ChainIdChanged(Some(5)), Event::AccountsChanged(Some(vec![addr(7)]))]);

    let mut injected = plain();
    connect_injected(&mut injected, vec![addr(1)], "0x1").unwrap();
    assert_eq!(injected.switch_network(5, Some(vec![addr(1)])), Err(EthereumError::Unavailable));
    let mut none = plain();
    assert_eq!(none.switch_network(5, Some(vec![addr(1)])), Err(EthereumError::Unavailable));
}

#[test]
fn resumed_relay_session_skips_pairing() {
    let mut eth = with_relay();
    eth.establish(Ok(Established::WalletConnect { pairing_url: String::new(), chain_id: 42, accounts: Some(vec![addr(4)]) }))
        .unwrap();
    eth.next(Some("blob".to_string()));
    let saved = eth.persisted().clone().unwrap();
    assert_eq!(saved, EthereumState { chain_id: Some(42), wc_state: Some("blob".to_string()) });

    let mut reloaded = with_relay();
    let plan = reloaded.restore(&saved, false).unwrap();
    assert_eq!(
        plan,
        Handshake::WalletConnect {
            project_id: "project-1".to_string(),
            chain_id: 42,
            resume: Some("blob".to_string())
        }
    );
    reloaded
        .establish(Ok(Established::WalletConnect { pairing_url: String::new(), chain_id: 42, accounts: Some(vec![addr(4)]) }))
        .unwrap();
    let events = drain(&mut reloaded);
    assert_eq!(
        events,
        vec![Event::Connected, Event::ChainIdChanged(Some(42)), Event::AccountsChanged(Some(vec![addr(4)]))]
    );
    assert!(!events.iter().any(|e| matches!(e, Event::ConnectionWaiting(_))));
}

#[test]
fn restore_without_relay_state_tries_injected() {
    let eth = with_relay();
    let saved = EthereumState { chain_id: Some(1), wc_state: None };
    assert_eq!(eth.restore(&saved, true), Ok(Handshake::Injected));
    assert_eq!(eth.restore(&saved, false), Err(EthereumError::Unavailable));
    let no_relay = plain();
    let relay_saved = EthereumState { chain_id: None, wc_state: Some("x".to_string()) };
    assert_eq!(no_relay.restore(&relay_saved, true), Err(EthereumError::Unavailable));
}

#[test]
fn requests_need_a_backend() {
    let mut eth = plain();
    assert_eq!(eth.route_request(), Err(EthereumError::NotConnected));
    connect_injected(&mut eth, vec![addr(1)], "0x1").unwrap();
    assert_eq!(eth.route_request(), Ok(WalletType::Injected));
}

#[test]
fn established_predicate() {
    assert!(!Event::ConnectionWaiting("u".to_string()).is_connection_established());
    assert!(!Event::Disconnected.is_connection_established());
    assert!(!Event::ChainIdChanged(None).is_connection_established());
    assert!(!Event::AccountsChanged(None).is_connection_established());
    assert!(Event::Connected.is_connection_established());
    assert!(Event::Broken.is_connection_established());
    assert!(Event::ChainIdChanged(Some(1)).is_connection_established());
    assert!(Event::AccountsChanged(Some(vec![])).is_connection_established());
}
