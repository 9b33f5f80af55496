use ethers_web::eip1193::{normalize_transaction_type, normalizes_params};
use ethers_web::error::{HexError, SignatureError};
use ethers_web::explorer::{ExplorerResponse, ImageSize, LinkSet, WalletData, WalletDescription, WalletMetadata};
use ethers_web::numeral::{parse_numeral, starts_with};
use ethers_web::session::parse_chain_id;
use ethers_web::signature::decode_signature;
use ethers_web::walletconnect::{route_relay_request, RelayRoute};
use ethers_web::{EthereumBuilder, EthereumError, WalletEvent};

fn signature_hex() -> String {
    let mut s = String::new();
    for _ in 0..32 {
        s.push_str("0a");
    }
    for _ in 0..32 {
        s.push_str("B0");
    }
    s.push_str("1c");
    s
}

#[test]
fn signature_with_prefix() {
    let sig = decode_signature(&format!("0x{}", signature_hex())).unwrap();
    assert_eq!(sig.r, vec![0x0a; 32]);
    assert_eq!(sig.s, vec![0xb0; 32]);
    assert_eq!(sig.v, 28);
}

#[test]
fn signature_without_prefix() {
    let sig = decode_signature(&signature_hex()).unwrap();
    assert_eq!(sig.v, 28);
    assert_eq!(sig.r[0], 0x0a);
}

#[test]
fn signature_of_wrong_length() {
    assert_eq!(
        decode_signature("0xabcd"),
        Err(EthereumError::SignatureError(SignatureError::InvalidLength(2)))
    );
    assert_eq!(decode_signature(""), Err(EthereumError::SignatureError(SignatureError::InvalidLength(0))));
}

#[test]
fn signature_with_bad_hex() {
    assert_eq!(decode_signature("0xabc"), Err(EthereumError::HexError(HexError::OddLength)));
    assert_eq!(
        decode_signature("0xzz"),
        Err(EthereumError::HexError(HexError::InvalidHexCharacter { c: 'z', index: 0 }))
    );
}

#[test]
fn chain_ids() {
    assert_eq!(parse_chain_id("0x1"), Some(1));
    assert_eq!(parse_chain_id("0x89"), Some(137));
    assert_eq!(parse_chain_id("0x0001"), Some(1));
    assert_eq!(parse_chain_id("0xffffffffffffffff"), Some(u64::MAX));
    assert_eq!(parse_chain_id("0x10000000000000000"), None);
    assert_eq!(parse_chain_id("0x"), None);
    assert_eq!(parse_chain_id("1"), None);
    assert_eq!(parse_chain_id("0x1g"), None);
}

#[test]
fn numerals() {
    assert_eq!(parse_numeral("eip155:137", 7, 10), Some(137));
    assert_eq!(parse_numeral("18446744073709551615", 0, 10), Some(u64::MAX));
    assert_eq!(parse_numeral("18446744073709551616", 0, 10), None);
    assert_eq!(parse_numeral("12a", 0, 10), None);
    assert_eq!(parse_numeral("ff", 0, 16), Some(255));
    assert!(starts_with("eip155:1", "eip155:"));
    assert!(!starts_with("eip15", "eip155:"));
}

#[test]
fn wallet_event_names() {
    assert_eq!(WalletEvent::AccountsChanged.as_str(), "accountsChanged");
    assert_eq!(WalletEvent::ChainChanged.as_str(), "chainChanged");
    assert_eq!(WalletEvent::Disconnect.as_str(), "disconnect");
}

#[test]
fn relay_routing() {
    assert_eq!(route_relay_request(true, false), Ok(RelayRoute::Relay));
    assert_eq!(route_relay_request(true, true), Ok(RelayRoute::Relay));
    assert_eq!(route_relay_request(false, true), Ok(RelayRoute::Fallback));
    assert_eq!(route_relay_request(false, false), Err(EthereumError::MissingProvider));
}

#[test]
fn transaction_type_quirks() {
    assert_eq!(normalize_transaction_type("0x01"), Some("0x1"));
    assert_eq!(normalize_transaction_type("0x02"), Some("0x2"));
    assert_eq!(normalize_transaction_type("0x03"), Some("0x3"));
    assert_eq!(normalize_transaction_type("0x2"), None);
    assert_eq!(normalize_transaction_type("Whatever"), None);
    assert!(!normalizes_params("wallet_watchAsset"));
    assert!(normalizes_params("eth_sendTransaction"));
}

fn links(native: Option<&str>) -> Option<LinkSet> {
    Some(LinkSet { native: native.map(|s| s.to_string()), universal: None })
}

fn wallet(id: &str, mobile: Option<LinkSet>, desktop: Option<LinkSet>, short: Option<&str>) -> WalletData {
    WalletData {
        id: id.to_string(),
        name: format!("{id} wallet"),
        chains: vec!["eip155:1".to_string(), "cosmos:hub".to_string(), "eip155:137".to_string(), "eip155:x".to_string()],
        image_id: format!("img-{id}"),
        mobile,
        desktop,
        metadata: WalletMetadata { short_name: short.map(|s| s.to_string()) },
    }
}

#[test]
fn explorer_listing() {
    let response = ExplorerResponse {
        listings: vec![
            ("a".to_string(), wallet("a", links(Some("a://")), None, Some("A"))),
            ("b".to_string(), wallet("b", links(Some("")), links(None), None)),
            ("c".to_string(), wallet("c", None, links(Some("c://")), None)),
        ],
        count: 3,
        total: 3,
    };
    let wallets = response.parse_wallets("pid");
    assert_eq!(
        wallets,
        vec![
            WalletDescription {
                id: "a".to_string(),
                short_name: "A".to_string(),
                name: "a wallet".to_string(),
                chains: vec![1, 137],
                image_id: "img-a".to_string(),
                project_id: "pid".to_string(),
                desktop_schema: None,
                mobile_schema: Some("a://".to_string()),
            },
            WalletDescription {
                id: "c".to_string(),
                short_name: "c wallet".to_string(),
                name: "c wallet".to_string(),
                chains: vec![1, 137],
                image_id: "img-c".to_string(),
                project_id: "pid".to_string(),
                desktop_schema: Some("c://".to_string()),
                mobile_schema: None,
            },
        ]
    );
    assert!(wallet("b", None, None, None).to_description().is_err());
}

#[test]
fn explorer_urls() {
    let d = WalletDescription {
        id: "a".to_string(),
        short_name: "A".to_string(),
        name: "A".to_string(),
        chains: vec![],
        image_id: "img".to_string(),
        project_id: "pid".to_string(),
        desktop_schema: None,
        mobile_schema: None,
    };
    assert_eq!(d.get_image(ImageSize::Small), "https://explorer-api.walletconnect.com/v3/logo/sm/img?projectId=pid");
    assert_eq!(d.get_image(ImageSize::Medium), "https://explorer-api.walletconnect.com/v3/logo/md/img?projectId=pid");
    assert_eq!(d.get_image(ImageSize::Large), "https://explorer-api.walletconnect.com/v3/logo/lg/img?projectId=pid");
    let eth = EthereumBuilder::new().build();
    assert_eq!(eth.wallets_listing_url(), Err(EthereumError::Unavailable));
    let mut b = EthereumBuilder::new();
    b.walletconnect_id("xyz");
    assert_eq!(
        b.build().wallets_listing_url(),
        Ok("https://explorer-api.walletconnect.com/v3/wallets?projectId=xyz".to_string())
    );
}
