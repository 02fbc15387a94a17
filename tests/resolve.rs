use console_wallet_ui::{resolve_base_node, BaseNodePeer, OverrideStatus, StoreError};
use console_wallet_ui::peer::display_pair;

const CFG_HEX: &str = "e2f2ae0a6abc4e71a884a961c500515f58e30b6aa582dd8db6a65945e08d2d76";
const CFG_ADDR: &str = "/ip4/1.2.3.4/tcp/18141";
const ABC_HEX: &str = "6a493210f7499cd17fecb510ae0cea23a110e8d5b901f8acadd3095c73a3b919";
const ABC_ADDR: &str = "/ip4/9.9.9.9/tcp/18141";

fn bytes(hex: &str) -> Vec<u8> {
    tari_crypto::tari_utilities::hex::from_hex(hex).unwrap()
}

fn configured() -> BaseNodePeer {
    BaseNodePeer { public_key: bytes(CFG_HEX), addresses: vec![CFG_ADDR.to_string()] }
}

fn present(s: &str) -> Result<Option<String>, StoreError> {
    Ok(Some(s.to_string()))
}

fn failed() -> Result<Option<String>, StoreError> {
    Err(StoreError { message: "database is locked".to_string() })
}

#[test]
fn valid_override_is_used() {
    let r = resolve_base_node(present(ABC_HEX), present(ABC_ADDR), configured());
    assert_eq!(r.status, OverrideStatus::Used);
    assert_eq!(r.peer.public_key, bytes(ABC_HEX));
    assert_eq!(r.peer.addresses, vec![ABC_ADDR.to_string()]);
    assert_eq!(r.public_key_hex, ABC_HEX);
    assert_eq!(r.address, ABC_ADDR);
}

#[test]
fn missing_address_keeps_configured_peer() {
    let r = resolve_base_node(present(ABC_HEX), Ok(None), configured());
    assert_eq!(r.status, OverrideStatus::NotConfigured);
    assert_eq!(r.peer.public_key, bytes(CFG_HEX));
    assert_eq!(r.peer.addresses, vec![CFG_ADDR.to_string()]);
    assert_eq!(r.public_key_hex, CFG_HEX);
    assert_eq!(r.address, CFG_ADDR);
}

#[test]
fn missing_public_key_keeps_configured_peer() {
    let r = resolve_base_node(Ok(None), present(ABC_ADDR), configured());
    assert_eq!(r.status, OverrideStatus::NotConfigured);
    assert_eq!(r.peer.public_key, bytes(CFG_HEX));
    assert_eq!(r.public_key_hex, CFG_HEX);
    assert_eq!(r.address, CFG_ADDR);
}

#[test]
fn nothing_stored_keeps_configured_peer() {
    let r = resolve_base_node(Ok(None), Ok(None), configured());
    assert_eq!(r.status, OverrideStatus::NotConfigured);
    assert_eq!(r.public_key_hex, CFG_HEX);
}

#[test]
fn store_error_on_public_key_keeps_configured_peer() {
    let r = resolve_base_node(failed(), present(ABC_ADDR), configured());
    assert_eq!(r.status, OverrideStatus::StoreUnreadable);
    assert_eq!(r.peer.public_key, bytes(CFG_HEX));
    assert_eq!(r.address, CFG_ADDR);
}

#[test]
fn store_error_on_address_keeps_configured_peer() {
    let r = resolve_base_node(present(ABC_HEX), failed(), configured());
    assert_eq!(r.status, OverrideStatus::StoreUnreadable);
    assert_eq!(r.peer.public_key, bytes(CFG_HEX));
    assert_eq!(r.public_key_hex, CFG_HEX);
}

#[test]
fn malformed_hex_keeps_configured_peer() {
    let r = resolve_base_node(present("not hex at all"), present(ABC_ADDR), configured());
    assert_eq!(r.status, OverrideStatus::Invalid);
    assert_eq!(r.peer.public_key, bytes(CFG_HEX));
    assert_eq!(r.peer.addresses, vec![CFG_ADDR.to_string()]);
}

#[test]
fn hex_of_wrong_length_keeps_configured_peer() {
    let r = resolve_base_node(present("abcd"), present(ABC_ADDR), configured());
    assert_eq!(r.status, OverrideStatus::Invalid);
    assert_eq!(r.public_key_hex, CFG_HEX);
}

#[test]
fn malformed_address_keeps_configured_peer() {
    let r = resolve_base_node(present(ABC_HEX), present("ip4/9.9.9.9"), configured());
    assert_eq!(r.status, OverrideStatus::Invalid);
    assert_eq!(r.peer.public_key, bytes(CFG_HEX));
    assert_eq!(r.address, CFG_ADDR);
}

#[test]
fn upper_case_key_is_shown_in_lower_case() {
    let r = resolve_base_node(present(&ABC_HEX.to_uppercase()), present(ABC_ADDR), configured());
    assert_eq!(r.status, OverrideStatus::Used);
    assert_eq!(r.peer.public_key, bytes(ABC_HEX));
    assert_eq!(r.public_key_hex, ABC_HEX);
}

#[test]
fn peer_without_address_shows_empty_text() {
    let peer = BaseNodePeer { public_key: bytes(CFG_HEX), addresses: vec![] };
    let r = resolve_base_node(Ok(None), Ok(None), peer);
    assert_eq!(r.address, "");
    assert_eq!(r.public_key_hex, CFG_HEX);
}

#[test]
fn display_pair_encodes_key_bytes() {
    let peer = BaseNodePeer { public_key: vec![0u8; 32], addresses: vec![ABC_ADDR.to_string()] };
    let (key, address) = display_pair(&peer);
    assert_eq!(key, "0".repeat(64));
    assert_eq!(address, ABC_ADDR);
    let peer = BaseNodePeer { public_key: vec![0xab; 32], addresses: vec![] };
    assert_eq!(display_pair(&peer).0, "ab".repeat(32));
}

#[test]
fn address_is_shown_in_canonical_form() {
    let r = resolve_base_node(present(ABC_HEX), present("/ip6/0:0:0:0:0:0:0:1/tcp/18141"), configured());
    assert_eq!(r.status, OverrideStatus::Used);
    assert_eq!(r.address, "/ip6/::1/tcp/18141");
    assert_eq!(r.peer.addresses, vec!["/ip6/::1/tcp/18141".to_string()]);
}
