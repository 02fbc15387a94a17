use tari_crypto::ristretto::RistrettoPublicKey;
use tari_crypto::tari_utilities::hex::Hex;
use tari_crypto::tari_utilities::ByteArray;
use vstd::prelude::*;

verus! {

/// Store key under which an operator-chosen base node public key is kept, as hex.
pub const CUSTOM_BASE_NODE_PUBLIC_KEY_KEY: &'static str = "console_wallet_custom_base_node_public_key";

/// Store key under which an operator-chosen base node address is kept, as text.
pub const CUSTOM_BASE_NODE_ADDRESS_KEY: &'static str = "console_wallet_custom_base_node_address";

/// Longest byte string that the hex encoder accepts.
pub const MAX_HEX_BYTES: usize = 262144;

/// The bytes of the compressed public key that `s` encodes in hex, if it
/// encodes a valid one.
pub uninterp spec fn public_key_from_hex(s: Seq<char>) -> Option<Seq<u8>>;

/// The canonical text of the network address that `s` spells, if `s` parses
/// as one.
pub uninterp spec fn address_from_text(s: Seq<char>) -> Option<Seq<char>>;

/// Lower-case hex digit of a value below sixteen.
pub open spec fn hex_digit(v: int) -> char {
    seq!['0', '1', '2', '3', '4', '5', '6', '7', '8', '9', 'a', 'b', 'c', 'd', 'e', 'f'][v]
}

/// Lower-case hex text of a byte string: two digits per byte, high nibble first.
pub open spec fn hex_of(b: Seq<u8>) -> Seq<char>
    decreases b.len(),
{
    if b.len() == 0 {
        Seq::empty()
    } else {
        hex_of(b.drop_last()) + seq![hex_digit(b.last() as int / 16), hex_digit(b.last() as int % 16)]
    }
}

/// Why a persisted value could not be read from the wallet store.
pub struct StoreError {
    pub message: String,
}

/// What became of the persisted base node override.
#[derive(PartialEq, Eq, Structural, Clone, Copy, Debug)]
pub enum OverrideStatus {
    /// Both values were present and valid; the override was used.
    Used,
    /// At least one of the two values was never stored.
    NotConfigured,
    /// The store failed to read at least one of the two values.
    StoreUnreadable,
    /// Both values were present but at least one of them did not parse.
    Invalid,
}

/// A base node peer: its compressed public key and its network addresses,
/// each in canonical text form.
pub struct BaseNodePeer {
    pub public_key: Vec<u8>,
    pub addresses: Vec<String>,
}

/// Mathematical view of a [`BaseNodePeer`].
pub struct PeerView {
    pub public_key: Seq<u8>,
    pub addresses: Seq<Seq<char>>,
}

impl BaseNodePeer {
    pub open spec fn view(&self) -> PeerView {
        PeerView {
            public_key: self.public_key@,
            addresses: self.addresses@.map_values(|a: String| a@),
        }
    }

    /// The public key is a compressed curve point.
    pub open spec fn wf(&self) -> bool {
        self.public_key@.len() == 32
    }
}

/// The peer chosen at start-up, how it was chosen, and the text that the
/// network view shows for it.
pub struct ResolvedBaseNode {
    pub peer: BaseNodePeer,
    pub status: OverrideStatus,
    pub public_key_hex: String,
    pub address: String,
}

/// A read from the store as plain values: `Err(())` for a storage error.
pub open spec fn read_view(r: Result<Option<String>, StoreError>) -> Result<Option<Seq<char>>, ()> {
    match r {
        Ok(Some(s)) => Ok(Some(s@)),
        Ok(None) => Ok(None),
        Err(_) => Err(()),
    }
}

/// What the two reads of the override decide.
pub open spec fn status_of(
    pk: Result<Option<Seq<char>>, ()>,
    addr: Result<Option<Seq<char>>, ()>,
) -> OverrideStatus {
    match (pk, addr) {
        (Err(_), _) => OverrideStatus::StoreUnreadable,
        (_, Err(_)) => OverrideStatus::StoreUnreadable,
        (Ok(Some(p)), Ok(Some(a))) => if public_key_from_hex(p) is Some && address_from_text(a) is Some {
            OverrideStatus::Used
        } else {
            OverrideStatus::Invalid
        },
        _ => OverrideStatus::NotConfigured,
    }
}

/// The peer that a valid override describes: its key, and its one address.
pub open spec fn override_peer(pk: Seq<char>, addr: Seq<char>) -> PeerView {
    PeerView {
        public_key: public_key_from_hex(pk)->Some_0,
        addresses: seq![address_from_text(addr)->Some_0],
    }
}

/// The peer that resolution selects: the override where it is usable, else
/// the configured peer unchanged.
pub open spec fn resolved_peer(
    pk: Result<Option<Seq<char>>, ()>,
    addr: Result<Option<Seq<char>>, ()>,
    configured: PeerView,
) -> PeerView {
    if status_of(pk, addr) == OverrideStatus::Used {
        override_peer(pk->Ok_0->Some_0, addr->Ok_0->Some_0)
    } else {
        configured
    }
}

/// The first address of a peer, or empty text if it has none.
pub open spec fn first_address(p: PeerView) -> Seq<char> {
    if p.addresses.len() > 0 {
        p.addresses[0]
    } else {
        Seq::empty()
    }
}

/// The pair that the network view is seeded with: key as hex, first address.
pub open spec fn display_of(p: PeerView) -> (Seq<char>, Seq<char>) {
    (hex_of(p.public_key), first_address(p))
}

/// A stored override whose key and address both parse is used: the session
/// gets a peer with that key and that one address, and the network view shows
/// the key in hex and the address in canonical text. Where both were stored
/// in canonical form, the view shows exactly the stored text.
pub proof fn lemma_valid_override_is_used(pk: Seq<char>, addr: Seq<char>, configured: PeerView)
    requires
        public_key_from_hex(pk) is Some,
        address_from_text(addr) is Some,
    ensures
        status_of(Ok(Some(pk)), Ok(Some(addr))) == OverrideStatus::Used,
        resolved_peer(Ok(Some(pk)), Ok(Some(addr)), configured) == override_peer(pk, addr),
        display_of(resolved_peer(Ok(Some(pk)), Ok(Some(addr)), configured)) == (
            hex_of(public_key_from_hex(pk)->Some_0),
            address_from_text(addr)->Some_0,
        ),
        hex_of(public_key_from_hex(pk)->Some_0) == pk && address_from_text(addr) == Some(addr)
            ==> display_of(resolved_peer(Ok(Some(pk)), Ok(Some(addr)), configured)) == (pk, addr),
{
}

/// Where either read finds no stored value, the configured peer is used
/// unchanged, and so is what the network view shows.
pub proof fn lemma_missing_override_keeps_configured(
    pk: Result<Option<Seq<char>>, ()>,
    addr: Result<Option<Seq<char>>, ()>,
    configured: PeerView,
)
    requires
        pk == Ok::<Option<Seq<char>>, ()>(None) || addr == Ok::<Option<Seq<char>>, ()>(None),
    ensures
        status_of(pk, addr) != OverrideStatus::Used,
        resolved_peer(pk, addr, configured) == configured,
        display_of(resolved_peer(pk, addr, configured)) == display_of(configured),
{
}

/// Where either read fails in the store, the configured peer is used and the
/// outcome is told apart as a storage failure.
pub proof fn lemma_unreadable_override_keeps_configured(
    pk: Result<Option<Seq<char>>, ()>,
    addr: Result<Option<Seq<char>>, ()>,
    configured: PeerView,
)
    requires
        pk is Err || addr is Err,
    ensures
        status_of(pk, addr) == OverrideStatus::StoreUnreadable,
        resolved_peer(pk, addr, configured) == configured,
{
}

/// Where both values are stored but the key is not a valid hex public key or
/// the address does not parse, the configured peer is used: an override is
/// never applied in part.
pub proof fn lemma_invalid_override_keeps_configured(pk: Seq<char>, addr: Seq<char>, configured: PeerView)
    requires
        public_key_from_hex(pk) is None || address_from_text(addr) is None,
    ensures
        status_of(Ok(Some(pk)), Ok(Some(addr))) == OverrideStatus::Invalid,
        resolved_peer(Ok(Some(pk)), Ok(Some(addr)), configured) == configured,
{
}

/// Relies on tari_crypto's `RistrettoPublicKey::from_hex` and `as_bytes`: the
/// result depends on the text alone, and a key it accepts is 32 bytes long.
#[verifier::external_body]
fn parse_public_key(s: &str) -> (r: Option<Vec<u8>>)
    ensures
        r is Some == public_key_from_hex(s@) is Some,
        r matches Some(b) ==> b@ == public_key_from_hex(s@)->Some_0,
        r matches Some(b) ==> b@.len() == 32,
{
    RistrettoPublicKey::from_hex(s).ok().map(|k| k.as_bytes().to_vec())
}

/// Relies on multiaddr's `FromStr` and `Display` for `Multiaddr`: whether the
/// text parses, and the canonical text of what it parses to, depend on the
/// text alone.
#[verifier::external_body]
fn parse_address(s: &str) -> (r: Option<String>)
    ensures
        r is Some == address_from_text(s@) is Some,
        r matches Some(a) ==> a@ == address_from_text(s@)->Some_0,
{
    s.parse::<multiaddr::Multiaddr>().ok().map(|a| a.to_string())
}

/// Relies on tari_utilities' `hex::to_hex`: each byte becomes two lower-case
/// hex digits (`{:02x}`), in order, for inputs up to its size limit.
#[verifier::external_body]
fn encode_hex(b: &[u8]) -> (r: String)
    requires
        b@.len() <= MAX_HEX_BYTES,
    ensures
        r@ == hex_of(b@),
{
    tari_crypto::tari_utilities::hex::to_hex(b)
}

/// Builds the override peer from the two stored values, if both parse.
fn parse_override(pk: &String, addr: &String) -> (r: Option<BaseNodePeer>)
    ensures
        r is Some == (public_key_from_hex(pk@) is Some && address_from_text(addr@) is Some),
        r matches Some(p) ==> p@ == override_peer(pk@, addr@) && p.wf(),
{
    let key = parse_public_key(pk.as_str());
    let address = parse_address(addr.as_str());
    match (key, address) {
        (Some(k), Some(a)) => {
            let addresses = vec![a];
            let p = BaseNodePeer { public_key: k, addresses };
            assert(p@.addresses =~= seq![address_from_text(addr@)->Some_0]);
            Some(p)
        },
        _ => None,
    }
}

/// The text that the network view shows for `peer`: its key in hex and its
/// first address, or empty text where it has none.
pub fn display_pair(peer: &BaseNodePeer) -> (r: (String, String))
    requires
        peer.wf(),
    ensures
        (r.0@, r.1@) == display_of(peer@),
{
    let key = encode_hex(peer.public_key.as_slice());
    let address = if peer.addresses.len() > 0 {
        peer.addresses[0].clone()
    } else {
        String::new()
    };
    (key, address)
}

/// Chooses the base node peer for the session from the two reads of the
/// persisted override and the configured peer.
///
/// The override is used only where both reads succeeded with a value and
/// both values parse; otherwise the configured peer is used unchanged. This
/// never fails: every problem with the override falls back to the
/// configuration, and `status` tells which problem it was.
pub fn resolve_base_node(
    pk_read: Result<Option<String>, StoreError>,
    addr_read: Result<Option<String>, StoreError>,
    configured: BaseNodePeer,
) -> (r: ResolvedBaseNode)
    requires
        configured.wf(),
    ensures
        r.status == status_of(read_view(pk_read), read_view(addr_read)),
        r.peer@ == resolved_peer(read_view(pk_read), read_view(addr_read), configured@),
        r.peer.wf(),
        (r.public_key_hex@, r.address@) == display_of(r.peer@),
{
    let (peer, status) = match (&pk_read, &addr_read) {
        (Err(_), _) => (configured, OverrideStatus::StoreUnreadable),
        (_, Err(_)) => (configured, OverrideStatus::StoreUnreadable),
        (Ok(Some(pk)), Ok(Some(addr))) => match parse_override(pk, addr) {
            Some(p) => (p, OverrideStatus::Used),
            None => (configured, OverrideStatus::Invalid),
        },
        _ => (configured, OverrideStatus::NotConfigured),
    };
    let (public_key_hex, address) = display_pair(&peer);
    ResolvedBaseNode { peer, status, public_key_hex, address }
}

} // verus!
