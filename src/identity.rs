//! Node identity: ed25519 keys, domain-separated signing, hex forms of
//! keys, and the addresses and display names derived from an identity.

use vstd::prelude::*;
use vstd::string::*;
use commonware_codec::{DecodeExt, Encode};
use commonware_cryptography::{ed25519, Signer, Verifier};
use rand::RngCore;
use crate::error::CommonwareNetworkError;
use crate::netutil::{NetworkUtils, is_socket_host, socket_host};
use crate::text::{decimal, decimal_string};
use crate::types::{NodeType, node_type_name};

verus! {

#[verifier::external_type_specification]
#[verifier::external_body]
pub struct ExPrivateKey(ed25519::PrivateKey);

#[verifier::external_type_specification]
#[verifier::external_body]
pub struct ExPublicKey(ed25519::PublicKey);

#[verifier::external_type_specification]
#[verifier::external_body]
pub struct ExSignature(ed25519::Signature);

/// The 32 bytes a private key is stored as (its seed).
pub uninterp spec fn ed25519_private_bytes(k: ed25519::PrivateKey) -> Seq<u8>;

/// The 32-byte encoding of a public key.
pub uninterp spec fn ed25519_public_bytes(k: ed25519::PublicKey) -> Seq<u8>;

/// The public key of the private key stored as `seed`.
pub uninterp spec fn ed25519_public_of(seed: Seq<u8>) -> ed25519::PublicKey;

/// The private key drawn from the generator seeded with `seed`, as its 32
/// stored bytes.
pub uninterp spec fn ed25519_seed_key(seed: u64) -> Seq<u8>;

/// The signature the private key stored as `key` makes of `msg` under the
/// signing domain `domain`.
pub uninterp spec fn ed25519_signature(key: Seq<u8>, domain: Seq<u8>, msg: Seq<u8>) -> ed25519::Signature;

/// Whether `sig` is a valid signature by `pk` of `msg` under the signing
/// domain `domain`.
pub uninterp spec fn ed25519_verifies(pk: ed25519::PublicKey, domain: Seq<u8>, msg: Seq<u8>, sig: ed25519::Signature) -> bool;

/// Length of an encoded private key.
pub const PRIVATE_KEY_LEN: usize = 32;
/// Length of an encoded public key.
pub const PUBLIC_KEY_LEN: usize = 32;

/// The lowercase hex digit of `d`.
pub open spec fn hex_digit(d: nat) -> char {
    "0123456789abcdef"@[d as int]
}

/// Lowercase hex of `b`: two digits per byte, high nibble first.
pub open spec fn hex_of(b: Seq<u8>) -> Seq<char>
    decreases b.len(),
{
    if b.len() == 0 {
        Seq::empty()
    } else {
        hex_of(b.drop_last()).push(hex_digit((b.last() / 16) as nat)).push(hex_digit((b.last() % 16) as nat))
    }
}

/// The signing domain handed to the signature scheme: a tag byte that
/// tells "no namespace" from "a namespace", then the namespace itself.
pub open spec fn framed_namespace(ns: Option<Seq<u8>>) -> Seq<u8> {
    match ns {
        None => seq![0u8],
        Some(b) => seq![1u8] + b,
    }
}

/// The view of an optional byte slice.
pub open spec fn opt_bytes(ns: Option<&[u8]>) -> Option<Seq<u8>> {
    match ns {
        None => None,
        Some(b) => Some(b@),
    }
}

/// Different namespaces, including no namespace and the empty one, give
/// different signing domains.
pub proof fn lemma_framed_namespace_injective(a: Option<Seq<u8>>, b: Option<Seq<u8>>)
    ensures
        framed_namespace(a) == framed_namespace(b) ==> a == b,
        framed_namespace(None) != framed_namespace(Some(Seq::<u8>::empty())),
{
    if framed_namespace(a) == framed_namespace(b) {
        assert(framed_namespace(a)[0] == framed_namespace(b)[0]);
        match (a, b) {
            (Some(x), Some(y)) => {
                assert(x =~= framed_namespace(a).subrange(1, framed_namespace(a).len() as int));
                assert(y =~= framed_namespace(b).subrange(1, framed_namespace(b).len() as int));
            },
            _ => {},
        }
    }
    assert(framed_namespace(None)[0] != framed_namespace(Some(Seq::<u8>::empty()))[0]);
}

/// Build the signing domain for `ns`.
pub fn frame_namespace(ns: Option<&[u8]>) -> (r: Vec<u8>)
    ensures
        r@ == framed_namespace(opt_bytes(ns)),
{
    match ns {
        None => vec![0u8],
        Some(b) => {
            let mut out: Vec<u8> = vec![1u8];
            let mut i: usize = 0;
            while i < b.len()
                invariant
                    i <= b@.len(),
                    out@ == seq![1u8] + b@.subrange(0, i as int),
                decreases b@.len() - i,
            {
                out.push(b[i]);
                assert(b@.subrange(0, i + 1) =~= b@.subrange(0, i as int).push(b@[i as int]));
                assert(out@ =~= seq![1u8] + b@.subrange(0, i + 1));
                i = i + 1;
            }
            assert(b@.subrange(0, b@.len() as int) =~= b@);
            out
        },
    }
}

/// Relies on `rand::rngs::OsRng::fill_bytes`: 32 bytes from the operating
/// system's secure source.
#[verifier::external_body]
fn os_random_secret() -> (r: Vec<u8>)
    ensures
        r@.len() == PRIVATE_KEY_LEN,
{
    let mut buf = [0u8; 32];
    rand::rngs::OsRng.fill_bytes(&mut buf);
    buf.to_vec()
}

/// Relies on `DecodeExt::decode` for `ed25519::PrivateKey`: it reads exactly
/// 32 bytes and accepts any 32 bytes as a key seed, so it cannot fail here;
/// the key keeps that seed, which its encoding gives back.
#[verifier::external_body]
fn decode_private_key(bytes: &[u8]) -> (r: ed25519::PrivateKey)
    requires
        bytes@.len() == PRIVATE_KEY_LEN,
    ensures
        ed25519_private_bytes(r) == bytes@,
{
    ed25519::PrivateKey::decode(bytes).expect("any 32 bytes form a key")
}

/// Relies on the derived `Clone` for `ed25519::PrivateKey`: a copy.
pub assume_specification[ <ed25519::PrivateKey as Clone>::clone ](k: &ed25519::PrivateKey) -> (r: ed25519::PrivateKey)
    ensures
        r == *k,
;

/// Relies on the derived `Clone` for `ed25519::PublicKey`: a copy.
pub assume_specification[ <ed25519::PublicKey as Clone>::clone ](k: &ed25519::PublicKey) -> (r: ed25519::PublicKey)
    ensures
        r == *k,
;

/// Relies on `DecodeExt::decode` for `ed25519::PublicKey`: it reads exactly
/// 32 bytes, rejects those that are no curve point, and keeps the bytes as
/// the key's encoding; the encoding of a key is a curve point, so it is
/// accepted.
#[verifier::external_body]
fn decode_public_key(bytes: &[u8]) -> (r: Option<ed25519::PublicKey>)
    ensures
        (exists|k: ed25519::PublicKey| ed25519_public_bytes(k) == bytes@) ==> r is Some,
        r is Some ==> bytes@.len() == PUBLIC_KEY_LEN,
        r matches Some(k) ==> ed25519_public_bytes(k) == bytes@,
{
    ed25519::PublicKey::decode(bytes).ok()
}

/// Relies on `Signer::from_seed`: a key drawn from a generator seeded with
/// `seed`, a function of the seed; for tests only.
#[verifier::external_body]
fn private_key_from_seed(seed: u64) -> (r: ed25519::PrivateKey)
    ensures
        ed25519_private_bytes(r) == ed25519_seed_key(seed),
{
    ed25519::PrivateKey::from_seed(seed)
}

/// Relies on `Signer::public_key`: a function of the key's seed alone.
#[verifier::external_body]
fn public_key_of(k: &ed25519::PrivateKey) -> (r: ed25519::PublicKey)
    ensures
        r == ed25519_public_of(ed25519_private_bytes(*k)),
{
    k.public_key()
}

/// Relies on `Encode::encode` for `ed25519::PrivateKey`: the 32 key bytes.
#[verifier::external_body]
fn encode_private_key(k: &ed25519::PrivateKey) -> (r: Vec<u8>)
    ensures
        r@.len() == PRIVATE_KEY_LEN,
        r@ == ed25519_private_bytes(*k),
{
    k.encode().to_vec()
}

/// Relies on `Encode::encode` for `ed25519::PublicKey`: the 32 key bytes.
#[verifier::external_body]
fn encode_public_key(k: &ed25519::PublicKey) -> (r: Vec<u8>)
    ensures
        r@.len() == PUBLIC_KEY_LEN,
        r@ == ed25519_public_bytes(*k),
{
    k.encode().to_vec()
}

/// Relies on `Signer::sign`, which binds `namespace` into the signed payload:
/// ed25519 signing is deterministic in the key's seed, the namespace and the
/// message, and the signature verifies under the key's public key and the
/// same namespace.
#[verifier::external_body]
fn scheme_sign(k: &ed25519::PrivateKey, namespace: &[u8], msg: &[u8]) -> (r: ed25519::Signature)
    ensures
        r == ed25519_signature(ed25519_private_bytes(*k), namespace@, msg@),
        ed25519_verifies(ed25519_public_of(ed25519_private_bytes(*k)), namespace@, msg@, r),
{
    k.sign(namespace, msg)
}

/// Relies on `Verifier::verify` under `namespace`: a function of its
/// arguments alone.
#[verifier::external_body]
fn scheme_verify(k: &ed25519::PublicKey, namespace: &[u8], msg: &[u8], sig: &ed25519::Signature) -> (r: bool)
    ensures
        r == ed25519_verifies(*k, namespace@, msg@, *sig),
{
    k.verify(namespace, msg, sig)
}

/// Relies on `hex::encode`: two lowercase digits per byte.
#[verifier::external_body]
fn to_hex(b: &[u8]) -> (r: String)
    ensures
        r@ == hex_of(b@),
{
    hex::encode(b)
}

/// Relies on `hex::decode`: an odd length is refused, and the hex of some
/// bytes decodes to those bytes.
#[verifier::external_body]
fn from_hex_str(s: &str) -> (r: Option<Vec<u8>>)
    ensures
        r.is_some() ==> 2 * r.unwrap()@.len() == s@.len(),
        s@.len() % 2 == 1 ==> r.is_none(),
        forall|b: Seq<u8>| s@ == #[trigger] hex_of(b) ==> r.is_some() && r.unwrap()@ == b,
{
    hex::decode(s).ok()
}

/// The public part of a node's identity.
#[derive(Debug, PartialEq, Eq, Hash)]
pub struct NodePubkey(pub ed25519::PublicKey);

impl Clone for NodePubkey {
    fn clone(&self) -> (r: NodePubkey)
        ensures
            r.0 == self.0,
    {
        NodePubkey(self.0.clone())
    }
}

impl NodePubkey {
    /// Verify `sig` on `msg` under the optional `namespace`; no namespace and
    /// the empty namespace are different domains.
    pub fn verify(&self, namespace: Option<&[u8]>, msg: &[u8], sig: &ed25519::Signature) -> (r: bool)
        ensures
            r == ed25519_verifies(self.0, framed_namespace(opt_bytes(namespace)), msg@, *sig),
    {
        let domain = frame_namespace(namespace);
        scheme_verify(&self.0, domain.as_slice(), msg, sig)
    }

    /// The key from its 32 encoded bytes; `None` for another length or for
    /// bytes that are no valid key.
    pub fn from_bytes(bytes: &[u8]) -> (r: Option<NodePubkey>)
        ensures
            bytes@.len() != PUBLIC_KEY_LEN ==> r is None,
            r matches Some(k) ==> ed25519_public_bytes(k.0) == bytes@,
            (exists|k: ed25519::PublicKey| ed25519_public_bytes(k) == bytes@) ==> r is Some,
    {
        match decode_public_key(bytes) {
            Some(k) => Some(NodePubkey(k)),
            None => None,
        }
    }

    /// The key from its hex form; `None` where the hex or the key is invalid.
    pub fn from_hex(hex_str: &str) -> (r: Option<NodePubkey>)
        ensures
            hex_str@.len() != 2 * PUBLIC_KEY_LEN ==> r is None,
    {
        match from_hex_str(hex_str) {
            Some(bytes) => NodePubkey::from_bytes(bytes.as_slice()),
            None => None,
        }
    }

    /// The 32 encoded key bytes.
    pub fn to_bytes(&self) -> (r: Vec<u8>)
        ensures
            r@.len() == PUBLIC_KEY_LEN,
            r@ == ed25519_public_bytes(self.0),
    {
        encode_public_key(&self.0)
    }

    /// The key as lowercase hex.
    pub fn to_hex(&self) -> (r: String)
        ensures
            r@.len() == 2 * PUBLIC_KEY_LEN,
            r@ == hex_of(ed25519_public_bytes(self.0)),
    {
        let b = self.to_bytes();
        let s = to_hex(b.as_slice());
        proof { lemma_hex_len(b@); }
        s
    }
}

/// Hex has two digits per byte.
pub proof fn lemma_hex_len(b: Seq<u8>)
    ensures
        hex_of(b).len() == 2 * b.len(),
    decreases b.len(),
{
    if b.len() > 0 {
        lemma_hex_len(b.drop_last());
    }
}

/// A private key; the only type that signs. Its bytes leave only through
/// `into_bytes`.
#[derive(Debug)]
pub struct NodePrivKey {
    private: ed25519::PrivateKey,
}

impl Clone for NodePrivKey {
    fn clone(&self) -> (r: NodePrivKey)
        ensures
            r.key_of() == self.key_of(),
    {
        NodePrivKey { private: self.private.clone() }
    }
}

impl NodePrivKey {
    /// The scheme key held.
    pub closed spec fn key_of(&self) -> ed25519::PrivateKey {
        self.private
    }

    /// A fresh key from the operating system's secure random source.
    pub fn new() -> (r: NodePrivKey)
        ensures
            ed25519_private_bytes(r.key_of()).len() == PRIVATE_KEY_LEN,
    {
        let secret = os_random_secret();
        NodePrivKey { private: decode_private_key(secret.as_slice()) }
    }

    /// A key derived from `seed`: deterministic and insecure, for tests.
    pub fn from_seed(seed: u64) -> (r: NodePrivKey)
        ensures
            ed25519_private_bytes(r.key_of()) == ed25519_seed_key(seed),
    {
        NodePrivKey { private: private_key_from_seed(seed) }
    }

    /// The public key of this key.
    pub fn id(&self) -> (r: NodePubkey)
        ensures
            r.0 == ed25519_public_of(ed25519_private_bytes(self.key_of())),
    {
        NodePubkey(public_key_of(&self.private))
    }

    /// Sign `msg` under the optional `namespace`; no namespace and the empty
    /// namespace are different domains. The namespace is framed with a tag
    /// byte before it reaches the scheme (see `framed_namespace`), so these
    /// signatures differ from ones made under the bare namespace.
    pub fn sign(&self, namespace: Option<&[u8]>, msg: &[u8]) -> (r: ed25519::Signature)
        ensures
            r == ed25519_signature(ed25519_private_bytes(self.key_of()), framed_namespace(opt_bytes(namespace)), msg@),
            ed25519_verifies(ed25519_public_of(ed25519_private_bytes(self.key_of())), framed_namespace(opt_bytes(namespace)), msg@, r),
    {
        let domain = frame_namespace(namespace);
        scheme_sign(&self.private, domain.as_slice(), msg)
    }

    /// The 32 key bytes, for secure storage.
    pub fn into_bytes(self) -> (r: Vec<u8>)
        ensures
            r@.len() == PRIVATE_KEY_LEN,
            r@ == ed25519_private_bytes(self.key_of()),
    {
        encode_private_key(&self.private)
    }

    /// The key from its 32 bytes; `None` exactly for another length.
    pub fn from_bytes(bytes: &[u8]) -> (r: Option<NodePrivKey>)
        ensures
            r is Some <==> bytes@.len() == PRIVATE_KEY_LEN,
            r matches Some(k) ==> ed25519_private_bytes(k.key_of()) == bytes@,
    {
        if bytes.len() != PRIVATE_KEY_LEN {
            return None;
        }
        Some(NodePrivKey { private: decode_private_key(bytes) })
    }

    /// The key from its hex form; `None` where the hex is invalid or does
    /// not give 32 bytes.
    pub fn from_hex(hex_str: &str) -> (r: Option<NodePrivKey>)
        ensures
            hex_str@.len() != 2 * PRIVATE_KEY_LEN ==> r is None,
            (exists|b: Seq<u8>| b.len() == PRIVATE_KEY_LEN && hex_str@ == #[trigger] hex_of(b)) ==> r is Some,
    {
        match from_hex_str(hex_str) {
            Some(bytes) => NodePrivKey::from_bytes(bytes.as_slice()),
            None => None,
        }
    }

    /// The underlying scheme key.
    pub fn private_key(&self) -> (r: ed25519::PrivateKey) {
        self.private.clone()
    }
}

/// A node's identity: where it listens, who runs it, its role, and its keys.
#[derive(Clone, Debug, PartialEq, Eq, Default)]
pub struct NodeIdentity {
    pub host: String,
    pub p2p_port: u32,
    pub api_port: u32,
    pub user: String,
    pub os: i32,
    pub ssh_port: u32,
    pub node_type: String,
    pub public_key: Option<Vec<u8>>,
    /// Only included when needed; handle with care.
    pub private_key: Option<Vec<u8>>,
}

/// The text that stands for a missing public key.
pub open spec fn no_pubkey() -> Seq<char> {
    "no_pubkey"@
}

/// The hex of an optional key, or the missing-key text.
pub open spec fn key_text(k: Option<Vec<u8>>) -> Seq<char> {
    match k {
        Some(b) => hex_of(b@),
        None => no_pubkey(),
    }
}

/// At most the first eight bytes of `b`.
pub open spec fn short_prefix(b: Seq<u8>) -> Seq<u8> {
    if b.len() <= 8 {
        b
    } else {
        b.subrange(0, 8)
    }
}

/// The stored key bytes are the private key `k` and its public key.
pub open spec fn stores_keypair(public_key: Option<Vec<u8>>, private_key: Option<Vec<u8>>, k: Seq<u8>) -> bool {
    &&& private_key matches Some(b) && b@ == k
    &&& public_key matches Some(p) && p@ == ed25519_public_bytes(ed25519_public_of(k))
}

/// The stored public key is the one of the stored private key.
pub open spec fn keypair_consistent(public_key: Option<Vec<u8>>, private_key: Option<Vec<u8>>) -> bool {
    private_key is Some && stores_keypair(public_key, private_key, private_key.unwrap()@)
}

impl NodeIdentity {
    /// A fresh identity on the local host with a new random keypair and
    /// the default ports.
    pub fn new() -> (r: NodeIdentity)
        ensures
            r.user@ == "ergors"@,
            r.api_port == 8080,
            r.p2p_port == 26969,
            r.ssh_port == 22,
            r.node_type@ == node_type_name(NodeType::Unspecified),
            r.os == 0,
            r.host@ == "127.0.0.1"@,
            r.public_key matches Some(k) && k@.len() == PUBLIC_KEY_LEN,
            r.private_key matches Some(k) && k@.len() == PRIVATE_KEY_LEN,
            keypair_consistent(r.public_key, r.private_key),
    {
        let mut ego = NodeIdentity {
            host: String::from_str("127.0.0.1"),
            p2p_port: 26969,
            api_port: 8080,
            user: String::from_str("ergors"),
            os: 0,
            ssh_port: 22,
            node_type: String::from_str(NodeType::Unspecified.as_str_name()),
            public_key: None,
            private_key: None,
        };
        ego.generate_keypair();
        ego
    }

    /// Replace the keypair with a fresh random one.
    pub fn generate_keypair(&mut self)
        ensures
            final(self).public_key matches Some(k) && k@.len() == PUBLIC_KEY_LEN,
            final(self).private_key matches Some(k) && k@.len() == PRIVATE_KEY_LEN,
            keypair_consistent(final(self).public_key, final(self).private_key),
            final(self).host == old(self).host,
            final(self).p2p_port == old(self).p2p_port,
            final(self).api_port == old(self).api_port,
            final(self).user == old(self).user,
            final(self).os == old(self).os,
            final(self).ssh_port == old(self).ssh_port,
            final(self).node_type == old(self).node_type,
    {
        let key = NodePrivKey::new();
        self.set_keypair(key);
    }

    /// Store `private_key` and its public key.
    pub fn set_keypair(&mut self, private_key: NodePrivKey)
        ensures
            final(self).public_key matches Some(k) && k@.len() == PUBLIC_KEY_LEN,
            final(self).private_key matches Some(k) && k@.len() == PRIVATE_KEY_LEN,
            stores_keypair(final(self).public_key, final(self).private_key, ed25519_private_bytes(private_key.key_of())),
            keypair_consistent(final(self).public_key, final(self).private_key),
            final(self).host == old(self).host,
            final(self).p2p_port == old(self).p2p_port,
            final(self).api_port == old(self).api_port,
            final(self).user == old(self).user,
            final(self).os == old(self).os,
            final(self).ssh_port == old(self).ssh_port,
            final(self).node_type == old(self).node_type,
    {
        let public = private_key.id().to_bytes();
        self.public_key = Some(public);
        self.private_key = Some(private_key.into_bytes());
    }

    /// The signing key held by this identity.
    pub fn signing_key(&self) -> (r: Result<NodePrivKey, CommonwareNetworkError>)
        ensures
            r is Err <==> !(self.private_key matches Some(k) && k@.len() == PRIVATE_KEY_LEN),
            r is Err ==> r == Err::<NodePrivKey, CommonwareNetworkError>(CommonwareNetworkError::NodePrivKeyNotFound),
            r matches Ok(k) ==> ed25519_private_bytes(k.key_of()) == self.private_key.unwrap()@,
    {
        match &self.private_key {
            Some(bytes) => match NodePrivKey::from_bytes(bytes.as_slice()) {
                Some(k) => Ok(k),
                None => Err(CommonwareNetworkError::NodePrivKeyNotFound),
            },
            None => Err(CommonwareNetworkError::NodePrivKeyNotFound),
        }
    }

    /// `pubkey@host:port`, with the missing-key text where no public key is set.
    pub fn p2p_identity(&self) -> (r: String)
        ensures
            r@ == key_text(self.public_key) + "@"@ + self.host@ + ":"@ + decimal(self.p2p_port as nat),
    {
        let mut s = match &self.public_key {
            Some(pk) => to_hex(pk.as_slice()),
            None => String::from_str("no_pubkey"),
        };
        s.append("@");
        s.append(self.host.as_str());
        s.append(":");
        let port = decimal_string(self.p2p_port as u64);
        s.append(port.as_str());
        s
    }

    /// The peer-to-peer listen address `host:port`, where it reads as a
    /// socket address: the host an IPv4 literal or a bracketed IPv6 address
    /// (with an optional zone index), and the port at most 65535. A
    /// configuration error otherwise; never a panic.
    pub fn p2p_address(&self) -> (r: Result<String, CommonwareNetworkError>)
        ensures
            r is Ok <==> (is_socket_host(self.host@) && self.p2p_port <= 65535),
            r matches Ok(a) ==> a@ == self.host@ + ":"@ + decimal(self.p2p_port as nat),
            r matches Err(e) ==> e is ConfigError,
    {
        if !socket_host(self.host.as_str()) {
            return Err(CommonwareNetworkError::ConfigError(String::from_str("host is not an IP address")));
        }
        if self.p2p_port > 65535 {
            return Err(CommonwareNetworkError::ConfigError(String::from_str("invalid p2p port")));
        }
        Ok(NetworkUtils::format_address(self.host.as_str(), self.p2p_port as u16))
    }

    /// The API listen address `host:port`.
    pub fn api_address(&self) -> (r: String)
        ensures
            r@ == self.host@ + ":"@ + decimal(self.api_port as nat),
    {
        let mut s = String::from_str(self.host.as_str());
        s.append(":");
        let port = decimal_string(self.api_port as u64);
        s.append(port.as_str());
        s
    }

    /// `role-prefix`: the role name and the hex of the first eight bytes of
    /// the public key (all of it when shorter), or the missing-key text.
    pub fn display_id(&self) -> (r: String)
        ensures
            r@ == self.node_type@ + "-"@ + match self.public_key {
                Some(k) => hex_of(short_prefix(k@)),
                None => no_pubkey(),
            },
    {
        let mut s = String::from_str(self.node_type.as_str());
        s.append("-");
        let tail = match &self.public_key {
            Some(pk) => {
                let n: usize = if pk.len() <= 8 { pk.len() } else { 8 };
                let prefix = slice_prefix(pk, n);
                assert(prefix@ == short_prefix(pk@));
                to_hex(prefix.as_slice())
            },
            None => String::from_str("no_pubkey"),
        };
        s.append(tail.as_str());
        s
    }

    /// A private key from its hex form.
    pub fn private_key_from_hex(hex_string: &str) -> (r: Option<NodePrivKey>)
        ensures
            hex_string@.len() != 2 * PRIVATE_KEY_LEN ==> r is None,
            (exists|b: Seq<u8>| b.len() == PRIVATE_KEY_LEN && hex_string@ == #[trigger] hex_of(b)) ==> r is Some,
    {
        NodePrivKey::from_hex(hex_string)
    }
}

/// The first `n` bytes of `b`.
fn slice_prefix(b: &Vec<u8>, n: usize) -> (r: Vec<u8>)
    requires
        n <= b@.len(),
    ensures
        r@ == b@.subrange(0, n as int),
{
    let mut out: Vec<u8> = Vec::new();
    let mut i: usize = 0;
    while i < n
        invariant
            i <= n,
            n <= b@.len(),
            out@ == b@.subrange(0, i as int),
        decreases n - i,
    {
        out.push(b[i]);
        assert(b@.subrange(0, i + 1) =~= b@.subrange(0, i as int).push(b@[i as int]));
        i = i + 1;
    }
    out
}

} // verus!
