//! The primitive layer: hashing, elliptic-curve operations and address
//! decoding, performed by the `bitcoin` crate behind trusted wrappers.
//!
//! Results that no short formula can state — digests, the BIP341 tweak,
//! point validity — are given uninterpreted names; every contract elsewhere
//! in the crate speaks of those names, so nothing else is taken on trust.

use vstd::prelude::*;

use bitcoin::hashes::Hash as _;
use bitcoin::key::TapTweak as _;

use crate::types::AddressPayload;

verus! {

/// The HASH160 digest (SHA256 followed by RIPEMD160) of `data`.
pub uninterp spec fn hash160_of(data: Seq<u8>) -> Seq<u8>;

/// The SHA256 digest of `data`.
pub uninterp spec fn sha256_of(data: Seq<u8>) -> Seq<u8>;

/// Whether `data` is a valid encoding of a secp256k1 point: 33 bytes in
/// compressed or 65 bytes in uncompressed form, naming a point on the curve.
pub uninterp spec fn is_valid_pubkey(data: Seq<u8>) -> bool;

/// The BIP341 output key obtained by tweaking the x-only key `x_only` with
/// the optional script-tree merkle root `merkle_root`.
pub uninterp spec fn tweak_of(x_only: Seq<u8>, merkle_root: Option<Seq<u8>>) -> Seq<u8>;

/// The parity of the BIP341 output key for the same arguments: true when
/// the tweaked point's y coordinate is odd.
pub uninterp spec fn tweak_parity_of(x_only: Seq<u8>, merkle_root: Option<Seq<u8>>) -> bool;

/// The BIP341 tagged leaf hash of a script under the tapscript leaf version.
pub uninterp spec fn tapleaf_hash_of(script: Seq<u8>) -> Seq<u8>;

/// The x-only form of a validly encoded public key: its x coordinate,
/// which both the compressed and the uncompressed encodings carry in
/// bytes 1 through 32.
pub open spec fn x_only_part(pubkey: Seq<u8>) -> Seq<u8> {
    pubkey.subrange(1, 33)
}

/// The view of an optional borrowed byte vector.
pub open spec fn opt_bytes_view(b: Option<&Vec<u8>>) -> Option<Seq<u8>> {
    match b {
        Some(v) => Some(v@),
        None => None,
    }
}

/// Relies on `bitcoin::hashes::hash160::Hash::hash`: the HASH160 digest of
/// the input, always 20 bytes.
#[verifier::external_body]
pub(crate) fn hash160(data: &[u8]) -> (r: Vec<u8>)
    ensures
        r@ == hash160_of(data@),
        r@.len() == 20,
{
    bitcoin::hashes::hash160::Hash::hash(data).to_byte_array().to_vec()
}

/// Relies on `bitcoin::hashes::sha256::Hash::hash`: the SHA256 digest of
/// the input, always 32 bytes.
#[verifier::external_body]
pub(crate) fn sha256(data: &[u8]) -> (r: Vec<u8>)
    ensures
        r@ == sha256_of(data@),
        r@.len() == 32,
{
    bitcoin::hashes::sha256::Hash::hash(data).to_byte_array().to_vec()
}

/// Relies on `bitcoin::PublicKey::from_slice`, which accepts exactly the
/// valid 33- or 65-byte point encodings, and on the `secp256k1` conversion
/// to an x-only key, which keeps the x coordinate (bytes 1 through 32 of
/// either encoding).
#[verifier::external_body]
pub(crate) fn parse_x_only(pubkey: &[u8]) -> (r: Option<Vec<u8>>)
    ensures
        r is Some <==> is_valid_pubkey(pubkey@),
        r matches Some(x) ==> {
            &&& x@ == x_only_part(pubkey@)
            &&& x@.len() == 32
            &&& (pubkey@.len() == 33 || pubkey@.len() == 65)
        },
{
    let pk = bitcoin::PublicKey::from_slice(pubkey).ok()?;
    let x = bitcoin::secp256k1::XOnlyPublicKey::from(pk.inner);
    Some(x.serialize().to_vec())
}

/// Relies on `bitcoin::PublicKey::from_slice` (as above) and on
/// `TapTweak::tap_tweak` for x-only keys: the BIP341 output key and its
/// parity for the given internal key and optional merkle root.  The tweak
/// unwraps its internal scalar addition, which fails only in the
/// cryptographically unreachable case BIP341 disregards; the crate's own
/// script assembly unwraps the same call.
#[verifier::external_body]
pub(crate) fn tweaked_key(pubkey: &[u8], merkle_root: Option<&Vec<u8>>) -> (r: Option<(Vec<u8>, bool)>)
    requires
        merkle_root matches Some(m) ==> m@.len() == 32,
    ensures
        r is Some <==> is_valid_pubkey(pubkey@),
        r matches Some(t) ==> {
            &&& t.0@ == tweak_of(x_only_part(pubkey@), opt_bytes_view(merkle_root))
            &&& t.0@.len() == 32
            &&& t.1 == tweak_parity_of(x_only_part(pubkey@), opt_bytes_view(merkle_root))
        },
{
    let pk = bitcoin::PublicKey::from_slice(pubkey).ok()?;
    let x = bitcoin::secp256k1::XOnlyPublicKey::from(pk.inner);
    let root = merkle_root
        .map(|m| bitcoin::taproot::TapNodeHash::from_slice(m).expect("root is 32 bytes"));
    let secp = bitcoin::secp256k1::Secp256k1::verification_only();
    let (out, parity) = x.tap_tweak(&secp, root);
    Some((out.serialize().to_vec(), parity == bitcoin::secp256k1::Parity::Odd))
}

/// Relies on `bitcoin::taproot::TapNodeHash::from_script`: the BIP341
/// tagged hash of the leaf, which is also the merkle root of the one-leaf
/// script tree committing to it; always 32 bytes.
#[verifier::external_body]
pub(crate) fn tapleaf_hash(script: &[u8]) -> (r: Vec<u8>)
    ensures
        r@ == tapleaf_hash_of(script@),
        r@.len() == 32,
{
    let s = bitcoin::Script::from_bytes(script);
    let h = bitcoin::taproot::TapNodeHash::from_script(s, bitcoin::taproot::LeafVersion::TapScript);
    h.to_byte_array().to_vec()
}

/// What the address codec makes of `text`: `None` when the text is not
/// valid UTF-8 or not a parsable address of the main network, otherwise
/// the decoded payload as a triple of the payload kind (see
/// [`payload_matches_decode`]), the witness version (0 for the legacy
/// kinds), and the payload bytes.  Decoding depends on the text alone.
pub uninterp spec fn decoded_mainnet_address(text: Seq<u8>) -> Option<(u8, u8, Seq<u8>)>;

/// How a decoded payload value corresponds to the triple named by
/// [`decoded_mainnet_address`]: kind 0 is a pubkey hash, kind 1 a script
/// hash, kind 2 a witness program with its version.
pub open spec fn payload_matches_decode(p: AddressPayload, d: (u8, u8, Seq<u8>)) -> bool {
    match p {
        AddressPayload::PubkeyHash(h) => d.0 == 0 && h@ == d.2,
        AddressPayload::ScriptHash(h) => d.0 == 1 && h@ == d.2,
        AddressPayload::Witness { version, program } => d.0 == 2 && version == d.1 && program@
            == d.2,
    }
}

/// Relies on `bitcoin::Address` parsing (`from_str` then `require_network`
/// for the main network): `None` exactly when the text does not decode as
/// a mainnet address, otherwise the decoded payload, which is the function
/// [`decoded_mainnet_address`] of the text.  The address codec guarantees
/// 20-byte legacy hashes and witness programs of 2 to 40 bytes whose
/// version-0 lengths are 20 or 32.
#[verifier::external_body]
pub(crate) fn parse_address(text: &[u8]) -> (r: Option<AddressPayload>)
    ensures
        r is Some <==> decoded_mainnet_address(text@) is Some,
        r matches Some(p) ==> {
            &&& crate::types::address_payload_wf(p)
            &&& decoded_mainnet_address(text@) matches Some(d) && payload_matches_decode(p, d)
        },
{
    let s = core::str::from_utf8(text).ok()?;
    let a: bitcoin::Address<bitcoin::address::NetworkUnchecked> = s.parse().ok()?;
    match a.require_network(bitcoin::Network::Bitcoin).ok()?.payload {
        bitcoin::address::Payload::PubkeyHash(h) => {
            Some(AddressPayload::PubkeyHash(h.to_byte_array().to_vec()))
        },
        bitcoin::address::Payload::ScriptHash(h) => {
            Some(AddressPayload::ScriptHash(h.to_byte_array().to_vec()))
        },
        bitcoin::address::Payload::WitnessProgram(w) => Some(AddressPayload::Witness {
            version: w.version().to_num(),
            program: w.program().as_bytes().to_vec(),
        }),
        _ => None,
    }
}

} // verus!
