//! The output builder: the dispatcher that turns an [`Output`] into the
//! exact `TxOut` record, and the address resolver that maps a textual
//! address to an equivalent builder variant first.
//!
//! Every dispatch arm is pinned to the spec-level model
//! [`variant_spec`] / [`build_spec`], stated over the uninterpreted names
//! of the primitive layer; the address path is pinned over the named
//! decoding of the text, so the result is a spec-level function of the
//! input bytes for every recipient kind.

use vstd::prelude::*;

use crate::inscription::{
    brc20_envelope, build_brc20_envelope, build_control_block, build_ordinal_envelope,
    control_block, ordinal_envelope,
};
use crate::primitives::{
    decoded_mainnet_address, hash160, hash160_of, is_valid_pubkey, parse_address, parse_x_only,
    sha256, sha256_of, tapleaf_hash, tapleaf_hash_of, tweak_of, tweak_parity_of, tweaked_key,
    x_only_part,
};
use crate::script::{
    new_p2pkh, new_p2sh, new_p2tr, new_witness_v0, p2pkh_script, p2sh_script, p2tr_script,
    witness_v0_script,
};
use crate::types::{
    AddressPayload, BuilderVariant, Output, OutputError, PubkeyOrHash, Recipient, ScriptOrHash,
    TxOut, TxOutView,
};

verus! {

/// A produced output with no inscription data attached.
pub open spec fn plain_txout(value: u64, script: Seq<u8>) -> TxOutView {
    TxOutView { value, script_pubkey: script, control_block: None, taproot_payload: None }
}

/// A produced inscription output: the key-path script of the internal key
/// tweaked with the one-leaf merkle root, the matching control block, and
/// the leaf script itself as the reveal payload.
pub open spec fn inscription_txout(value: u64, x_only: Seq<u8>, leaf: Seq<u8>) -> TxOutView {
    TxOutView {
        value,
        script_pubkey: p2tr_script(tweak_of(x_only, Some(tapleaf_hash_of(leaf)))),
        control_block: Some(
            control_block(tweak_parity_of(x_only, Some(tapleaf_hash_of(leaf))), x_only),
        ),
        taproot_payload: Some(leaf),
    }
}

/// The 20-byte hash a legacy script-hash condition commits to: the supplied
/// hash when it has the right length, the HASH160 of a supplied redeem
/// script, an error otherwise.
pub open spec fn redeem_hash_spec(s: ScriptOrHash) -> Result<Seq<u8>, OutputError> {
    match s {
        ScriptOrHash::Hash(h) => if h@.len() == 20 {
            Ok(h@)
        } else {
            Err(OutputError::InvalidRedeemScript)
        },
        ScriptOrHash::RedeemScript(script) => Ok(hash160_of(script@)),
        ScriptOrHash::Unset => Err(OutputError::MissingRecipient),
    }
}

/// The 32-byte hash a witness script-hash condition commits to: SHA256
/// takes the place of HASH160.
pub open spec fn witness_redeem_hash_spec(s: ScriptOrHash) -> Result<Seq<u8>, OutputError> {
    match s {
        ScriptOrHash::Hash(h) => if h@.len() == 32 {
            Ok(h@)
        } else {
            Err(OutputError::InvalidWitnessRedeemScript)
        },
        ScriptOrHash::RedeemScript(script) => Ok(sha256_of(script@)),
        ScriptOrHash::Unset => Err(OutputError::MissingRecipient),
    }
}

/// The 20-byte hash a legacy key-hash condition commits to.  A supplied
/// public key must be a valid point; its whole encoding is hashed.
pub open spec fn pubkey_hash_spec(p: PubkeyOrHash) -> Result<Seq<u8>, OutputError> {
    match p {
        PubkeyOrHash::Hash(h) => if h@.len() == 20 {
            Ok(h@)
        } else {
            Err(OutputError::InvalidPubkeyHash)
        },
        PubkeyOrHash::Pubkey(key) => if is_valid_pubkey(key@) {
            Ok(hash160_of(key@))
        } else {
            Err(OutputError::InvalidPublicKey)
        },
        PubkeyOrHash::Unset => Err(OutputError::MissingRecipient),
    }
}

/// The 20-byte hash a witness key-hash condition commits to.  Only a
/// compressed (33-byte) public key has a witness hash.
pub open spec fn witness_pubkey_hash_spec(p: PubkeyOrHash) -> Result<Seq<u8>, OutputError> {
    match p {
        PubkeyOrHash::Hash(h) => if h@.len() == 20 {
            Ok(h@)
        } else {
            Err(OutputError::InvalidWitnessPubkeyHash)
        },
        PubkeyOrHash::Pubkey(key) => if is_valid_pubkey(key@) {
            if key@.len() == 33 {
                Ok(hash160_of(key@))
            } else {
                Err(OutputError::InvalidWitnessPubkeyHash)
            }
        } else {
            Err(OutputError::InvalidPublicKey)
        },
        PubkeyOrHash::Unset => Err(OutputError::MissingRecipient),
    }
}

/// The complete model of the builder's dispatch over an explicit variant:
/// for every variant, either the exact output record or the exact error.
pub open spec fn variant_spec(amount: u64, v: BuilderVariant) -> Result<TxOutView, OutputError> {
    match v {
        BuilderVariant::P2sh(s) => match redeem_hash_spec(s) {
            Ok(h) => Ok(plain_txout(amount, p2sh_script(h))),
            Err(e) => Err(e),
        },
        BuilderVariant::P2pkh(p) => match pubkey_hash_spec(p) {
            Ok(h) => Ok(plain_txout(amount, p2pkh_script(h))),
            Err(e) => Err(e),
        },
        BuilderVariant::P2wsh(s) => match witness_redeem_hash_spec(s) {
            Ok(h) => Ok(plain_txout(amount, witness_v0_script(h))),
            Err(e) => Err(e),
        },
        BuilderVariant::P2wpkh(p) => match witness_pubkey_hash_spec(p) {
            Ok(h) => Ok(plain_txout(amount, witness_v0_script(h))),
            Err(e) => Err(e),
        },
        BuilderVariant::P2trKeyPath(key) => if is_valid_pubkey(key@) {
            Ok(plain_txout(amount, p2tr_script(tweak_of(x_only_part(key@), None))))
        } else {
            Err(OutputError::InvalidPublicKey)
        },
        BuilderVariant::P2trScriptPath { public_key, node_hash } => if node_hash@.len() != 32 {
            Err(OutputError::InvalidTaprootRoot)
        } else if is_valid_pubkey(public_key@) {
            Ok(
                plain_txout(
                    amount,
                    p2tr_script(tweak_of(x_only_part(public_key@), Some(node_hash@))),
                ),
            )
        } else {
            Err(OutputError::InvalidPublicKey)
        },
        BuilderVariant::OrdinalInscribe { inscribe_to, mime_type, payload } => if is_valid_pubkey(
            inscribe_to@,
        ) {
            Ok(
                inscription_txout(
                    amount,
                    x_only_part(inscribe_to@),
                    ordinal_envelope(x_only_part(inscribe_to@), mime_type@, payload@),
                ),
            )
        } else {
            Err(OutputError::InvalidPublicKey)
        },
        BuilderVariant::Brc20Inscribe { inscribe_to, ticker, transfer_amount } => if !is_valid_pubkey(
            inscribe_to@,
        ) {
            Err(OutputError::InvalidPublicKey)
        } else if ticker@.len() != 4 {
            Err(OutputError::InvalidBrc20Ticker)
        } else {
            Ok(
                inscription_txout(
                    amount,
                    x_only_part(inscribe_to@),
                    brc20_envelope(x_only_part(inscribe_to@), ticker@, transfer_amount),
                ),
            )
        },
        BuilderVariant::Unset => Err(OutputError::MissingBuilderVariant),
    }
}

/// Which decoded addresses the resolver maps to a builder variant: a
/// pubkey-hash payload, a version-0 witness program of 20 bytes, or a
/// version-1 witness program of 32 bytes.
pub open spec fn supported_decode(d: (u8, u8, Seq<u8>)) -> bool {
    d.0 == 0 || (d.0 == 2 && d.1 == 0 && d.2.len() == 20) || (d.0 == 2 && d.1 == 1 && d.2.len()
        == 32)
}

/// The error of the address path for a given decoding, where it yields one
/// at the resolution stage: unparsable text and wrongly sized witness
/// programs are malformed, script-hash payloads and higher witness
/// versions are unsupported.
pub open spec fn address_error_spec(d: Option<(u8, u8, Seq<u8>)>) -> OutputError {
    match d {
        None => OutputError::BadAddressRecipient,
        Some(p) => if p.0 == 1 {
            OutputError::UnsupportedAddressRecipient
        } else if p.0 == 2 && (p.1 == 0 || p.1 == 1) {
            OutputError::BadAddressRecipient
        } else if p.0 == 2 {
            OutputError::UnsupportedAddressRecipient
        } else {
            OutputError::BadAddressRecipient
        },
    }
}

/// The complete model of the builder over an address recipient, as a
/// function of the decoding of the text: resolution per the decoded kind,
/// then the same dispatch as for an explicit variant.
pub open spec fn address_build_spec(amount: u64, text: Seq<u8>) -> Result<TxOutView, OutputError> {
    match decoded_mainnet_address(text) {
        None => Err(OutputError::BadAddressRecipient),
        Some(d) => if d.0 == 0 {
            Ok(plain_txout(amount, p2pkh_script(d.2)))
        } else if d.0 == 1 {
            Err(OutputError::UnsupportedAddressRecipient)
        } else if d.0 == 2 && d.1 == 0 {
            if d.2.len() == 20 {
                Ok(plain_txout(amount, witness_v0_script(d.2)))
            } else {
                Err(OutputError::BadAddressRecipient)
            }
        } else if d.0 == 2 && d.1 == 1 {
            if d.2.len() != 32 {
                Err(OutputError::BadAddressRecipient)
            } else if is_valid_pubkey(d.2) {
                Ok(plain_txout(amount, p2tr_script(tweak_of(x_only_part(d.2), None))))
            } else {
                Err(OutputError::InvalidPublicKey)
            }
        } else if d.0 == 2 {
            Err(OutputError::UnsupportedAddressRecipient)
        } else {
            Err(OutputError::BadAddressRecipient)
        },
    }
}

/// The complete model of the builder over every recipient.
pub open spec fn build_spec(amount: u64, r: Recipient) -> Result<TxOutView, OutputError> {
    match r {
        Recipient::ExplicitScript(script) => Ok(plain_txout(amount, script@)),
        Recipient::Builder(v) => variant_spec(amount, v),
        Recipient::Address(text) => address_build_spec(amount, text@),
        Recipient::Unset => Err(OutputError::MissingRecipient),
    }
}

/// The model of the address resolver over a decoded payload: exactly one
/// non-address builder variant, or the exact error.
pub open spec fn resolve_spec(amount: u64, p: AddressPayload) -> Result<Output, OutputError> {
    match p {
        AddressPayload::PubkeyHash(h) => Ok(
            Output {
                amount,
                recipient: Recipient::Builder(BuilderVariant::P2pkh(PubkeyOrHash::Hash(h))),
            },
        ),
        AddressPayload::ScriptHash(_) => Err(OutputError::UnsupportedAddressRecipient),
        AddressPayload::Witness { version, program } => if version == 0 {
            if program@.len() == 20 {
                Ok(
                    Output {
                        amount,
                        recipient: Recipient::Builder(
                            BuilderVariant::P2wpkh(PubkeyOrHash::Hash(program)),
                        ),
                    },
                )
            } else {
                Err(OutputError::BadAddressRecipient)
            }
        } else if version == 1 {
            if program@.len() == 32 {
                Ok(
                    Output {
                        amount,
                        recipient: Recipient::Builder(BuilderVariant::P2trKeyPath(program)),
                    },
                )
            } else {
                Err(OutputError::BadAddressRecipient)
            }
        } else {
            Err(OutputError::UnsupportedAddressRecipient)
        },
    }
}

/// The shapes the address resolver can hand back: a builder variant over a
/// well-formed hash or key, never an address and never an explicit script.
pub open spec fn resolved_recipient(r: Recipient) -> bool {
    match r {
        Recipient::Builder(v) => match v {
            BuilderVariant::P2pkh(PubkeyOrHash::Hash(h)) => h@.len() == 20,
            BuilderVariant::P2wpkh(PubkeyOrHash::Hash(h)) => h@.len() == 20,
            BuilderVariant::P2trKeyPath(key) => key@.len() == 32,
            _ => false,
        },
        _ => false,
    }
}

/// The result of the builder, as a mathematical value.
pub open spec fn result_view(r: Result<TxOut, OutputError>) -> Result<TxOutView, OutputError> {
    match r {
        Ok(t) => Ok(t@),
        Err(e) => Err(e),
    }
}

/// A byte result, as a mathematical value.
pub open spec fn bytes_result_view(r: Result<Vec<u8>, OutputError>) -> Result<
    Seq<u8>,
    OutputError,
> {
    match r {
        Ok(h) => Ok(h@),
        Err(e) => Err(e),
    }
}

/// How a resolved recipient corresponds to the decoding it came from:
/// the embedded hash, program or key is the decoded payload itself.
pub open spec fn recipient_of_decode(r: Recipient, d: (u8, u8, Seq<u8>)) -> bool {
    match r {
        Recipient::Builder(v) => match v {
            BuilderVariant::P2pkh(PubkeyOrHash::Hash(h)) => d.0 == 0 && h@ == d.2,
            BuilderVariant::P2wpkh(PubkeyOrHash::Hash(h)) => d.0 == 2 && d.1 == 0 && h@ == d.2,
            BuilderVariant::P2trKeyPath(key) => d.0 == 2 && d.1 == 1 && key@ == d.2,
            _ => false,
        },
        _ => false,
    }
}

/// Byte-for-byte equality of two script-or-hash choices.
pub open spec fn script_or_hash_view_eq(a: ScriptOrHash, b: ScriptOrHash) -> bool {
    match (a, b) {
        (ScriptOrHash::Hash(x), ScriptOrHash::Hash(y)) => x@ == y@,
        (ScriptOrHash::RedeemScript(x), ScriptOrHash::RedeemScript(y)) => x@ == y@,
        (ScriptOrHash::Unset, ScriptOrHash::Unset) => true,
        _ => false,
    }
}

/// Byte-for-byte equality of two pubkey-or-hash choices.
pub open spec fn pubkey_or_hash_view_eq(a: PubkeyOrHash, b: PubkeyOrHash) -> bool {
    match (a, b) {
        (PubkeyOrHash::Hash(x), PubkeyOrHash::Hash(y)) => x@ == y@,
        (PubkeyOrHash::Pubkey(x), PubkeyOrHash::Pubkey(y)) => x@ == y@,
        (PubkeyOrHash::Unset, PubkeyOrHash::Unset) => true,
        _ => false,
    }
}

/// Byte-for-byte equality of two builder variants.
pub open spec fn variant_view_eq(a: BuilderVariant, b: BuilderVariant) -> bool {
    match (a, b) {
        (BuilderVariant::P2sh(x), BuilderVariant::P2sh(y)) => script_or_hash_view_eq(x, y),
        (BuilderVariant::P2pkh(x), BuilderVariant::P2pkh(y)) => pubkey_or_hash_view_eq(x, y),
        (BuilderVariant::P2wsh(x), BuilderVariant::P2wsh(y)) => script_or_hash_view_eq(x, y),
        (BuilderVariant::P2wpkh(x), BuilderVariant::P2wpkh(y)) => pubkey_or_hash_view_eq(x, y),
        (BuilderVariant::P2trKeyPath(x), BuilderVariant::P2trKeyPath(y)) => x@ == y@,
        (
            BuilderVariant::P2trScriptPath { public_key: xk, node_hash: xn },
            BuilderVariant::P2trScriptPath { public_key: yk, node_hash: yn },
        ) => xk@ == yk@ && xn@ == yn@,
        (
            BuilderVariant::OrdinalInscribe { inscribe_to: xk, mime_type: xm, payload: xp },
            BuilderVariant::OrdinalInscribe { inscribe_to: yk, mime_type: ym, payload: yp },
        ) => xk@ == yk@ && xm@ == ym@ && xp@ == yp@,
        (
            BuilderVariant::Brc20Inscribe { inscribe_to: xk, ticker: xt, transfer_amount: xa },
            BuilderVariant::Brc20Inscribe { inscribe_to: yk, ticker: yt, transfer_amount: ya },
        ) => xk@ == yk@ && xt@ == yt@ && xa == ya,
        (BuilderVariant::Unset, BuilderVariant::Unset) => true,
        _ => false,
    }
}

/// Byte-for-byte equality of two recipients.
pub open spec fn recipient_view_eq(a: Recipient, b: Recipient) -> bool {
    match (a, b) {
        (Recipient::ExplicitScript(x), Recipient::ExplicitScript(y)) => x@ == y@,
        (Recipient::Builder(x), Recipient::Builder(y)) => variant_view_eq(x, y),
        (Recipient::Address(x), Recipient::Address(y)) => x@ == y@,
        (Recipient::Unset, Recipient::Unset) => true,
        _ => false,
    }
}

/// Law: the builder is a pure function of the input bytes.  Two recipients
/// that carry the same bytes — whatever vectors hold them — yield the same
/// output record or the same error.
pub proof fn lemma_build_deterministic(amount: u64, a: Recipient, b: Recipient)
    requires
        recipient_view_eq(a, b),
    ensures
        build_spec(amount, a) == build_spec(amount, b),
{
}

/// Law: a legacy script-hash condition built from a redeem script yields
/// the same output as one built from the script's precomputed HASH160.
pub proof fn lemma_p2sh_hash_agrees(amount: u64, script: Vec<u8>, hash: Vec<u8>)
    requires
        hash@ == hash160_of(script@),
        hash@.len() == 20,
    ensures
        variant_spec(amount, BuilderVariant::P2sh(ScriptOrHash::Hash(hash))) == variant_spec(
            amount,
            BuilderVariant::P2sh(ScriptOrHash::RedeemScript(script)),
        ),
{
}

/// Law: a legacy key-hash condition built from a valid public key yields
/// the same output as one built from the key's precomputed HASH160.
pub proof fn lemma_p2pkh_hash_agrees(amount: u64, pubkey: Vec<u8>, hash: Vec<u8>)
    requires
        is_valid_pubkey(pubkey@),
        hash@ == hash160_of(pubkey@),
        hash@.len() == 20,
    ensures
        variant_spec(amount, BuilderVariant::P2pkh(PubkeyOrHash::Hash(hash))) == variant_spec(
            amount,
            BuilderVariant::P2pkh(PubkeyOrHash::Pubkey(pubkey)),
        ),
{
}

/// Law: a witness script-hash condition built from a redeem script yields
/// the same output as one built from the script's precomputed SHA256.
pub proof fn lemma_p2wsh_hash_agrees(amount: u64, script: Vec<u8>, hash: Vec<u8>)
    requires
        hash@ == sha256_of(script@),
        hash@.len() == 32,
    ensures
        variant_spec(amount, BuilderVariant::P2wsh(ScriptOrHash::Hash(hash))) == variant_spec(
            amount,
            BuilderVariant::P2wsh(ScriptOrHash::RedeemScript(script)),
        ),
{
}

/// Law: a witness key-hash condition built from a valid compressed public
/// key yields the same output as one built from the key's precomputed
/// HASH160.
pub proof fn lemma_p2wpkh_hash_agrees(amount: u64, pubkey: Vec<u8>, hash: Vec<u8>)
    requires
        is_valid_pubkey(pubkey@),
        pubkey@.len() == 33,
        hash@ == hash160_of(pubkey@),
        hash@.len() == 20,
    ensures
        variant_spec(amount, BuilderVariant::P2wpkh(PubkeyOrHash::Hash(hash))) == variant_spec(
            amount,
            BuilderVariant::P2wpkh(PubkeyOrHash::Pubkey(pubkey)),
        ),
{
}

/// Law: resolving a pay-to-public-key-hash address payload and then
/// building the resolved recipient equals building a legacy key-hash
/// condition from the embedded hash directly.
pub proof fn lemma_resolve_p2pkh_roundtrip(amount: u64, hash: Vec<u8>)
    requires
        hash@.len() == 20,
    ensures
        resolve_spec(amount, AddressPayload::PubkeyHash(hash)) matches Ok(o) && o.amount == amount
            && build_spec(amount, o.recipient) == variant_spec(
            amount,
            BuilderVariant::P2pkh(PubkeyOrHash::Hash(hash)),
        ),
{
}

/// Resolves the hash a legacy script-hash condition commits to.
fn redeem_script_or_hash(script_or_hash: &ScriptOrHash) -> (r: Result<Vec<u8>, OutputError>)
    ensures
        bytes_result_view(r) == redeem_hash_spec(*script_or_hash),
        r matches Ok(h) ==> h@.len() == 20,
{
    match script_or_hash {
        ScriptOrHash::Hash(h) => {
            if h.len() == 20 {
                Ok(vstd::slice::slice_to_vec(h.as_slice()))
            } else {
                Err(OutputError::InvalidRedeemScript)
            }
        },
        ScriptOrHash::RedeemScript(script) => Ok(hash160(script.as_slice())),
        ScriptOrHash::Unset => Err(OutputError::MissingRecipient),
    }
}

/// Resolves the hash a witness script-hash condition commits to.
fn witness_redeem_script_or_hash(script_or_hash: &ScriptOrHash) -> (r: Result<Vec<u8>, OutputError>)
    ensures
        bytes_result_view(r) == witness_redeem_hash_spec(*script_or_hash),
        r matches Ok(h) ==> h@.len() == 32,
{
    match script_or_hash {
        ScriptOrHash::Hash(h) => {
            if h.len() == 32 {
                Ok(vstd::slice::slice_to_vec(h.as_slice()))
            } else {
                Err(OutputError::InvalidWitnessRedeemScript)
            }
        },
        ScriptOrHash::RedeemScript(script) => Ok(sha256(script.as_slice())),
        ScriptOrHash::Unset => Err(OutputError::MissingRecipient),
    }
}

/// Resolves the hash a legacy key-hash condition commits to.
fn pubkey_hash_from_proto(pubkey_or_hash: &PubkeyOrHash) -> (r: Result<Vec<u8>, OutputError>)
    ensures
        bytes_result_view(r) == pubkey_hash_spec(*pubkey_or_hash),
        r matches Ok(h) ==> h@.len() == 20,
{
    match pubkey_or_hash {
        PubkeyOrHash::Hash(h) => {
            if h.len() == 20 {
                Ok(vstd::slice::slice_to_vec(h.as_slice()))
            } else {
                Err(OutputError::InvalidPubkeyHash)
            }
        },
        PubkeyOrHash::Pubkey(key) => {
            match parse_x_only(key.as_slice()) {
                Some(_) => Ok(hash160(key.as_slice())),
                None => Err(OutputError::InvalidPublicKey),
            }
        },
        PubkeyOrHash::Unset => Err(OutputError::MissingRecipient),
    }
}

/// Resolves the hash a witness key-hash condition commits to.
fn witness_pubkey_hash_from_proto(pubkey_or_hash: &PubkeyOrHash) -> (r: Result<Vec<u8>, OutputError>)
    ensures
        bytes_result_view(r) == witness_pubkey_hash_spec(*pubkey_or_hash),
        r matches Ok(h) ==> h@.len() == 20,
{
    match pubkey_or_hash {
        PubkeyOrHash::Hash(h) => {
            if h.len() == 20 {
                Ok(vstd::slice::slice_to_vec(h.as_slice()))
            } else {
                Err(OutputError::InvalidWitnessPubkeyHash)
            }
        },
        PubkeyOrHash::Pubkey(key) => {
            match parse_x_only(key.as_slice()) {
                Some(_) => {
                    if key.len() == 33 {
                        Ok(hash160(key.as_slice()))
                    } else {
                        Err(OutputError::InvalidWitnessPubkeyHash)
                    }
                },
                None => Err(OutputError::InvalidPublicKey),
            }
        },
        PubkeyOrHash::Unset => Err(OutputError::MissingRecipient),
    }
}

/// Maps a decoded address payload to an equivalent non-address output.
pub fn resolve_payload(amount: u64, payload: AddressPayload) -> (r: Result<Output, OutputError>)
    ensures
        r == resolve_spec(amount, payload),
{
    match payload {
        AddressPayload::PubkeyHash(h) => Ok(
            Output {
                amount,
                recipient: Recipient::Builder(BuilderVariant::P2pkh(PubkeyOrHash::Hash(h))),
            },
        ),
        AddressPayload::ScriptHash(_) => Err(OutputError::UnsupportedAddressRecipient),
        AddressPayload::Witness { version, program } => {
            if version == 0 {
                if program.len() == 20 {
                    Ok(
                        Output {
                            amount,
                            recipient: Recipient::Builder(
                                BuilderVariant::P2wpkh(PubkeyOrHash::Hash(program)),
                            ),
                        },
                    )
                } else {
                    Err(OutputError::BadAddressRecipient)
                }
            } else if version == 1 {
                if program.len() == 32 {
                    Ok(
                        Output {
                            amount,
                            recipient: Recipient::Builder(BuilderVariant::P2trKeyPath(program)),
                        },
                    )
                } else {
                    Err(OutputError::BadAddressRecipient)
                }
            } else {
                Err(OutputError::UnsupportedAddressRecipient)
            }
        },
    }
}

/// Resolves a textual address into an equivalent non-address output.
///
/// The outcome is pinned by the decoding of the text: resolution succeeds
/// exactly on the supported decodings, the resolved recipient embeds the
/// decoded payload and is one of the resolver's three builder variants —
/// in particular never another address, so the builder's delegation ends
/// after one hop — and every failure carries the error the decoding
/// determines; in particular, text that does not decode fails with
/// `BadAddressRecipient`.
pub fn output_from_address(amount: u64, addr: &[u8]) -> (r: Result<Output, OutputError>)
    ensures
        r is Ok <==> (decoded_mainnet_address(addr@) matches Some(d) && supported_decode(d)),
        r matches Ok(o) ==> {
            &&& o.amount == amount
            &&& resolved_recipient(o.recipient)
            &&& decoded_mainnet_address(addr@) matches Some(d) && recipient_of_decode(
                o.recipient,
                d,
            )
        },
        r matches Err(e) ==> e == address_error_spec(decoded_mainnet_address(addr@)),
{
    match parse_address(addr) {
        Some(payload) => resolve_payload(amount, payload),
        None => Err(OutputError::BadAddressRecipient),
    }
}

/// The output builder.
pub struct OutputBuilder;

impl OutputBuilder {
    /// Assembles the output record for an explicit builder variant.
    fn build_from_variant(amount: u64, variant: &BuilderVariant) -> (r: Result<TxOut, OutputError>)
        ensures
            result_view(r) == variant_spec(amount, *variant),
    {
        match variant {
            BuilderVariant::P2sh(script_or_hash) => {
                match redeem_script_or_hash(script_or_hash) {
                    Ok(h) => Ok(
                        TxOut {
                            value: amount,
                            script_pubkey: new_p2sh(h.as_slice()),
                            control_block: None,
                            taproot_payload: None,
                        },
                    ),
                    Err(e) => Err(e),
                }
            },
            BuilderVariant::P2pkh(pubkey_or_hash) => {
                match pubkey_hash_from_proto(pubkey_or_hash) {
                    Ok(h) => Ok(
                        TxOut {
                            value: amount,
                            script_pubkey: new_p2pkh(h.as_slice()),
                            control_block: None,
                            taproot_payload: None,
                        },
                    ),
                    Err(e) => Err(e),
                }
            },
            BuilderVariant::P2wsh(script_or_hash) => {
                match witness_redeem_script_or_hash(script_or_hash) {
                    Ok(h) => Ok(
                        TxOut {
                            value: amount,
                            script_pubkey: new_witness_v0(h.as_slice()),
                            control_block: None,
                            taproot_payload: None,
                        },
                    ),
                    Err(e) => Err(e),
                }
            },
            BuilderVariant::P2wpkh(pubkey_or_hash) => {
                match witness_pubkey_hash_from_proto(pubkey_or_hash) {
                    Ok(h) => Ok(
                        TxOut {
                            value: amount,
                            script_pubkey: new_witness_v0(h.as_slice()),
                            control_block: None,
                            taproot_payload: None,
                        },
                    ),
                    Err(e) => Err(e),
                }
            },
            BuilderVariant::P2trKeyPath(key) => {
                match tweaked_key(key.as_slice(), None) {
                    Some(t) => Ok(
                        TxOut {
                            value: amount,
                            script_pubkey: new_p2tr(t.0.as_slice()),
                            control_block: None,
                            taproot_payload: None,
                        },
                    ),
                    None => Err(OutputError::InvalidPublicKey),
                }
            },
            BuilderVariant::P2trScriptPath { public_key, node_hash } => {
                if node_hash.len() != 32 {
                    Err(OutputError::InvalidTaprootRoot)
                } else {
                    match tweaked_key(public_key.as_slice(), Some(node_hash)) {
                        Some(t) => Ok(
                            TxOut {
                                value: amount,
                                script_pubkey: new_p2tr(t.0.as_slice()),
                                control_block: None,
                                taproot_payload: None,
                            },
                        ),
                        None => Err(OutputError::InvalidPublicKey),
                    }
                }
            },
            BuilderVariant::OrdinalInscribe { inscribe_to, mime_type, payload } => {
                match parse_x_only(inscribe_to.as_slice()) {
                    Some(x_only) => {
                        let leaf = build_ordinal_envelope(&x_only, mime_type, payload);
                        Self::inscription_output(amount, inscribe_to, x_only, leaf)
                    },
                    None => Err(OutputError::InvalidPublicKey),
                }
            },
            BuilderVariant::Brc20Inscribe { inscribe_to, ticker, transfer_amount } => {
                match parse_x_only(inscribe_to.as_slice()) {
                    Some(x_only) => {
                        if ticker.len() != 4 {
                            Err(OutputError::InvalidBrc20Ticker)
                        } else {
                            let leaf = build_brc20_envelope(&x_only, ticker, *transfer_amount);
                            Self::inscription_output(amount, inscribe_to, x_only, leaf)
                        }
                    },
                    None => Err(OutputError::InvalidPublicKey),
                }
            },
            BuilderVariant::Unset => Err(OutputError::MissingBuilderVariant),
        }
    }

    /// Assembles the taproot commit output and reveal data for an
    /// inscription whose leaf script is already built.
    fn inscription_output(amount: u64, pubkey: &Vec<u8>, x_only: Vec<u8>, leaf: Vec<u8>) -> (r:
        Result<TxOut, OutputError>)
        requires
            is_valid_pubkey(pubkey@),
            x_only@ == x_only_part(pubkey@),
        ensures
            result_view(r) == Ok::<TxOutView, OutputError>(
                inscription_txout(amount, x_only_part(pubkey@), leaf@),
            ),
    {
        let merkle = tapleaf_hash(leaf.as_slice());
        match tweaked_key(pubkey.as_slice(), Some(&merkle)) {
            Some(t) => {
                let cb = build_control_block(t.1, &x_only);
                let out = TxOut {
                    value: amount,
                    script_pubkey: new_p2tr(t.0.as_slice()),
                    control_block: Some(cb),
                    taproot_payload: Some(leaf),
                };
                proof {
                    assert(out@ == inscription_txout(amount, x_only_part(pubkey@), out.taproot_payload->0@));
                }
                Ok(out)
            },
            None => {
                proof {
                    assert(false);
                }
                Err(OutputError::InvalidPublicKey)
            },
        }
    }

    /// Creates the spending condition and any inscription reveal data for a
    /// desired output.
    ///
    /// The result is exactly [`build_spec`] of the input: the dispatch
    /// table for an explicit script, a builder variant or an unset
    /// recipient, and [`address_build_spec`] — resolution of the decoded
    /// text followed by the same dispatch — for an address.
    pub fn utxo_from_proto(output: &Output) -> (r: Result<TxOut, OutputError>)
        ensures
            result_view(r) == build_spec(output.amount, output.recipient),
    {
        match &output.recipient {
            Recipient::ExplicitScript(script) => Ok(
                TxOut {
                    value: output.amount,
                    script_pubkey: vstd::slice::slice_to_vec(script.as_slice()),
                    control_block: None,
                    taproot_payload: None,
                },
            ),
            Recipient::Builder(variant) => Self::build_from_variant(output.amount, variant),
            Recipient::Address(text) => {
                match output_from_address(output.amount, text.as_slice()) {
                    Ok(resolved) => {
                        match resolved.recipient {
                            Recipient::Builder(variant) => {
                                let r = Self::build_from_variant(resolved.amount, &variant);
                                proof {
                                    assert(result_view(r) == address_build_spec(
                                        output.amount,
                                        text@,
                                    ));
                                }
                                r
                            },
                            _ => {
                                proof {
                                    assert(false);
                                }
                                Err(OutputError::BadAddressRecipient)
                            },
                        }
                    },
                    Err(e) => Err(e),
                }
            },
            Recipient::Unset => Err(OutputError::MissingRecipient),
        }
    }
}

} // verus!
