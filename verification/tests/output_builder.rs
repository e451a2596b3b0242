use bitcoin::hashes::Hash as _;

use wallet_core::builder::{output_from_address, resolve_payload, OutputBuilder};
use wallet_core::types::{
    AddressPayload, BuilderVariant, Output, OutputError, PubkeyOrHash, Recipient, ScriptOrHash,
};

fn hex(s: &str) -> Vec<u8> {
    let b = s.as_bytes();
    let mut out = Vec::new();
    let mut i = 0;
    while i + 1 < b.len() {
        let d = |c: u8| -> u8 {
            match c {
                b'0'..=b'9' => c - b'0',
                b'a'..=b'f' => c - b'a' + 10,
                b'A'..=b'F' => c - b'A' + 10,
                _ => panic!("not hex"),
            }
        };
        out.push(d(b[i]) * 16 + d(b[i + 1]));
        i += 2;
    }
    out
}

/// The secp256k1 generator point, compressed.
const GEN_COMPRESSED: &str = "0279be667ef9dcbbac55a06295ce870b07029bfcdb2dce28d959f2815b16f81798";

/// The generator point, uncompressed.
const GEN_UNCOMPRESSED: &str = "0479be667ef9dcbbac55a06295ce870b07029bfcdb2dce28d959f2815b16f81798483ada7726a3c4655da4fbfc0e1108a8fd17b448a68554199c47d08ffb10d4b8";

/// HASH160 of the compressed generator point.
const GEN_HASH160: &str = "751e76e8199196d454941c45d1b3a323f1433bd6";

fn build(amount: u64, recipient: Recipient) -> Result<wallet_core::types::TxOut, OutputError> {
    OutputBuilder::utxo_from_proto(&Output { amount, recipient })
}

#[test]
fn explicit_script_is_used_verbatim() {
    let t = build(42, Recipient::ExplicitScript(vec![0xde, 0xad, 0xbe, 0xef])).unwrap();
    assert_eq!(t.value, 42);
    assert_eq!(t.script_pubkey, vec![0xde, 0xad, 0xbe, 0xef]);
    assert!(t.control_block.is_none());
    assert!(t.taproot_payload.is_none());
}

#[test]
fn unset_recipient_fails() {
    let e = build(1, Recipient::Unset).unwrap_err();
    assert_eq!(e, OutputError::MissingRecipient);
}

#[test]
fn unset_builder_variant_fails() {
    let e = build(1, Recipient::Builder(BuilderVariant::Unset)).unwrap_err();
    assert_eq!(e, OutputError::MissingBuilderVariant);
}

#[test]
fn p2sh_unset_script_fails_as_missing_recipient() {
    let e = build(1, Recipient::Builder(BuilderVariant::P2sh(ScriptOrHash::Unset))).unwrap_err();
    assert_eq!(e, OutputError::MissingRecipient);
}

#[test]
fn p2wpkh_zero_hash_scenario() {
    let t = build(
        1000,
        Recipient::Builder(BuilderVariant::P2wpkh(PubkeyOrHash::Hash(vec![0u8; 20]))),
    )
    .unwrap();
    assert_eq!(t.value, 1000);
    let mut expected = vec![0x00, 0x14];
    expected.extend_from_slice(&[0u8; 20]);
    assert_eq!(t.script_pubkey, expected);
    assert!(t.control_block.is_none());
    assert!(t.taproot_payload.is_none());
}

#[test]
fn p2sh_script_and_precomputed_hash_agree() {
    let redeem = vec![0x51u8];
    let h = bitcoin::hashes::hash160::Hash::hash(&redeem).to_byte_array().to_vec();
    let from_script =
        build(9, Recipient::Builder(BuilderVariant::P2sh(ScriptOrHash::RedeemScript(redeem))))
            .unwrap();
    let from_hash =
        build(9, Recipient::Builder(BuilderVariant::P2sh(ScriptOrHash::Hash(h.clone())))).unwrap();
    assert_eq!(from_script.script_pubkey, from_hash.script_pubkey);
    let mut expected = vec![0xa9, 0x14];
    expected.extend_from_slice(&h);
    expected.push(0x87);
    assert_eq!(from_script.script_pubkey, expected);
}

#[test]
fn p2pkh_from_pubkey_hashes_the_key() {
    let t = build(
        7,
        Recipient::Builder(BuilderVariant::P2pkh(PubkeyOrHash::Pubkey(hex(GEN_COMPRESSED)))),
    )
    .unwrap();
    let mut expected = vec![0x76, 0xa9, 0x14];
    expected.extend_from_slice(&hex(GEN_HASH160));
    expected.extend_from_slice(&[0x88, 0xac]);
    assert_eq!(t.script_pubkey, expected);
}

#[test]
fn p2pkh_pubkey_and_precomputed_hash_agree() {
    let a = build(
        7,
        Recipient::Builder(BuilderVariant::P2pkh(PubkeyOrHash::Pubkey(hex(GEN_COMPRESSED)))),
    )
    .unwrap();
    let b = build(
        7,
        Recipient::Builder(BuilderVariant::P2pkh(PubkeyOrHash::Hash(hex(GEN_HASH160)))),
    )
    .unwrap();
    assert_eq!(a.script_pubkey, b.script_pubkey);
}

#[test]
fn p2wsh_from_redeem_script_uses_sha256() {
    let t = build(
        3,
        Recipient::Builder(BuilderVariant::P2wsh(ScriptOrHash::RedeemScript(vec![]))),
    )
    .unwrap();
    let mut expected = vec![0x00, 0x20];
    expected.extend_from_slice(&hex(
        "e3b0c44298fc1c149afbf4c8996fb92427ae41e4649b934ca495991b7852b855",
    ));
    assert_eq!(t.script_pubkey, expected);
}

#[test]
fn p2wsh_script_and_precomputed_hash_agree() {
    let redeem = vec![0x51u8, 0x21u8];
    let h = bitcoin::hashes::sha256::Hash::hash(&redeem).to_byte_array().to_vec();
    let from_script =
        build(2, Recipient::Builder(BuilderVariant::P2wsh(ScriptOrHash::RedeemScript(redeem))))
            .unwrap();
    let from_hash =
        build(2, Recipient::Builder(BuilderVariant::P2wsh(ScriptOrHash::Hash(h)))).unwrap();
    assert_eq!(from_script.script_pubkey, from_hash.script_pubkey);
}

#[test]
fn p2wpkh_pubkey_and_precomputed_hash_agree() {
    let a = build(
        4,
        Recipient::Builder(BuilderVariant::P2wpkh(PubkeyOrHash::Pubkey(hex(GEN_COMPRESSED)))),
    )
    .unwrap();
    let b = build(
        4,
        Recipient::Builder(BuilderVariant::P2wpkh(PubkeyOrHash::Hash(hex(GEN_HASH160)))),
    )
    .unwrap();
    assert_eq!(a.script_pubkey, b.script_pubkey);
}

#[test]
fn p2wpkh_from_compressed_pubkey() {
    let t = build(
        5,
        Recipient::Builder(BuilderVariant::P2wpkh(PubkeyOrHash::Pubkey(hex(GEN_COMPRESSED)))),
    )
    .unwrap();
    let mut expected = vec![0x00, 0x14];
    expected.extend_from_slice(&hex(GEN_HASH160));
    assert_eq!(t.script_pubkey, expected);
}

#[test]
fn p2wpkh_from_uncompressed_pubkey_fails() {
    let e = build(
        5,
        Recipient::Builder(BuilderVariant::P2wpkh(PubkeyOrHash::Pubkey(hex(GEN_UNCOMPRESSED)))),
    )
    .unwrap_err();
    assert_eq!(e, OutputError::InvalidWitnessPubkeyHash);
}

#[test]
fn invalid_point_encoding_fails() {
    let e = build(
        5,
        Recipient::Builder(BuilderVariant::P2pkh(PubkeyOrHash::Pubkey(vec![0u8; 33]))),
    )
    .unwrap_err();
    assert_eq!(e, OutputError::InvalidPublicKey);
}

#[test]
fn hash_length_boundaries() {
    for bad in [19usize, 21] {
        let e = build(
            1,
            Recipient::Builder(BuilderVariant::P2pkh(PubkeyOrHash::Hash(vec![0u8; bad]))),
        )
        .unwrap_err();
        assert_eq!(e, OutputError::InvalidPubkeyHash);
        let e = build(
            1,
            Recipient::Builder(BuilderVariant::P2wpkh(PubkeyOrHash::Hash(vec![0u8; bad]))),
        )
        .unwrap_err();
        assert_eq!(e, OutputError::InvalidWitnessPubkeyHash);
        let e = build(
            1,
            Recipient::Builder(BuilderVariant::P2sh(ScriptOrHash::Hash(vec![0u8; bad]))),
        )
        .unwrap_err();
        assert_eq!(e, OutputError::InvalidRedeemScript);
    }
    for bad in [31usize, 33] {
        let e = build(
            1,
            Recipient::Builder(BuilderVariant::P2wsh(ScriptOrHash::Hash(vec![0u8; bad]))),
        )
        .unwrap_err();
        assert_eq!(e, OutputError::InvalidWitnessRedeemScript);
    }
}

#[test]
fn taproot_root_length_boundaries() {
    for bad in [31usize, 33] {
        let e = build(
            1,
            Recipient::Builder(BuilderVariant::P2trScriptPath {
                public_key: hex(GEN_COMPRESSED),
                node_hash: vec![0u8; bad],
            }),
        )
        .unwrap_err();
        assert_eq!(e, OutputError::InvalidTaprootRoot);
    }
}

#[test]
fn p2tr_key_path_matches_reference_tweak() {
    let t = build(11, Recipient::Builder(BuilderVariant::P2trKeyPath(hex(GEN_COMPRESSED))))
        .unwrap();
    let secp = bitcoin::secp256k1::Secp256k1::new();
    let pk = bitcoin::PublicKey::from_slice(&hex(GEN_COMPRESSED)).unwrap();
    let xonly = bitcoin::secp256k1::XOnlyPublicKey::from(pk.inner);
    let expected = bitcoin::ScriptBuf::new_v1_p2tr(&secp, xonly, None);
    assert_eq!(t.script_pubkey, expected.as_bytes().to_vec());
    assert_eq!(&t.script_pubkey[..2], &[0x51, 0x20]);
}

#[test]
fn p2tr_script_path_matches_reference_tweak() {
    let root = vec![0xabu8; 32];
    let t = build(
        11,
        Recipient::Builder(BuilderVariant::P2trScriptPath {
            public_key: hex(GEN_COMPRESSED),
            node_hash: root.clone(),
        }),
    )
    .unwrap();
    let secp = bitcoin::secp256k1::Secp256k1::new();
    let pk = bitcoin::PublicKey::from_slice(&hex(GEN_COMPRESSED)).unwrap();
    let xonly = bitcoin::secp256k1::XOnlyPublicKey::from(pk.inner);
    let node = bitcoin::taproot::TapNodeHash::from_slice(&root).unwrap();
    let expected = bitcoin::ScriptBuf::new_v1_p2tr(&secp, xonly, Some(node));
    assert_eq!(t.script_pubkey, expected.as_bytes().to_vec());
}

#[test]
fn p2tr_key_path_rejects_invalid_point() {
    let e = build(1, Recipient::Builder(BuilderVariant::P2trKeyPath(vec![0u8; 33])))
        .unwrap_err();
    assert_eq!(e, OutputError::InvalidPublicKey);
}

#[test]
fn eater_address_builds_p2pkh() {
    let text = "1BitcoinEaterAddressDontSendf59kuE";
    let t = build(5000, Recipient::Address(text.as_bytes().to_vec())).unwrap();
    assert_eq!(t.value, 5000);
    let addr: bitcoin::Address<bitcoin::address::NetworkUnchecked> = text.parse().unwrap();
    let addr = addr.require_network(bitcoin::Network::Bitcoin).unwrap();
    assert_eq!(t.script_pubkey, addr.script_pubkey().as_bytes().to_vec());
    assert_eq!(&t.script_pubkey[..3], &[0x76, 0xa9, 0x14]);
}

#[test]
fn bech32_p2wpkh_address_round_trip() {
    let text = "bc1qw508d6qejxtdg4y5r3zarvary0c5xw7kv8f3t4";
    let via_address = build(900, Recipient::Address(text.as_bytes().to_vec())).unwrap();
    let via_hash = build(
        900,
        Recipient::Builder(BuilderVariant::P2wpkh(PubkeyOrHash::Hash(hex(GEN_HASH160)))),
    )
    .unwrap();
    assert_eq!(via_address.script_pubkey, via_hash.script_pubkey);
    assert_eq!(via_address.value, via_hash.value);
}

#[test]
fn script_hash_address_is_unsupported() {
    let text = "3P14159f73E4gFr7JterCCQh9QjiTjiZrG";
    let e = build(1, Recipient::Address(text.as_bytes().to_vec())).unwrap_err();
    assert_eq!(e, OutputError::UnsupportedAddressRecipient);
}

#[test]
fn p2wsh_address_program_length_is_rejected() {
    let redeem = bitcoin::ScriptBuf::from_bytes(vec![0x51]);
    let addr = bitcoin::Address::p2wsh(&redeem, bitcoin::Network::Bitcoin);
    let text = addr.to_string();
    let e = build(1, Recipient::Address(text.as_bytes().to_vec())).unwrap_err();
    assert_eq!(e, OutputError::BadAddressRecipient);
}

#[test]
fn taproot_address_program_is_not_a_point_encoding() {
    let secp = bitcoin::secp256k1::Secp256k1::new();
    let pk = bitcoin::PublicKey::from_slice(&hex(GEN_COMPRESSED)).unwrap();
    let xonly = bitcoin::secp256k1::XOnlyPublicKey::from(pk.inner);
    let addr = bitcoin::Address::p2tr(&secp, xonly, None, bitcoin::Network::Bitcoin);
    let e = build(1, Recipient::Address(addr.to_string().as_bytes().to_vec())).unwrap_err();
    assert_eq!(e, OutputError::InvalidPublicKey);
}

#[test]
fn unparsable_address_text_fails() {
    let e = build(1, Recipient::Address(b"not an address".to_vec())).unwrap_err();
    assert_eq!(e, OutputError::BadAddressRecipient);
    let e = build(1, Recipient::Address(vec![0xff, 0xfe])).unwrap_err();
    assert_eq!(e, OutputError::BadAddressRecipient);
}

#[test]
fn testnet_address_is_rejected() {
    let e = build(
        1,
        Recipient::Address(b"tb1qw508d6qejxtdg4y5r3zarvary0c5xw7kxpjzsx".to_vec()),
    )
    .unwrap_err();
    assert_eq!(e, OutputError::BadAddressRecipient);
}

#[test]
fn resolver_yields_p2pkh_variant() {
    let o = output_from_address(77, "1BitcoinEaterAddressDontSendf59kuE".as_bytes()).unwrap();
    assert_eq!(o.amount, 77);
    match o.recipient {
        Recipient::Builder(BuilderVariant::P2pkh(PubkeyOrHash::Hash(h))) => {
            assert_eq!(h.len(), 20)
        },
        _ => panic!("expected a P2PKH hash variant"),
    }
}

#[test]
fn resolve_payload_maps_witness_versions() {
    let o = resolve_payload(
        1,
        AddressPayload::Witness { version: 0, program: vec![0u8; 20] },
    )
    .unwrap();
    assert!(matches!(
        o.recipient,
        Recipient::Builder(BuilderVariant::P2wpkh(PubkeyOrHash::Hash(_)))
    ));
    let e = resolve_payload(
        1,
        AddressPayload::Witness { version: 0, program: vec![0u8; 32] },
    )
    .unwrap_err();
    assert_eq!(e, OutputError::BadAddressRecipient);
    let o = resolve_payload(
        1,
        AddressPayload::Witness { version: 1, program: vec![0u8; 32] },
    )
    .unwrap();
    assert!(matches!(
        o.recipient,
        Recipient::Builder(BuilderVariant::P2trKeyPath(_))
    ));
    let e = resolve_payload(
        1,
        AddressPayload::Witness { version: 2, program: vec![0u8; 32] },
    )
    .unwrap_err();
    assert_eq!(e, OutputError::UnsupportedAddressRecipient);
    let e = resolve_payload(1, AddressPayload::ScriptHash(vec![0u8; 20])).unwrap_err();
    assert_eq!(e, OutputError::UnsupportedAddressRecipient);
}

#[test]
fn build_output_is_deterministic() {
    let make = || {
        build(
            123,
            Recipient::Builder(BuilderVariant::OrdinalInscribe {
                inscribe_to: hex(GEN_COMPRESSED),
                mime_type: b"text/plain".to_vec(),
                payload: b"hello".to_vec(),
            }),
        )
        .unwrap()
    };
    let a = make();
    let b = make();
    assert_eq!(a.value, b.value);
    assert_eq!(a.script_pubkey, b.script_pubkey);
    assert_eq!(a.control_block, b.control_block);
    assert_eq!(a.taproot_payload, b.taproot_payload);
}
