use wallet_core::builder::OutputBuilder;
use wallet_core::inscription::decimal;
use wallet_core::script::append_push;
use wallet_core::types::{BuilderVariant, Output, OutputError, Recipient};

fn hex(s: &str) -> Vec<u8> {
    let b = s.as_bytes();
    let mut out = Vec::new();
    let mut i = 0;
    while i + 1 < b.len() {
        let d = |c: u8| -> u8 {
            match c {
                b'0'..=b'9' => c - b'0',
                b'a'..=b'f' => c - b'a' + 10,
                _ => panic!("not hex"),
            }
        };
        out.push(d(b[i]) * 16 + d(b[i + 1]));
        i += 2;
    }
    out
}

const GEN_COMPRESSED: &str = "0279be667ef9dcbbac55a06295ce870b07029bfcdb2dce28d959f2815b16f81798";
const GEN_X_ONLY: &str = "79be667ef9dcbbac55a06295ce870b07029bfcdb2dce28d959f2815b16f81798";

/// The envelope this crate documents: key, checksig, then the `ord`
/// protocol frame around the MIME type and the chunked payload.
fn expected_envelope(x_only: &[u8], mime: &[u8], payload: &[u8]) -> Vec<u8> {
    let mut s = Vec::new();
    append_push(&mut s, x_only);
    s.extend_from_slice(&[0xac, 0x00, 0x63]);
    append_push(&mut s, b"ord");
    append_push(&mut s, &[0x01]);
    append_push(&mut s, mime);
    append_push(&mut s, &[]);
    let mut rest = payload;
    while !rest.is_empty() {
        let n = rest.len().min(520);
        append_push(&mut s, &rest[..n]);
        rest = &rest[n..];
    }
    s.push(0x68);
    s
}

fn build(amount: u64, recipient: Recipient) -> Result<wallet_core::types::TxOut, OutputError> {
    OutputBuilder::utxo_from_proto(&Output { amount, recipient })
}

#[test]
fn push_encodings_are_minimal() {
    let mut s = Vec::new();
    append_push(&mut s, &[0xaa; 5]);
    assert_eq!(s[0], 5);
    assert_eq!(s.len(), 6);
    let mut s = Vec::new();
    append_push(&mut s, &[0xaa; 76]);
    assert_eq!(&s[..2], &[0x4c, 76]);
    assert_eq!(s.len(), 78);
    let mut s = Vec::new();
    append_push(&mut s, &[0xaa; 300]);
    assert_eq!(&s[..3], &[0x4d, 0x2c, 0x01]);
    assert_eq!(s.len(), 303);
    let mut s = Vec::new();
    append_push(&mut s, &[]);
    assert_eq!(s, vec![0x00]);
}

#[test]
fn decimal_formats_exactly() {
    assert_eq!(decimal(0), b"0".to_vec());
    assert_eq!(decimal(7), b"7".to_vec());
    assert_eq!(decimal(12345), b"12345".to_vec());
    assert_eq!(decimal(u64::MAX), b"18446744073709551615".to_vec());
}

#[test]
fn ordinal_inscription_payload_is_the_envelope() {
    let t = build(
        123,
        Recipient::Builder(BuilderVariant::OrdinalInscribe {
            inscribe_to: hex(GEN_COMPRESSED),
            mime_type: b"text/plain".to_vec(),
            payload: b"hello".to_vec(),
        }),
    )
    .unwrap();
    let expected = expected_envelope(&hex(GEN_X_ONLY), b"text/plain", b"hello");
    assert_eq!(t.taproot_payload, Some(expected));
}

#[test]
fn ordinal_inscription_matches_reference_spend_info() {
    let t = build(
        123,
        Recipient::Builder(BuilderVariant::OrdinalInscribe {
            inscribe_to: hex(GEN_COMPRESSED),
            mime_type: b"image/png".to_vec(),
            payload: vec![0x42; 1000],
        }),
    )
    .unwrap();
    let leaf = bitcoin::ScriptBuf::from_bytes(t.taproot_payload.clone().unwrap());
    let secp = bitcoin::secp256k1::Secp256k1::new();
    let xonly = bitcoin::secp256k1::XOnlyPublicKey::from_slice(&hex(GEN_X_ONLY)).unwrap();
    let spend_info = bitcoin::taproot::TaprootBuilder::new()
        .add_leaf(0, leaf.clone())
        .unwrap()
        .finalize(&secp, xonly)
        .unwrap();
    let expected_script =
        bitcoin::ScriptBuf::new_v1_p2tr(&secp, xonly, spend_info.merkle_root());
    assert_eq!(t.script_pubkey, expected_script.as_bytes().to_vec());
    let expected_cb = spend_info
        .control_block(&(leaf, bitcoin::taproot::LeafVersion::TapScript))
        .unwrap()
        .serialize();
    assert_eq!(t.control_block, Some(expected_cb));
}

#[test]
fn large_payload_is_chunked() {
    let t = build(
        1,
        Recipient::Builder(BuilderVariant::OrdinalInscribe {
            inscribe_to: hex(GEN_COMPRESSED),
            mime_type: b"application/octet-stream".to_vec(),
            payload: vec![0x11; 1300],
        }),
    )
    .unwrap();
    let expected = expected_envelope(
        &hex(GEN_X_ONLY),
        b"application/octet-stream",
        &vec![0x11; 1300],
    );
    assert_eq!(t.taproot_payload, Some(expected));
}

#[test]
fn empty_payload_and_mime_type_still_frame() {
    let t = build(
        u64::MAX,
        Recipient::Builder(BuilderVariant::OrdinalInscribe {
            inscribe_to: hex(GEN_COMPRESSED),
            mime_type: vec![],
            payload: vec![],
        }),
    )
    .unwrap();
    assert_eq!(t.value, u64::MAX);
    let expected = expected_envelope(&hex(GEN_X_ONLY), &[], &[]);
    assert_eq!(t.taproot_payload, Some(expected));
}

#[test]
fn brc20_transfer_document_is_exact() {
    let t = build(
        5,
        Recipient::Builder(BuilderVariant::Brc20Inscribe {
            inscribe_to: hex(GEN_COMPRESSED),
            ticker: b"oadf".to_vec(),
            transfer_amount: 20,
        }),
    )
    .unwrap();
    let doc = br#"{"p":"brc-20","op":"transfer","tick":"oadf","amt":"20"}"#;
    let expected = expected_envelope(&hex(GEN_X_ONLY), b"text/plain;charset=utf-8", doc);
    assert_eq!(t.taproot_payload, Some(expected));
    assert_eq!(t.value, 5);
    assert!(t.control_block.is_some());
}

#[test]
fn brc20_ticker_must_be_four_bytes() {
    for bad in [&b"abc"[..], &b"abcde"[..], &b""[..]] {
        let e = build(
            5,
            Recipient::Builder(BuilderVariant::Brc20Inscribe {
                inscribe_to: hex(GEN_COMPRESSED),
                ticker: bad.to_vec(),
                transfer_amount: 1,
            }),
        )
        .unwrap_err();
        assert_eq!(e, OutputError::InvalidBrc20Ticker);
    }
}

#[test]
fn brc20_checks_the_key_before_the_ticker() {
    let e = build(
        5,
        Recipient::Builder(BuilderVariant::Brc20Inscribe {
            inscribe_to: vec![0u8; 33],
            ticker: b"abc".to_vec(),
            transfer_amount: 1,
        }),
    )
    .unwrap_err();
    assert_eq!(e, OutputError::InvalidPublicKey);
}

#[test]
fn inscription_control_block_carries_the_internal_key() {
    let t = build(
        9,
        Recipient::Builder(BuilderVariant::Brc20Inscribe {
            inscribe_to: hex(GEN_COMPRESSED),
            ticker: b"ordi".to_vec(),
            transfer_amount: 1000,
        }),
    )
    .unwrap();
    let cb = t.control_block.unwrap();
    assert_eq!(cb.len(), 33);
    assert!(cb[0] == 0xc0 || cb[0] == 0xc1);
    assert_eq!(&cb[1..], &hex(GEN_X_ONLY)[..]);
}
