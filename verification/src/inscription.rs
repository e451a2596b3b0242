//! The inscription engine: taproot leaf scripts that embed a payload in a
//! commit/reveal envelope, for ordinal (MIME-typed) inscriptions and BRC20
//! token transfers.
//!
//! An envelope is a tapscript of the form
//! `<x-only key> OP_CHECKSIG OP_FALSE OP_IF "ord" <1> <mime type> <0>
//! <payload, pushed in chunks of at most 520 bytes> OP_ENDIF`.
//! A BRC20 transfer is the same envelope around a fixed JSON document
//! carrying the ticker and the transferred amount as a decimal string,
//! under the `text/plain;charset=utf-8` MIME type.

use vstd::prelude::*;

use crate::script::{append_push, push_encoding};

verus! {

/// The payload pushes of an envelope: the payload split into chunks of at
/// most 520 bytes, each chunk pushed on its own; nothing for an empty
/// payload.
pub open spec fn chunked_pushes(data: Seq<u8>) -> Seq<u8>
    decreases data.len(),
{
    if data.len() == 0 {
        Seq::empty()
    } else if data.len() <= 520 {
        push_encoding(data)
    } else {
        push_encoding(data.take(520)) + chunked_pushes(data.skip(520))
    }
}

/// The envelope leaf script for an x-only internal key, a MIME type and a
/// payload.
pub open spec fn ordinal_envelope(x_only: Seq<u8>, mime_type: Seq<u8>, payload: Seq<u8>) -> Seq<
    u8,
> {
    push_encoding(x_only) + seq![0xacu8, 0x00u8, 0x63u8] + push_encoding(
        seq![0x6fu8, 0x72u8, 0x64u8],
    ) + push_encoding(seq![0x01u8]) + push_encoding(mime_type) + push_encoding(Seq::empty())
        + chunked_pushes(payload) + seq![0x68u8]
}

/// The decimal digits of `n`, most significant first, as ASCII bytes.
pub open spec fn decimal_digits(n: u64) -> Seq<u8>
    decreases n,
{
    if n < 10 {
        seq![(0x30 + n) as u8]
    } else {
        decimal_digits((n / 10) as u64) + seq![(0x30 + n % 10) as u8]
    }
}

/// The MIME type of a BRC20 transfer payload: `text/plain;charset=utf-8`.
pub open spec fn brc20_mime() -> Seq<u8> {
    seq![
        0x74u8, 0x65u8, 0x78u8, 0x74u8, 0x2fu8, 0x70u8, 0x6cu8, 0x61u8, 0x69u8, 0x6eu8, 0x3bu8,
        0x63u8, 0x68u8, 0x61u8, 0x72u8, 0x73u8, 0x65u8, 0x74u8, 0x3du8, 0x75u8, 0x74u8, 0x66u8,
        0x2du8, 0x38u8,
    ]
}

/// The BRC20 transfer document:
/// `{"p":"brc-20","op":"transfer","tick":"<ticker>","amt":"<amount>"}`.
pub open spec fn brc20_payload(ticker: Seq<u8>, amount: u64) -> Seq<u8> {
    seq![
        0x7bu8, 0x22u8, 0x70u8, 0x22u8, 0x3au8, 0x22u8, 0x62u8, 0x72u8, 0x63u8, 0x2du8, 0x32u8,
        0x30u8, 0x22u8, 0x2cu8, 0x22u8, 0x6fu8, 0x70u8, 0x22u8, 0x3au8, 0x22u8, 0x74u8, 0x72u8,
        0x61u8, 0x6eu8, 0x73u8, 0x66u8, 0x65u8, 0x72u8, 0x22u8, 0x2cu8, 0x22u8, 0x74u8, 0x69u8,
        0x63u8, 0x6bu8, 0x22u8, 0x3au8, 0x22u8,
    ] + ticker + seq![0x22u8, 0x2cu8, 0x22u8, 0x61u8, 0x6du8, 0x74u8, 0x22u8, 0x3au8, 0x22u8]
        + decimal_digits(amount) + seq![0x22u8, 0x7du8]
}

/// The envelope leaf script of a BRC20 transfer.
pub open spec fn brc20_envelope(x_only: Seq<u8>, ticker: Seq<u8>, amount: u64) -> Seq<u8> {
    ordinal_envelope(x_only, brc20_mime(), brc20_payload(ticker, amount))
}

/// Appends the payload of an envelope as pushes of at most 520 bytes each.
pub fn append_chunked(out: &mut Vec<u8>, data: &[u8])
    ensures
        final(out)@ == old(out)@ + chunked_pushes(data@),
    decreases data@.len(),
{
    if data.len() == 0 {
    } else if data.len() <= 520 {
        append_push(out, data);
    } else {
        let head = vstd::slice::slice_subrange(data, 0, 520);
        append_push(out, head);
        let tail = vstd::slice::slice_subrange(data, 520, data.len());
        append_chunked(out, tail);
        proof {
            assert(data@.take(520) == data@.subrange(0, 520));
            assert(data@.skip(520) == data@.subrange(520, data@.len() as int));
        }
    }
}

/// Assembles the envelope leaf script.
pub fn build_ordinal_envelope(x_only: &Vec<u8>, mime_type: &Vec<u8>, payload: &Vec<u8>) -> (r: Vec<
    u8,
>)
    ensures
        r@ == ordinal_envelope(x_only@, mime_type@, payload@),
{
    let mut r: Vec<u8> = Vec::new();
    append_push(&mut r, x_only.as_slice());
    r.push(0xac);
    r.push(0x00);
    r.push(0x63);
    let tag: [u8; 3] = [0x6f, 0x72, 0x64];
    append_push(&mut r, tag.as_slice());
    let one: [u8; 1] = [0x01];
    append_push(&mut r, one.as_slice());
    append_push(&mut r, mime_type.as_slice());
    let empty: [u8; 0] = [];
    append_push(&mut r, empty.as_slice());
    append_chunked(&mut r, payload.as_slice());
    r.push(0x68);
    proof {
        assert(tag@ =~= seq![0x6fu8, 0x72u8, 0x64u8]);
        assert(one@ =~= seq![0x01u8]);
        assert(empty@ =~= Seq::<u8>::empty());
        assert(r@ =~= ordinal_envelope(x_only@, mime_type@, payload@));
    }
    r
}

/// Formats `n` in decimal, most significant digit first.
pub fn decimal(n: u64) -> (r: Vec<u8>)
    ensures
        r@ == decimal_digits(n),
    decreases n,
{
    if n < 10 {
        let mut r: Vec<u8> = Vec::new();
        r.push(0x30 + n as u8);
        proof {
            assert(r@ =~= decimal_digits(n));
        }
        r
    } else {
        let mut r = decimal(n / 10);
        r.push(0x30 + (n % 10) as u8);
        proof {
            assert(r@ =~= decimal_digits(n));
        }
        r
    }
}

/// Assembles the BRC20 transfer document for a ticker and an amount.
pub fn build_brc20_payload(ticker: &Vec<u8>, amount: u64) -> (r: Vec<u8>)
    ensures
        r@ == brc20_payload(ticker@, amount),
{
    let prefix: [u8; 38] = [
        0x7b, 0x22, 0x70, 0x22, 0x3a, 0x22, 0x62, 0x72, 0x63, 0x2d, 0x32, 0x30, 0x22, 0x2c, 0x22,
        0x6f, 0x70, 0x22, 0x3a, 0x22, 0x74, 0x72, 0x61, 0x6e, 0x73, 0x66, 0x65, 0x72, 0x22, 0x2c,
        0x22, 0x74, 0x69, 0x63, 0x6b, 0x22, 0x3a, 0x22,
    ];
    let mid: [u8; 9] = [0x22, 0x2c, 0x22, 0x61, 0x6d, 0x74, 0x22, 0x3a, 0x22];
    let suffix: [u8; 2] = [0x22, 0x7d];
    let mut r: Vec<u8> = Vec::new();
    r.extend_from_slice(prefix.as_slice());
    r.extend_from_slice(ticker.as_slice());
    r.extend_from_slice(mid.as_slice());
    let digits = decimal(amount);
    r.extend_from_slice(digits.as_slice());
    r.extend_from_slice(suffix.as_slice());
    proof {
        assert(r@ =~= brc20_payload(ticker@, amount));
    }
    r
}

/// The MIME type bytes of a BRC20 transfer.
fn brc20_mime_bytes() -> (r: Vec<u8>)
    ensures
        r@ == brc20_mime(),
{
    let mime: [u8; 24] = [
        0x74, 0x65, 0x78, 0x74, 0x2f, 0x70, 0x6c, 0x61, 0x69, 0x6e, 0x3b, 0x63, 0x68, 0x61, 0x72,
        0x73, 0x65, 0x74, 0x3d, 0x75, 0x74, 0x66, 0x2d, 0x38,
    ];
    let mut r: Vec<u8> = Vec::new();
    r.extend_from_slice(mime.as_slice());
    proof {
        assert(r@ =~= brc20_mime());
    }
    r
}

/// Assembles the envelope leaf script of a BRC20 transfer.
pub fn build_brc20_envelope(x_only: &Vec<u8>, ticker: &Vec<u8>, amount: u64) -> (r: Vec<u8>)
    ensures
        r@ == brc20_envelope(x_only@, ticker@, amount),
{
    let mime = brc20_mime_bytes();
    let payload = build_brc20_payload(ticker, amount);
    build_ordinal_envelope(x_only, &mime, &payload)
}

/// The control block of a one-leaf script tree: the tapscript leaf version
/// with the output-key parity bit, followed by the internal x-only key.
pub open spec fn control_block(parity: bool, x_only: Seq<u8>) -> Seq<u8> {
    seq![if parity { 0xc1u8 } else { 0xc0u8 }] + x_only
}

/// Assembles the one-leaf control block.
pub fn build_control_block(parity: bool, x_only: &Vec<u8>) -> (r: Vec<u8>)
    ensures
        r@ == control_block(parity, x_only@),
{
    let mut r: Vec<u8> = Vec::new();
    if parity {
        r.push(0xc1);
    } else {
        r.push(0xc0);
    }
    r.extend_from_slice(x_only.as_slice());
    proof {
        assert(r@ =~= control_block(parity, x_only@));
    }
    r
}

} // verus!
