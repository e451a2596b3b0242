//! Byte-exact assembly of spending-condition scripts.
//!
//! Each script template is stated as a spec function over byte sequences and
//! assembled by a verified executable function whose contract pins the
//! produced bytes to the template.

use vstd::prelude::*;

verus! {

/// `OP_DUP OP_HASH160 <20-byte hash> OP_EQUALVERIFY OP_CHECKSIG`.
pub open spec fn p2pkh_script(hash: Seq<u8>) -> Seq<u8> {
    seq![0x76u8, 0xa9u8, 0x14u8] + hash + seq![0x88u8, 0xacu8]
}

/// `OP_HASH160 <20-byte hash> OP_EQUAL`.
pub open spec fn p2sh_script(hash: Seq<u8>) -> Seq<u8> {
    seq![0xa9u8, 0x14u8] + hash + seq![0x87u8]
}

/// `OP_0 <program>`: a segwit version-0 witness program of 20 or 32 bytes.
pub open spec fn witness_v0_script(program: Seq<u8>) -> Seq<u8> {
    seq![0x00u8, program.len() as u8] + program
}

/// `OP_1 <32-byte output key>`: a taproot (witness version 1) output.
pub open spec fn p2tr_script(output_key: Seq<u8>) -> Seq<u8> {
    seq![0x51u8, 0x20u8] + output_key
}

/// The script push of `data`: the shortest opcode sequence that leaves
/// `data` on the stack, as Bitcoin script defines it.  (For data of
/// 2^32 bytes or more — beyond anything a script can hold — the four
/// length bytes wrap around.)
pub open spec fn push_encoding(data: Seq<u8>) -> Seq<u8> {
    if data.len() < 0x4c {
        seq![data.len() as u8] + data
    } else if data.len() <= 0xff {
        seq![0x4cu8, data.len() as u8] + data
    } else if data.len() <= 0xffff {
        seq![0x4du8, (data.len() % 0x100) as u8, (data.len() / 0x100) as u8] + data
    } else {
        seq![
            0x4eu8,
            (data.len() % 0x100) as u8,
            (data.len() / 0x100 % 0x100) as u8,
            (data.len() / 0x10000 % 0x100) as u8,
            (data.len() / 0x1000000 % 0x100) as u8,
        ] + data
    }
}

/// Appends the minimal push of `data` to `out`.
pub fn append_push(out: &mut Vec<u8>, data: &[u8])
    ensures
        final(out)@ == old(out)@ + push_encoding(data@),
{
    let n: usize = data.len();
    if n < 0x4c {
        out.push(n as u8);
    } else if n <= 0xff {
        out.push(0x4c);
        out.push(n as u8);
    } else if n <= 0xffff {
        out.push(0x4d);
        out.push((n % 0x100) as u8);
        out.push((n / 0x100) as u8);
    } else {
        out.push(0x4e);
        out.push((n % 0x100) as u8);
        out.push((n / 0x100 % 0x100) as u8);
        out.push((n / 0x10000 % 0x100) as u8);
        out.push((n / 0x1000000 % 0x100) as u8);
    }
    out.extend_from_slice(data);
    proof {
        assert(out@ =~= old(out)@ + push_encoding(data@));
    }
}

/// Assembles the P2PKH script for a 20-byte public-key hash.
pub fn new_p2pkh(hash: &[u8]) -> (r: Vec<u8>)
    requires
        hash@.len() == 20,
    ensures
        r@ == p2pkh_script(hash@),
{
    let mut r: Vec<u8> = Vec::new();
    r.push(0x76);
    r.push(0xa9);
    r.push(0x14);
    r.extend_from_slice(hash);
    r.push(0x88);
    r.push(0xac);
    proof {
        assert(r@ =~= p2pkh_script(hash@));
    }
    r
}

/// Assembles the P2SH script for a 20-byte script hash.
pub fn new_p2sh(hash: &[u8]) -> (r: Vec<u8>)
    requires
        hash@.len() == 20,
    ensures
        r@ == p2sh_script(hash@),
{
    let mut r: Vec<u8> = Vec::new();
    r.push(0xa9);
    r.push(0x14);
    r.extend_from_slice(hash);
    r.push(0x87);
    proof {
        assert(r@ =~= p2sh_script(hash@));
    }
    r
}

/// Assembles the segwit version-0 script for a 20- or 32-byte program.
pub fn new_witness_v0(program: &[u8]) -> (r: Vec<u8>)
    requires
        program@.len() == 20 || program@.len() == 32,
    ensures
        r@ == witness_v0_script(program@),
{
    let mut r: Vec<u8> = Vec::new();
    r.push(0x00);
    r.push(program.len() as u8);
    r.extend_from_slice(program);
    proof {
        assert(r@ =~= witness_v0_script(program@));
    }
    r
}

/// Assembles the taproot script for a 32-byte output key.
pub fn new_p2tr(output_key: &[u8]) -> (r: Vec<u8>)
    requires
        output_key@.len() == 32,
    ensures
        r@ == p2tr_script(output_key@),
{
    let mut r: Vec<u8> = Vec::new();
    r.push(0x51);
    r.push(0x20);
    r.extend_from_slice(output_key);
    proof {
        assert(r@ =~= p2tr_script(output_key@));
    }
    r
}

} // verus!
