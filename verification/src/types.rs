//! The data model of the output builder: the caller's description of a
//! desired transaction output, the produced output record, and the closed
//! set of failure codes.

use vstd::prelude::*;

verus! {

/// The closed set of failure codes returned by the output builder and the
/// address resolver.  Every failure is fatal and surfaced to the caller;
/// nothing is retried.
#[derive(Clone, Copy, Debug, PartialEq, Eq, Structural)]
pub enum OutputError {
    /// No recipient was set on the output, or a nested script/pubkey choice
    /// was left unset.
    MissingRecipient,
    /// The builder recipient carried no variant.
    MissingBuilderVariant,
    /// A directly supplied legacy redeem-script hash was not 20 bytes.
    InvalidRedeemScript,
    /// A directly supplied witness redeem-script hash was not 32 bytes.
    InvalidWitnessRedeemScript,
    /// A directly supplied public-key hash was not 20 bytes.
    InvalidPubkeyHash,
    /// A directly supplied witness public-key hash was not 20 bytes, or the
    /// supplied public key was not in compressed form.
    InvalidWitnessPubkeyHash,
    /// The supplied public-key bytes do not encode a valid secp256k1 point.
    InvalidPublicKey,
    /// The supplied taproot merkle node hash was not 32 bytes.
    InvalidTaprootRoot,
    /// A BRC20 ticker was not exactly four bytes long.
    InvalidBrc20Ticker,
    /// The address text did not parse, or its decoded witness program has a
    /// length its version does not allow.
    BadAddressRecipient,
    /// The address decodes to a payload kind this builder does not map
    /// (script-hash payloads and witness versions above one).
    UnsupportedAddressRecipient,
}

/// A legacy redeem script, or its precomputed 20-byte HASH160.
#[derive(Debug)]
pub enum ScriptOrHash {
    /// A precomputed script hash; must be exactly 20 bytes.
    Hash(Vec<u8>),
    /// The redeem script itself; the builder hashes it.
    RedeemScript(Vec<u8>),
    /// Nothing was supplied.
    Unset,
}

/// A public key, or its precomputed 20-byte HASH160.
#[derive(Debug)]
pub enum PubkeyOrHash {
    /// A precomputed public-key hash; must be exactly 20 bytes.
    Hash(Vec<u8>),
    /// The public key itself; the builder hashes its encoding.
    Pubkey(Vec<u8>),
    /// Nothing was supplied.
    Unset,
}

/// The spending-condition variants the builder can assemble.
#[derive(Debug)]
pub enum BuilderVariant {
    /// Pay to script hash.
    P2sh(ScriptOrHash),
    /// Pay to public-key hash.
    P2pkh(PubkeyOrHash),
    /// Pay to witness script hash (segwit version 0).
    P2wsh(ScriptOrHash),
    /// Pay to witness public-key hash (segwit version 0).
    P2wpkh(PubkeyOrHash),
    /// Taproot key-path spend from a compressed public key.
    P2trKeyPath(Vec<u8>),
    /// Taproot spend committing to a script-tree merkle root.
    P2trScriptPath {
        /// The internal public key.
        public_key: Vec<u8>,
        /// The 32-byte merkle root of the script tree.
        node_hash: Vec<u8>,
    },
    /// An ordinal inscription envelope revealing a MIME-typed payload.
    OrdinalInscribe {
        /// The internal public key the inscription is committed to.
        inscribe_to: Vec<u8>,
        /// The MIME type of the payload, as UTF-8 bytes.
        mime_type: Vec<u8>,
        /// The inscribed payload bytes.
        payload: Vec<u8>,
    },
    /// A BRC20 transfer inscription envelope.
    Brc20Inscribe {
        /// The internal public key the inscription is committed to.
        inscribe_to: Vec<u8>,
        /// The token ticker; must be exactly four bytes.
        ticker: Vec<u8>,
        /// The amount of tokens transferred.
        transfer_amount: u64,
    },
    /// Nothing was supplied.
    Unset,
}

/// The recipient intent of an output.
#[derive(Debug)]
pub enum Recipient {
    /// Ready script bytes, used verbatim as the `scriptPubkey`.
    ExplicitScript(Vec<u8>),
    /// A spending condition to assemble from parameters.
    Builder(BuilderVariant),
    /// A textual address, as UTF-8 bytes, to resolve first.
    Address(Vec<u8>),
    /// Nothing was supplied.
    Unset,
}

/// The caller's description of one desired transaction output.
#[derive(Debug)]
pub struct Output {
    /// The amount in satoshis.
    pub amount: u64,
    /// Where the amount goes.
    pub recipient: Recipient,
}

/// The produced transaction output: a value, not a stateful object.
#[derive(Debug)]
pub struct TxOut {
    /// The amount in satoshis, copied from the request.
    pub value: u64,
    /// The assembled spending-condition script.
    pub script_pubkey: Vec<u8>,
    /// The control block of an inscription reveal; populated only on
    /// inscription-producing paths.
    pub control_block: Option<Vec<u8>>,
    /// The inscription leaf script; populated only on inscription-producing
    /// paths.
    pub taproot_payload: Option<Vec<u8>>,
}

/// The mathematical value of a [`TxOut`]: the same record over sequences.
pub struct TxOutView {
    /// The amount in satoshis.
    pub value: u64,
    /// The spending-condition script bytes.
    pub script_pubkey: Seq<u8>,
    /// The control block bytes, if any.
    pub control_block: Option<Seq<u8>>,
    /// The inscription leaf script bytes, if any.
    pub taproot_payload: Option<Seq<u8>>,
}

impl View for TxOut {
    type V = TxOutView;

    open spec fn view(&self) -> TxOutView {
        TxOutView {
            value: self.value,
            script_pubkey: self.script_pubkey@,
            control_block: match self.control_block {
                Some(ref b) => Some(b@),
                None => None,
            },
            taproot_payload: match self.taproot_payload {
                Some(ref b) => Some(b@),
                None => None,
            },
        }
    }
}

/// A decoded address payload, as handed back by the address codec.
#[derive(Debug)]
pub enum AddressPayload {
    /// A legacy pay-to-public-key-hash address; carries the 20-byte hash.
    PubkeyHash(Vec<u8>),
    /// A legacy pay-to-script-hash address; carries the 20-byte hash.
    ScriptHash(Vec<u8>),
    /// A segwit or taproot address.
    Witness {
        /// The witness version, between 0 and 16.
        version: u8,
        /// The witness program, between 2 and 40 bytes.
        program: Vec<u8>,
    },
}

/// Well-formedness of a decoded address payload: exactly the shapes the
/// address codec can produce.
pub open spec fn address_payload_wf(p: AddressPayload) -> bool {
    match p {
        AddressPayload::PubkeyHash(h) => h@.len() == 20,
        AddressPayload::ScriptHash(h) => h@.len() == 20,
        AddressPayload::Witness { version, program } => {
            &&& version <= 16
            &&& 2 <= program@.len() <= 40
            &&& (version == 0 ==> program@.len() == 20 || program@.len() == 32)
        },
    }
}

} // verus!
