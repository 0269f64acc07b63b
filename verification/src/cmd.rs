//! The computations behind the command surface: building a signed
//! add-gateway transaction, reporting the device's public key, and
//! verifying a received transaction.

use crate::b64::{ascii_chars, ascii_to_string, b64_decode, b64_decoded, b64_encode, b64_of};
use crate::crypto::{
    check_key_tag, check_pubkey_tag, keypair_consistent, keypair_pubkey_bytes, keypair_wf,
    keypair_public_bytes, parsable_pubkey, pubkey_string_of, pubkey_to_string, pubkey_wf,
    safe_keypair_tag, sig_verifies,
};
use crate::proto::{
    clone_bytes, decode_envelope, lemma_decode_encode_envelope, spec_decode_envelope,
    spec_encode_add_gateway, spec_encode_envelope, DecodedTxn, DecodedTxnView, TxnAddGateway,
    TxnAddGatewayView,
};
use crate::result::{DecodeError, Error};
use crate::txn_sign::{
    lemma_sign_then_verify, lemma_signing_bytes_slot_independent, spec_signing_bytes,
    spec_with_sig, SigSlot,
};
use vstd::prelude::*;

verus! {

/// The output of the add operation: the signer's public key string and
/// the signed, encoded transaction in its transport form.
#[derive(Debug, Clone)]
pub struct AddOutput {
    /// The gateway signer's public key string.
    pub address: String,
    /// The encoded envelope, base64-encoded twice; the double encoding
    /// is kept for wire compatibility.
    pub txn: String,
}

/// The output of the verify operation.
#[derive(Debug, Clone)]
pub struct VerifyOutput {
    /// The embedded gateway public key, in string form.
    pub address: String,
    /// The embedded owner public key, in string form.
    pub owner: String,
    /// Whether the gateway signature checks out.
    pub verify: bool,
}

/// The unsigned add-gateway transaction the add operation builds: the
/// device's public key as gateway, the given owner, everything else
/// empty or zero.
pub open spec fn spec_new_add_txn(gateway: Seq<u8>, owner: Seq<u8>) -> TxnAddGatewayView {
    TxnAddGatewayView {
        owner: owner,
        gateway: gateway,
        owner_signature: Seq::empty(),
        gateway_signature: Seq::empty(),
        payer: Seq::empty(),
        payer_signature: Seq::empty(),
        staking_fee: 0,
        fee: 0,
    }
}

/// Builds and signs an add-gateway transaction, the device keypair (in
/// binary form) as gateway signer: the signature is computed over the
/// canonical unsigned form and stored into the gateway slot alone,
/// owner and payer slots left empty. The output's address is the
/// signer's public key string; its transaction is the encoded
/// envelope, base64-encoded twice, and never empty. Success is owed
/// whenever the keypair is well formed, of the accepted key type, and
/// its halves match — as the file backend's freshly generated keys
/// are; a refused key type or ill-formed bytes are an error.
pub fn add_gateway_output(keypair: &Vec<u8>, owner: &Vec<u8>) -> (r: Result<AddOutput, Error>)
    requires
        keypair@.len() > 0,
    ensures
        r matches Ok(o) ==> o.txn@.len() > 0,
        safe_keypair_tag(keypair@[0]) && keypair_wf(keypair@) && keypair_consistent(keypair@)
            ==> r is Ok,
        !(safe_keypair_tag(keypair@[0]) && keypair_wf(keypair@)) ==> r is Err,
        r matches Ok(o) ==> keypair_wf(keypair@) && (exists|sig: Seq<u8>|
            #![trigger spec_with_sig(spec_new_add_txn(keypair_pubkey_bytes(keypair@), owner@), SigSlot::Gateway, sig)]
            {
                let t = spec_with_sig(
                    spec_new_add_txn(keypair_pubkey_bytes(keypair@), owner@),
                    SigSlot::Gateway,
                    sig,
                );
                &&& sig_verifies(keypair_pubkey_bytes(keypair@), spec_signing_bytes(t), sig)
                &&& o.txn@ == ascii_chars(b64_of(b64_of(spec_encode_envelope(t))))
                &&& o.address@ == pubkey_string_of(keypair_pubkey_bytes(keypair@))
            }),
{
    if !check_key_tag(keypair) {
        return Err(Error::Crypto(String::from_str("unsupported key type")));
    }
    let gw = match keypair_public_bytes(keypair) {
        Ok(g) => g,
        Err(e) => { return Err(e) },
    };
    let mut txn = TxnAddGateway::new_empty();
    txn.gateway = gw;
    txn.owner = clone_bytes(owner);
    proof {
        assert(txn@ == spec_new_add_txn(keypair_pubkey_bytes(keypair@), owner@));
    }
    let sig = match txn.sign(keypair) {
        Ok(s) => s,
        Err(e) => { return Err(e) },
    };
    let ghost unsigned = txn@;
    txn.gateway_signature = sig;
    proof {
        assert(txn@ == spec_with_sig(unsigned, SigSlot::Gateway, txn@.gateway_signature));
        lemma_signing_bytes_slot_independent(unsigned, SigSlot::Gateway, txn@.gateway_signature);
    }
    let env = txn.encode_envelope();
    proof {
        assert(crate::proto::spec_key(9, 2) == seq![74u8]);
        assert(env@.len() >= 1);
    }
    let b1 = b64_encode(&env);
    let b2 = b64_encode(&b1);
    let txn_s = ascii_to_string(&b2);
    proof {
        assert(txn_s@.len() == b2@.len());
    }
    let address = match pubkey_to_string(&txn.gateway) {
        Ok(a) => a,
        Err(e) => { return Err(e) },
    };
    Ok(AddOutput { address, txn: txn_s })
}

/// The info operation's key report: the public key string of the
/// device's keypair, given in binary form. Fails exactly when the
/// bytes carry a key-type tag other than the accepted ed25519 one or
/// are not a well-formed keypair.
pub fn info_public_key(keypair: &Vec<u8>) -> (r: Result<String, Error>)
    requires
        keypair@.len() > 0,
    ensures
        r is Ok <==> safe_keypair_tag(keypair@[0]) && keypair_wf(keypair@),
        r matches Ok(s) ==> s@ == pubkey_string_of(keypair_pubkey_bytes(keypair@)),
{
    if !check_key_tag(keypair) {
        return Err(Error::Crypto(String::from_str("unsupported key type")));
    }
    let pb = match keypair_public_bytes(keypair) {
        Ok(p) => p,
        Err(e) => { return Err(e) },
    };
    pubkey_to_string(&pb)
}

/// A transaction received for verification, decoded from its transport
/// form.
#[derive(Debug, Clone)]
pub struct Transaction(pub DecodedTxn);

/// Decodes a received transaction's transport form: base64, then the
/// envelope wire form. Each malformed layer is a decode error.
pub fn parse_transaction(s: &str) -> (r: Result<Transaction, Error>)
    ensures
        (match b64_decoded(s@) {
            None => r matches Err(Error::Decode(DecodeError::InvalidTransaction(_))),
            Some(bytes) => match spec_decode_envelope(bytes) {
                None => r matches Err(Error::Decode(DecodeError::InvalidTransaction(_))),
                Some(d) => r matches Ok(t) && t.0@ == d,
            },
        }),
        r is Ok <==> (b64_decoded(s@) matches Some(bytes) && spec_decode_envelope(bytes)
            is Some),
{
    let bytes = match b64_decode(s) {
        Ok(b) => b,
        Err(e) => { return Err(e) },
    };
    match decode_envelope(&bytes) {
        Ok(d) => Ok(Transaction(d)),
        Err(e) => Err(e),
    }
}

impl core::str::FromStr for Transaction {
    type Err = Error;

    fn from_str(s: &str) -> Result<Transaction, Error> {
        parse_transaction(s)
    }
}

/// Verifies a received transaction. Any variant other than add-gateway
/// is an invalid-transaction-type error, never a crash. For an
/// add-gateway transaction, the gateway signature is checked against
/// the embedded gateway public key over the canonical unsigned form; a
/// mismatch is `verify: false`, not an error, and only an ill-formed
/// embedded public key — or one of the refused secp256k1 and RSA key
/// types, whose external parsers can crash on crafted bytes — is one.
pub fn verify_output(t: &Transaction) -> (r: Result<VerifyOutput, Error>)
    ensures
        t.0@ is Unsupported ==> r matches Err(Error::InvalidTxnType),
        (match t.0@ {
            DecodedTxnView::AddGateway(txn) => {
                &&& (r is Ok <==> parsable_pubkey(txn.gateway) && pubkey_wf(txn.gateway)
                    && parsable_pubkey(txn.owner) && pubkey_wf(txn.owner))
                &&& (r matches Ok(o) ==> o.address@ == pubkey_string_of(txn.gateway) && o.owner@
                    == pubkey_string_of(txn.owner) && o.verify == sig_verifies(
                    txn.gateway,
                    spec_signing_bytes(txn),
                    txn.gateway_signature,
                ))
            },
            DecodedTxnView::Unsupported => true,
        }),
{
    match &t.0 {
        DecodedTxn::Unsupported => Err(Error::InvalidTxnType),
        DecodedTxn::AddGateway(txn) => {
            if !check_pubkey_tag(&txn.gateway) {
                return Err(Error::Crypto(String::from_str("unsupported key type")));
            }
            if !check_pubkey_tag(&txn.owner) {
                return Err(Error::Crypto(String::from_str("unsupported key type")));
            }
            let address = match pubkey_to_string(&txn.gateway) {
                Ok(a) => a,
                Err(e) => { return Err(e) },
            };
            let owner = match pubkey_to_string(&txn.owner) {
                Ok(a) => a,
                Err(e) => { return Err(e) },
            };
            let verify = match txn.verify(&txn.gateway, &txn.gateway_signature) {
                Ok(()) => true,
                Err(_) => false,
            };
            Ok(VerifyOutput { address, owner, verify })
        },
    }
}

/// Law: the transaction the add operation emits is verifiable as
/// received. For the signed transaction the add operation builds — the
/// signer's public key as gateway, the given owner, and a signature
/// over the canonical unsigned form stored in the gateway slot — the
/// encoded envelope decodes back to that very transaction, and its
/// gateway signature verifies against the signer's public key over the
/// re-derived canonical form. The byte-field bounds are the wire
/// codec's.
pub proof fn lemma_add_output_verifies(kb: Seq<u8>, owner: Seq<u8>, sig: Seq<u8>)
    requires
        sig_verifies(
            keypair_pubkey_bytes(kb),
            spec_signing_bytes(spec_new_add_txn(keypair_pubkey_bytes(kb), owner)),
            sig,
        ),
        keypair_pubkey_bytes(kb).len() <= u64::MAX,
        owner.len() <= u64::MAX,
        sig.len() <= u64::MAX,
        spec_encode_add_gateway(
            spec_with_sig(
                spec_new_add_txn(keypair_pubkey_bytes(kb), owner),
                SigSlot::Gateway,
                sig,
            ),
        ).len() <= u64::MAX,
    ensures
        ({
            let t = spec_with_sig(
                spec_new_add_txn(keypair_pubkey_bytes(kb), owner),
                SigSlot::Gateway,
                sig,
            );
            &&& spec_decode_envelope(spec_encode_envelope(t)) == Some(
                DecodedTxnView::AddGateway(t),
            )
            &&& t.gateway == keypair_pubkey_bytes(kb)
            &&& sig_verifies(t.gateway, spec_signing_bytes(t), t.gateway_signature)
        }),
{
    let t = spec_with_sig(
        spec_new_add_txn(keypair_pubkey_bytes(kb), owner),
        SigSlot::Gateway,
        sig,
    );
    lemma_sign_then_verify(
        spec_new_add_txn(keypair_pubkey_bytes(kb), owner),
        SigSlot::Gateway,
        kb,
        sig,
    );
    lemma_decode_encode_envelope(t);
}

} // verus!
