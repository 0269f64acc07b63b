//! The canonical signing and verification rule for add-gateway
//! transactions.
//!
//! The byte sequence that is signed or verified is always the transaction
//! with **all three** signature slots cleared — not only the slot being
//! populated or checked — serialized to its wire form. Because of this,
//! the bytes any one party signs are identical whatever the other slots
//! hold, so multi-party signing is commutative and each slot is
//! independently verifiable; the laws at the end of this module state
//! exactly that.

use crate::crypto::{
    check_key_tag, check_pubkey_tag, keypair_consistent, keypair_pubkey_bytes, keypair_sign,
    keypair_wf, parsable_pubkey, pubkey_verify, pubkey_wf, safe_keypair_tag, sig_verifies,
};
use crate::proto::{clone_bytes, spec_encode_add_gateway, TxnAddGateway, TxnAddGatewayView};
use crate::result::Error;
use vstd::prelude::*;

verus! {

/// One of the three independent signature slots of an add-gateway
/// transaction.
#[derive(Debug, Clone, Copy)]
pub enum SigSlot {
    Owner,
    Payer,
    Gateway,
}

/// The canonical unsigned form of `t`: every signature slot cleared,
/// whichever one is being populated or checked.
pub open spec fn spec_cleared(t: TxnAddGatewayView) -> TxnAddGatewayView {
    TxnAddGatewayView {
        owner_signature: Seq::empty(),
        gateway_signature: Seq::empty(),
        payer_signature: Seq::empty(),
        ..t
    }
}

/// The byte sequence that is signed and verified for `t`: the wire form
/// of its canonical unsigned form.
pub open spec fn spec_signing_bytes(t: TxnAddGatewayView) -> Seq<u8> {
    spec_encode_add_gateway(spec_cleared(t))
}

/// `t` with the contents of one signature slot replaced.
pub open spec fn spec_with_sig(
    t: TxnAddGatewayView,
    slot: SigSlot,
    sig: Seq<u8>,
) -> TxnAddGatewayView {
    match slot {
        SigSlot::Owner => TxnAddGatewayView { owner_signature: sig, ..t },
        SigSlot::Payer => TxnAddGatewayView { payer_signature: sig, ..t },
        SigSlot::Gateway => TxnAddGatewayView { gateway_signature: sig, ..t },
    }
}

impl TxnAddGateway {
    /// The canonical unsigned form: a copy with all three signature slots
    /// cleared.
    pub fn cleared(&self) -> (r: TxnAddGateway)
        ensures
            r@ == spec_cleared(self@),
    {
        TxnAddGateway {
            owner: clone_bytes(&self.owner),
            gateway: clone_bytes(&self.gateway),
            owner_signature: Vec::new(),
            gateway_signature: Vec::new(),
            payer_signature: Vec::new(),
            payer: clone_bytes(&self.payer),
            staking_fee: self.staking_fee,
            fee: self.fee,
        }
    }

    /// The exact bytes that a signature over this transaction covers.
    pub fn signing_bytes(&self) -> (r: Vec<u8>)
        ensures
            r@ == spec_signing_bytes(self@),
    {
        self.cleared().encode()
    }

    /// Signs the canonical unsigned form with the keypair whose binary
    /// form is `keypair`, returning the signature bytes; the transaction
    /// itself is unchanged, and the caller stores the signature into the
    /// slot of its choice. On success the signature verifies against the
    /// signer's public key over this transaction's signing bytes, and
    /// success is owed whenever the bytes are a well-formed keypair of
    /// the accepted key type whose halves match; ill-formed bytes, or a
    /// refused key-type tag, are an error.
    pub fn sign(&self, keypair: &Vec<u8>) -> (r: Result<Vec<u8>, Error>)
        requires
            keypair@.len() > 0,
        ensures
            r matches Ok(sig) ==> keypair_wf(keypair@) && sig_verifies(
                keypair_pubkey_bytes(keypair@),
                spec_signing_bytes(self@),
                sig@,
            ),
            safe_keypair_tag(keypair@[0]) && keypair_wf(keypair@) && keypair_consistent(
                keypair@,
            ) ==> r is Ok,
            !(safe_keypair_tag(keypair@[0]) && keypair_wf(keypair@)) ==> r is Err,
    {
        if !check_key_tag(keypair) {
            return Err(Error::Crypto(String::from_str("unsupported key type")));
        }
        let buf = self.signing_bytes();
        keypair_sign(keypair, &buf)
    }

    /// Checks `signature` over the canonical unsigned form against the
    /// public key whose binary form is `pubkey`. Succeeds exactly when
    /// the key carries an accepted key-type tag, is well formed, and
    /// the signature verifies; a mismatch or a refused key is an error
    /// result, never a crash.
    pub fn verify(&self, pubkey: &Vec<u8>, signature: &Vec<u8>) -> (r: Result<(), Error>)
        ensures
            r is Ok <==> parsable_pubkey(pubkey@) && pubkey_wf(pubkey@) && sig_verifies(
                pubkey@,
                spec_signing_bytes(self@),
                signature@,
            ),
    {
        if !check_pubkey_tag(pubkey) {
            return Err(Error::Crypto(String::from_str("unsupported key type")));
        }
        let buf = self.signing_bytes();
        match pubkey_verify(pubkey, &buf, signature) {
            Ok(true) => Ok(()),
            Ok(false) => Err(Error::Crypto(String::from_str("signature verification failed"))),
            Err(e) => Err(e),
        }
    }
}

/// Law: the canonical unsigned form ignores every signature slot, so the
/// bytes that are signed and verified do not change when any slot is
/// populated — signing order among the parties cannot matter.
pub proof fn lemma_signing_bytes_slot_independent(
    t: TxnAddGatewayView,
    slot: SigSlot,
    sig: Seq<u8>,
)
    ensures
        spec_signing_bytes(spec_with_sig(t, slot, sig)) == spec_signing_bytes(t),
{
    assert(spec_cleared(spec_with_sig(t, slot, sig)) == spec_cleared(t));
}

/// Law: a signature produced for a transaction verifies in whichever slot
/// it is stored into, against the signer's public key — signing via a
/// slot and then verifying that slot succeeds.
pub proof fn lemma_sign_then_verify(
    t: TxnAddGatewayView,
    slot: SigSlot,
    kb: Seq<u8>,
    sig: Seq<u8>,
)
    requires
        sig_verifies(keypair_pubkey_bytes(kb), spec_signing_bytes(t), sig),
    ensures
        sig_verifies(
            keypair_pubkey_bytes(kb),
            spec_signing_bytes(spec_with_sig(t, slot, sig)),
            sig,
        ),
{
    lemma_signing_bytes_slot_independent(t, slot, sig);
}

/// Law: populating two slots independently — each signature computed over
/// the canonical unsigned form — leaves any signature's verification
/// outcome exactly what it was before either slot was filled, so each
/// slot verifies in isolation regardless of the other slots' contents.
pub proof fn lemma_multi_slot_independence(
    t: TxnAddGatewayView,
    slot1: SigSlot,
    sig1: Seq<u8>,
    slot2: SigSlot,
    sig2: Seq<u8>,
    pb: Seq<u8>,
    sig: Seq<u8>,
)
    ensures
        sig_verifies(
            pb,
            spec_signing_bytes(spec_with_sig(spec_with_sig(t, slot1, sig1), slot2, sig2)),
            sig,
        ) == sig_verifies(pb, spec_signing_bytes(t), sig),
{
    lemma_signing_bytes_slot_independent(t, slot1, sig1);
    lemma_signing_bytes_slot_independent(spec_with_sig(t, slot1, sig1), slot2, sig2);
}

} // verus!
