//! The structured add-gateway transaction message and its deterministic wire
//! codec.
//!
//! The wire form follows the protocol-buffer encoding of the blockchain
//! schema: little-endian base-128 varints, length-delimited byte fields, and
//! fields emitted in ascending field-number order with empty byte fields and
//! zero integers omitted. The add-gateway message carries
//! `owner` (field 1), `gateway` (2), `owner_signature` (3),
//! `gateway_signature` (4), `payer` (5), `payer_signature` (6),
//! `staking_fee` (7) and `fee` (8); the transaction envelope carries the
//! add-gateway message under field 9 of its variant set.

use crate::result::{DecodeError, Error};
use vstd::prelude::*;

verus! {

/// The add-gateway transaction: three public-key byte fields, two fee
/// fields, and exactly three signature-bearing slots.
#[derive(Debug, Clone)]
pub struct TxnAddGateway {
    pub owner: Vec<u8>,
    pub gateway: Vec<u8>,
    pub owner_signature: Vec<u8>,
    pub gateway_signature: Vec<u8>,
    pub payer: Vec<u8>,
    pub payer_signature: Vec<u8>,
    pub staking_fee: u64,
    pub fee: u64,
}

/// The mathematical value of a [`TxnAddGateway`].
#[verifier::ext_equal]
pub ghost struct TxnAddGatewayView {
    pub owner: Seq<u8>,
    pub gateway: Seq<u8>,
    pub owner_signature: Seq<u8>,
    pub gateway_signature: Seq<u8>,
    pub payer: Seq<u8>,
    pub payer_signature: Seq<u8>,
    pub staking_fee: u64,
    pub fee: u64,
}

impl View for TxnAddGateway {
    type V = TxnAddGatewayView;

    open spec fn view(&self) -> TxnAddGatewayView {
        TxnAddGatewayView {
            owner: self.owner@,
            gateway: self.gateway@,
            owner_signature: self.owner_signature@,
            gateway_signature: self.gateway_signature@,
            payer: self.payer@,
            payer_signature: self.payer_signature@,
            staking_fee: self.staking_fee,
            fee: self.fee,
        }
    }
}

/// The little-endian base-128 encoding of `n`: seven value bits per byte,
/// high bit set on every byte but the last.
pub open spec fn spec_varint(n: nat) -> Seq<u8>
    decreases n,
{
    if n < 128 {
        seq![n as u8]
    } else {
        seq![(n % 128 + 128) as u8] + spec_varint(n / 128)
    }
}

/// The key byte sequence of a field: field number shifted over the
/// three-bit wire type.
pub open spec fn spec_key(field: nat, wire: nat) -> Seq<u8> {
    spec_varint(field * 8 + wire)
}

/// A length-delimited byte field; empty contents are omitted entirely.
pub open spec fn spec_bytes_field(field: nat, data: Seq<u8>) -> Seq<u8> {
    if data.len() == 0 {
        Seq::empty()
    } else {
        spec_key(field, 2) + spec_varint(data.len()) + data
    }
}

/// A varint integer field; a zero value is omitted entirely.
pub open spec fn spec_u64_field(field: nat, v: u64) -> Seq<u8> {
    if v == 0 {
        Seq::empty()
    } else {
        spec_key(field, 0) + spec_varint(v as nat)
    }
}

/// The wire form of the add-gateway message: its fields in ascending
/// field-number order.
pub open spec fn spec_encode_add_gateway(t: TxnAddGatewayView) -> Seq<u8> {
    spec_bytes_field(1, t.owner) + spec_bytes_field(2, t.gateway)
        + spec_bytes_field(3, t.owner_signature) + spec_bytes_field(4, t.gateway_signature)
        + spec_bytes_field(5, t.payer) + spec_bytes_field(6, t.payer_signature)
        + spec_u64_field(7, t.staking_fee) + spec_u64_field(8, t.fee)
}

/// The wire form of a transaction envelope holding an add-gateway message:
/// the message as a length-delimited field number 9. The envelope field is
/// written even when the inner message encodes to nothing.
pub open spec fn spec_encode_envelope(t: TxnAddGatewayView) -> Seq<u8> {
    spec_key(9, 2) + spec_varint(spec_encode_add_gateway(t).len()) + spec_encode_add_gateway(t)
}

/// Appends the varint encoding of `v`.
pub fn push_varint(out: &mut Vec<u8>, v: u64)
    ensures
        final(out)@ == old(out)@ + spec_varint(v as nat),
{
    let mut cur: u64 = v;
    loop
        invariant_except_break
            out@ + spec_varint(cur as nat) == old(out)@ + spec_varint(v as nat),
        ensures
            out@ == old(out)@ + spec_varint(v as nat),
        decreases cur,
    {
        if cur < 128 {
            out.push(cur as u8);
            proof {
                assert(spec_varint(cur as nat) == seq![cur as u8]);
                assert(out@ =~= old(out)@ + spec_varint(v as nat));
            }
            break;
        } else {
            let b: u8 = (cur % 128 + 128) as u8;
            out.push(b);
            proof {
                assert(spec_varint(cur as nat) == seq![b] + spec_varint((cur / 128) as nat));
                assert(out@ + spec_varint((cur / 128) as nat) =~= old(out)@ + spec_varint(
                    v as nat,
                ));
            }
            cur = cur / 128;
        }
    }
}

/// Appends every byte of `data`.
fn push_bytes(out: &mut Vec<u8>, data: &Vec<u8>)
    ensures
        final(out)@ == old(out)@ + data@,
{
    let mut i: usize = 0;
    while i < data.len()
        invariant
            i <= data.len(),
            out@ == old(out)@ + data@.take(i as int),
        decreases data.len() - i,
    {
        out.push(data[i]);
        proof {
            assert(out@ =~= old(out)@ + data@.take(i + 1));
        }
        i = i + 1;
    }
    proof {
        assert(data@.take(data@.len() as int) =~= data@);
    }
}

/// Appends a length-delimited byte field, omitting it when empty.
fn push_bytes_field(out: &mut Vec<u8>, field: u64, data: &Vec<u8>)
    requires
        1 <= field <= 9,
    ensures
        final(out)@ == old(out)@ + spec_bytes_field(field as nat, data@),
{
    if data.len() == 0 {
        proof {
            assert(out@ =~= old(out)@ + spec_bytes_field(field as nat, data@));
        }
        return ;
    }
    push_varint(out, field * 8 + 2);
    push_varint(out, data.len() as u64);
    push_bytes(out, data);
    proof {
        assert(out@ =~= old(out)@ + spec_bytes_field(field as nat, data@));
    }
}

/// Appends a varint integer field, omitting it when zero.
fn push_u64_field(out: &mut Vec<u8>, field: u64, v: u64)
    requires
        1 <= field <= 9,
    ensures
        final(out)@ == old(out)@ + spec_u64_field(field as nat, v),
{
    if v == 0 {
        proof {
            assert(out@ =~= old(out)@ + spec_u64_field(field as nat, v));
        }
        return ;
    }
    push_varint(out, field * 8);
    push_varint(out, v);
    proof {
        assert(out@ =~= old(out)@ + spec_u64_field(field as nat, v));
    }
}

impl TxnAddGateway {
    /// A transaction with every field empty or zero.
    pub fn new_empty() -> (r: TxnAddGateway)
        ensures
            r@.owner == Seq::<u8>::empty(),
            r@.gateway == Seq::<u8>::empty(),
            r@.owner_signature == Seq::<u8>::empty(),
            r@.gateway_signature == Seq::<u8>::empty(),
            r@.payer == Seq::<u8>::empty(),
            r@.payer_signature == Seq::<u8>::empty(),
            r@.staking_fee == 0,
            r@.fee == 0,
    {
        let r = TxnAddGateway {
            owner: Vec::new(),
            gateway: Vec::new(),
            owner_signature: Vec::new(),
            gateway_signature: Vec::new(),
            payer: Vec::new(),
            payer_signature: Vec::new(),
            staking_fee: 0,
            fee: 0,
        };
        proof {
            assert(r@.owner =~= Seq::<u8>::empty());
            assert(r@.gateway =~= Seq::<u8>::empty());
            assert(r@.owner_signature =~= Seq::<u8>::empty());
            assert(r@.gateway_signature =~= Seq::<u8>::empty());
            assert(r@.payer =~= Seq::<u8>::empty());
            assert(r@.payer_signature =~= Seq::<u8>::empty());
        }
        r
    }

    /// The wire form of this message.
    pub fn encode(&self) -> (r: Vec<u8>)
        ensures
            r@ == spec_encode_add_gateway(self@),
    {
        let mut out: Vec<u8> = Vec::new();
        push_bytes_field(&mut out, 1, &self.owner);
        push_bytes_field(&mut out, 2, &self.gateway);
        push_bytes_field(&mut out, 3, &self.owner_signature);
        push_bytes_field(&mut out, 4, &self.gateway_signature);
        push_bytes_field(&mut out, 5, &self.payer);
        push_bytes_field(&mut out, 6, &self.payer_signature);
        push_u64_field(&mut out, 7, self.staking_fee);
        push_u64_field(&mut out, 8, self.fee);
        proof {
            assert(out@ =~= spec_encode_add_gateway(self@));
        }
        out
    }

    /// The wire form of the envelope that carries this message as its
    /// transaction variant.
    pub fn encode_envelope(&self) -> (r: Vec<u8>)
        ensures
            r@ == spec_encode_envelope(self@),
    {
        let inner = self.encode();
        let mut out: Vec<u8> = Vec::new();
        push_varint(&mut out, 9 * 8 + 2);
        push_varint(&mut out, inner.len() as u64);
        push_bytes(&mut out, &inner);
        proof {
            assert(out@ =~= spec_encode_envelope(self@));
        }
        out
    }
}

/// A transaction envelope after decoding: either the add-gateway message it
/// carried, or some other (unsupported) transaction variant, including an
/// envelope that carried no variant at all.
#[derive(Debug, Clone)]
pub enum DecodedTxn {
    AddGateway(TxnAddGateway),
    Unsupported,
}

/// The mathematical value of a [`DecodedTxn`].
pub ghost enum DecodedTxnView {
    AddGateway(TxnAddGatewayView),
    Unsupported,
}

impl View for DecodedTxn {
    type V = DecodedTxnView;

    open spec fn view(&self) -> DecodedTxnView {
        match self {
            DecodedTxn::AddGateway(t) => DecodedTxnView::AddGateway(t@),
            DecodedTxn::Unsupported => DecodedTxnView::Unsupported,
        }
    }
}

/// Reads the varint starting at index `i` of `b`: its value and the number
/// of bytes it occupies. `None` when `b` ends inside the varint.
pub open spec fn spec_take_varint(b: Seq<u8>, i: nat) -> Option<(nat, nat)>
    decreases b.len() - i,
{
    if i >= b.len() {
        None
    } else if b[i as int] < 128 {
        Some((b[i as int] as nat, 1))
    } else {
        match spec_take_varint(b, i + 1) {
            None => None,
            Some(vc) => Some(((b[i as int] - 128) as nat + 128 * vc.0, vc.1 + 1)),
        }
    }
}

/// `acc` with one length-delimited field of the add-gateway message
/// replaced; an unknown field number leaves `acc` unchanged.
pub open spec fn spec_set_bytes_field(
    acc: TxnAddGatewayView,
    field: nat,
    data: Seq<u8>,
) -> TxnAddGatewayView {
    if field == 1 {
        TxnAddGatewayView { owner: data, ..acc }
    } else if field == 2 {
        TxnAddGatewayView { gateway: data, ..acc }
    } else if field == 3 {
        TxnAddGatewayView { owner_signature: data, ..acc }
    } else if field == 4 {
        TxnAddGatewayView { gateway_signature: data, ..acc }
    } else if field == 5 {
        TxnAddGatewayView { payer: data, ..acc }
    } else if field == 6 {
        TxnAddGatewayView { payer_signature: data, ..acc }
    } else {
        acc
    }
}

/// `acc` with one integer field of the add-gateway message replaced; an
/// unknown field number leaves `acc` unchanged.
pub open spec fn spec_set_int_field(
    acc: TxnAddGatewayView,
    field: nat,
    v: u64,
) -> TxnAddGatewayView {
    if field == 7 {
        TxnAddGatewayView { staking_fee: v, ..acc }
    } else if field == 8 {
        TxnAddGatewayView { fee: v, ..acc }
    } else {
        acc
    }
}

/// Walks the fields of an add-gateway message from index `i`, later
/// occurrences of a field overriding earlier ones and unknown fields
/// skipped by wire type. `None` on malformed bytes: a truncated field, an
/// integer over 64 bits, or an unsupported wire type.
pub open spec fn spec_decode_fields(
    b: Seq<u8>,
    i: nat,
    acc: TxnAddGatewayView,
) -> Option<TxnAddGatewayView>
    decreases b.len() - i,
{
    if i == b.len() {
        Some(acc)
    } else {
        match spec_take_varint(b, i) {
            None => None,
            Some(kc) => {
                if kc.0 > u64::MAX {
                    None
                } else {
                    let field = kc.0 / 8;
                    let wire = kc.0 % 8;
                    let j = i + kc.1;
                    if wire == 0 {
                        match spec_take_varint(b, j) {
                            None => None,
                            Some(vc) => if vc.0 > u64::MAX || j + vc.1 > b.len() {
                                None
                            } else {
                                spec_decode_fields(
                                    b,
                                    j + vc.1,
                                    spec_set_int_field(acc, field, vc.0 as u64),
                                )
                            },
                        }
                    } else if wire == 2 {
                        match spec_take_varint(b, j) {
                            None => None,
                            Some(lc) => {
                                let k = j + lc.1;
                                if k + lc.0 > b.len() {
                                    None
                                } else {
                                    spec_decode_fields(
                                        b,
                                        k + lc.0,
                                        spec_set_bytes_field(
                                            acc,
                                            field,
                                            b.subrange(k as int, (k + lc.0) as int),
                                        ),
                                    )
                                }
                            },
                        }
                    } else if wire == 1 {
                        if j + 8 > b.len() {
                            None
                        } else {
                            spec_decode_fields(b, j + 8, acc)
                        }
                    } else if wire == 5 {
                        if j + 4 > b.len() {
                            None
                        } else {
                            spec_decode_fields(b, j + 4, acc)
                        }
                    } else {
                        None
                    }
                }
            },
        }
    }
}

/// The add-gateway message carried by an empty byte sequence: every field
/// at its default.
pub open spec fn spec_default_txn() -> TxnAddGatewayView {
    TxnAddGatewayView {
        owner: Seq::empty(),
        gateway: Seq::empty(),
        owner_signature: Seq::empty(),
        gateway_signature: Seq::empty(),
        payer: Seq::empty(),
        payer_signature: Seq::empty(),
        staking_fee: 0,
        fee: 0,
    }
}

/// Walks the fields of a transaction envelope from index `i`. Field 9
/// carries an add-gateway message; any other length-delimited field is
/// another transaction variant; the last variant seen wins, and an envelope
/// with no variant is unsupported. `None` on malformed bytes.
pub open spec fn spec_decode_envelope_fields(
    b: Seq<u8>,
    i: nat,
    acc: DecodedTxnView,
) -> Option<DecodedTxnView>
    decreases b.len() - i,
{
    if i == b.len() {
        Some(acc)
    } else {
        match spec_take_varint(b, i) {
            None => None,
            Some(kc) => {
                if kc.0 > u64::MAX {
                    None
                } else {
                    let field = kc.0 / 8;
                    let wire = kc.0 % 8;
                    let j = i + kc.1;
                    if wire == 0 {
                        match spec_take_varint(b, j) {
                            None => None,
                            Some(vc) => if vc.0 > u64::MAX || j + vc.1 > b.len() {
                                None
                            } else {
                                spec_decode_envelope_fields(b, j + vc.1, acc)
                            },
                        }
                    } else if wire == 2 {
                        match spec_take_varint(b, j) {
                            None => None,
                            Some(lc) => {
                                let k = j + lc.1;
                                if k + lc.0 > b.len() {
                                    None
                                } else if field == 9 {
                                    match spec_decode_fields(
                                        b.subrange(k as int, (k + lc.0) as int),
                                        0,
                                        spec_default_txn(),
                                    ) {
                                        None => None,
                                        Some(t) => spec_decode_envelope_fields(
                                            b,
                                            k + lc.0,
                                            DecodedTxnView::AddGateway(t),
                                        ),
                                    }
                                } else {
                                    spec_decode_envelope_fields(
                                        b,
                                        k + lc.0,
                                        DecodedTxnView::Unsupported,
                                    )
                                }
                            },
                        }
                    } else if wire == 1 {
                        if j + 8 > b.len() {
                            None
                        } else {
                            spec_decode_envelope_fields(b, j + 8, acc)
                        }
                    } else if wire == 5 {
                        if j + 4 > b.len() {
                            None
                        } else {
                            spec_decode_envelope_fields(b, j + 4, acc)
                        }
                    } else {
                        None
                    }
                }
            },
        }
    }
}

/// What a whole envelope byte sequence decodes to; `None` on malformed
/// bytes.
pub open spec fn spec_decode_envelope(b: Seq<u8>) -> Option<DecodedTxnView> {
    spec_decode_envelope_fields(b, 0, DecodedTxnView::Unsupported)
}

/// Reads the varint at index `i`: its value and the index just past it.
/// `None` when the bytes end inside the varint or the value exceeds 64
/// bits.
fn take_varint(b: &Vec<u8>, i: usize) -> (r: Option<(u64, usize)>)
    requires
        i <= b.len(),
    ensures
        (match r {
            Some(vn) => i < vn.1 <= b@.len() && spec_take_varint(b@, i as nat) == Some(
                ((vn.0 as nat), ((vn.1 - i) as nat)),
            ),
            None => (match spec_take_varint(b@, i as nat) {
                None => true,
                Some(vc) => vc.0 > u64::MAX,
            }),
        }),
    decreases b@.len() - i,
{
    if i == b.len() {
        return None;
    }
    let x: u8 = b[i];
    if x < 128 {
        Some((x as u64, i + 1))
    } else {
        match take_varint(b, i + 1) {
            None => None,
            Some(vn) => {
                let low: u64 = (x - 128) as u64;
                if vn.0 > (u64::MAX - low) / 128 {
                    proof {
                        assert(low + 128 * vn.0 > u64::MAX) by (nonlinear_arith)
                            requires
                                vn.0 > (u64::MAX - low) / 128,
                                low < 128,
                        ;
                    }
                    None
                } else {
                    proof {
                        assert(low + 128 * vn.0 <= u64::MAX) by (nonlinear_arith)
                            requires
                                vn.0 <= (u64::MAX - low) / 128,
                                low < 128,
                        ;
                    }
                    Some((low + 128 * vn.0, vn.1))
                }
            },
        }
    }
}

/// A fresh copy of the bytes of `b` between `from` and `to`.
pub fn copy_range(b: &Vec<u8>, from: usize, to: usize) -> (r: Vec<u8>)
    requires
        from <= to <= b.len(),
    ensures
        r@ == b@.subrange(from as int, to as int),
{
    let mut out: Vec<u8> = Vec::new();
    proof {
        assert(out@ =~= b@.subrange(from as int, from as int));
    }
    let mut i: usize = from;
    while i < to
        invariant
            from <= i <= to <= b.len(),
            out@ == b@.subrange(from as int, i as int),
        decreases to - i,
    {
        out.push(b[i]);
        proof {
            assert(out@ =~= b@.subrange(from as int, (i + 1) as int));
        }
        i = i + 1;
    }
    out
}

/// A fresh copy of `b`.
pub fn clone_bytes(b: &Vec<u8>) -> (r: Vec<u8>)
    ensures
        r@ == b@,
{
    let r = copy_range(b, 0, b.len());
    proof {
        assert(b@.subrange(0, b@.len() as int) =~= b@);
    }
    r
}

/// Walks the fields of an add-gateway message from index `i`, as
/// [`spec_decode_fields`] describes.
fn decode_fields(b: &Vec<u8>, i: usize, acc: TxnAddGateway) -> (r: Option<TxnAddGateway>)
    requires
        i <= b.len(),
    ensures
        (match r {
            Some(t) => spec_decode_fields(b@, i as nat, acc@) == Some(t@),
            None => spec_decode_fields(b@, i as nat, acc@) is None,
        }),
    decreases b@.len() - i,
{
    if i == b.len() {
        return Some(acc);
    }
    let key = match take_varint(b, i) {
        None => { return None; },
        Some(kn) => kn,
    };
    let field: u64 = key.0 / 8;
    let wire: u64 = key.0 % 8;
    let j: usize = key.1;
    if wire == 0 {
        match take_varint(b, j) {
            None => None,
            Some(vn) => {
                let mut acc2 = acc;
                if field == 7 {
                    acc2.staking_fee = vn.0;
                } else if field == 8 {
                    acc2.fee = vn.0;
                }
                proof {
                    assert(acc2@ == spec_set_int_field(acc@, (key.0 / 8) as nat, vn.0));
                }
                decode_fields(b, vn.1, acc2)
            },
        }
    } else if wire == 2 {
        match take_varint(b, j) {
            None => None,
            Some(ln) => {
                let k: usize = ln.1;
                if ln.0 > (b.len() - k) as u64 {
                    return None;
                }
                let to: usize = k + (ln.0 as usize);
                let data = copy_range(b, k, to);
                let mut acc2 = acc;
                if field == 1 {
                    acc2.owner = data;
                } else if field == 2 {
                    acc2.gateway = data;
                } else if field == 3 {
                    acc2.owner_signature = data;
                } else if field == 4 {
                    acc2.gateway_signature = data;
                } else if field == 5 {
                    acc2.payer = data;
                } else if field == 6 {
                    acc2.payer_signature = data;
                }
                proof {
                    assert(acc2@ == spec_set_bytes_field(
                        acc@,
                        (key.0 / 8) as nat,
                        b@.subrange(k as int, to as int),
                    ));
                }
                decode_fields(b, to, acc2)
            },
        }
    } else if wire == 1 {
        if b.len() - j < 8 {
            None
        } else {
            decode_fields(b, j + 8, acc)
        }
    } else if wire == 5 {
        if b.len() - j < 4 {
            None
        } else {
            decode_fields(b, j + 4, acc)
        }
    } else {
        None
    }
}

/// Walks the fields of a transaction envelope from index `i`, as
/// [`spec_decode_envelope_fields`] describes.
#[verifier::rlimit(60)]
fn decode_envelope_fields(b: &Vec<u8>, i: usize, acc: DecodedTxn) -> (r: Option<DecodedTxn>)
    requires
        i <= b.len(),
    ensures
        (match r {
            Some(d) => spec_decode_envelope_fields(b@, i as nat, acc@) == Some(d@),
            None => spec_decode_envelope_fields(b@, i as nat, acc@) is None,
        }),
    decreases b@.len() - i,
{
    if i == b.len() {
        return Some(acc);
    }
    let key = match take_varint(b, i) {
        None => { return None; },
        Some(kn) => kn,
    };
    let field: u64 = key.0 / 8;
    let wire: u64 = key.0 % 8;
    let j: usize = key.1;
    if wire == 0 {
        match take_varint(b, j) {
            None => None,
            Some(vn) => decode_envelope_fields(b, vn.1, acc),
        }
    } else if wire == 2 {
        match take_varint(b, j) {
            None => None,
            Some(ln) => {
                let k: usize = ln.1;
                if ln.0 > (b.len() - k) as u64 {
                    return None;
                }
                let to: usize = k + (ln.0 as usize);
                if field == 9 {
                    let data = copy_range(b, k, to);
                    match decode_fields(&data, 0, TxnAddGateway::new_empty()) {
                        None => None,
                        Some(t) => decode_envelope_fields(b, to, DecodedTxn::AddGateway(t)),
                    }
                } else {
                    decode_envelope_fields(b, to, DecodedTxn::Unsupported)
                }
            },
        }
    } else if wire == 1 {
        if b.len() - j < 8 {
            None
        } else {
            decode_envelope_fields(b, j + 8, acc)
        }
    } else if wire == 5 {
        if b.len() - j < 4 {
            None
        } else {
            decode_envelope_fields(b, j + 4, acc)
        }
    } else {
        None
    }
}

proof fn lemma_take_varint_at(pre: Seq<u8>, n: nat, rest: Seq<u8>)
    ensures
        spec_take_varint(pre + spec_varint(n) + rest, pre.len()) == Some(
            (n, spec_varint(n).len()),
        ),
    decreases n,
{
    let s = pre + spec_varint(n) + rest;
    if n < 128 {
        assert(spec_varint(n) == seq![n as u8]);
        assert(s[pre.len() as int] == n as u8);
    } else {
        let b0 = (n % 128 + 128) as u8;
        assert(spec_varint(n) == seq![b0] + spec_varint(n / 128));
        assert(s[pre.len() as int] == b0);
        assert((pre + seq![b0]) + spec_varint(n / 128) + rest =~= s);
        lemma_take_varint_at(pre + seq![b0], n / 128, rest);
        assert(n % 128 + 128 * (n / 128) == n);
    }
}

proof fn lemma_decode_bytes_chunk(
    pre: Seq<u8>,
    field: nat,
    data: Seq<u8>,
    rest: Seq<u8>,
    acc: TxnAddGatewayView,
)
    requires
        1 <= field <= 6,
        0 < data.len() <= u64::MAX,
    ensures
        ({
            let chunk = spec_bytes_field(field, data);
            spec_decode_fields(pre + chunk + rest, pre.len(), acc) == spec_decode_fields(
                pre + chunk + rest,
                pre.len() + chunk.len(),
                spec_set_bytes_field(acc, field, data),
            )
        }),
{
    let chunk = spec_bytes_field(field, data);
    let s = pre + chunk + rest;
    let key = spec_varint(field * 8 + 2);
    let lenv = spec_varint(data.len());
    assert(chunk =~= key + lenv + data);
    assert(s =~= pre + key + (lenv + data + rest));
    lemma_take_varint_at(pre, field * 8 + 2, lenv + data + rest);
    let j = pre.len() + key.len();
    assert(s =~= (pre + key) + lenv + (data + rest));
    lemma_take_varint_at(pre + key, data.len(), data + rest);
    let k = j + lenv.len();
    assert((field * 8 + 2) % 8 == 2 && (field * 8 + 2) / 8 == field);
    assert(s.subrange(k as int, (k + data.len()) as int) =~= data);
    assert(pre.len() < s.len());
}

proof fn lemma_decode_int_chunk(
    pre: Seq<u8>,
    field: nat,
    v: u64,
    rest: Seq<u8>,
    acc: TxnAddGatewayView,
)
    requires
        7 <= field <= 8,
        v > 0,
    ensures
        ({
            let chunk = spec_u64_field(field, v);
            spec_decode_fields(pre + chunk + rest, pre.len(), acc) == spec_decode_fields(
                pre + chunk + rest,
                pre.len() + chunk.len(),
                spec_set_int_field(acc, field, v),
            )
        }),
{
    let chunk = spec_u64_field(field, v);
    let s = pre + chunk + rest;
    let key = spec_varint(field * 8);
    let valv = spec_varint(v as nat);
    assert(chunk =~= key + valv);
    assert(s =~= pre + key + (valv + rest));
    lemma_take_varint_at(pre, field * 8, valv + rest);
    assert(s =~= (pre + key) + valv + rest);
    lemma_take_varint_at(pre + key, v as nat, rest);
    assert((field * 8) % 8 == 0 && (field * 8) / 8 == field);
    assert(pre.len() < s.len());
    let j = pre.len() + key.len();
    assert(j + valv.len() <= s.len());
}

/// Law: the wire form of an add-gateway message decodes back to exactly
/// that message — the codec round-trips, whatever the field values,
/// provided each byte field fits the length a varint of 64 bits can
/// carry.
#[verifier::rlimit(100)]
#[verifier::spinoff_prover]
proof fn lemma_decode_encode_first_half(t: TxnAddGatewayView)
    requires
        t.owner.len() <= u64::MAX,
        t.gateway.len() <= u64::MAX,
        t.owner_signature.len() <= u64::MAX,
        t.gateway_signature.len() <= u64::MAX,
    ensures
        ({
            let s = spec_encode_add_gateway(t);
            let a0 = spec_default_txn();
            let a1 = spec_set_bytes_field(a0, 1, t.owner);
            let a2 = spec_set_bytes_field(a1, 2, t.gateway);
            let a3 = spec_set_bytes_field(a2, 3, t.owner_signature);
            let a4 = spec_set_bytes_field(a3, 4, t.gateway_signature);
            spec_decode_fields(s, 0, a0) == spec_decode_fields(
                s,
                spec_bytes_field(1, t.owner).len() + spec_bytes_field(2, t.gateway).len()
                    + spec_bytes_field(3, t.owner_signature).len() + spec_bytes_field(
                    4,
                    t.gateway_signature,
                ).len(),
                a4,
            )
        }),
{
    let s = spec_encode_add_gateway(t);
    let e1 = spec_bytes_field(1, t.owner);
    let e2 = spec_bytes_field(2, t.gateway);
    let e3 = spec_bytes_field(3, t.owner_signature);
    let e4 = spec_bytes_field(4, t.gateway_signature);
    let e5 = spec_bytes_field(5, t.payer);
    let e6 = spec_bytes_field(6, t.payer_signature);
    let e7 = spec_u64_field(7, t.staking_fee);
    let e8 = spec_u64_field(8, t.fee);
    let a0 = spec_default_txn();
    let a1 = spec_set_bytes_field(a0, 1, t.owner);
    let a2 = spec_set_bytes_field(a1, 2, t.gateway);
    let a3 = spec_set_bytes_field(a2, 3, t.owner_signature);
    let a4 = spec_set_bytes_field(a3, 4, t.gateway_signature);
    if t.owner.len() > 0 {
        assert(s =~= Seq::<u8>::empty() + e1 + (e2 + e3 + e4 + e5 + e6 + e7 + e8));
        lemma_decode_bytes_chunk(Seq::empty(), 1, t.owner, e2 + e3 + e4 + e5 + e6 + e7 + e8, a0);
    } else {
        assert(a1 =~= a0);
    }
    assert(spec_decode_fields(s, 0, a0) == spec_decode_fields(s, e1.len(), a1));
    if t.gateway.len() > 0 {
        assert(s =~= e1 + e2 + (e3 + e4 + e5 + e6 + e7 + e8));
        lemma_decode_bytes_chunk(e1, 2, t.gateway, e3 + e4 + e5 + e6 + e7 + e8, a1);
    } else {
        assert(a2 =~= a1);
    }
    assert(spec_decode_fields(s, 0, a0) == spec_decode_fields(s, e1.len() + e2.len(), a2));
    if t.owner_signature.len() > 0 {
        assert(s =~= (e1 + e2) + e3 + (e4 + e5 + e6 + e7 + e8));
        lemma_decode_bytes_chunk(e1 + e2, 3, t.owner_signature, e4 + e5 + e6 + e7 + e8, a2);
        assert((e1 + e2).len() == e1.len() + e2.len());
    } else {
        assert(a3 =~= a2);
    }
    assert(spec_decode_fields(s, 0, a0) == spec_decode_fields(
        s,
        e1.len() + e2.len() + e3.len(),
        a3,
    ));
    if t.gateway_signature.len() > 0 {
        assert(s =~= (e1 + e2 + e3) + e4 + (e5 + e6 + e7 + e8));
        lemma_decode_bytes_chunk(e1 + e2 + e3, 4, t.gateway_signature, e5 + e6 + e7 + e8, a3);
        assert((e1 + e2 + e3).len() == e1.len() + e2.len() + e3.len());
    } else {
        assert(a4 =~= a3);
    }
    assert(spec_decode_fields(s, 0, a0) == spec_decode_fields(
        s,
        e1.len() + e2.len() + e3.len() + e4.len(),
        a4,
    ));
}

#[verifier::rlimit(100)]
#[verifier::spinoff_prover]
proof fn lemma_decode_encode_second_half(t: TxnAddGatewayView, acc: TxnAddGatewayView)
    requires
        t.payer.len() <= u64::MAX,
        t.payer_signature.len() <= u64::MAX,
        t.payer.len() == 0 ==> acc.payer == t.payer,
        t.payer_signature.len() == 0 ==> acc.payer_signature == t.payer_signature,
        t.staking_fee == 0 ==> acc.staking_fee == t.staking_fee,
        t.fee == 0 ==> acc.fee == t.fee,
    ensures
        ({
            let s = spec_encode_add_gateway(t);
            let a5 = spec_set_bytes_field(acc, 5, t.payer);
            let a6 = spec_set_bytes_field(a5, 6, t.payer_signature);
            let a7 = spec_set_int_field(a6, 7, t.staking_fee);
            let a8 = spec_set_int_field(a7, 8, t.fee);
            spec_decode_fields(
                s,
                spec_bytes_field(1, t.owner).len() + spec_bytes_field(2, t.gateway).len()
                    + spec_bytes_field(3, t.owner_signature).len() + spec_bytes_field(
                    4,
                    t.gateway_signature,
                ).len(),
                acc,
            ) == Some(a8)
        }),
{
    let s = spec_encode_add_gateway(t);
    let e1 = spec_bytes_field(1, t.owner);
    let e2 = spec_bytes_field(2, t.gateway);
    let e3 = spec_bytes_field(3, t.owner_signature);
    let e4 = spec_bytes_field(4, t.gateway_signature);
    let e5 = spec_bytes_field(5, t.payer);
    let e6 = spec_bytes_field(6, t.payer_signature);
    let e7 = spec_u64_field(7, t.staking_fee);
    let e8 = spec_u64_field(8, t.fee);
    let l4 = e1.len() + e2.len() + e3.len() + e4.len();
    let a5 = spec_set_bytes_field(acc, 5, t.payer);
    let a6 = spec_set_bytes_field(a5, 6, t.payer_signature);
    let a7 = spec_set_int_field(a6, 7, t.staking_fee);
    let a8 = spec_set_int_field(a7, 8, t.fee);
    if t.payer.len() > 0 {
        assert(s =~= (e1 + e2 + e3 + e4) + e5 + (e6 + e7 + e8));
        lemma_decode_bytes_chunk(e1 + e2 + e3 + e4, 5, t.payer, e6 + e7 + e8, acc);
        assert((e1 + e2 + e3 + e4).len() == l4);
    } else {
        assert(a5 =~= acc);
    }
    assert(spec_decode_fields(s, l4, acc) == spec_decode_fields(s, l4 + e5.len(), a5));
    if t.payer_signature.len() > 0 {
        assert(s =~= (e1 + e2 + e3 + e4 + e5) + e6 + (e7 + e8));
        lemma_decode_bytes_chunk(e1 + e2 + e3 + e4 + e5, 6, t.payer_signature, e7 + e8, a5);
        assert((e1 + e2 + e3 + e4 + e5).len() == l4 + e5.len());
    } else {
        assert(a6 =~= a5);
    }
    assert(spec_decode_fields(s, l4, acc) == spec_decode_fields(s, l4 + e5.len() + e6.len(), a6));
    if t.staking_fee > 0 {
        assert(s =~= (e1 + e2 + e3 + e4 + e5 + e6) + e7 + e8);
        lemma_decode_int_chunk(e1 + e2 + e3 + e4 + e5 + e6, 7, t.staking_fee, e8, a6);
        assert((e1 + e2 + e3 + e4 + e5 + e6).len() == l4 + e5.len() + e6.len());
    } else {
        assert(a7 =~= a6);
    }
    assert(spec_decode_fields(s, l4, acc) == spec_decode_fields(
        s,
        l4 + e5.len() + e6.len() + e7.len(),
        a7,
    ));
    if t.fee > 0 {
        assert(s =~= (e1 + e2 + e3 + e4 + e5 + e6 + e7) + e8 + Seq::<u8>::empty());
        lemma_decode_int_chunk(e1 + e2 + e3 + e4 + e5 + e6 + e7, 8, t.fee, Seq::empty(), a7);
        assert((e1 + e2 + e3 + e4 + e5 + e6 + e7).len() == l4 + e5.len() + e6.len() + e7.len());
    } else {
        assert(a8 =~= a7);
    }
    assert(spec_decode_fields(s, l4, acc) == spec_decode_fields(s, s.len(), a8));
}

/// Law: the wire form of an add-gateway message decodes back to exactly
/// that message — the codec round-trips, whatever the field values,
/// provided each byte field fits the length a varint of 64 bits can
/// carry.
pub proof fn lemma_decode_encode_add_gateway(t: TxnAddGatewayView)
    requires
        t.owner.len() <= u64::MAX,
        t.gateway.len() <= u64::MAX,
        t.owner_signature.len() <= u64::MAX,
        t.gateway_signature.len() <= u64::MAX,
        t.payer.len() <= u64::MAX,
        t.payer_signature.len() <= u64::MAX,
    ensures
        spec_decode_fields(spec_encode_add_gateway(t), 0, spec_default_txn()) == Some(t),
{
    let a0 = spec_default_txn();
    let a1 = spec_set_bytes_field(a0, 1, t.owner);
    let a2 = spec_set_bytes_field(a1, 2, t.gateway);
    let a3 = spec_set_bytes_field(a2, 3, t.owner_signature);
    let a4 = spec_set_bytes_field(a3, 4, t.gateway_signature);
    let a5 = spec_set_bytes_field(a4, 5, t.payer);
    let a6 = spec_set_bytes_field(a5, 6, t.payer_signature);
    let a7 = spec_set_int_field(a6, 7, t.staking_fee);
    let a8 = spec_set_int_field(a7, 8, t.fee);
    lemma_decode_encode_first_half(t);
    if t.payer.len() == 0 {
        assert(a4.payer =~= t.payer);
    }
    if t.payer_signature.len() == 0 {
        assert(a4.payer_signature =~= t.payer_signature);
    }
    lemma_decode_encode_second_half(t, a4);
    assert(a8 =~= t);
}

/// Law: an encoded transaction envelope decodes back to the very
/// add-gateway transaction it was built from.
pub proof fn lemma_decode_encode_envelope(t: TxnAddGatewayView)
    requires
        t.owner.len() <= u64::MAX,
        t.gateway.len() <= u64::MAX,
        t.owner_signature.len() <= u64::MAX,
        t.gateway_signature.len() <= u64::MAX,
        t.payer.len() <= u64::MAX,
        t.payer_signature.len() <= u64::MAX,
        spec_encode_add_gateway(t).len() <= u64::MAX,
    ensures
        spec_decode_envelope(spec_encode_envelope(t)) == Some(DecodedTxnView::AddGateway(t)),
{
    let m = spec_encode_add_gateway(t);
    let s = spec_encode_envelope(t);
    let key = spec_key(9, 2);
    let lenv = spec_varint(m.len());
    assert(s =~= Seq::<u8>::empty() + spec_varint(9 * 8 + 2) + (lenv + m));
    lemma_take_varint_at(Seq::empty(), 9 * 8 + 2, lenv + m);
    assert(s =~= key + lenv + m);
    lemma_take_varint_at(key, m.len(), m);
    let k = key.len() + lenv.len();
    assert(s.subrange(k as int, (k + m.len()) as int) =~= m);
    lemma_decode_encode_add_gateway(t);
    assert(spec_decode_envelope_fields(s, k + m.len(), DecodedTxnView::AddGateway(t)) == Some(
        DecodedTxnView::AddGateway(t),
    ));
}

/// Decodes a transaction envelope from its wire form, reporting which
/// transaction variant it carried. Malformed bytes are a decode error;
/// carrying a variant other than add-gateway is not.
pub fn decode_envelope(b: &Vec<u8>) -> (r: Result<DecodedTxn, Error>)
    ensures
        r matches Ok(d) ==> spec_decode_envelope(b@) == Some(d@),
        r is Ok <==> spec_decode_envelope(b@) is Some,
        r is Err ==> r matches Err(Error::Decode(DecodeError::InvalidTransaction(_))),
{
    match decode_envelope_fields(b, 0, DecodedTxn::Unsupported) {
        Some(d) => Ok(d),
        None => Err(
            Error::Decode(
                DecodeError::InvalidTransaction(String::from_str("malformed transaction bytes")),
            ),
        ),
    }
}

} // verus!
