//! The stable byte encoding of the protocol envelope.
//!
//! Both peers of a session must agree on this layout, so it is fixed here
//! once: a one-byte variant tag, little-endian 64-bit counts and handles,
//! and the padding as the remainder of the buffer.
//!
//! ```text
//! payload  = 0x01 || n_onward || hops || n_return || hops || n_bytes || bytes || padding
//! refresh  = 0x02 || subject || public_key || generation || n_credentials || credentials || padding
//! close    = 0x03 || padding
//! ```
//!
//! [`spec_encode_message`] and [`spec_decode_message`] define the format
//! mathematically; [`encode_message`] and [`decode_message`] implement it,
//! and [`lemma_codec_round_trip`] proves that decoding an encoded envelope
//! gives the envelope back.

use vstd::prelude::*;

use crate::messages::Address;
use crate::messages::Credential;
use crate::messages::Route;
use crate::messages::PlaintextPayloadMessage;
use crate::messages::RefreshCredentialsMessage;
use crate::messages::SecureChannelMessage;
use crate::messages::SecureChannelPaddedMessage;
use crate::messages::SpecChannelMessage;
use crate::messages::SpecPaddedMessage;
use crate::messages::SpecPayloadMessage;
use crate::messages::SpecRefreshMessage;
use crate::messages::ChangeHistory;
use crate::messages::Identifier;

use crate::cipher::lemma_cipher_round_trip;
use crate::cipher::spec_decrypt;
use crate::cipher::spec_encrypt;

use vstd::bytes::lemma_auto_spec_u64_to_from_le_bytes;
use vstd::bytes::spec_u64_from_le_bytes;
use vstd::bytes::spec_u64_to_le_bytes;
use vstd::bytes::u64_from_le_bytes;
use vstd::bytes::u64_to_le_bytes;
use vstd::slice::slice_subrange;

verus! {

/// Variant tag of a payload envelope.
pub const TAG_PAYLOAD: u8 = 1;

/// Variant tag of a credential-refresh envelope.
pub const TAG_REFRESH: u8 = 2;

/// Variant tag of a close envelope.
pub const TAG_CLOSE: u8 = 3;

/// Encoding of a sequence of hops, eight bytes per hop.
pub open spec fn spec_enc_addrs(s: Seq<Address>) -> Seq<u8>
    decreases s.len(),
{
    if s.len() == 0 {
        Seq::<u8>::empty()
    } else {
        spec_u64_to_le_bytes(s.first().value) + spec_enc_addrs(s.drop_first())
    }
}

/// Encoding of a sequence of credentials, eight bytes per credential.
pub open spec fn spec_enc_creds(s: Seq<Credential>) -> Seq<u8>
    decreases s.len(),
{
    if s.len() == 0 {
        Seq::<u8>::empty()
    } else {
        spec_u64_to_le_bytes(s.first().value) + spec_enc_creds(s.drop_first())
    }
}

/// The counts of the envelope fit the 64-bit length fields of the wire
/// format.  Every envelope built from executable values satisfies this.
pub open spec fn spec_msg_wf(m: SpecPaddedMessage) -> bool {
    match m.message {
        SpecChannelMessage::Payload(p) => {
            &&& p.onward_route.len() <= u64::MAX
            &&& p.return_route.len() <= u64::MAX
            &&& p.payload.len() <= u64::MAX
        },
        SpecChannelMessage::RefreshCredentials(r) => r.credentials.len() <= u64::MAX,
        SpecChannelMessage::Close => true,
    }
}

/// The byte encoding of an envelope.
pub open spec fn spec_encode_message(m: SpecPaddedMessage) -> Seq<u8> {
    match m.message {
        SpecChannelMessage::Payload(p) => seq![TAG_PAYLOAD] + (spec_u64_to_le_bytes(
            p.onward_route.len() as u64,
        ) + (spec_enc_addrs(p.onward_route) + (spec_u64_to_le_bytes(p.return_route.len() as u64) + (
        spec_enc_addrs(p.return_route) + (spec_u64_to_le_bytes(p.payload.len() as u64) + (p.payload
            + m.padding)))))),
        SpecChannelMessage::RefreshCredentials(r) => seq![TAG_REFRESH] + (spec_u64_to_le_bytes(
            r.change_history.subject.value,
        ) + (spec_u64_to_le_bytes(r.change_history.public_key) + (spec_u64_to_le_bytes(
            r.change_history.generation,
        ) + (spec_u64_to_le_bytes(r.credentials.len() as u64) + (spec_enc_creds(r.credentials)
            + m.padding))))),
        SpecChannelMessage::Close => seq![TAG_CLOSE] + m.padding,
    }
}

/// Parse a 64-bit little-endian value off the front of `s`.
pub open spec fn spec_dec_u64(s: Seq<u8>) -> Option<(u64, Seq<u8>)> {
    if s.len() >= 8 {
        Some((spec_u64_from_le_bytes(s.take(8)), s.skip(8)))
    } else {
        None
    }
}

/// Parse `n` hops off the front of `s`.
pub open spec fn spec_dec_addrs(s: Seq<u8>, n: nat) -> Option<(Seq<Address>, Seq<u8>)>
    decreases n,
{
    if n == 0 {
        Some((Seq::<Address>::empty(), s))
    } else {
        match spec_dec_u64(s) {
            None => None,
            Some(vr) => match spec_dec_addrs(vr.1, (n - 1) as nat) {
                None => None,
                Some(ar) => Some((seq![Address { value: vr.0 }] + ar.0, ar.1)),
            },
        }
    }
}

/// Parse `n` credentials off the front of `s`.
pub open spec fn spec_dec_creds(s: Seq<u8>, n: nat) -> Option<(Seq<Credential>, Seq<u8>)>
    decreases n,
{
    if n == 0 {
        Some((Seq::<Credential>::empty(), s))
    } else {
        match spec_dec_u64(s) {
            None => None,
            Some(vr) => match spec_dec_creds(vr.1, (n - 1) as nat) {
                None => None,
                Some(cr) => Some((seq![Credential { value: vr.0 }] + cr.0, cr.1)),
            },
        }
    }
}

/// Parse `n` raw bytes off the front of `s`.
pub open spec fn spec_dec_bytes(s: Seq<u8>, n: nat) -> Option<(Seq<u8>, Seq<u8>)> {
    if s.len() >= n {
        Some((s.take(n as int), s.skip(n as int)))
    } else {
        None
    }
}

/// Total parsing function of the wire format: the envelope a byte sequence
/// encodes, or `None` if it is not an encoding.
pub open spec fn spec_decode_message(s: Seq<u8>) -> Option<SpecPaddedMessage> {
    if s.len() < 1 {
        None
    } else {
        let rest = s.skip(1);
        if s[0] == TAG_PAYLOAD {
            match spec_dec_u64(rest) {
                None => None,
                Some(n_on) => match spec_dec_addrs(n_on.1, n_on.0 as nat) {
                    None => None,
                    Some(on) => match spec_dec_u64(on.1) {
                        None => None,
                        Some(n_ret) => match spec_dec_addrs(n_ret.1, n_ret.0 as nat) {
                            None => None,
                            Some(ret) => match spec_dec_u64(ret.1) {
                                None => None,
                                Some(n_pay) => match spec_dec_bytes(n_pay.1, n_pay.0 as nat) {
                                    None => None,
                                    Some(pay) => Some(
                                        SpecPaddedMessage {
                                            message: SpecChannelMessage::Payload(
                                                SpecPayloadMessage {
                                                    onward_route: on.0,
                                                    return_route: ret.0,
                                                    payload: pay.0,
                                                },
                                            ),
                                            padding: pay.1,
                                        },
                                    ),
                                },
                            },
                        },
                    },
                },
            }
        } else if s[0] == TAG_REFRESH {
            match spec_dec_u64(rest) {
                None => None,
                Some(subject) => match spec_dec_u64(subject.1) {
                    None => None,
                    Some(public_key) => match spec_dec_u64(public_key.1) {
                        None => None,
                        Some(generation) => match spec_dec_u64(generation.1) {
                            None => None,
                            Some(n_creds) => match spec_dec_creds(n_creds.1, n_creds.0 as nat) {
                                None => None,
                                Some(creds) => Some(
                                    SpecPaddedMessage {
                                        message: SpecChannelMessage::RefreshCredentials(
                                            SpecRefreshMessage {
                                                change_history: ChangeHistory {
                                                    subject: Identifier { value: subject.0 },
                                                    public_key: public_key.0,
                                                    generation: generation.0,
                                                },
                                                credentials: creds.0,
                                            },
                                        ),
                                        padding: creds.1,
                                    },
                                ),
                            },
                        },
                    },
                },
            }
        } else if s[0] == TAG_CLOSE {
            Some(SpecPaddedMessage { message: SpecChannelMessage::Close, padding: rest })
        } else {
            None
        }
    }
}

/// Parsing a 64-bit value off its own encoding recovers the value and
/// leaves the rest.
proof fn lemma_dec_u64_of_enc(x: u64, rest: Seq<u8>)
    ensures
        spec_dec_u64(spec_u64_to_le_bytes(x) + rest) == Some((x, rest)),
{
    lemma_auto_spec_u64_to_from_le_bytes();
    let s = spec_u64_to_le_bytes(x) + rest;
    assert(s.take(8) =~= spec_u64_to_le_bytes(x));
    assert(s.skip(8) =~= rest);
}

/// Hop encoding distributes over concatenation.
proof fn lemma_enc_addrs_append(a: Seq<Address>, b: Seq<Address>)
    ensures
        spec_enc_addrs(a + b) == spec_enc_addrs(a) + spec_enc_addrs(b),
    decreases a.len(),
{
    if a.len() == 0 {
        assert(a + b =~= b);
        assert(spec_enc_addrs(a) + spec_enc_addrs(b) =~= spec_enc_addrs(b));
    } else {
        assert((a + b).drop_first() =~= a.drop_first() + b);
        lemma_enc_addrs_append(a.drop_first(), b);
        assert(spec_u64_to_le_bytes((a + b).first().value) + (spec_enc_addrs(a.drop_first())
            + spec_enc_addrs(b)) =~= (spec_u64_to_le_bytes(a.first().value) + spec_enc_addrs(
            a.drop_first(),
        )) + spec_enc_addrs(b));
    }
}

/// Credential encoding distributes over concatenation.
proof fn lemma_enc_creds_append(a: Seq<Credential>, b: Seq<Credential>)
    ensures
        spec_enc_creds(a + b) == spec_enc_creds(a) + spec_enc_creds(b),
    decreases a.len(),
{
    if a.len() == 0 {
        assert(a + b =~= b);
        assert(spec_enc_creds(a) + spec_enc_creds(b) =~= spec_enc_creds(b));
    } else {
        assert((a + b).drop_first() =~= a.drop_first() + b);
        lemma_enc_creds_append(a.drop_first(), b);
        assert(spec_u64_to_le_bytes((a + b).first().value) + (spec_enc_creds(a.drop_first())
            + spec_enc_creds(b)) =~= (spec_u64_to_le_bytes(a.first().value) + spec_enc_creds(
            a.drop_first(),
        )) + spec_enc_creds(b));
    }
}

/// Encoding of a single hop.
pub proof fn lemma_enc_addrs_singleton(a: Address)
    ensures
        spec_enc_addrs(seq![a]) == spec_u64_to_le_bytes(a.value),
{
    let s = seq![a];
    assert(s.drop_first() =~= Seq::<Address>::empty());
    assert(spec_enc_addrs(Seq::<Address>::empty()) == Seq::<u8>::empty());
    assert(spec_u64_to_le_bytes(a.value) + Seq::<u8>::empty() =~= spec_u64_to_le_bytes(a.value));
}

/// Encoding of a single credential.
pub proof fn lemma_enc_creds_singleton(c: Credential)
    ensures
        spec_enc_creds(seq![c]) == spec_u64_to_le_bytes(c.value),
{
    let s = seq![c];
    assert(s.drop_first() =~= Seq::<Credential>::empty());
    assert(spec_enc_creds(Seq::<Credential>::empty()) == Seq::<u8>::empty());
    assert(spec_u64_to_le_bytes(c.value) + Seq::<u8>::empty() =~= spec_u64_to_le_bytes(c.value));
}

/// Parsing `s.len()` hops off their own encoding recovers the hops and
/// leaves the rest.
proof fn lemma_dec_addrs_of_enc(s: Seq<Address>, rest: Seq<u8>)
    requires
        s.len() <= u64::MAX,
    ensures
        spec_dec_addrs(spec_enc_addrs(s) + rest, s.len()) == Some((s, rest)),
    decreases s.len(),
{
    if s.len() == 0 {
        assert(spec_enc_addrs(s) + rest =~= rest);
    } else {
        let tail = s.drop_first();
        assert(spec_enc_addrs(s) + rest =~= spec_u64_to_le_bytes(s.first().value) + (
        spec_enc_addrs(tail) + rest));
        lemma_dec_u64_of_enc(s.first().value, spec_enc_addrs(tail) + rest);
        lemma_dec_addrs_of_enc(tail, rest);
        assert(seq![Address { value: s.first().value }] + tail =~= s);
    }
}

/// Parsing `s.len()` credentials off their own encoding recovers the
/// credentials and leaves the rest.
proof fn lemma_dec_creds_of_enc(s: Seq<Credential>, rest: Seq<u8>)
    requires
        s.len() <= u64::MAX,
    ensures
        spec_dec_creds(spec_enc_creds(s) + rest, s.len()) == Some((s, rest)),
    decreases s.len(),
{
    if s.len() == 0 {
        assert(spec_enc_creds(s) + rest =~= rest);
    } else {
        let tail = s.drop_first();
        assert(spec_enc_creds(s) + rest =~= spec_u64_to_le_bytes(s.first().value) + (
        spec_enc_creds(tail) + rest));
        lemma_dec_u64_of_enc(s.first().value, spec_enc_creds(tail) + rest);
        lemma_dec_creds_of_enc(tail, rest);
        assert(seq![Credential { value: s.first().value }] + tail =~= s);
    }
}

/// Parsing `b.len()` raw bytes off themselves recovers them and leaves the
/// rest.
proof fn lemma_dec_bytes_of_enc(b: Seq<u8>, rest: Seq<u8>)
    ensures
        spec_dec_bytes(b + rest, b.len()) == Some((b, rest)),
{
    assert((b + rest).take(b.len() as int) =~= b);
    assert((b + rest).skip(b.len() as int) =~= rest);
}

/// Round-trip of the wire format: decoding the encoding of any envelope
/// whose counts fit the length fields gives the envelope back.
pub proof fn lemma_codec_round_trip(m: SpecPaddedMessage)
    requires
        spec_msg_wf(m),
    ensures
        spec_decode_message(spec_encode_message(m)) == Some(m),
{
    let s = spec_encode_message(m);
    match m.message {
        SpecChannelMessage::Payload(p) => {
            let r5 = p.payload + m.padding;
            let r4 = spec_u64_to_le_bytes(p.payload.len() as u64) + r5;
            let r3 = spec_enc_addrs(p.return_route) + r4;
            let r2 = spec_u64_to_le_bytes(p.return_route.len() as u64) + r3;
            let r1 = spec_enc_addrs(p.onward_route) + r2;
            let r0 = spec_u64_to_le_bytes(p.onward_route.len() as u64) + r1;
            assert(s.len() >= 1 && s[0] == TAG_PAYLOAD);
            assert(s.skip(1) =~= r0);
            lemma_dec_u64_of_enc(p.onward_route.len() as u64, r1);
            lemma_dec_addrs_of_enc(p.onward_route, r2);
            lemma_dec_u64_of_enc(p.return_route.len() as u64, r3);
            lemma_dec_addrs_of_enc(p.return_route, r4);
            lemma_dec_u64_of_enc(p.payload.len() as u64, r5);
            lemma_dec_bytes_of_enc(p.payload, m.padding);
        },
        SpecChannelMessage::RefreshCredentials(r) => {
            let q4 = spec_enc_creds(r.credentials) + m.padding;
            let q3 = spec_u64_to_le_bytes(r.credentials.len() as u64) + q4;
            let q2 = spec_u64_to_le_bytes(r.change_history.generation) + q3;
            let q1 = spec_u64_to_le_bytes(r.change_history.public_key) + q2;
            let q0 = spec_u64_to_le_bytes(r.change_history.subject.value) + q1;
            assert(s.len() >= 1 && s[0] == TAG_REFRESH);
            assert(s.skip(1) =~= q0);
            lemma_dec_u64_of_enc(r.change_history.subject.value, q1);
            lemma_dec_u64_of_enc(r.change_history.public_key, q2);
            lemma_dec_u64_of_enc(r.change_history.generation, q3);
            lemma_dec_u64_of_enc(r.credentials.len() as u64, q4);
            lemma_dec_creds_of_enc(r.credentials, m.padding);
        },
        SpecChannelMessage::Close => {
            assert(s.len() >= 1 && s[0] == TAG_CLOSE);
            assert(s.skip(1) =~= m.padding);
        },
    }
}

/// Round-trip of the whole receive pipeline: an envelope that is
/// encoded and encrypted on one side is decrypted and decoded back to
/// exactly that envelope by the matching cipher state on the other.
pub proof fn lemma_envelope_round_trip(key: u64, nonce: u64, m: SpecPaddedMessage)
    requires
        spec_msg_wf(m),
    ensures
        spec_decrypt(key, spec_encrypt(key, nonce, spec_encode_message(m))) matches Some(npt)
            && npt.0 == nonce && spec_decode_message(npt.1) == Some(m),
{
    lemma_cipher_round_trip(key, nonce, spec_encode_message(m));
    lemma_codec_round_trip(m);
}

/// Append the little-endian encoding of `x` to `out`.
fn push_u64(out: &mut Vec<u8>, x: u64)
    ensures
        final(out)@ == old(out)@ + spec_u64_to_le_bytes(x),
{
    let mut bytes = u64_to_le_bytes(x);
    out.append(&mut bytes);
}

/// Append the encoding of the hops of `route` to `out`.
fn push_addrs(out: &mut Vec<u8>, route: &Route)
    ensures
        final(out)@ == old(out)@ + spec_enc_addrs(route@),
{
    let hops = &route.hops;
    let mut i: usize = 0;
    proof {
        assert(hops@.take(0) =~= Seq::<Address>::empty());
        assert(old(out)@ + spec_enc_addrs(hops@.take(0)) =~= old(out)@);
    }
    while i < hops.len()
        invariant
            0 <= i <= hops@.len(),
            hops@ == route@,
            out@ == old(out)@ + spec_enc_addrs(hops@.take(i as int)),
        decreases hops@.len() - i,
    {
        push_u64(out, hops[i].value);
        proof {
            assert(hops@.take(i + 1) =~= hops@.take(i as int) + seq![hops@[i as int]]);
            lemma_enc_addrs_append(hops@.take(i as int), seq![hops@[i as int]]);
            lemma_enc_addrs_singleton(hops@[i as int]);
            assert(out@ =~= old(out)@ + spec_enc_addrs(hops@.take(i + 1)));
        }
        i += 1;
    }
    proof {
        assert(hops@.take(hops@.len() as int) =~= hops@);
    }
}

/// Append the encoding of `creds` to `out`.
fn push_creds(out: &mut Vec<u8>, creds: &Vec<Credential>)
    ensures
        final(out)@ == old(out)@ + spec_enc_creds(creds@),
{
    let mut i: usize = 0;
    proof {
        assert(creds@.take(0) =~= Seq::<Credential>::empty());
        assert(old(out)@ + spec_enc_creds(creds@.take(0)) =~= old(out)@);
    }
    while i < creds.len()
        invariant
            0 <= i <= creds@.len(),
            out@ == old(out)@ + spec_enc_creds(creds@.take(i as int)),
        decreases creds@.len() - i,
    {
        push_u64(out, creds[i].value);
        proof {
            assert(creds@.take(i + 1) =~= creds@.take(i as int) + seq![creds@[i as int]]);
            lemma_enc_creds_append(creds@.take(i as int), seq![creds@[i as int]]);
            lemma_enc_creds_singleton(creds@[i as int]);
            assert(out@ =~= old(out)@ + spec_enc_creds(creds@.take(i + 1)));
        }
        i += 1;
    }
    proof {
        assert(creds@.take(creds@.len() as int) =~= creds@);
    }
}

/// Append a copy of `bytes` to `out`.
fn push_bytes(out: &mut Vec<u8>, bytes: &Vec<u8>)
    ensures
        final(out)@ == old(out)@ + bytes@,
{
    let mut i: usize = 0;
    while i < bytes.len()
        invariant
            0 <= i <= bytes@.len(),
            out@ == old(out)@ + bytes@.take(i as int),
        decreases bytes@.len() - i,
    {
        out.push(bytes[i]);
        proof {
            assert(out@ =~= old(out)@ + bytes@.take(i + 1));
        }
        i += 1;
    }
    proof {
        assert(bytes@.take(bytes@.len() as int) =~= bytes@);
    }
}

/// Serialize an envelope into the wire format.
pub fn encode_message(m: &SecureChannelPaddedMessage) -> (r: Vec<u8>)
    ensures
        r@ == spec_encode_message(m@),
{
    let mut out: Vec<u8> = Vec::new();
    match &m.message {
        SecureChannelMessage::Payload(p) => {
            out.push(TAG_PAYLOAD);
            push_u64(&mut out, p.onward_route.hops.len() as u64);
            push_addrs(&mut out, &p.onward_route);
            push_u64(&mut out, p.return_route.hops.len() as u64);
            push_addrs(&mut out, &p.return_route);
            push_u64(&mut out, p.payload.len() as u64);
            push_bytes(&mut out, &p.payload);
            push_bytes(&mut out, &m.padding);
            proof {
                assert(out@ =~= spec_encode_message(m@));
            }
        },
        SecureChannelMessage::RefreshCredentials(r) => {
            out.push(TAG_REFRESH);
            push_u64(&mut out, r.change_history.subject.value);
            push_u64(&mut out, r.change_history.public_key);
            push_u64(&mut out, r.change_history.generation);
            push_u64(&mut out, r.credentials.len() as u64);
            push_creds(&mut out, &r.credentials);
            push_bytes(&mut out, &m.padding);
            proof {
                assert(out@ =~= spec_encode_message(m@));
            }
        },
        SecureChannelMessage::Close => {
            out.push(TAG_CLOSE);
            push_bytes(&mut out, &m.padding);
            proof {
                assert(out@ =~= spec_encode_message(m@));
            }
        },
    }
    out
}

/// Read a 64-bit little-endian value at byte offset `pos`.
fn read_u64(bytes: &Vec<u8>, pos: usize) -> (r: Option<(u64, usize)>)
    requires
        pos <= bytes@.len(),
    ensures
        match r {
            Some(xp) => {
                &&& spec_dec_u64(bytes@.skip(pos as int)) == Some(
                    (xp.0, bytes@.skip(xp.1 as int)),
                )
                &&& xp.1 == pos + 8 <= bytes@.len()
            },
            None => spec_dec_u64(bytes@.skip(pos as int)) is None,
        },
{
    if bytes.len() - pos >= 8 {
        let x = u64_from_le_bytes(slice_subrange(bytes.as_slice(), pos, pos + 8));
        proof {
            assert(bytes@.skip(pos as int).take(8) =~= bytes@.subrange(pos as int, pos + 8));
            assert(bytes@.skip(pos as int).skip(8) =~= bytes@.skip(pos + 8));
        }
        Some((x, pos + 8))
    } else {
        None
    }
}

/// Read `n` hops at byte offset `pos`, returning the hops and the offset
/// after them.
fn read_addrs(bytes: &Vec<u8>, pos: usize, n: u64) -> (r: Option<(Vec<Address>, usize)>)
    requires
        pos <= bytes@.len(),
    ensures
        match r {
            Some(ap) => {
                &&& spec_dec_addrs(bytes@.skip(pos as int), n as nat) == Some(
                    (ap.0@, bytes@.skip(ap.1 as int)),
                )
                &&& ap.1 <= bytes@.len()
            },
            None => spec_dec_addrs(bytes@.skip(pos as int), n as nat) is None,
        },
{
    let mut acc: Vec<Address> = Vec::new();
    let mut cur: usize = pos;
    let mut k: u64 = 0;
    while k < n
        invariant
            0 <= k <= n,
            cur <= bytes@.len(),
            acc@.len() == k,
            forall|tail: Seq<Address>, rest: Seq<u8>|
                spec_dec_addrs(bytes@.skip(cur as int), (n - k) as nat) == Some(
                    (tail, rest),
                ) ==> spec_dec_addrs(bytes@.skip(pos as int), n as nat) == Some(
                    (acc@ + tail, rest),
                ),
            spec_dec_addrs(bytes@.skip(cur as int), (n - k) as nat) is None ==> spec_dec_addrs(
                bytes@.skip(pos as int),
                n as nat,
            ) is None,
        decreases n - k,
    {
        let ghost acc_pre = acc@;
        let ghost cur_pre = cur;
        match read_u64(bytes, cur) {
            None => {
                proof {
                    assert(spec_dec_addrs(bytes@.skip(cur as int), (n - k) as nat) is None);
                }
                return None;
            },
            Some(xp) => {
                acc.push(Address { value: xp.0 });
                cur = xp.1;
                proof {
                    let s_pre = bytes@.skip(cur_pre as int);
                    let s_cur = bytes@.skip(cur as int);
                    assert(spec_dec_u64(s_pre) == Some((xp.0, s_cur)));
                    assert forall|tail: Seq<Address>, rest: Seq<u8>|
                        spec_dec_addrs(s_cur, (n - k - 1) as nat) == Some(
                            (tail, rest),
                        ) implies spec_dec_addrs(bytes@.skip(pos as int), n as nat) == Some(
                        (acc@ + tail, rest),
                    ) by {
                        assert(spec_dec_addrs(s_pre, (n - k) as nat) == Some(
                            (seq![Address { value: xp.0 }] + tail, rest),
                        ));
                        assert(acc_pre + (seq![Address { value: xp.0 }] + tail) =~= acc@ + tail);
                    }
                }
                k += 1;
            },
        }
    }
    proof {
        assert(spec_dec_addrs(bytes@.skip(cur as int), 0) == Some(
            (Seq::<Address>::empty(), bytes@.skip(cur as int)),
        ));
        assert(acc@ + Seq::<Address>::empty() =~= acc@);
    }
    Some((acc, cur))
}

/// Read `n` credentials at byte offset `pos`.
fn read_creds(bytes: &Vec<u8>, pos: usize, n: u64) -> (r: Option<(Vec<Credential>, usize)>)
    requires
        pos <= bytes@.len(),
    ensures
        match r {
            Some(cp) => {
                &&& spec_dec_creds(bytes@.skip(pos as int), n as nat) == Some(
                    (cp.0@, bytes@.skip(cp.1 as int)),
                )
                &&& cp.1 <= bytes@.len()
            },
            None => spec_dec_creds(bytes@.skip(pos as int), n as nat) is None,
        },
{
    let mut acc: Vec<Credential> = Vec::new();
    let mut cur: usize = pos;
    let mut k: u64 = 0;
    while k < n
        invariant
            0 <= k <= n,
            cur <= bytes@.len(),
            acc@.len() == k,
            forall|tail: Seq<Credential>, rest: Seq<u8>|
                spec_dec_creds(bytes@.skip(cur as int), (n - k) as nat) == Some(
                    (tail, rest),
                ) ==> spec_dec_creds(bytes@.skip(pos as int), n as nat) == Some(
                    (acc@ + tail, rest),
                ),
            spec_dec_creds(bytes@.skip(cur as int), (n - k) as nat) is None ==> spec_dec_creds(
                bytes@.skip(pos as int),
                n as nat,
            ) is None,
        decreases n - k,
    {
        let ghost acc_pre = acc@;
        let ghost cur_pre = cur;
        match read_u64(bytes, cur) {
            None => {
                proof {
                    assert(spec_dec_creds(bytes@.skip(cur as int), (n - k) as nat) is None);
                }
                return None;
            },
            Some(xp) => {
                acc.push(Credential { value: xp.0 });
                cur = xp.1;
                proof {
                    let s_pre = bytes@.skip(cur_pre as int);
                    let s_cur = bytes@.skip(cur as int);
                    assert(spec_dec_u64(s_pre) == Some((xp.0, s_cur)));
                    assert forall|tail: Seq<Credential>, rest: Seq<u8>|
                        spec_dec_creds(s_cur, (n - k - 1) as nat) == Some(
                            (tail, rest),
                        ) implies spec_dec_creds(bytes@.skip(pos as int), n as nat) == Some(
                        (acc@ + tail, rest),
                    ) by {
                        assert(spec_dec_creds(s_pre, (n - k) as nat) == Some(
                            (seq![Credential { value: xp.0 }] + tail, rest),
                        ));
                        assert(acc_pre + (seq![Credential { value: xp.0 }] + tail) =~= acc@ + tail);
                    }
                }
                k += 1;
            },
        }
    }
    proof {
        assert(spec_dec_creds(bytes@.skip(cur as int), 0) == Some(
            (Seq::<Credential>::empty(), bytes@.skip(cur as int)),
        ));
        assert(acc@ + Seq::<Credential>::empty() =~= acc@);
    }
    Some((acc, cur))
}

/// Read `n` raw bytes at byte offset `pos`.
fn read_bytes(bytes: &Vec<u8>, pos: usize, n: u64) -> (r: Option<(Vec<u8>, usize)>)
    requires
        pos <= bytes@.len(),
    ensures
        match r {
            Some(bp) => {
                &&& spec_dec_bytes(bytes@.skip(pos as int), n as nat) == Some(
                    (bp.0@, bytes@.skip(bp.1 as int)),
                )
                &&& bp.1 <= bytes@.len()
            },
            None => spec_dec_bytes(bytes@.skip(pos as int), n as nat) is None,
        },
{
    if (bytes.len() - pos) as u64 >= n {
        proof {
            assert(n <= bytes@.len() - pos);
        }
        let count = n as usize;
        let mut acc: Vec<u8> = Vec::new();
        let mut i: usize = 0;
        while i < count
            invariant
                0 <= i <= count,
                count == n,
                pos + count <= bytes@.len() <= usize::MAX,
                acc@ == bytes@.skip(pos as int).take(count as int).take(i as int),
            decreases count - i,
        {
            acc.push(bytes[pos + i]);
            proof {
                assert(acc@ =~= bytes@.skip(pos as int).take(count as int).take(i + 1));
            }
            i += 1;
        }
        proof {
            let taken = bytes@.skip(pos as int).take(count as int);
            assert(taken.take(count as int) =~= taken);
            assert(bytes@.skip(pos as int).skip(count as int) =~= bytes@.skip(pos + count));
        }
        Some((acc, pos + count))
    } else {
        None
    }
}

/// Parse an envelope out of the wire format.  The result is exactly what
/// [`spec_decode_message`] says these bytes mean: an envelope when they
/// are an encoding, `None` otherwise.
pub fn decode_message(bytes: &Vec<u8>) -> (r: Option<SecureChannelPaddedMessage>)
    ensures
        match r {
            Some(m) => spec_decode_message(bytes@) == Some(m@),
            None => spec_decode_message(bytes@) is None,
        },
{
    if bytes.len() < 1 {
        return None;
    }
    let tag = bytes[0];
    proof {
        assert(bytes@.skip(0).skip(1) =~= bytes@.skip(1));
        assert(bytes@[0] == tag);
    }
    if tag == TAG_PAYLOAD {
        let n_on = match read_u64(bytes, 1) {
            None => { return None },
            Some(v) => v,
        };
        let on = match read_addrs(bytes, n_on.1, n_on.0) {
            None => { return None },
            Some(v) => v,
        };
        let n_ret = match read_u64(bytes, on.1) {
            None => { return None },
            Some(v) => v,
        };
        let ret = match read_addrs(bytes, n_ret.1, n_ret.0) {
            None => { return None },
            Some(v) => v,
        };
        let n_pay = match read_u64(bytes, ret.1) {
            None => { return None },
            Some(v) => v,
        };
        let pay = match read_bytes(bytes, n_pay.1, n_pay.0) {
            None => { return None },
            Some(v) => v,
        };
        let padding = match read_bytes(bytes, pay.1, (bytes.len() - pay.1) as u64) {
            None => { return None },
            Some(v) => v,
        };
        proof {
            assert(bytes@.skip(pay.1 as int).take((bytes@.len() - pay.1) as int) =~= bytes@.skip(
                pay.1 as int,
            ));
        }
        Some(
            SecureChannelPaddedMessage {
                message: SecureChannelMessage::Payload(
                    PlaintextPayloadMessage {
                        onward_route: Route::from_hops(on.0),
                        return_route: Route::from_hops(ret.0),
                        payload: pay.0,
                    },
                ),
                padding: padding.0,
            },
        )
    } else if tag == TAG_REFRESH {
        let subject = match read_u64(bytes, 1) {
            None => { return None },
            Some(v) => v,
        };
        let public_key = match read_u64(bytes, subject.1) {
            None => { return None },
            Some(v) => v,
        };
        let generation = match read_u64(bytes, public_key.1) {
            None => { return None },
            Some(v) => v,
        };
        let n_creds = match read_u64(bytes, generation.1) {
            None => { return None },
            Some(v) => v,
        };
        let creds = match read_creds(bytes, n_creds.1, n_creds.0) {
            None => { return None },
            Some(v) => v,
        };
        let padding = match read_bytes(bytes, creds.1, (bytes.len() - creds.1) as u64) {
            None => { return None },
            Some(v) => v,
        };
        proof {
            assert(bytes@.skip(creds.1 as int).take((bytes@.len() - creds.1) as int) =~= bytes@.skip(
                creds.1 as int,
            ));
        }
        Some(
            SecureChannelPaddedMessage {
                message: SecureChannelMessage::RefreshCredentials(
                    RefreshCredentialsMessage {
                        change_history: ChangeHistory {
                            subject: Identifier { value: subject.0 },
                            public_key: public_key.0,
                            generation: generation.0,
                        },
                        credentials: creds.0,
                    },
                ),
                padding: padding.0,
            },
        )
    } else if tag == TAG_CLOSE {
        let padding = match read_bytes(bytes, 1, (bytes.len() - 1) as u64) {
            None => { return None },
            Some(v) => v,
        };
        proof {
            assert(bytes@.skip(1).take((bytes@.len() - 1) as int) =~= bytes@.skip(1));
        }
        Some(SecureChannelPaddedMessage { message: SecureChannelMessage::Close, padding: padding.0 })
    } else {
        None
    }
}

} // verus!
