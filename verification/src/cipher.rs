//! The framing cipher of the channel.
//!
//! An encrypted buffer is laid out as `nonce (8 bytes, little endian) ||
//! body || tag (8 bytes, little endian)`.  The body is the plaintext masked
//! with a keystream derived from the key and the nonce; the tag binds the
//! key, the nonce and every byte of the body, so that any single-byte (and
//! hence any single-bit) change to the buffer is rejected on decryption.
//!
//! The cipher is a lightweight keyed stream transform: the protocol layer
//! above depends only on the round-trip and tamper-evidence properties
//! proved here, never on the particular mixing formula.
//!
//! A nonce is used at most once per key: the encryptor advances a strictly
//! increasing counter and refuses to encrypt once the configured nonce
//! space is exhausted.  Any failure poisons the cipher state; a poisoned
//! state fails every later call, so the owning worker must stop.
//!
//! The decryptor records the nonce of the last successfully authenticated
//! buffer for diagnostics.  It does not reject replayed or reordered
//! nonces: the routing substrate is assumed to deliver the messages of one
//! channel in order, which is a security-relevant boundary condition of
//! this layer.

use vstd::prelude::*;

use crate::bitops::lemma_cast_xor8;
use crate::bitops::lemma_lane_nonzero;
use crate::bitops::lemma_lane_xor;
use crate::bitops::lemma_xor64_algebra;
use crate::bitops::lemma_xor64_cancel;
use crate::bitops::lemma_xor8_flip;
use crate::bitops::lemma_xor8_involution;
use crate::bitops::mix64;
use crate::bitops::spec_mix64;
use crate::NONCE_LEN;
use crate::TAG_LEN;

use vstd::bytes::lemma_auto_spec_u64_to_from_le_bytes;
use vstd::bytes::spec_u64_from_le_bytes;
use vstd::bytes::spec_u64_to_le_bytes;
use vstd::bytes::u64_from_le_bytes;
use vstd::bytes::u64_to_le_bytes;
use vstd::slice::slice_subrange;

verus! {

/// Domain separation constant mixed into the key before computing a tag.
pub const TAG_SALT: u64 = 0x7461672d73616c74;

/// Why a cipher-state operation failed.
#[derive(Clone, Copy, Debug, PartialEq, Eq, Structural)]
pub enum CipherError {
    /// The nonce space of this cipher state is used up; the channel must be
    /// re-established, not repaired.
    Exhausted,
    /// The authentication tag of a received buffer did not verify; no
    /// plaintext is released.
    AuthenticationFailed,
    /// The cipher state was poisoned by an earlier failure and must not be
    /// reused.
    Internal,
}

/// The keystream byte at position `i` of the body, for a given key and
/// nonce.
pub open spec fn spec_keystream_byte(key: u64, nonce: u64, i: u64) -> u8 {
    (spec_mix64(spec_mix64(key ^ spec_mix64(nonce)) ^ i) & 0xff) as u8
}

/// `data` masked bytewise with the keystream of `key` and `nonce`.
pub open spec fn spec_xor_stream(key: u64, nonce: u64, data: Seq<u8>) -> Seq<u8> {
    Seq::new(data.len(), |i: int| data[i] ^ spec_keystream_byte(key, nonce, i as u64))
}

/// The 64-bit lane a body byte at position `i` contributes to the tag.
pub open spec fn spec_byte_lane(i: int, b: u8) -> u64 {
    (b as u64) << (((i % 8) * 8) as u64)
}

/// XOR-fold of a byte sequence into a 64-bit word, each byte shifted into
/// the lane of its position.
pub open spec fn spec_xor_fold(s: Seq<u8>) -> u64
    decreases s.len(),
{
    if s.len() == 0 {
        0u64
    } else {
        spec_xor_fold(s.drop_last()) ^ spec_byte_lane(s.len() - 1, s.last())
    }
}

/// The authentication tag over a ciphertext body.
pub open spec fn spec_tag(key: u64, nonce: u64, body: Seq<u8>) -> u64 {
    spec_mix64(key ^ TAG_SALT) ^ nonce ^ spec_xor_fold(body)
}

/// The encrypted buffer produced for `pt` under `key` and `nonce`.
pub open spec fn spec_encrypt(key: u64, nonce: u64, pt: Seq<u8>) -> Seq<u8> {
    let body = spec_xor_stream(key, nonce, pt);
    spec_u64_to_le_bytes(nonce) + body + spec_u64_to_le_bytes(spec_tag(key, nonce, body))
}

/// Total decryption function: the nonce and plaintext recovered from a
/// buffer, or `None` if the buffer is too short or its tag does not verify.
pub open spec fn spec_decrypt(key: u64, s: Seq<u8>) -> Option<(u64, Seq<u8>)> {
    if s.len() < NONCE_LEN + TAG_LEN {
        None
    } else {
        let nonce = spec_u64_from_le_bytes(s.subrange(0, NONCE_LEN as int));
        let body = s.subrange(NONCE_LEN as int, s.len() - TAG_LEN);
        let stored = spec_u64_from_le_bytes(s.subrange(s.len() - TAG_LEN, s.len() as int));
        if stored == spec_tag(key, nonce, body) {
            Some((nonce, spec_xor_stream(key, nonce, body)))
        } else {
            None
        }
    }
}

/// A 64-bit value encodes to eight bytes and decodes back to itself.
proof fn lemma_le_round(x: u64)
    ensures
        spec_u64_to_le_bytes(x).len() == 8,
        spec_u64_from_le_bytes(spec_u64_to_le_bytes(x)) == x,
{
    lemma_auto_spec_u64_to_from_le_bytes();
}

/// Decoding eight bytes and re-encoding them gives the bytes back, so the
/// decoding is injective on eight-byte sequences.
proof fn lemma_le_inverse(s: Seq<u8>)
    requires
        s.len() == 8,
    ensures
        spec_u64_to_le_bytes(spec_u64_from_le_bytes(s)) == s,
{
    lemma_auto_spec_u64_to_from_le_bytes();
}

/// Masking twice with the same keystream restores the data.
pub proof fn lemma_xor_stream_involution(key: u64, nonce: u64, data: Seq<u8>)
    ensures
        spec_xor_stream(key, nonce, spec_xor_stream(key, nonce, data)) == data,
{
    let once = spec_xor_stream(key, nonce, data);
    let twice = spec_xor_stream(key, nonce, once);
    assert forall|i: int| 0 <= i < data.len() implies twice[i] == data[i] by {
        lemma_xor8_involution(data[i], spec_keystream_byte(key, nonce, i as u64));
    }
    assert(twice =~= data);
}

/// Lanes of equal position distribute over XOR of the bytes.
proof fn lemma_byte_lane_xor(i: int, x: u8, y: u8)
    requires
        0 <= i,
    ensures
        spec_byte_lane(i, x) ^ spec_byte_lane(i, y) == spec_byte_lane(i, x ^ y),
{
    lemma_cast_xor8(x, y);
    lemma_lane_xor(x as u64, y as u64, ((i % 8) * 8) as u64);
}

/// A non-zero byte contributes a non-zero lane.
proof fn lemma_byte_lane_nonzero(i: int, b: u8)
    requires
        0 <= i,
        b != 0,
    ensures
        spec_byte_lane(i, b) != 0,
{
    lemma_lane_nonzero(b as u64, ((i % 8) * 8) as u64);
}

/// Replacing the byte at position `j` XORs the fold with the lane of the
/// byte difference.
proof fn lemma_xor_fold_update(s: Seq<u8>, j: int, b: u8)
    requires
        0 <= j < s.len(),
    ensures
        spec_xor_fold(s.update(j, b)) == spec_xor_fold(s) ^ spec_byte_lane(j, s[j] ^ b),
    decreases s.len(),
{
    let u = s.update(j, b);
    let last: int = s.len() - 1;
    if j == last {
        assert(u.drop_last() =~= s.drop_last());
        assert(u.last() == b);
        let f = spec_xor_fold(s.drop_last());
        let ls = spec_byte_lane(j, s[j]);
        let lb = spec_byte_lane(j, b);
        let ld = spec_byte_lane(j, s[j] ^ b);
        lemma_byte_lane_xor(j, s[j], b);
        // (f ^ ls) ^ (ls ^ lb) == f ^ lb
        assert((f ^ ls) ^ ld == f ^ lb) by {
            assert(ld == ls ^ lb);
            assert((f ^ ls) ^ (ls ^ lb) == f ^ ((ls ^ ls) ^ lb)) by {
                lemma_xor64_algebra(f, ls, ls ^ lb);
                lemma_xor64_algebra(ls, ls, lb);
            }
            assert((ls ^ ls) ^ lb == lb) by {
                lemma_xor64_algebra(ls, ls, lb);
                lemma_xor64_algebra(lb, 0, 0);
                lemma_xor64_algebra(0, lb, 0);
            }
        }
    } else {
        assert(u.drop_last() =~= s.drop_last().update(j, b));
        assert(u.last() == s.last());
        lemma_xor_fold_update(s.drop_last(), j, b);
        assert(s.drop_last()[j] == s[j]);
        let f = spec_xor_fold(s.drop_last());
        let ll = spec_byte_lane(last, s.last());
        let ld = spec_byte_lane(j, s[j] ^ b);
        // (f ^ ld) ^ ll == (f ^ ll) ^ ld
        lemma_xor64_algebra(f, ld, ll);
        lemma_xor64_algebra(f, ll, ld);
        lemma_xor64_algebra(ld, ll, 0);
    }
}

/// The step an encryptor makes on a successful encryption, using `used` as
/// the nonce of the produced buffer.
pub open spec fn encrypt_step(pre: Encryptor, post: Encryptor, used: u64) -> bool {
    &&& !pre.poisoned
    &&& pre.nonce < pre.nonce_limit
    &&& used == pre.nonce
    &&& post.key == pre.key
    &&& post.nonce == pre.nonce + 1
    &&& post.nonce_limit == pre.nonce_limit
    &&& !post.poisoned
}

/// Whether an encryptor in this state refuses to encrypt.
pub open spec fn encrypt_fails(pre: Encryptor) -> bool {
    pre.poisoned || pre.nonce >= pre.nonce_limit
}

/// Send-direction cipher state: key material and a strictly increasing
/// nonce counter, poisoned on the first failure.
pub struct Encryptor {
    /// Symmetric key for the send direction.
    pub key: u64,
    /// The nonce the next encryption will use.
    pub nonce: u64,
    /// Exclusive upper bound of the usable nonce space.
    pub nonce_limit: u64,
    /// Set on the first failure; a poisoned state never encrypts again.
    pub poisoned: bool,
}

impl Encryptor {
    /// A fresh send-direction state over the nonces `0 .. nonce_limit`.
    pub fn new(key: u64, nonce_limit: u64) -> (r: Encryptor)
        ensures
            r == (Encryptor { key, nonce: 0u64, nonce_limit, poisoned: false }),
    {
        Encryptor { key, nonce: 0, nonce_limit, poisoned: false }
    }

    /// Encrypt in place a buffer laid out as `[nonce placeholder (8) |
    /// plaintext | tag placeholder (8)]`: mask the plaintext region, write
    /// the nonce into the prefix and the tag into the suffix, then advance
    /// the nonce counter.
    ///
    /// Fails with `Exhausted` when the nonce space is used up and with
    /// `Internal` when the state was already poisoned; any failure poisons
    /// the state and leaves the buffer unchanged.
    pub fn encrypt(&mut self, buffer: &mut Vec<u8>) -> (r: Result<(), CipherError>)
        requires
            old(buffer)@.len() >= NONCE_LEN + TAG_LEN,
        ensures
            final(buffer)@.len() == old(buffer)@.len(),
            r is Ok <==> !encrypt_fails(*old(self)),
            r is Ok ==> encrypt_step(*old(self), *final(self), old(self).nonce),
            r is Ok ==> final(buffer)@ == spec_encrypt(
                old(self).key,
                old(self).nonce,
                old(buffer)@.subrange(NONCE_LEN as int, old(buffer)@.len() - TAG_LEN),
            ),
            r is Err ==> *final(self) == (Encryptor { poisoned: true, ..*old(self) })
                && final(buffer)@ == old(buffer)@,
            old(self).poisoned ==> r == Err::<(), CipherError>(CipherError::Internal),
            !old(self).poisoned && old(self).nonce >= old(self).nonce_limit ==> r == Err::<
                (),
                CipherError,
            >(CipherError::Exhausted),
    {
        if self.poisoned {
            return Err(CipherError::Internal);
        }
        if self.nonce >= self.nonce_limit {
            self.poisoned = true;
            return Err(CipherError::Exhausted);
        }
        let nonce = self.nonce;
        let key = self.key;
        let n = buffer.len();
        let ghost pt = buffer@.subrange(NONCE_LEN as int, n - TAG_LEN);
        let ghost body = spec_xor_stream(key, nonce, pt);

        // Mask the plaintext region with the keystream.
        let mut i: usize = 0;
        while i < n - NONCE_LEN - TAG_LEN
            invariant
                NONCE_LEN + TAG_LEN <= n == buffer@.len(),
                0 <= i <= n - NONCE_LEN - TAG_LEN,
                pt == old(buffer)@.subrange(NONCE_LEN as int, n - TAG_LEN),
                body == spec_xor_stream(key, nonce, pt),
                pt.len() == n - NONCE_LEN - TAG_LEN,
                body.len() == pt.len(),
                forall|k: int| 0 <= k < i ==> buffer@[NONCE_LEN + k] == body[k],
                forall|k: int| i <= k < pt.len() ==> buffer@[NONCE_LEN + k] == pt[k],
                forall|k: int| 0 <= k < NONCE_LEN ==> buffer@[k] == old(buffer)@[k],
                forall|k: int| n - TAG_LEN <= k < n ==> buffer@[k] == old(buffer)@[k],
            decreases n - NONCE_LEN - TAG_LEN - i,
        {
            let ks = keystream_byte(key, nonce, i as u64);
            let b = buffer[NONCE_LEN + i] ^ ks;
            buffer[NONCE_LEN + i] = b;
            i += 1;
        }
        assert(buffer@.subrange(NONCE_LEN as int, n - TAG_LEN) =~= body);

        // Write the nonce into the reserved prefix.
        let nonce_bytes = u64_to_le_bytes(nonce);
        let mut j: usize = 0;
        while j < NONCE_LEN
            invariant
                n == buffer@.len() >= NONCE_LEN + TAG_LEN,
                0 <= j <= NONCE_LEN,
                body.len() == n - NONCE_LEN - TAG_LEN,
                nonce_bytes@ == spec_u64_to_le_bytes(nonce),
                nonce_bytes@.len() == NONCE_LEN,
                forall|k: int| 0 <= k < j ==> buffer@[k] == spec_u64_to_le_bytes(nonce)[k],
                forall|k: int|
                    NONCE_LEN <= k < n - TAG_LEN ==> buffer@[k] == body[k - NONCE_LEN],
                forall|k: int| n - TAG_LEN <= k < n ==> buffer@[k] == old(buffer)@[k],
            decreases NONCE_LEN - j,
        {
            let b = nonce_bytes[j];
            buffer[j] = b;
            j += 1;
        }

        // Compute the tag over the masked body and write it into the
        // reserved suffix.
        let fold = xor_fold_range(buffer, NONCE_LEN, n - TAG_LEN);
        let tag = mix64(key ^ TAG_SALT) ^ nonce ^ fold;
        assert(buffer@.subrange(NONCE_LEN as int, n - TAG_LEN) =~= body);
        assert(tag == spec_tag(key, nonce, body));
        let tag_bytes = u64_to_le_bytes(tag);
        let mut t: usize = 0;
        while t < TAG_LEN
            invariant
                n == buffer@.len() >= NONCE_LEN + TAG_LEN,
                0 <= t <= TAG_LEN,
                body.len() == n - NONCE_LEN - TAG_LEN,
                tag_bytes@ == spec_u64_to_le_bytes(tag),
                tag_bytes@.len() == TAG_LEN,
                forall|k: int| 0 <= k < NONCE_LEN ==> buffer@[k] == spec_u64_to_le_bytes(nonce)[k],
                forall|k: int|
                    NONCE_LEN <= k < n - TAG_LEN ==> buffer@[k] == body[k - NONCE_LEN],
                forall|k: int|
                    n - TAG_LEN <= k < n - TAG_LEN + t ==> buffer@[k] == spec_u64_to_le_bytes(
                        tag,
                    )[k - (n - TAG_LEN)],
            decreases TAG_LEN - t,
        {
            let b = tag_bytes[t];
            buffer[n - TAG_LEN + t] = b;
            t += 1;
        }
        proof {
            lemma_le_round(nonce);
            lemma_le_round(tag);
            assert(buffer@ =~= spec_encrypt(key, nonce, pt));
        }
        self.nonce = self.nonce + 1;
        Ok(())
    }

    /// Release the key material: the key is zeroed and the state poisoned,
    /// so the object can never encrypt again.
    pub fn shutdown(&mut self)
        ensures
            *final(self) == (Encryptor {
                key: 0u64,
                nonce: old(self).nonce,
                nonce_limit: old(self).nonce_limit,
                poisoned: true,
            }),
    {
        self.key = 0;
        self.poisoned = true;
    }
}

/// Receive-direction cipher state: key material and the last authenticated
/// nonce, poisoned on the first authentication failure.
pub struct Decryptor {
    /// Symmetric key for the receive direction.
    pub key: u64,
    /// Nonce of the last successfully authenticated buffer.
    pub last_nonce: u64,
    /// Set on the first failure; a poisoned state never decrypts again.
    pub poisoned: bool,
}

impl Decryptor {
    /// A fresh receive-direction state.
    pub fn new(key: u64) -> (r: Decryptor)
        ensures
            r == (Decryptor { key, last_nonce: 0u64, poisoned: false }),
    {
        Decryptor { key, last_nonce: 0, poisoned: false }
    }

    /// Authenticate and decrypt a received buffer.  On success the
    /// recovered plaintext is returned and the nonce of the buffer is
    /// recorded; on a tag mismatch no plaintext is released and the state
    /// is poisoned.
    pub fn decrypt(&mut self, buffer: &Vec<u8>) -> (r: Result<Vec<u8>, CipherError>)
        ensures
            old(self).poisoned ==> r == Err::<Vec<u8>, CipherError>(CipherError::Internal)
                && *final(self) == *old(self),
            !old(self).poisoned ==> match spec_decrypt(old(self).key, buffer@) {
                Some(npt) => r matches Ok(p) && p@ == npt.1 && *final(self) == (Decryptor {
                    key: old(self).key,
                    last_nonce: npt.0,
                    poisoned: false,
                }),
                None => r == Err::<Vec<u8>, CipherError>(CipherError::AuthenticationFailed)
                    && *final(self) == (Decryptor { poisoned: true, ..*old(self) }),
            },
    {
        if self.poisoned {
            return Err(CipherError::Internal);
        }
        let n = buffer.len();
        if n < NONCE_LEN + TAG_LEN {
            self.poisoned = true;
            return Err(CipherError::AuthenticationFailed);
        }
        let key = self.key;
        let nonce = u64_from_le_bytes(slice_subrange(buffer.as_slice(), 0, NONCE_LEN));
        let fold = xor_fold_range(buffer, NONCE_LEN, n - TAG_LEN);
        let computed = mix64(key ^ TAG_SALT) ^ nonce ^ fold;
        let stored = u64_from_le_bytes(slice_subrange(buffer.as_slice(), n - TAG_LEN, n));
        let ghost body = buffer@.subrange(NONCE_LEN as int, n - TAG_LEN);
        if computed != stored {
            self.poisoned = true;
            return Err(CipherError::AuthenticationFailed);
        }
        let mut pt: Vec<u8> = Vec::new();
        let mut i: usize = 0;
        while i < n - NONCE_LEN - TAG_LEN
            invariant
                NONCE_LEN + TAG_LEN <= n == buffer@.len(),
                0 <= i <= n - NONCE_LEN - TAG_LEN,
                body == buffer@.subrange(NONCE_LEN as int, n - TAG_LEN),
                pt@.len() == i,
                forall|k: int|
                    0 <= k < i ==> pt@[k] == body[k] ^ spec_keystream_byte(key, nonce, k as u64),
            decreases n - NONCE_LEN - TAG_LEN - i,
        {
            let ks = keystream_byte(key, nonce, i as u64);
            let b = buffer[NONCE_LEN + i] ^ ks;
            pt.push(b);
            i += 1;
        }
        assert(pt@ =~= spec_xor_stream(key, nonce, body));
        self.last_nonce = nonce;
        Ok(pt)
    }
}

/// Executable counterpart of [`spec_keystream_byte`].
fn keystream_byte(key: u64, nonce: u64, i: u64) -> (r: u8)
    ensures
        r == spec_keystream_byte(key, nonce, i),
{
    let w = mix64(mix64(key ^ mix64(nonce)) ^ i);
    assert(w & 0xff < 256) by (bit_vector);
    (w & 0xff) as u8
}

/// XOR-fold of `v[start .. end]`, lanes counted from `start`.
fn xor_fold_range(v: &Vec<u8>, start: usize, end: usize) -> (r: u64)
    requires
        start <= end <= v@.len(),
    ensures
        r == spec_xor_fold(v@.subrange(start as int, end as int)),
{
    let ghost s = v@.subrange(start as int, end as int);
    let mut acc: u64 = 0;
    let mut i: usize = 0;
    proof {
        assert(s.take(0) =~= Seq::<u8>::empty());
    }
    while i < end - start
        invariant
            start <= end <= v@.len(),
            0 <= i <= end - start,
            s == v@.subrange(start as int, end as int),
            s.len() == end - start,
            acc == spec_xor_fold(s.take(i as int)),
        decreases end - start - i,
    {
        let b = v[start + i];
        let lane_shift: u64 = ((i % 8) as u64) * 8;
        let lane: u64 = (b as u64) << lane_shift;
        proof {
            assert(s.take(i + 1).drop_last() =~= s.take(i as int));
            assert(s.take(i + 1).last() == s[i as int]);
            assert(s[i as int] == b);
            assert(spec_byte_lane(i as int, b) == lane);
        }
        acc = acc ^ lane;
        i += 1;
    }
    proof {
        assert(s.take((end - start) as int) =~= s);
    }
    acc
}

/// Round-trip: decrypting an encrypted buffer with the matching key
/// recovers exactly the nonce and plaintext that produced it.
#[verifier::spinoff_prover]
pub proof fn lemma_cipher_round_trip(key: u64, nonce: u64, pt: Seq<u8>)
    ensures
        spec_decrypt(key, spec_encrypt(key, nonce, pt)) == Some((nonce, pt)),
{
    let body = spec_xor_stream(key, nonce, pt);
    let tag = spec_tag(key, nonce, body);
    let ct = spec_encrypt(key, nonce, pt);
    lemma_le_round(nonce);
    lemma_le_round(tag);
    assert(ct.len() == NONCE_LEN + body.len() + TAG_LEN);
    assert(ct.subrange(0, NONCE_LEN as int) =~= spec_u64_to_le_bytes(nonce));
    assert(ct.subrange(NONCE_LEN as int, ct.len() - TAG_LEN) =~= body);
    assert(ct.subrange(ct.len() - TAG_LEN, ct.len() as int) =~= spec_u64_to_le_bytes(tag));
    lemma_xor_stream_involution(key, nonce, pt);
}

/// Tamper evidence, byte form: replacing any single byte of an encrypted
/// buffer with a different value makes decryption fail.  A buffer that
/// differs from a genuine one in a single bit differs in a single byte, so
/// this covers every single-bit flip.
#[verifier::rlimit(60)]
pub proof fn lemma_cipher_tamper_detection(key: u64, nonce: u64, pt: Seq<u8>, j: int, b: u8)
    requires
        0 <= j < spec_encrypt(key, nonce, pt).len(),
        b != spec_encrypt(key, nonce, pt)[j],
    ensures
        spec_decrypt(key, spec_encrypt(key, nonce, pt).update(j, b)) is None,
{
    let body = spec_xor_stream(key, nonce, pt);
    let tag = spec_tag(key, nonce, body);
    let ct = spec_encrypt(key, nonce, pt);
    lemma_le_round(nonce);
    lemma_le_round(tag);
    let tampered = ct.update(j, b);
    let n = ct.len() as int;
    assert(n == NONCE_LEN + body.len() + TAG_LEN);
    assert(tampered.len() == n);
    assert(ct.subrange(0, NONCE_LEN as int) =~= spec_u64_to_le_bytes(nonce));
    assert(ct.subrange(NONCE_LEN as int, n - TAG_LEN) =~= body);
    assert(ct.subrange(n - TAG_LEN, n) =~= spec_u64_to_le_bytes(tag));
    if spec_decrypt(key, tampered) is Some {
        let nonce2 = spec_u64_from_le_bytes(tampered.subrange(0, NONCE_LEN as int));
        let body2 = tampered.subrange(NONCE_LEN as int, n - TAG_LEN);
        let stored2 = spec_u64_from_le_bytes(tampered.subrange(n - TAG_LEN, n));
        let base = spec_mix64(key ^ TAG_SALT);
        if j < NONCE_LEN {
            // The nonce changed, the body and stored tag did not.
            let nb = tampered.subrange(0, NONCE_LEN as int);
            assert(nb[j] == b && spec_u64_to_le_bytes(nonce)[j] != b);
            assert(nb != spec_u64_to_le_bytes(nonce));
            lemma_le_inverse(nb);
            assert(nonce2 != nonce) by {
                if nonce2 == nonce {
                    assert(spec_u64_to_le_bytes(spec_u64_from_le_bytes(nb)) == nb);
                }
            }
            assert(body2 =~= body);
            assert(tampered.subrange(n - TAG_LEN, n) =~= ct.subrange(n - TAG_LEN, n));
            assert(stored2 == spec_tag(key, nonce, body));
            // base ^ nonce2 ^ fold != base ^ nonce ^ fold
            let fold = spec_xor_fold(body);
            lemma_xor64_algebra(nonce2, fold, 0);
            lemma_xor64_algebra(nonce, fold, 0);
            lemma_xor64_cancel(fold, nonce2, nonce);
            lemma_xor64_cancel(base, nonce2 ^ fold, nonce ^ fold);
            lemma_xor64_algebra(base, nonce2, fold);
            lemma_xor64_algebra(base, nonce, fold);
            assert(spec_tag(key, nonce2, body2) != stored2);
        } else if j < n - TAG_LEN {
            // The body changed, the nonce and stored tag did not.
            assert(tampered.subrange(0, NONCE_LEN as int) =~= ct.subrange(0, NONCE_LEN as int));
            assert(nonce2 == nonce);
            assert(tampered.subrange(n - TAG_LEN, n) =~= ct.subrange(n - TAG_LEN, n));
            assert(stored2 == spec_tag(key, nonce, body));
            let bj = j - NONCE_LEN;
            assert(body2 =~= body.update(bj, b));
            lemma_xor_fold_update(body, bj, b);
            let x = body[bj];
            let delta = body[bj] ^ b;
            assert(delta != 0) by {
                assert(x ^ b == 0 ==> x == b) by (bit_vector);
                assert(body[bj] == ct[j]);
            }
            lemma_byte_lane_nonzero(bj, delta);
            let fold = spec_xor_fold(body);
            let fold2 = spec_xor_fold(body2);
            assert(fold2 == fold ^ spec_byte_lane(bj, delta));
            assert(fold2 != fold) by {
                lemma_xor64_algebra(fold, spec_byte_lane(bj, delta), 0);
                lemma_xor64_cancel(fold, spec_byte_lane(bj, delta), 0);
                lemma_xor64_algebra(fold, 0, 0);
            }
            lemma_xor64_cancel(base ^ nonce, fold2, fold);
            lemma_xor64_algebra(base, nonce, fold2);
            lemma_xor64_algebra(base, nonce, fold);
            assert(spec_tag(key, nonce2, body2) != stored2);
        } else {
            // The stored tag changed, the nonce and body did not.
            assert(tampered.subrange(0, NONCE_LEN as int) =~= ct.subrange(0, NONCE_LEN as int));
            assert(nonce2 == nonce);
            assert(body2 =~= body);
            let tb = tampered.subrange(n - TAG_LEN, n);
            let ob = ct.subrange(n - TAG_LEN, n);
            assert(ob == spec_u64_to_le_bytes(spec_tag(key, nonce, body)));
            assert(tb[j - (n - TAG_LEN)] == b && ob[j - (n - TAG_LEN)] != b);
            assert(tb != ob);
            lemma_le_inverse(tb);
            assert(stored2 != spec_tag(key, nonce, body)) by {
                if stored2 == spec_tag(key, nonce, body) {
                    assert(spec_u64_to_le_bytes(spec_u64_from_le_bytes(tb)) == tb);
                }
            }
            assert(spec_tag(key, nonce2, body2) == spec_tag(key, nonce, body));
        }
    }
}

/// Tamper evidence, bit form: flipping any non-empty set of bits inside one
/// byte of an encrypted buffer makes decryption fail.
pub proof fn lemma_cipher_tamper_bit(key: u64, nonce: u64, pt: Seq<u8>, j: int, mask: u8)
    requires
        0 <= j < spec_encrypt(key, nonce, pt).len(),
        mask != 0,
    ensures
        spec_decrypt(
            key,
            spec_encrypt(key, nonce, pt).update(j, spec_encrypt(key, nonce, pt)[j] ^ mask),
        ) is None,
{
    let ct = spec_encrypt(key, nonce, pt);
    lemma_xor8_flip(ct[j], mask);
    lemma_cipher_tamper_detection(key, nonce, pt, j, ct[j] ^ mask);
}

/// In a chain of successful encryptions the nonces of consecutive steps
/// follow each other directly.
proof fn lemma_nonce_chain(states: Seq<Encryptor>, nonces: Seq<u64>, i: int, j: int)
    requires
        states.len() == nonces.len() + 1,
        forall|k: int|
            0 <= k < nonces.len() ==> encrypt_step(states[k], states[k + 1], #[trigger] nonces[k]),
        0 <= i <= j < states.len(),
    ensures
        states[j].nonce - states[i].nonce == j - i,
    decreases j - i,
{
    if i < j {
        lemma_nonce_chain(states, nonces, i, j - 1);
        assert(encrypt_step(states[j - 1], states[j], nonces[j - 1]));
    }
}

/// Nonce monotonicity: over any chain of successful encryptions on one
/// encryptor, the produced nonces are strictly increasing, so no nonce is
/// ever repeated.
pub proof fn lemma_nonce_monotonic(states: Seq<Encryptor>, nonces: Seq<u64>, i: int, j: int)
    requires
        states.len() == nonces.len() + 1,
        forall|k: int|
            0 <= k < nonces.len() ==> encrypt_step(states[k], states[k + 1], #[trigger] nonces[k]),
        0 <= i < j < nonces.len(),
    ensures
        nonces[i] < nonces[j],
{
    lemma_nonce_chain(states, nonces, i, j);
    assert(encrypt_step(states[i], states[i + 1], nonces[i]));
    assert(encrypt_step(states[j], states[j + 1], nonces[j]));
}

/// Fail-stop: a poisoned encryptor refuses every further encryption, so a
/// failed state can never silently reuse a nonce.
pub proof fn lemma_poisoned_fails(e: Encryptor)
    requires
        e.poisoned,
    ensures
        encrypt_fails(e),
{
}

} // verus!
