//! The differential attack: reconstructs one key byte of a keyed digest
//! oracle from nine queries, together with the leakage contract the attack
//! assumes of the oracle and the proofs tying the two together.

use vstd::prelude::*;

verus! {

/// Length in bytes of every message handed to the digest oracle.
pub const MSG_LEN: usize = 144;

/// Length in bytes of a digest output.
pub const DIGEST_LEN: usize = 8;

/// Index of the key byte that the attack reconstructs.
pub const TARGET_KEY_BYTE: usize = 5;

/// Mask that toggles the most significant bit of a message byte.
pub const FLIP_MASK: u8 = 0x80;

/// Highest message byte offset the attack flips; step `j` flips `135 - j`.
pub const FLIP_HIGH: usize = 135;

/// Lowest message byte offset the attack flips.
pub const FLIP_LOW: usize = 128;

/// The attack's message buffer after `j` differential steps: all zero except
/// that the most significant bit of the `j` byte offsets `135 - j + 1 ..= 135`
/// is set. Step flips accumulate, so `attack_msg(j)` extends `attack_msg(j - 1)`
/// by one more flipped byte; `attack_msg(0)` is the all-zero baseline message.
pub open spec fn attack_msg(j: int) -> Seq<u8> {
    Seq::new(
        MSG_LEN as nat,
        |i: int| if FLIP_HIGH - j < i <= FLIP_HIGH as int {
            FLIP_MASK
        } else {
            0u8
        },
    )
}

/// A message of the shape the attack queries: exactly 144 bytes, zero
/// everywhere except that bytes at offsets `128 ..= 135` may have their most
/// significant bit set.
pub open spec fn attack_shaped(m: Seq<u8>) -> bool {
    &&& m.len() == MSG_LEN as nat
    &&& forall|i: int|
        0 <= i < m.len() && !(FLIP_LOW as int <= i <= FLIP_HIGH as int) ==> #[trigger] m[i] == 0u8
    &&& forall|i: int|
        FLIP_LOW as int <= i <= FLIP_HIGH as int ==> #[trigger] m[i] == 0u8 || m[i] == FLIP_MASK
}

/// The query capability `f` behaves as the mathematical digest map `d`:
/// every output it can produce for a message equals `d` at that message.
/// This is the determinism assumption on the oracle.
pub open spec fn obeys_oracle<F: Fn(&[u8]) -> [u8; 8]>(
    f: F,
    d: spec_fn(Seq<u8>) -> Seq<u8>,
) -> bool {
    forall|m: &[u8], r: [u8; 8]| #[trigger] call_ensures(f, (m,), r) ==> r@ == d(m@)
}

/// Bit `j` (counting from the most significant bit as bit 0) of key byte `k`.
pub open spec fn key_bit(k: u8, j: int) -> u8 {
    (k >> (7 - j)) & 1
}

/// The key bit the attack reads off at differential step `j`: the change a
/// flip of message byte `135 - j` makes to the least significant bit of
/// digest output byte `j`.
pub open spec fn recovered_bit(d: spec_fn(Seq<u8>) -> Seq<u8>, j: int) -> u8 {
    (d(attack_msg(0))[j] ^ d(attack_msg(j + 1))[j]) & 1
}

/// The accumulator after the first `j` differential steps: recovered bits
/// `0 .. j`, most significant first.
pub open spec fn assemble(d: spec_fn(Seq<u8>) -> Seq<u8>, j: int) -> u8
    decreases j,
{
    if j <= 0 {
        0u8
    } else {
        assemble(d, j - 1) | (recovered_bit(d, j - 1) << (7 - (j - 1)))
    }
}

/// The byte the attack reconstructs from a digest map `d`: all eight
/// recovered bits assembled most significant first.
pub open spec fn recovered_byte(d: spec_fn(Seq<u8>) -> Seq<u8>) -> u8 {
    assemble(d, 8)
}

/// The leakage contract the attack assumes of the oracle: at every
/// differential step `j`, toggling the most significant bit of message byte
/// `135 - j` — with all earlier flips still in place — changes the least
/// significant bit of digest output byte `j` exactly when bit `j` of key
/// byte 5 is set.
pub open spec fn honors_leakage(d: spec_fn(Seq<u8>) -> Seq<u8>, k5: u8) -> bool {
    forall|j: int| 0 <= j < 8 ==> #[trigger] recovered_bit(d, j) == key_bit(k5, j)
}

/// Every message the attack queries — the baseline (`j == 0`) and the buffer
/// after each of the 8 differential steps — is exactly 144 bytes and differs
/// from the all-zero message only in the most significant bits of byte
/// offsets `128 ..= 135`.
pub proof fn lemma_attack_messages_shape(j: int)
    requires
        0 <= j <= 8,
    ensures
        attack_msg(j).len() == MSG_LEN as nat,
        attack_shaped(attack_msg(j)),
{
}

/// Reconstructs key byte 5 of the oracle behind the query capability
/// `digest`, by comparing a baseline digest of the all-zero 144-byte message
/// against 8 differential digests, one per key bit, most significant first.
/// Flips accumulate in the message buffer across steps; the capability is
/// only required to accept messages of the attack's shape, so verification
/// itself checks that no other message is ever queried. Exactly 9 queries
/// are issued, with no branching on any digest's content.
///
/// For every digest map `d` the capability may implement, the result is
/// pinned to `recovered_byte(d)`; when `d` honors the leakage contract,
/// [`lemma_leakage_recovers_key`] turns that into the oracle's key byte 5.
pub fn recover_6th_omak_byte<F: Fn(&[u8]) -> [u8; 8]>(digest: F) -> (b: u8)
    requires
        forall|m: &[u8]| attack_shaped(m@) ==> #[trigger] call_requires(digest, (m,)),
    ensures
        forall|d: spec_fn(Seq<u8>) -> Seq<u8>|
            #[trigger] obeys_oracle(digest, d) ==> b == recovered_byte(d),
{
    let mut msg = [0u8; MSG_LEN];
    proof {
        assert(msg@ =~= attack_msg(0));
        lemma_attack_messages_shape(0);
    }

    // Baseline: the digest of the all-zero message under the unknown key.
    let hash = digest(msg.as_slice());

    let mut byte: u8 = 0;
    // For every bit of key byte 5, most significant first...
    for j in 0..8usize
        invariant
            msg@ == attack_msg(j as int),
            forall|m: &[u8]| attack_shaped(m@) ==> #[trigger] call_requires(digest, (m,)),
            forall|d: spec_fn(Seq<u8>) -> Seq<u8>|
                #[trigger] obeys_oracle(digest, d)
                    ==> hash@ == d(attack_msg(0)) && byte == assemble(d, j as int),
    {
        // Inject the differential: toggle the top bit of byte 135 - j.
        let idx = FLIP_HIGH - j;
        msg[idx] = msg[idx] ^ FLIP_MASK;
        proof {
            assert(attack_msg(j as int)[idx as int] == 0u8);
            assert(0u8 ^ FLIP_MASK == FLIP_MASK) by (bit_vector);
            assert(msg@ =~= attack_msg(j as int + 1));
            lemma_attack_messages_shape(j as int + 1);
        }

        // Query the mutated message.
        let diff = digest(msg.as_slice());

        // Recover the key bit from the change in output byte j.
        let lsb = (hash[j] ^ diff[j]) & 1;
        let shifted = lsb << (7 - j);
        proof {
            assert forall|d: spec_fn(Seq<u8>) -> Seq<u8>| #[trigger] obeys_oracle(digest, d)
                implies hash@ == d(attack_msg(0)) && (byte | shifted) == assemble(
                d,
                j as int + 1,
            ) by {
                assert(diff@ == d(attack_msg(j as int + 1)));
                assert(lsb == recovered_bit(d, j as int));
                assert(assemble(d, j as int + 1) == assemble(d, j as int) | (recovered_bit(
                    d,
                    j as int,
                ) << (7 - j as int)));
            }
        }

        // Merge into the accumulator.
        byte = byte | shifted;
    }
    byte
}

/// The attack is correct against any oracle that honors the leakage
/// contract: the byte assembled from the eight recovered bits is exactly
/// key byte 5.
pub proof fn lemma_leakage_recovers_key(d: spec_fn(Seq<u8>) -> Seq<u8>, k5: u8)
    requires
        honors_leakage(d, k5),
    ensures
        recovered_byte(d) == k5,
{
    let b0 = key_bit(k5, 0);
    let b1 = key_bit(k5, 1);
    let b2 = key_bit(k5, 2);
    let b3 = key_bit(k5, 3);
    let b4 = key_bit(k5, 4);
    let b5 = key_bit(k5, 5);
    let b6 = key_bit(k5, 6);
    let b7 = key_bit(k5, 7);
    assert(assemble(d, 0) == 0u8);
    assert(assemble(d, 1) == 0u8 | (b0 << 7));
    assert(assemble(d, 2) == assemble(d, 1) | (b1 << 6));
    assert(assemble(d, 3) == assemble(d, 2) | (b2 << 5));
    assert(assemble(d, 4) == assemble(d, 3) | (b3 << 4));
    assert(assemble(d, 5) == assemble(d, 4) | (b4 << 3));
    assert(assemble(d, 6) == assemble(d, 5) | (b5 << 2));
    assert(assemble(d, 7) == assemble(d, 6) | (b6 << 1));
    assert(assemble(d, 8) == assemble(d, 7) | (b7 << 0));
    assert((((((((0u8 | (b0 << 7)) | (b1 << 6)) | (b2 << 5)) | (b3 << 4)) | (b4 << 3)) | (b5 << 2))
        | (b6 << 1)) | (b7 << 0) == k5) by (bit_vector)
        requires
            b0 == (k5 >> 7) & 1,
            b1 == (k5 >> 6) & 1,
            b2 == (k5 >> 5) & 1,
            b3 == (k5 >> 4) & 1,
            b4 == (k5 >> 3) & 1,
            b5 == (k5 >> 2) & 1,
            b6 == (k5 >> 1) & 1,
            b7 == (k5 >> 0) & 1,
    ;
}

/// The attack is deterministic: two runs against the same oracle, queried
/// through the same capability, return the same byte, since the contract of
/// [`recover_6th_omak_byte`] pins each result to the oracle's digest map.
pub proof fn lemma_recover_deterministic<F: Fn(&[u8]) -> [u8; 8]>(
    digest: F,
    d: spec_fn(Seq<u8>) -> Seq<u8>,
    b1: u8,
    b2: u8,
)
    requires
        obeys_oracle(digest, d),
        forall|dd: spec_fn(Seq<u8>) -> Seq<u8>|
            #[trigger] obeys_oracle(digest, dd) ==> b1 == recovered_byte(dd),
        forall|dd: spec_fn(Seq<u8>) -> Seq<u8>|
            #[trigger] obeys_oracle(digest, dd) ==> b2 == recovered_byte(dd),
    ensures
        b1 == b2,
{
}

} // verus!
