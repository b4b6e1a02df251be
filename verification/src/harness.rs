//! The verification harness: proves that the oracle's digest map honors the
//! leakage contract, runs the attack against a live oracle, and checks the
//! recovered byte against the oracle's ground truth.

use vstd::prelude::*;
use crate::oracle::{digest_spec, oracle_map, BlackBox};
use crate::recovery::{
    attack_msg, attack_shaped, honors_leakage, key_bit, lemma_leakage_recovers_key, obeys_oracle,
    recover_6th_omak_byte, recovered_bit, recovered_byte, FLIP_MASK, MSG_LEN, TARGET_KEY_BYTE,
};

verus! {

/// The oracle's digest map honors the leakage contract for its own key
/// byte 5, whatever the key: at every differential step `j`, the flip of
/// message byte `135 - j` toggles the least significant bit of output byte
/// `j` exactly when bit `j` of key byte 5 is set, and the flips accumulated
/// at other offsets leave that relation untouched.
pub proof fn lemma_oracle_honors_leakage(key: Seq<u8>)
    ensures
        honors_leakage(oracle_map(key), key[5]),
{
    let d = oracle_map(key);
    let k5 = key[5];
    assert forall|j: int| 0 <= j < 8 implies #[trigger] recovered_bit(d, j) == key_bit(k5, j) by {
        let kb = key_bit(k5, j);
        let kj = key[j];
        assert(attack_msg(0)[135 - j] == 0u8);
        assert(attack_msg(j + 1)[135 - j] == FLIP_MASK);
        assert(d(attack_msg(0))[j] == kj ^ (((0u8 >> 7) & 1) & kb));
        assert(d(attack_msg(j + 1))[j] == kj ^ (((FLIP_MASK >> 7) & 1) & kb));
        let y = k5 >> (7 - j);
        assert(kb == y & 1);
        assert(((kj ^ (((0u8 >> 7) & 1) & kb)) ^ (kj ^ (((0x80u8 >> 7) & 1) & kb))) & 1 == kb)
            by (bit_vector)
            requires
                kb == y & 1,
        ;
    }
}

/// Runs the differential attack against a live oracle, querying it through
/// its digest capability alone, and returns — provably, for every key — the
/// oracle's key byte at index 5.
pub fn recover_from_oracle(bb: &BlackBox) -> (b: u8)
    ensures
        b == bb@[TARGET_KEY_BYTE as int],
{
    let query = |m: &[u8]| -> (r: [u8; 8])
        requires
            m@.len() == MSG_LEN as nat,
        ensures
            r@ == digest_spec(bb@, m@),
        { bb.digest(m) };
    proof {
        assert forall|m: &[u8]| attack_shaped(m@) implies #[trigger] call_requires(
            query,
            (m,),
        ) by {}
        assert forall|m: &[u8], r: [u8; 8]| #[trigger] call_ensures(query, (m,), r) implies r@
            == oracle_map(bb@)(m@) by {}
        assert(obeys_oracle(query, oracle_map(bb@)));
    }
    let b = recover_6th_omak_byte(query);
    proof {
        assert(b == recovered_byte(oracle_map(bb@)));
        lemma_oracle_honors_leakage(bb@);
        lemma_leakage_recovers_key(oracle_map(bb@), bb@[5]);
    }
    b
}

/// One full harness run: constructs an oracle with a fresh random key, runs
/// the attack against it, and checks the recovered byte against the
/// oracle's true key byte 5. Proved to succeed for every key the random
/// source may produce.
pub fn run_harness() -> (ok: bool)
    ensures
        ok,
{
    let bb = BlackBox::new();
    let b = recover_from_oracle(&bb);
    bb.confirms_key_byte(b)
}

} // verus!
