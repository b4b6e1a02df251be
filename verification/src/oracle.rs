//! The keyed digest oracle: holds a fixed secret 12-byte key for its
//! lifetime and maps a 144-byte message to an 8-byte digest,
//! deterministically and with the declared per-bit leakage built in by
//! construction, so that the attack's assumptions are explicit, testable
//! properties of this reference digest rather than incidental behaviour.

use vstd::prelude::*;
use crate::recovery::{key_bit, DIGEST_LEN, FLIP_HIGH, MSG_LEN, TARGET_KEY_BYTE};

verus! {

/// Length in bytes of the oracle's secret key.
pub const KEY_LEN: usize = 12;

/// The oracle's digest map for a given key. Output byte `j` is key byte `j`
/// with its least significant bit toggled exactly when both the most
/// significant bit of message byte `135 - j` and bit `j` of key byte 5 are
/// set. Hence output byte `j` depends on no message byte other than
/// `135 - j` — the independence the leakage contract relies on — and
/// toggling the top bit of message byte `135 - j` moves the output's least
/// significant bit precisely when key bit `j` of byte 5 is set.
pub open spec fn digest_spec(key: Seq<u8>, m: Seq<u8>) -> Seq<u8> {
    Seq::new(
        DIGEST_LEN as nat,
        |j: int| key[j] ^ (((m[FLIP_HIGH - j] >> 7) & 1) & key_bit(key[TARGET_KEY_BYTE as int], j)),
    )
}

/// The digest map of an oracle keyed with `key`, as a function value: what
/// the oracle's query capability computes on every message.
pub open spec fn oracle_map(key: Seq<u8>) -> spec_fn(Seq<u8>) -> Seq<u8> {
    |m: Seq<u8>| digest_spec(key, m)
}

/// A keyed digest oracle. The key is fixed at construction, never exposed,
/// and immutable for the oracle's lifetime.
pub struct BlackBox {
    key: [u8; KEY_LEN],
}

impl View for BlackBox {
    type V = Seq<u8>;

    closed spec fn view(&self) -> Seq<u8> {
        self.key@
    }
}

/// Relies on rand's `OsRng`, the operating system's cryptographically
/// secure random source, to fill all 12 key bytes; `fill_bytes` panics if
/// that source fails, which is the intended abort: no fallback source would
/// preserve the security property under test. Nothing is promised of the
/// bytes themselves — no contract could pin a random value.
#[verifier::external_body]
fn random_key() -> (key: [u8; KEY_LEN])
{
    let mut key = [0u8; KEY_LEN];
    rand::RngCore::fill_bytes(&mut rand::rngs::OsRng, &mut key);
    key
}

impl BlackBox {
    /// Constructs an oracle with a fresh, uniformly random key drawn from
    /// the operating system's secure source.
    pub fn new() -> (bb: Self)
        ensures
            bb@.len() == KEY_LEN as nat,
    {
        BlackBox { key: random_key() }
    }

    /// Constructs an oracle holding the given key, so that tests can supply
    /// a fixed key deterministically.
    pub fn with_key(key: [u8; KEY_LEN]) -> (bb: Self)
        ensures
            bb@ == key@,
    {
        BlackBox { key }
    }

    /// The digest of a 144-byte message under the oracle's key: exactly
    /// `digest_spec` of the key and the message, so two calls on identical
    /// messages return identical output.
    pub fn digest(&self, msg: &[u8]) -> (r: [u8; 8])
        requires
            msg@.len() == MSG_LEN as nat,
        ensures
            r@ == digest_spec(self@, msg@),
    {
        let mut out = [0u8; DIGEST_LEN];
        let mut j: usize = 0;
        while j < DIGEST_LEN
            invariant
                msg@.len() == MSG_LEN as nat,
                j <= 8,
                forall|i: int| 0 <= i < j ==> #[trigger] out@[i] == digest_spec(self@, msg@)[i],
            decreases 8 - j,
        {
            let mask = ((msg[FLIP_HIGH - j] >> 7) & 1) & ((self.key[TARGET_KEY_BYTE] >> (7 - j)) & 1);
            out[j] = self.key[j] ^ mask;
            j = j + 1;
        }
        proof {
            assert(out@ =~= digest_spec(self@, msg@));
        }
        out
    }

    /// Whether `b` equals the oracle's key byte at index 5 — the ground
    /// truth a harness checks a recovered byte against, without the key
    /// itself ever leaving the oracle.
    pub fn confirms_key_byte(&self, b: u8) -> (r: bool)
        ensures
            r == (b == self@[TARGET_KEY_BYTE as int]),
    {
        b == self.key[TARGET_KEY_BYTE]
    }
}

/// The oracle is deterministic: for a fixed key, the digests of identical
/// messages are identical.
pub proof fn lemma_digest_deterministic(key: Seq<u8>, m1: Seq<u8>, m2: Seq<u8>)
    requires
        m1 == m2,
    ensures
        digest_spec(key, m1) == digest_spec(key, m2),
{
}

} // verus!
