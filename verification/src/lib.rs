//! Differential recovery of one byte of the secret key behind a keyed
//! message-digest oracle.
//!
//! The library has three parts. [`oracle::BlackBox`] is a keyed digest
//! oracle: it holds a fixed, secret 12-byte key and deterministically maps
//! a 144-byte message to an 8-byte digest whose map leaks one key bit per
//! output byte, by construction. [`recovery::recover_6th_omak_byte`] is the
//! attack: given nothing but a query capability of the oracle's digest
//! signature, it reconstructs key byte 5 from exactly 9 queries — one
//! baseline plus one accumulating single-bit differential per key bit — and
//! its contract pins the result to the oracle's digest map.
//! [`harness::run_harness`] ties the two together: it keys an oracle from
//! the operating system's secure random source, runs the attack against it,
//! and checks the recovered byte against the oracle's ground truth; that
//! the check succeeds for every key is proved, not sampled.

pub mod harness;
pub mod oracle;
pub mod recovery;

pub use harness::recover_from_oracle;
pub use harness::run_harness;
pub use oracle::BlackBox;
pub use recovery::recover_6th_omak_byte;
