//! The format version gate.

use vstd::prelude::*;

verus! {

/// The raw profile format version that this crate reads and writes.
pub const INSTR_PROF_RAW_VERSION: u64 = 10;

/// The bits of the version word that carry variant flags rather than the version.
pub const VARIANT_MASKS_ALL: u64 = 0xffff_ffff_0000_0000;

/// The version word with its variant bits cleared.
pub open spec fn masked_version(word: u64) -> u64 {
    word & !VARIANT_MASKS_ALL
}

/// Whether a runtime that reports `word` speaks the format of this crate.
pub open spec fn version_matches(word: u64) -> bool {
    masked_version(word) == INSTR_PROF_RAW_VERSION
}

/// Tests the version word that the runtime reports against the format version of this crate.
pub fn check_version(word: u64) -> (ok: bool)
    ensures
        ok == version_matches(word),
{
    (word & !VARIANT_MASKS_ALL) == INSTR_PROF_RAW_VERSION
}

/// Clearing the variant bits leaves the low 32 bits of the word: two words
/// agree after masking exactly when they agree modulo 2^32.
pub proof fn lemma_masked_version_is_low_word(word: u64)
    ensures
        masked_version(word) == word % 0x1_0000_0000,
{
    assert(word & !0xffff_ffff_0000_0000u64 == word % 0x1_0000_0000) by (bit_vector);
}

} // verus!
