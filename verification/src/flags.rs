//! Scene flag bits and the boolean queries over them.
//!
//! The flag values are a fixed, versioned part of the foreign scene-import
//! library's public ABI; they are pinned here rather than re-derived.

use vstd::prelude::*;

verus! {

/// The imported scene is not complete (some data is missing).
pub const AI_SCENE_FLAGS_INCOMPLETE: u32 = 0x1;

/// The scene was successfully validated by the validation post-process step.
pub const AI_SCENE_FLAGS_VALIDATED: u32 = 0x2;

/// The validation post-process step reported warnings for this scene.
pub const AI_SCENE_FLAGS_VALIDATION_WARNING: u32 = 0x4;

/// The scene is in a non-verbose format (identical vertices were joined).
pub const AI_SCENE_FLAGS_NON_VERBOSE_FORMAT: u32 = 0x8;

/// The scene holds height-map terrain data.
pub const AI_SCENE_FLAGS_TERRAIN: u32 = 0x10;

/// A single flag bit is set in a flag bitset.
pub open spec fn has_flag(flags: u32, bit: u32) -> bool {
    flags & bit != 0
}

/// Tests one flag bit of a bitset.
pub fn flag_set(flags: u32, bit: u32) -> (r: bool)
    ensures
        r == has_flag(flags, bit),
{
    flags & bit != 0
}

/// The bitset built by setting exactly the chosen scene flags.
pub open spec fn flags_from(inc: bool, val: bool, warn: bool, nonv: bool, terr: bool) -> u32 {
    (if inc {
        AI_SCENE_FLAGS_INCOMPLETE
    } else {
        0
    }) | (if val {
        AI_SCENE_FLAGS_VALIDATED
    } else {
        0
    }) | (if warn {
        AI_SCENE_FLAGS_VALIDATION_WARNING
    } else {
        0
    }) | (if nonv {
        AI_SCENE_FLAGS_NON_VERBOSE_FORMAT
    } else {
        0
    }) | (if terr {
        AI_SCENE_FLAGS_TERRAIN
    } else {
        0
    })
}

proof fn lemma_five_bits(a: u32, b: u32, c: u32, d: u32, e: u32)
    by (bit_vector)
    requires
        a == 0 || a == 0x1,
        b == 0 || b == 0x2,
        c == 0 || c == 0x4,
        d == 0 || d == 0x8,
        e == 0 || e == 0x10,
    ensures
        ((a | b | c | d | e) & 0x1u32 != 0) == (a == 0x1),
        ((a | b | c | d | e) & 0x2u32 != 0) == (b == 0x2),
        ((a | b | c | d | e) & 0x4u32 != 0) == (c == 0x4),
        ((a | b | c | d | e) & 0x8u32 != 0) == (d == 0x8),
        ((a | b | c | d | e) & 0x10u32 != 0) == (e == 0x10),
{
}

/// Law: the five flag predicates are independent. Whatever subset of the
/// five scene flag bits is set, each predicate answers true exactly when its
/// own bit was chosen: setting only one bit makes that one predicate true
/// and the other four false, and setting several bits makes exactly those
/// predicates true.
pub proof fn lemma_flag_independence(inc: bool, val: bool, warn: bool, nonv: bool, terr: bool)
    ensures
        has_flag(flags_from(inc, val, warn, nonv, terr), AI_SCENE_FLAGS_INCOMPLETE) == inc,
        has_flag(flags_from(inc, val, warn, nonv, terr), AI_SCENE_FLAGS_VALIDATED) == val,
        has_flag(flags_from(inc, val, warn, nonv, terr), AI_SCENE_FLAGS_VALIDATION_WARNING)
            == warn,
        has_flag(flags_from(inc, val, warn, nonv, terr), AI_SCENE_FLAGS_NON_VERBOSE_FORMAT)
            == nonv,
        has_flag(flags_from(inc, val, warn, nonv, terr), AI_SCENE_FLAGS_TERRAIN) == terr,
{
    let a: u32 = if inc {
        AI_SCENE_FLAGS_INCOMPLETE
    } else {
        0
    };
    let b: u32 = if val {
        AI_SCENE_FLAGS_VALIDATED
    } else {
        0
    };
    let c: u32 = if warn {
        AI_SCENE_FLAGS_VALIDATION_WARNING
    } else {
        0
    };
    let d: u32 = if nonv {
        AI_SCENE_FLAGS_NON_VERBOSE_FORMAT
    } else {
        0
    };
    let e: u32 = if terr {
        AI_SCENE_FLAGS_TERRAIN
    } else {
        0
    };
    lemma_five_bits(a, b, c, d, e);
    assert(flags_from(inc, val, warn, nonv, terr) == a | b | c | d | e);
}

} // verus!
