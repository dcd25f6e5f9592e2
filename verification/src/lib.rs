//! Decides whether the executing processor runs the PDEP/PEXT
//! bit-manipulation instructions in fast hardware form rather than in slow
//! microcode.
//!
//! The decision logic lives in [`probe`]: a step machine that asks for CPU
//! identification leaves one at a time and applies the manufacturer/family
//! heuristic. The memoization strategy lives in [`dispatch`]: a cell that
//! holds one decision procedure at a time and repoints itself at a constant
//! procedure once the probe has run. A front end that can issue the
//! identification instruction drives both; this crate itself has no such
//! access, so its own entry point is the constant-false fallback path.

use vstd::prelude::*;

pub mod dispatch;
pub mod probe;

verus! {

/// Returns `true` if the CPU is known to support fast PDEP/PEXT instructions.
///
/// "Fast" means the instructions are present and not implemented in
/// microcode. This entry point is the fallback path for targets without a
/// CPU identification instruction: it performs no hardware access and always
/// answers `false`. A probing front end replaces it with the machinery in
/// [`probe`] and [`dispatch`].
#[must_use]
pub fn has_fast_pdep() -> (r: bool)
    ensures
        r == false,
{
    inner()
}

/// The decision procedure selected on targets where no probe can run:
/// a constant, with no state and no hardware access.
#[must_use]
pub fn inner() -> (r: bool)
    ensures
        r == false,
{
    false
}

/// The constant decision procedure installed when the probe reports fast
/// PDEP/PEXT.
#[must_use]
pub fn inner_true() -> (r: bool)
    ensures
        r == true,
{
    true
}

/// The constant decision procedure installed when the probe reports slow or
/// absent PDEP/PEXT.
#[must_use]
pub fn inner_false() -> (r: bool)
    ensures
        r == false,
{
    false
}

} // verus!
