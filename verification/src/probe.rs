//! The feature prober: the manufacturer/family heuristic over CPU
//! identification leaves, phrased as a step machine so that a front end with
//! access to the identification instruction can feed it one leaf at a time.

use vstd::prelude::*;

verus! {

/// One response of the CPU identification instruction: the four machine
/// words a leaf query returns, in their conventional register names.
#[derive(Clone, Copy, PartialEq, Eq, Structural, Debug)]
pub struct CpuidLeaf {
    pub eax: u32,
    pub ebx: u32,
    pub ecx: u32,
    pub edx: u32,
}

/// Family-code sum of the AMD Zen, Zen+ and Zen2 generation, which
/// implements PDEP/PEXT in microcode.
pub const ZEN_FAMILY_CODE: u32 = 0x17;

/// Family-code sum of the Hygon Dhyana generation, the equivalent of Zen
/// silicon, likewise microcoded.
pub const DHYANA_FAMILY_CODE: u32 = 0x18;

/// The four bytes of a machine word, least significant first, as the
/// identification convention lays vendor text out in memory.
pub open spec fn word_bytes(w: u32) -> Seq<u8> {
    seq![
        (w & 0xFF) as u8,
        ((w >> 8) & 0xFF) as u8,
        ((w >> 16) & 0xFF) as u8,
        ((w >> 24) & 0xFF) as u8,
    ]
}

/// The 12-byte manufacturer identifier carried by the vendor leaf: the
/// EBX word, then the EDX word, then the ECX word, each in byte order.
pub open spec fn manufacturer_bytes(leaf0: CpuidLeaf) -> Seq<u8> {
    word_bytes(leaf0.ebx) + word_bytes(leaf0.edx) + word_bytes(leaf0.ecx)
}

/// The manufacturer identifier of AMD silicon, the bytes of "AuthenticAMD".
pub open spec fn amd_manufacturer() -> Seq<u8> {
    seq![65u8, 117u8, 116u8, 104u8, 101u8, 110u8, 116u8, 105u8, 99u8, 65u8, 77u8, 68u8]
}

/// The manufacturer identifier of Hygon silicon, the bytes of "HygonGenuine".
pub open spec fn hygon_manufacturer() -> Seq<u8> {
    seq![72u8, 121u8, 103u8, 111u8, 110u8, 71u8, 101u8, 110u8, 117u8, 105u8, 110u8, 101u8]
}

/// Whether the vendor leaf names one of the two manufacturers whose
/// generations are screened for microcoded PDEP/PEXT.
pub open spec fn flagged_manufacturer(leaf0: CpuidLeaf) -> bool {
    manufacturer_bytes(leaf0) == amd_manufacturer()
        || manufacturer_bytes(leaf0) == hygon_manufacturer()
}

/// Appends the four bytes of `w`, least significant first.
fn push_word_bytes(v: &mut Vec<u8>, w: u32)
    ensures
        final(v)@ == old(v)@ + word_bytes(w),
{
    v.push((w & 0xFF) as u8);
    v.push(((w >> 8) & 0xFF) as u8);
    v.push(((w >> 16) & 0xFF) as u8);
    v.push(((w >> 24) & 0xFF) as u8);
    proof {
        assert(v@ =~= old(v)@ + word_bytes(w));
    }
}

/// Assembles the 12-byte manufacturer identifier from the vendor leaf, in
/// the order the identification convention mandates: EBX, then EDX, then ECX.
pub fn manufacturer_id(leaf0: &CpuidLeaf) -> (r: Vec<u8>)
    ensures
        r@ == manufacturer_bytes(*leaf0),
{
    let mut v: Vec<u8> = Vec::new();
    push_word_bytes(&mut v, leaf0.ebx);
    push_word_bytes(&mut v, leaf0.edx);
    push_word_bytes(&mut v, leaf0.ecx);
    proof {
        assert(v@ =~= manufacturer_bytes(*leaf0));
    }
    v
}

/// The AMD manufacturer identifier as bytes.
pub fn amd_manufacturer_id() -> (r: Vec<u8>)
    ensures
        r@ == amd_manufacturer(),
{
    let mut v: Vec<u8> = Vec::new();
    v.push(65u8);
    v.push(117u8);
    v.push(116u8);
    v.push(104u8);
    v.push(101u8);
    v.push(110u8);
    v.push(116u8);
    v.push(105u8);
    v.push(99u8);
    v.push(65u8);
    v.push(77u8);
    v.push(68u8);
    proof {
        assert(v@ =~= amd_manufacturer());
    }
    v
}

/// The Hygon manufacturer identifier as bytes.
pub fn hygon_manufacturer_id() -> (r: Vec<u8>)
    ensures
        r@ == hygon_manufacturer(),
{
    let mut v: Vec<u8> = Vec::new();
    v.push(72u8);
    v.push(121u8);
    v.push(103u8);
    v.push(111u8);
    v.push(110u8);
    v.push(71u8);
    v.push(101u8);
    v.push(110u8);
    v.push(117u8);
    v.push(105u8);
    v.push(110u8);
    v.push(101u8);
    proof {
        assert(v@ =~= hygon_manufacturer());
    }
    v
}

/// Byte-for-byte comparison of two byte strings.
fn bytes_equal(a: &Vec<u8>, b: &Vec<u8>) -> (r: bool)
    ensures
        r == (a@ == b@),
{
    if a.len() != b.len() {
        proof {
            assert(a@.len() != b@.len());
        }
        return false;
    }
    let mut i: usize = 0;
    while i < a.len()
        invariant
            i <= a.len(),
            a@.len() == b@.len(),
            forall|j: int| 0 <= j < i ==> a@[j] == b@[j],
        decreases a.len() - i,
    {
        if a[i] != b[i] {
            return false;
        }
        i += 1;
    }
    proof {
        assert(a@ =~= b@);
    }
    true
}

/// Whether the vendor leaf names AMD or Hygon, the two manufacturers whose
/// flagged generations run PDEP/PEXT in microcode.
pub fn is_flagged_manufacturer(leaf0: &CpuidLeaf) -> (r: bool)
    ensures
        r == flagged_manufacturer(*leaf0),
{
    let id = manufacturer_id(leaf0);
    let amd = amd_manufacturer_id();
    if bytes_equal(&id, &amd) {
        return true;
    }
    let hygon = hygon_manufacturer_id();
    bytes_equal(&id, &hygon)
}

/// The family code the family leaf reports: the base family field plus the
/// extended family field of its EAX word. At most 0x0F + 0xFF, so the sum
/// never overflows.
pub open spec fn family_code(leaf1_eax: u32) -> int {
    ((leaf1_eax >> 8) & 0x0F) + ((leaf1_eax >> 20) & 0xFF)
}

/// Whether the family leaf reports one of the two generations published to
/// implement PDEP/PEXT in microcode: Zen/Zen+/Zen2, or Hygon Dhyana.
pub open spec fn slow_family(leaf1_eax: u32) -> bool {
    family_code(leaf1_eax) == ZEN_FAMILY_CODE || family_code(leaf1_eax) == DHYANA_FAMILY_CODE
}

/// The slow hint: the manufacturer is one of the two flagged vendors, and
/// the family leaf reports a flagged generation. Any other manufacturer is
/// never penalized, whatever its family fields hold.
pub open spec fn slow_hint_spec(leaf0: CpuidLeaf, leaf1_eax: u32) -> bool {
    flagged_manufacturer(leaf0) && slow_family(leaf1_eax)
}

/// Whether the feature leaf reports BMI2: bit 8 of its EBX word.
pub open spec fn bmi2_bit_set(leaf7_ebx: u32) -> bool {
    (leaf7_ebx >> 8) & 1 == 1
}

/// BMI2 support: the vendor leaf must report the feature leaf as available
/// (maximum supported leaf at least 7) and the feature bit must be set.
pub open spec fn bmi2_supported_spec(leaf0: CpuidLeaf, leaf7_ebx: u32) -> bool {
    leaf0.eax >= 7 && bmi2_bit_set(leaf7_ebx)
}

/// The whole decision: PDEP/PEXT is fast exactly when BMI2 is supported and
/// the slow hint does not fire.
pub open spec fn fast_pdep_spec(leaf0: CpuidLeaf, leaf1_eax: u32, leaf7_ebx: u32) -> bool {
    bmi2_supported_spec(leaf0, leaf7_ebx) && !slow_hint_spec(leaf0, leaf1_eax)
}

/// Sums the base and extended family fields of the family leaf's EAX word.
pub fn family_sum(leaf1_eax: u32) -> (r: u32)
    ensures
        r == family_code(leaf1_eax),
{
    let family: u32 = (leaf1_eax >> 8) & 0x0F;
    let extended_family: u32 = (leaf1_eax >> 20) & 0xFF;
    proof {
        assert((leaf1_eax >> 8) & 0x0F <= 0x0F && (leaf1_eax >> 20) & 0xFF <= 0xFF)
            by (bit_vector);
    }
    family + extended_family
}

/// Whether the family leaf of a flagged manufacturer reports a generation
/// known to run PDEP/PEXT in microcode.
pub fn flagged_family_is_slow(leaf1_eax: u32) -> (r: bool)
    ensures
        r == slow_family(leaf1_eax),
{
    let sum = family_sum(leaf1_eax);
    sum == ZEN_FAMILY_CODE || sum == DHYANA_FAMILY_CODE
}

/// Tests the BMI2 feature bit in the feature leaf's EBX word.
pub fn bmi2_bit(leaf7_ebx: u32) -> (r: bool)
    ensures
        r == bmi2_bit_set(leaf7_ebx),
{
    (leaf7_ebx >> 8) & 1 == 1
}

/// What the prober still waits for, together with what it has learned.
#[derive(Clone, Copy, PartialEq, Eq, Structural, Debug)]
pub enum ProbeState {
    /// Nothing read yet: the vendor leaf (leaf 0) is outstanding.
    AwaitVendor,
    /// A flagged manufacturer was seen: the family leaf (leaf 1) is
    /// outstanding. `max_leaf` is the maximum leaf the vendor leaf reported.
    AwaitFamily { max_leaf: u32 },
    /// The slow hint is settled: the feature leaf (leaf 7) is outstanding.
    AwaitFeature { slow_hint: bool },
}

/// One move of the prober: either a request for one more identification
/// leaf, or the finished decision.
#[derive(Clone, Copy, PartialEq, Eq, Structural, Debug)]
pub enum ProbeStep {
    Query { leaf: u32, state: ProbeState },
    Done { fast_pdep: bool },
}

/// The prober's transition: given what it waited for and the leaf data that
/// answers it, the next move.
///
/// A flagged manufacturer has the family leaf read unconditionally — every
/// processor with an identification instruction supports leaf 1 once leaf 0
/// succeeds, an assumption of the design rather than a checked condition.
/// The feature leaf is read only when the vendor leaf reports it available.
pub open spec fn spec_advance(state: ProbeState, response: CpuidLeaf) -> ProbeStep {
    match state {
        ProbeState::AwaitVendor => {
            if flagged_manufacturer(response) {
                ProbeStep::Query { leaf: 1u32, state: ProbeState::AwaitFamily { max_leaf: response.eax } }
            } else if response.eax >= 7 {
                ProbeStep::Query { leaf: 7u32, state: ProbeState::AwaitFeature { slow_hint: false } }
            } else {
                ProbeStep::Done { fast_pdep: false }
            }
        },
        ProbeState::AwaitFamily { max_leaf } => {
            if max_leaf >= 7 {
                ProbeStep::Query {
                    leaf: 7u32,
                    state: ProbeState::AwaitFeature { slow_hint: slow_family(response.eax) },
                }
            } else {
                ProbeStep::Done { fast_pdep: false }
            }
        },
        ProbeState::AwaitFeature { slow_hint } => {
            ProbeStep::Done { fast_pdep: bmi2_bit_set(response.ebx) && !slow_hint }
        },
    }
}

/// The prober's first move: request the vendor leaf.
pub fn probe_begin() -> (r: ProbeStep)
    ensures
        r == (ProbeStep::Query { leaf: 0u32, state: ProbeState::AwaitVendor }),
{
    ProbeStep::Query { leaf: 0u32, state: ProbeState::AwaitVendor }
}

/// Advances the prober by one leaf: `response` is the data of the leaf that
/// the previous step requested.
pub fn probe_advance(state: ProbeState, response: &CpuidLeaf) -> (r: ProbeStep)
    ensures
        r == spec_advance(state, *response),
{
    match state {
        ProbeState::AwaitVendor => {
            if is_flagged_manufacturer(response) {
                ProbeStep::Query { leaf: 1u32, state: ProbeState::AwaitFamily { max_leaf: response.eax } }
            } else if response.eax >= 7 {
                ProbeStep::Query { leaf: 7u32, state: ProbeState::AwaitFeature { slow_hint: false } }
            } else {
                ProbeStep::Done { fast_pdep: false }
            }
        },
        ProbeState::AwaitFamily { max_leaf } => {
            if max_leaf >= 7 {
                let slow_hint = flagged_family_is_slow(response.eax);
                ProbeStep::Query { leaf: 7u32, state: ProbeState::AwaitFeature { slow_hint } }
            } else {
                ProbeStep::Done { fast_pdep: false }
            }
        },
        ProbeState::AwaitFeature { slow_hint } => {
            let bmi2 = bmi2_bit(response.ebx);
            ProbeStep::Done { fast_pdep: bmi2 && !slow_hint }
        },
    }
}

/// Whether a move requests identification leaf `n`.
pub open spec fn queries_leaf(step: ProbeStep, n: u32) -> bool {
    step matches ProbeStep::Query { leaf, .. } && leaf == n
}

/// The moves of one complete probe on a machine whose vendor, family and
/// feature leaves read `leaf0`, `leaf1` and `leaf7`: each requested leaf is
/// answered with the matching data, until the prober concludes. The last
/// element is always the conclusion.
pub open spec fn probe_trace(leaf0: CpuidLeaf, leaf1: CpuidLeaf, leaf7: CpuidLeaf) -> Seq<
    ProbeStep,
> {
    let first = spec_advance(ProbeState::AwaitVendor, leaf0);
    match first {
        ProbeStep::Query { state, .. } => {
            let response = if state is AwaitFamily {
                leaf1
            } else {
                leaf7
            };
            let second = spec_advance(state, response);
            match second {
                ProbeStep::Query { state: later, .. } => seq![
                    first,
                    second,
                    spec_advance(later, leaf7),
                ],
                ProbeStep::Done { .. } => seq![first, second],
            }
        },
        ProbeStep::Done { .. } => seq![first],
    }
}

/// The probe concludes with exactly the documented decision: BMI2 support
/// and not the slow hint, over whatever the three leaves report.
pub proof fn lemma_probe_concludes(leaf0: CpuidLeaf, leaf1: CpuidLeaf, leaf7: CpuidLeaf)
    ensures
        probe_trace(leaf0, leaf1, leaf7).last() == (ProbeStep::Done {
            fast_pdep: fast_pdep_spec(leaf0, leaf1.eax, leaf7.ebx),
        }),
{
    if flagged_manufacturer(leaf0) {
        if leaf0.eax >= 7 {
            assert(probe_trace(leaf0, leaf1, leaf7).len() == 3);
        } else {
            assert(probe_trace(leaf0, leaf1, leaf7).len() == 2);
        }
    } else {
        if leaf0.eax >= 7 {
            assert(probe_trace(leaf0, leaf1, leaf7).len() == 2);
        } else {
            assert(probe_trace(leaf0, leaf1, leaf7).len() == 1);
        }
    }
}

/// A manufacturer outside the two flagged vendors never gets the slow hint,
/// whatever its family fields hold, and its probe never requests the family
/// leaf: its conclusion rests on BMI2 support alone.
pub proof fn lemma_unflagged_manufacturer(leaf0: CpuidLeaf, leaf1: CpuidLeaf, leaf7: CpuidLeaf)
    requires
        !flagged_manufacturer(leaf0),
    ensures
        !slow_hint_spec(leaf0, leaf1.eax),
        forall|i: int|
            0 <= i < probe_trace(leaf0, leaf1, leaf7).len() ==> !queries_leaf(
                probe_trace(leaf0, leaf1, leaf7)[i],
                1,
            ),
        probe_trace(leaf0, leaf1, leaf7).last() == (ProbeStep::Done {
            fast_pdep: bmi2_supported_spec(leaf0, leaf7.ebx),
        }),
{
    let trace = probe_trace(leaf0, leaf1, leaf7);
    if leaf0.eax >= 7 {
        assert(trace.len() == 2);
        assert(!queries_leaf(trace[0], 1));
        assert(!queries_leaf(trace[1], 1));
    } else {
        assert(trace.len() == 1);
        assert(!queries_leaf(trace[0], 1));
    }
}

/// A flagged manufacturer of a flagged generation is reported slow even when
/// the BMI2 feature bit is set: the published microcode behavior overrides
/// the hardware-reported feature bit.
pub proof fn lemma_flagged_generation_overrides_feature_bit(
    leaf0: CpuidLeaf,
    leaf1: CpuidLeaf,
    leaf7: CpuidLeaf,
)
    requires
        flagged_manufacturer(leaf0),
        slow_family(leaf1.eax),
    ensures
        !fast_pdep_spec(leaf0, leaf1.eax, leaf7.ebx),
        probe_trace(leaf0, leaf1, leaf7).last() == (ProbeStep::Done { fast_pdep: false }),
{
    lemma_probe_concludes(leaf0, leaf1, leaf7);
}

/// When the vendor leaf reports a maximum supported leaf below 7, BMI2
/// support is settled as absent, the probe never requests the feature leaf,
/// and the conclusion is that PDEP/PEXT is not fast.
pub proof fn lemma_low_max_leaf(leaf0: CpuidLeaf, leaf1: CpuidLeaf, leaf7: CpuidLeaf)
    requires
        leaf0.eax < 7,
    ensures
        !bmi2_supported_spec(leaf0, leaf7.ebx),
        forall|i: int|
            0 <= i < probe_trace(leaf0, leaf1, leaf7).len() ==> !queries_leaf(
                probe_trace(leaf0, leaf1, leaf7)[i],
                7,
            ),
        probe_trace(leaf0, leaf1, leaf7).last() == (ProbeStep::Done { fast_pdep: false }),
{
    let trace = probe_trace(leaf0, leaf1, leaf7);
    if flagged_manufacturer(leaf0) {
        assert(trace.len() == 2);
        assert(!queries_leaf(trace[0], 7));
        assert(!queries_leaf(trace[1], 7));
    } else {
        assert(trace.len() == 1);
        assert(!queries_leaf(trace[0], 7));
    }
}

} // verus!
