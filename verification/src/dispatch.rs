//! The memoizing dispatcher: a cell holding one decision procedure at a
//! time, initially the prober, repointed at a constant procedure once the
//! probe has run, so that later calls cost one read and one call.

use vstd::prelude::*;

verus! {

/// A decision procedure the dispatcher cell can hold. All three variants
/// answer the same zero-argument boolean question; the prober additionally
/// rewrites the cell.
#[derive(Clone, Copy, PartialEq, Eq, Structural, Debug)]
pub enum Procedure {
    Prober,
    ConstantTrue,
    ConstantFalse,
}

/// The constant procedure that encodes `answer`.
pub open spec fn constant_for(answer: bool) -> Procedure {
    if answer {
        Procedure::ConstantTrue
    } else {
        Procedure::ConstantFalse
    }
}

/// What a caller gets from invoking procedure `p`, given that a hardware
/// probe of this machine reports `probed`. Hardware capability cannot change
/// at runtime, so `probed` is one fixed value for the whole process.
pub open spec fn procedure_answer(p: Procedure, probed: bool) -> bool {
    match p {
        Procedure::Prober => probed,
        Procedure::ConstantTrue => true,
        Procedure::ConstantFalse => false,
    }
}

/// A cell content is consistent with the hardware answer `probed` when it is
/// either still the prober or already the constant encoding `probed`. The
/// cell's only legal transitions keep this.
pub open spec fn consistent_cell(p: Procedure, probed: bool) -> bool {
    p is Prober || p == constant_for(probed)
}

/// The model of the process-wide dispatch cell: it holds exactly one
/// decision procedure at a time, never anything else, and lives for the
/// process lifetime. A probing front end realizes it as an atomic reference
/// to one of the three procedures, stored with release ordering and loaded
/// with acquire ordering.
pub struct Dispatcher {
    current: Procedure,
}

impl Dispatcher {
    /// The procedure the cell holds.
    pub closed spec fn current(self) -> Procedure {
        self.current
    }

    /// At process start the cell points at the prober.
    pub fn new() -> (d: Dispatcher)
        ensures
            d.current() is Prober,
    {
        Dispatcher { current: Procedure::Prober }
    }

    /// Replaces the cell's contents with the constant procedure encoding
    /// `answer`. Repointing is unconditional: a racing duplicate install of
    /// the same answer leaves the cell in the same state.
    pub fn install(&mut self, answer: bool)
        ensures
            final(self).current() == constant_for(answer),
    {
        self.current = if answer {
            Procedure::ConstantTrue
        } else {
            Procedure::ConstantFalse
        };
    }

    /// Reads the currently installed procedure.
    pub fn read(&self) -> (p: Procedure)
        ensures
            p == self.current(),
    {
        self.current
    }

    /// One call of the public query: read the installed procedure and invoke
    /// it. `probed` stands for the answer the feature prober computes on this
    /// machine, one fixed value for the whole process; the prober variant
    /// computes it, installs the matching constant and returns it, while a
    /// constant variant answers directly and leaves the cell alone.
    pub fn get_answer(&mut self, probed: bool) -> (r: bool)
        ensures
            r == procedure_answer(old(self).current(), probed),
            final(self).current() == cell_after_call(old(self).current(), probed),
            consistent_cell(old(self).current(), probed) ==> r == probed,
            consistent_cell(old(self).current(), probed) ==> consistent_cell(
                final(self).current(),
                probed,
            ),
    {
        match self.read() {
            Procedure::Prober => {
                self.install(probed);
                probed
            },
            Procedure::ConstantTrue => crate::inner_true(),
            Procedure::ConstantFalse => crate::inner_false(),
        }
    }
}

/// The cell's contents after one call of the query: a prober rewrites the
/// cell to the constant encoding the probe's answer, a constant leaves it
/// unchanged.
pub open spec fn cell_after_call(p: Procedure, probed: bool) -> Procedure {
    if p is Prober {
        constant_for(probed)
    } else {
        p
    }
}

/// The cell's contents after `n` successive calls of the query, starting
/// from process start.
pub open spec fn cell_after_calls(n: nat, probed: bool) -> Procedure
    decreases n,
{
    if n == 0 {
        Procedure::Prober
    } else {
        cell_after_call(cell_after_calls((n - 1) as nat, probed), probed)
    }
}

/// The cell only ever holds the prober or the constant encoding the probe's
/// answer, however many calls have run: its only legal transitions preserve
/// consistency.
pub proof fn lemma_cell_stays_consistent(n: nat, probed: bool)
    ensures
        consistent_cell(cell_after_calls(n, probed), probed),
    decreases n,
{
    if n > 0 {
        lemma_cell_stays_consistent((n - 1) as nat, probed);
    }
}

/// Repeated calls of the query within one process all return the same
/// answer: whatever the probe reports, from the first call on.
pub proof fn lemma_query_deterministic(n: nat, probed: bool)
    ensures
        procedure_answer(cell_after_calls(n, probed), probed) == probed,
{
    lemma_cell_stays_consistent(n, probed);
}

/// Once any call has run, the cell holds the single stable constant that
/// encodes the probe's answer, and stays there for the rest of the process.
pub proof fn lemma_dispatcher_converges(n: nat, probed: bool)
    requires
        n >= 1,
    ensures
        cell_after_calls(n, probed) == constant_for(probed),
    decreases n,
{
    if n == 1 {
        assert(cell_after_calls(0, probed) == Procedure::Prober);
    } else {
        lemma_dispatcher_converges((n - 1) as nat, probed);
    }
}

/// Duplicate installs are harmless: racing first callers all compute the
/// same answer (hardware capability is invariant across threads and time),
/// so whichever store lands last leaves the cell exactly where any other
/// would have, and every caller observes the same boolean.
pub proof fn lemma_duplicate_install_harmless(p: Procedure, probed: bool)
    requires
        consistent_cell(p, probed),
    ensures
        cell_after_call(p, probed) == constant_for(probed) || cell_after_call(p, probed) == p,
        procedure_answer(p, probed) == probed,
        cell_after_call(constant_for(probed), probed) == constant_for(probed),
{
}

} // verus!
