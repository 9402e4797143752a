//! The qualifying termination signals and the guard's error taxonomy.

use vstd::prelude::*;

verus! {

/// A termination-intent signal this library intercepts: an interactive
/// interrupt, a quit request, or a termination request.
#[derive(Clone, Copy, Debug, PartialEq, Eq, Structural)]
pub enum TermSignal {
    Interrupt,
    Quit,
    Terminate,
}

impl TermSignal {
    /// The raw signal number of this signal on the platform family the
    /// mask-based variant targets.
    pub open spec fn code(self) -> int {
        match self {
            TermSignal::Interrupt => 2,
            TermSignal::Quit => 3,
            TermSignal::Terminate => 15,
        }
    }

    /// Executable form of [`TermSignal::code`], as the integer type the
    /// platform's signal calls take.
    pub fn code_i32(self) -> (c: i32)
        ensures
            c == self.code(),
    {
        match self {
            TermSignal::Interrupt => 2,
            TermSignal::Quit => 3,
            TermSignal::Terminate => 15,
        }
    }

    /// Executable form of [`TermSignal::code`], as the integer type the
    /// user handler receives.
    pub fn code_usize(self) -> (c: usize)
        ensures
            c == self.code(),
    {
        match self {
            TermSignal::Interrupt => 2,
            TermSignal::Quit => 3,
            TermSignal::Terminate => 15,
        }
    }
}

/// The raw numbers of the three qualifying signals: exactly what a freshly
/// constructed mask-based guard blocks.
pub open spec fn qualifying_codes() -> Set<int> {
    set![
        TermSignal::Interrupt.code(),
        TermSignal::Quit.code(),
        TermSignal::Terminate.code(),
    ]
}

/// Distinct qualifying signals carry distinct raw numbers, so a handler can
/// tell an interrupt from a quit or a terminate by the code it is given.
pub proof fn lemma_codes_injective(a: TermSignal, b: TermSignal)
    ensures
        a.code() == b.code() ==> a == b,
{
}

/// Every raw number in the qualifying set is the code of one of the three
/// qualifying signals, and each of the three is in the set.
pub proof fn lemma_qualifying_codes_exact(c: int)
    ensures
        qualifying_codes().contains(c) <==> (exists|t: TermSignal| t.code() == c),
{
    if qualifying_codes().contains(c) {
        if c == TermSignal::Interrupt.code() {
            assert(TermSignal::Interrupt.code() == c);
        } else if c == TermSignal::Quit.code() {
            assert(TermSignal::Quit.code() == c);
        } else {
            assert(TermSignal::Terminate.code() == c);
        }
    }
}

/// Why a guard operation failed; each variant carries the raw error number
/// the platform reported. Both are fatal for the guard: no retry has a
/// meaning for a one-shot signal rendezvous.
#[derive(Clone, Copy, Debug, PartialEq, Eq, Structural)]
pub enum GuardError {
    /// The blocked-signal mask could not be applied to the calling thread.
    BlockFailed(i32),
    /// The synchronous wait primitive itself failed.
    WaitFailed(i32),
}

} // verus!
