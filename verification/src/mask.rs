//! The mask-based guard: block the qualifying signals in the calling
//! thread's signal mask, then retrieve one synchronously.

use vstd::prelude::*;
use crate::signals::{GuardError, TermSignal, qualifying_codes};
use nix::sys::signal::SigSet;

verus! {

#[verifier::external_type_specification]
#[verifier::external_body]
pub struct ExSigSet(SigSet);

/// The raw signal numbers a [`SigSet`] holds.
pub uninterp spec fn sigset_signals(s: SigSet) -> Set<int>;

/// Relies on nix::sys::signal::SigSet::empty (sigemptyset): the fresh set
/// holds no signals.
#[verifier::external_body]
fn sigset_empty() -> (s: SigSet)
    ensures
        sigset_signals(s) == Set::<int>::empty(),
{
    SigSet::empty()
}

/// Relies on nix::sys::signal::SigSet::add (sigaddset), with
/// Signal::try_from converting the raw number into its argument: a raw
/// code the platform recognises joins the set; an unrecognised one is
/// refused and the set is unchanged. The three qualifying numbers are
/// recognised on every platform this builds for: the signal type names
/// interrupt, quit and terminate unconditionally, with exactly these
/// platform constants as values.
#[verifier::external_body]
fn sigset_add_code(s: &mut SigSet, code: i32) -> (ok: bool)
    ensures
        ok ==> sigset_signals(*final(s)) == sigset_signals(*old(s)).insert(code as int),
        !ok ==> sigset_signals(*final(s)) == sigset_signals(*old(s)),
        qualifying_codes().contains(code as int) ==> ok,
{
    match nix::sys::signal::Signal::try_from(code) {
        Ok(sig) => {
            s.add(sig);
            true
        }
        Err(_) => false,
    }
}

/// Relies on nix::sys::signal::SigSet::thread_block (pthread_sigmask with
/// SIG_BLOCK): adds the set's signals to the calling thread's blocked
/// mask; the error case carries the raw error number.
#[verifier::external_body]
fn sigset_thread_block(s: &SigSet) -> (r: Result<(), i32>)
{
    match s.thread_block() {
        Ok(()) => Ok(()),
        Err(e) => Err(e as i32),
    }
}

/// Relies on nix::sys::signal::SigSet::wait (sigwait): suspends the
/// calling thread until one of the set's signals becomes pending, and
/// returns that signal's raw number; the error case carries the raw error
/// number. The set must hold qualifying numbers only: wait converts the
/// number sigwait hands back into the named signal type and does not
/// return normally on a number it has no name for.
#[verifier::external_body]
fn sigset_wait(s: &SigSet) -> (r: Result<i32, i32>)
    requires
        sigset_signals(*s).subset_of(qualifying_codes()),
    ensures
        r matches Ok(c) ==> sigset_signals(*s).contains(c as int),
{
    match s.wait() {
        Ok(sig) => Ok(sig as i32),
        Err(e) => Err(e as i32),
    }
}

/// Owns the blocked-signal configuration. Construct it before spawning any
/// other thread: a thread spawned afterwards inherits the blocked mask, so
/// no thread but the designated waiter can be interrupted asynchronously
/// by a qualifying signal.
pub struct SignalGuard {
    set: SigSet,
}

impl SignalGuard {
    /// The raw signal numbers this guard keeps blocked.
    pub closed spec fn sigs(self) -> Set<int> {
        sigset_signals(self.set)
    }

    #[verifier::type_invariant]
    spec fn wf(self) -> bool {
        self.sigs() == qualifying_codes()
    }

    /// Block the three qualifying signals (interrupt, quit and terminate)
    /// for the calling thread. New threads should be spawned after this.
    ///
    /// On success the guard's set holds exactly the qualifying raw
    /// numbers. The one way this fails is the OS refusing to apply the
    /// mask; that is fatal for the mechanism and is reported, never
    /// retried.
    pub fn new() -> (r: Result<SignalGuard, GuardError>)
        ensures
            r matches Ok(g) ==> g.sigs() == qualifying_codes(),
            r matches Err(e) ==> e is BlockFailed,
    {
        let mut set = sigset_empty();
        match Self::init(&mut set) {
            Ok(()) => Ok(SignalGuard { set }),
            Err(e) => Err(e),
        }
    }

    /// Fill `mask` with the three qualifying signals and apply it as
    /// blocked for the calling thread. The platform recognises all three
    /// numbers, so only the final block step can fail.
    fn init(mask: &mut SigSet) -> (r: Result<(), GuardError>)
        requires
            sigset_signals(*old(mask)) == Set::<int>::empty(),
        ensures
            r is Ok ==> sigset_signals(*final(mask)) == qualifying_codes(),
            r matches Err(e) ==> e is BlockFailed,
    {
        let added_interrupt = sigset_add_code(mask, TermSignal::Interrupt.code_i32());
        assert(added_interrupt);
        let added_quit = sigset_add_code(mask, TermSignal::Quit.code_i32());
        assert(added_quit);
        let added_terminate = sigset_add_code(mask, TermSignal::Terminate.code_i32());
        assert(added_terminate);
        proof {
            assert(sigset_signals(*mask) =~= qualifying_codes());
        }
        match sigset_thread_block(mask) {
            Ok(()) => Ok(()),
            Err(e) => Err(GuardError::BlockFailed(e)),
        }
    }

    /// Block the running thread until one of the guard's signals is
    /// received; then `handler` is called exactly once, on this thread,
    /// with the raw number of the signal that arrived, and the call
    /// returns that same number once the handler has completed.
    ///
    /// A guard supports exactly one wait-and-handle cycle, so this call
    /// consumes the guard: a second cycle is unsupported and ownership
    /// rules it out. Do not put any code after this that must run: on
    /// some platform families the process terminates as soon as the
    /// cycle completes.
    ///
    /// If the wait primitive itself fails, the handler is never invoked
    /// and is handed back beside the error.
    pub fn at_exit<F: FnOnce(usize)>(self, handler: F) -> (r: Result<usize, (GuardError, F)>)
        requires
            forall|c: usize| qualifying_codes().contains(c as int) ==> call_requires(handler, (c,)),
        ensures
            r matches Ok(c) ==> self.sigs().contains(c as int) && call_ensures(handler, (c,), ()),
            r matches Err(p) ==> p.0 is WaitFailed && p.1 == handler,
    {
        proof {
            use_type_invariant(&self);
        }
        match sigset_wait(&self.set) {
            Ok(sig) => {
                assert(sig == 2 || sig == 3 || sig == 15);
                let c = sig as usize;
                handler(c);
                Ok(c)
            }
            Err(e) => Err((GuardError::WaitFailed(e), handler)),
        }
    }
}

/// A freshly constructed guard blocks all three qualifying signals, and
/// nothing else: every code it blocks is the code of a qualifying signal.
pub proof fn lemma_guard_blocks_qualifying(g: SignalGuard)
    requires
        g.sigs() == qualifying_codes(),
    ensures
        g.sigs().contains(TermSignal::Interrupt.code()),
        g.sigs().contains(TermSignal::Quit.code()),
        g.sigs().contains(TermSignal::Terminate.code()),
        forall|c: int| g.sigs().contains(c) ==> (exists|t: TermSignal| t.code() == c),
{
    assert forall|c: int| g.sigs().contains(c) implies (exists|t: TermSignal| t.code() == c) by {
        crate::signals::lemma_qualifying_codes_exact(c);
    }
}

} // verus!
