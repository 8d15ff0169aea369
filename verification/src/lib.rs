//! A flag that can be claimed successfully exactly once.
//!
//! [`CallOnce`] guards a one-time action: the first [`CallOnce::call_once`]
//! returns `Ok(())`, and every later call returns [`CallOnceError`].
//! [`CallOnce::was_called`] is a read-only snapshot of the claim state.

use vstd::prelude::*;

verus! {

/// The claim state of a flag after one claim attempt: an attempt always
/// leaves the flag claimed, whatever state it started in.
pub open spec fn state_after_attempt(claimed: bool) -> bool {
    true
}

/// Whether a claim attempt succeeds when the flag is in the given state:
/// it succeeds exactly when the flag is still unclaimed.
pub open spec fn attempt_succeeds(claimed: bool) -> bool {
    !claimed
}

/// The claim state of a flag after `n` successive claim attempts, starting
/// from the state `init`.
pub open spec fn state_after_attempts(init: bool, n: nat) -> bool
    decreases n,
{
    if n == 0 {
        init
    } else {
        state_after_attempt(state_after_attempts(init, (n - 1) as nat))
    }
}

/// The outcomes of `n` successive claim attempts on a flag that starts in the
/// state `init`: the element at index `i` is `true` exactly when the attempt
/// numbered `i` succeeds.
pub open spec fn attempt_outcomes(init: bool, n: nat) -> Seq<bool>
    decreases n,
{
    if n == 0 {
        Seq::empty()
    } else {
        attempt_outcomes(init, (n - 1) as nat).push(
            attempt_succeeds(state_after_attempts(init, (n - 1) as nat)),
        )
    }
}

/// On a fresh, unclaimed flag the very first claim attempt succeeds.
pub proof fn lemma_first_attempt_succeeds()
    ensures
        attempt_succeeds(false),
        attempt_outcomes(false, 1) =~= seq![true],
{
    assert(attempt_outcomes(false, 0) =~= Seq::empty());
}

/// Once a flag has been claimed it stays claimed: after any further attempts
/// the claim state still holds, and there is no path back to unclaimed.
pub proof fn lemma_claim_is_permanent(init: bool, m: nat, n: nat)
    requires
        m <= n,
        state_after_attempts(init, m),
    ensures
        state_after_attempts(init, n),
{
}

/// Every attempt after the first on an initially unclaimed flag fails,
/// however many are made: the flag is already claimed and stays so.
pub proof fn lemma_later_attempts_fail(n: nat)
    requires
        n >= 1,
    ensures
        state_after_attempts(false, n),
        !attempt_succeeds(state_after_attempts(false, n)),
{
}

/// Among `n` successive claim attempts on an initially unclaimed flag,
/// exactly one succeeds (the first) and all others fail.
pub proof fn lemma_exactly_one_success(n: nat)
    ensures
        attempt_outcomes(false, n).len() == n,
        forall|i: int| 0 <= i < n ==> (attempt_outcomes(false, n)[i] <==> i == 0),
    decreases n,
{
    if n > 0 {
        lemma_exactly_one_success((n - 1) as nat);
    }
}

/// A flag that can be claimed successfully only once.
///
/// Created unclaimed; the first claim attempt succeeds and every later one
/// fails. The claim state never returns to unclaimed.
#[derive(Debug)]
pub struct CallOnce {
    called: bool,
}

/// The claim had already been taken: `call_once` was called more than once.
///
/// This is an ordinary, expected outcome, not a fatal condition.
#[derive(Debug)]
pub struct CallOnceError;

impl CallOnce {
    /// Whether the flag has been claimed.
    pub closed spec fn claimed(self) -> bool {
        self.called
    }

    /// Creates a new, unclaimed `CallOnce`.
    pub fn new() -> (flag: Self)
        ensures
            !flag.claimed(),
    {
        CallOnce { called: false }
    }

    /// Attempts to claim this flag.
    ///
    /// Only the first call returns `Ok`; all subsequent calls return `Err`.
    pub fn call_once(&mut self) -> (r: Result<(), CallOnceError>)
        ensures
            final(self).claimed() == state_after_attempt(old(self).claimed()),
            r is Ok <==> attempt_succeeds(old(self).claimed()),
            r is Err <==> old(self).claimed(),
    {
        if self.called {
            Err(CallOnceError)
        } else {
            self.called = true;
            Ok(())
        }
    }

    /// Returns `true` if the flag has been claimed.
    pub fn was_called(&self) -> (r: bool)
        ensures
            r == self.claimed(),
    {
        self.called
    }
}

impl CallOnceError {
    /// A human-readable description of the failure, for logs and diagnostics.
    pub fn message(&self) -> (s: String)
        ensures
            s@ == "call_once was executed more than once"@,
    {
        "call_once was executed more than once".to_string()
    }
}

impl Default for CallOnce {
    /// An unclaimed flag, the same as `CallOnce::new()`.
    fn default() -> (flag: Self)
        ensures
            !flag.claimed(),
    {
        CallOnce::new()
    }
}

} // verus!
