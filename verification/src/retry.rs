//! Fixed-delay bounded retry around one fallible operation.
//!
//! The driver is independent of what the operation does: an operation
//! records each outcome it yields, and the driver's contract pins how many
//! tries are spent and which outcome is surfaced.

use vstd::prelude::*;

verus! {

/// A bounded retry policy: up to `attempts` tries in all, with a fixed
/// `delay_ms` wait between consecutive tries.
#[derive(Debug, Clone, Copy, PartialEq, Eq, Structural)]
pub struct RetryPolicy {
    pub attempts: u64,
    pub delay_ms: u64,
}

impl RetryPolicy {
    /// The policy a listing fetch runs under: two tries, 200 ms apart.
    pub fn listing() -> (r: RetryPolicy)
        ensures
            r.attempts == 2,
            r.delay_ms == 200,
    {
        RetryPolicy { attempts: 2, delay_ms: 200 }
    }

    /// The policy an image fetch runs under: three tries, 200 ms apart.
    pub fn image() -> (r: RetryPolicy)
        ensures
            r.attempts == 3,
            r.delay_ms == 200,
    {
        RetryPolicy { attempts: 3, delay_ms: 200 }
    }

    /// After `attempts_made` failed tries, is another try due?
    pub fn should_retry(&self, attempts_made: u64) -> (r: bool)
        ensures
            r == (attempts_made < self.attempts),
    {
        attempts_made < self.attempts
    }
}

/// One fallible operation that can be tried repeatedly. An implementor
/// records every outcome it has yielded, oldest first, so that callers can
/// speak about how often it was invoked and with what result.
pub trait RetryableOperation<T, E>: Sized {
    /// Every outcome this operation has yielded so far, oldest first.
    spec fn outcomes(&self) -> Seq<Result<T, E>>;

    /// How many further tries this operation can still serve.
    spec fn tries_left(&self) -> nat;

    /// Perform one try.
    fn attempt(&mut self) -> (r: Result<T, E>)
        requires
            old(self).tries_left() > 0,
        ensures
            final(self).outcomes() == old(self).outcomes().push(r),
            final(self).tries_left() == old(self).tries_left() - 1,
    ;

    /// Wait out the fixed delay before the next try.
    fn backoff(&mut self, delay_ms: u64)
        ensures
            final(self).outcomes() == old(self).outcomes(),
            final(self).tries_left() == old(self).tries_left(),
    ;
}

/// Run one operation under a policy: try it, and on failure wait the fixed
/// delay and try again, up to `attempts` tries in all. The tries spent are
/// one to `attempts` many; all but the last fail; the last try's outcome is
/// surfaced, and only a success cuts the sequence short.
#[verifier::loop_isolation(false)]
pub fn run_with_retry<T, E, Op: RetryableOperation<T, E>>(op: &mut Op, policy: &RetryPolicy) -> (r:
    Result<T, E>)
    requires
        policy.attempts >= 1,
        old(op).tries_left() >= policy.attempts,
    ensures
        old(op).outcomes().len() < final(op).outcomes().len() <= old(op).outcomes().len()
            + policy.attempts,
        final(op).outcomes().take(old(op).outcomes().len() as int) == old(op).outcomes(),
        r == final(op).outcomes().last(),
        forall|i: int|
            old(op).outcomes().len() <= i < final(op).outcomes().len() - 1 ==> final(op).outcomes()[i] is Err,
        final(op).outcomes().len() - old(op).outcomes().len() < policy.attempts ==> r is Ok,
{
    let ghost base = old(op).outcomes();
    let mut made: u64 = 0;
    loop
        invariant
            policy.attempts >= 1,
            made < policy.attempts,
            op.tries_left() >= policy.attempts - made,
            op.outcomes().len() == base.len() + made,
            op.outcomes().take(base.len() as int) == base,
            forall|i: int| base.len() <= i < op.outcomes().len() ==> op.outcomes()[i] is Err,
        decreases policy.attempts - made,
    {
        let ghost before = op.outcomes();
        let r = op.attempt();
        proof {
            assert(op.outcomes().take(base.len() as int) =~= before.take(base.len() as int));
        }
        made = made + 1;
        match r {
            Ok(v) => {
                return Ok(v);
            },
            Err(e) => {
                if made == policy.attempts {
                    return Err(e);
                }
                op.backoff(policy.delay_ms);
            },
        }
    }
}

/// An operation whose outcomes are laid out up front and served in order;
/// it records nothing else and waits for nothing.
pub struct ScriptedOperation<T, E> {
    pub script: Vec<Result<T, E>>,
    pub served: usize,
}

impl<T: Copy, E: Copy> ScriptedOperation<T, E> {
    /// An operation that will yield the given outcomes, oldest first.
    pub fn new(script: Vec<Result<T, E>>) -> (r: ScriptedOperation<T, E>)
        ensures
            r.script == script,
            r.served == 0,
            r.outcomes() == Seq::<Result<T, E>>::empty(),
            r.tries_left() == script@.len(),
    {
        let r = ScriptedOperation { script, served: 0 };
        proof {
            assert(r.script@.take(0) =~= Seq::<Result<T, E>>::empty());
        }
        r
    }
}

impl<T: Copy, E: Copy> RetryableOperation<T, E> for ScriptedOperation<T, E> {
    open spec fn outcomes(&self) -> Seq<Result<T, E>> {
        self.script@.take(self.served as int)
    }

    open spec fn tries_left(&self) -> nat {
        if self.served <= self.script@.len() {
            (self.script@.len() - self.served) as nat
        } else {
            0
        }
    }

    fn attempt(&mut self) -> (r: Result<T, E>) {
        let n = self.script.len();
        assert(self.served < n);
        let r = self.script[self.served];
        self.served = self.served + 1;
        proof {
            assert(self.script@.take(self.served as int) =~= self.script@.take(
                self.served as int - 1,
            ).push(r));
        }
        r
    }

    fn backoff(&mut self, _delay_ms: u64) {
    }
}

/// An operation that always fails, run under a policy of `attempts` tries,
/// is tried exactly `attempts` times, and the error surfaced is the final
/// try's. `tried` is what the run appended to the operation's outcomes and
/// `r` what it returned; the first five premises are the driver's
/// guarantees, the last is the constant failure.
pub proof fn lemma_retry_bound<T, E>(tried: Seq<Result<T, E>>, r: Result<T, E>, attempts: u64)
    requires
        attempts >= 1,
        1 <= tried.len() <= attempts,
        r == tried.last(),
        forall|i: int| 0 <= i < tried.len() - 1 ==> tried[i] is Err,
        tried.len() < attempts ==> r is Ok,
        forall|i: int| 0 <= i < tried.len() ==> tried[i] is Err,
    ensures
        tried.len() == attempts,
        r is Err,
        r == tried[attempts as int - 1],
{
    assert(tried[tried.len() - 1] is Err);
}

} // verus!
