//! Creation of buildroot overrides for every build of an update, one after
//! another, stopping at the first failure and keeping what was created.

use vstd::prelude::*;

verus! {

/// The progress of a batch: how many builds it has, how many overrides were
/// created (always the first ones), and whether the next one failed.
pub struct BatchState {
    pub total: nat,
    pub created: nat,
    pub failed: bool,
}

/// A batch that has not started.
pub open spec fn batch_start(total: nat) -> BatchState {
    BatchState { total, created: 0, failed: false }
}

/// The index of the build whose override is created next, if any.
pub open spec fn batch_next(s: BatchState) -> Option<nat> {
    if !s.failed && s.created < s.total {
        Some(s.created)
    } else {
        None
    }
}

/// The batch after the outcome of the pending creation.
pub open spec fn batch_step(s: BatchState, succeeded: bool) -> BatchState {
    if succeeded {
        BatchState { created: s.created + 1, ..s }
    } else {
        BatchState { failed: true, ..s }
    }
}

/// The batch after it is fed the given outcomes, one per attempted creation,
/// for as long as it attempts creations.
pub open spec fn batch_run(s: BatchState, outcomes: Seq<bool>) -> BatchState
    decreases outcomes.len(),
{
    if outcomes.len() == 0 || batch_next(s) is None {
        s
    } else {
        batch_run(batch_step(s, outcomes[0]), outcomes.drop_first())
    }
}

/// `k` successes, then a failure, then anything.
pub open spec fn fails_after(k: nat, rest: Seq<bool>) -> Seq<bool> {
    Seq::new(k, |i: int| true).push(false) + rest
}

proof fn lemma_run_from(s: BatchState, k: nat, rest: Seq<bool>)
    requires
        !s.failed,
        s.created + k < s.total,
    ensures
        batch_run(s, fails_after(k, rest)) == (BatchState { created: s.created + k, failed: true, ..s }),
    decreases k,
{
    let o = fails_after(k, rest);
    assert(o.len() > 0);
    if k == 0 {
        assert(o[0] == false);
        let t = batch_step(s, false);
        assert(batch_next(t) is None);
        assert(batch_run(t, o.drop_first()) == t);
        assert(batch_run(s, o) == batch_run(t, o.drop_first()));
    } else {
        assert(o[0] == true);
        assert(o.drop_first() =~= fails_after((k - 1) as nat, rest));
        lemma_run_from(batch_step(s, true), (k - 1) as nat, rest);
        assert(batch_run(s, o) == batch_run(batch_step(s, true), o.drop_first()));
    }
}

proof fn lemma_all_succeed_from(s: BatchState, n: nat)
    requires
        !s.failed,
        s.created + n == s.total,
    ensures
        batch_run(s, Seq::new(n, |i: int| true)) == (BatchState { created: s.total, ..s }),
    decreases n,
{
    let o = Seq::new(n, |i: int| true);
    if n > 0 {
        assert(o.drop_first() =~= Seq::new((n - 1) as nat, |i: int| true));
        lemma_run_from_success(s, n);
        lemma_all_succeed_from(batch_step(s, true), (n - 1) as nat);
    }
}

proof fn lemma_run_from_success(s: BatchState, n: nat)
    requires
        !s.failed,
        0 < n,
        s.created + n == s.total,
    ensures
        batch_run(s, Seq::new(n, |i: int| true))
            == batch_run(batch_step(s, true), Seq::new(n, |i: int| true).drop_first()),
{
}

/// Where creating the override of build `k` fails after the ones before it
/// succeeded, the batch has created exactly the overrides of builds
/// `0 .. k`, has failed on build `k`, and attempts no later build, whatever
/// outcomes would have followed.
pub proof fn lemma_batch_stops_at_first_failure(total: nat, k: nat, rest: Seq<bool>)
    requires
        k < total,
    ensures
        batch_run(batch_start(total), fails_after(k, rest)) == (BatchState { total, created: k, failed: true }),
        batch_next(batch_run(batch_start(total), fails_after(k, rest))) is None,
{
    lemma_run_from(batch_start(total), k, rest);
}

/// Where every creation succeeds, the batch creates one override per build
/// and then finishes.
pub proof fn lemma_batch_all_succeed(total: nat)
    ensures
        batch_run(batch_start(total), Seq::new(total, |i: int| true)) == (BatchState { total, created: total, failed: false }),
        batch_next(batch_run(batch_start(total), Seq::new(total, |i: int| true))) is None,
{
    lemma_all_succeed_from(batch_start(total), total);
}


/// A batch of override creations over the builds of an update.
pub struct OverrideBatch {
    builds: Vec<String>,
    created: usize,
    failed: bool,
}

impl OverrideBatch {
    /// The progress of the batch.
    pub closed spec fn state(&self) -> BatchState {
        BatchState { total: self.builds@.len(), created: self.created as nat, failed: self.failed }
    }

    /// The builds, in order.
    pub closed spec fn builds_of(&self) -> Seq<String> {
        self.builds@
    }

    /// The created count never passes the builds; a failure leaves a build
    /// whose creation failed.
    pub closed spec fn wf(&self) -> bool {
        &&& self.created <= self.builds@.len()
        &&& self.failed ==> self.created < self.builds@.len()
    }

    /// A batch over the given builds that has not started.
    pub fn new(builds: Vec<String>) -> (r: OverrideBatch)
        ensures
            r.wf(),
            r.builds_of() == builds@,
            r.state() == batch_start(builds@.len()),
    {
        OverrideBatch { builds, created: 0, failed: false }
    }

    /// The build whose override is to be created next; none once every
    /// build is done or one has failed.
    pub fn next_build(&self) -> (r: Option<&String>)
        requires
            self.wf(),
        ensures
            match batch_next(self.state()) {
                Some(k) => r == Some(&self.builds_of()[k as int]),
                None => r is None,
            },
    {
        if !self.failed && self.created < self.builds.len() {
            Some(&self.builds[self.created])
        } else {
            None
        }
    }

    /// Records the outcome of creating the override of the pending build.
    pub fn record(&mut self, succeeded: bool)
        requires
            old(self).wf(),
            batch_next(old(self).state()) is Some,
        ensures
            final(self).wf(),
            final(self).builds_of() == old(self).builds_of(),
            final(self).state() == batch_step(old(self).state(), succeeded),
    {
        let n = self.builds.len();
        if succeeded {
            assert(self.created < n);
            self.created = self.created + 1;
        } else {
            self.failed = true;
        }
    }

    /// How many overrides were created: those of the first builds.
    pub fn created_count(&self) -> (r: usize)
        ensures
            r as nat == self.state().created,
    {
        self.created
    }

    /// The build whose override could not be created, if one failed.
    pub fn failed_build(&self) -> (r: Option<&String>)
        requires
            self.wf(),
        ensures
            if self.state().failed {
                r == Some(&self.builds_of()[self.state().created as int])
            } else {
                r is None
            },
    {
        if self.failed {
            Some(&self.builds[self.created])
        } else {
            None
        }
    }
}

} // verus!
