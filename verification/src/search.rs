use vstd::prelude::*;
use vstd::slice::slice_to_vec;

use crate::hints::{Hint, WindowMode};

verus! {

/// The hint sequence one attempt applies: the common hints first, in the
/// order they were added, then the candidate's hints, in order.
pub open spec fn spec_attempt_hints(common: Seq<Hint>, candidate: Seq<Hint>) -> Seq<Hint> {
    common + candidate
}

/// The attempt list a configuration resolves to: one entry per candidate
/// hint set, in the order the candidates were added.
pub open spec fn spec_attempts(common: Seq<Hint>, candidates: Seq<Seq<Hint>>) -> Seq<Seq<Hint>> {
    Seq::new(candidates.len(), |i: int| spec_attempt_hints(common, candidates[i]))
}

/// Law: every attempt's hint sequence applies the common hints first, in the
/// order they were added, and the candidate's own hints after them, in order.
pub proof fn lemma_common_hints_first(common: Seq<Hint>, candidates: Seq<Seq<Hint>>, i: int)
    requires
        0 <= i < candidates.len(),
    ensures
        spec_attempts(common, candidates)[i].len() == common.len() + candidates[i].len(),
        spec_attempts(common, candidates)[i].subrange(0, common.len() as int) == common,
        spec_attempts(common, candidates)[i].subrange(
            common.len() as int,
            (common.len() + candidates[i].len()) as int,
        ) == candidates[i],
{
    assert(spec_attempts(common, candidates)[i].subrange(0, common.len() as int) =~= common);
    assert(spec_attempts(common, candidates)[i].subrange(
        common.len() as int,
        (common.len() + candidates[i].len()) as int,
    ) =~= candidates[i]);
}

/// The index of the first successful attempt, given the outcome of every
/// attempt in order, or `None` when every attempt fails.
pub open spec fn spec_first_success(outcomes: Seq<bool>) -> Option<int>
    decreases outcomes.len(),
{
    if outcomes.len() == 0 {
        None
    } else if outcomes[0] {
        Some(0)
    } else {
        match spec_first_success(outcomes.drop_first()) {
            Some(i) => Some(i + 1),
            None => None,
        }
    }
}

/// How many creation attempts a search makes: one per candidate up to and
/// including the first success, or one per candidate when none succeeds.
pub open spec fn spec_attempts_made(outcomes: Seq<bool>) -> int {
    match spec_first_success(outcomes) {
        Some(i) => i + 1,
        None => outcomes.len() as int,
    }
}

/// The first success is the attempt that succeeds after every earlier
/// attempt failed.
pub proof fn lemma_first_success_at(outcomes: Seq<bool>, i: int)
    requires
        0 <= i < outcomes.len(),
        outcomes[i],
        forall|j: int| 0 <= j < i ==> !outcomes[j],
    ensures
        spec_first_success(outcomes) == Some(i),
    decreases i,
{
    if i > 0 {
        lemma_first_success_at(outcomes.drop_first(), i - 1);
    }
}

/// When every attempt fails there is no first success.
pub proof fn lemma_no_success(outcomes: Seq<bool>)
    requires
        forall|j: int| 0 <= j < outcomes.len() ==> !outcomes[j],
    ensures
        spec_first_success(outcomes) is None,
    decreases outcomes.len(),
{
    if outcomes.len() > 0 {
        lemma_no_success(outcomes.drop_first());
    }
}

/// Law: when attempt `i` (0-indexed) is the first to succeed, the search
/// makes exactly `i + 1` attempts; the candidates after `i` are never tried.
pub proof fn lemma_attempt_count_at_first_success(outcomes: Seq<bool>, i: int)
    requires
        0 <= i < outcomes.len(),
        outcomes[i],
        forall|j: int| 0 <= j < i ==> !outcomes[j],
    ensures
        spec_attempts_made(outcomes) == i + 1,
{
    lemma_first_success_at(outcomes, i);
}

/// Law: with no candidates configured there is nothing to try: no attempt is
/// made and no window results.
pub proof fn lemma_no_candidates_no_attempts(outcomes: Seq<bool>)
    requires
        outcomes.len() == 0,
    ensures
        spec_attempts_made(outcomes) == 0,
        spec_first_success(outcomes) is None,
{
}

/// A fully resolved configuration: the arguments every creation attempt
/// passes to the windowing library, the attempt list in priority order, and
/// the aspect-ratio constraint to apply to the window a successful attempt
/// creates.
pub struct BuildPlan {
    /// Width passed to window creation.
    pub width: u32,
    /// Height passed to window creation.
    pub height: u32,
    /// Title passed to window creation.
    pub title: String,
    /// Mode passed to window creation.
    pub mode: WindowMode,
    /// Aspect-ratio constraint for the created window, when one was set.
    pub aspect_ratio: Option<(u32, u32)>,
    /// One entry per candidate, in priority order: the full hint sequence
    /// that attempt applies after resetting the windowing handle's hints.
    pub attempts: Vec<Vec<Hint>>,
}

/// Drives the attempts of a [`BuildPlan`] in order against a windowing
/// handle owned by the caller. The caller repeatedly asks for
/// [`Self::current_attempt`], performs it (reset the handle's hints, apply
/// the attempt's hints in order, try to create the window), and reports the
/// outcome with [`Self::record_failure`] or [`Self::record_success`]; the
/// session hands out the next candidate only after a failure, and after a
/// success or once the candidates run out it hands out nothing further.
pub struct BuildSession {
    /// The resolved configuration being tried.
    pub plan: BuildPlan,
    /// How many attempts have completed (failed, or succeeded and ended the
    /// search).
    pub tried: usize,
    /// The index of the successful attempt, once one succeeded.
    pub found: Option<usize>,
}

impl BuildSession {
    /// The session states that can arise from driving a plan.
    pub open spec fn wf(&self) -> bool {
        &&& self.tried <= self.plan.attempts@.len()
        &&& match self.found {
            Some(i) => self.tried >= 1 && i as int == self.tried as int - 1,
            None => true,
        }
    }

    /// A session still searching: no attempt has succeeded and candidates
    /// remain.
    pub open spec fn searching(&self) -> bool {
        self.found is None && self.tried < self.plan.attempts@.len()
    }

    /// Starts a search over `plan`. With no candidates the session is
    /// finished from the start: nothing is ever attempted.
    pub fn begin(plan: BuildPlan) -> (s: BuildSession)
        ensures
            s.plan == plan,
            s.tried == 0,
            s.found is None,
            s.wf(),
    {
        BuildSession { plan, tried: 0, found: None }
    }

    /// The hint sequence of the attempt to perform now, or `None` when the
    /// search is over (an attempt succeeded, or every candidate failed).
    pub fn current_attempt(&self) -> (r: Option<&Vec<Hint>>)
        ensures
            self.searching() ==> (r matches Some(h) && h@ == self.plan.attempts@[self.tried as int]@),
            !self.searching() ==> r is None,
    {
        if self.found.is_none() && self.tried < self.plan.attempts.len() {
            Some(&self.plan.attempts[self.tried])
        } else {
            None
        }
    }

    /// Records that the current attempt failed to create a window; the
    /// search moves on to the next candidate.
    pub fn record_failure(&mut self)
        requires
            old(self).searching(),
        ensures
            final(self).plan == old(self).plan,
            final(self).tried == old(self).tried + 1,
            final(self).found is None,
            final(self).wf(),
    {
        let remaining = self.plan.attempts.len();
        assert(self.tried < remaining);
        self.tried = self.tried + 1;
    }

    /// Records that the current attempt created a window, ending the search.
    /// Returns the aspect-ratio constraint to apply to that window: the
    /// configured one exactly when one was set, so a constraint is handed
    /// out if and only if creation succeeded and one was configured.
    pub fn record_success(&mut self) -> (constraint: Option<(u32, u32)>)
        requires
            old(self).searching(),
        ensures
            final(self).plan == old(self).plan,
            final(self).tried == old(self).tried + 1,
            final(self).found == Some(old(self).tried),
            constraint == old(self).plan.aspect_ratio,
            final(self).wf(),
    {
        let remaining = self.plan.attempts.len();
        assert(self.tried < remaining);
        self.found = Some(self.tried);
        self.tried = self.tried + 1;
        self.plan.aspect_ratio
    }

    /// How many attempts have been performed so far.
    pub fn attempts_tried(&self) -> (n: usize)
        ensures
            n == self.tried,
    {
        self.tried
    }

    /// The index of the candidate that succeeded, once one has.
    pub fn succeeded_at(&self) -> (r: Option<usize>)
        ensures
            r == self.found,
    {
        self.found
    }

    /// Whether the search is over, by success or by exhaustion.
    pub fn finished(&self) -> (r: bool)
        ensures
            r == !self.searching(),
    {
        self.found.is_some() || self.tried >= self.plan.attempts.len()
    }
}

/// What driving a [`BuildPlan`] against a scripted handle did: the record a
/// handle that merely logs every operation would keep.
pub struct ReplayLog {
    /// How many times the handle's hints were reset: once at the start of
    /// every attempt.
    pub resets: usize,
    /// Per attempt, in order, the hint sequence applied after the reset.
    pub applied: Vec<Vec<Hint>>,
    /// The index of the attempt whose creation succeeded, if any.
    pub created: Option<usize>,
    /// The aspect-ratio constraint applied to the created window: present
    /// exactly when an attempt succeeded and a constraint was configured.
    pub constraint_applied: Option<(u32, u32)>,
}

/// Drives a whole search against a scripted handle: `outcomes` gives, per
/// candidate, whether window creation would succeed on it. Attempts run in
/// priority order, each resetting the handle's hints and applying the
/// attempt's hints in order; the first success ends the search and receives
/// the configured aspect-ratio constraint, and candidates after it are never
/// tried.
pub fn run_scripted(plan: BuildPlan, outcomes: &Vec<bool>) -> (log: ReplayLog)
    requires
        outcomes@.len() == plan.attempts@.len(),
    ensures
        log.resets == spec_attempts_made(outcomes@),
        log.applied@.len() == spec_attempts_made(outcomes@),
        forall|i: int| 0 <= i < log.applied@.len() ==> log.applied@[i]@ == plan.attempts@[i]@,
        match spec_first_success(outcomes@) {
            Some(i) => log.created == Some(i as usize),
            None => log.created is None,
        },
        log.constraint_applied == (match spec_first_success(outcomes@) {
            Some(_) => plan.aspect_ratio,
            None => None::<(u32, u32)>,
        }),
{
    let ghost plan0 = plan;
    let total = outcomes.len();
    let mut session = BuildSession::begin(plan);
    let mut applied: Vec<Vec<Hint>> = Vec::new();
    let mut resets: usize = 0;
    let mut created: Option<usize> = None;
    let mut constraint_applied: Option<(u32, u32)> = None;
    loop
        invariant_except_break
            session.found is None,
            forall|k: int| 0 <= k < session.tried ==> !outcomes@[k],
            created is None,
            constraint_applied is None,
        invariant
            total == outcomes@.len(),
            outcomes@.len() == plan0.attempts@.len(),
            session.wf(),
            session.plan == plan0,
            resets == session.tried,
            applied@.len() == session.tried,
            forall|k: int| 0 <= k < session.tried ==> applied@[k]@ == plan0.attempts@[k]@,
        ensures
            match session.found {
                Some(f) => {
                    &&& f as int == session.tried as int - 1
                    &&& outcomes@[f as int]
                    &&& forall|k: int| 0 <= k < f ==> !outcomes@[k]
                    &&& created == Some(f)
                    &&& constraint_applied == plan0.aspect_ratio
                },
                None => {
                    &&& session.tried == outcomes@.len()
                    &&& forall|k: int| 0 <= k < session.tried ==> !outcomes@[k]
                    &&& created is None
                    &&& constraint_applied is None
                },
            },
        decreases outcomes@.len() - session.tried,
    {
        let cur = session.current_attempt();
        match cur {
            None => {
                break;
            },
            Some(h) => {
                let attempt_hints = slice_to_vec(h.as_slice());
                resets = resets + 1;
                applied.push(attempt_hints);
                let idx = session.attempts_tried();
                if outcomes[idx] {
                    constraint_applied = session.record_success();
                    created = Some(idx);
                    break;
                } else {
                    session.record_failure();
                }
            },
        }
    }
    proof {
        match session.found {
            Some(f) => {
                lemma_first_success_at(outcomes@, f as int);
            },
            None => {
                lemma_no_success(outcomes@);
            },
        }
    }
    ReplayLog { resets, applied, created, constraint_applied }
}

} // verus!
