use vstd::prelude::*;
use vstd::slice::slice_to_vec;

use crate::hints::{Hint, OpenGlProfileHint, WindowMode};
use crate::search::{spec_attempts, BuildPlan, BuildSession};

verus! {

/// The fixed fallback ladder [`WindowBuilder::try_modern_context_hints`]
/// appends, most preferred first: core-profile forward-compatible contexts
/// for versions 4.5 down to 4.0 and 3.2, then 3.1 forward-compatible, bare
/// 3.1, 3.0 forward-compatible, bare 3.0, bare 2.1, and bare 2.0.
pub open spec fn modern_context_candidates() -> Seq<Seq<Hint>> {
    seq![
        seq![
            Hint::ContextVersion(4, 5),
            Hint::OpenGlForwardCompat(true),
            Hint::OpenGlProfile(OpenGlProfileHint::Core),
        ],
        seq![
            Hint::ContextVersion(4, 4),
            Hint::OpenGlForwardCompat(true),
            Hint::OpenGlProfile(OpenGlProfileHint::Core),
        ],
        seq![
            Hint::ContextVersion(4, 3),
            Hint::OpenGlForwardCompat(true),
            Hint::OpenGlProfile(OpenGlProfileHint::Core),
        ],
        seq![
            Hint::ContextVersion(4, 2),
            Hint::OpenGlForwardCompat(true),
            Hint::OpenGlProfile(OpenGlProfileHint::Core),
        ],
        seq![
            Hint::ContextVersion(4, 1),
            Hint::OpenGlForwardCompat(true),
            Hint::OpenGlProfile(OpenGlProfileHint::Core),
        ],
        seq![
            Hint::ContextVersion(4, 0),
            Hint::OpenGlForwardCompat(true),
            Hint::OpenGlProfile(OpenGlProfileHint::Core),
        ],
        seq![
            Hint::ContextVersion(3, 2),
            Hint::OpenGlForwardCompat(true),
            Hint::OpenGlProfile(OpenGlProfileHint::Core),
        ],
        seq![Hint::ContextVersion(3, 1), Hint::OpenGlForwardCompat(true)],
        seq![Hint::ContextVersion(3, 1)],
        seq![Hint::ContextVersion(3, 0), Hint::OpenGlForwardCompat(true)],
        seq![Hint::ContextVersion(3, 0)],
        seq![Hint::ContextVersion(2, 1)],
        seq![Hint::ContextVersion(2, 0)],
    ]
}

/// The views of a list of hint sets, one sequence of hints per set.
pub open spec fn hint_set_views(sets: Seq<Vec<Hint>>) -> Seq<Seq<Hint>> {
    sets.map_values(|v: Vec<Hint>| v@)
}

/// A candidate asking for a forward-compatible core-profile context of the
/// given version.
fn core_profile_candidate(major: u32, minor: u32) -> (v: Vec<Hint>)
    ensures
        v@ == seq![
            Hint::ContextVersion(major, minor),
            Hint::OpenGlForwardCompat(true),
            Hint::OpenGlProfile(OpenGlProfileHint::Core),
        ],
{
    let mut v: Vec<Hint> = Vec::new();
    v.push(Hint::ContextVersion(major, minor));
    v.push(Hint::OpenGlForwardCompat(true));
    v.push(Hint::OpenGlProfile(OpenGlProfileHint::Core));
    proof {
        assert(v@ =~= seq![
            Hint::ContextVersion(major, minor),
            Hint::OpenGlForwardCompat(true),
            Hint::OpenGlProfile(OpenGlProfileHint::Core),
        ]);
    }
    v
}

/// A candidate asking for a forward-compatible context of the given version,
/// with no profile preference.
fn forward_compat_candidate(major: u32, minor: u32) -> (v: Vec<Hint>)
    ensures
        v@ == seq![Hint::ContextVersion(major, minor), Hint::OpenGlForwardCompat(true)],
{
    let mut v: Vec<Hint> = Vec::new();
    v.push(Hint::ContextVersion(major, minor));
    v.push(Hint::OpenGlForwardCompat(true));
    proof {
        assert(v@ =~= seq![Hint::ContextVersion(major, minor), Hint::OpenGlForwardCompat(true)]);
    }
    v
}

/// A candidate asking only for a context of the given version.
fn bare_version_candidate(major: u32, minor: u32) -> (v: Vec<Hint>)
    ensures
        v@ == seq![Hint::ContextVersion(major, minor)],
{
    let mut v: Vec<Hint> = Vec::new();
    v.push(Hint::ContextVersion(major, minor));
    proof {
        assert(v@ =~= seq![Hint::ContextVersion(major, minor)]);
    }
    v
}

/// Accumulates desired window attributes and two categories of context hints:
/// hints applied on every attempt (`common_hints`) and per-attempt candidate
/// hint sets (`try_hints`, tried in the order they were added). Each mutator
/// consumes the builder and returns the updated value, so a configuration is
/// written as one fluent chain and consumed exactly once by [`Self::create`].
pub struct WindowBuilder {
    /// Desired width and height; defaults to 640 x 480 when unset.
    pub size: Option<(u32, u32)>,
    /// Aspect-ratio constraint to apply once a window exists.
    pub aspect_ratio: Option<(u32, u32)>,
    /// Window title; defaults to a placeholder when unset.
    pub title: Option<String>,
    /// Window mode; defaults to windowed when unset.
    pub mode: Option<WindowMode>,
    /// Hints applied to every attempt, in the order they were added.
    pub common_hints: Vec<Hint>,
    /// Candidate hint sets, most preferred first.
    pub try_hints: Vec<Vec<Hint>>,
}

impl WindowBuilder {
    /// Creates a builder with no attributes and no hints set.
    pub fn new() -> (b: WindowBuilder)
        ensures
            b.size is None,
            b.aspect_ratio is None,
            b.title is None,
            b.mode is None,
            b.common_hints@ == Seq::<Hint>::empty(),
            b.try_hints@ == Seq::<Vec<Hint>>::empty(),
    {
        WindowBuilder {
            size: None,
            aspect_ratio: None,
            title: None,
            mode: None,
            common_hints: Vec::new(),
            try_hints: Vec::new(),
        }
    }

    /// Sets the size of the window to `width x height`.
    pub fn size(self, width: u32, height: u32) -> (b: WindowBuilder)
        ensures
            b.size == Some((width, height)),
            b.aspect_ratio == self.aspect_ratio,
            b.title == self.title,
            b.mode == self.mode,
            b.common_hints == self.common_hints,
            b.try_hints == self.try_hints,
    {
        WindowBuilder { size: Some((width, height)), ..self }
    }

    /// Sets the title of the window.
    pub fn title(self, title: &str) -> (b: WindowBuilder)
        ensures
            b.title matches Some(t) && t@ == title@,
            b.size == self.size,
            b.aspect_ratio == self.aspect_ratio,
            b.mode == self.mode,
            b.common_hints == self.common_hints,
            b.try_hints == self.try_hints,
    {
        WindowBuilder { title: Some(title.to_string()), ..self }
    }

    /// Sets the mode of the window.
    pub fn mode(self, mode: WindowMode) -> (b: WindowBuilder)
        ensures
            b.mode == Some(mode),
            b.size == self.size,
            b.aspect_ratio == self.aspect_ratio,
            b.title == self.title,
            b.common_hints == self.common_hints,
            b.try_hints == self.try_hints,
    {
        WindowBuilder { mode: Some(mode), ..self }
    }

    /// Appends `hints` to the common hints, which every attempt applies
    /// before the candidate's own hints. Multiple calls accumulate in call
    /// order; nothing is deduplicated.
    pub fn common_hints(self, hints: &[Hint]) -> (b: WindowBuilder)
        ensures
            b.common_hints@ == self.common_hints@ + hints@,
            b.size == self.size,
            b.aspect_ratio == self.aspect_ratio,
            b.title == self.title,
            b.mode == self.mode,
            b.try_hints == self.try_hints,
    {
        let mut b = self;
        proof {
            assert(b.common_hints@ =~= self.common_hints@ + hints@.subrange(0, 0));
        }
        let mut j: usize = 0;
        while j < hints.len()
            invariant
                j <= hints@.len(),
                b.common_hints@ == self.common_hints@ + hints@.subrange(0, j as int),
                b.size == self.size,
                b.aspect_ratio == self.aspect_ratio,
                b.title == self.title,
                b.mode == self.mode,
                b.try_hints == self.try_hints,
            decreases hints@.len() - j,
        {
            b.common_hints.push(hints[j]);
            j = j + 1;
            proof {
                assert(b.common_hints@ =~= self.common_hints@ + hints@.subrange(0, j as int));
            }
        }
        proof {
            assert(hints@.subrange(0, hints@.len() as int) =~= hints@);
        }
        b
    }

    /// Appends one new candidate hint set. Candidates accumulate in call
    /// order: the first added is the first tried, so earlier candidates take
    /// priority over later ones.
    pub fn try_hints(self, hints: &[Hint]) -> (b: WindowBuilder)
        ensures
            b.try_hints@.len() == self.try_hints@.len() + 1,
            forall|i: int| 0 <= i < self.try_hints@.len() ==> b.try_hints@[i] == self.try_hints@[i],
            b.try_hints@.last()@ == hints@,
            b.size == self.size,
            b.aspect_ratio == self.aspect_ratio,
            b.title == self.title,
            b.mode == self.mode,
            b.common_hints == self.common_hints,
    {
        let mut b = self;
        let candidate = slice_to_vec(hints);
        b.try_hints.push(candidate);
        b
    }

    /// Appends a common hint telling the graphics context that it can expect
    /// no errors from the program.
    pub fn no_error(self) -> (b: WindowBuilder)
        ensures
            b.common_hints@ == self.common_hints@ + seq![Hint::ContextNoError(true)],
            b.size == self.size,
            b.aspect_ratio == self.aspect_ratio,
            b.title == self.title,
            b.mode == self.mode,
            b.try_hints == self.try_hints,
    {
        let mut v: Vec<Hint> = Vec::new();
        v.push(Hint::ContextNoError(true));
        proof {
            assert(v@ =~= seq![Hint::ContextNoError(true)]);
        }
        self.common_hints(v.as_slice())
    }

    /// Appends a common hint with the desired refresh rate. `None` asks for
    /// the highest refresh rate available.
    pub fn refresh_rate(self, rate: Option<u32>) -> (b: WindowBuilder)
        ensures
            b.common_hints@ == self.common_hints@ + seq![Hint::RefreshRate(rate)],
            b.size == self.size,
            b.aspect_ratio == self.aspect_ratio,
            b.title == self.title,
            b.mode == self.mode,
            b.try_hints == self.try_hints,
    {
        let mut v: Vec<Hint> = Vec::new();
        v.push(Hint::RefreshRate(rate));
        proof {
            assert(v@ =~= seq![Hint::RefreshRate(rate)]);
        }
        self.common_hints(v.as_slice())
    }

    /// Appends the fixed fallback ladder of candidate hint sets described by
    /// [`modern_context_candidates`], aiming for the most capable context
    /// available. Some platforms only expose contexts newer than their
    /// default through a forward-compatible core profile, so the ladder asks
    /// for those first and falls back towards plain legacy versions.
    pub fn try_modern_context_hints(self) -> (b: WindowBuilder)
        ensures
            b.try_hints@.len() == self.try_hints@.len() + 13,
            forall|i: int| 0 <= i < self.try_hints@.len() ==> b.try_hints@[i] == self.try_hints@[i],
            forall|i: int|
                0 <= i < 13 ==> b.try_hints@[self.try_hints@.len() + i]@
                    == modern_context_candidates()[i],
            b.size == self.size,
            b.aspect_ratio == self.aspect_ratio,
            b.title == self.title,
            b.mode == self.mode,
            b.common_hints == self.common_hints,
    {
        let ghost len0: int = self.try_hints@.len() as int;
        let v = core_profile_candidate(4, 5);
        let b = self.try_hints(v.as_slice());
        proof {
            assert(b.try_hints@[len0 + 0]@ == modern_context_candidates()[0]);
        }
        let v = core_profile_candidate(4, 4);
        let b = b.try_hints(v.as_slice());
        proof {
            assert(b.try_hints@[len0 + 1]@ == modern_context_candidates()[1]);
        }
        let v = core_profile_candidate(4, 3);
        let b = b.try_hints(v.as_slice());
        proof {
            assert(b.try_hints@[len0 + 2]@ == modern_context_candidates()[2]);
        }
        let v = core_profile_candidate(4, 2);
        let b = b.try_hints(v.as_slice());
        proof {
            assert(b.try_hints@[len0 + 3]@ == modern_context_candidates()[3]);
        }
        let v = core_profile_candidate(4, 1);
        let b = b.try_hints(v.as_slice());
        proof {
            assert(b.try_hints@[len0 + 4]@ == modern_context_candidates()[4]);
        }
        let v = core_profile_candidate(4, 0);
        let b = b.try_hints(v.as_slice());
        proof {
            assert(b.try_hints@[len0 + 5]@ == modern_context_candidates()[5]);
        }
        let v = core_profile_candidate(3, 2);
        let b = b.try_hints(v.as_slice());
        proof {
            assert(b.try_hints@[len0 + 6]@ == modern_context_candidates()[6]);
        }
        let v = forward_compat_candidate(3, 1);
        let b = b.try_hints(v.as_slice());
        proof {
            assert(b.try_hints@[len0 + 7]@ == modern_context_candidates()[7]);
        }
        let v = bare_version_candidate(3, 1);
        let b = b.try_hints(v.as_slice());
        proof {
            assert(b.try_hints@[len0 + 8]@ == modern_context_candidates()[8]);
        }
        let v = forward_compat_candidate(3, 0);
        let b = b.try_hints(v.as_slice());
        proof {
            assert(b.try_hints@[len0 + 9]@ == modern_context_candidates()[9]);
        }
        let v = bare_version_candidate(3, 0);
        let b = b.try_hints(v.as_slice());
        proof {
            assert(b.try_hints@[len0 + 10]@ == modern_context_candidates()[10]);
        }
        let v = bare_version_candidate(2, 1);
        let b = b.try_hints(v.as_slice());
        proof {
            assert(b.try_hints@[len0 + 11]@ == modern_context_candidates()[11]);
        }
        let v = bare_version_candidate(2, 0);
        let b = b.try_hints(v.as_slice());
        proof {
            assert(b.try_hints@[len0 + 12]@ == modern_context_candidates()[12]);
        }
        b
    }

    /// The width and height window creation passes on: the configured size,
    /// or 640 x 480 when none was set.
    pub open spec fn spec_resolved_size(&self) -> (u32, u32) {
        match self.size {
            Some(s) => s,
            None => (640u32, 480u32),
        }
    }

    /// The title window creation passes on: the configured title, or the
    /// placeholder when none was set.
    pub open spec fn spec_resolved_title(&self) -> Seq<char> {
        match self.title {
            Some(t) => t@,
            None => "GLFW Window"@,
        }
    }

    /// The mode window creation passes on: the configured mode, or windowed
    /// when none was set.
    pub open spec fn spec_resolved_mode(&self) -> WindowMode {
        match self.mode {
            Some(m) => m,
            None => WindowMode::Windowed,
        }
    }

    /// Sets the aspect ratio the window is constrained to after creation,
    /// even when it is resized.
    pub fn aspect_ratio(self, numer: u32, denom: u32) -> (b: WindowBuilder)
        ensures
            b.aspect_ratio == Some((numer, denom)),
            b.size == self.size,
            b.title == self.title,
            b.mode == self.mode,
            b.common_hints == self.common_hints,
            b.try_hints == self.try_hints,
    {
        WindowBuilder { aspect_ratio: Some((numer, denom)), ..self }
    }

    /// The terminal operation: consumes the builder, resolves the defaults
    /// (640 x 480, the placeholder title, windowed mode), and lays out one
    /// attempt per candidate hint set, each applying the common hints first
    /// and the candidate's hints after them, in priority order. The
    /// windowing handle lives with the caller, so the attempts are driven
    /// through the returned [`BuildSession`]: the first attempt that creates
    /// a window ends the search, and when every attempt fails — or no
    /// candidate was configured at all — no window results.
    pub fn create(self) -> (s: BuildSession)
        ensures
            s.tried == 0,
            s.found is None,
            s.wf(),
            s.plan.width == self.spec_resolved_size().0,
            s.plan.height == self.spec_resolved_size().1,
            s.plan.title@ == self.spec_resolved_title(),
            s.plan.mode == self.spec_resolved_mode(),
            s.plan.aspect_ratio == self.aspect_ratio,
            s.plan.attempts@.len() == self.try_hints@.len(),
            forall|i: int|
                0 <= i < self.try_hints@.len() ==> s.plan.attempts@[i]@ == self.common_hints@
                    + self.try_hints@[i]@,
            hint_set_views(s.plan.attempts@) == spec_attempts(
                self.common_hints@,
                hint_set_views(self.try_hints@),
            ),
    {
        let WindowBuilder { size, aspect_ratio, title, mode, common_hints, try_hints } = self;
        let (width, height): (u32, u32) = match size {
            Some(p) => p,
            None => (640, 480),
        };
        let title: String = match title {
            Some(t) => t,
            None => "GLFW Window".to_string(),
        };
        let mode: WindowMode = match mode {
            Some(m) => m,
            None => WindowMode::Windowed,
        };
        let mut attempts: Vec<Vec<Hint>> = Vec::new();
        let mut i: usize = 0;
        while i < try_hints.len()
            invariant
                i <= try_hints@.len(),
                attempts@.len() == i,
                forall|k: int| 0 <= k < i ==> attempts@[k]@ == common_hints@ + try_hints@[k]@,
            decreases try_hints@.len() - i,
        {
            let mut a: Vec<Hint> = Vec::new();
            let mut j: usize = 0;
            while j < common_hints.len()
                invariant
                    j <= common_hints@.len(),
                    a@ == common_hints@.subrange(0, j as int),
                decreases common_hints@.len() - j,
            {
                a.push(common_hints[j]);
                j = j + 1;
            }
            let candidate = &try_hints[i];
            proof {
                assert(common_hints@.subrange(0, common_hints@.len() as int) =~= common_hints@);
                assert(a@ =~= common_hints@ + candidate@.subrange(0, 0));
            }
            let mut j: usize = 0;
            while j < candidate.len()
                invariant
                    j <= candidate@.len(),
                    a@ == common_hints@ + candidate@.subrange(0, j as int),
                decreases candidate@.len() - j,
            {
                a.push(candidate[j]);
                j = j + 1;
                proof {
                    assert(a@ =~= common_hints@ + candidate@.subrange(0, j as int));
                }
            }
            proof {
                assert(candidate@.subrange(0, candidate@.len() as int) =~= candidate@);
            }
            attempts.push(a);
            i = i + 1;
        }
        let plan = BuildPlan { width, height, title, mode, aspect_ratio, attempts };
        proof {
            assert(hint_set_views(plan.attempts@) =~= spec_attempts(
                common_hints@,
                hint_set_views(try_hints@),
            ));
        }
        BuildSession::begin(plan)
    }
}

} // verus!
