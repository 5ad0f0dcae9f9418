//! Locating a working converter executable.
//!
//! Discovery probes candidate invocation strategies in a fixed priority
//! order: the bare `blender` name first, then the flatpak launcher; an
//! explicit override path is probed alone, with no fallback. A probe is a
//! cheap launch in background mode with the verbose flag, and a candidate is
//! accepted exactly when that launch starts and exits successfully.
//!
//! The library cannot launch processes itself, so discovery is a small state
//! machine: [`Search`] names the candidate to probe next, the embedding
//! application performs the launch, and [`Search::advance`] consumes the
//! outcome and either accepts the candidate, moves to the next one, or
//! reports that no candidate works.

use crate::convert::ConversionOptions;
use crate::path::{spec_render, FilePath};
use vstd::prelude::*;

verus! {

/// The converter executable search strategy.
#[derive(Debug)]
pub enum BlenderExecutable {
    /// Invokes the converter as `blender`, relying on the executable search
    /// path of the environment.
    Normal,
    /// Invokes the converter as `flatpak run org.blender.Blender`.
    Flatpak,
    /// Invokes the converter through an explicitly given path.
    Path(FilePath),
}

/// Whether two locators name the same strategy with the same path.
pub open spec fn spec_loc_eq(a: BlenderExecutable, b: BlenderExecutable) -> bool {
    match (a, b) {
        (BlenderExecutable::Normal, BlenderExecutable::Normal) => true,
        (BlenderExecutable::Flatpak, BlenderExecutable::Flatpak) => true,
        (BlenderExecutable::Path(p), BlenderExecutable::Path(q)) => p.absolute == q.absolute
            && p@ == q@,
        _ => false,
    }
}

impl Clone for BlenderExecutable {
    /// Copies the locator; the copy names the same strategy and path.
    fn clone(&self) -> (r: Self)
        ensures
            spec_loc_eq(*self, r),
    {
        match self {
            BlenderExecutable::Normal => BlenderExecutable::Normal,
            BlenderExecutable::Flatpak => BlenderExecutable::Flatpak,
            BlenderExecutable::Path(p) => BlenderExecutable::Path(p.clone()),
        }
    }
}

/// An argument vector ready to launch: the program and its arguments.
#[derive(Debug)]
pub struct Invocation {
    /// The program to launch.
    pub program: String,
    /// Its arguments, in order.
    pub args: Vec<String>,
}

/// The program that launches a locator's strategy.
pub open spec fn spec_cmd_program(e: BlenderExecutable) -> Seq<char> {
    match e {
        BlenderExecutable::Normal => "blender"@,
        BlenderExecutable::Flatpak => "flatpak"@,
        BlenderExecutable::Path(p) => spec_render(p),
    }
}

/// The arguments that a locator's strategy starts with, before any
/// conversion or probe flags.
pub open spec fn spec_cmd_args(e: BlenderExecutable) -> Seq<Seq<char>> {
    match e {
        BlenderExecutable::Flatpak => seq!["run"@, "org.blender.Blender"@],
        _ => Seq::empty(),
    }
}

/// Appends one argument to an argument vector.
pub(crate) fn push_arg(args: &mut Vec<String>, s: &str)
    ensures
        final(args).deep_view() == old(args).deep_view().push(s@),
{
    proof {
        assert(args.deep_view().len() == args@.len());
        assert(forall|j: int| 0 <= j < args@.len() ==> args.deep_view()[j]
            == #[trigger] args@[j]@);
    }
    args.push(s.to_owned());
    proof {
        assert forall|j: int| 0 <= j < args.deep_view().len() implies args.deep_view()[j]
            == old(args).deep_view().push(s@)[j] by {
            assert(args.deep_view()[j] == args@[j]@);
        }
        assert(args.deep_view() =~= old(args).deep_view().push(s@));
    }
}

impl BlenderExecutable {
    /// The base invocation for this locator: how the strategy is launched,
    /// before any conversion or probe flags.
    pub fn cmd(&self) -> (r: Invocation)
        ensures
            r.program@ == spec_cmd_program(*self),
            r.args.deep_view() == spec_cmd_args(*self),
    {
        match self {
            BlenderExecutable::Normal => {
                let r = Invocation { program: "blender".to_owned(), args: Vec::new() };
                proof {
                    assert(r.args.deep_view() =~= spec_cmd_args(*self));
                }
                r
            },
            BlenderExecutable::Flatpak => {
                let mut args: Vec<String> = Vec::new();
                proof {
                    assert(args.deep_view() =~= Seq::<Seq<char>>::empty());
                }
                push_arg(&mut args, "run");
                push_arg(&mut args, "org.blender.Blender");
                proof {
                    assert(args.deep_view() =~= spec_cmd_args(*self));
                }
                Invocation { program: "flatpak".to_owned(), args }
            },
            BlenderExecutable::Path(p) => {
                let r = Invocation { program: p.display(), args: Vec::new() };
                proof {
                    assert(r.args.deep_view() =~= spec_cmd_args(*self));
                }
                r
            },
        }
    }

    /// The invocation that probes this locator: the base invocation in
    /// background mode with the verbose flag.
    pub fn probe_command(&self) -> (r: Invocation)
        ensures
            r.program@ == spec_cmd_program(*self),
            r.args.deep_view() == spec_cmd_args(*self) + seq!["-b"@, "-v"@],
    {
        let mut inv = self.cmd();
        push_arg(&mut inv.args, "-b");
        push_arg(&mut inv.args, "-v");
        proof {
            assert(inv.args.deep_view() =~= spec_cmd_args(*self) + seq!["-b"@, "-v"@]);
        }
        inv
    }
}

/// What became of one attempted process launch.
#[derive(Debug, Clone, Copy, PartialEq, Eq, Structural)]
pub enum ProcessOutcome {
    /// The process started and exited with this code.
    Exited(i32),
    /// The process could not be started at all.
    LaunchFailed,
}

/// Whether a probe outcome counts as success: the probe process started and
/// exited with code zero. A non-zero exit and a failed launch both count as
/// "this candidate does not work".
pub open spec fn spec_probe_ok(o: ProcessOutcome) -> bool {
    match o {
        ProcessOutcome::Exited(code) => code == 0,
        ProcessOutcome::LaunchFailed => false,
    }
}

/// Whether a probe outcome counts as success.
pub fn probe_succeeded(o: &ProcessOutcome) -> (r: bool)
    ensures
        r == spec_probe_ok(*o),
{
    match o {
        ProcessOutcome::Exited(code) => *code == 0,
        ProcessOutcome::LaunchFailed => false,
    }
}

/// One step of executable discovery: the candidate to probe now, and
/// whether the flatpak launcher remains as a fallback after it.
#[derive(Debug)]
pub struct Search {
    /// The candidate whose probe outcome the search waits for.
    pub candidate: BlenderExecutable,
    /// True while the flatpak launcher is still to be tried after a failure.
    pub fallback_to_flatpak: bool,
}

/// What a search does with one probe outcome.
#[derive(Debug)]
pub enum SearchStep {
    /// The probe succeeded: discovery ends with this locator.
    Found(BlenderExecutable),
    /// The probe failed: probe this next candidate.
    TryNext(Search),
    /// The probe failed and no candidate is left: discovery fails with
    /// `Error::MissingBlenderExecutable`.
    Missing,
}

/// How a search consumes one probe outcome: success accepts the current
/// candidate, failure moves to the flatpak launcher when it is still to be
/// tried, and otherwise ends the search empty-handed.
pub open spec fn spec_search_step(s: Search, probe_ok: bool) -> SearchStep {
    if probe_ok {
        SearchStep::Found(s.candidate)
    } else if s.fallback_to_flatpak {
        SearchStep::TryNext(
            Search { candidate: BlenderExecutable::Flatpak, fallback_to_flatpak: false },
        )
    } else {
        SearchStep::Missing
    }
}

impl Search {
    /// Consumes the outcome of probing the current candidate.
    pub fn advance(self, outcome: &ProcessOutcome) -> (r: SearchStep)
        ensures
            r == spec_search_step(self, spec_probe_ok(*outcome)),
    {
        if probe_succeeded(outcome) {
            SearchStep::Found(self.candidate)
        } else if self.fallback_to_flatpak {
            SearchStep::TryNext(
                Search { candidate: BlenderExecutable::Flatpak, fallback_to_flatpak: false },
            )
        } else {
            SearchStep::Missing
        }
    }
}

impl BlenderExecutable {
    /// Begins the standard search: the bare name first, then the flatpak
    /// launcher, accepting the first candidate whose probe succeeds.
    pub fn find() -> (r: Search)
        ensures
            r.candidate is Normal,
            r.fallback_to_flatpak,
    {
        Search { candidate: BlenderExecutable::Normal, fallback_to_flatpak: true }
    }

    /// Begins a search that probes exactly `path` and nothing else.
    pub fn find_using_path(path: &FilePath) -> (r: Search)
        ensures
            r.candidate matches BlenderExecutable::Path(p) && p.absolute == path.absolute && p@
                == path@,
            !r.fallback_to_flatpak,
    {
        Search { candidate: BlenderExecutable::Path(path.clone()), fallback_to_flatpak: false }
    }

    /// Begins the search that the options call for: the override path when
    /// one is set, else the standard search.
    pub fn find_using_options(options: &ConversionOptions) -> (r: Search)
        ensures
            options.blender_path matches Some(bp) ==> (r.candidate matches
                BlenderExecutable::Path(p) && p.absolute == bp.absolute && p@ == bp@
                && !r.fallback_to_flatpak),
            options.blender_path is None ==> r.candidate is Normal && r.fallback_to_flatpak,
    {
        match &options.blender_path {
            Some(path) => BlenderExecutable::find_using_path(path),
            None => BlenderExecutable::find(),
        }
    }
}

/// Discovery priority: when the bare-name probe succeeds, the search
/// accepts the bare-name candidate, whatever the launcher probe would have
/// returned; the launcher is never consulted.
pub proof fn lemma_discovery_priority(s: Search)
    requires
        s.candidate is Normal,
        s.fallback_to_flatpak,
    ensures
        spec_search_step(s, true) matches SearchStep::Found(e) && e is Normal,
{
}

/// Discovery fallback: when the bare-name probe fails and the launcher
/// probe succeeds, the search ends with the launcher-based locator.
pub proof fn lemma_discovery_fallback(s: Search)
    requires
        s.candidate is Normal,
        s.fallback_to_flatpak,
    ensures
        spec_search_step(s, false) matches SearchStep::TryNext(n) && (spec_search_step(n, true)
            matches SearchStep::Found(e) && e is Flatpak),
{
}

/// Discovery total failure: when no candidate's probe succeeds, the search
/// ends empty-handed, which discovery reports as
/// `Error::MissingBlenderExecutable`.
pub proof fn lemma_discovery_total_failure(s: Search)
    requires
        s.candidate is Normal,
        s.fallback_to_flatpak,
    ensures
        spec_search_step(s, false) matches SearchStep::TryNext(n) && spec_search_step(n, false)
            is Missing,
{
}

/// An explicit path has no fallback: when the probe at the given path
/// fails, the search ends empty-handed at once, even though the bare-name
/// candidate might have succeeded.
pub proof fn lemma_explicit_path_no_fallback(p: FilePath)
    ensures
        spec_search_step(
            Search { candidate: BlenderExecutable::Path(p), fallback_to_flatpak: false },
            false,
        ) is Missing,
{
}

} // verus!
