//! The session model and the round driver: the append-only record of
//! accepted fragments, and the decision of whether a round commits.
//!
//! One round runs: classify the fragment, render the provisional project,
//! build it, execute the entry point, and only then commit. The building and
//! the execution are outside work performed by the surrounding application;
//! it reports their outcome back, and the session extends itself exactly
//! when the round fully succeeded. Every failure leaves the committed
//! session untouched.

use vstd::prelude::*;
use vstd::string::StringExecFns;
use crate::construct::{
    frags_view, manifest_code, render_manifest, render_source, source_code, DataConfig,
    DataConfigV, DataHandling,
};
use crate::fragment::{Fragment, FragmentV};
use crate::linking::{
    merge_crates, names_unique, ConfigError, Dependency, DependencyV, LinkingConfiguration,
};

verus! {

/// What one round leaves on the caller's screen: the value's textual
/// representation, or the stage that failed.
pub enum EvaluationResult {
    /// The round committed; the textual representation of the round's value.
    Success(String),
    /// Materializing the project snapshot failed before any build began.
    ConstructionError(String),
    /// The toolchain reported diagnostics; forwarded verbatim.
    CompileError(String),
    /// Conflicting dependency declarations, or resolution failed at build
    /// time.
    LinkError(String),
    /// The invoked code panicked, aborted or timed out; the host survives.
    ExecutionFailure,
}

/// What the surrounding application reports after it carried one rendered
/// round through writing, building and executing.
pub enum RoundOutcome {
    /// The artifact was built, loaded, and the entry point returned this
    /// textual representation.
    Evaluated(String),
    /// Writing the project snapshot to disk failed.
    WriteFailed(String),
    /// The toolchain refused the generated project; its diagnostics.
    BuildFailed(String),
    /// Dependency resolution failed while building.
    LinkFailed(String),
    /// The entry point panicked or aborted; caught at the call boundary.
    Panicked,
}

/// The two generated files of one provisional project snapshot.
pub struct RoundPlan {
    /// Contents of the generated source module.
    pub source: String,
    /// Contents of the generated manifest.
    pub manifest: String,
}

/// Mathematical image of a [`Session`].
pub ghost struct SessionV {
    pub frags: Seq<FragmentV>,
    pub deps: Seq<DependencyV>,
    pub data: DataConfigV,
}

/// Whether an outcome commits the round.
pub open spec fn outcome_commits(o: RoundOutcome) -> bool {
    o is Evaluated
}

/// The session a resolved round leaves behind: extended by the fragment and
/// its dependency declarations when the round committed, untouched
/// otherwise.
pub open spec fn session_after(s: SessionV, f: FragmentV, commit: bool) -> SessionV {
    if commit {
        SessionV { frags: s.frags.push(f), deps: merge_crates(s.deps, f.crates), data: s.data }
    } else {
        s
    }
}

/// The committed, ordered history of fragments, with the table of external
/// dependencies the session may reference.
pub struct Session {
    frags: Vec<Fragment>,
    config: LinkingConfiguration,
    data: DataConfig,
}

impl View for Session {
    type V = SessionV;

    closed spec fn view(&self) -> SessionV {
        SessionV { frags: frags_view(self.frags@), deps: self.config@, data: self.data@ }
    }
}

impl Session {
    /// Declared dependency names are distinct.
    pub open spec fn wf(&self) -> bool {
        names_unique(self@.deps)
    }

    /// An empty session: no committed fragment, no declared dependency, and
    /// no data handle (the unit value, passed by value).
    pub fn new() -> (r: Session)
        ensures
            r@.frags == Seq::<FragmentV>::empty(),
            r@.deps == Seq::<DependencyV>::empty(),
            r@.data == (DataConfigV { data_type: "()"@, handling: DataHandling::Value }),
            r.wf(),
    {
        Session::with_data(String::from_str("()"), DataHandling::Value)
    }

    /// A session whose evaluation function is handed an opaque data handle
    /// of the named type, by value, by reference or by mutable reference as
    /// `handling` says. Chosen at start-up, fixed for the session's life.
    pub fn with_data(data_type: String, handling: DataHandling) -> (r: Session)
        ensures
            r@.frags == Seq::<FragmentV>::empty(),
            r@.deps == Seq::<DependencyV>::empty(),
            r@.data == (DataConfigV { data_type: data_type@, handling }),
            r.wf(),
    {
        let r = Session {
            frags: Vec::new(),
            config: LinkingConfiguration::new(),
            data: DataConfig { data_type, handling },
        };
        proof {
            assert(r@.frags =~= Seq::<FragmentV>::empty());
        }
        r
    }

    /// The committed fragments, in order of acceptance.
    pub fn history(&self) -> (r: &Vec<Fragment>)
        ensures
            frags_view(r@) == self@.frags,
    {
        &self.frags
    }

    /// Declare an external dependency up front, optionally with an explicit
    /// artifact path overriding standard resolution. Conflicts are reported
    /// immediately and change nothing.
    pub fn declare_dependency(&mut self, name: String, path: Option<String>) -> (r: Result<
        (),
        ConfigError,
    >)
        requires
            old(self).wf(),
        ensures
            final(self).wf(),
            final(self)@.frags == old(self)@.frags,
            final(self)@.deps == crate::linking::declare_result(
                old(self)@.deps,
                name@,
                crate::linking::opt_view(path),
            ).0,
            (r is Ok) == crate::linking::declare_result(
                old(self)@.deps,
                name@,
                crate::linking::opt_view(path),
            ).1,
            (r matches Result::Err(e) ==> e.dependency@ == name@),
    {
        self.config.declare(name, path)
    }

    /// The declared dependencies, in declaration order.
    pub fn dependencies(&self) -> (r: &Vec<Dependency>)
        ensures
            r@.map_values(|d: Dependency| d@) == self@.deps,
    {
        self.config.dependencies()
    }

    /// Render the provisional project snapshot for one submitted fragment:
    /// the generated source of the committed session with the fragment
    /// folded in, and the manifest of the dependency table extended by the
    /// fragment's declarations. The session itself is untouched.
    pub fn begin_round(&self, frag: &Fragment) -> (plan: RoundPlan)
        requires
            self.wf(),
        ensures
            plan.source@ == source_code(self@.frags.push(frag@), self@.data),
            plan.manifest@ == manifest_code(merge_crates(self@.deps, frag@.crates)),
    {
        let source = render_source(&self.frags, frag, &self.data);
        let merged = self.config.extended(&frag.crates);
        let manifest = render_manifest(merged.dependencies());
        RoundPlan { source, manifest }
    }

    /// Resolve one round from the outcome the surrounding application
    /// reports: commit the fragment exactly when its artifact was built and
    /// its entry point returned a value, and surface the outcome as the
    /// round's evaluation result. Any failure leaves the session exactly as
    /// it was.
    pub fn resolve_round(&mut self, frag: Fragment, outcome: RoundOutcome) -> (r:
        EvaluationResult)
        requires
            old(self).wf(),
        ensures
            final(self).wf(),
            final(self)@ == session_after(old(self)@, frag@, outcome_commits(outcome)),
            match outcome {
                RoundOutcome::Evaluated(s) => r matches EvaluationResult::Success(t) && t == s,
                RoundOutcome::WriteFailed(s) => r matches EvaluationResult::ConstructionError(t)
                    && t == s,
                RoundOutcome::BuildFailed(s) => r matches EvaluationResult::CompileError(t)
                    && t == s,
                RoundOutcome::LinkFailed(s) => r matches EvaluationResult::LinkError(t) && t == s,
                RoundOutcome::Panicked => r is ExecutionFailure,
            },
    {
        match outcome {
            RoundOutcome::Evaluated(s) => {
                let merged = self.config.extended(&frag.crates);
                self.config = merged;
                let ghost old_frags = frags_view(self.frags@);
                let ghost fv = frag@;
                self.frags.push(frag);
                proof {
                    assert(frags_view(self.frags@) =~= old_frags.push(fv));
                }
                EvaluationResult::Success(s)
            },
            RoundOutcome::WriteFailed(s) => EvaluationResult::ConstructionError(s),
            RoundOutcome::BuildFailed(s) => EvaluationResult::CompileError(s),
            RoundOutcome::LinkFailed(s) => EvaluationResult::LinkError(s),
            RoundOutcome::Panicked => EvaluationResult::ExecutionFailure,
        }
    }
}

/// Replaying a session is deterministic: identical committed fragments,
/// dependency tables and submitted fragment generate byte-identical project
/// source and manifest.
pub proof fn lemma_replay_deterministic(a: SessionV, b: SessionV, f: FragmentV, g: FragmentV)
    requires
        a == b,
        f == g,
    ensures
        source_code(a.frags.push(f), a.data) == source_code(b.frags.push(g), b.data),
        manifest_code(merge_crates(a.deps, f.crates)) == manifest_code(merge_crates(b.deps, g.crates)),
{
}

/// Round atomicity: a round that fails at any stage leaves the session — its
/// history and its dependency table — exactly as it was, so any fragment
/// submitted afterwards is rendered exactly as if the failed round had never
/// been attempted.
pub proof fn lemma_round_atomicity(s: SessionV, f: FragmentV, o: RoundOutcome, g: FragmentV)
    requires
        !outcome_commits(o),
    ensures
        session_after(s, f, outcome_commits(o)) == s,
        source_code(session_after(s, f, outcome_commits(o)).frags.push(g),
            session_after(s, f, outcome_commits(o)).data)
            == source_code(s.frags.push(g), s.data),
        manifest_code(merge_crates(session_after(s, f, outcome_commits(o)).deps, g.crates))
            == manifest_code(merge_crates(s.deps, g.crates)),
{
}

} // verus!

