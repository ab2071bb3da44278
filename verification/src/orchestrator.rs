//! The build orchestrator model: the command the external build tool is
//! invoked with, the interpretation of what it reported, the remapping of
//! its diagnostics onto the original module's coordinates, and the
//! identity-keyed registry that serializes concurrent builds.
//!
//! Spawning the tool is the host's job; this module decides the arguments,
//! and turns the raw outcome into a `BuildResult`.

use vstd::prelude::*;

use crate::synth::SynthesizedCrate;

verus! {

/// How severe one compiler message is.
#[derive(Clone, Copy, PartialEq, Eq, Structural, Debug)]
pub enum Severity {
    Error,
    Warning,
}

/// One structured compiler message, located by line and column. Before
/// remapping the location is in the synthesized file's coordinates; after
/// remapping it is in the original module's.
#[derive(Debug, PartialEq, Eq)]
pub struct Diagnostic {
    pub severity: Severity,
    pub message: String,
    pub line: usize,
    pub column: usize,
}

/// What one build yielded.
#[derive(Debug, PartialEq, Eq)]
pub enum BuildResult {
    /// The produced artifact, a dynamically loadable library.
    Success { artifact_path: String },
    /// The tool ran and rejected the project; every diagnostic is kept, in
    /// the tool's own emission order, remapped to the original module.
    Failure { diagnostics: Vec<Diagnostic> },
    /// The tool could not even be started; no diagnostic exists.
    ToolUnavailable,
}

/// What the host reports back from one run of the external tool.
#[derive(Debug, PartialEq, Eq)]
pub enum RawBuildOutcome {
    /// The tool was missing or unstartable.
    FailedToStart,
    /// The tool succeeded and left this artifact.
    Produced { artifact_path: String },
    /// The tool rejected the project with these diagnostics, in emission
    /// order, located in the synthesized file.
    Rejected { diagnostics: Vec<Diagnostic> },
}

/// The lint subcommand, the build subcommand, and the fixed arguments the
/// tool is called with: the manifest of the synthesized project and a
/// structured diagnostic stream, with color on request.
pub open spec fn spec_build_args(root_path: Seq<char>, use_color: bool) -> Seq<Seq<char>> {
    let base = seq!["--manifest-path"@, root_path + "/Cargo.toml"@, "--message-format=json"@];
    if use_color {
        base.push("--color=always"@)
    } else {
        base
    }
}

/// The arguments of one tool invocation: the subcommand (`clippy` for the
/// lint pass, `build` for the build proper), then the fixed arguments.
pub fn build_args(synth: &SynthesizedCrate, lint_pass: bool, use_color: bool) -> (r: Vec<String>)
    ensures
        r.deep_view() == seq![if lint_pass {
            "clippy"@
        } else {
            "build"@
        }].add(spec_build_args(synth.root_path@, use_color)),
{
    let mut r: Vec<String> = Vec::new();
    if lint_pass {
        r.push(String::from_str("clippy"));
    } else {
        r.push(String::from_str("build"));
    }
    r.push(String::from_str("--manifest-path"));
    let mut manifest = synth.root_path.clone();
    manifest.append("/Cargo.toml");
    r.push(manifest);
    r.push(String::from_str("--message-format=json"));
    if use_color {
        r.push(String::from_str("--color=always"));
    }
    assert(r.deep_view() =~~= seq![if lint_pass {
        "clippy"@
    } else {
        "build"@
    }].add(spec_build_args(synth.root_path@, use_color)));
    r
}

/// The argument lists of the tool runs one build takes: the lint pass
/// first where the metadata asks for one, then the build proper.
pub fn tool_invocations(synth: &SynthesizedCrate, run_lint: bool, use_color: bool) -> (r: Vec<
    Vec<String>,
>)
    ensures
        r.deep_view() == if run_lint {
            seq![
                seq!["clippy"@].add(spec_build_args(synth.root_path@, use_color)),
                seq!["build"@].add(spec_build_args(synth.root_path@, use_color)),
            ]
        } else {
            seq![seq!["build"@].add(spec_build_args(synth.root_path@, use_color))]
        },
{
    let mut r: Vec<Vec<String>> = Vec::new();
    if run_lint {
        r.push(build_args(synth, true, use_color));
    }
    r.push(build_args(synth, false, use_color));
    assert(r.deep_view() =~~= if run_lint {
        seq![
            seq!["clippy"@].add(spec_build_args(synth.root_path@, use_color)),
            seq!["build"@].add(spec_build_args(synth.root_path@, use_color)),
        ]
    } else {
        seq![seq!["build"@].add(spec_build_args(synth.root_path@, use_color))]
    });
    r
}

/// The original-module line a synthesized-file line maps back to: lines
/// after the prelude correspond one to one, shifted by the prelude length;
/// anything else (a line inside the prelude, or past the module's end) is
/// anchored at the module's first line.
pub open spec fn remapped_line(line: int, prelude_lines: int, module_lines: int) -> int {
    if line > prelude_lines && line - prelude_lines <= module_lines {
        line - prelude_lines
    } else {
        1
    }
}

/// Remaps one batch of diagnostics from synthesized-file coordinates onto
/// the original module: one output diagnostic per input diagnostic, in the
/// same order, with severity and message kept, and every line inside the
/// original module text.
pub fn remap_diagnostics(
    raw: Vec<Diagnostic>,
    prelude_lines: usize,
    module_lines: usize,
) -> (r: Vec<Diagnostic>)
    ensures
        r@.len() == raw@.len(),
        forall|i: int|
            0 <= i < raw@.len() ==> {
                &&& (#[trigger] r@[i]).severity == raw@[i].severity
                &&& r@[i].message == raw@[i].message
                &&& r@[i].column == raw@[i].column
                &&& r@[i].line == remapped_line(
                    raw@[i].line as int,
                    prelude_lines as int,
                    module_lines as int,
                )
                &&& 1 <= r@[i].line <= if module_lines == 0 {
                    1int
                } else {
                    module_lines as int
                }
            },
{
    let mut r: Vec<Diagnostic> = Vec::new();
    let n = raw.len();
    let mut raw = raw;
    let ghost orig = raw@;
    let mut i: usize = 0;
    while i < n
        invariant
            0 <= i <= n,
            n == raw@.len(),
            raw@ == orig,
            r@.len() == i,
            forall|k: int|
                0 <= k < i ==> {
                    &&& (#[trigger] r@[k]).severity == orig[k].severity
                    &&& r@[k].message == orig[k].message
                    &&& r@[k].column == orig[k].column
                    &&& r@[k].line == remapped_line(
                        orig[k].line as int,
                        prelude_lines as int,
                        module_lines as int,
                    )
                    &&& 1 <= r@[k].line <= if module_lines == 0 {
                        1int
                    } else {
                        module_lines as int
                    }
                },
        decreases n - i,
    {
        let d = &raw[i];
        let line: usize = if d.line > prelude_lines && d.line - prelude_lines <= module_lines {
            d.line - prelude_lines
        } else {
            1
        };
        r.push(
            Diagnostic { severity: d.severity, message: d.message.clone(), line, column: d.column },
        );
        i = i + 1;
    }
    r
}

/// Interprets what the host reported from the build: an unstartable tool is
/// the distinct `ToolUnavailable` failure, a produced artifact is success,
/// and a rejection keeps one diagnostic per tool diagnostic, remapped onto
/// the original module text.
pub fn interpret_build_outcome(
    outcome: RawBuildOutcome,
    prelude_lines: usize,
    module_lines: usize,
) -> (r: BuildResult)
    ensures
        (outcome is FailedToStart) <==> (r is ToolUnavailable),
        (outcome is Produced) <==> (r is Success),
        outcome matches RawBuildOutcome::Produced { artifact_path } ==> r
            == (BuildResult::Success { artifact_path }),
        outcome matches RawBuildOutcome::Rejected { diagnostics } ==> {
            &&& r is Failure
            &&& (r->Failure_diagnostics)@.len() == diagnostics@.len()
            &&& forall|i: int|
                0 <= i < diagnostics@.len() ==> {
                    &&& (#[trigger] (r->Failure_diagnostics)@[i]).severity
                        == diagnostics@[i].severity
                    &&& (r->Failure_diagnostics)@[i].message == diagnostics@[i].message
                    &&& (r->Failure_diagnostics)@[i].column == diagnostics@[i].column
                    &&& (r->Failure_diagnostics)@[i].line == remapped_line(
                        diagnostics@[i].line as int,
                        prelude_lines as int,
                        module_lines as int,
                    )
                    &&& 1 <= (r->Failure_diagnostics)@[i].line <= if module_lines == 0 {
                        1int
                    } else {
                        module_lines as int
                    }
                }
        },
{
    match outcome {
        RawBuildOutcome::FailedToStart => BuildResult::ToolUnavailable,
        RawBuildOutcome::Produced { artifact_path } => BuildResult::Success { artifact_path },
        RawBuildOutcome::Rejected { diagnostics } => BuildResult::Failure {
            diagnostics: remap_diagnostics(diagnostics, prelude_lines, module_lines),
        },
    }
}

/// One registered pipeline run: the identity string it is keyed by, and its
/// artifact path once the build finished (`None` while it is in progress).
pub struct RegistryEntry {
    pub identity_key: String,
    pub artifact: Option<String>,
}

/// The identity-keyed registry that serializes the synthesize-and-build
/// sequence: one entry per identity, appended when a build starts, never
/// removed. The host holds a lock around each call.
pub struct BuildRegistry {
    pub entries: Vec<RegistryEntry>,
}

impl BuildRegistry {
    /// Whether an identity has already started (or finished) its build.
    pub open spec fn spec_contains(self, id: Seq<char>) -> bool {
        exists|i: int|
            0 <= i < self.entries@.len() && (#[trigger] self.entries@[i]).identity_key@ == id
    }

    /// At most one entry per identity.
    pub open spec fn wf(self) -> bool {
        forall|i: int, j: int|
            0 <= i < j < self.entries@.len() ==> (#[trigger] self.entries@[i]).identity_key@ != (
            #[trigger] self.entries@[j]).identity_key@
    }

    /// What `begin_build` guarantees: the build starts exactly when the
    /// identity was not registered, and afterwards it is registered.
    pub open spec fn begin_post(pre: BuildRegistry, post: BuildRegistry, id: Seq<char>, started: bool) -> bool {
        &&& started == !pre.spec_contains(id)
        &&& post.spec_contains(id)
        &&& !started ==> post.entries@ == pre.entries@
        &&& started ==> post.entries@.len() == pre.entries@.len() + 1 && post.entries@.drop_last()
            == pre.entries@ && post.entries@.last().identity_key@ == id
            && post.entries@.last().artifact is None
    }

    pub fn new() -> (r: BuildRegistry)
        ensures
            r.wf(),
            r.entries@.len() == 0,
    {
        BuildRegistry { entries: Vec::new() }
    }

    /// Registers an identity about to be synthesized and built. Returns
    /// whether this caller must run the pipeline: `false` means another
    /// expansion already synthesized and built (or is building) this
    /// identity, and its result is to be reused, not recomputed.
    pub fn begin_build(&mut self, id: &String) -> (started: bool)
        requires
            old(self).wf(),
        ensures
            final(self).wf(),
            BuildRegistry::begin_post(*old(self), *final(self), id@, started),
    {
        let n = self.entries.len();
        let mut i: usize = 0;
        while i < n
            invariant
                0 <= i <= n,
                n == self.entries@.len(),
                old(self).wf(),
                self == old(self),
                forall|k: int| 0 <= k < i ==> (#[trigger] self.entries@[k]).identity_key@ != id@,
            decreases n - i,
        {
            if self.entries[i].identity_key.eq(id) {
                return false;
            }
            i = i + 1;
        }
        assert(!old(self).spec_contains(id@));
        self.entries.push(RegistryEntry { identity_key: id.clone(), artifact: None });
        proof {
            let last = self.entries@.len() - 1;
            assert((self.entries@[last]).identity_key@ == id@);
            assert forall|p: int, q: int|
                0 <= p < q < self.entries@.len() implies (#[trigger] self.entries@[p]).identity_key@
                != (#[trigger] self.entries@[q]).identity_key@ by {
                if q == last {
                    assert(self.entries@[p] == old(self).entries@[p]);
                }
            }
            assert(self.entries@.drop_last() =~= old(self).entries@);
        }
        true
    }

    /// The artifact recorded for an identity, if its build has finished.
    pub open spec fn spec_artifact_of(self, id: Seq<char>) -> Option<Seq<char>> {
        if exists|i: int|
            0 <= i < self.entries@.len() && (#[trigger] self.entries@[i]).identity_key@ == id
                && self.entries@[i].artifact is Some {
            let w = choose|i: int|
                0 <= i < self.entries@.len() && (#[trigger] self.entries@[i]).identity_key@ == id
                    && self.entries@[i].artifact is Some;
            Some(self.entries@[w].artifact->0@)
        } else {
            None
        }
    }

    /// Hands a waiting expansion the artifact an earlier pipeline run left
    /// for this identity, if that run has finished.
    pub fn reuse_artifact(&self, id: &String) -> (r: Option<String>)
        requires
            self.wf(),
        ensures
            match (r, self.spec_artifact_of(id@)) {
                (Some(p), Some(pv)) => p@ == pv,
                (None, None) => true,
                _ => false,
            },
    {
        let n = self.entries.len();
        let mut i: usize = 0;
        while i < n
            invariant
                0 <= i <= n,
                n == self.entries@.len(),
                self.wf(),
                forall|k: int|
                    0 <= k < i ==> !((#[trigger] self.entries@[k]).identity_key@ == id@
                        && self.entries@[k].artifact is Some),
            decreases n - i,
        {
            if self.entries[i].identity_key.eq(id) {
                match &self.entries[i].artifact {
                    Some(p) => {
                        proof {
                            let w = choose|k: int|
                                0 <= k < self.entries@.len() && (
                                #[trigger] self.entries@[k]).identity_key@ == id@
                                    && self.entries@[k].artifact is Some;
                            if w < i as int {
                                assert((self.entries@[w]).identity_key@ != (self.entries@[
                                    i as int
                                ]).identity_key@);
                            }
                            if w > i as int {
                                assert((self.entries@[i as int]).identity_key@ != (self.entries@[
                                    w
                                ]).identity_key@);
                            }
                            assert(w == i as int);
                        }
                        return Some(p.clone());
                    },
                    None => {
                        proof {
                            assert forall|k: int|
                                0 <= k < self.entries@.len() implies !((
                            #[trigger] self.entries@[k]).identity_key@ == id@ && self.entries@[
                                k
                            ].artifact is Some) by {
                                if k != i as int && self.entries@[k].identity_key@ == id@ {
                                    if k < i as int {
                                        assert((self.entries@[k]).identity_key@ != (self.entries@[
                                            i as int
                                        ]).identity_key@);
                                    } else {
                                        assert((self.entries@[i as int]).identity_key@ != (
                                        self.entries@[k]).identity_key@);
                                    }
                                }
                            }
                        }
                        return None;
                    },
                }
            }
            i = i + 1;
        }
        None
    }

    /// Records the artifact of a finished build under its identity.
    pub fn finish_build(&mut self, id: &String, artifact_path: String)
        requires
            old(self).wf(),
        ensures
            final(self).wf(),
            final(self).entries@.len() == old(self).entries@.len(),
            forall|k: int|
                0 <= k < old(self).entries@.len() ==> (#[trigger] final(self).entries@[k]).identity_key@
                    == old(self).entries@[k].identity_key@,
            forall|k: int|
                0 <= k < old(self).entries@.len() && old(self).entries@[k].identity_key@ != id@
                    ==> (#[trigger] final(self).entries@[k]) == old(self).entries@[k],
            forall|k: int|
                0 <= k < old(self).entries@.len() && old(self).entries@[k].identity_key@ == id@
                    ==> (#[trigger] final(self).entries@[k]).artifact == Some(artifact_path),
    {
        let n = self.entries.len();
        let mut i: usize = 0;
        while i < n
            invariant
                0 <= i <= n,
                n == self.entries@.len(),
                old(self).wf(),
                self.entries@.len() == old(self).entries@.len(),
                forall|k: int|
                    i <= k < n ==> (#[trigger] self.entries@[k]) == old(self).entries@[k],
                forall|k: int|
                    0 <= k < i ==> (#[trigger] self.entries@[k]).identity_key@ == old(
                        self,
                    ).entries@[k].identity_key@,
                forall|k: int|
                    0 <= k < i && old(self).entries@[k].identity_key@ != id@ ==> (
                    #[trigger] self.entries@[k]) == old(self).entries@[k],
                forall|k: int|
                    0 <= k < i && old(self).entries@[k].identity_key@ == id@ ==> (
                    #[trigger] self.entries@[k]).artifact == Some(artifact_path),
            decreases n - i,
        {
            if self.entries[i].identity_key.eq(id) {
                let key = self.entries[i].identity_key.clone();
                self.entries.set(
                    i,
                    RegistryEntry { identity_key: key, artifact: Some(artifact_path.clone()) },
                );
                assert(self.entries@[i as int].artifact == Some(artifact_path));
            }
            i = i + 1;
        }
        proof {
            assert forall|p: int, q: int|
                0 <= p < q < self.entries@.len() implies (#[trigger] self.entries@[p]).identity_key@
                != (#[trigger] self.entries@[q]).identity_key@ by {
                assert(old(self).entries@[p].identity_key@ != old(self).entries@[q].identity_key@);
            }
        }
    }
}

/// Two expansions sharing one identity run the pipeline once: whatever the
/// first `begin_build` did, a second `begin_build` for the same identity
/// never starts a second synthesis and build, so the identity sees exactly
/// one filesystem write and one tool invocation.
pub proof fn lemma_one_build_per_identity(
    r0: BuildRegistry,
    r1: BuildRegistry,
    r2: BuildRegistry,
    id: Seq<char>,
    started1: bool,
    started2: bool,
)
    requires
        BuildRegistry::begin_post(r0, r1, id, started1),
        BuildRegistry::begin_post(r1, r2, id, started2),
    ensures
        !started2,
{
}

} // verus!
