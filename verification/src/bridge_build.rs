//! The build-time plan for the embedder bridge code generator: which
//! `cargo::` directives a build script emits, when the bridge WebIDL setting
//! is accepted, which Python interpreters are tried and in what order, and
//! the command that runs the generator.

use vstd::prelude::*;
use vstd::string::StrSliceExecFns;
use vstd::string::StringExecFns;
use crate::paths::{joined, join_path};

verus! {

/// Location of the generator script, relative to the helper's manifest directory.
pub open spec fn script_rel() -> Seq<char> {
    "../../script_bindings/codegen/embedder_bridge.py"@
}

/// Location of the generator's templates, relative to the helper's manifest directory.
pub open spec fn templates_rel() -> Seq<char> {
    "../../script_bindings/codegen/bridge/templates"@
}

/// The directive asking cargo to rerun the build when `path` changes.
pub open spec fn rerun_if_changed(path: Seq<char>) -> Seq<char> {
    "cargo::rerun-if-changed="@ + path
}

/// The directive asking cargo to rerun the build when the WebIDL setting changes.
pub open spec fn rerun_if_webidl_env_changed() -> Seq<char> {
    "cargo::rerun-if-env-changed=SERVO_BRIDGE_WEBIDL"@
}

/// The directives emitted before the WebIDL setting is examined.
pub open spec fn watch_directives(manifest_dir: Seq<char>) -> Seq<Seq<char>> {
    seq![
        rerun_if_changed(joined(manifest_dir, script_rel())),
        rerun_if_webidl_env_changed(),
        rerun_if_changed(joined(manifest_dir, templates_rel())),
    ]
}

/// The WebIDL setting is accepted when it is present and not empty.
pub open spec fn accepted_webidl(setting: Option<String>) -> Option<Seq<char>> {
    match setting {
        Some(v) => if v@.len() > 0 { Some(v@) } else { None },
        None => None,
    }
}

/// The setting is refused only when it is absent or empty: any non-empty
/// value, relative or absolute, is taken as the WebIDL file's path verbatim.
pub proof fn lemma_webidl_setting_taken_verbatim(setting: Option<String>)
    ensures
        forall|v: String| #![trigger accepted_webidl(Some(v))] v@.len() > 0 ==> accepted_webidl(Some(v)) == Some(v@),
        forall|v: String| #![trigger accepted_webidl(Some(v))] accepted_webidl(Some(v)) is None ==> v@.len() == 0,
        accepted_webidl(None) is None,
        accepted_webidl(setting) matches Some(w) ==> setting matches Some(v) && v@ == w && w.len() > 0,
{
}

/// The build watches, in this order, the generator script, the WebIDL
/// setting and the templates directory, both paths below the helper's
/// manifest directory.
pub proof fn lemma_watch_directives(manifest_dir: Seq<char>)
    ensures
        watch_directives(manifest_dir) == seq![
            "cargo::rerun-if-changed="@ + joined(manifest_dir, "../../script_bindings/codegen/embedder_bridge.py"@),
            "cargo::rerun-if-env-changed=SERVO_BRIDGE_WEBIDL"@,
            "cargo::rerun-if-changed="@ + joined(manifest_dir, "../../script_bindings/codegen/bridge/templates"@),
        ],
{
}

/// The candidates are, in order, `uv run --frozen python`, `python3` and
/// `python`; only the first has leading arguments.
pub proof fn lemma_python_candidates_in_order()
    ensures
        python_candidate(0) == ("uv"@, seq!["run"@, "--frozen"@, "python"@]),
        python_candidate(1) == ("python3"@, Seq::<Seq<char>>::empty()),
        python_candidate(2) == ("python"@, Seq::<Seq<char>>::empty()),
        num_python_candidates() == 3,
{
}

/// Why the code generator cannot run.
#[derive(PartialEq, Eq, Structural)]
pub enum BridgeBuildError {
    /// The bridge WebIDL setting is absent or empty.
    WebidlNotSet,
}

/// What runs the code generator once the WebIDL setting is accepted.
pub struct BridgeCodegen {
    /// The directive to emit for the WebIDL file itself.
    pub webidl_directive: String,
    /// The arguments handed to the Python interpreter: the script and the output directory.
    pub script_args: Vec<String>,
}

/// The whole plan of one build-script run.
pub struct RunPlan {
    /// The directives emitted first, whatever the WebIDL setting.
    pub directives: Vec<String>,
    /// The generator run, or why there is none.
    pub codegen: Result<BridgeCodegen, BridgeBuildError>,
}

/// The generator script's path.
pub fn bridge_script(manifest_dir: &str) -> (p: String)
    ensures
        p@ == joined(manifest_dir@, script_rel()),
{
    join_path(manifest_dir, "../../script_bindings/codegen/embedder_bridge.py")
}

/// The templates directory's path.
pub fn bridge_templates(manifest_dir: &str) -> (p: String)
    ensures
        p@ == joined(manifest_dir@, templates_rel()),
{
    join_path(manifest_dir, "../../script_bindings/codegen/bridge/templates")
}

fn changed_directive(path: &str) -> (d: String)
    ensures
        d@ == rerun_if_changed(path@),
{
    let mut d = String::from_str("cargo::rerun-if-changed=");
    d.append(path);
    d
}

/// The directives that watch the script, the WebIDL setting and the templates.
pub fn watch_directives_for(manifest_dir: &str) -> (v: Vec<String>)
    ensures
        v.deep_view() == watch_directives(manifest_dir@),
{
    let script = bridge_script(manifest_dir);
    let templates = bridge_templates(manifest_dir);
    let mut v: Vec<String> = Vec::new();
    v.push(changed_directive(script.as_str()));
    v.push(String::from_str("cargo::rerun-if-env-changed=SERVO_BRIDGE_WEBIDL"));
    v.push(changed_directive(templates.as_str()));
    assert(v.deep_view() =~= watch_directives(manifest_dir@));
    v
}

/// The WebIDL file named by the setting, when the setting is present and not empty.
pub fn bridge_webidl(setting: Option<String>) -> (w: Option<String>)
    ensures
        match w {
            Some(s) => accepted_webidl(setting) == Some(s@),
            None => accepted_webidl(setting) is None,
        },
        w is Some <==> (setting matches Some(v) && v@.len() > 0),
        w matches Some(s) ==> setting == Some(s),
{
    match setting {
        Some(v) => {
            if v.as_str().unicode_len() > 0 {
                Some(v)
            } else {
                None
            }
        },
        None => None,
    }
}

/// The plan of a build-script run, given the helper's manifest directory,
/// the WebIDL setting (`None` when unset or unreadable) and the output
/// directory.
pub fn run_plan(manifest_dir: &str, setting: Option<String>, out_dir: &str) -> (plan: RunPlan)
    ensures
        plan.directives.deep_view() == watch_directives(manifest_dir@),
        match plan.codegen {
            Ok(c) => {
                &&& accepted_webidl(setting) matches Some(w)
                &&& c.webidl_directive@ == rerun_if_changed(w)
                &&& c.script_args.deep_view() == seq![joined(manifest_dir@, script_rel()), out_dir@]
            },
            Err(e) => {
                &&& e == BridgeBuildError::WebidlNotSet
                &&& accepted_webidl(setting) is None
            },
        },
{
    let directives = watch_directives_for(manifest_dir);
    let codegen = match bridge_webidl(setting) {
        Some(w) => {
            let webidl_directive = changed_directive(w.as_str());
            let mut script_args: Vec<String> = Vec::new();
            script_args.push(bridge_script(manifest_dir));
            script_args.push(String::from_str(out_dir));
            assert(script_args.deep_view() =~= seq![joined(manifest_dir@, script_rel()), out_dir@]);
            Ok(BridgeCodegen { webidl_directive, script_args })
        },
        None => Err(BridgeBuildError::WebidlNotSet),
    };
    RunPlan { directives, codegen }
}

/// A Python interpreter invocation: a program and its leading arguments.
pub struct PythonCommand {
    pub program: String,
    pub args: Vec<String>,
}

/// How many interpreters are tried.
pub open spec fn num_python_candidates() -> usize {
    3
}

/// The interpreters tried, in order: `uv run --frozen python`, `python3`, `python`.
pub open spec fn python_candidate(i: int) -> (Seq<char>, Seq<Seq<char>>) {
    if i == 0 {
        ("uv"@, seq!["run"@, "--frozen"@, "python"@])
    } else if i == 1 {
        ("python3"@, Seq::empty())
    } else {
        ("python"@, Seq::empty())
    }
}

/// The interpreters tried, in the order they are tried.
pub fn python_candidates() -> (c: Vec<PythonCommand>)
    ensures
        c.len() == num_python_candidates(),
        forall|i: int|
            0 <= i < c.len() ==> (#[trigger] c[i]).program@ == python_candidate(i).0
                && c[i].args.deep_view() == python_candidate(i).1,
{
    let mut uv_args: Vec<String> = Vec::new();
    uv_args.push(String::from_str("run"));
    uv_args.push(String::from_str("--frozen"));
    uv_args.push(String::from_str("python"));
    let mut c: Vec<PythonCommand> = Vec::new();
    c.push(PythonCommand { program: String::from_str("uv"), args: uv_args });
    c.push(PythonCommand { program: String::from_str("python3"), args: Vec::new() });
    c.push(PythonCommand { program: String::from_str("python"), args: Vec::new() });
    proof {
        assert(c[0].args.deep_view() =~= python_candidate(0).1);
        assert(c[1].args.deep_view() =~= python_candidate(1).1);
        assert(c[2].args.deep_view() =~= python_candidate(2).1);
    }
    c
}

/// The arguments that ask `candidate` for its version, which tells whether it works.
pub fn version_probe_args(candidate: &PythonCommand) -> (a: Vec<String>)
    ensures
        a.deep_view() == candidate.args.deep_view().push("--version"@),
{
    let mut a: Vec<String> = Vec::new();
    let n = candidate.args.len();
    let mut i: usize = 0;
    while i < n
        invariant
            i <= n,
            n == candidate.args.len(),
            a.len() == i,
            a.deep_view() =~= candidate.args.deep_view().take(i as int),
        decreases n - i,
    {
        let arg = candidate.args[i].clone();
        a.push(arg);
        assert(a.deep_view() =~= candidate.args.deep_view().take(i + 1)) by {
            assert(a@[i as int]@ == candidate.args@[i as int]@);
        }
        i = i + 1;
    }
    assert(candidate.args.deep_view().take(n as int) =~= candidate.args.deep_view());
    a.push(String::from_str("--version"));
    assert(a.deep_view() =~= candidate.args.deep_view().push("--version"@));
    a
}

/// Where the search for a working interpreter stands.
#[derive(PartialEq, Eq, Structural, Clone, Copy)]
pub enum PythonSearch {
    /// Probe candidate `i` next.
    Probe(usize),
    /// Candidate `i` works: use it.
    Use(usize),
    /// No candidate works.
    Exhausted,
}

/// The search after candidate `i` answered its probe with `works`.
pub open spec fn search_after(i: usize, works: bool) -> PythonSearch {
    if works {
        PythonSearch::Use(i)
    } else if i + 1 < num_python_candidates() {
        PythonSearch::Probe((i + 1) as usize)
    } else {
        PythonSearch::Exhausted
    }
}

/// The search starts with the first candidate.
pub fn python_search_start() -> (s: PythonSearch)
    ensures
        s == PythonSearch::Probe(0),
{
    PythonSearch::Probe(0)
}

/// The next state of the search once candidate `i` answered its probe.
pub fn python_search_step(i: usize, works: bool) -> (s: PythonSearch)
    requires
        i < num_python_candidates(),
    ensures
        s == search_after(i, works),
{
    if works {
        PythonSearch::Use(i)
    } else if i + 1 < 3 {
        PythonSearch::Probe(i + 1)
    } else {
        PythonSearch::Exhausted
    }
}

/// Where the search ends when it is at candidate `i` and candidate `j`
/// would answer its probe with `works[j]`.
pub open spec fn search_outcome(works: Seq<bool>, i: usize) -> PythonSearch
    decreases num_python_candidates() - i,
{
    if i >= num_python_candidates() {
        PythonSearch::Exhausted
    } else {
        match search_after(i, works[i as int]) {
            PythonSearch::Probe(j) => if j > i { search_outcome(works, j) } else { PythonSearch::Exhausted },
            other => other,
        }
    }
}

/// The search settles on the first candidate whose probe succeeds, and is
/// exhausted exactly when no candidate's probe succeeds.
pub proof fn lemma_search_picks_first_working(works: Seq<bool>, i: usize)
    requires
        works.len() == num_python_candidates(),
        i < num_python_candidates(),
    ensures
        search_outcome(works, i) != PythonSearch::Probe(0),
        forall|k: usize|
            search_outcome(works, i) == PythonSearch::Use(k) <==> (i <= k
                < num_python_candidates() && works[k as int] && forall|j: int|
                i <= j < k ==> !works[j]),
        search_outcome(works, i) == PythonSearch::Exhausted <==> forall|j: int|
            i <= j < num_python_candidates() ==> !works[j],
    decreases num_python_candidates() - i,
{
    if !works[i as int] && i + 1 < 3 {
        lemma_search_picks_first_working(works, (i + 1) as usize);
        assert forall|k: usize|
            search_outcome(works, i) == PythonSearch::Use(k) <==> (i <= k
                < num_python_candidates() && works[k as int] && forall|j: int|
                i <= j < k ==> !works[j]) by {
            if i <= k < 3 && works[k as int] && (forall|j: int| i <= j < k ==> !works[j]) {
                assert(k != i);
            }
        }
    }
}

} // verus!
