//! The benchmark-matrix orchestrator: the selection types the command line
//! parses into, the run-matrix builder that expands them into run descriptors,
//! the generator of the shell script that executes the matrix, and the model
//! of the teardown that restores the dependency manifest and removes the
//! temporary artifacts.
#![allow(unused_imports)]
use crate::strings::{replace_slashes, sanitized};
use crate::version_file_spec;
use vstd::prelude::*;

verus! {

/// Directory that holds every per-run result file and the rendered reports.
pub open spec fn output_dir_spec() -> Seq<char> {
    "target/burn_benches"@
}

/// Path of the generated shell script.
pub open spec fn sh_filename_spec() -> Seq<char> {
    "target/tmp/run_burn.sh"@
}

/// Path of the rendered markdown report.
pub open spec fn md_filename_spec() -> Seq<char> {
    "target/burn_benches/BENCHMARKS.md"@
}

/// Path of the optional HTML conversion of the report.
pub open spec fn html_filename_spec() -> Seq<char> {
    "target/burn_benches/benchmarks.html"@
}

/// Path of the metadata document the table renderer reads.
pub open spec fn tables_filename_spec() -> Seq<char> {
    "tables.toml"@
}

/// Returns the path of the generated shell script.
pub fn sh_filename() -> (r: String)
    ensures
        r@ == sh_filename_spec(),
{
    String::from_str("target/tmp/run_burn.sh")
}

/// Returns the directory that holds the per-run result files.
pub fn output_dir() -> (r: String)
    ensures
        r@ == output_dir_spec(),
{
    String::from_str("target/burn_benches")
}

/// Returns the path of the metadata document the table renderer reads.
pub fn tables_filename() -> (r: String)
    ensures
        r@ == tables_filename_spec(),
{
    String::from_str("tables.toml")
}

/// A compute execution target, selected via a build feature flag.
#[derive(Clone, Copy, PartialEq, Eq, Structural, Debug)]
pub enum Backend {
    Ndarray,
    NdarrayNetlib,
    NdarrayOpenblas,
    NdarrayNoStd,
    TchCpu,
    TchGpu,
    Wgpu,
}

/// Which benchmark suites a run is restricted to.
#[derive(Clone, Copy, PartialEq, Eq, Structural, Debug)]
pub enum Bench {
    Transformer,
    MLP,
    Conv2d,
    All,
}

/// The build feature flag that selects `b` when the runner is invoked.
pub open spec fn backend_feature_spec(b: Backend) -> Seq<char> {
    match b {
        Backend::Ndarray => "ndarray"@,
        Backend::NdarrayNetlib => "ndarray-blas-netlib"@,
        Backend::NdarrayOpenblas => "ndarray-blas-openblas"@,
        Backend::NdarrayNoStd => "ndarray-no-std"@,
        Backend::TchCpu => "tch-cpu"@,
        Backend::TchGpu => "tch-gpu"@,
        Backend::Wgpu => "wgpu"@,
    }
}

/// Returns the build feature flag that selects `b`.
pub fn backend_feature(b: &Backend) -> (r: String)
    ensures
        r@ == backend_feature_spec(*b),
{
    match b {
        Backend::Ndarray => String::from_str("ndarray"),
        Backend::NdarrayNetlib => String::from_str("ndarray-blas-netlib"),
        Backend::NdarrayOpenblas => String::from_str("ndarray-blas-openblas"),
        Backend::NdarrayNoStd => String::from_str("ndarray-no-std"),
        Backend::TchCpu => String::from_str("tch-cpu"),
        Backend::TchGpu => String::from_str("tch-gpu"),
        Backend::Wgpu => String::from_str("wgpu"),
    }
}

/// The benchmark-name restriction handed to the runner: empty when every
/// suite runs, `--bench <name>` otherwise.
pub open spec fn bench_arg_spec(b: Bench) -> Seq<char> {
    match b {
        Bench::Transformer => "--bench transformer"@,
        Bench::MLP => "--bench mlp"@,
        Bench::Conv2d => "--bench conv2d"@,
        Bench::All => Seq::<char>::empty(),
    }
}

/// Returns the benchmark-name restriction handed to the runner.
pub fn bench_arg(b: &Bench) -> (r: String)
    ensures
        r@ == bench_arg_spec(*b),
{
    match b {
        Bench::Transformer => String::from_str("--bench transformer"),
        Bench::MLP => String::from_str("--bench mlp"),
        Bench::Conv2d => String::from_str("--bench conv2d"),
        Bench::All => String::new(),
    }
}

/// Everything one run descriptor carries: the selector kind (`tag`, `rev`,
/// `branch` or `path`), the user-supplied selector value, the backend's build
/// feature flag, and the benchmark-name restriction.
#[derive(Clone)]
pub struct BenchSettings {
    pub identifier: String,
    pub value: String,
    pub backend_flag: String,
    pub bench: String,
}

/// The abstract value of a `BenchSettings`.
#[verifier::ext_equal]
pub struct BenchSettingsView {
    pub identifier: Seq<char>,
    pub value: Seq<char>,
    pub backend_flag: Seq<char>,
    pub bench: Seq<char>,
}

impl View for BenchSettings {
    type V = BenchSettingsView;

    open spec fn view(&self) -> BenchSettingsView {
        BenchSettingsView {
            identifier: self.identifier@,
            value: self.value@,
            backend_flag: self.backend_flag@,
            bench: self.bench@,
        }
    }
}

/// One run descriptor: a git-based selector (tag, commit or branch) or a
/// local-path selector, with its settings.
#[derive(Clone)]
pub enum BenchParam {
    Path(BenchSettings),
    Git(BenchSettings),
}

/// The abstract value of a `BenchParam`.
#[verifier::ext_equal]
pub enum BenchParamView {
    Path(BenchSettingsView),
    Git(BenchSettingsView),
}

impl View for BenchParam {
    type V = BenchParamView;

    open spec fn view(&self) -> BenchParamView {
        match self {
            BenchParam::Path(s) => BenchParamView::Path(s@),
            BenchParam::Git(s) => BenchParamView::Git(s@),
        }
    }
}

/// The settings carried by a descriptor, whatever its selector kind.
pub open spec fn param_settings(p: BenchParamView) -> BenchSettingsView {
    match p {
        BenchParamView::Path(s) => s,
        BenchParamView::Git(s) => s,
    }
}

/// The views of a sequence of strings.
pub open spec fn string_views(v: Seq<String>) -> Seq<Seq<char>> {
    v.map_values(|s: String| s@)
}

/// The views of a sequence of descriptors.
pub open spec fn param_views(v: Seq<BenchParam>) -> Seq<BenchParamView> {
    v.map_values(|p: BenchParam| p@)
}

/// The output filename derived from a descriptor's settings: the output
/// directory, then backend flag, selector kind and sanitised selector value
/// joined with `-`, with extension `.json`.
pub open spec fn bench_filename_spec(s: BenchSettingsView) -> Seq<char> {
    output_dir_spec() + "/"@ + s.backend_flag + "-"@ + s.identifier + "-"@ + sanitized(s.value)
        + ".json"@
}

impl BenchSettings {
    /// Returns the output filename this descriptor's structured results are
    /// redirected to.
    pub fn bench_filename(&self) -> (r: String)
        ensures
            r@ == bench_filename_spec(self@),
    {
        let mut r = output_dir();
        r.append("/");
        r.append(self.backend_flag.as_str());
        r.append("-");
        r.append(self.identifier.as_str());
        r.append("-");
        let v = replace_slashes(self.value.as_str());
        r.append(v.as_str());
        r.append(".json");
        r
    }
}

impl BenchParam {
    /// Returns the settings carried by this descriptor.
    pub fn settings(&self) -> (r: &BenchSettings)
        ensures
            r@ == param_settings(self@),
    {
        match self {
            BenchParam::Path(val) => val,
            BenchParam::Git(val) => val,
        }
    }
}

/// The parsed selection: the backends to exercise, the version selectors of
/// each kind in user-given order, the suite restriction, and the repository
/// that git-based selectors refer to.
pub struct BenchesArgs {
    pub backends: Vec<Backend>,
    pub tags: Vec<String>,
    pub commits: Vec<String>,
    pub branches: Vec<String>,
    pub paths: Vec<String>,
    pub bench: Bench,
    pub repository: String,
}

/// A settings view assembled from its four parts.
pub open spec fn mk_settings(
    identifier: Seq<char>,
    value: Seq<char>,
    flag: Seq<char>,
    bench: Seq<char>,
) -> BenchSettingsView {
    BenchSettingsView { identifier, value, backend_flag: flag, bench }
}

/// One git-based descriptor.
pub open spec fn git_run(
    identifier: Seq<char>,
    value: Seq<char>,
    flag: Seq<char>,
    bench: Seq<char>,
) -> BenchParamView {
    BenchParamView::Git(mk_settings(identifier, value, flag, bench))
}

/// One path-based descriptor.
pub open spec fn path_run(value: Seq<char>, flag: Seq<char>, bench: Seq<char>) -> BenchParamView {
    BenchParamView::Path(mk_settings("path"@, value, flag, bench))
}

/// The git-based descriptors of one selector kind, in user-given order.
pub open spec fn git_runs(
    identifier: Seq<char>,
    values: Seq<Seq<char>>,
    flag: Seq<char>,
    bench: Seq<char>,
) -> Seq<BenchParamView> {
    values.map_values(|v: Seq<char>| git_run(identifier, v, flag, bench))
}

/// The path-based descriptors, in user-given order.
pub open spec fn path_runs(
    values: Seq<Seq<char>>,
    flag: Seq<char>,
    bench: Seq<char>,
) -> Seq<BenchParamView> {
    values.map_values(|v: Seq<char>| path_run(v, flag, bench))
}

/// Every descriptor of one backend: its tags, then its commits, then its
/// branches, then its paths, each in user-given order.
pub open spec fn backend_runs(
    b: Backend,
    tags: Seq<Seq<char>>,
    commits: Seq<Seq<char>>,
    branches: Seq<Seq<char>>,
    paths: Seq<Seq<char>>,
    bench: Seq<char>,
) -> Seq<BenchParamView> {
    git_runs("tag"@, tags, backend_feature_spec(b), bench) + git_runs(
        "rev"@,
        commits,
        backend_feature_spec(b),
        bench,
    ) + git_runs("branch"@, branches, backend_feature_spec(b), bench) + path_runs(
        paths,
        backend_feature_spec(b),
        bench,
    )
}

/// The full run matrix: every backend in user-given order, each combined with
/// every version selector the user supplied.
pub open spec fn run_matrix(
    backends: Seq<Backend>,
    tags: Seq<Seq<char>>,
    commits: Seq<Seq<char>>,
    branches: Seq<Seq<char>>,
    paths: Seq<Seq<char>>,
    bench: Seq<char>,
) -> Seq<BenchParamView>
    decreases backends.len(),
{
    if backends.len() == 0 {
        Seq::<BenchParamView>::empty()
    } else {
        run_matrix(backends.drop_last(), tags, commits, branches, paths, bench) + backend_runs(
            backends.last(),
            tags,
            commits,
            branches,
            paths,
            bench,
        )
    }
}

/// The run matrix of a parsed selection.
pub open spec fn args_matrix(a: BenchesArgs) -> Seq<BenchParamView> {
    run_matrix(
        a.backends@,
        string_views(a.tags@),
        string_views(a.commits@),
        string_views(a.branches@),
        string_views(a.paths@),
        bench_arg_spec(a.bench),
    )
}

/// The run matrix holds exactly one descriptor per combination of a backend
/// with a version selector: its length is the number of backends times the
/// total number of selectors supplied, whatever their kinds.
pub proof fn lemma_run_matrix_len(
    backends: Seq<Backend>,
    tags: Seq<Seq<char>>,
    commits: Seq<Seq<char>>,
    branches: Seq<Seq<char>>,
    paths: Seq<Seq<char>>,
    bench: Seq<char>,
)
    ensures
        run_matrix(backends, tags, commits, branches, paths, bench).len() == backends.len() * (
        tags.len() + commits.len() + branches.len() + paths.len()),
    decreases backends.len(),
{
    let total = tags.len() + commits.len() + branches.len() + paths.len();
    if backends.len() == 0 {
    } else {
        lemma_run_matrix_len(backends.drop_last(), tags, commits, branches, paths, bench);
        assert((backends.len() - 1) * total + total == backends.len() * total) by (nonlinear_arith);
    }
}

impl BenchesArgs {
    /// Expands the selection into the complete run matrix, tags then commits
    /// then branches then paths within each backend, in user-given order.
    pub fn into_params(self) -> (r: Vec<BenchParam>)
        ensures
            param_views(r@) == args_matrix(self),
    {
        let bench = bench_arg(&self.bench);
        let ghost tv = string_views(self.tags@);
        let ghost cv = string_views(self.commits@);
        let ghost brv = string_views(self.branches@);
        let ghost pv = string_views(self.paths@);
        let mut runs: Vec<BenchParam> = Vec::new();
        let mut i: usize = 0;
        while i < self.backends.len()
            invariant
                i <= self.backends.len(),
                bench@ == bench_arg_spec(self.bench),
                tv == string_views(self.tags@),
                cv == string_views(self.commits@),
                brv == string_views(self.branches@),
                pv == string_views(self.paths@),
                param_views(runs@) == run_matrix(
                    self.backends@.take(i as int),
                    tv,
                    cv,
                    brv,
                    pv,
                    bench@,
                ),
            decreases self.backends.len() - i,
        {
            let b = self.backends[i];
            let flag = backend_feature(&b);
            let ghost fv = backend_feature_spec(b);
            let ghost base = run_matrix(self.backends@.take(i as int), tv, cv, brv, pv, bench@);

            let mut j: usize = 0;
            while j < self.tags.len()
                invariant
                    j <= self.tags.len(),
                    tv == string_views(self.tags@),
                    flag@ == fv,
                    bench@ == bench_arg_spec(self.bench),
                    param_views(runs@) == base + git_runs("tag"@, tv.take(j as int), fv, bench@),
                decreases self.tags.len() - j,
            {
                runs.push(
                    BenchParam::Git(
                        BenchSettings {
                            identifier: String::from_str("tag"),
                            value: self.tags[j].clone(),
                            backend_flag: flag.clone(),
                            bench: bench.clone(),
                        },
                    ),
                );
                proof {
                    assert(tv[j as int] == self.tags@[j as int]@);
                    assert(param_views(runs@) =~= (base + git_runs(
                        "tag"@,
                        tv.take(j as int),
                        fv,
                        bench@,
                    )).push(git_run("tag"@, tv[j as int], fv, bench@)));
                    assert(git_runs("tag"@, tv.take(j as int + 1), fv, bench@) =~= git_runs(
                        "tag"@,
                        tv.take(j as int),
                        fv,
                        bench@,
                    ).push(git_run("tag"@, tv[j as int], fv, bench@)));
                    assert(param_views(runs@) =~= base + git_runs(
                        "tag"@,
                        tv.take(j as int + 1),
                        fv,
                        bench@,
                    ));
                }
                j = j + 1;
            }
            proof {
                assert(tv.take(tv.len() as int) =~= tv);
            }
            let ghost base_t = base + git_runs("tag"@, tv, fv, bench@);

            let mut j: usize = 0;
            while j < self.commits.len()
                invariant
                    j <= self.commits.len(),
                    cv == string_views(self.commits@),
                    flag@ == fv,
                    bench@ == bench_arg_spec(self.bench),
                    param_views(runs@) == base_t + git_runs("rev"@, cv.take(j as int), fv, bench@),
                decreases self.commits.len() - j,
            {
                runs.push(
                    BenchParam::Git(
                        BenchSettings {
                            identifier: String::from_str("rev"),
                            value: self.commits[j].clone(),
                            backend_flag: flag.clone(),
                            bench: bench.clone(),
                        },
                    ),
                );
                proof {
                    assert(cv[j as int] == self.commits@[j as int]@);
                    assert(param_views(runs@) =~= (base_t + git_runs(
                        "rev"@,
                        cv.take(j as int),
                        fv,
                        bench@,
                    )).push(git_run("rev"@, cv[j as int], fv, bench@)));
                    assert(git_runs("rev"@, cv.take(j as int + 1), fv, bench@) =~= git_runs(
                        "rev"@,
                        cv.take(j as int),
                        fv,
                        bench@,
                    ).push(git_run("rev"@, cv[j as int], fv, bench@)));
                    assert(param_views(runs@) =~= base_t + git_runs(
                        "rev"@,
                        cv.take(j as int + 1),
                        fv,
                        bench@,
                    ));
                }
                j = j + 1;
            }
            proof {
                assert(cv.take(cv.len() as int) =~= cv);
            }
            let ghost base_c = base_t + git_runs("rev"@, cv, fv, bench@);

            let mut j: usize = 0;
            while j < self.branches.len()
                invariant
                    j <= self.branches.len(),
                    brv == string_views(self.branches@),
                    flag@ == fv,
                    bench@ == bench_arg_spec(self.bench),
                    param_views(runs@) == base_c + git_runs(
                        "branch"@,
                        brv.take(j as int),
                        fv,
                        bench@,
                    ),
                decreases self.branches.len() - j,
            {
                runs.push(
                    BenchParam::Git(
                        BenchSettings {
                            identifier: String::from_str("branch"),
                            value: self.branches[j].clone(),
                            backend_flag: flag.clone(),
                            bench: bench.clone(),
                        },
                    ),
                );
                proof {
                    assert(brv[j as int] == self.branches@[j as int]@);
                    assert(param_views(runs@) =~= (base_c + git_runs(
                        "branch"@,
                        brv.take(j as int),
                        fv,
                        bench@,
                    )).push(git_run("branch"@, brv[j as int], fv, bench@)));
                    assert(git_runs("branch"@, brv.take(j as int + 1), fv, bench@) =~= git_runs(
                        "branch"@,
                        brv.take(j as int),
                        fv,
                        bench@,
                    ).push(git_run("branch"@, brv[j as int], fv, bench@)));
                    assert(param_views(runs@) =~= base_c + git_runs(
                        "branch"@,
                        brv.take(j as int + 1),
                        fv,
                        bench@,
                    ));
                }
                j = j + 1;
            }
            proof {
                assert(brv.take(brv.len() as int) =~= brv);
            }
            let ghost base_b = base_c + git_runs("branch"@, brv, fv, bench@);

            let mut j: usize = 0;
            while j < self.paths.len()
                invariant
                    j <= self.paths.len(),
                    pv == string_views(self.paths@),
                    flag@ == fv,
                    bench@ == bench_arg_spec(self.bench),
                    param_views(runs@) == base_b + path_runs(pv.take(j as int), fv, bench@),
                decreases self.paths.len() - j,
            {
                runs.push(
                    BenchParam::Path(
                        BenchSettings {
                            identifier: String::from_str("path"),
                            value: self.paths[j].clone(),
                            backend_flag: flag.clone(),
                            bench: bench.clone(),
                        },
                    ),
                );
                proof {
                    assert(pv[j as int] == self.paths@[j as int]@);
                    assert(param_views(runs@) =~= (base_b + path_runs(
                        pv.take(j as int),
                        fv,
                        bench@,
                    )).push(path_run(pv[j as int], fv, bench@)));
                    assert(path_runs(pv.take(j as int + 1), fv, bench@) =~= path_runs(
                        pv.take(j as int),
                        fv,
                        bench@,
                    ).push(path_run(pv[j as int], fv, bench@)));
                    assert(param_views(runs@) =~= base_b + path_runs(
                        pv.take(j as int + 1),
                        fv,
                        bench@,
                    ));
                }
                j = j + 1;
            }
            proof {
                assert(pv.take(pv.len() as int) =~= pv);
                let taken = self.backends@.take(i as int + 1);
                assert(taken.drop_last() =~= self.backends@.take(i as int));
                assert(taken.last() == self.backends@[i as int]);
                assert(param_views(runs@) =~= run_matrix(taken, tv, cv, brv, pv, bench@));
            }
            i = i + 1;
        }
        proof {
            assert(self.backends@.take(self.backends@.len() as int) =~= self.backends@);
        }
        runs
    }
}

/// The command block of a git-based descriptor: record the sanitised selector
/// value in the version marker, repoint the framework crates at the requested
/// git ref, then run the benchmarks under the backend's feature flag,
/// redirecting structured output to the descriptor's own file.
pub open spec fn git_block_spec(s: BenchSettingsView, repo: Seq<char>) -> Seq<char> {
    "echo "@ + sanitized(s.value) + " > "@ + version_file_spec() + "\n"@ + "cargo add burn --git "@
        + repo + " --"@ + s.identifier + " "@ + s.value + "\n"@ + "cargo add burn-wgpu --git "@
        + repo + " --"@ + s.identifier + " "@ + s.value + "\n"@ + "cargo add burn-tch --git "@
        + repo + " --"@ + s.identifier + " "@ + s.value + "\n"@ + "cargo add burn-ndarray --git "@
        + repo + " --"@ + s.identifier + " "@ + s.value + "\n"@ + "cargo add burn-autodiff --git "@
        + repo + " --"@ + s.identifier + " "@ + s.value + "\n"@
        + "cargo criterion --no-default-features --features "@ + s.backend_flag + " "@ + s.bench
        + " --message-format=json > "@ + bench_filename_spec(s) + "\n"@
}

/// The command block of a path-based descriptor: as the git block, but the
/// framework crates are repointed at subdirectories of the local checkout.
pub open spec fn path_block_spec(s: BenchSettingsView) -> Seq<char> {
    "echo "@ + sanitized(s.value) + " > "@ + version_file_spec() + "\n"@
        + "cargo add burn --path "@ + s.value + "/burn \n"@ + "cargo add burn-wgpu --path "@
        + s.value + "/burn-wgpu\n"@ + "cargo add burn-tch --path "@ + s.value + "/burn-tch\n"@
        + "cargo add burn-ndarray --path "@ + s.value + "/burn-ndarray\n"@
        + "cargo add burn-autodiff --path "@ + s.value + "/burn-autodiff\n"@
        + "cargo criterion --no-default-features --features "@ + s.backend_flag + " "@ + s.bench
        + " --message-format=json > "@ + bench_filename_spec(s) + "\n"@
}

/// The command block of one descriptor.
pub open spec fn block_spec(p: BenchParamView, repo: Seq<char>) -> Seq<char> {
    match p {
        BenchParamView::Path(s) => path_block_spec(s),
        BenchParamView::Git(s) => git_block_spec(s, repo),
    }
}

/// The command blocks of every descriptor, in matrix order.
pub open spec fn blocks_spec(runs: Seq<BenchParamView>, repo: Seq<char>) -> Seq<char>
    decreases runs.len(),
{
    if runs.len() == 0 {
        Seq::<char>::empty()
    } else {
        blocks_spec(runs.drop_last(), repo) + block_spec(runs.last(), repo)
    }
}

/// Every descriptor's output filename, each followed by a space.
pub open spec fn cat_list_spec(runs: Seq<BenchParamView>) -> Seq<char>
    decreases runs.len(),
{
    if runs.len() == 0 {
        Seq::<char>::empty()
    } else {
        cat_list_spec(runs.drop_last()) + bench_filename_spec(param_settings(runs.last())) + " "@
    }
}

/// The aggregation command: concatenate every result file into the external
/// table renderer, writing the markdown report.
pub open spec fn aggregate_spec(runs: Seq<BenchParamView>) -> Seq<char> {
    "cat "@ + cat_list_spec(runs) + "| criterion-table >  "@ + md_filename_spec()
}

/// The conversion command appended only when a markdown-to-HTML converter is
/// available on the host.
pub open spec fn conversion_spec() -> Seq<char> {
    "\npandoc -f markdown "@ + md_filename_spec() + " > "@ + html_filename_spec()
}

/// The whole generated script: one block per descriptor, the aggregation
/// command, and the conversion command exactly when a converter is available.
pub open spec fn bash_content_spec(
    runs: Seq<BenchParamView>,
    repo: Seq<char>,
    converter_available: bool,
) -> Seq<char> {
    blocks_spec(runs, repo) + aggregate_spec(runs) + (if converter_available {
        conversion_spec()
    } else {
        Seq::<char>::empty()
    })
}

/// Without a converter on the host the script is exactly the command blocks
/// followed by the aggregation command, with nothing after it; with one, it is
/// exactly that same script plus the single conversion command appended at the
/// end.
pub proof fn lemma_conversion_appended(runs: Seq<BenchParamView>, repo: Seq<char>)
    ensures
        bash_content_spec(runs, repo, false) == blocks_spec(runs, repo) + aggregate_spec(runs),
        bash_content_spec(runs, repo, true) == bash_content_spec(runs, repo, false)
            + conversion_spec(),
{
    assert(bash_content_spec(runs, repo, false) =~= blocks_spec(runs, repo) + aggregate_spec(
        runs,
    ));
    assert(bash_content_spec(runs, repo, true) =~= bash_content_spec(runs, repo, false)
        + conversion_spec());
}

/// Renders the command block of one git-based descriptor.
pub fn build_bash_git(run: &BenchSettings, repo: &str) -> (r: String)
    ensures
        r@ == git_block_spec(run@, repo@),
{
    let sanitized_value = replace_slashes(run.value.as_str());
    let filename = run.bench_filename();
    let mut r = String::from_str("echo ");
    r.append(sanitized_value.as_str());
    r.append(" > ");
    r.append("target/tmp/version_burn");
    r.append("\n");
    r.append("cargo add burn --git ");
    r.append(repo);
    r.append(" --");
    r.append(run.identifier.as_str());
    r.append(" ");
    r.append(run.value.as_str());
    r.append("\n");
    r.append("cargo add burn-wgpu --git ");
    r.append(repo);
    r.append(" --");
    r.append(run.identifier.as_str());
    r.append(" ");
    r.append(run.value.as_str());
    r.append("\n");
    r.append("cargo add burn-tch --git ");
    r.append(repo);
    r.append(" --");
    r.append(run.identifier.as_str());
    r.append(" ");
    r.append(run.value.as_str());
    r.append("\n");
    r.append("cargo add burn-ndarray --git ");
    r.append(repo);
    r.append(" --");
    r.append(run.identifier.as_str());
    r.append(" ");
    r.append(run.value.as_str());
    r.append("\n");
    r.append("cargo add burn-autodiff --git ");
    r.append(repo);
    r.append(" --");
    r.append(run.identifier.as_str());
    r.append(" ");
    r.append(run.value.as_str());
    r.append("\n");
    r.append("cargo criterion --no-default-features --features ");
    r.append(run.backend_flag.as_str());
    r.append(" ");
    r.append(run.bench.as_str());
    r.append(" --message-format=json > ");
    r.append(filename.as_str());
    r.append("\n");
    r
}

/// Renders the command block of one path-based descriptor.
pub fn build_bash_path(run: &BenchSettings) -> (r: String)
    ensures
        r@ == path_block_spec(run@),
{
    let sanitized_value = replace_slashes(run.value.as_str());
    let filename = run.bench_filename();
    let mut r = String::from_str("echo ");
    r.append(sanitized_value.as_str());
    r.append(" > ");
    r.append("target/tmp/version_burn");
    r.append("\n");
    r.append("cargo add burn --path ");
    r.append(run.value.as_str());
    r.append("/burn \n");
    r.append("cargo add burn-wgpu --path ");
    r.append(run.value.as_str());
    r.append("/burn-wgpu\n");
    r.append("cargo add burn-tch --path ");
    r.append(run.value.as_str());
    r.append("/burn-tch\n");
    r.append("cargo add burn-ndarray --path ");
    r.append(run.value.as_str());
    r.append("/burn-ndarray\n");
    r.append("cargo add burn-autodiff --path ");
    r.append(run.value.as_str());
    r.append("/burn-autodiff\n");
    r.append("cargo criterion --no-default-features --features ");
    r.append(run.backend_flag.as_str());
    r.append(" ");
    r.append(run.bench.as_str());
    r.append(" --message-format=json > ");
    r.append(filename.as_str());
    r.append("\n");
    r
}

/// Renders the whole script for the run matrix. `converter_available` says
/// whether a markdown-to-HTML converter was detected on the host; the caller
/// establishes that fact.
pub fn bash_script_content(runs: &Vec<BenchParam>, repo: &str, converter_available: bool) -> (r:
    String)
    ensures
        r@ == bash_content_spec(param_views(runs@), repo@, converter_available),
{
    let ghost rv = param_views(runs@);
    let mut content = String::new();
    let mut i: usize = 0;
    while i < runs.len()
        invariant
            i <= runs.len(),
            rv == param_views(runs@),
            content@ == blocks_spec(rv.take(i as int), repo@),
        decreases runs.len() - i,
    {
        let block = match &runs[i] {
            BenchParam::Path(p) => build_bash_path(p),
            BenchParam::Git(g) => build_bash_git(g, repo),
        };
        content.append(block.as_str());
        proof {
            assert(rv[i as int] == runs@[i as int]@);
            assert(block@ == block_spec(rv[i as int], repo@));
            let taken = rv.take(i as int + 1);
            assert(taken.drop_last() =~= rv.take(i as int));
            assert(taken.last() == rv[i as int]);
            assert(content@ =~= blocks_spec(taken, repo@));
        }
        i = i + 1;
    }
    proof {
        assert(rv.take(rv.len() as int) =~= rv);
    }
    let ghost all_blocks = blocks_spec(rv, repo@);
    content.append("cat ");
    let mut j: usize = 0;
    while j < runs.len()
        invariant
            j <= runs.len(),
            rv == param_views(runs@),
            content@ == all_blocks + "cat "@ + cat_list_spec(rv.take(j as int)),
        decreases runs.len() - j,
    {
        let filename = runs[j].settings().bench_filename();
        content.append(filename.as_str());
        content.append(" ");
        proof {
            assert(rv[j as int] == runs@[j as int]@);
            let taken = rv.take(j as int + 1);
            assert(taken.drop_last() =~= rv.take(j as int));
            assert(taken.last() == rv[j as int]);
            assert(content@ =~= all_blocks + "cat "@ + cat_list_spec(taken));
        }
        j = j + 1;
    }
    proof {
        assert(rv.take(rv.len() as int) =~= rv);
    }
    content.append("| criterion-table >  ");
    content.append("target/burn_benches/BENCHMARKS.md");
    if converter_available {
        content.append("\npandoc -f markdown ");
        content.append("target/burn_benches/BENCHMARKS.md");
        content.append(" > ");
        content.append("target/burn_benches/benchmarks.html");
    }
    proof {
        assert(content@ =~= bash_content_spec(rv, repo@, converter_available));
    }
    content
}

/// The derived filename is a function of the backend flag, the selector kind
/// and the selector value alone: descriptors agreeing on that triple derive
/// the same filename, in this and in every later builder invocation.
pub proof fn lemma_filename_stable(s1: BenchSettingsView, s2: BenchSettingsView)
    requires
        s1.backend_flag == s2.backend_flag,
        s1.identifier == s2.identifier,
        s1.value == s2.value,
    ensures
        bench_filename_spec(s1) == bench_filename_spec(s2),
{
}

/// The selector kinds the run-matrix builder tags descriptors with.
pub open spec fn is_selector_kind(id: Seq<char>) -> bool {
    id == "tag"@ || id == "rev"@ || id == "branch"@ || id == "path"@
}

proof fn lemma_fname_flag_char(s: BenchSettingsView, q: int)
    requires
        0 <= q < s.backend_flag.len(),
    ensures
        bench_filename_spec(s)[20 + q] == s.backend_flag[q],
{
    reveal_strlit("target/burn_benches");
    reveal_strlit("/");
}

proof fn lemma_fname_id_char(s: BenchSettingsView, q: int)
    requires
        0 <= q < s.identifier.len(),
    ensures
        bench_filename_spec(s)[21 + s.backend_flag.len() + q] == s.identifier[q],
{
    reveal_strlit("target/burn_benches");
    reveal_strlit("/");
    reveal_strlit("-");
}

proof fn lemma_fname_value_char(s: BenchSettingsView, q: int)
    requires
        0 <= q < sanitized(s.value).len(),
    ensures
        bench_filename_spec(s)[22 + s.backend_flag.len() + s.identifier.len() + q] == sanitized(
            s.value,
        )[q],
{
    reveal_strlit("target/burn_benches");
    reveal_strlit("/");
    reveal_strlit("-");
}

proof fn lemma_fname_len(s: BenchSettingsView)
    ensures
        bench_filename_spec(s).len() == 27 + s.backend_flag.len() + s.identifier.len()
            + sanitized(s.value).len(),
{
    reveal_strlit("target/burn_benches");
    reveal_strlit("/");
    reveal_strlit("-");
    reveal_strlit(".json");
}

proof fn lemma_filename_unique_value(s1: BenchSettingsView, s2: BenchSettingsView)
    requires
        s1.backend_flag == s2.backend_flag,
        s1.identifier == s2.identifier,
        sanitized(s1.value) != sanitized(s2.value),
    ensures
        bench_filename_spec(s1) != bench_filename_spec(s2),
{
    let x = sanitized(s1.value);
    let y = sanitized(s2.value);
    if bench_filename_spec(s1) == bench_filename_spec(s2) {
        lemma_fname_len(s1);
        lemma_fname_len(s2);
        assert(x.len() == y.len());
        assert forall|k: int| 0 <= k < x.len() implies x[k] == y[k] by {
            lemma_fname_value_char(s1, k);
            lemma_fname_value_char(s2, k);
        }
        assert(x =~= y);
    }
}

proof fn lemma_filename_unique_kind(s1: BenchSettingsView, s2: BenchSettingsView)
    requires
        s1.backend_flag == s2.backend_flag,
        is_selector_kind(s1.identifier),
        is_selector_kind(s2.identifier),
        s1.identifier != s2.identifier,
    ensures
        bench_filename_spec(s1) != bench_filename_spec(s2),
{
    reveal_strlit("tag");
    reveal_strlit("rev");
    reveal_strlit("branch");
    reveal_strlit("path");
    assert(s1.identifier[0] != s2.identifier[0]);
    if bench_filename_spec(s1) == bench_filename_spec(s2) {
        lemma_fname_id_char(s1, 0);
        lemma_fname_id_char(s2, 0);
    }
}

proof fn lemma_filename_unique_flag_char(
    s1: BenchSettingsView,
    s2: BenchSettingsView,
    q: int,
)
    requires
        0 <= q < s1.backend_flag.len(),
        q < s2.backend_flag.len(),
        s1.backend_flag[q] != s2.backend_flag[q],
    ensures
        bench_filename_spec(s1) != bench_filename_spec(s2),
{
    if bench_filename_spec(s1) == bench_filename_spec(s2) {
        lemma_fname_flag_char(s1, q);
        lemma_fname_flag_char(s2, q);
    }
}

proof fn lemma_filename_unique_flag_vs_kind(
    s1: BenchSettingsView,
    s2: BenchSettingsView,
)
    requires
        s1.backend_flag == "ndarray"@,
        is_selector_kind(s1.identifier),
        s2.backend_flag == "ndarray-blas-netlib"@ || s2.backend_flag == "ndarray-blas-openblas"@
            || s2.backend_flag == "ndarray-no-std"@,
    ensures
        bench_filename_spec(s1) != bench_filename_spec(s2),
{
    reveal_strlit("tag");
    reveal_strlit("rev");
    reveal_strlit("branch");
    reveal_strlit("path");
    reveal_strlit("ndarray");
    reveal_strlit("ndarray-blas-netlib");
    reveal_strlit("ndarray-blas-openblas");
    reveal_strlit("ndarray-no-std");
    if bench_filename_spec(s1) == bench_filename_spec(s2) {
        if s1.identifier == "branch"@ && (s2.backend_flag == "ndarray-blas-netlib"@
            || s2.backend_flag == "ndarray-blas-openblas"@) {
            lemma_fname_id_char(s1, 1);
            lemma_fname_flag_char(s2, 9);
            assert(bench_filename_spec(s1)[29] == 'r');
            assert(bench_filename_spec(s2)[29] == 'l');
        } else {
            lemma_fname_id_char(s1, 0);
            lemma_fname_flag_char(s2, 8);
            assert(bench_filename_spec(s1)[28] == s1.identifier[0]);
            assert(bench_filename_spec(s2)[28] == s2.backend_flag[8]);
        }
    }
}

/// Derived filenames are unique across the matrix: descriptors whose backend
/// flags come from the backend set and whose selector kinds come from the
/// selector-kind set derive distinct filenames whenever they differ in
/// backend flag, in selector kind, or in sanitised selector value.
pub proof fn lemma_filename_unique(
    b1: Backend,
    b2: Backend,
    s1: BenchSettingsView,
    s2: BenchSettingsView,
)
    requires
        s1.backend_flag == backend_feature_spec(b1),
        s2.backend_flag == backend_feature_spec(b2),
        is_selector_kind(s1.identifier),
        is_selector_kind(s2.identifier),
        s1.backend_flag != s2.backend_flag || s1.identifier != s2.identifier || sanitized(s1.value)
            != sanitized(s2.value),
    ensures
        bench_filename_spec(s1) != bench_filename_spec(s2),
{
    if s1.backend_flag == s2.backend_flag {
        if s1.identifier == s2.identifier {
            lemma_filename_unique_value(s1, s2);
        } else {
            lemma_filename_unique_kind(s1, s2);
        }
    } else {
        reveal_strlit("ndarray");
        reveal_strlit("ndarray-blas-netlib");
        reveal_strlit("ndarray-blas-openblas");
        reveal_strlit("ndarray-no-std");
        reveal_strlit("tch-cpu");
        reveal_strlit("tch-gpu");
        reveal_strlit("wgpu");
        match (b1, b2) {
            (Backend::Ndarray, Backend::NdarrayNetlib)
            | (Backend::Ndarray, Backend::NdarrayOpenblas)
            | (Backend::Ndarray, Backend::NdarrayNoStd) => {
                lemma_filename_unique_flag_vs_kind(s1, s2);
            },
            (Backend::NdarrayNetlib, Backend::Ndarray)
            | (Backend::NdarrayOpenblas, Backend::Ndarray)
            | (Backend::NdarrayNoStd, Backend::Ndarray) => {
                lemma_filename_unique_flag_vs_kind(s2, s1);
            },
            (Backend::TchCpu, Backend::TchGpu) | (Backend::TchGpu, Backend::TchCpu) => {
                lemma_filename_unique_flag_char(s1, s2, 4);
            },
            (Backend::NdarrayNetlib, Backend::NdarrayOpenblas)
            | (Backend::NdarrayOpenblas, Backend::NdarrayNetlib) => {
                lemma_filename_unique_flag_char(s1, s2, 13);
            },
            (Backend::NdarrayNetlib, Backend::NdarrayNoStd)
            | (Backend::NdarrayNoStd, Backend::NdarrayNetlib)
            | (Backend::NdarrayOpenblas, Backend::NdarrayNoStd)
            | (Backend::NdarrayNoStd, Backend::NdarrayOpenblas) => {
                lemma_filename_unique_flag_char(s1, s2, 8);
            },
            _ => {
                lemma_filename_unique_flag_char(s1, s2, 0);
            },
        }
    }
}

proof fn lemma_backend_runs_wf(
    b: Backend,
    tags: Seq<Seq<char>>,
    commits: Seq<Seq<char>>,
    branches: Seq<Seq<char>>,
    paths: Seq<Seq<char>>,
    bench: Seq<char>,
    k: int,
)
    requires
        0 <= k < backend_runs(b, tags, commits, branches, paths, bench).len(),
    ensures
        param_settings(backend_runs(b, tags, commits, branches, paths, bench)[k]).backend_flag
            == backend_feature_spec(b),
        is_selector_kind(
            param_settings(backend_runs(b, tags, commits, branches, paths, bench)[k]).identifier,
        ),
{
    let fv = backend_feature_spec(b);
    let a = git_runs("tag"@, tags, fv, bench);
    let c = git_runs("rev"@, commits, fv, bench);
    let br = git_runs("branch"@, branches, fv, bench);
    let p = path_runs(paths, fv, bench);
    let whole = backend_runs(b, tags, commits, branches, paths, bench);
    if k < a.len() {
        assert(whole[k] == a[k]);
    } else if k < a.len() + c.len() {
        assert(whole[k] == c[k - a.len()]);
    } else if k < a.len() + c.len() + br.len() {
        assert(whole[k] == br[k - a.len() - c.len()]);
    } else {
        assert(whole[k] == p[k - a.len() - c.len() - br.len()]);
    }
}

/// Every descriptor of a run matrix carries the feature flag of one of the
/// selected backends and one of the four selector kinds.
pub proof fn lemma_run_matrix_wf(
    backends: Seq<Backend>,
    tags: Seq<Seq<char>>,
    commits: Seq<Seq<char>>,
    branches: Seq<Seq<char>>,
    paths: Seq<Seq<char>>,
    bench: Seq<char>,
    k: int,
)
    requires
        0 <= k < run_matrix(backends, tags, commits, branches, paths, bench).len(),
    ensures
        exists|bi: int|
            0 <= bi < backends.len() && param_settings(
                run_matrix(backends, tags, commits, branches, paths, bench)[k],
            ).backend_flag == backend_feature_spec(backends[bi]),
        is_selector_kind(
            param_settings(
                run_matrix(backends, tags, commits, branches, paths, bench)[k],
            ).identifier,
        ),
    decreases backends.len(),
{
    let whole = run_matrix(backends, tags, commits, branches, paths, bench);
    let prefix = run_matrix(backends.drop_last(), tags, commits, branches, paths, bench);
    if k < prefix.len() {
        lemma_run_matrix_wf(backends.drop_last(), tags, commits, branches, paths, bench, k);
        assert(whole[k] == prefix[k]);
        let bi = choose|bi: int|
            0 <= bi < backends.drop_last().len() && param_settings(prefix[k]).backend_flag
                == backend_feature_spec(backends.drop_last()[bi]);
        assert(backends.drop_last()[bi] == backends[bi]);
        assert(0 <= bi < backends.len() && param_settings(whole[k]).backend_flag
            == backend_feature_spec(backends[bi]));
    } else {
        lemma_backend_runs_wf(backends.last(), tags, commits, branches, paths, bench, k
            - prefix.len());
        assert(whole[k] == backend_runs(
            backends.last(),
            tags,
            commits,
            branches,
            paths,
            bench,
        )[k - prefix.len()]);
        let bi = backends.len() - 1;
        assert(0 <= bi < backends.len() && param_settings(whole[k]).backend_flag
            == backend_feature_spec(backends[bi]));
    }
}

/// Filenames are unique across one run matrix: any two of its descriptors
/// that differ in backend flag, in selector kind, or in sanitised selector
/// value derive distinct output filenames.
pub proof fn lemma_matrix_filenames_unique(
    backends: Seq<Backend>,
    tags: Seq<Seq<char>>,
    commits: Seq<Seq<char>>,
    branches: Seq<Seq<char>>,
    paths: Seq<Seq<char>>,
    bench: Seq<char>,
    j: int,
    k: int,
)
    requires
        0 <= j < run_matrix(backends, tags, commits, branches, paths, bench).len(),
        0 <= k < run_matrix(backends, tags, commits, branches, paths, bench).len(),
        ({
            let sj = param_settings(run_matrix(backends, tags, commits, branches, paths, bench)[j]);
            let sk = param_settings(run_matrix(backends, tags, commits, branches, paths, bench)[k]);
            sj.backend_flag != sk.backend_flag || sj.identifier != sk.identifier || sanitized(
                sj.value,
            ) != sanitized(sk.value)
        }),
    ensures
        bench_filename_spec(
            param_settings(run_matrix(backends, tags, commits, branches, paths, bench)[j]),
        ) != bench_filename_spec(
            param_settings(run_matrix(backends, tags, commits, branches, paths, bench)[k]),
        ),
{
    let whole = run_matrix(backends, tags, commits, branches, paths, bench);
    let sj = param_settings(whole[j]);
    let sk = param_settings(whole[k]);
    lemma_run_matrix_wf(backends, tags, commits, branches, paths, bench, j);
    lemma_run_matrix_wf(backends, tags, commits, branches, paths, bench, k);
    let b1i = choose|bi: int|
        0 <= bi < backends.len() && sj.backend_flag == backend_feature_spec(backends[bi]);
    let b2i = choose|bi: int|
        0 <= bi < backends.len() && sk.backend_flag == backend_feature_spec(backends[bi]);
    lemma_filename_unique(backends[b1i], backends[b2i], sj, sk);
}

/// The paths the teardown deletes best-effort: every descriptor's result
/// file, then the generated script, then the renderer's metadata document.
pub open spec fn cleanup_files_spec(runs: Seq<BenchParamView>) -> Seq<Seq<char>> {
    runs.map_values(|p: BenchParamView| bench_filename_spec(param_settings(p))) + seq![
        sh_filename_spec(),
        tables_filename_spec(),
    ]
}

/// Returns the paths the teardown deletes best-effort, in deletion order.
pub fn cleanup_files(params: &Vec<BenchParam>) -> (r: Vec<String>)
    ensures
        string_views(r@) == cleanup_files_spec(param_views(params@)),
{
    let ghost pv = param_views(params@);
    let mut r: Vec<String> = Vec::new();
    let mut i: usize = 0;
    while i < params.len()
        invariant
            i <= params.len(),
            pv == param_views(params@),
            string_views(r@) == pv.take(i as int).map_values(
                |p: BenchParamView| bench_filename_spec(param_settings(p)),
            ),
        decreases params.len() - i,
    {
        let filename = params[i].settings().bench_filename();
        r.push(filename);
        proof {
            assert(pv[i as int] == params@[i as int]@);
            let f = |p: BenchParamView| bench_filename_spec(param_settings(p));
            assert(pv.take(i as int + 1).map_values(f) =~= pv.take(i as int).map_values(f).push(
                f(pv[i as int]),
            ));
            assert(string_views(r@) =~= pv.take(i as int).map_values(f).push(f(pv[i as int])));
        }
        i = i + 1;
    }
    proof {
        assert(pv.take(pv.len() as int) =~= pv);
    }
    r.push(sh_filename());
    r.push(tables_filename());
    proof {
        assert(string_views(r@) =~= cleanup_files_spec(pv));
    }
    r
}

/// The harness-owned artifacts of one invocation: whether the dependency
/// manifest still holds its original content, whether the backup copy of the
/// manifest exists, and which of the temporary files (one result file per
/// descriptor, the generated script, the metadata document) exist.
pub struct ArtifactState {
    pub manifest_original: bool,
    pub backup_present: bool,
    pub results_present: Vec<bool>,
    pub script_present: bool,
    pub tables_present: bool,
}

/// The abstract value of an `ArtifactState`.
#[verifier::ext_equal]
pub struct ArtifactStateView {
    pub manifest_original: bool,
    pub backup_present: bool,
    pub results_present: Seq<bool>,
    pub script_present: bool,
    pub tables_present: bool,
}

impl View for ArtifactState {
    type V = ArtifactStateView;

    open spec fn view(&self) -> ArtifactStateView {
        ArtifactStateView {
            manifest_original: self.manifest_original,
            backup_present: self.backup_present,
            results_present: self.results_present@,
            script_present: self.script_present,
            tables_present: self.tables_present,
        }
    }
}

/// What the teardown leaves behind: the manifest is restored from the backup
/// when the backup still exists (and is otherwise left as it is), the backup
/// is consumed, and every temporary file is gone.
pub open spec fn cleanup_spec(s: ArtifactStateView) -> ArtifactStateView {
    ArtifactStateView {
        manifest_original: s.manifest_original || s.backup_present,
        backup_present: false,
        results_present: Seq::new(s.results_present.len(), |i: int| false),
        script_present: false,
        tables_present: false,
    }
}

/// The teardown is idempotent: applying it twice in succession (as when the
/// normal path and the interrupt path both run it) leaves exactly the state
/// that applying it once leaves.
pub proof fn lemma_cleanup_idempotent(s: ArtifactStateView)
    ensures
        cleanup_spec(cleanup_spec(s)) == cleanup_spec(s),
{
    assert(cleanup_spec(cleanup_spec(s)) =~= cleanup_spec(s));
}

/// Applies the teardown to the modelled artifact state. A caller that
/// performs the matching filesystem actions (restore the manifest from its
/// backup if present, then delete the files of `cleanup_files` and the backup,
/// ignoring missing ones) moves the real filesystem the same way.
pub fn cleanup(state: &mut ArtifactState)
    ensures
        final(state)@ == cleanup_spec(old(state)@),
{
    let n = state.results_present.len();
    let mut i: usize = 0;
    while i < n
        invariant
            i <= n,
            n == state.results_present.len(),
            state.manifest_original == old(state).manifest_original,
            state.backup_present == old(state).backup_present,
            state.script_present == old(state).script_present,
            state.tables_present == old(state).tables_present,
            forall|k: int| 0 <= k < i ==> !state.results_present@[k],
        decreases n - i,
    {
        state.results_present.set(i, false);
        i = i + 1;
    }
    if state.backup_present {
        state.manifest_original = true;
        state.backup_present = false;
    }
    state.script_present = false;
    state.tables_present = false;
    proof {
        assert(state@.results_present =~= Seq::new(
            old(state)@.results_present.len(),
            |k: int| false,
        ));
        assert(state@ =~= cleanup_spec(old(state)@));
    }
}

/// The harness for one invocation: the run matrix and the repository that
/// git-based selectors are fetched from.
pub struct Benches {
    pub params: Vec<BenchParam>,
    pub repo: String,
}

impl Benches {
    /// Packs the run matrix with the repository it will be fetched from.
    pub fn new(params: Vec<BenchParam>, repo: String) -> (r: Benches)
        ensures
            r.params == params,
            r.repo == repo,
    {
        Benches { params, repo }
    }
}

} // verus!
