//! The commands that rebuild the project, and how their outcomes combine.
use crate::text_util::concat_str;
use vstd::prelude::*;

verus! {

/// What to build for.
#[derive(Debug, Clone, Copy, PartialEq, Eq, Structural)]
pub enum BuildMode {
    /// The native windowed demos.
    Native,
    /// The WebAssembly library.
    Web,
}

/// The outcome of a build step.
#[derive(Debug)]
pub struct BuildResult {
    pub success: bool,
    pub stdout: String,
    pub stderr: String,
    pub duration_ms: u64,
}

/// A command to run: program, arguments, working directory, and a value for
/// `RUSTFLAGS` when one is set.
#[derive(Debug)]
pub struct BuildCommand {
    pub program: String,
    pub args: Vec<String>,
    pub current_dir: String,
    pub rustflags: Option<String>,
}

pub open spec fn strings_view(v: Seq<String>) -> Seq<Seq<char>> {
    v.map_values(|s: String| s@)
}

pub open spec fn opt_view(o: Option<String>) -> Option<Seq<char>> {
    match o {
        Some(s) => Some(s@),
        None => None,
    }
}

/// The cargo arguments for `mode`.
pub open spec fn cargo_args(mode: BuildMode) -> Seq<Seq<char>> {
    match mode {
        BuildMode::Native => seq!["build"@, "--bin"@, "demos"@, "--features"@, "windowed,overlay"@],
        BuildMode::Web => seq!["build"@, "--lib"@, "--target"@, "wasm32-unknown-unknown"@, "--release"@],
    }
}

fn strings(items: &[&str]) -> (r: Vec<String>)
    ensures
        r@.len() == items@.len(),
        forall|i: int| 0 <= i < items@.len() ==> (#[trigger] r@[i])@ == items@[i]@,
{
    let mut out: Vec<String> = Vec::new();
    let mut i: usize = 0;
    while i < items.len()
        invariant
            0 <= i <= items@.len(),
            out@.len() == i,
            forall|j: int| 0 <= j < i ==> (#[trigger] out@[j])@ == items@[j]@,
        decreases items@.len() - i,
    {
        out.push(String::from_str(items[i]));
        i += 1;
    }
    out
}

/// Runs builds from a project root.
pub struct Builder {
    project_root: String,
}

impl Builder {
    pub closed spec fn spec_root(&self) -> Seq<char> {
        self.project_root@
    }

    pub fn new(project_root: &str) -> (r: Self)
        ensures
            r.spec_root() == project_root@,
    {
        Builder { project_root: String::from_str(project_root) }
    }

    pub fn project_root(&self) -> (r: &str)
        ensures
            r@ == self.spec_root(),
    {
        self.project_root.as_str()
    }

    /// The cargo invocation that builds for `mode`; the web build also sets
    /// `RUSTFLAGS`.
    pub fn build_command(&self, mode: BuildMode) -> (r: BuildCommand)
        ensures
            r.program@ == "cargo"@,
            strings_view(r.args@) == cargo_args(mode),
            r.current_dir@ == self.spec_root(),
            opt_view(r.rustflags) == match mode {
                BuildMode::Native => None,
                BuildMode::Web => Some("--cfg=web_sys_unstable_apis"@),
            },
    {
        let (args, rustflags) = match mode {
            BuildMode::Native => (strings(&["build", "--bin", "demos", "--features", "windowed,overlay"]), None),
            BuildMode::Web => (
                strings(&["build", "--lib", "--target", "wasm32-unknown-unknown", "--release"]),
                Some(String::from_str("--cfg=web_sys_unstable_apis")),
            ),
        };
        proof {
            assert(strings_view(args@) =~= cargo_args(mode));
        }
        BuildCommand { program: String::from_str("cargo"), args, current_dir: self.project_root.clone(), rustflags }
    }

    /// The wasm-bindgen invocation that follows a web build.
    pub fn wasm_bindgen_command(&self) -> (r: BuildCommand)
        ensures
            r.program@ == "wasm-bindgen"@,
            strings_view(r.args@) == seq![
                "target/wasm32-unknown-unknown/release/raybox.wasm"@,
                "--out-dir"@,
                "pkg"@,
                "--target"@,
                "web"@,
            ],
            r.current_dir@ == self.spec_root(),
            r.rustflags is None,
    {
        let args = strings(
            &["target/wasm32-unknown-unknown/release/raybox.wasm", "--out-dir", "pkg", "--target", "web"],
        );
        let ghost expected = seq![
            "target/wasm32-unknown-unknown/release/raybox.wasm"@,
            "--out-dir"@,
            "pkg"@,
            "--target"@,
            "web"@,
        ];
        proof {
            assert(strings_view(args@) =~= expected);
        }
        BuildCommand {
            program: String::from_str("wasm-bindgen"),
            args,
            current_dir: self.project_root.clone(),
            rustflags: None,
        }
    }

    /// The cargo invocation that recompiles the shaders, which the library's
    /// build does.
    pub fn shader_compile_command(&self) -> (r: BuildCommand)
        ensures
            r.program@ == "cargo"@,
            strings_view(r.args@) == seq!["build"@, "--lib"@],
            r.current_dir@ == self.spec_root(),
            r.rustflags is None,
    {
        let args = strings(&["build", "--lib"]);
        proof {
            assert(strings_view(args@) =~= seq!["build"@, "--lib"@]);
        }
        BuildCommand { program: String::from_str("cargo"), args, current_dir: self.project_root.clone(), rustflags: None }
    }
}

impl BuildResult {
    /// A step whose command could not be started: `what` followed by the error.
    pub fn failed_to_run(what: &str, error: &str, duration_ms: u64) -> (r: Self)
        ensures
            !r.success,
            r.stdout@ == Seq::<char>::empty(),
            r.stderr@ == what@ + error@,
            r.duration_ms == duration_ms,
    {
        BuildResult { success: false, stdout: String::new(), stderr: concat_str(what, error), duration_ms }
    }
}

/// The full web build: the cargo result when cargo failed, else the
/// wasm-bindgen outcome with both outputs joined line by line and the
/// durations added.
pub fn web_build_result(cargo: BuildResult, bindgen: BuildResult) -> (r: BuildResult)
    requires
        cargo.success ==> cargo.duration_ms + bindgen.duration_ms <= u64::MAX,
    ensures
        !cargo.success ==> r.success == cargo.success && r.stdout@ == cargo.stdout@ && r.stderr@ == cargo.stderr@
            && r.duration_ms == cargo.duration_ms,
        cargo.success ==> {
            &&& r.success == bindgen.success
            &&& r.stdout@ == cargo.stdout@ + "\n"@ + bindgen.stdout@
            &&& r.stderr@ == cargo.stderr@ + "\n"@ + bindgen.stderr@
            &&& r.duration_ms == cargo.duration_ms + bindgen.duration_ms
        },
{
    if !cargo.success {
        return cargo;
    }
    let mut stdout = cargo.stdout;
    stdout.append("\n");
    stdout.append(bindgen.stdout.as_str());
    let mut stderr = cargo.stderr;
    stderr.append("\n");
    stderr.append(bindgen.stderr.as_str());
    BuildResult {
        success: bindgen.success,
        stdout,
        stderr,
        duration_ms: cargo.duration_ms + bindgen.duration_ms,
    }
}

} // verus!
