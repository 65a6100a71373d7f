//! Driving the tools of the runtime: the dependency analyzer, which tells
//! the modules an application needs, and the linker, which builds a runtime
//! of those modules only.

use vstd::prelude::*;
use vstd::string::*;
use crate::error::PackError;
use crate::jvm::cache::{bundle_tool_path, flat_tool_path, jdk_bin};
use crate::text::{join_path, path_joined, trim, trimmed, views};

verus! {

/// A tool to run: the program and its arguments.
#[derive(Debug, Clone, PartialEq, Eq)]
pub struct ToolCall {
    pub program: String,
    pub args: Vec<String>,
}

/// What a tool left behind when it ended.
#[derive(Debug, Clone, PartialEq, Eq)]
pub struct ToolOutput {
    /// Whether the tool ended with exit code 0.
    pub success: bool,
    /// What it wrote to standard output.
    pub stdout: String,
    /// What it wrote to standard error.
    pub stderr: String,
}

/// A module list, with the warning to record where it is a substitute.
#[derive(Debug, Clone, PartialEq, Eq)]
pub struct Modules {
    /// The module names, separated by commas.
    pub list: String,
    /// Set where the analyzer failed and the fallback list was taken.
    pub warning: Option<String>,
}

/// The modules taken where the analyzer fails: the core platform, logging,
/// SQL, naming, management, instrumentation, desktop, XML and the HTTP
/// client.
pub open spec fn fallback_modules_text() -> Seq<char> {
    "java.base,java.logging,java.sql,java.naming,java.management,java.instrument,java.desktop,java.xml,java.net.http"@
}

/// The module of the core platform.
pub open spec fn base_module_text() -> Seq<char> {
    "java.base"@
}

/// The path of a tool of the runtime at `jdk`, by the layout the runtime has.
pub open spec fn tool_path(jdk: Seq<char>, tool: Seq<char>, bundle: bool) -> Seq<char> {
    if bundle {
        bundle_tool_path(jdk, tool)
    } else {
        flat_tool_path(jdk, tool)
    }
}

/// The arguments of the analyzer: print the module list, ignore references
/// that cannot be resolved, analyze against the base platform.
pub open spec fn jdeps_args_text(jar: Seq<char>) -> Seq<Seq<char>> {
    seq!["--print-module-deps"@, "--ignore-missing-deps"@, "--multi-release"@, "base"@, jar]
}

/// The arguments of the linker: the modules, no debug symbols, no man
/// pages, no header files, compressed, and where to put the runtime.
pub open spec fn jlink_args_text(modules: Seq<char>, runtime: Seq<char>) -> Seq<Seq<char>> {
    seq![
        "--add-modules"@,
        modules,
        "--strip-debug"@,
        "--no-man-pages"@,
        "--no-header-files"@,
        "--compress=zip-6"@,
        "--output"@,
        runtime,
    ]
}

/// The module list that an analyzer run stands for: the fallback list where
/// it failed, else what it printed, trimmed, and the core platform where it
/// printed nothing.
pub open spec fn modules_text(output: ToolOutput) -> Seq<char> {
    if !output.success {
        fallback_modules_text()
    } else if trimmed(output.stdout@).len() == 0 {
        base_module_text()
    } else {
        trimmed(output.stdout@)
    }
}

/// The modules taken where the analyzer fails.
pub fn fallback_modules() -> (list: &'static str)
    ensures
        list@ == fallback_modules_text(),
        list@.len() > 0,
{
    proof {
        reveal_strlit(
            "java.base,java.logging,java.sql,java.naming,java.management,java.instrument,java.desktop,java.xml,java.net.http",
        );
    }
    "java.base,java.logging,java.sql,java.naming,java.management,java.instrument,java.desktop,java.xml,java.net.http"
}

/// The call of the dependency analyzer on an application bundle.
/// `bundle_tool_exists` says whether the analyzer lies in the runtime's
/// macOS bundle layout.
pub fn jdeps_call(jdk_path: &str, bundle_tool_exists: bool, jar_path: &str) -> (call: ToolCall)
    ensures
        call.program@ == tool_path(jdk_path@, "jdeps"@, bundle_tool_exists),
        views(call.args@) == jdeps_args_text(jar_path@),
{
    let program = jdk_bin(jdk_path, "jdeps", bundle_tool_exists);
    let mut args: Vec<String> = Vec::new();
    args.push(String::from_str("--print-module-deps"));
    args.push(String::from_str("--ignore-missing-deps"));
    args.push(String::from_str("--multi-release"));
    args.push(String::from_str("base"));
    args.push(String::from_str(jar_path));
    ToolCall { program, args }
}

/// The module list of an application, from how the analyzer run ended.
/// `run` is the analyzer's output, or why it could not be started. A run
/// that failed is no error: the fallback list is taken, with a warning that
/// carries what the analyzer wrote to standard error. Only an analyzer that
/// could not be started is an error.
pub fn detect_modules(run: Result<ToolOutput, String>) -> (modules: Result<Modules, PackError>)
    ensures
        match run {
            Err(why) => (modules matches Err(PackError::JdepsFailed(text)) && text@
                == "failed to run jdeps: "@ + why@),
            Ok(output) => (modules matches Ok(m) && m.list@ == modules_text(output)
                && m.list@.len() > 0 && match m.warning {
                None => output.success,
                Some(text) => !output.success && text@
                    == "jdeps failed, falling back to common modules: "@ + output.stderr@,
            }),
        },
{
    let output = match run {
        Ok(output) => output,
        Err(why) => {
            return Err(
                PackError::JdepsFailed(
                    String::from_str("failed to run jdeps: ").concat(why.as_str()),
                ),
            );
        },
    };
    if !output.success {
        let warning = String::from_str("jdeps failed, falling back to common modules: ").concat(
            output.stderr.as_str(),
        );
        return Ok(Modules { list: String::from_str(fallback_modules()), warning: Some(warning) });
    }
    let list = trim(output.stdout.as_str());
    if list.as_str().unicode_len() == 0 {
        proof {
            reveal_strlit("java.base");
        }
        return Ok(Modules { list: String::from_str("java.base"), warning: None });
    }
    Ok(Modules { list, warning: None })
}

/// Where the linker puts the runtime: `runtime`, under the output directory.
pub fn runtime_path(output_dir: &str) -> (path: String)
    ensures
        path@ == path_joined(output_dir@, "runtime"@),
{
    join_path(output_dir, "runtime")
}

/// How to link a runtime.
#[derive(Debug, Clone, PartialEq, Eq)]
pub struct LinkPlan {
    /// Where the runtime will stand.
    pub runtime_path: String,
    /// Whether something is there already and has to be removed first, so
    /// that nothing of an earlier run is taken over.
    pub remove_stale: bool,
    /// The call of the linker.
    pub call: ToolCall,
}

/// Plans the linking of a runtime of the given modules under `output_dir`.
/// `bundle_tool_exists` says whether the linker lies in the full runtime's
/// macOS bundle layout; `runtime_exists` whether the place of the new
/// runtime is taken.
pub fn link_plan(
    jdk_path: &str,
    bundle_tool_exists: bool,
    modules: &str,
    output_dir: &str,
    runtime_exists: bool,
) -> (plan: LinkPlan)
    ensures
        plan.runtime_path@ == path_joined(output_dir@, "runtime"@),
        plan.remove_stale == runtime_exists,
        plan.call.program@ == tool_path(jdk_path@, "jlink"@, bundle_tool_exists),
        views(plan.call.args@) == jlink_args_text(modules@, plan.runtime_path@),
{
    let program = jdk_bin(jdk_path, "jlink", bundle_tool_exists);
    let runtime = runtime_path(output_dir);
    let mut args: Vec<String> = Vec::new();
    args.push(String::from_str("--add-modules"));
    args.push(String::from_str(modules));
    args.push(String::from_str("--strip-debug"));
    args.push(String::from_str("--no-man-pages"));
    args.push(String::from_str("--no-header-files"));
    args.push(String::from_str("--compress=zip-6"));
    args.push(String::from_str("--output"));
    args.push(runtime.clone());
    LinkPlan { runtime_path: runtime, remove_stale: runtime_exists, call: ToolCall { program, args } }
}

/// The minimized runtime, from how the linker run ended. `run` is the
/// linker's output, or why it could not be started. A run that failed is an
/// error that carries what the linker wrote to standard error: nothing can
/// stand in for a runtime that was not linked.
pub fn create_runtime(output_dir: &str, run: Result<ToolOutput, String>) -> (runtime: Result<
    String,
    PackError,
>)
    ensures
        match run {
            Err(why) => (runtime matches Err(PackError::JlinkFailed(text)) && text@
                == "failed to run jlink: "@ + why@),
            Ok(output) => if output.success {
                (runtime matches Ok(path) && path@ == path_joined(output_dir@, "runtime"@))
            } else {
                (runtime matches Err(PackError::JlinkFailed(text)) && text@ == output.stderr@)
            },
        },
{
    match run {
        Err(why) => Err(
            PackError::JlinkFailed(String::from_str("failed to run jlink: ").concat(why.as_str())),
        ),
        Ok(output) => {
            if output.success {
                Ok(runtime_path(output_dir))
            } else {
                Err(PackError::JlinkFailed(output.stderr))
            }
        },
    }
}

} // verus!
