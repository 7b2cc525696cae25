//! Deriving the invocation of the acquired `wasm-bindgen` binary.
//!
//! Once a handle to an installation directory exists, the tool is run
//! against the build's `.wasm` artifact. The executable path inside the
//! handle, the artifact path, and the argument list are all derived
//! deterministically from the build configuration; the caller only spawns
//! the subprocess and reports how it ended.

use vstd::prelude::*;
use vstd::string::*;

verus! {

/// The build configuration an invocation is derived from.
pub struct BuildRequest {
    /// The build's target directory, under which the `.wasm` artifact
    /// lies.
    pub target_directory: String,
    /// The crate whose artifact is processed; names the `.wasm` file.
    pub crate_name: String,
    /// Where the tool is to write its output.
    pub out_dir: String,
    /// Suppress the emission of declaration files.
    pub disable_dts: bool,
    /// The target mode: `nodejs`, `no-modules`, or anything else for the
    /// browser default.
    pub target: String,
    /// Whether the artifact of the debug profile is processed, with debug
    /// info kept.
    pub debug: bool,
}

/// How an invocation can fail.
#[derive(Debug)]
pub enum InvokeError {
    /// The handle's directory does not contain the tool's binary.
    ToolNotFoundInHandle,
    /// The tool could not be spawned or exited nonzero; carries the
    /// captured diagnostic output.
    ToolInvocationFailed { diagnostic: String },
}

/// A fully derived invocation: the program to spawn and its arguments, in
/// order.
pub struct ToolInvocation {
    pub program: String,
    pub args: Vec<String>,
}

/// The path of the tool's binary inside a handle's directory.
pub open spec fn spec_tool_path(handle_dir: Seq<char>) -> Seq<char> {
    handle_dir + "/wasm-bindgen"@
}

/// The path of the `.wasm` artifact to process: the target directory, the
/// wasm target, the profile, and the crate name.
pub open spec fn spec_wasm_path(req: BuildRequest) -> Seq<char> {
    req.target_directory@ + "/wasm32-unknown-unknown/"@ + (if req.debug {
        "debug"@
    } else {
        "release"@
    }) + "/"@ + req.crate_name@ + ".wasm"@
}

/// The declaration flag: emission is on unless disabled.
pub open spec fn spec_dts_arg(disable_dts: bool) -> Seq<char> {
    if disable_dts {
        "--no-typescript"@
    } else {
        "--typescript"@
    }
}

/// The target flag for a target mode; any unrecognized mode falls back to
/// the browser target — a defined fallback, not an error.
pub open spec fn spec_target_arg(target: Seq<char>) -> Seq<char> {
    if target == "nodejs"@ {
        "--nodejs"@
    } else if target == "no-modules"@ {
        "--no-modules"@
    } else {
        "--browser"@
    }
}

/// The full argument list: the artifact, the output directory, the
/// declaration flag, the target flag, and `--debug` exactly when debug is
/// on.
pub open spec fn spec_build_args(req: BuildRequest) -> Seq<Seq<char>> {
    let base = seq![
        spec_wasm_path(req),
        "--out-dir"@,
        req.out_dir@,
        spec_dts_arg(req.disable_dts),
        spec_target_arg(req.target@),
    ];
    if req.debug {
        base.push("--debug"@)
    } else {
        base
    }
}

/// Literal equality of two strings.
fn str_eq(a: &str, b: &str) -> (r: bool)
    ensures
        r == (a@ == b@),
{
    let x = a.to_owned();
    let y = b.to_owned();
    x == y
}

/// The `.wasm` artifact path for a build configuration.
pub fn wasm_artifact_path(req: &BuildRequest) -> (r: String)
    ensures
        r@ == spec_wasm_path(*req),
{
    let mut p = req.target_directory.clone();
    p.append("/wasm32-unknown-unknown/");
    p.append(if req.debug { "debug" } else { "release" });
    p.append("/");
    p.append(req.crate_name.as_str());
    p.append(".wasm");
    p
}

/// Derive the invocation that runs the tool from `handle_dir` against the
/// build's artifact. Fails with `ToolNotFoundInHandle` — before anything
/// is spawned — where the handle does not contain the binary, which the
/// caller reports through `binary_present`.
pub fn wasm_bindgen_build(handle_dir: &str, binary_present: bool, req: &BuildRequest) -> (r: Result<
    ToolInvocation,
    InvokeError,
>)
    ensures
        r is Ok <==> binary_present,
        !binary_present ==> r matches Err(InvokeError::ToolNotFoundInHandle),
        r matches Ok(inv) ==> inv.program@ == spec_tool_path(handle_dir@)
            && inv.args.deep_view() == spec_build_args(*req),
{
    if !binary_present {
        return Err(InvokeError::ToolNotFoundInHandle);
    }

    let program = handle_dir.to_owned().concat("/wasm-bindgen");

    let mut args: Vec<String> = Vec::new();
    args.push(wasm_artifact_path(req));
    args.push("--out-dir".to_owned());
    args.push(req.out_dir.clone());
    args.push(
        if req.disable_dts {
            "--no-typescript".to_owned()
        } else {
            "--typescript".to_owned()
        },
    );
    args.push(
        if str_eq(req.target.as_str(), "nodejs") {
            "--nodejs".to_owned()
        } else if str_eq(req.target.as_str(), "no-modules") {
            "--no-modules".to_owned()
        } else {
            "--browser".to_owned()
        },
    );
    if req.debug {
        args.push("--debug".to_owned());
    }
    proof {
        assert(args.deep_view() =~= spec_build_args(*req));
    }
    Ok(ToolInvocation { program, args })
}

/// Interpret how the generation run ended: a successful exit yields `Ok`;
/// a spawn failure or nonzero exit is surfaced as `ToolInvocationFailed`
/// carrying the captured diagnostic output, and is never retried.
pub fn wasm_bindgen_build_outcome(run_ok: bool, diagnostic: String) -> (r: Result<
    (),
    InvokeError,
>)
    ensures
        r is Ok <==> run_ok,
        !run_ok ==> (r matches Err(InvokeError::ToolInvocationFailed { diagnostic: d }) && d@
            == diagnostic@),
{
    if run_ok {
        Ok(())
    } else {
        Err(InvokeError::ToolInvocationFailed { diagnostic })
    }
}

/// The target mode decides the target flag of every derived argument
/// list: mode `nodejs` puts `--nodejs` there, mode `no-modules` puts
/// `--no-modules`, and any other mode string falls back to `--browser`.
pub proof fn lemma_target_mode_flag(req: BuildRequest)
    ensures
        spec_build_args(req).contains(spec_target_arg(req.target@)),
        req.target@ == "nodejs"@ ==> spec_target_arg(req.target@) == "--nodejs"@,
        req.target@ == "no-modules"@ ==> spec_target_arg(req.target@) == "--no-modules"@,
        req.target@ != "nodejs"@ && req.target@ != "no-modules"@ ==> spec_target_arg(req.target@)
            == "--browser"@,
{
    reveal_strlit("nodejs");
    reveal_strlit("no-modules");
    assert("nodejs"@.len() == 6);
    assert("no-modules"@.len() == 10);
    assert("nodejs"@ != "no-modules"@);
    assert(spec_build_args(req)[4] == spec_target_arg(req.target@));
    assert(0 <= 4 < spec_build_args(req).len());
}

/// The debug flag decides the tail of the argument list: exactly with
/// debug on, one argument — the last — is appended, and it is `--debug`;
/// with debug off the list is the five base arguments and none of its
/// fixed flags is `--debug`.
pub proof fn lemma_debug_flag(req: BuildRequest)
    ensures
        spec_build_args(req).len() == if req.debug {
            6int
        } else {
            5int
        },
        req.debug ==> spec_build_args(req).last() == "--debug"@,
        !req.debug ==> spec_build_args(req)[3] != "--debug"@ && spec_build_args(req)[4]
            != "--debug"@,
{
    reveal_strlit("--debug");
    reveal_strlit("--typescript");
    reveal_strlit("--no-typescript");
    reveal_strlit("--nodejs");
    reveal_strlit("--no-modules");
    reveal_strlit("--browser");
    assert(spec_build_args(req)[3] == spec_dts_arg(req.disable_dts));
    assert(spec_build_args(req)[4] == spec_target_arg(req.target@));
    assert("--typescript"@.len() != "--debug"@.len());
    assert("--no-typescript"@.len() != "--debug"@.len());
    assert("--nodejs"@.len() != "--debug"@.len());
    assert("--no-modules"@.len() != "--debug"@.len());
    assert("--browser"@.len() != "--debug"@.len());
}

} // verus!
