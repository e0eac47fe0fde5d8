//! The build-verification pipeline's plan and state machine.
//!
//! For one backend, the plan says which files to materialize in a fresh
//! workspace, which toolchain command to run there, and whether a binary
//! artifact is read back on success. The state machine pins the order of the
//! cycle — sources written, toolchain invoked, outcome reached, workspace
//! torn down — including the diagnostic source dump on failure, whose own
//! outcome never masks the build failure. Everything that touches the file
//! system or spawns the toolchain stays with the caller; the plan and the
//! machine only decide.

use vstd::prelude::*;
use crate::codegen::{codegen, rust_source_text, c_source_text, Backend, Config};
use crate::error::CodegenError;
use crate::package::{decl_name, first_invalid_decl, package_valid, Package};

verus! {

/// One source file of a plan: a workspace-relative name and its contents.
#[derive(Debug)]
pub struct SourceFile {
    pub name: String,
    pub contents: String,
}

/// The toolchain invocation of a plan: a program and its arguments, file
/// names workspace-relative.
#[derive(Debug)]
pub struct ToolchainCommand {
    pub program: String,
    pub args: Vec<String>,
}

/// A build-verification plan: the files to write into a fresh workspace,
/// the command to run there, and the workspace-relative name of the binary
/// artifact to read back on success, for backends that produce one.
#[derive(Debug)]
pub struct BuildPlan {
    pub files: Vec<SourceFile>,
    pub command: ToolchainCommand,
    pub artifact: Option<String>,
}

/// The fixed driver of the sandboxed-module backend: includes the generated
/// module and defines a minimal entry point.
pub open spec fn wasm_driver_text() -> Seq<char> {
    "#[allow(unused)]\nmod idl;\n\nfn main() {\n}\n"@
}

/// The fixed driver of the sandboxed-module backend, as a value.
pub fn wasm_driver_source() -> (r: String)
    ensures
        r@ == wasm_driver_text(),
{
    String::from_str("#[allow(unused)]\nmod idl;\n\nfn main() {\n}\n")
}

/// What a correct plan for a backend and a package's declarations holds.
pub open spec fn plan_ok(p: BuildPlan, b: Backend, ds: Seq<crate::package::Decl>) -> bool {
    match b {
        Backend::NativeHostTest => {
            &&& p.files@.len() == 1
            &&& p.files@[0].name@ == "lib.rs"@
            &&& p.files@[0].contents@ == rust_source_text(ds)
            &&& p.command.program@ == "rustc"@
            &&& p.command.args.deep_view() =~= seq![
                "+stable"@,
                "lib.rs"@,
                "--allow=dead_code"@,
                "--test"@,
                "-o"@,
                "example"@,
            ]
            &&& p.artifact is None
        },
        Backend::WasmGuestTest => {
            &&& p.files@.len() == 2
            &&& p.files@[0].name@ == "main.rs"@
            &&& p.files@[0].contents@ == wasm_driver_text()
            &&& p.files@[1].name@ == "idl.rs"@
            &&& p.files@[1].contents@ == rust_source_text(ds)
            &&& p.command.program@ == "rustc"@
            &&& p.command.args.deep_view() =~= seq![
                "+nightly"@,
                "main.rs"@,
                "--target=wasm32-wasi"@,
                "--test"@,
                "-o"@,
                "example.wasm"@,
            ]
            &&& p.artifact matches Some(a) && a@ == "example.wasm"@
        },
        Backend::CSourceGuest => {
            &&& p.files@.len() == 1
            &&& p.files@[0].name@ == "example.c"@
            &&& p.files@[0].contents@ == c_source_text(ds)
            &&& p.command.program@ == "cc"@
            &&& p.command.args.deep_view() =~= seq![
                "--std=c99"@,
                "-c"@,
                "example.c"@,
                "-o"@,
                "example.o"@,
            ]
            &&& p.artifact is None
        },
    }
}

/// Only the sandboxed-module backend yields a binary artifact; the other
/// backends' pass signal is successful compilation alone.
pub proof fn lemma_artifact_only_for_wasm(p: BuildPlan, b: Backend, ds: Seq<crate::package::Decl>)
    requires
        plan_ok(p, b, ds),
    ensures
        p.artifact is Some <==> b is WasmGuestTest,
{
}

/// Assembles the plan for one backend and package: the generated source under
/// its fixed file name, the matching toolchain invocation, and the artifact
/// name where the backend produces one. Fails exactly on a malformed
/// package, naming the first offending declaration.
pub fn build_plan(package: &Package, backend: Backend) -> (r: Result<BuildPlan, CodegenError>)
    ensures
        r is Ok <==> package_valid(*package),
        r matches Ok(p) ==> plan_ok(p, backend, package.decls@),
        !package_valid(*package) ==> (r matches Err(CodegenError::InvalidName(v)) && v@
            == decl_name(package.decls@[first_invalid_decl(package.decls@)])),
{
    let config = Config { backend };
    let generated = match codegen(package, &config) {
        Ok(s) => s,
        Err(e) => {
            return Err(e);
        },
    };
    match backend {
        Backend::NativeHostTest => {
            let mut files: Vec<SourceFile> = Vec::new();
            files.push(SourceFile { name: String::from_str("lib.rs"), contents: generated });
            let mut args: Vec<String> = Vec::new();
            args.push(String::from_str("+stable"));
            args.push(String::from_str("lib.rs"));
            args.push(String::from_str("--allow=dead_code"));
            args.push(String::from_str("--test"));
            args.push(String::from_str("-o"));
            args.push(String::from_str("example"));
            Ok(
                BuildPlan {
                    files,
                    command: ToolchainCommand { program: String::from_str("rustc"), args },
                    artifact: None,
                },
            )
        },
        Backend::WasmGuestTest => {
            let mut files: Vec<SourceFile> = Vec::new();
            files.push(
                SourceFile { name: String::from_str("main.rs"), contents: wasm_driver_source() },
            );
            files.push(SourceFile { name: String::from_str("idl.rs"), contents: generated });
            let mut args: Vec<String> = Vec::new();
            args.push(String::from_str("+nightly"));
            args.push(String::from_str("main.rs"));
            args.push(String::from_str("--target=wasm32-wasi"));
            args.push(String::from_str("--test"));
            args.push(String::from_str("-o"));
            args.push(String::from_str("example.wasm"));
            Ok(
                BuildPlan {
                    files,
                    command: ToolchainCommand { program: String::from_str("rustc"), args },
                    artifact: Some(String::from_str("example.wasm")),
                },
            )
        },
        Backend::CSourceGuest => {
            let mut files: Vec<SourceFile> = Vec::new();
            files.push(SourceFile { name: String::from_str("example.c"), contents: generated });
            let mut args: Vec<String> = Vec::new();
            args.push(String::from_str("--std=c99"));
            args.push(String::from_str("-c"));
            args.push(String::from_str("example.c"));
            args.push(String::from_str("-o"));
            args.push(String::from_str("example.o"));
            Ok(
                BuildPlan {
                    files,
                    command: ToolchainCommand { program: String::from_str("cc"), args },
                    artifact: None,
                },
            )
        },
    }
}

/// The state of one pipeline invocation. Terminal outcomes are `Succeeded`
/// and `Failed`; `TornDown` always follows, whatever the outcome.
#[derive(Debug, Clone, Copy, PartialEq, Eq, Structural)]
pub enum PipelineState {
    /// The workspace exists and is empty.
    Created,
    /// The plan's sources are materialized in the workspace.
    SourceWritten,
    /// The toolchain ran; the flag records whether its exit was clean.
    ToolchainInvoked(bool),
    /// The build passed, and any artifact was captured.
    Succeeded,
    /// The build failed; the diagnostic dump was attempted.
    Failed,
    /// The workspace and all its contents are released.
    TornDown,
}

/// What the caller reports back to the machine.
#[derive(Debug, Clone, Copy, PartialEq, Eq, Structural)]
pub enum PipelineEvent {
    /// The plan's files are written.
    SourcesWritten,
    /// The toolchain exited; the flag says whether cleanly.
    ToolchainExited(bool),
    /// The artifact, if the plan names one, was read back.
    OutputsCaptured,
    /// The diagnostic source dump ran; the flag says whether it succeeded.
    DumpAttempted(bool),
    /// The workspace was released.
    WorkspaceReleased,
}

/// What the caller must do next.
#[derive(Debug, Clone, Copy, PartialEq, Eq, Structural)]
pub enum PipelineAction {
    /// Write the plan's files into the workspace.
    WriteSources,
    /// Run the plan's command in the workspace.
    InvokeToolchain,
    /// Read back the artifact the plan names, if any.
    CaptureOutputs,
    /// Dump the generated source to the diagnostic side channel,
    /// best-effort.
    DumpSources,
    /// Release the workspace and everything in it.
    Release,
}

/// The transition table of one invocation. `None` marks an event the state
/// does not admit.
pub open spec fn spec_step(s: PipelineState, e: PipelineEvent) -> Option<
    (PipelineState, Option<PipelineAction>),
> {
    match (s, e) {
        (PipelineState::Created, PipelineEvent::SourcesWritten) => Some(
            (PipelineState::SourceWritten, Some(PipelineAction::InvokeToolchain)),
        ),
        (PipelineState::SourceWritten, PipelineEvent::ToolchainExited(ok)) => Some(
            (
                PipelineState::ToolchainInvoked(ok),
                Some(
                    if ok {
                        PipelineAction::CaptureOutputs
                    } else {
                        PipelineAction::DumpSources
                    },
                ),
            ),
        ),
        (PipelineState::ToolchainInvoked(true), PipelineEvent::OutputsCaptured) => Some(
            (PipelineState::Succeeded, Some(PipelineAction::Release)),
        ),
        (PipelineState::ToolchainInvoked(false), PipelineEvent::DumpAttempted(_)) => Some(
            (PipelineState::Failed, Some(PipelineAction::Release)),
        ),
        (PipelineState::Succeeded, PipelineEvent::WorkspaceReleased) => Some(
            (PipelineState::TornDown, None),
        ),
        (PipelineState::Failed, PipelineEvent::WorkspaceReleased) => Some(
            (PipelineState::TornDown, None),
        ),
        _ => None,
    }
}

/// The starting point of an invocation: a fresh workspace, whose sources
/// are yet to be written.
pub fn initial_step() -> (r: (PipelineState, PipelineAction))
    ensures
        r.0 == PipelineState::Created,
        r.1 == PipelineAction::WriteSources,
{
    (PipelineState::Created, PipelineAction::WriteSources)
}

/// Advances the machine by one event, handing back the next state and the
/// action the caller must perform, per the transition table.
pub fn step(s: &PipelineState, e: &PipelineEvent) -> (r: Option<
    (PipelineState, Option<PipelineAction>),
>)
    ensures
        r == spec_step(*s, *e),
{
    match (s, e) {
        (PipelineState::Created, PipelineEvent::SourcesWritten) => Some(
            (PipelineState::SourceWritten, Some(PipelineAction::InvokeToolchain)),
        ),
        (PipelineState::SourceWritten, PipelineEvent::ToolchainExited(ok)) => Some(
            (
                PipelineState::ToolchainInvoked(*ok),
                Some(
                    if *ok {
                        PipelineAction::CaptureOutputs
                    } else {
                        PipelineAction::DumpSources
                    },
                ),
            ),
        ),
        (PipelineState::ToolchainInvoked(true), PipelineEvent::OutputsCaptured) => Some(
            (PipelineState::Succeeded, Some(PipelineAction::Release)),
        ),
        (PipelineState::ToolchainInvoked(false), PipelineEvent::DumpAttempted(_)) => Some(
            (PipelineState::Failed, Some(PipelineAction::Release)),
        ),
        (PipelineState::Succeeded, PipelineEvent::WorkspaceReleased) => Some(
            (PipelineState::TornDown, None),
        ),
        (PipelineState::Failed, PipelineEvent::WorkspaceReleased) => Some(
            (PipelineState::TornDown, None),
        ),
        _ => None,
    }
}

/// A failed build is reported as failed whether or not the diagnostic dump
/// itself succeeded: the dump is best-effort and never masks the outcome.
pub proof fn lemma_dump_never_masks_failure(dump_ok: bool)
    ensures
        spec_step(
            PipelineState::ToolchainInvoked(false),
            PipelineEvent::DumpAttempted(dump_ok),
        ) == Some((PipelineState::Failed, Some(PipelineAction::Release))),
{
}

/// The machine reaches `Succeeded` only after a clean toolchain exit and
/// `Failed` only after an unclean one; and once torn down, an invocation
/// admits no further event — a workspace is never reused.
pub proof fn lemma_outcomes(s: PipelineState, e: PipelineEvent)
    ensures
        spec_step(s, e) matches Some(n) && n.0 is Succeeded ==> s == PipelineState::ToolchainInvoked(
            true,
        ),
        spec_step(s, e) matches Some(n) && n.0 is Failed ==> s == PipelineState::ToolchainInvoked(
            false,
        ),
        s is TornDown ==> spec_step(s, e) is None,
        spec_step(s, e) matches Some(n) ==> !(n.0 is Created),
{
}

/// The path of a workspace-relative file name under a workspace root.
pub open spec fn joined_path(root: Seq<char>, name: Seq<char>) -> Seq<char> {
    root + "/"@ + name
}

/// `a` is a prefix of `b`.
pub open spec fn is_seq_prefix(a: Seq<char>, b: Seq<char>) -> bool {
    a.len() <= b.len() && a == b.subrange(0, a.len() as int)
}

/// Files of two invocations never collide: each invocation runs in its own
/// workspace, and when neither workspace root (as a directory prefix) lies
/// under the other, no file path of the one equals any file path of the
/// other — whatever the file names, including identical ones.
pub proof fn lemma_workspaces_isolate(
    root1: Seq<char>,
    root2: Seq<char>,
    name1: Seq<char>,
    name2: Seq<char>,
)
    requires
        !is_seq_prefix(root1 + "/"@, root2 + "/"@),
        !is_seq_prefix(root2 + "/"@, root1 + "/"@),
    ensures
        joined_path(root1, name1) != joined_path(root2, name2),
{
    let p1 = joined_path(root1, name1);
    let p2 = joined_path(root2, name2);
    let a1 = root1 + "/"@;
    let a2 = root2 + "/"@;
    if p1 == p2 {
        assert(a1 == p1.subrange(0, a1.len() as int)) by {
            assert(a1 =~= (a1 + name1).subrange(0, a1.len() as int));
        }
        assert(a2 == p2.subrange(0, a2.len() as int)) by {
            assert(a2 =~= (a2 + name2).subrange(0, a2.len() as int));
        }
        if a1.len() <= a2.len() {
            assert(a1 =~= a2.subrange(0, a1.len() as int));
            assert(is_seq_prefix(a1, a2));
        } else {
            assert(a2 =~= a1.subrange(0, a2.len() as int));
            assert(is_seq_prefix(a2, a1));
        }
    }
}

/// Joins a workspace root and a workspace-relative file name.
pub fn workspace_file_path(root: &str, name: &str) -> (r: String)
    ensures
        r@ == joined_path(root@, name@),
{
    let mut s = String::from_str(root);
    s.append("/");
    s.append(name);
    proof {
        assert(s@ =~= joined_path(root@, name@));
    }
    s
}

} // verus!
