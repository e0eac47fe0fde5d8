use lucet_core::codegen::{codegen, Backend, Config};
use lucet_core::error::CodegenError;
use lucet_core::package::{AliasDecl, AtomType, Decl, MemberDecl, Package, StructDecl};
use lucet_core::pipeline::{
    build_plan, initial_step, step, wasm_driver_source, workspace_file_path, PipelineAction,
    PipelineEvent, PipelineState,
};

fn minimal_package() -> Package {
    Package {
        decls: vec![
            Decl::Struct(StructDecl {
                name: "point".to_string(),
                members: vec![
                    MemberDecl { name: "x".to_string(), ty: AtomType::U32 },
                    MemberDecl { name: "y".to_string(), ty: AtomType::U32 },
                ],
            }),
            Decl::Alias(AliasDecl { name: "id".to_string(), target: AtomType::U64 }),
        ],
    }
}

fn malformed_package() -> Package {
    Package {
        decls: vec![Decl::Alias(AliasDecl { name: "not a name".to_string(), target: AtomType::U8 })],
    }
}

#[test]
fn c_codegen_minimal_package() {
    let src = codegen(&minimal_package(), &Config { backend: Backend::CSourceGuest }).unwrap();
    assert_eq!(
        src,
        "struct point {\n    unsigned int x;\n    unsigned int y;\n};\n\
         typedef unsigned long long id;\n"
    );
}

#[test]
fn rust_codegen_minimal_package() {
    let src = codegen(&minimal_package(), &Config { backend: Backend::NativeHostTest }).unwrap();
    assert_eq!(
        src,
        "pub struct point {\n    pub x: u32,\n    pub y: u32,\n}\n\
         pub fn make_point() -> point {\n    point {\n        x: 0,\n        y: 0,\n    }\n}\n\
         pub type id = u64;\npub fn make_id() -> id {\n    0\n}\n"
    );
    let guest = codegen(&minimal_package(), &Config { backend: Backend::WasmGuestTest }).unwrap();
    assert_eq!(guest, src);
}

#[test]
fn codegen_keeps_declared_order() {
    let mut p = minimal_package();
    p.decls.reverse();
    let src = codegen(&p, &Config { backend: Backend::CSourceGuest }).unwrap();
    assert_eq!(
        src,
        "typedef unsigned long long id;\n\
         struct point {\n    unsigned int x;\n    unsigned int y;\n};\n"
    );
}

#[test]
fn codegen_names_the_offending_declaration() {
    let e = codegen(&malformed_package(), &Config { backend: Backend::CSourceGuest }).unwrap_err();
    match &e {
        CodegenError::InvalidName(v) => assert_eq!(v, "not a name"),
    }
    assert_eq!(e.message(), "malformed declaration: not a name");
}

#[test]
fn empty_struct_is_emitted_for_the_toolchain_to_reject() {
    // An empty structure is well formed for codegen; the C toolchain is the
    // one to reject the emitted translation unit.
    let p = Package {
        decls: vec![Decl::Struct(StructDecl { name: "empty".to_string(), members: vec![] })],
    };
    let src = codegen(&p, &Config { backend: Backend::CSourceGuest }).unwrap();
    assert_eq!(src, "struct empty {\n};\n");
}

#[test]
fn native_host_plan() {
    let plan = build_plan(&minimal_package(), Backend::NativeHostTest).unwrap();
    assert_eq!(plan.files.len(), 1);
    assert_eq!(plan.files[0].name, "lib.rs");
    assert_eq!(plan.command.program, "rustc");
    assert_eq!(
        plan.command.args,
        vec!["+stable", "lib.rs", "--allow=dead_code", "--test", "-o", "example"]
    );
    assert!(plan.artifact.is_none());
}

#[test]
fn wasm_guest_plan_names_an_artifact() {
    let plan = build_plan(&minimal_package(), Backend::WasmGuestTest).unwrap();
    assert_eq!(plan.files.len(), 2);
    assert_eq!(plan.files[0].name, "main.rs");
    assert_eq!(plan.files[0].contents, wasm_driver_source());
    assert_eq!(plan.files[1].name, "idl.rs");
    assert_eq!(plan.command.program, "rustc");
    assert_eq!(
        plan.command.args,
        vec!["+nightly", "main.rs", "--target=wasm32-wasi", "--test", "-o", "example.wasm"]
    );
    assert_eq!(plan.artifact.as_deref(), Some("example.wasm"));
}

#[test]
fn c_source_plan() {
    let plan = build_plan(&minimal_package(), Backend::CSourceGuest).unwrap();
    assert_eq!(plan.files.len(), 1);
    assert_eq!(plan.files[0].name, "example.c");
    assert_eq!(plan.command.program, "cc");
    assert_eq!(plan.command.args, vec!["--std=c99", "-c", "example.c", "-o", "example.o"]);
    assert!(plan.artifact.is_none());
}

#[test]
fn build_plan_rejects_malformed_package() {
    let e = build_plan(&malformed_package(), Backend::CSourceGuest).unwrap_err();
    assert!(matches!(e, CodegenError::InvalidName(_)));
}

#[test]
fn pipeline_success_path() {
    let (s0, a0) = initial_step();
    assert_eq!(s0, PipelineState::Created);
    assert_eq!(a0, PipelineAction::WriteSources);

    let (s1, a1) = step(&s0, &PipelineEvent::SourcesWritten).unwrap();
    assert_eq!(s1, PipelineState::SourceWritten);
    assert_eq!(a1, Some(PipelineAction::InvokeToolchain));

    let (s2, a2) = step(&s1, &PipelineEvent::ToolchainExited(true)).unwrap();
    assert_eq!(s2, PipelineState::ToolchainInvoked(true));
    assert_eq!(a2, Some(PipelineAction::CaptureOutputs));

    let (s3, a3) = step(&s2, &PipelineEvent::OutputsCaptured).unwrap();
    assert_eq!(s3, PipelineState::Succeeded);
    assert_eq!(a3, Some(PipelineAction::Release));

    let (s4, a4) = step(&s3, &PipelineEvent::WorkspaceReleased).unwrap();
    assert_eq!(s4, PipelineState::TornDown);
    assert_eq!(a4, None);
}

#[test]
fn pipeline_failure_path_dumps_then_fails() {
    let (s1, _) = step(&PipelineState::Created, &PipelineEvent::SourcesWritten).unwrap();
    let (s2, a2) = step(&s1, &PipelineEvent::ToolchainExited(false)).unwrap();
    assert_eq!(s2, PipelineState::ToolchainInvoked(false));
    assert_eq!(a2, Some(PipelineAction::DumpSources));

    // The dump itself failing does not mask the build failure.
    let (s3, a3) = step(&s2, &PipelineEvent::DumpAttempted(false)).unwrap();
    assert_eq!(s3, PipelineState::Failed);
    assert_eq!(a3, Some(PipelineAction::Release));

    // Nor does a clean dump change the outcome.
    let (s3b, _) = step(&s2, &PipelineEvent::DumpAttempted(true)).unwrap();
    assert_eq!(s3b, PipelineState::Failed);

    let (s4, _) = step(&s3, &PipelineEvent::WorkspaceReleased).unwrap();
    assert_eq!(s4, PipelineState::TornDown);
}

#[test]
fn pipeline_rejects_out_of_order_events() {
    assert!(step(&PipelineState::Created, &PipelineEvent::ToolchainExited(true)).is_none());
    assert!(step(&PipelineState::ToolchainInvoked(true), &PipelineEvent::DumpAttempted(true))
        .is_none());
    assert!(step(&PipelineState::ToolchainInvoked(false), &PipelineEvent::OutputsCaptured)
        .is_none());
    assert!(step(&PipelineState::TornDown, &PipelineEvent::SourcesWritten).is_none());
}

#[test]
fn workspace_paths_stay_apart() {
    // Identically named files of two invocations live under their own roots.
    let p1 = workspace_file_path("/tmp/ws-one", "example.c");
    let p2 = workspace_file_path("/tmp/ws-two", "example.c");
    assert_eq!(p1, "/tmp/ws-one/example.c");
    assert_eq!(p2, "/tmp/ws-two/example.c");
    assert_ne!(p1, p2);
}
