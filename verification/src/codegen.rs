//! Backend source generation.
//!
//! Given a parsed package and a backend choice, emits complete,
//! self-contained source text: the declarations in their declared order,
//! each followed (for the test backends) by a function exercising it. The
//! emitted text assumes no headers or external declarations, so the
//! verification pipeline can treat it as the sole compilation unit.

use vstd::prelude::*;
use crate::error::CodegenError;
use crate::package::{
    check_decl, decl_name, decl_valid, first_invalid_decl, lemma_first_invalid_decl, package_valid,
    AtomType, Decl, MemberDecl, Package,
};

verus! {

/// The interface-codegen target kind used for build verification.
#[derive(Debug, Clone, Copy, PartialEq, Eq, Structural)]
pub enum Backend {
    /// A unit-test-style compilation unit for the build host itself.
    NativeHostTest,
    /// A module compiled to a sandboxed binary together with a fixed driver.
    WasmGuestTest,
    /// A single C translation unit at the fixed minimum language level.
    CSourceGuest,
}

/// The source-generation configuration: which backend to emit for.
#[derive(Debug, Clone, Copy, PartialEq, Eq, Structural)]
pub struct Config {
    pub backend: Backend,
}

/// The C spelling of a primitive type. Only types that need no header are
/// used, keeping the translation unit self-contained.
pub open spec fn c_atom_text(t: AtomType) -> Seq<char> {
    match t {
        AtomType::Bool => "_Bool"@,
        AtomType::U8 => "unsigned char"@,
        AtomType::U16 => "unsigned short"@,
        AtomType::U32 => "unsigned int"@,
        AtomType::U64 => "unsigned long long"@,
        AtomType::I8 => "signed char"@,
        AtomType::I16 => "short"@,
        AtomType::I32 => "int"@,
        AtomType::I64 => "long long"@,
    }
}

/// The Rust spelling of a primitive type.
pub open spec fn rust_atom_text(t: AtomType) -> Seq<char> {
    match t {
        AtomType::Bool => "bool"@,
        AtomType::U8 => "u8"@,
        AtomType::U16 => "u16"@,
        AtomType::U32 => "u32"@,
        AtomType::U64 => "u64"@,
        AtomType::I8 => "i8"@,
        AtomType::I16 => "i16"@,
        AtomType::I32 => "i32"@,
        AtomType::I64 => "i64"@,
    }
}

/// The Rust spelling of a primitive type's zero value.
pub open spec fn rust_zero_text(t: AtomType) -> Seq<char> {
    match t {
        AtomType::Bool => "false"@,
        _ => "0"@,
    }
}

/// One member line of a C structure.
pub open spec fn c_member_text(m: MemberDecl) -> Seq<char> {
    "    "@ + c_atom_text(m.ty) + " "@ + m.name@ + ";\n"@
}

/// The member lines of a C structure, in declared order.
pub open spec fn c_members_text(ms: Seq<MemberDecl>) -> Seq<char>
    decreases ms.len(),
{
    if ms.len() == 0 {
        Seq::empty()
    } else {
        c_members_text(ms.drop_last()) + c_member_text(ms.last())
    }
}

/// The C text of one declaration.
pub open spec fn c_decl_text(d: Decl) -> Seq<char> {
    match d {
        Decl::Alias(a) => "typedef "@ + c_atom_text(a.target) + " "@ + a.name@ + ";\n"@,
        Decl::Struct(s) => "struct "@ + s.name@ + " {\n"@ + c_members_text(s.members@) + "};\n"@,
    }
}

/// The whole C translation unit: the declarations in declared order.
pub open spec fn c_source_text(ds: Seq<Decl>) -> Seq<char>
    decreases ds.len(),
{
    if ds.len() == 0 {
        Seq::empty()
    } else {
        c_source_text(ds.drop_last()) + c_decl_text(ds.last())
    }
}

/// One member line of a Rust structure.
pub open spec fn rust_member_text(m: MemberDecl) -> Seq<char> {
    "    pub "@ + m.name@ + ": "@ + rust_atom_text(m.ty) + ",\n"@
}

/// The member lines of a Rust structure, in declared order.
pub open spec fn rust_members_text(ms: Seq<MemberDecl>) -> Seq<char>
    decreases ms.len(),
{
    if ms.len() == 0 {
        Seq::empty()
    } else {
        rust_members_text(ms.drop_last()) + rust_member_text(ms.last())
    }
}

/// One member initializer line of a Rust constructor function.
pub open spec fn rust_init_text(m: MemberDecl) -> Seq<char> {
    "        "@ + m.name@ + ": "@ + rust_zero_text(m.ty) + ",\n"@
}

/// The member initializer lines, in declared order.
pub open spec fn rust_inits_text(ms: Seq<MemberDecl>) -> Seq<char>
    decreases ms.len(),
{
    if ms.len() == 0 {
        Seq::empty()
    } else {
        rust_inits_text(ms.drop_last()) + rust_init_text(ms.last())
    }
}

/// The Rust text of one declaration: the definition, then a function
/// constructing a value of it, so the unit exercises what it declares.
pub open spec fn rust_decl_text(d: Decl) -> Seq<char> {
    match d {
        Decl::Alias(a) => "pub type "@ + a.name@ + " = "@ + rust_atom_text(a.target) + ";\n"@
            + "pub fn make_"@ + a.name@ + "() -> "@ + a.name@ + " {\n    "@ + rust_zero_text(
            a.target,
        ) + "\n}\n"@,
        Decl::Struct(s) => "pub struct "@ + s.name@ + " {\n"@ + rust_members_text(s.members@)
            + "}\n"@ + "pub fn make_"@ + s.name@ + "() -> "@ + s.name@ + " {\n    "@ + s.name@
            + " {\n"@ + rust_inits_text(s.members@) + "    }\n}\n"@,
    }
}

/// The whole Rust compilation unit: the declarations in declared order.
pub open spec fn rust_source_text(ds: Seq<Decl>) -> Seq<char>
    decreases ds.len(),
{
    if ds.len() == 0 {
        Seq::empty()
    } else {
        rust_source_text(ds.drop_last()) + rust_decl_text(ds.last())
    }
}

/// The source text a backend emits for a package's declarations.
pub open spec fn source_text(b: Backend, ds: Seq<Decl>) -> Seq<char> {
    match b {
        Backend::CSourceGuest => c_source_text(ds),
        _ => rust_source_text(ds),
    }
}

/// The C spelling of a primitive type, as a value.
fn c_atom_name(t: AtomType) -> (r: &'static str)
    ensures
        r@ == c_atom_text(t),
{
    match t {
        AtomType::Bool => "_Bool",
        AtomType::U8 => "unsigned char",
        AtomType::U16 => "unsigned short",
        AtomType::U32 => "unsigned int",
        AtomType::U64 => "unsigned long long",
        AtomType::I8 => "signed char",
        AtomType::I16 => "short",
        AtomType::I32 => "int",
        AtomType::I64 => "long long",
    }
}

/// The Rust spelling of a primitive type, as a value.
fn rust_atom_name(t: AtomType) -> (r: &'static str)
    ensures
        r@ == rust_atom_text(t),
{
    match t {
        AtomType::Bool => "bool",
        AtomType::U8 => "u8",
        AtomType::U16 => "u16",
        AtomType::U32 => "u32",
        AtomType::U64 => "u64",
        AtomType::I8 => "i8",
        AtomType::I16 => "i16",
        AtomType::I32 => "i32",
        AtomType::I64 => "i64",
    }
}

/// The Rust spelling of a primitive type's zero value, as a value.
fn rust_zero_name(t: AtomType) -> (r: &'static str)
    ensures
        r@ == rust_zero_text(t),
{
    match t {
        AtomType::Bool => "false",
        _ => "0",
    }
}

/// Appends the C text of one declaration.
fn emit_c_decl(out: &mut String, d: &Decl)
    ensures
        final(out)@ == old(out)@ + c_decl_text(*d),
{
    let ghost orig: Seq<char> = out@;
    match d {
        Decl::Alias(a) => {
            out.append("typedef ");
            out.append(c_atom_name(a.target));
            out.append(" ");
            out.append(a.name.as_str());
            out.append(";\n");
            proof {
                assert(out@ =~= orig + c_decl_text(*d));
            }
        },
        Decl::Struct(s) => {
            out.append("struct ");
            out.append(s.name.as_str());
            out.append(" {\n");
            let ghost base: Seq<char> = out@;
            let mut i: usize = 0;
            while i < s.members.len()
                invariant
                    0 <= i <= s.members@.len(),
                    out@ == base + c_members_text(s.members@.subrange(0, i as int)),
                decreases s.members@.len() - i,
            {
                out.append("    ");
                out.append(c_atom_name(s.members[i].ty));
                out.append(" ");
                out.append(s.members[i].name.as_str());
                out.append(";\n");
                proof {
                    assert(s.members@.subrange(0, i + 1).drop_last() =~= s.members@.subrange(
                        0,
                        i as int,
                    ));
                    assert(out@ =~= base + c_members_text(s.members@.subrange(0, i + 1)));
                }
                i = i + 1;
            }
            out.append("};\n");
            proof {
                assert(s.members@.subrange(0, s.members@.len() as int) =~= s.members@);
                assert(out@ =~= orig + c_decl_text(*d));
            }
        },
    }
}

/// Appends the Rust text of one declaration.
fn emit_rust_decl(out: &mut String, d: &Decl)
    ensures
        final(out)@ == old(out)@ + rust_decl_text(*d),
{
    let ghost orig: Seq<char> = out@;
    match d {
        Decl::Alias(a) => {
            out.append("pub type ");
            out.append(a.name.as_str());
            out.append(" = ");
            out.append(rust_atom_name(a.target));
            out.append(";\n");
            out.append("pub fn make_");
            out.append(a.name.as_str());
            out.append("() -> ");
            out.append(a.name.as_str());
            out.append(" {\n    ");
            out.append(rust_zero_name(a.target));
            out.append("\n}\n");
            proof {
                assert(out@ =~= orig + rust_decl_text(*d));
            }
        },
        Decl::Struct(s) => {
            out.append("pub struct ");
            out.append(s.name.as_str());
            out.append(" {\n");
            let ghost base: Seq<char> = out@;
            let mut i: usize = 0;
            while i < s.members.len()
                invariant
                    0 <= i <= s.members@.len(),
                    out@ == base + rust_members_text(s.members@.subrange(0, i as int)),
                decreases s.members@.len() - i,
            {
                out.append("    pub ");
                out.append(s.members[i].name.as_str());
                out.append(": ");
                out.append(rust_atom_name(s.members[i].ty));
                out.append(",\n");
                proof {
                    assert(s.members@.subrange(0, i + 1).drop_last() =~= s.members@.subrange(
                        0,
                        i as int,
                    ));
                    assert(out@ =~= base + rust_members_text(s.members@.subrange(0, i + 1)));
                }
                i = i + 1;
            }
            out.append("}\n");
            out.append("pub fn make_");
            out.append(s.name.as_str());
            out.append("() -> ");
            out.append(s.name.as_str());
            out.append(" {\n    ");
            out.append(s.name.as_str());
            out.append(" {\n");
            let ghost base2: Seq<char> = out@;
            let mut i: usize = 0;
            while i < s.members.len()
                invariant
                    0 <= i <= s.members@.len(),
                    out@ == base2 + rust_inits_text(s.members@.subrange(0, i as int)),
                decreases s.members@.len() - i,
            {
                out.append("        ");
                out.append(s.members[i].name.as_str());
                out.append(": ");
                out.append(rust_zero_name(s.members[i].ty));
                out.append(",\n");
                proof {
                    assert(s.members@.subrange(0, i + 1).drop_last() =~= s.members@.subrange(
                        0,
                        i as int,
                    ));
                    assert(out@ =~= base2 + rust_inits_text(s.members@.subrange(0, i + 1)));
                }
                i = i + 1;
            }
            out.append("    }\n}\n");
            proof {
                assert(s.members@.subrange(0, s.members@.len() as int) =~= s.members@);
                assert(out@ =~= orig + rust_decl_text(*d));
            }
        },
    }
}

/// The name a declaration introduces, as a value.
fn decl_name_string(d: &Decl) -> (r: String)
    ensures
        r@ == decl_name(*d),
{
    match d {
        Decl::Alias(a) => a.name.clone(),
        Decl::Struct(s) => s.name.clone(),
    }
}

/// Generates the backend's source text for a package.
///
/// Consumes the package's declarations exactly once, in declared order.
/// Succeeds exactly when every declaration is well formed; a malformed
/// package is an error naming the first offending declaration.
pub fn codegen(package: &Package, config: &Config) -> (r: Result<String, CodegenError>)
    ensures
        r is Ok <==> package_valid(*package),
        r matches Ok(s) ==> s@ == source_text(config.backend, package.decls@),
        !package_valid(*package) ==> (r matches Err(CodegenError::InvalidName(v)) && v@
            == decl_name(package.decls@[first_invalid_decl(package.decls@)])),
{
    let ghost ds = package.decls@;
    let mut i: usize = 0;
    while i < package.decls.len()
        invariant
            0 <= i <= ds.len(),
            ds == package.decls@,
            forall|j: int| 0 <= j < i ==> decl_valid(#[trigger] ds[j]),
        decreases ds.len() - i,
    {
        if !check_decl(&package.decls[i]) {
            proof {
                lemma_first_invalid_decl(ds, i as int);
            }
            return Err(CodegenError::InvalidName(decl_name_string(&package.decls[i])));
        }
        i = i + 1;
    }

    let mut out = String::new();
    let c_backend = match config.backend {
        Backend::CSourceGuest => true,
        _ => false,
    };
    let mut i: usize = 0;
    while i < package.decls.len()
        invariant
            0 <= i <= ds.len(),
            ds == package.decls@,
            c_backend == (config.backend matches Backend::CSourceGuest),
            c_backend ==> out@ == c_source_text(ds.subrange(0, i as int)),
            !c_backend ==> out@ == rust_source_text(ds.subrange(0, i as int)),
        decreases ds.len() - i,
    {
        if c_backend {
            emit_c_decl(&mut out, &package.decls[i]);
        } else {
            emit_rust_decl(&mut out, &package.decls[i]);
        }
        proof {
            assert(ds.subrange(0, i + 1).drop_last() =~= ds.subrange(0, i as int));
        }
        i = i + 1;
    }
    proof {
        assert(ds.subrange(0, ds.len() as int) =~= ds);
    }
    Ok(out)
}

} // verus!
