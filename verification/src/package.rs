//! The parsed interface description consumed by source generation.
//!
//! A package is an ordered sequence of declarations: primitive type aliases
//! and structures of primitive members. Producing one is an external
//! concern; this module only defines the shape and what makes a declaration
//! well formed.

use vstd::prelude::*;
use crate::strutil::is_ident;

verus! {

/// A primitive member type of the interface description.
#[derive(Debug, Clone, Copy, PartialEq, Eq, Structural)]
pub enum AtomType {
    Bool,
    U8,
    U16,
    U32,
    U64,
    I8,
    I16,
    I32,
    I64,
}

/// A type alias declaration: a new name for a primitive type.
#[derive(Debug)]
pub struct AliasDecl {
    pub name: String,
    pub target: AtomType,
}

/// One member of a structure declaration.
#[derive(Debug)]
pub struct MemberDecl {
    pub name: String,
    pub ty: AtomType,
}

/// A structure declaration: a named record of primitive members.
#[derive(Debug)]
pub struct StructDecl {
    pub name: String,
    pub members: Vec<MemberDecl>,
}

/// One declaration of a package, in declared order.
#[derive(Debug)]
pub enum Decl {
    Alias(AliasDecl),
    Struct(StructDecl),
}

/// A parsed interface description: its declarations, in declared order.
#[derive(Debug)]
pub struct Package {
    pub decls: Vec<Decl>,
}

/// The name a declaration introduces.
pub open spec fn decl_name(d: Decl) -> Seq<char> {
    match d {
        Decl::Alias(a) => a.name@,
        Decl::Struct(s) => s.name@,
    }
}

/// A declaration is well formed when its name, and every member name, is a
/// valid identifier. An empty structure is well formed here; whether the
/// target language accepts one is the toolchain's decision.
pub open spec fn decl_valid(d: Decl) -> bool {
    match d {
        Decl::Alias(a) => is_ident(a.name@),
        Decl::Struct(s) => is_ident(s.name@) && forall|i: int|
            0 <= i < s.members@.len() ==> is_ident((#[trigger] s.members@[i]).name@),
    }
}

/// Every declaration of the package is well formed.
pub open spec fn package_valid(p: Package) -> bool {
    forall|i: int| 0 <= i < p.decls@.len() ==> decl_valid(#[trigger] p.decls@[i])
}

/// The index of the first declaration that is not well formed.
pub open spec fn first_invalid_decl(ds: Seq<Decl>) -> int
    decreases ds.len(),
{
    if ds.len() == 0 {
        0
    } else if !decl_valid(ds.first()) {
        0
    } else {
        1 + first_invalid_decl(ds.drop_first())
    }
}

pub proof fn lemma_first_invalid_decl(ds: Seq<Decl>, i: int)
    requires
        0 <= i < ds.len(),
        forall|j: int| 0 <= j < i ==> decl_valid(#[trigger] ds[j]),
        !decl_valid(ds[i]),
    ensures
        first_invalid_decl(ds) == i,
    decreases i,
{
    if i > 0 {
        assert(ds.drop_first()[i - 1] == ds[i]);
        assert(forall|j: int| 0 <= j < i - 1 ==> #[trigger] ds.drop_first()[j] == ds[j + 1]);
        lemma_first_invalid_decl(ds.drop_first(), i - 1);
    }
}

/// Decides well-formedness of one declaration.
pub fn check_decl(d: &Decl) -> (r: bool)
    ensures
        r == decl_valid(*d),
{
    match d {
        Decl::Alias(a) => crate::strutil::check_ident(a.name.as_str()),
        Decl::Struct(s) => {
            if !crate::strutil::check_ident(s.name.as_str()) {
                return false;
            }
            let mut i: usize = 0;
            while i < s.members.len()
                invariant
                    0 <= i <= s.members@.len(),
                    *d matches Decl::Struct(sd) && sd == *s,
                    is_ident(s.name@),
                    forall|j: int| 0 <= j < i ==> is_ident((#[trigger] s.members@[j]).name@),
                decreases s.members@.len() - i,
            {
                if !crate::strutil::check_ident(s.members[i].name.as_str()) {
                    return false;
                }
                i = i + 1;
            }
            true
        },
    }
}

} // verus!
