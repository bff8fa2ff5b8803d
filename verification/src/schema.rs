//! The schema as the translator hands it over, and what the generators read of it.
//!
//! The declarations arrive in the types of `planus_types`, held in maps of `indexmap`.
//! Nothing inside those values is visible to the proofs: each reader below states what it
//! hands out, over a name for what the value holds.

use crate::text::string_texts;
use indexmap::IndexMap;
use planus_types::ast::IntegerType;
use planus_types::intermediate::{AbsolutePath, DeclarationKind, UnionVariant};
use vstd::prelude::*;

verus! {

/// `indexmap::IndexMap`, an insertion-ordered map.
#[verifier::external_type_specification]
#[verifier::external_body]
#[verifier::reject_recursive_types(K)]
#[verifier::reject_recursive_types(V)]
#[verifier::reject_recursive_types(S)]
pub struct ExIndexMap<K, V, S>(IndexMap<K, V, S>);

/// `planus_types::intermediate::UnionVariant`, carried through as it is.
#[verifier::external_type_specification]
#[verifier::external_body]
pub struct ExUnionVariant(UnionVariant);

/// `planus_types::intermediate::AbsolutePath`, the dotted path of a declaration.
#[verifier::external_type_specification]
#[verifier::external_body]
pub struct ExAbsolutePath(AbsolutePath);

/// `planus_types::intermediate::DeclarationKind`, the kind of a declaration with its body.
#[verifier::external_type_specification]
#[verifier::external_body]
pub struct ExDeclarationKind(DeclarationKind);

/// `planus_types::ast::IntegerType`, the width and signedness of an integer.
#[verifier::external_type_specification]
#[verifier::external_body]
pub struct ExIntegerType(IntegerType);

/// The kinds of declaration that a schema can hold.
#[derive(Clone, Copy, Debug, PartialEq, Eq, Structural)]
pub enum Kind {
    Table,
    Struct,
    Enum,
    Union,
    RpcService,
}

/// The fixed-width integers of the wire format.
#[derive(Clone, Copy, Debug, PartialEq, Eq, Structural)]
pub enum IntKind {
    U8,
    U16,
    U32,
    U64,
    I8,
    I16,
    I32,
    I64,
}

/// The keys of a union body, that is its variant names, in the map's order.
pub uninterp spec fn variant_names(variants: IndexMap<String, UnionVariant>) -> Seq<Seq<char>>;

/// The segments of a path, outermost namespace first.
pub uninterp spec fn path_segments(path: AbsolutePath) -> Seq<Seq<char>>;

/// The kind that a declaration's body belongs to.
pub uninterp spec fn declaration_kind(kind: DeclarationKind) -> Kind;

/// The integer that an integer type stands for.
pub uninterp spec fn integer_kind(int_type: IntegerType) -> IntKind;

/// `IndexMap::len`: the number of key-value pairs in the map.
#[verifier::external_body]
pub(crate) fn variant_count(variants: &IndexMap<String, UnionVariant>) -> (count: usize)
    ensures
        count == variant_names(*variants).len(),
{
    variants.len()
}

/// `IndexMap::get_index`: the key of the pair at position `index` of the map's order; valid
/// positions are those below the map's length.
#[verifier::external_body]
pub(crate) fn variant_name(variants: &IndexMap<String, UnionVariant>, index: usize) -> (name: &str)
    requires
        index < variant_names(*variants).len(),
    ensures
        name@ == variant_names(*variants)[index as int],
{
    variants.get_index(index).unwrap().0.as_str()
}

/// The one field of `AbsolutePath`: the segments of the path.
#[verifier::external_body]
pub(crate) fn segments(path: &AbsolutePath) -> (segments: &Vec<String>)
    ensures
        string_texts(segments@) == path_segments(*path),
{
    &path.0
}

/// Tells the variants of `DeclarationKind` apart.
#[verifier::external_body]
pub(crate) fn kind_of(kind: &DeclarationKind) -> (tag: Kind)
    ensures
        tag == declaration_kind(*kind),
{
    match kind {
        DeclarationKind::Table(_) => Kind::Table,
        DeclarationKind::Struct(_) => Kind::Struct,
        DeclarationKind::Enum(_) => Kind::Enum,
        DeclarationKind::Union(_) => Kind::Union,
        DeclarationKind::RpcService(_) => Kind::RpcService,
    }
}

/// Tells the variants of `IntegerType` apart.
#[verifier::external_body]
pub(crate) fn int_kind_of(int_type: &IntegerType) -> (tag: IntKind)
    ensures
        tag == integer_kind(*int_type),
{
    match int_type {
        IntegerType::U8 => IntKind::U8,
        IntegerType::U16 => IntKind::U16,
        IntegerType::U32 => IntKind::U32,
        IntegerType::U64 => IntKind::U64,
        IntegerType::I8 => IntKind::I8,
        IntegerType::I16 => IntKind::I16,
        IntegerType::I32 => IntKind::I32,
        IntegerType::I64 => IntKind::I64,
    }
}

/// The name of the integer `kind` in generated source.
pub open spec fn int_kind_name(kind: IntKind) -> Seq<char> {
    match kind {
        IntKind::U8 => "u8"@,
        IntKind::U16 => "u16"@,
        IntKind::U32 => "u32"@,
        IntKind::U64 => "u64"@,
        IntKind::I8 => "i8"@,
        IntKind::I16 => "i16"@,
        IntKind::I32 => "i32"@,
        IntKind::I64 => "i64"@,
    }
}

impl IntKind {
    /// The name of this integer in generated source.
    pub fn name(self) -> (name: &'static str)
        ensures
            name@ == int_kind_name(self),
    {
        match self {
            IntKind::U8 => "u8",
            IntKind::U16 => "u16",
            IntKind::U32 => "u32",
            IntKind::U64 => "u64",
            IntKind::I8 => "i8",
            IntKind::I16 => "i16",
            IntKind::I32 => "i32",
            IntKind::I64 => "i64",
        }
    }
}

/// The name in generated source of the integer that `int_type` stands for.
pub fn get_int_name(int_type: &IntegerType) -> (name: &'static str)
    ensures
        name@ == int_kind_name(integer_kind(*int_type)),
{
    int_kind_of(int_type).name()
}

/// The simple name of the declaration at `path`: the last segment, if there is one.
pub fn simple_name(path: &AbsolutePath) -> (name: Option<&str>)
    ensures
        match name {
            Some(name) => path_segments(*path).len() > 0 && name@ == path_segments(*path).last(),
            None => path_segments(*path).len() == 0,
        },
{
    let segments = segments(path);
    if segments.len() == 0 {
        None
    } else {
        Some(segments[segments.len() - 1].as_str())
    }
}

} // verus!
