//! The schemas that describe an archived rkyv layout: field kinds, named
//! structs with their field offsets, and fieldless enums with their tags.
use vstd::prelude::*;

verus! {

/// A field type currently understood by the MoonBit rkyv runtime.
#[derive(Debug, PartialEq, Eq)]
pub enum FieldKind {
    U8,
    U16,
    U32,
    U64,
    I8,
    I16,
    I32,
    I64,
    F32,
    F64,
    Bool,
    String,
    VecU32,
    VecPrimitive(Box<FieldKind>, usize),
    VecString,
    VecStruct(String, usize),
    Struct(String),
    Option(Box<FieldKind>, usize),
}

impl Clone for FieldKind {
    fn clone(&self) -> (r: Self)
        ensures
            r == *self,
        decreases self,
    {
        match self {
            FieldKind::U8 => FieldKind::U8,
            FieldKind::U16 => FieldKind::U16,
            FieldKind::U32 => FieldKind::U32,
            FieldKind::U64 => FieldKind::U64,
            FieldKind::I8 => FieldKind::I8,
            FieldKind::I16 => FieldKind::I16,
            FieldKind::I32 => FieldKind::I32,
            FieldKind::I64 => FieldKind::I64,
            FieldKind::F32 => FieldKind::F32,
            FieldKind::F64 => FieldKind::F64,
            FieldKind::Bool => FieldKind::Bool,
            FieldKind::String => FieldKind::String,
            FieldKind::VecU32 => FieldKind::VecU32,
            FieldKind::VecPrimitive(element, size) => FieldKind::VecPrimitive(
                Box::new((&**element).clone()),
                *size,
            ),
            FieldKind::VecString => FieldKind::VecString,
            FieldKind::VecStruct(name, size) => FieldKind::VecStruct(name.clone(), *size),
            FieldKind::Struct(name) => FieldKind::Struct(name.clone()),
            FieldKind::Option(inner, alignment) => FieldKind::Option(
                Box::new((&**inner).clone()),
                *alignment,
            ),
        }
    }
}

/// One field of a struct layout: its name, its byte offset inside the
/// archived struct, and its kind.
pub type FieldLayout = (String, usize, FieldKind);

/// The rkyv layout that a generated MoonBit view needs to access a struct.
#[derive(Clone, Debug, PartialEq, Eq)]
pub struct StructSchema {
    pub name: String,
    pub archived_size: usize,
    pub fields: Vec<(String, usize, FieldKind)>,
}

/// A Rust `#[derive(Archive)]` fieldless enum. rkyv generates these archived
/// enums as `#[repr(u8)]`, so their tag is a portable one-byte value at the
/// beginning of the root representation.
#[derive(Clone, Debug, PartialEq, Eq)]
pub struct EnumSchema {
    pub name: String,
    pub archived_size: usize,
    pub variants: Vec<(String, u8)>,
}

/// An encoding binding cannot be emitted for a field whose MoonBit host
/// runtime representation is not yet implemented.
#[derive(Clone, Debug, PartialEq, Eq)]
pub struct EncoderRenderError {
    pub struct_name: String,
    pub field_name: String,
    pub field_kind: FieldKind,
}

impl EnumSchema {
    pub fn new(name: &str, archived_size: usize, variants: Vec<(String, u8)>) -> (s: Self)
        ensures
            s.name@ == name@,
            s.archived_size == archived_size,
            s.variants == variants,
    {
        Self { name: name.to_owned(), archived_size, variants }
    }
}

impl StructSchema {
    pub fn new(name: &str, archived_size: usize, fields: Vec<(String, usize, FieldKind)>) -> (s:
        Self)
        ensures
            s.name@ == name@,
            s.archived_size == archived_size,
            s.fields == fields,
    {
        Self { name: name.to_owned(), archived_size, fields }
    }
}

/// Implemented by `#[derive(RkyvMbt)]` for supported Rust structs.
pub trait RkyvMbt {
    fn rkyv_mbt_schema() -> StructSchema;
}

/// Implemented by `#[derive(RkyvMbt)]` for supported fieldless Rust enums.
/// Payload enums use the explicit `Schema::TaggedUnion` contract for now,
/// because Rust does not expose stable offsets for individual enum payloads.
pub trait RkyvMbtEnum {
    fn rkyv_mbt_enum_schema() -> EnumSchema;
}

} // verus!
