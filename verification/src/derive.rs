//! The classification behind `#[derive(RkyvMbt)]`: which Rust field types a
//! generated struct view supports and the kind each one becomes, and the
//! variants of a fieldless enum. The
//! derive reads a field's type as parsed Rust syntax; `FieldType` holds the
//! parts of that syntax the classification looks at.
use vstd::prelude::*;
use crate::encoder::{encodes, is_named_scalar, kind_debug_text};
use crate::text::ascii_lowercase;
use crate::schema::FieldKind;
use crate::view::renders_in_view;

verus! {

/// The arguments of a path segment: none, `<...>`, or `(...)`.
#[derive(Debug, PartialEq, Eq)]
pub enum PathArguments {
    Empty,
    AngleBracketed(Vec<GenericArgument>),
    Parenthesized,
}

/// One generic argument between angle brackets.
#[derive(Debug, PartialEq, Eq)]
pub enum GenericArgument {
    Type(FieldType),
    /// A lifetime, constant, binding or constraint.
    Other,
}

/// One segment of a type path.
#[derive(Debug, PartialEq, Eq)]
pub struct PathSegment {
    pub ident: String,
    pub arguments: PathArguments,
}

/// The type of a struct field.
#[derive(Debug, PartialEq, Eq)]
pub enum FieldType {
    /// A path such as `u32`, `Vec<Profile>` or `crate::Profile`.
    Path { leading_colon: bool, segments: Vec<PathSegment> },
    /// A reference, tuple, array, slice, function pointer or other type.
    Other,
}

/// The field types the derive supports. For a vector of structs the
/// generated schema records the archived size of the element type, and for an
/// option the archived alignment of the value type: the single type argument
/// of the field's type.
#[derive(Debug, PartialEq, Eq)]
pub enum SupportedField {
    U8,
    U16,
    U32,
    U64,
    I8,
    I16,
    I32,
    I64,
    F32,
    F64,
    Bool,
    String,
    VecU32,
    /// A vector of a named struct.
    VecStruct(String),
    Struct(String),
    /// An optional value.
    Option(Box<SupportedField>),
}

/// Why a field type is not supported.
#[derive(Debug, PartialEq, Eq)]
pub enum UnsupportedField {
    /// The type is no path.
    NotAPath,
    /// The path has no segments.
    EmptyPath,
    /// An option holds an option or a vector.
    NestedOption,
    /// An `Option` without exactly one type argument.
    OptionArguments,
    /// A `Vec` of something other than `u32` or a named struct.
    VecElement,
    /// A path with arguments that is no `Option` or `Vec`.
    UnknownType,
}

/// Why a type cannot derive `RkyvMbt`.
#[derive(Debug, PartialEq, Eq)]
pub enum DeriveError {
    /// A tuple or unit struct where a named struct is needed.
    NamedStructsOnly,
    /// An enum or a union where a struct is needed.
    StructsOnly,
    /// A field whose type is not supported, by name.
    Field(String, UnsupportedField),
    /// A struct or a union where an enum is needed.
    EnumsOnly,
    /// An enum variant with fields, by name; only fieldless enums derive.
    VariantWithFields(String),
}

/// The fields of a struct.
#[derive(Debug, PartialEq, Eq)]
pub enum StructFields {
    Named(Vec<(String, FieldType)>),
    Unnamed,
    Unit,
}

/// One variant of an enum: its name and whether it has fields.
#[derive(Debug, PartialEq, Eq)]
pub struct EnumVariant {
    pub ident: String,
    pub has_fields: bool,
}

/// The item a derive is applied to.
#[derive(Debug, PartialEq, Eq)]
pub enum DeriveData {
    Struct(StructFields),
    Enum(Vec<EnumVariant>),
    Union,
}

// ---------------------------------------------------------------------------
// Specification
// ---------------------------------------------------------------------------
/// The path is the single identifier `name`, as `syn::Path::is_ident` checks.
pub open spec fn is_ident(ty: FieldType, name: Seq<char>) -> bool {
    match ty {
        FieldType::Path { leading_colon, segments } => !leading_colon && segments@.len() == 1
            && segments@[0].arguments is Empty && segments@[0].ident@ == name,
        FieldType::Other => false,
    }
}

/// The only argument of `arguments`, when it is `<T>` for a single type `T`.
pub open spec fn single_type_argument(arguments: PathArguments) -> Option<FieldType> {
    match arguments {
        PathArguments::AngleBracketed(args) => if args@.len() == 1 {
            match args@[0] {
                GenericArgument::Type(t) => Some(t),
                GenericArgument::Other => None,
            }
        } else {
            None
        },
        _ => None,
    }
}

/// The kind of a field of type `ty`, named by the last segment of its path:
/// the numeric primitives, `bool` and `String`; `Option<T>` of a supported
/// `T` that is no option and no vector; `Vec<u32>`; `Vec<S>` of a named
/// struct `S`; and any other path without arguments, taken as a named struct.
pub open spec fn spec_field_kind(ty: FieldType) -> Result<SupportedField, UnsupportedField>
    decreases ty,
{
    match ty {
        FieldType::Other => Err(UnsupportedField::NotAPath),
        FieldType::Path { leading_colon, segments } => {
            if segments@.len() == 0 {
                Err(UnsupportedField::EmptyPath)
            } else {
                let segment = segments@.last();
                let ident = segment.ident@;
                if ident == "u8"@ {
                    Ok(SupportedField::U8)
                } else if ident == "u16"@ {
                    Ok(SupportedField::U16)
                } else if ident == "u32"@ {
                    Ok(SupportedField::U32)
                } else if ident == "u64"@ {
                    Ok(SupportedField::U64)
                } else if ident == "i8"@ {
                    Ok(SupportedField::I8)
                } else if ident == "i16"@ {
                    Ok(SupportedField::I16)
                } else if ident == "i32"@ {
                    Ok(SupportedField::I32)
                } else if ident == "i64"@ {
                    Ok(SupportedField::I64)
                } else if ident == "f32"@ {
                    Ok(SupportedField::F32)
                } else if ident == "f64"@ {
                    Ok(SupportedField::F64)
                } else if ident == "bool"@ {
                    Ok(SupportedField::Bool)
                } else if ident == "String"@ {
                    Ok(SupportedField::String)
                } else if ident == "Option"@ {
                    match single_type_argument(segment.arguments) {
                        Some(inner) => {
                            proof {
                                assert(decreases_to!(ty => segments));
                                assert(decreases_to!(segments => segments@));
                                assert(decreases_to!(segments@ => segments@.last()));
                            }
                            match spec_field_kind(inner) {
                                Err(e) => Err(e),
                                Ok(kind) => if kind is Option || kind is VecStruct || kind is VecU32 {
                                    Err(UnsupportedField::NestedOption)
                                } else {
                                    Ok(SupportedField::Option(Box::new(kind)))
                                },
                            }
                        },
                        None => Err(UnsupportedField::OptionArguments),
                    }
                } else if ident == "Vec"@ {
                    match single_type_argument(segment.arguments) {
                        Some(inner) => if is_ident(inner, "u32"@) {
                            Ok(SupportedField::VecU32)
                        } else {
                            proof {
                                assert(decreases_to!(ty => segments));
                                assert(decreases_to!(segments => segments@));
                                assert(decreases_to!(segments@ => segments@.last()));
                            }
                            match spec_field_kind(inner) {
                                Err(e) => Err(e),
                                Ok(SupportedField::Struct(name)) => Ok(
                                    SupportedField::VecStruct(name),
                                ),
                                Ok(_) => Err(UnsupportedField::VecElement),
                            }
                        },
                        None => Err(UnsupportedField::VecElement),
                    }
                } else if segment.arguments is Empty {
                    Ok(SupportedField::Struct(segment.ident))
                } else {
                    Err(UnsupportedField::UnknownType)
                }
            }
        },
    }
}

/// The kinds of the named fields, in order, up to the first unsupported one.
pub open spec fn spec_field_kinds(fields: Seq<(String, FieldType)>) -> Result<
    Seq<(String, SupportedField)>,
    DeriveError,
>
    decreases fields.len(),
{
    if fields.len() == 0 {
        Ok(Seq::empty())
    } else {
        match spec_field_kinds(fields.drop_last()) {
            Err(e) => Err(e),
            Ok(kinds) => match spec_field_kind(fields.last().1) {
                Err(e) => Err(DeriveError::Field(fields.last().0, e)),
                Ok(kind) => Ok(kinds.push((fields.last().0, kind))),
            },
        }
    }
}

/// What the derive makes of `data`: the kinds of the fields of a named
/// struct, or why it cannot derive.
pub open spec fn spec_derive_fields(data: DeriveData) -> Result<
    Seq<(String, SupportedField)>,
    DeriveError,
> {
    match data {
        DeriveData::Struct(StructFields::Named(fields)) => spec_field_kinds(fields@),
        DeriveData::Struct(_) => Err(DeriveError::NamedStructsOnly),
        _ => Err(DeriveError::StructsOnly),
    }
}

/// The names of the variants, in order, up to the first one with fields.
pub open spec fn spec_variant_names(variants: Seq<EnumVariant>) -> Result<Seq<String>, DeriveError>
    decreases variants.len(),
{
    if variants.len() == 0 {
        Ok(Seq::empty())
    } else {
        match spec_variant_names(variants.drop_last()) {
            Err(e) => Err(e),
            Ok(names) => if variants.last().has_fields {
                Err(DeriveError::VariantWithFields(variants.last().ident))
            } else {
                Ok(names.push(variants.last().ident))
            },
        }
    }
}

/// What the derive makes of an enum: the names of its variants in
/// declaration order when every variant is fieldless, or the first variant
/// with fields.
pub open spec fn spec_derive_enum_variants(data: DeriveData) -> Result<Seq<String>, DeriveError> {
    match data {
        DeriveData::Enum(variants) => spec_variant_names(variants@),
        _ => Err(DeriveError::EnumsOnly),
    }
}

/// The field kind `kind` is what the derive emits for `supported`, with some
/// archived size for each vector element and some alignment for each option.
pub open spec fn emitted_as(kind: FieldKind, supported: SupportedField) -> bool
    decreases supported,
{
    match (supported, kind) {
        (SupportedField::U8, FieldKind::U8) => true,
        (SupportedField::U16, FieldKind::U16) => true,
        (SupportedField::U32, FieldKind::U32) => true,
        (SupportedField::U64, FieldKind::U64) => true,
        (SupportedField::I8, FieldKind::I8) => true,
        (SupportedField::I16, FieldKind::I16) => true,
        (SupportedField::I32, FieldKind::I32) => true,
        (SupportedField::I64, FieldKind::I64) => true,
        (SupportedField::F32, FieldKind::F32) => true,
        (SupportedField::F64, FieldKind::F64) => true,
        (SupportedField::Bool, FieldKind::Bool) => true,
        (SupportedField::String, FieldKind::String) => true,
        (SupportedField::VecU32, FieldKind::VecU32) => true,
        (SupportedField::VecStruct(name), FieldKind::VecStruct(kind_name, _)) => name@
            == kind_name@,
        (SupportedField::Struct(name), FieldKind::Struct(kind_name)) => name@ == kind_name@,
        (SupportedField::Option(inner), FieldKind::Option(kind_inner, _)) => emitted_as(
            *kind_inner,
            *inner,
        ),
        _ => false,
    }
}

// ---------------------------------------------------------------------------
// Laws
// ---------------------------------------------------------------------------
/// The identifier that ends the path of a field's type, if it is a path.
pub open spec fn last_ident(ty: FieldType) -> Option<Seq<char>> {
    match ty {
        FieldType::Path { segments, .. } => if segments@.len() > 0 {
            Some(segments@.last().ident@)
        } else {
            None
        },
        FieldType::Other => None,
    }
}

/// A field whose type the derive takes as a numeric primitive, `bool` or
/// `String` is emitted as the kind of the same name: `u16` becomes `U16`,
/// `i32` becomes `I32`, never a kind of another width or signedness.
pub proof fn law_primitive_types_keep_their_name(ty: FieldType, kind: FieldKind)
    requires
        spec_field_kind(ty) is Ok,
        emitted_as(kind, spec_field_kind(ty)->Ok_0),
        is_named_scalar(kind),
    ensures
        last_ident(ty) matches Some(ident) && ascii_lowercase(ident) == ascii_lowercase(
            kind_debug_text(kind),
        ),
{
    match spec_field_kind(ty)->Ok_0 {
        SupportedField::U8 => {
            reveal_strlit("u8");
            reveal_strlit("U8");
            assert(ascii_lowercase("u8"@) =~= ascii_lowercase("U8"@));
        },
        SupportedField::U16 => {
            reveal_strlit("u16");
            reveal_strlit("U16");
            assert(ascii_lowercase("u16"@) =~= ascii_lowercase("U16"@));
        },
        SupportedField::U32 => {
            reveal_strlit("u32");
            reveal_strlit("U32");
            assert(ascii_lowercase("u32"@) =~= ascii_lowercase("U32"@));
        },
        SupportedField::U64 => {
            reveal_strlit("u64");
            reveal_strlit("U64");
            assert(ascii_lowercase("u64"@) =~= ascii_lowercase("U64"@));
        },
        SupportedField::I8 => {
            reveal_strlit("i8");
            reveal_strlit("I8");
            assert(ascii_lowercase("i8"@) =~= ascii_lowercase("I8"@));
        },
        SupportedField::I16 => {
            reveal_strlit("i16");
            reveal_strlit("I16");
            assert(ascii_lowercase("i16"@) =~= ascii_lowercase("I16"@));
        },
        SupportedField::I32 => {
            reveal_strlit("i32");
            reveal_strlit("I32");
            assert(ascii_lowercase("i32"@) =~= ascii_lowercase("I32"@));
        },
        SupportedField::I64 => {
            reveal_strlit("i64");
            reveal_strlit("I64");
            assert(ascii_lowercase("i64"@) =~= ascii_lowercase("I64"@));
        },
        SupportedField::F32 => {
            reveal_strlit("f32");
            reveal_strlit("F32");
            assert(ascii_lowercase("f32"@) =~= ascii_lowercase("F32"@));
        },
        SupportedField::F64 => {
            reveal_strlit("f64");
            reveal_strlit("F64");
            assert(ascii_lowercase("f64"@) =~= ascii_lowercase("F64"@));
        },
        SupportedField::Bool => {
            reveal_strlit("bool");
            reveal_strlit("Bool");
            assert(ascii_lowercase("bool"@) =~= ascii_lowercase("Bool"@));
        },
        SupportedField::String => {
            reveal_strlit("String");
            reveal_strlit("String");
            assert(ascii_lowercase("String"@) =~= ascii_lowercase("String"@));
        },
        _ => {},
    }
}

/// A supported kind that an option may hold: a numeric primitive, `bool`,
/// `String` or a named struct.
pub open spec fn is_plain_supported(kind: SupportedField) -> bool {
    ||| kind is U8
    ||| kind is U16
    ||| kind is U32
    ||| kind is U64
    ||| kind is I8
    ||| kind is I16
    ||| kind is I32
    ||| kind is I64
    ||| kind is F32
    ||| kind is F64
    ||| kind is Bool
    ||| kind is String
    ||| kind is Struct
}

/// `ty` is the path `Option<inner>` (its last segment is `Option` with the
/// single type argument `inner`).
pub open spec fn is_option_of(ty: FieldType, inner: FieldType) -> bool {
    match ty {
        FieldType::Path { segments, .. } => {
            &&& segments@.len() > 0
            &&& segments@.last().ident@ == "Option"@
            &&& match segments@.last().arguments {
                PathArguments::AngleBracketed(args) => args@.len() == 1 && args@[0]
                    == GenericArgument::Type(inner),
                _ => false,
            }
        },
        FieldType::Other => false,
    }
}

/// A field of type `Option<T>`, where `T` is a numeric primitive, `bool`,
/// `String` or a named struct, becomes an optional field of `T`'s kind.
pub proof fn law_option_of_plain_type(ty: FieldType, inner: FieldType)
    requires
        is_option_of(ty, inner),
        spec_field_kind(inner) matches Ok(kind) && is_plain_supported(kind),
    ensures
        spec_field_kind(ty) == Ok::<SupportedField, UnsupportedField>(
            SupportedField::Option(Box::new(spec_field_kind(inner)->Ok_0)),
        ),
{
    reveal_strlit("Option");
    reveal_strlit("u8");
    reveal_strlit("u16");
    reveal_strlit("u32");
    reveal_strlit("u64");
    reveal_strlit("i8");
    reveal_strlit("i16");
    reveal_strlit("i32");
    reveal_strlit("i64");
    reveal_strlit("f32");
    reveal_strlit("f64");
    reveal_strlit("bool");
    reveal_strlit("String");
    reveal_strlit("Vec");
    if let FieldType::Path { leading_colon, segments } = ty {
        let segment = segments@.last();
        assert(segment.ident@.len() == 6);
        assert(segment.ident@[0] == 'O');
        assert(single_type_argument(segment.arguments) == Some(inner));
    }
}

/// The value of an optional field is always a plain kind: the derive never
/// makes an option of an option or of a vector.
pub proof fn law_options_hold_plain_kinds(ty: FieldType)
    ensures
        spec_field_kind(ty) matches Ok(SupportedField::Option(kind)) ==> is_plain_supported(
            *kind,
        ),
{
}

/// An enum derives exactly when none of its variants has fields; it then
/// gives the names of all variants in declaration order, and otherwise names
/// the first variant with fields, wherever it stands.
pub proof fn law_enum_derive_needs_fieldless_variants(variants: Seq<EnumVariant>)
    ensures
        spec_variant_names(variants) is Ok <==> (forall|i: int|
            0 <= i < variants.len() ==> !(#[trigger] variants[i]).has_fields),
        spec_variant_names(variants) matches Ok(names) ==> names.len() == variants.len() && (
        forall|i: int| 0 <= i < variants.len() ==> #[trigger] names[i] == variants[i].ident),
        spec_variant_names(variants) matches Err(e) ==> exists|j: int|
            0 <= j < variants.len() && (#[trigger] variants[j]).has_fields && (forall|k: int|
                0 <= k < j ==> !variants[k].has_fields) && e == DeriveError::VariantWithFields(
                variants[j].ident,
            ),
    decreases variants.len(),
{
    if variants.len() > 0 {
        let init = variants.drop_last();
        law_enum_derive_needs_fieldless_variants(init);
        assert forall|i: int| 0 <= i < init.len() implies init[i] == variants[i] by {}
        if spec_variant_names(init) is Err {
            let e = spec_variant_names(init)->Err_0;
            let j = choose|j: int|
                0 <= j < init.len() && (#[trigger] init[j]).has_fields && (forall|k: int|
                    0 <= k < j ==> !init[k].has_fields) && e == DeriveError::VariantWithFields(
                    init[j].ident,
                );
            assert(variants[j] == init[j]);
        } else if variants.last().has_fields {
            let j = variants.len() - 1;
            assert(variants[j].has_fields);
        }
    }
}

/// An enum derives exactly when none of its variants has fields.
pub proof fn law_enum_derive_of_data(variants: Vec<EnumVariant>)
    ensures
        spec_derive_enum_variants(DeriveData::Enum(variants)) is Ok <==> (forall|i: int|
            0 <= i < variants@.len() ==> !(#[trigger] variants@[i]).has_fields),
        spec_derive_enum_variants(DeriveData::Enum(variants)) matches Ok(names) ==> names.len()
            == variants@.len() && (forall|i: int|
            0 <= i < variants@.len() ==> #[trigger] names[i] == variants@[i].ident),
{
    law_enum_derive_needs_fieldless_variants(variants@);
}

/// Every field kind that the derive emits for a supported field type can be
/// rendered into a view and into an encoder.
pub proof fn law_derived_kinds_render(ty: FieldType, kind: FieldKind)
    requires
        spec_field_kind(ty) is Ok,
        emitted_as(kind, spec_field_kind(ty)->Ok_0),
    ensures
        renders_in_view(kind),
        encodes(kind),
{
    match kind {
        FieldKind::Option(inner, _) => {
            let supported = spec_field_kind(ty)->Ok_0;
            assert(supported is Option);
            let inner_supported = *(supported->Option_0);
            assert(emitted_as(*inner, inner_supported));
            assert(!(inner_supported is Option || inner_supported is VecStruct
                || inner_supported is VecU32));
            match *inner {
                FieldKind::Option(_, _) | FieldKind::VecStruct(_, _) | FieldKind::VecU32
                | FieldKind::VecPrimitive(_, _) | FieldKind::VecString => {
                    assert(false);
                },
                _ => {
                    assert(encodes(*inner));
                },
            }
        },
        FieldKind::VecPrimitive(_, _) | FieldKind::VecString => {
            assert(false);
        },
        _ => {},
    }
}

/// Every field of a struct that derives `RkyvMbt` can be rendered.
pub proof fn law_derived_struct_renders(data: DeriveData, index: int, kind: FieldKind)
    requires
        spec_derive_fields(data) is Ok,
        0 <= index < spec_derive_fields(data)->Ok_0.len(),
        emitted_as(kind, spec_derive_fields(data)->Ok_0[index].1),
    ensures
        renders_in_view(kind),
        encodes(kind),
{
    if let DeriveData::Struct(StructFields::Named(fields)) = data {
        let ty = lemma_field_kinds_from(fields@, index);
        law_derived_kinds_render(ty, kind);
    }
}

/// Lemma: each kind in the classified fields is the kind of a field type.
proof fn lemma_field_kinds_from(fields: Seq<(String, FieldType)>, index: int) -> (ty: FieldType)
    requires
        spec_field_kinds(fields) is Ok,
        0 <= index < spec_field_kinds(fields)->Ok_0.len(),
    ensures
        spec_field_kind(ty) == Ok::<SupportedField, UnsupportedField>(
            spec_field_kinds(fields)->Ok_0[index].1,
        ),
    decreases fields.len(),
{
    let kinds = spec_field_kinds(fields)->Ok_0;
    let rest = spec_field_kinds(fields.drop_last())->Ok_0;
    if index < rest.len() {
        assert(kinds[index] == rest[index]);
        lemma_field_kinds_from(fields.drop_last(), index)
    } else {
        fields.last().1
    }
}

// ---------------------------------------------------------------------------
// Classification
// ---------------------------------------------------------------------------
/// Whether two texts are equal.
fn text_eq(a: &str, b: &str) -> (r: bool)
    ensures
        r == (a@ == b@),
{
    let n = a.unicode_len();
    if n != b.unicode_len() {
        return false;
    }
    let mut i: usize = 0;
    while i < n
        invariant
            i <= n,
            n == a@.len(),
            n == b@.len(),
            forall|k: int| 0 <= k < i ==> a@[k] == b@[k],
        decreases n - i,
    {
        if a.get_char(i) != b.get_char(i) {
            return false;
        }
        i = i + 1;
    }
    assert(a@ =~= b@);
    true
}

/// The only argument of `arguments`, when it is `<T>` for a single type `T`.
fn single_type_argument_of(arguments: &PathArguments) -> (r: Option<&FieldType>)
    ensures
        r is Some <==> single_type_argument(*arguments) is Some,
        r matches Some(t) ==> *t == single_type_argument(*arguments)->Some_0,
{
    match arguments {
        PathArguments::AngleBracketed(args) => if args.len() == 1 {
            match &args[0] {
                GenericArgument::Type(t) => Some(t),
                GenericArgument::Other => None,
            }
        } else {
            None
        },
        _ => None,
    }
}

/// Whether the path is the single identifier `name`.
fn path_is_ident(ty: &FieldType, name: &str) -> (r: bool)
    ensures
        r == is_ident(*ty, name@),
{
    match ty {
        FieldType::Path { leading_colon, segments } => !*leading_colon && segments.len() == 1
            && matches!(segments[0].arguments, PathArguments::Empty) && text_eq(
            segments[0].ident.as_str(),
            name,
        ),
        FieldType::Other => false,
    }
}

/// The kind of a field of type `ty`, or why it is not supported.
pub fn field_kind(ty: &FieldType) -> (r: Result<SupportedField, UnsupportedField>)
    ensures
        r == spec_field_kind(*ty),
    decreases ty,
{
    let FieldType::Path { leading_colon: _, segments } = ty else {
        return Err(UnsupportedField::NotAPath);
    };
    if segments.len() == 0 {
        return Err(UnsupportedField::EmptyPath);
    }
    let segment = &segments[segments.len() - 1];
    let ident = segment.ident.as_str();
    if text_eq(ident, "u8") {
        Ok(SupportedField::U8)
    } else if text_eq(ident, "u16") {
        Ok(SupportedField::U16)
    } else if text_eq(ident, "u32") {
        Ok(SupportedField::U32)
    } else if text_eq(ident, "u64") {
        Ok(SupportedField::U64)
    } else if text_eq(ident, "i8") {
        Ok(SupportedField::I8)
    } else if text_eq(ident, "i16") {
        Ok(SupportedField::I16)
    } else if text_eq(ident, "i32") {
        Ok(SupportedField::I32)
    } else if text_eq(ident, "i64") {
        Ok(SupportedField::I64)
    } else if text_eq(ident, "f32") {
        Ok(SupportedField::F32)
    } else if text_eq(ident, "f64") {
        Ok(SupportedField::F64)
    } else if text_eq(ident, "bool") {
        Ok(SupportedField::Bool)
    } else if text_eq(ident, "String") {
        Ok(SupportedField::String)
    } else if text_eq(ident, "Option") {
        match single_type_argument_of(&segment.arguments) {
            Some(inner) => {
                proof {
                    assert(decreases_to!(*ty => *segments));
                    assert(decreases_to!(*segments => segments@));
                    assert(decreases_to!(segments@ => segments@.last()));
                }
                let kind = field_kind(inner)?;
                if matches!(kind, SupportedField::Option(_) | SupportedField::VecStruct(_) | SupportedField::VecU32) {
                    Err(UnsupportedField::NestedOption)
                } else {
                    Ok(SupportedField::Option(Box::new(kind)))
                }
            },
            None => Err(UnsupportedField::OptionArguments),
        }
    } else if text_eq(ident, "Vec") {
        match single_type_argument_of(&segment.arguments) {
            Some(inner) => if path_is_ident(inner, "u32") {
                Ok(SupportedField::VecU32)
            } else {
                proof {
                    assert(decreases_to!(*ty => *segments));
                    assert(decreases_to!(*segments => segments@));
                    assert(decreases_to!(segments@ => segments@.last()));
                }
                match field_kind(inner)? {
                    SupportedField::Struct(name) => Ok(SupportedField::VecStruct(name)),
                    _ => Err(UnsupportedField::VecElement),
                }
            },
            None => Err(UnsupportedField::VecElement),
        }
    } else if matches!(segment.arguments, PathArguments::Empty) {
        Ok(SupportedField::Struct(segment.ident.clone()))
    } else {
        Err(UnsupportedField::UnknownType)
    }
}

/// Lemma: once a prefix of the fields holds an unsupported type, the
/// classification of all fields fails the same way.
proof fn lemma_first_error(fields: Seq<(String, FieldType)>, i: int)
    requires
        0 <= i <= fields.len(),
        spec_field_kinds(fields.take(i)) is Err,
    ensures
        spec_field_kinds(fields) == spec_field_kinds(fields.take(i)),
    decreases fields.len() - i,
{
    if i < fields.len() {
        assert(fields.take(i + 1).drop_last() =~= fields.take(i));
        lemma_first_error(fields, i + 1);
    } else {
        assert(fields.take(i) =~= fields);
    }
}

/// The kinds of the fields of `data`, or why it cannot derive `RkyvMbt`.
pub fn derive_fields(data: &DeriveData) -> (r: Result<Vec<(String, SupportedField)>, DeriveError>)
    ensures
        r matches Ok(kinds) ==> spec_derive_fields(*data) == Ok::<
            Seq<(String, SupportedField)>,
            DeriveError,
        >(kinds@),
        r matches Err(e) ==> spec_derive_fields(*data) == Err::<
            Seq<(String, SupportedField)>,
            DeriveError,
        >(e),
{
    let fields = match data {
        DeriveData::Struct(StructFields::Named(fields)) => fields,
        DeriveData::Struct(_) => {
            return Err(DeriveError::NamedStructsOnly);
        },
        _ => {
            return Err(DeriveError::StructsOnly);
        },
    };
    assert(spec_derive_fields(*data) == spec_field_kinds(fields@));
    let mut kinds: Vec<(String, SupportedField)> = Vec::new();
    let n = fields.len();
    let mut i: usize = 0;
    while i < n
        invariant
            i <= n,
            n == fields@.len(),
            spec_derive_fields(*data) == spec_field_kinds(fields@),
            spec_field_kinds(fields@.take(i as int)) == Ok::<
                Seq<(String, SupportedField)>,
                DeriveError,
            >(kinds@),
        decreases n - i,
    {
        let (name, ty) = &fields[i];
        assert(fields@.take(i + 1).drop_last() =~= fields@.take(i as int));
        match field_kind(ty) {
            Ok(kind) => kinds.push((name.clone(), kind)),
            Err(e) => {
                proof {
                    assert(fields@.take(i + 1).last() == fields@[i as int]);
                    assert(spec_field_kinds(fields@.take(i + 1)) == Err::<
                        Seq<(String, SupportedField)>,
                        DeriveError,
                    >(DeriveError::Field(*name, e)));
                    lemma_first_error(fields@, i + 1);
                }
                let field_name = name.clone();
                assert(field_name == *name);
                return Err(DeriveError::Field(field_name, e));
            },
        }
        i = i + 1;
    }
    assert(fields@.take(n as int) =~= fields@);
    Ok(kinds)
}

/// The message the derive reports for an unsupported field type.
pub open spec fn unsupported_message(e: UnsupportedField) -> Seq<char> {
    match e {
        UnsupportedField::NotAPath => "unsupported RkyvMbt field type; expected a numeric primitive, bool, String, or Vec<u32>"@,
        UnsupportedField::EmptyPath => "unsupported RkyvMbt field type"@,
        UnsupportedField::NestedOption => "RkyvMbt does not support nested Option values yet"@,
        UnsupportedField::OptionArguments => "RkyvMbt expects Option<T> with one supported value type"@,
        UnsupportedField::VecElement => "RkyvMbt currently supports Vec<u32> or Vec<named struct>"@,
        UnsupportedField::UnknownType => "unsupported RkyvMbt field type; expected a numeric primitive, bool, String, Option<T>, Vec<u32>, or a named struct"@,
    }
}

/// Lemma: once a prefix of the variants holds one with fields, the names of
/// all variants fail the same way.
proof fn lemma_first_variant_with_fields(variants: Seq<EnumVariant>, i: int)
    requires
        0 <= i <= variants.len(),
        spec_variant_names(variants.take(i)) is Err,
    ensures
        spec_variant_names(variants) == spec_variant_names(variants.take(i)),
    decreases variants.len() - i,
{
    if i < variants.len() {
        assert(variants.take(i + 1).drop_last() =~= variants.take(i));
        lemma_first_variant_with_fields(variants, i + 1);
    } else {
        assert(variants.take(i) =~= variants);
    }
}

/// The names of the variants of a fieldless enum, in declaration order, or
/// why `data` cannot derive an enum schema.
pub fn derive_enum_variants(data: &DeriveData) -> (r: Result<Vec<String>, DeriveError>)
    ensures
        r matches Ok(names) ==> spec_derive_enum_variants(*data) == Ok::<
            Seq<String>,
            DeriveError,
        >(names@),
        r matches Err(e) ==> spec_derive_enum_variants(*data) == Err::<Seq<String>, DeriveError>(
            e,
        ),
{
    let variants = match data {
        DeriveData::Enum(variants) => variants,
        _ => {
            return Err(DeriveError::EnumsOnly);
        },
    };
    let mut names: Vec<String> = Vec::new();
    let n = variants.len();
    let mut i: usize = 0;
    while i < n
        invariant
            i <= n,
            n == variants@.len(),
            spec_derive_enum_variants(*data) == spec_variant_names(variants@),
            spec_variant_names(variants@.take(i as int)) == Ok::<Seq<String>, DeriveError>(
                names@,
            ),
        decreases n - i,
    {
        let variant = &variants[i];
        assert(variants@.take(i + 1).drop_last() =~= variants@.take(i as int));
        assert(variants@.take(i + 1).last() == variants@[i as int]);
        let name = variant.ident.clone();
        if variant.has_fields {
            proof {
                lemma_first_variant_with_fields(variants@, i + 1);
            }
            return Err(DeriveError::VariantWithFields(name));
        }
        names.push(name);
        i = i + 1;
    }
    assert(variants@.take(n as int) =~= variants@);
    Ok(names)
}

impl UnsupportedField {
    /// The message the derive reports for the unsupported field type.
    pub fn message(&self) -> (r: &'static str)
        ensures
            r@ == unsupported_message(*self),
    {
        match self {
            UnsupportedField::NotAPath => "unsupported RkyvMbt field type; expected a numeric primitive, bool, String, or Vec<u32>",
            UnsupportedField::EmptyPath => "unsupported RkyvMbt field type",
            UnsupportedField::NestedOption => "RkyvMbt does not support nested Option values yet",
            UnsupportedField::OptionArguments => "RkyvMbt expects Option<T> with one supported value type",
            UnsupportedField::VecElement => "RkyvMbt currently supports Vec<u32> or Vec<named struct>",
            UnsupportedField::UnknownType => "unsupported RkyvMbt field type; expected a numeric primitive, bool, String, Option<T>, Vec<u32>, or a named struct",
        }
    }
}

} // verus!
