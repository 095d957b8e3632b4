//! The MoonBit types, runtime schema expressions and read expressions that
//! correspond to each field kind.
use vstd::prelude::*;
use crate::schema::FieldKind;

verus! {

/// A vector whose element view is generated for its field.
pub open spec fn is_field_vector(kind: FieldKind) -> bool {
    kind is VecPrimitive || kind is VecString || kind is VecStruct
}

/// A kind whose encoder value is built by a single runtime `Value`
/// constructor: the numeric primitives, `Bool`, `String` and named structs.
pub open spec fn is_scalar_kind(kind: FieldKind) -> bool {
    !(kind is VecU32 || is_field_vector(kind) || kind is Option)
}

/// The vector kind found directly or under options, if any.
pub open spec fn spec_vector_kind(kind: FieldKind) -> Option<FieldKind>
    decreases kind,
{
    match kind {
        FieldKind::VecPrimitive(_, _) | FieldKind::VecString | FieldKind::VecStruct(_, _) => Some(
            kind,
        ),
        FieldKind::Option(inner, _) => spec_vector_kind(*inner),
        _ => None,
    }
}

/// The kinds that have a plain MoonBit type: none with a field vector,
/// directly or under options.
pub open spec fn has_moonbit_type(kind: FieldKind) -> bool
    decreases kind,
{
    match kind {
        FieldKind::VecPrimitive(_, _) | FieldKind::VecString | FieldKind::VecStruct(_, _) => false,
        FieldKind::Option(inner, _) => has_moonbit_type(*inner),
        _ => true,
    }
}

/// The kinds whose value is read by one runtime reader call.
pub open spec fn has_read_expression(kind: FieldKind) -> bool {
    !(is_field_vector(kind) || kind is Option)
}

/// `name` followed by `Input`: the generated encoder input type of a struct.
pub open spec fn input_name_text(name: Seq<char>) -> Seq<char> {
    name + "Input"@
}

/// The MoonBit type of a value of `kind`.
pub open spec fn moonbit_type_text(kind: FieldKind) -> Seq<char>
    decreases kind,
{
    match kind {
        FieldKind::U8 => "Byte"@,
        FieldKind::U16 | FieldKind::U32 => "UInt"@,
        FieldKind::U64 => "UInt64"@,
        FieldKind::I8 | FieldKind::I16 | FieldKind::I32 => "Int"@,
        FieldKind::I64 => "Int64"@,
        FieldKind::F32 => "Float"@,
        FieldKind::F64 => "Double"@,
        FieldKind::Bool => "Bool"@,
        FieldKind::String => "String"@,
        FieldKind::VecU32 => "@rkyv.U32VecView"@,
        FieldKind::Struct(name) => name@ + "View"@,
        FieldKind::Option(inner, _) => moonbit_type_text(*inner) + "?"@,
        _ => Seq::empty(),
    }
}

/// The MoonBit type of a field accessor: a field vector is seen through its
/// generated view `vec_view`.
pub open spec fn moonbit_field_type_text(kind: FieldKind, vec_view: Option<Seq<char>>) -> Seq<
    char,
>
    decreases kind,
{
    match kind {
        FieldKind::VecPrimitive(_, _) | FieldKind::VecString | FieldKind::VecStruct(_, _) => {
            vec_view.unwrap()
        },
        FieldKind::Option(inner, _) => moonbit_field_type_text(*inner, vec_view) + "?"@,
        _ => moonbit_type_text(kind),
    }
}

/// The MoonBit type of the encoder input for a field of `kind`.
pub open spec fn encoder_input_type_text(kind: FieldKind) -> Seq<char>
    decreases kind,
{
    match kind {
        FieldKind::U8 => "Byte"@,
        FieldKind::U16 | FieldKind::U32 => "UInt"@,
        FieldKind::U64 => "UInt64"@,
        FieldKind::I8 | FieldKind::I16 | FieldKind::I32 => "Int"@,
        FieldKind::I64 => "Int64"@,
        FieldKind::F32 => "Float"@,
        FieldKind::F64 => "Double"@,
        FieldKind::Bool => "Bool"@,
        FieldKind::String => "String"@,
        FieldKind::VecU32 => "Array[UInt]"@,
        FieldKind::VecPrimitive(element, _) => "Array["@ + moonbit_type_text(*element) + "]"@,
        FieldKind::VecString => "Array[String]"@,
        FieldKind::VecStruct(name, _) => "Array["@ + input_name_text(name@) + "]"@,
        FieldKind::Struct(name) => input_name_text(name@),
        FieldKind::Option(inner, _) => encoder_input_type_text(*inner) + "?"@,
    }
}

/// The encoder input type of `kind` is defined: every vector of primitives
/// has an element with a plain MoonBit type.
pub open spec fn has_encoder_input_type(kind: FieldKind) -> bool
    decreases kind,
{
    match kind {
        FieldKind::VecPrimitive(element, _) => has_moonbit_type(*element),
        FieldKind::Option(inner, _) => has_encoder_input_type(*inner),
        _ => true,
    }
}

/// The runtime `@rkyv.Schema` expression of `kind`.
pub open spec fn encoder_schema_expression_text(kind: FieldKind) -> Seq<char>
    decreases kind,
{
    match kind {
        FieldKind::U8 => "@rkyv.Schema::U8"@,
        FieldKind::U16 => "@rkyv.Schema::U16"@,
        FieldKind::U32 => "@rkyv.Schema::U32"@,
        FieldKind::U64 => "@rkyv.Schema::U64"@,
        FieldKind::I8 => "@rkyv.Schema::I8"@,
        FieldKind::I16 => "@rkyv.Schema::I16"@,
        FieldKind::I32 => "@rkyv.Schema::I32"@,
        FieldKind::I64 => "@rkyv.Schema::I64"@,
        FieldKind::F32 => "@rkyv.Schema::F32"@,
        FieldKind::F64 => "@rkyv.Schema::F64"@,
        FieldKind::Bool => "@rkyv.Schema::Bool"@,
        FieldKind::String => "@rkyv.Schema::String"@,
        FieldKind::VecU32 => "@rkyv.Schema::VecU32"@,
        FieldKind::VecPrimitive(element, _) => "@rkyv.Schema::Vec("@
            + encoder_schema_expression_text(*element) + ")"@,
        FieldKind::VecString => "@rkyv.Schema::Vec(@rkyv.Schema::String)"@,
        FieldKind::VecStruct(name, _) => "@rkyv.Schema::Vec("@ + input_name_text(name@)
            + "::schema())"@,
        FieldKind::Struct(name) => input_name_text(name@) + "::schema()"@,
        FieldKind::Option(inner, _) => "@rkyv.Schema::Option("@ + encoder_schema_expression_text(
            *inner,
        ) + ")"@,
    }
}

/// The runtime `@rkyv.Value` of the scalar `value` of `kind`.
pub open spec fn encoder_scalar_value_text(kind: FieldKind, value: Seq<char>) -> Seq<char> {
    match kind {
        FieldKind::U8 => "@rkyv.Value::U8("@ + value + ")"@,
        FieldKind::U16 => "@rkyv.Value::U16("@ + value + ")"@,
        FieldKind::U32 => "@rkyv.Value::U32("@ + value + ")"@,
        FieldKind::U64 => "@rkyv.Value::U64("@ + value + ")"@,
        FieldKind::I8 => "@rkyv.Value::I8("@ + value + ")"@,
        FieldKind::I16 => "@rkyv.Value::I16("@ + value + ")"@,
        FieldKind::I32 => "@rkyv.Value::I32("@ + value + ")"@,
        FieldKind::I64 => "@rkyv.Value::I64("@ + value + ")"@,
        FieldKind::F32 => "@rkyv.Value::F32("@ + value + ")"@,
        FieldKind::F64 => "@rkyv.Value::F64("@ + value + ")"@,
        FieldKind::Bool => "@rkyv.Value::Bool("@ + value + ")"@,
        FieldKind::String => "@rkyv.Value::String("@ + value + ")"@,
        FieldKind::Struct(_) => value + ".to_value()"@,
        _ => Seq::empty(),
    }
}

/// The runtime reader call that reads a value of `kind` at `offset`.
pub open spec fn read_expression_text(kind: FieldKind, reader: Seq<char>, offset: Seq<char>) -> Seq<
    char,
> {
    match kind {
        FieldKind::U8 => reader + ".read_u8("@ + offset + ")"@,
        FieldKind::U16 => reader + ".read_u16("@ + offset + ")"@,
        FieldKind::U32 => reader + ".read_u32("@ + offset + ")"@,
        FieldKind::U64 => reader + ".read_u64("@ + offset + ")"@,
        FieldKind::I8 => reader + ".read_i8("@ + offset + ")"@,
        FieldKind::I16 => reader + ".read_i16("@ + offset + ")"@,
        FieldKind::I32 => reader + ".read_i32("@ + offset + ")"@,
        FieldKind::I64 => reader + ".read_i64("@ + offset + ")"@,
        FieldKind::F32 => reader + ".read_f32("@ + offset + ")"@,
        FieldKind::F64 => reader + ".read_f64("@ + offset + ")"@,
        FieldKind::Bool => reader + ".read_bool("@ + offset + ")"@,
        FieldKind::String => reader + ".read_string("@ + offset + ")"@,
        FieldKind::VecU32 => reader + ".read_vec_u32("@ + offset + ")"@,
        FieldKind::Struct(name) => name@ + "View::at("@ + reader + ", "@ + offset + ")"@,
        _ => Seq::empty(),
    }
}

/// The archived size of one element of a field vector; a `String` element is
/// eight bytes.
pub open spec fn vector_element_size_of(kind: FieldKind) -> nat {
    match kind {
        FieldKind::VecPrimitive(_, size) | FieldKind::VecStruct(_, size) => size as nat,
        FieldKind::VecString => 8,
        _ => 0,
    }
}

/// The text of an optional view name.
pub open spec fn opt_text(o: Option<&str>) -> Option<Seq<char>> {
    match o {
        Some(s) => Some(s@),
        None => None,
    }
}

/// `a` followed by `b`.
pub(crate) fn concat(a: &str, b: &str) -> (r: String)
    ensures
        r@ == a@ + b@,
{
    let mut r = a.to_owned();
    r.append(b);
    r
}

/// `a`, `b` and `c` one after another.
pub(crate) fn concat3(a: &str, b: &str, c: &str) -> (r: String)
    ensures
        r@ == a@ + b@ + c@,
{
    let mut r = a.to_owned();
    r.append(b);
    r.append(c);
    r
}

/// Whether every field kind can be encoded; every kind currently can.
pub fn encoder_supported(_kind: &FieldKind) -> (r: bool)
    ensures
        r,
{
    true
}

/// The generated encoder input type name of the struct `name`.
pub fn input_name(name: &str) -> (r: String)
    ensures
        r@ == input_name_text(name@),
{
    concat(name, "Input")
}

/// The MoonBit type of the encoder input for a field of `kind`.
pub fn encoder_input_type(kind: &FieldKind) -> (r: String)
    requires
        has_encoder_input_type(*kind),
    ensures
        r@ == encoder_input_type_text(*kind),
    decreases kind,
{
    match kind {
        FieldKind::U8 => "Byte".to_owned(),
        FieldKind::U16 | FieldKind::U32 => "UInt".to_owned(),
        FieldKind::U64 => "UInt64".to_owned(),
        FieldKind::I8 | FieldKind::I16 | FieldKind::I32 => "Int".to_owned(),
        FieldKind::I64 => "Int64".to_owned(),
        FieldKind::F32 => "Float".to_owned(),
        FieldKind::F64 => "Double".to_owned(),
        FieldKind::Bool => "Bool".to_owned(),
        FieldKind::String => "String".to_owned(),
        FieldKind::VecU32 => "Array[UInt]".to_owned(),
        FieldKind::VecPrimitive(element, _) => concat3(
            "Array[",
            moonbit_type(&**element).as_str(),
            "]",
        ),
        FieldKind::VecString => "Array[String]".to_owned(),
        FieldKind::VecStruct(name, _) => concat3("Array[", input_name(name.as_str()).as_str(), "]"),
        FieldKind::Struct(name) => input_name(name.as_str()),
        FieldKind::Option(inner, _) => concat(encoder_input_type(&**inner).as_str(), "?"),
    }
}

/// The runtime `@rkyv.Schema` expression of `kind`.
pub fn encoder_schema_expression(kind: &FieldKind) -> (r: String)
    ensures
        r@ == encoder_schema_expression_text(*kind),
    decreases kind,
{
    match kind {
        FieldKind::U8 => "@rkyv.Schema::U8".to_owned(),
        FieldKind::U16 => "@rkyv.Schema::U16".to_owned(),
        FieldKind::U32 => "@rkyv.Schema::U32".to_owned(),
        FieldKind::U64 => "@rkyv.Schema::U64".to_owned(),
        FieldKind::I8 => "@rkyv.Schema::I8".to_owned(),
        FieldKind::I16 => "@rkyv.Schema::I16".to_owned(),
        FieldKind::I32 => "@rkyv.Schema::I32".to_owned(),
        FieldKind::I64 => "@rkyv.Schema::I64".to_owned(),
        FieldKind::F32 => "@rkyv.Schema::F32".to_owned(),
        FieldKind::F64 => "@rkyv.Schema::F64".to_owned(),
        FieldKind::Bool => "@rkyv.Schema::Bool".to_owned(),
        FieldKind::String => "@rkyv.Schema::String".to_owned(),
        FieldKind::VecU32 => "@rkyv.Schema::VecU32".to_owned(),
        FieldKind::VecPrimitive(element, _) => concat3(
            "@rkyv.Schema::Vec(",
            encoder_schema_expression(&**element).as_str(),
            ")",
        ),
        FieldKind::VecString => "@rkyv.Schema::Vec(@rkyv.Schema::String)".to_owned(),
        FieldKind::VecStruct(name, _) => concat3(
            "@rkyv.Schema::Vec(",
            input_name(name.as_str()).as_str(),
            "::schema())",
        ),
        FieldKind::Struct(name) => concat(input_name(name.as_str()).as_str(), "::schema()"),
        FieldKind::Option(inner, _) => concat3(
            "@rkyv.Schema::Option(",
            encoder_schema_expression(&**inner).as_str(),
            ")",
        ),
    }
}

/// The runtime `@rkyv.Value` of the scalar `value` of `kind`.
pub fn encoder_scalar_value_expression(kind: &FieldKind, value: &str) -> (r: String)
    requires
        is_scalar_kind(*kind),
    ensures
        r@ == encoder_scalar_value_text(*kind, value@),
{
    match kind {
        FieldKind::U8 => concat3("@rkyv.Value::U8(", value, ")"),
        FieldKind::U16 => concat3("@rkyv.Value::U16(", value, ")"),
        FieldKind::U32 => concat3("@rkyv.Value::U32(", value, ")"),
        FieldKind::U64 => concat3("@rkyv.Value::U64(", value, ")"),
        FieldKind::I8 => concat3("@rkyv.Value::I8(", value, ")"),
        FieldKind::I16 => concat3("@rkyv.Value::I16(", value, ")"),
        FieldKind::I32 => concat3("@rkyv.Value::I32(", value, ")"),
        FieldKind::I64 => concat3("@rkyv.Value::I64(", value, ")"),
        FieldKind::F32 => concat3("@rkyv.Value::F32(", value, ")"),
        FieldKind::F64 => concat3("@rkyv.Value::F64(", value, ")"),
        FieldKind::Bool => concat3("@rkyv.Value::Bool(", value, ")"),
        FieldKind::String => concat3("@rkyv.Value::String(", value, ")"),
        FieldKind::Struct(_) => concat(value, ".to_value()"),
        _ => String::new(),
    }
}

/// The MoonBit type of a value of `kind`.
pub fn moonbit_type(kind: &FieldKind) -> (r: String)
    requires
        has_moonbit_type(*kind),
    ensures
        r@ == moonbit_type_text(*kind),
    decreases kind,
{
    match kind {
        FieldKind::U8 => "Byte".to_owned(),
        FieldKind::U16 | FieldKind::U32 => "UInt".to_owned(),
        FieldKind::U64 => "UInt64".to_owned(),
        FieldKind::I8 | FieldKind::I16 | FieldKind::I32 => "Int".to_owned(),
        FieldKind::I64 => "Int64".to_owned(),
        FieldKind::F32 => "Float".to_owned(),
        FieldKind::F64 => "Double".to_owned(),
        FieldKind::Bool => "Bool".to_owned(),
        FieldKind::String => "String".to_owned(),
        FieldKind::VecU32 => "@rkyv.U32VecView".to_owned(),
        FieldKind::Struct(name) => concat(name.as_str(), "View"),
        FieldKind::Option(inner, _) => concat(moonbit_type(&**inner).as_str(), "?"),
        _ => String::new(),
    }
}

/// The MoonBit type of a field accessor; a field vector is seen through its
/// generated view.
pub fn moonbit_field_type(kind: &FieldKind, vec_view: Option<&str>) -> (r: String)
    requires
        spec_vector_kind(*kind) is Some ==> vec_view is Some,
    ensures
        r@ == moonbit_field_type_text(*kind, opt_text(vec_view)),
    decreases kind,
{
    match kind {
        FieldKind::VecPrimitive(_, _) | FieldKind::VecString | FieldKind::VecStruct(_, _) => {
            vec_view.expect("vector fields always receive a generated view name").to_owned()
        },
        FieldKind::Option(inner, _) => concat(moonbit_field_type(&**inner, vec_view).as_str(), "?"),
        _ => moonbit_type(kind),
    }
}

/// The vector kind found directly or under options, if any.
pub fn vector_kind(kind: &FieldKind) -> (r: Option<&FieldKind>)
    ensures
        r is Some <==> spec_vector_kind(*kind) is Some,
        r matches Some(v) ==> *v == spec_vector_kind(*kind).unwrap(),
    decreases kind,
{
    match kind {
        FieldKind::VecPrimitive(_, _) | FieldKind::VecString | FieldKind::VecStruct(_, _) => Some(
            kind,
        ),
        FieldKind::Option(inner, _) => vector_kind(&**inner),
        _ => None,
    }
}

/// The runtime reader call that reads a value of `kind` at `offset`.
pub fn read_expression(kind: &FieldKind, reader: &str, offset: &str) -> (r: String)
    requires
        has_read_expression(*kind),
    ensures
        r@ == read_expression_text(*kind, reader@, offset@),
{
    let call = |method: &str| -> (r: String)
        ensures
            r@ == reader@ + method@ + offset@ + ")"@,
        {
            let mut r = concat3(reader, method, offset);
            r.append(")");
            r
        };
    match kind {
        FieldKind::U8 => call(".read_u8("),
        FieldKind::U16 => call(".read_u16("),
        FieldKind::U32 => call(".read_u32("),
        FieldKind::U64 => call(".read_u64("),
        FieldKind::I8 => call(".read_i8("),
        FieldKind::I16 => call(".read_i16("),
        FieldKind::I32 => call(".read_i32("),
        FieldKind::I64 => call(".read_i64("),
        FieldKind::F32 => call(".read_f32("),
        FieldKind::F64 => call(".read_f64("),
        FieldKind::Bool => call(".read_bool("),
        FieldKind::String => call(".read_string("),
        FieldKind::VecU32 => call(".read_vec_u32("),
        FieldKind::Struct(name) => {
            let mut r = concat3(name.as_str(), "View::at(", reader);
            r.append(", ");
            r.append(offset);
            r.append(")");
            r
        },
        _ => String::new(),
    }
}

/// The archived size of one element of a field vector.
pub fn vector_element_size(kind: &FieldKind) -> (r: usize)
    requires
        is_field_vector(*kind),
    ensures
        r == vector_element_size_of(*kind),
{
    match kind {
        FieldKind::VecPrimitive(_, element_size) | FieldKind::VecStruct(_, element_size) => {
            *element_size
        },
        FieldKind::VecString => 8,
        _ => 0,
    }
}

} // verus!
