//! The read-only MoonBit view of a named struct: reads of each field kind,
//! the recursive validation pass, and the lazy views of vector fields.
use vstd::prelude::*;
use crate::kinds::{
    concat, concat3, has_read_expression, is_field_vector, moonbit_field_type,
    moonbit_field_type_text, moonbit_type, moonbit_type_text, read_expression,
    read_expression_text, spec_vector_kind, vector_element_size, vector_element_size_of,
    vector_kind,
};
use crate::schema::{FieldKind, StructSchema};
use crate::text::{
    byte_len, decimal, push_decimal, text_byte_len, vec_view_name, vec_view_name_text,
};

verus! {

// ---------------------------------------------------------------------------
// The texts
// ---------------------------------------------------------------------------
/// The offset of a field inside the viewed struct: `self.offset`, plus the
/// field's offset when it is not zero.
pub open spec fn field_offset_text(offset: nat) -> Seq<char> {
    if offset == 0 {
        "self.offset"@
    } else {
        "self.offset + "@ + decimal(offset)
    }
}

/// The statement that reads and bounds-checks a vector header of `kind` at
/// `offset`, wrapped over four lines when the one-line form is longer than
/// eighty bytes.
pub open spec fn vector_header_text(
    kind: FieldKind,
    reader: Seq<char>,
    offset: Seq<char>,
    indent: Seq<char>,
) -> Seq<char> {
    let size = decimal(vector_element_size_of(kind));
    let one_line = indent + "let header = "@ + reader + ".read_vec_header_with_element_size("@
        + offset + ", "@ + size + ")"@;
    if byte_len(one_line) > 80 {
        indent + "let header = "@ + reader + ".read_vec_header_with_element_size(\n"@ + indent
            + "  "@ + offset + ",\n"@ + indent + "  "@ + size + ",\n"@ + indent + ")\n"@
    } else {
        one_line + "\n"@
    }
}

/// A struct literal of a field vector view over the header just read.
pub open spec fn vector_literal_text(reader: Seq<char>, indent: Seq<char>, open: Seq<char>) -> Seq<
    char,
> {
    indent + open + "\n"@ + indent + "  reader: "@ + reader + ",\n"@ + indent
        + "  data_offset: header.data_offset,\n"@ + indent + "  length: header.length,\n"@
}

/// The body of a field accessor: the reads of a value of `kind` at `offset`.
pub open spec fn read_text(kind: FieldKind, reader: Seq<char>, offset: Seq<char>, indent: Seq<char>) -> Seq<
    char,
> {
    match kind {
        FieldKind::Option(inner, alignment) => {
            let some_arm = match spec_vector_kind(*inner) {
                Some(vector) => indent + "  Some(value_offset) => {\n"@ + vector_header_text(
                    vector,
                    reader,
                    "value_offset"@,
                    indent + "    "@,
                ) + vector_literal_text(reader, indent + "    "@, "Some({"@) + indent
                    + "    })\n"@ + indent + "  }\n"@,
                None => indent + "  Some(value_offset) => Some("@ + read_expression_text(
                    *inner,
                    reader,
                    "value_offset"@,
                ) + ")\n"@,
            };
            indent + "match "@ + reader + ".read_option_value_offset("@ + offset + ", "@ + decimal(
                alignment as nat,
            ) + ") {\n"@ + indent + "  None => None\n"@ + some_arm + indent + "}\n"@
        },
        FieldKind::VecPrimitive(_, _) | FieldKind::VecString | FieldKind::VecStruct(_, _) => {
            vector_header_text(kind, reader, offset, indent) + vector_literal_text(
                reader,
                indent,
                "{"@,
            ) + indent + "}\n"@
        },
        _ => indent + read_expression_text(kind, reader, offset) + "\n"@,
    }
}

/// The validation statements of a value of `kind` at `offset`, used for the
/// values nested in options and vectors.
pub open spec fn validation_at_text(
    kind: FieldKind,
    reader: Seq<char>,
    offset: Seq<char>,
    indent: Seq<char>,
) -> Seq<char>
    decreases kind,
{
    match kind {
        FieldKind::Bool => indent + "let _ = "@ + reader + ".read_bool_strict("@ + offset + ")\n"@,
        FieldKind::Struct(name) => indent + "let value = "@ + name@ + "View::at("@ + reader + ", "@
            + offset + ")\n"@ + indent + "value.validate_all(remaining_depth - 1)\n"@,
        FieldKind::VecU32 => indent + "let _ = "@ + reader + ".read_vec_u32("@ + offset + ")\n"@,
        FieldKind::VecPrimitive(element, size) => indent + "let header = "@ + reader
            + ".read_vec_header_with_element_size("@ + offset + ", "@ + decimal(size as nat)
            + ")\n"@ + indent + "for index in 0..<header.length {\n"@ + validation_at_text(
            *element,
            reader,
            "header.data_offset + index * "@ + decimal(size as nat),
            indent + "  "@,
        ) + indent + "}\n"@,
        FieldKind::VecString => indent + "let header = "@ + reader
            + ".read_vec_header_with_element_size("@ + offset + ", 8)\n"@ + indent
            + "for index in 0..<header.length {\n"@ + indent + "  let _ = "@ + reader
            + ".read_string(header.data_offset + index * 8)\n"@ + indent + "}\n"@,
        FieldKind::VecStruct(name, size) => indent + "let header = "@ + reader
            + ".read_vec_header_with_element_size("@ + offset + ", "@ + decimal(size as nat)
            + ")\n"@ + indent + "for index in 0..<header.length {\n"@ + indent + "  let value = "@
            + name@ + "View::at("@ + reader + ", header.data_offset + index * "@ + decimal(
            size as nat,
        ) + ")\n"@ + indent + "  value.validate_all(remaining_depth - 1)\n"@ + indent + "}\n"@,
        FieldKind::Option(_, _) => Seq::empty(),
        _ => indent + "let _ = "@ + read_expression_text(kind, reader, offset) + "\n"@,
    }
}

/// The validation statements of a field of `kind`, whose accessor call is
/// `accessor`.
pub open spec fn validation_text(
    kind: FieldKind,
    reader: Seq<char>,
    offset: Seq<char>,
    accessor: Seq<char>,
    indent: Seq<char>,
) -> Seq<char> {
    match kind {
        FieldKind::Bool => indent + "let _ = "@ + reader + ".read_bool_strict("@ + offset + ")\n"@,
        FieldKind::Option(inner, alignment) => indent + "match "@ + reader
            + ".read_option_value_offset_strict("@ + offset + ", "@ + decimal(alignment as nat)
            + ") {\n"@ + indent + "  None => ()\n"@ + indent + "  Some(value_offset) => {\n"@
            + validation_at_text(*inner, reader, "value_offset"@, indent + "    "@) + indent
            + "  }\n"@ + indent + "}\n"@,
        FieldKind::VecString => indent + "let values = "@ + accessor + "\n"@ + indent
            + "for index in 0..<values.length() {\n"@ + indent + "  let _ = values.at(index)\n"@
            + indent + "}\n"@,
        FieldKind::VecStruct(_, _) => indent + "let values = "@ + accessor + "\n"@ + indent
            + "for index in 0..<values.length() {\n"@ + indent + "  match values.at(index) {\n"@
            + indent + "    None => ()\n"@ + indent
            + "    Some(value) => value.validate_all(remaining_depth - 1)\n"@ + indent + "  }\n"@
            + indent + "}\n"@,
        _ => validation_at_text(kind, reader, offset, indent),
    }
}

/// The declaration of a field vector view `view` and its `length` method,
/// up to the return type of its `at` method.
pub open spec fn vec_view_head_text(view: Seq<char>) -> Seq<char> {
    "\n///|\npub struct "@ + view
        + " {\n  reader : @rkyv.Reader\n  data_offset : Int\n  length : Int\n}\n\n///|\npub fn "@
        + view + "::length(self : "@ + view + ") -> Int {\n  self.length\n}\n\n///|\npub fn "@
        + view + "::at(\n  self : "@ + view + ",\n  index : Int,\n) -> "@
}

/// The opening of the body of a field vector view's `at` method, which
/// answers `None` for an index out of range.
pub open spec fn vec_view_bounds_text() -> Seq<char> {
    "? raise @rkyv.RkyvError {\n  if index < 0 || index >= self.length {\n    None\n  } else {\n    Some("@
}

/// The lazy view `view` of a vector of `element` values of `size` bytes.
pub open spec fn vec_primitive_view_text(view: Seq<char>, element: FieldKind, size: nat) -> Seq<
    char,
> {
    vec_view_head_text(view) + moonbit_type_text(element) + vec_view_bounds_text()
        + read_expression_text(
        element,
        "self.reader"@,
        "self.data_offset + index * "@ + decimal(size),
    ) + ")\n  }\n}\n"@
}

/// The lazy view `view` of a vector of strings.
pub open spec fn vec_string_view_text(view: Seq<char>) -> Seq<char> {
    vec_view_head_text(view) + "String"@ + vec_view_bounds_text()
        + "self.reader.read_string(self.data_offset + index * 8))\n  }\n}\n"@
}

/// The lazy view `view` of a vector of `element` structs of `size` bytes.
pub open spec fn vec_struct_view_text(view: Seq<char>, element: Seq<char>, size: nat) -> Seq<char> {
    vec_view_head_text(view) + element + "View"@ + vec_view_bounds_text() + element
        + "View::at(self.reader, self.data_offset + index * "@ + decimal(size) + "))\n  }\n}\n"@
}

/// The view generated for a field vector, if `kind` has one.
pub open spec fn field_vec_view_text(kind: FieldKind, view: Seq<char>) -> Seq<char> {
    match spec_vector_kind(kind) {
        Some(FieldKind::VecPrimitive(element, size)) => vec_primitive_view_text(
            view,
            *element,
            size as nat,
        ),
        Some(FieldKind::VecString) => vec_string_view_text(view),
        Some(FieldKind::VecStruct(element, size)) => vec_struct_view_text(
            view,
            element@,
            size as nat,
        ),
        _ => Seq::empty(),
    }
}

/// Whether the accessor of a field of `kind` hands its value back as a
/// `Result`. The accessors of `Vec<u32>` fields and of field vectors raise
/// instead, since `validate_all` walks the vectors through them.
pub open spec fn accessor_returns_result(kind: FieldKind) -> bool {
    !(kind is VecU32 || is_field_vector(kind))
}

/// The return type of an accessor returning `typ`, with the opening brace.
pub open spec fn accessor_return_text(typ: Seq<char>, kind: FieldKind) -> Seq<char> {
    if accessor_returns_result(kind) {
        "Result["@ + typ + ", @rkyv.RkyvError] {"@
    } else {
        typ + " raise @rkyv.RkyvError {"@
    }
}

/// The signature line of the accessor `name` returning `typ`; wrapped over
/// three lines for a vector field or when longer than eighty bytes.
pub open spec fn accessor_signature_text(
    view: Seq<char>,
    name: Seq<char>,
    typ: Seq<char>,
    kind: FieldKind,
) -> Seq<char> {
    let one_line = "pub fn "@ + view + "::"@ + name + "(self : "@ + view + ") -> "@
        + accessor_return_text(typ, kind);
    if kind is VecU32 || is_field_vector(kind) || byte_len(one_line) > 80 {
        "pub fn "@ + view + "::"@ + name + "(\n"@ + "  self : "@ + view + ",\n"@ + ") -> "@
            + accessor_return_text(typ, kind) + "\n"@
    } else {
        one_line + "\n"@
    }
}

/// The body of the accessor of a field of `kind` at `offset`: the reads,
/// caught into a `Result` where the accessor returns one.
pub open spec fn accessor_body_text(kind: FieldKind, offset: Seq<char>) -> Seq<char> {
    if accessor_returns_result(kind) {
        "  try {\n"@ + read_text(kind, "self.reader"@, offset, "    "@)
            + "  } catch {\n    error => Err(error)\n  } noraise {\n    value => Ok(value)\n  }\n"@
    } else {
        read_text(kind, "self.reader"@, offset, "  "@)
    }
}

/// The accessor of one field, followed by the view of its vector if any.
pub open spec fn accessor_text(view: Seq<char>, field: (String, usize, FieldKind)) -> Seq<char> {
    let name = field.0@;
    let kind = field.2;
    let vec_view = if spec_vector_kind(kind) is Some {
        Some(vec_view_name_text(view, name))
    } else {
        None
    };
    "\n///|\n"@ + accessor_signature_text(
        view,
        name,
        moonbit_field_type_text(kind, vec_view),
        kind,
    ) + accessor_body_text(kind, field_offset_text(field.1 as nat)) + "}\n"@
        + field_vec_view_text(kind, vec_view_name_text(view, name))
}

/// The validation statements of one field.
pub open spec fn field_validation_text(field: (String, usize, FieldKind)) -> Seq<char> {
    validation_text(
        field.2,
        "self.reader"@,
        field_offset_text(field.1 as nat),
        "self."@ + field.0@ + "()"@,
        "  "@,
    )
}

/// The validation statements of all fields, in declaration order.
pub open spec fn fields_validation_text(fields: Seq<(String, usize, FieldKind)>) -> Seq<char>
    decreases fields.len(),
{
    if fields.len() == 0 {
        Seq::empty()
    } else {
        fields_validation_text(fields.drop_last()) + field_validation_text(fields.last())
    }
}

/// The accessors of all fields, in declaration order.
pub open spec fn accessors_text(view: Seq<char>, fields: Seq<(String, usize, FieldKind)>) -> Seq<
    char,
>
    decreases fields.len(),
{
    if fields.len() == 0 {
        Seq::empty()
    } else {
        accessors_text(view, fields.drop_last()) + accessor_text(view, fields.last())
    }
}

/// The signature of the constructor `view::method(bytes)`, wrapped over three
/// lines when the one-line form is at least eighty-two bytes long.
pub open spec fn bytes_signature_text(view: Seq<char>, method: Seq<char>) -> Seq<char> {
    let one_line = "pub fn "@ + view + method + "(bytes : Bytes) -> "@ + view
        + " raise @rkyv.RkyvError {"@;
    if byte_len(one_line) >= 82 {
        "pub fn "@ + view + method + "(\n"@ + "  bytes : Bytes,\n"@ + ") -> "@ + view
            + " raise @rkyv.RkyvError {\n"@
    } else {
        one_line + "\n"@
    }
}

/// The view type of `view`, its `at`, `root` and `validate` constructors and
/// the opening of its `validate_all` method.
pub open spec fn struct_view_head_text(view: Seq<char>, size: nat) -> Seq<char> {
    "///|\npub struct "@ + view + " {\n  reader : @rkyv.Reader\n  offset : Int\n}\n\n///|\npub fn "@
        + view + "::at(\n  reader : @rkyv.Reader,\n  offset : Int,\n) -> "@ + view
        + " raise @rkyv.RkyvError {\n  reader.validate_range(offset, "@ + decimal(size)
        + ")\n  { reader, offset }\n}\n\n///|\n"@ + bytes_signature_text(view, "::root"@)
        + "  let reader = @rkyv.Reader::new(bytes)\n  let offset = reader.root_offset("@ + decimal(
        size,
    ) + ")\n  "@ + view + "::at(reader, offset)\n}\n\n///|\n"@ + bytes_signature_text(
        view,
        "::validate"@,
    ) + "  let view = "@ + view
        + "::root(bytes)\n  view.validate_all(256)\n  view\n}\n\n///|\npub fn "@ + view
        + "::validate_all(\n  self : "@ + view
        + ",\n  remaining_depth : Int,\n) -> Unit raise @rkyv.RkyvError {\n  @rkyv.require_validation_depth(remaining_depth)\n"@
}

/// The MoonBit source of the read-only view of `schema`.
pub open spec fn struct_view_text(schema: StructSchema) -> Seq<char> {
    let view = schema.name@ + "View"@;
    struct_view_head_text(view, schema.archived_size as nat) + fields_validation_text(
        schema.fields@,
    ) + "}\n"@ + accessors_text(view, schema.fields@)
}

/// The validation of a field that is no option, no vector of strings and no
/// vector of structs does not use the field's accessor: it is the validation
/// of a nested value of the same kind.
pub proof fn law_validation_ignores_accessor(
    kind: FieldKind,
    reader: Seq<char>,
    offset: Seq<char>,
    accessor: Seq<char>,
    indent: Seq<char>,
)
    requires
        !(kind is Option || kind is VecString || kind is VecStruct),
    ensures
        validation_text(kind, reader, offset, accessor, indent) == validation_at_text(
            kind,
            reader,
            offset,
            indent,
        ),
{
}

// ---------------------------------------------------------------------------
// The kinds the view renderer accepts
// ---------------------------------------------------------------------------
/// A value of `kind` nested in an option or a vector can be validated: it is
/// no option itself, and neither are the elements of vectors inside it.
pub open spec fn validates_nested(kind: FieldKind) -> bool
    decreases kind,
{
    match kind {
        FieldKind::Option(_, _) => false,
        FieldKind::VecPrimitive(element, _) => validates_nested(*element),
        _ => true,
    }
}

/// A field of `kind` can be rendered into a view: the value inside an option
/// validates as a nested value and is either read directly or is a vector;
/// the elements of a vector of primitives are read directly.
pub open spec fn renders_in_view(kind: FieldKind) -> bool {
    &&& match kind {
        FieldKind::Option(inner, _) => validates_nested(*inner) && (spec_vector_kind(
            *inner,
        ) is Some || !(*inner is Option)),
        _ => validates_nested(kind),
    }
    &&& match spec_vector_kind(kind) {
        Some(FieldKind::VecPrimitive(element, _)) => has_read_expression(*element),
        _ => true,
    }
}

/// Every field of `schema` can be rendered into a view.
pub open spec fn schema_renders_in_view(schema: StructSchema) -> bool {
    forall|i: int| 0 <= i < schema.fields@.len() ==> renders_in_view(#[trigger] schema.fields@[i].2)
}

// ---------------------------------------------------------------------------
// The renderers
// ---------------------------------------------------------------------------
/// The offset text of a field at `offset`.
fn field_offset(offset: usize) -> (r: String)
    ensures
        r@ == field_offset_text(offset as nat),
{
    if offset == 0 {
        "self.offset".to_owned()
    } else {
        let mut r = "self.offset + ".to_owned();
        push_decimal(&mut r, offset);
        r
    }
}

/// Appends the statement that reads a vector header.
fn render_vector_header(output: &mut String, kind: &FieldKind, reader: &str, offset: &str, indent: &str)
    requires
        is_field_vector(*kind),
    ensures
        final(output)@ == old(output)@ + vector_header_text(*kind, reader@, offset@, indent@),
{
    let element_size = vector_element_size(kind);
    let mut header = concat3(indent, "let header = ", reader);
    header.append(".read_vec_header_with_element_size(");
    header.append(offset);
    header.append(", ");
    push_decimal(&mut header, element_size);
    header.append(")");
    if text_byte_len(&header) > 80 {
        let mut text = concat3(indent, "let header = ", reader);
        text.append(".read_vec_header_with_element_size(\n");
        text.append(indent);
        text.append("  ");
        text.append(offset);
        text.append(",\n");
        text.append(indent);
        text.append("  ");
        push_decimal(&mut text, element_size);
        text.append(",\n");
        text.append(indent);
        text.append(")\n");
        output.append(text.as_str());
    } else {
        header.append("\n");
        output.append(header.as_str());
    }
}

/// Appends the struct literal of a field vector view over `header`.
fn push_vector_literal(output: &mut String, reader: &str, indent: &str, open: &str)
    ensures
        final(output)@ == old(output)@ + vector_literal_text(reader@, indent@, open@),
{
    let mut text = concat3(indent, open, "\n");
    text.append(indent);
    text.append("  reader: ");
    text.append(reader);
    text.append(",\n");
    text.append(indent);
    text.append("  data_offset: header.data_offset,\n");
    text.append(indent);
    text.append("  length: header.length,\n");
    output.append(text.as_str());
}

/// Appends the body of the accessor of a field of `kind`.
fn render_read(
    output: &mut String,
    kind: &FieldKind,
    reader: &str,
    offset: &str,
    indent: &str,
    vec_view: Option<&str>,
)
    requires
        renders_in_view(*kind),
        spec_vector_kind(*kind) is Some ==> vec_view is Some,
    ensures
        final(output)@ == old(output)@ + read_text(*kind, reader@, offset@, indent@),
{
    match kind {
        FieldKind::Option(inner, alignment) => {
            let mut text = concat3(indent, "match ", reader);
            text.append(".read_option_value_offset(");
            text.append(offset);
            text.append(", ");
            push_decimal(&mut text, *alignment);
            text.append(") {\n");
            text.append(indent);
            text.append("  None => None\n");
            let deeper = concat(indent, "    ");
            let mut some_arm = String::new();
            match vector_kind(&**inner) {
                Some(vector) => {
                    some_arm.append(indent);
                    some_arm.append("  Some(value_offset) => {\n");
                    assert(some_arm@ =~= indent@ + "  Some(value_offset) => {\n"@);
                    render_vector_header(&mut some_arm, vector, reader, "value_offset", deeper.as_str());
                    push_vector_literal(&mut some_arm, reader, deeper.as_str(), "Some({");
                    some_arm.append(indent);
                    some_arm.append("    })\n");
                    some_arm.append(indent);
                    some_arm.append("  }\n");
                },
                None => {
                    some_arm.append(indent);
                    some_arm.append("  Some(value_offset) => Some(");
                    assert(some_arm@ =~= indent@ + "  Some(value_offset) => Some("@);
                    let value = read_expression(&**inner, reader, "value_offset");
                    some_arm.append(value.as_str());
                    some_arm.append(")\n");
                },
            }
            text.append(some_arm.as_str());
            text.append(indent);
            text.append("}\n");
            output.append(text.as_str());
        },
        FieldKind::VecPrimitive(_, _) | FieldKind::VecString | FieldKind::VecStruct(_, _) => {
            let _ = vec_view.expect("vector fields always receive a generated view name");
            let mut text = String::new();
            render_vector_header(&mut text, kind, reader, offset, indent);
            assert(text@ =~= vector_header_text(*kind, reader@, offset@, indent@));
            push_vector_literal(&mut text, reader, indent, "{");
            text.append(indent);
            text.append("}\n");
            output.append(text.as_str());
        },
        _ => {
            let mut text = indent.to_owned();
            let value = read_expression(kind, reader, offset);
            text.append(value.as_str());
            text.append("\n");
            output.append(text.as_str());
        },
    }
}

/// Appends the validation statements of a value of `kind` nested in an
/// option or a vector.
fn render_validation_at(output: &mut String, kind: &FieldKind, reader: &str, offset: &str, indent: &str)
    requires
        validates_nested(*kind),
    ensures
        final(output)@ == old(output)@ + validation_at_text(*kind, reader@, offset@, indent@),
    decreases kind,
{
    match kind {
        FieldKind::Bool => {
            let mut text = concat3(indent, "let _ = ", reader);
            text.append(".read_bool_strict(");
            text.append(offset);
            text.append(")\n");
            output.append(text.as_str());
        },
        FieldKind::Struct(name) => {
            let mut text = concat3(indent, "let value = ", name.as_str());
            text.append("View::at(");
            text.append(reader);
            text.append(", ");
            text.append(offset);
            text.append(")\n");
            text.append(indent);
            text.append("value.validate_all(remaining_depth - 1)\n");
            output.append(text.as_str());
        },
        FieldKind::VecU32 => {
            let mut text = concat3(indent, "let _ = ", reader);
            text.append(".read_vec_u32(");
            text.append(offset);
            text.append(")\n");
            output.append(text.as_str());
        },
        FieldKind::VecPrimitive(element, element_size) => {
            let mut text = concat3(indent, "let header = ", reader);
            text.append(".read_vec_header_with_element_size(");
            text.append(offset);
            text.append(", ");
            push_decimal(&mut text, *element_size);
            text.append(")\n");
            text.append(indent);
            text.append("for index in 0..<header.length {\n");
            let mut element_offset = "header.data_offset + index * ".to_owned();
            push_decimal(&mut element_offset, *element_size);
            let deeper = concat(indent, "  ");
            render_validation_at(
                &mut text,
                &**element,
                reader,
                element_offset.as_str(),
                deeper.as_str(),
            );
            text.append(indent);
            text.append("}\n");
            output.append(text.as_str());
        },
        FieldKind::VecString => {
            let mut text = concat3(indent, "let header = ", reader);
            text.append(".read_vec_header_with_element_size(");
            text.append(offset);
            text.append(", 8)\n");
            text.append(indent);
            text.append("for index in 0..<header.length {\n");
            text.append(indent);
            text.append("  let _ = ");
            text.append(reader);
            text.append(".read_string(header.data_offset + index * 8)\n");
            text.append(indent);
            text.append("}\n");
            output.append(text.as_str());
        },
        FieldKind::VecStruct(name, element_size) => {
            let mut text = concat3(indent, "let header = ", reader);
            text.append(".read_vec_header_with_element_size(");
            text.append(offset);
            text.append(", ");
            push_decimal(&mut text, *element_size);
            text.append(")\n");
            text.append(indent);
            text.append("for index in 0..<header.length {\n");
            text.append(indent);
            text.append("  let value = ");
            text.append(name.as_str());
            text.append("View::at(");
            text.append(reader);
            text.append(", header.data_offset + index * ");
            push_decimal(&mut text, *element_size);
            text.append(")\n");
            text.append(indent);
            text.append("  value.validate_all(remaining_depth - 1)\n");
            text.append(indent);
            text.append("}\n");
            output.append(text.as_str());
        },
        FieldKind::Option(_, _) => {},
        _ => {
            let mut text = concat(indent, "let _ = ");
            let value = read_expression(kind, reader, offset);
            text.append(value.as_str());
            text.append("\n");
            output.append(text.as_str());
        },
    }
}

/// Appends the validation statements of a field of `kind`.
fn render_validation(
    output: &mut String,
    kind: &FieldKind,
    reader: &str,
    offset: &str,
    accessor: &str,
    indent: &str,
)
    requires
        renders_in_view(*kind),
    ensures
        final(output)@ == old(output)@ + validation_text(
            *kind,
            reader@,
            offset@,
            accessor@,
            indent@,
        ),
{
    match kind {
        FieldKind::Bool => {
            let mut text = concat3(indent, "let _ = ", reader);
            text.append(".read_bool_strict(");
            text.append(offset);
            text.append(")\n");
            output.append(text.as_str());
        },
        FieldKind::Option(inner, alignment) => {
            let mut text = concat3(indent, "match ", reader);
            text.append(".read_option_value_offset_strict(");
            text.append(offset);
            text.append(", ");
            push_decimal(&mut text, *alignment);
            text.append(") {\n");
            text.append(indent);
            text.append("  None => ()\n");
            text.append(indent);
            text.append("  Some(value_offset) => {\n");
            let deeper = concat(indent, "    ");
            render_validation_at(&mut text, &**inner, reader, "value_offset", deeper.as_str());
            text.append(indent);
            text.append("  }\n");
            text.append(indent);
            text.append("}\n");
            output.append(text.as_str());
        },
        FieldKind::VecString => {
            let mut text = concat3(indent, "let values = ", accessor);
            text.append("\n");
            text.append(indent);
            text.append("for index in 0..<values.length() {\n");
            text.append(indent);
            text.append("  let _ = values.at(index)\n");
            text.append(indent);
            text.append("}\n");
            output.append(text.as_str());
        },
        FieldKind::VecStruct(_, _) => {
            let mut text = concat3(indent, "let values = ", accessor);
            text.append("\n");
            text.append(indent);
            text.append("for index in 0..<values.length() {\n");
            text.append(indent);
            text.append("  match values.at(index) {\n");
            text.append(indent);
            text.append("    None => ()\n");
            text.append(indent);
            text.append("    Some(value) => value.validate_all(remaining_depth - 1)\n");
            text.append(indent);
            text.append("  }\n");
            text.append(indent);
            text.append("}\n");
            output.append(text.as_str());
        },
        _ => render_validation_at(output, kind, reader, offset, indent),
    }
}

/// Appends the declaration and `length` method of a field vector view, up to
/// the return type of its `at` method.
fn push_vec_view_head(output: &mut String, view: &str)
    ensures
        final(output)@ == old(output)@ + vec_view_head_text(view@),
{
    let mut text = concat(
        "\n///|\npub struct ",
        view,
    );
    text.append(" {\n  reader : @rkyv.Reader\n  data_offset : Int\n  length : Int\n}\n\n///|\npub fn ");
    text.append(view);
    text.append("::length(self : ");
    text.append(view);
    text.append(") -> Int {\n  self.length\n}\n\n///|\npub fn ");
    text.append(view);
    text.append("::at(\n  self : ");
    text.append(view);
    text.append(",\n  index : Int,\n) -> ");
    output.append(text.as_str());
}

/// Appends the lazy view of a vector of primitive values.
fn render_vec_primitive_view(output: &mut String, view: &str, element: &FieldKind, element_size: usize)
    requires
        has_read_expression(*element),
    ensures
        final(output)@ == old(output)@ + vec_primitive_view_text(
            view@,
            *element,
            element_size as nat,
        ),
{
    let mut text = String::new();
    push_vec_view_head(&mut text, view);
    assert(text@ =~= vec_view_head_text(view@));
    let typ = moonbit_type(element);
    text.append(typ.as_str());
    text.append(
        "? raise @rkyv.RkyvError {\n  if index < 0 || index >= self.length {\n    None\n  } else {\n    Some(",
    );
    let mut element_offset = "self.data_offset + index * ".to_owned();
    push_decimal(&mut element_offset, element_size);
    let value = read_expression(element, "self.reader", element_offset.as_str());
    text.append(value.as_str());
    text.append(")\n  }\n}\n");
    output.append(text.as_str());
}

/// Appends the lazy view of a vector of strings.
fn render_vec_string_view(output: &mut String, view: &str)
    ensures
        final(output)@ == old(output)@ + vec_string_view_text(view@),
{
    let mut text = String::new();
    push_vec_view_head(&mut text, view);
    assert(text@ =~= vec_view_head_text(view@));
    text.append("String");
    text.append(
        "? raise @rkyv.RkyvError {\n  if index < 0 || index >= self.length {\n    None\n  } else {\n    Some(",
    );
    text.append("self.reader.read_string(self.data_offset + index * 8))\n  }\n}\n");
    output.append(text.as_str());
}

/// Appends the lazy view of a vector of nested structs.
fn render_vec_struct_view(output: &mut String, view: &str, element: &str, element_size: usize)
    ensures
        final(output)@ == old(output)@ + vec_struct_view_text(view@, element@, element_size as nat),
{
    let mut text = String::new();
    push_vec_view_head(&mut text, view);
    assert(text@ =~= vec_view_head_text(view@));
    text.append(element);
    text.append("View");
    text.append(
        "? raise @rkyv.RkyvError {\n  if index < 0 || index >= self.length {\n    None\n  } else {\n    Some(",
    );
    text.append(element);
    text.append("View::at(self.reader, self.data_offset + index * ");
    push_decimal(&mut text, element_size);
    text.append("))\n  }\n}\n");
    output.append(text.as_str());
}

/// The signature of the constructor `view::method(bytes)`.
fn bytes_signature(view: &str, method: &str) -> (r: String)
    ensures
        r@ == bytes_signature_text(view@, method@),
{
    let mut one_line = concat3("pub fn ", view, method);
    one_line.append("(bytes : Bytes) -> ");
    one_line.append(view);
    one_line.append(" raise @rkyv.RkyvError {");
    if text_byte_len(&one_line) >= 82 {
        let mut text = concat3("pub fn ", view, method);
        text.append("(\n");
        text.append("  bytes : Bytes,\n");
        text.append(") -> ");
        text.append(view);
        text.append(" raise @rkyv.RkyvError {\n");
        text
    } else {
        one_line.append("\n");
        one_line
    }
}

/// Whether the accessor of a field of `kind` returns a `Result`.
fn check_accessor_returns_result(kind: &FieldKind) -> (r: bool)
    ensures
        r == accessor_returns_result(*kind),
{
    match kind {
        FieldKind::VecU32 | FieldKind::VecPrimitive(_, _) | FieldKind::VecString
        | FieldKind::VecStruct(_, _) => false,
        _ => true,
    }
}

/// The return type of an accessor returning `typ`, with the opening brace.
fn accessor_return(typ: &str, kind: &FieldKind) -> (r: String)
    ensures
        r@ == accessor_return_text(typ@, *kind),
{
    if check_accessor_returns_result(kind) {
        concat3("Result[", typ, ", @rkyv.RkyvError] {")
    } else {
        concat(typ, " raise @rkyv.RkyvError {")
    }
}

/// The accessor signature of the field `name` returning `typ`.
fn accessor_signature(view: &str, name: &str, typ: &str, kind: &FieldKind) -> (r: String)
    ensures
        r@ == accessor_signature_text(view@, name@, typ@, *kind),
{
    let ret = accessor_return(typ, kind);
    let mut one_line = concat3("pub fn ", view, "::");
    one_line.append(name);
    one_line.append("(self : ");
    one_line.append(view);
    one_line.append(") -> ");
    one_line.append(ret.as_str());
    let wrapped = match kind {
        FieldKind::VecU32 | FieldKind::VecPrimitive(_, _) | FieldKind::VecString
        | FieldKind::VecStruct(_, _) => true,
        _ => false,
    };
    if wrapped || text_byte_len(&one_line) > 80 {
        let mut text = concat3("pub fn ", view, "::");
        text.append(name);
        text.append("(\n");
        text.append("  self : ");
        text.append(view);
        text.append(",\n");
        text.append(") -> ");
        text.append(ret.as_str());
        text.append("\n");
        text
    } else {
        one_line.append("\n");
        one_line
    }
}

/// Appends the body of the accessor of a field of `kind` at `offset`.
fn render_accessor_body(output: &mut String, kind: &FieldKind, offset: &str, vec_view: Option<&str>)
    requires
        renders_in_view(*kind),
        spec_vector_kind(*kind) is Some ==> vec_view is Some,
    ensures
        final(output)@ == old(output)@ + accessor_body_text(*kind, offset@),
{
    if check_accessor_returns_result(kind) {
        let mut text = "  try {\n".to_owned();
        render_read(&mut text, kind, "self.reader", offset, "    ", vec_view);
        text.append(
            "  } catch {\n    error => Err(error)\n  } noraise {\n    value => Ok(value)\n  }\n",
        );
        output.append(text.as_str());
    } else {
        render_read(output, kind, "self.reader", offset, "  ", vec_view);
    }
}

/// The accessor of one field and the view of its vector, if any.
fn render_accessor(view: &str, name: &String, offset: usize, kind: &FieldKind) -> (r: String)
    requires
        renders_in_view(*kind),
    ensures
        r@ == accessor_text(view@, (*name, offset, *kind)),
{
    let vec_view = match vector_kind(kind) {
        Some(_) => Some(vec_view_name(view, name.as_str())),
        None => None,
    };
    let vec_view_str: Option<&str> = match &vec_view {
        Some(v) => Some(v.as_str()),
        None => None,
    };
    let typ = moonbit_field_type(kind, vec_view_str);
    let mut text = "\n///|\n".to_owned();
    let signature = accessor_signature(view, name.as_str(), typ.as_str(), kind);
    text.append(signature.as_str());
    let offset_text = field_offset(offset);
    render_accessor_body(&mut text, kind, offset_text.as_str(), vec_view_str);
    text.append("}\n");
    let mut vector_text = String::new();
    if let Some(vec_view) = &vec_view {
        match vector_kind(kind).expect("field-specific vector view") {
            FieldKind::VecPrimitive(element, element_size) => render_vec_primitive_view(
                &mut vector_text,
                vec_view.as_str(),
                &**element,
                *element_size,
            ),
            FieldKind::VecString => render_vec_string_view(&mut vector_text, vec_view.as_str()),
            FieldKind::VecStruct(element, element_size) => render_vec_struct_view(
                &mut vector_text,
                vec_view.as_str(),
                element.as_str(),
                *element_size,
            ),
            _ => {},
        }
    }
    assert(vector_text@ =~= field_vec_view_text(*kind, vec_view_name_text(view@, name@)));
    text.append(vector_text.as_str());
    text
}

/// Whether a value of `kind` nested in an option or a vector can be validated.
fn check_validates_nested(kind: &FieldKind) -> (r: bool)
    ensures
        r == validates_nested(*kind),
    decreases kind,
{
    match kind {
        FieldKind::Option(_, _) => false,
        FieldKind::VecPrimitive(element, _) => check_validates_nested(&**element),
        _ => true,
    }
}

/// Whether a field of `kind` can be rendered into a view.
pub fn kind_renders_in_view(kind: &FieldKind) -> (r: bool)
    ensures
        r == renders_in_view(*kind),
{
    let validates = match kind {
        FieldKind::Option(inner, _) => check_validates_nested(&**inner) && (vector_kind(
            &**inner,
        ).is_some() || !matches!(**inner, FieldKind::Option(_, _))),
        _ => check_validates_nested(kind),
    };
    let elements_read = match vector_kind(kind) {
        Some(FieldKind::VecPrimitive(element, _)) => !matches!(
            **element,
            FieldKind::VecPrimitive(_, _) | FieldKind::VecString | FieldKind::VecStruct(_, _)
                | FieldKind::Option(_, _)
        ),
        _ => true,
    };
    validates && elements_read
}

impl StructSchema {
    /// Whether every field can be rendered into a view, which
    /// `render_moonbit` needs.
    pub fn supports_view(&self) -> (r: bool)
        ensures
            r == schema_renders_in_view(*self),
    {
        let n = self.fields.len();
        let mut i: usize = 0;
        while i < n
            invariant
                i <= n,
                n == self.fields@.len(),
                forall|k: int| 0 <= k < i ==> renders_in_view(#[trigger] self.fields@[k].2),
            decreases n - i,
        {
            if !kind_renders_in_view(&self.fields[i].2) {
                return false;
            }
            i = i + 1;
        }
        true
    }

    /// Renders a MoonBit source file that expects `mizchi/rkyv` as `@rkyv`.
    pub fn render_moonbit(&self) -> (r: String)
        requires
            schema_renders_in_view(*self),
        ensures
            r@ == struct_view_text(*self),
    {
        let view = concat(self.name.as_str(), "View");
        let mut output = "///|\npub struct ".to_owned();
        output.append(view.as_str());
        output.append(" {\n  reader : @rkyv.Reader\n  offset : Int\n}\n\n///|\npub fn ");
        output.append(view.as_str());
        output.append("::at(\n  reader : @rkyv.Reader,\n  offset : Int,\n) -> ");
        output.append(view.as_str());
        output.append(" raise @rkyv.RkyvError {\n  reader.validate_range(offset, ");
        push_decimal(&mut output, self.archived_size);
        output.append(")\n  { reader, offset }\n}\n\n///|\n");
        // moonfmt keeps the shorter ProfileView/AccountView forms on one line,
        // but wraps the 82-column DirectoryView form. Keep generated
        // fixtures formatter-stable instead of requiring a formatting pass.
        let root_signature = bytes_signature(view.as_str(), "::root");
        output.append(root_signature.as_str());
        output.append("  let reader = @rkyv.Reader::new(bytes)\n  let offset = reader.root_offset(");
        push_decimal(&mut output, self.archived_size);
        output.append(")\n  ");
        output.append(view.as_str());
        output.append("::at(reader, offset)\n}\n\n///|\n");
        let validate_signature = bytes_signature(view.as_str(), "::validate");
        output.append(validate_signature.as_str());
        output.append("  let view = ");
        output.append(view.as_str());
        output.append("::root(bytes)\n  view.validate_all(256)\n  view\n}\n\n///|\npub fn ");
        output.append(view.as_str());
        output.append("::validate_all(\n  self : ");
        output.append(view.as_str());
        output.append(
            ",\n  remaining_depth : Int,\n) -> Unit raise @rkyv.RkyvError {\n  @rkyv.require_validation_depth(remaining_depth)\n",
        );

        let mut validations = String::new();
        let n = self.fields.len();
        let mut i: usize = 0;
        while i < n
            invariant
                i <= n,
                n == self.fields@.len(),
                schema_renders_in_view(*self),
                validations@ == fields_validation_text(self.fields@.take(i as int)),
            decreases n - i,
        {
            let (name, offset, kind) = &self.fields[i];
            let offset_text = field_offset(*offset);
            let accessor = concat3("self.", name.as_str(), "()");
            assert(renders_in_view(self.fields@[i as int].2));
            render_validation(
                &mut validations,
                kind,
                "self.reader",
                offset_text.as_str(),
                accessor.as_str(),
                "  ",
            );
            assert(self.fields@.take(i + 1).drop_last() =~= self.fields@.take(i as int));
            i = i + 1;
        }
        assert(self.fields@.take(n as int) =~= self.fields@);
        output.append(validations.as_str());
        output.append("}\n");

        let mut accessors = String::new();
        let mut j: usize = 0;
        while j < n
            invariant
                j <= n,
                n == self.fields@.len(),
                schema_renders_in_view(*self),
                accessors@ == accessors_text(view@, self.fields@.take(j as int)),
            decreases n - j,
        {
            let (name, offset, kind) = &self.fields[j];
            assert(renders_in_view(self.fields@[j as int].2));
            let accessor = render_accessor(view.as_str(), name, *offset, kind);
            accessors.append(accessor.as_str());
            assert(self.fields@.take(j + 1).drop_last() =~= self.fields@.take(j as int));
            j = j + 1;
        }
        output.append(accessors.as_str());
        output
    }
}

} // verus!
