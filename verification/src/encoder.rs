//! The typed MoonBit input and encoder generated beside a struct view: an
//! input struct, its constructor, its runtime schema in layout order, its
//! conversion to a runtime value, and `encode`.
use vstd::prelude::*;
use crate::kinds::{
    concat, concat3, encoder_input_type, encoder_input_type_text, encoder_scalar_value_expression,
    encoder_scalar_value_text, encoder_schema_expression, encoder_schema_expression_text,
    encoder_supported, has_encoder_input_type, input_name, input_name_text,
    is_scalar_kind, read_expression_text,
};
use crate::layout::{
    distinct_offsets, law_layout_independent_of_declaration_order, layout_order, sort_by_offset,
};
use crate::schema::{EncoderRenderError, FieldKind, StructSchema};
use crate::text::{ascii_lowercase, byte_len, decimal, push_decimal, str_debug, string_debug, text_byte_len};
use crate::view::{schema_renders_in_view, struct_view_text};

verus! {

// ---------------------------------------------------------------------------
// The texts
// ---------------------------------------------------------------------------
/// A field of `kind` can be encoded: every vector of primitives, directly or
/// under options, holds scalar elements.
pub open spec fn encodes(kind: FieldKind) -> bool
    decreases kind,
{
    match kind {
        FieldKind::VecPrimitive(element, _) => is_scalar_kind(*element),
        FieldKind::Option(inner, _) => encodes(*inner),
        _ => true,
    }
}

/// Every field of `schema` can be encoded.
pub open spec fn schema_encodes(schema: StructSchema) -> bool {
    forall|i: int| 0 <= i < schema.fields@.len() ==> encodes(#[trigger] schema.fields@[i].2)
}

/// The loop that converts the array `source` into runtime values named
/// `values`, each element through `value`.
pub open spec fn array_binding_text(
    source: Seq<char>,
    target: Seq<char>,
    indent: Seq<char>,
    value: Seq<char>,
) -> Seq<char> {
    let values = target + "_items"@;
    indent + "let "@ + values + " : Array[@rkyv.Value] = []\n"@ + indent + "for value in "@ + source
        + " {\n"@ + indent + "  "@ + values + ".push("@ + value + ")\n"@ + indent + "}\n"@ + indent
        + "let "@ + target + " = @rkyv.Value::Vec("@ + values + ")\n"@
}

/// The statements that bind `target` to the runtime value of the input
/// `source` of `kind`.
pub open spec fn value_binding_text(
    kind: FieldKind,
    source: Seq<char>,
    target: Seq<char>,
    indent: Seq<char>,
) -> Seq<char>
    decreases kind,
{
    match kind {
        FieldKind::VecU32 => indent + "let "@ + target + " = @rkyv.Value::VecU32("@ + source
            + ")\n"@,
        FieldKind::VecPrimitive(element, _) => array_binding_text(
            source,
            target,
            indent,
            encoder_scalar_value_text(*element, "value"@),
        ),
        FieldKind::VecString => array_binding_text(
            source,
            target,
            indent,
            "@rkyv.Value::String(value)"@,
        ),
        FieldKind::VecStruct(_, _) => array_binding_text(source, target, indent, "value.to_value()"@),
        FieldKind::Option(inner, _) => indent + "let "@ + target + " = match "@ + source + " {\n"@
            + indent + "  None => @rkyv.Value::Option(None)\n"@ + indent + "  Some(value) => {\n"@
            + value_binding_text(*inner, "value"@, target + "_some"@, indent + "    "@) + indent
            + "    @rkyv.Value::Option(Some("@ + target + "_some))\n"@ + indent + "  }\n"@ + indent
            + "}\n"@,
        _ => indent + "let "@ + target + " = "@ + encoder_scalar_value_text(kind, source) + "\n"@,
    }
}

/// One member of the input struct, ended by `end`.
pub open spec fn input_member_text(field: (String, usize, FieldKind), end: Seq<char>) -> Seq<char> {
    "  "@ + field.0@ + " : "@ + encoder_input_type_text(field.2) + end
}

/// The members of the input struct, ended by `end`, in declaration order.
pub open spec fn input_members_text(fields: Seq<(String, usize, FieldKind)>, end: Seq<char>) -> Seq<
    char,
>
    decreases fields.len(),
{
    if fields.len() == 0 {
        Seq::empty()
    } else {
        input_members_text(fields.drop_last(), end) + input_member_text(fields.last(), end)
    }
}

/// The field names separated by `, `.
pub open spec fn field_names_text(fields: Seq<(String, usize, FieldKind)>) -> Seq<char>
    decreases fields.len(),
{
    if fields.len() == 0 {
        Seq::empty()
    } else if fields.len() == 1 {
        fields[0].0@
    } else {
        field_names_text(fields.drop_last()) + ", "@ + fields.last().0@
    }
}

/// The schema entries of the fields in layout order.
pub open spec fn schema_entries_text(layout: Seq<(String, usize, FieldKind)>) -> Seq<char>
    decreases layout.len(),
{
    if layout.len() == 0 {
        Seq::empty()
    } else {
        schema_entries_text(layout.drop_last()) + "      { name: \""@ + layout.last().0@
            + "\", schema: "@ + encoder_schema_expression_text(layout.last().2) + " },\n"@
    }
}

/// The field offsets in layout order, separated by `, `.
pub open spec fn offsets_text(layout: Seq<(String, usize, FieldKind)>) -> Seq<char>
    decreases layout.len(),
{
    if layout.len() == 0 {
        Seq::empty()
    } else if layout.len() == 1 {
        decimal(layout[0].1 as nat)
    } else {
        offsets_text(layout.drop_last()) + ", "@ + decimal(layout.last().1 as nat)
    }
}

/// The bindings of the runtime values of the fields in layout order.
pub open spec fn value_bindings_text(layout: Seq<(String, usize, FieldKind)>) -> Seq<char>
    decreases layout.len(),
{
    if layout.len() == 0 {
        Seq::empty()
    } else {
        value_bindings_text(layout.drop_last()) + value_binding_text(
            layout.last().2,
            "self."@ + layout.last().0@,
            layout.last().0@ + "_value"@,
            "  "@,
        )
    }
}

/// The members of the runtime struct value in layout order.
pub open spec fn value_members_text(layout: Seq<(String, usize, FieldKind)>) -> Seq<char>
    decreases layout.len(),
{
    if layout.len() == 0 {
        Seq::empty()
    } else {
        value_members_text(layout.drop_last()) + "    { name: \""@ + layout.last().0@
            + "\", value: "@ + layout.last().0@ + "_value },\n"@
    }
}

/// The signature of `encode`, wrapped over three lines when the one-line
/// form is at least eighty-two bytes long.
pub open spec fn encode_signature_text(input: Seq<char>) -> Seq<char> {
    let one_line = "pub fn "@ + input + "::encode(self : "@ + input
        + ") -> Bytes raise @rkyv.SchemaError {"@;
    if byte_len(one_line) >= 82 {
        "pub fn "@ + input + "::encode(\n"@ + "  self : "@ + input + ",\n"@
            + ") -> Bytes raise @rkyv.SchemaError {\n"@
    } else {
        one_line + "\n"@
    }
}

/// The input struct and constructor of `schema`, whose members follow the
/// declaration order.
pub open spec fn encoder_declaration_text(schema: StructSchema) -> Seq<char> {
    let input = input_name_text(schema.name@);
    "\n///|\npub struct "@ + input + " {\n"@ + input_members_text(schema.fields@, "\n"@)
        + "}\n\n///|\npub fn "@ + input + "::new(\n"@ + input_members_text(schema.fields@, ",\n"@)
        + ") -> "@ + input + " {\n  { "@ + field_names_text(schema.fields@) + " }\n}\n\n"@
}

/// The runtime schema, conversion and `encode` of `schema`, which list the
/// fields in layout order.
pub open spec fn encoder_layout_text(schema: StructSchema) -> Seq<char> {
    let input = input_name_text(schema.name@);
    let layout = sort_by_offset(schema.fields@);
    "///|\npub fn "@ + input
        + "::schema() -> @rkyv.Schema {\n  @rkyv.Schema::StructLayout(\n    [\n"@
        + schema_entries_text(layout) + "    ],\n    ["@ + offsets_text(layout) + "],\n    "@
        + decimal(schema.archived_size as nat) + ",\n  )\n}\n\n///|\npub fn "@ + input
        + "::to_value(self : "@ + input + ") -> @rkyv.Value {\n"@ + value_bindings_text(layout)
        + "  @rkyv.Value::Struct([\n"@ + value_members_text(layout) + "  ])\n}\n\n///|\n"@
        + encode_signature_text(input) + "  "@ + input + "::schema().encode(self.to_value())\n}\n"@
}

/// The input struct, constructor, schema, conversion and `encode` of `schema`.
pub open spec fn encoder_text(schema: StructSchema) -> Seq<char> {
    encoder_declaration_text(schema) + encoder_layout_text(schema)
}

// ---------------------------------------------------------------------------
// The renderers
// ---------------------------------------------------------------------------
/// Lemma: an encodable kind has an encoder input type.
proof fn lemma_encodes_has_input_type(kind: FieldKind)
    requires
        encodes(kind),
    ensures
        has_encoder_input_type(kind),
    decreases kind,
{
    if let FieldKind::Option(inner, _) = kind {
        lemma_encodes_has_input_type(*inner);
    }
}

/// Appends the loop that converts the array `source` into runtime values.
fn push_array_binding(output: &mut String, source: &str, target: &str, indent: &str, value: &str)
    ensures
        final(output)@ == old(output)@ + array_binding_text(source@, target@, indent@, value@),
{
    let values = concat(target, "_items");
    let mut text = concat3(indent, "let ", values.as_str());
    text.append(" : Array[@rkyv.Value] = []\n");
    text.append(indent);
    text.append("for value in ");
    text.append(source);
    text.append(" {\n");
    text.append(indent);
    text.append("  ");
    text.append(values.as_str());
    text.append(".push(");
    text.append(value);
    text.append(")\n");
    text.append(indent);
    text.append("}\n");
    text.append(indent);
    text.append("let ");
    text.append(target);
    text.append(" = @rkyv.Value::Vec(");
    text.append(values.as_str());
    text.append(")\n");
    output.append(text.as_str());
}

/// Appends the statements that bind `target` to the runtime value of `source`.
fn render_encoder_value_binding(
    output: &mut String,
    kind: &FieldKind,
    source: &str,
    target: &str,
    indent: &str,
)
    requires
        encodes(*kind),
    ensures
        final(output)@ == old(output)@ + value_binding_text(*kind, source@, target@, indent@),
    decreases kind,
{
    match kind {
        FieldKind::VecU32 => {
            let mut text = concat3(indent, "let ", target);
            text.append(" = @rkyv.Value::VecU32(");
            text.append(source);
            text.append(")\n");
            output.append(text.as_str());
        },
        FieldKind::VecPrimitive(element, _) => {
            let value = encoder_scalar_value_expression(&**element, "value");
            push_array_binding(output, source, target, indent, value.as_str());
        },
        FieldKind::VecString => {
            push_array_binding(output, source, target, indent, "@rkyv.Value::String(value)");
        },
        FieldKind::VecStruct(_, _) => {
            push_array_binding(output, source, target, indent, "value.to_value()");
        },
        FieldKind::Option(inner, _) => {
            let mut text = concat3(indent, "let ", target);
            text.append(" = match ");
            text.append(source);
            text.append(" {\n");
            text.append(indent);
            text.append("  None => @rkyv.Value::Option(None)\n");
            text.append(indent);
            text.append("  Some(value) => {\n");
            let some_target = concat(target, "_some");
            let deeper = concat(indent, "    ");
            render_encoder_value_binding(
                &mut text,
                &**inner,
                "value",
                some_target.as_str(),
                deeper.as_str(),
            );
            text.append(indent);
            text.append("    @rkyv.Value::Option(Some(");
            text.append(target);
            text.append("_some))\n");
            text.append(indent);
            text.append("  }\n");
            text.append(indent);
            text.append("}\n");
            output.append(text.as_str());
        },
        _ => {
            let mut text = concat3(indent, "let ", target);
            text.append(" = ");
            let value = encoder_scalar_value_expression(kind, source);
            text.append(value.as_str());
            text.append("\n");
            output.append(text.as_str());
        },
    }
}

/// The members of the input struct, each ended by `end`.
fn render_input_members(fields: &Vec<(String, usize, FieldKind)>, end: &str) -> (r: String)
    requires
        forall|i: int| 0 <= i < fields@.len() ==> encodes(#[trigger] fields@[i].2),
    ensures
        r@ == input_members_text(fields@, end@),
{
    let mut text = String::new();
    let n = fields.len();
    let mut i: usize = 0;
    while i < n
        invariant
            i <= n,
            n == fields@.len(),
            forall|i: int| 0 <= i < fields@.len() ==> encodes(#[trigger] fields@[i].2),
            text@ == input_members_text(fields@.take(i as int), end@),
        decreases n - i,
    {
        let (name, _, kind) = &fields[i];
        proof {
            lemma_encodes_has_input_type(fields@[i as int].2);
        }
        let typ = encoder_input_type(kind);
        let mut member = concat3("  ", name.as_str(), " : ");
        member.append(typ.as_str());
        member.append(end);
        text.append(member.as_str());
        assert(fields@.take(i + 1).drop_last() =~= fields@.take(i as int));
        i = i + 1;
    }
    assert(fields@.take(n as int) =~= fields@);
    text
}

/// The field names separated by `, `.
fn render_field_names(fields: &Vec<(String, usize, FieldKind)>) -> (r: String)
    ensures
        r@ == field_names_text(fields@),
{
    let mut text = String::new();
    let n = fields.len();
    let mut i: usize = 0;
    while i < n
        invariant
            i <= n,
            n == fields@.len(),
            text@ == field_names_text(fields@.take(i as int)),
        decreases n - i,
    {
        let (name, _, _) = &fields[i];
        if i > 0 {
            text.append(", ");
        }
        text.append(name.as_str());
        assert(fields@.take(i + 1).drop_last() =~= fields@.take(i as int));
        if i == 0 {
            assert(text@ =~= field_names_text(fields@.take(1)));
        }
        i = i + 1;
    }
    assert(fields@.take(n as int) =~= fields@);
    text
}

/// Appends the input struct, constructor, schema, conversion and `encode` of
/// `schema`.
fn render_encoder(output: &mut String, schema: &StructSchema)
    requires
        schema_encodes(*schema),
    ensures
        final(output)@ == old(output)@ + encoder_text(*schema),
{
    let input = input_name(schema.name.as_str());
    let mut text = "\n///|\npub struct ".to_owned();
    text.append(input.as_str());
    text.append(" {\n");
    let members = render_input_members(&schema.fields, "\n");
    text.append(members.as_str());
    text.append("}\n\n///|\npub fn ");
    text.append(input.as_str());
    text.append("::new(\n");
    let parameters = render_input_members(&schema.fields, ",\n");
    text.append(parameters.as_str());
    text.append(") -> ");
    text.append(input.as_str());
    text.append(" {\n  { ");
    let names = render_field_names(&schema.fields);
    text.append(names.as_str());
    text.append(" }\n}\n\n");

    let layout_fields = layout_order(&schema.fields);
    let ghost layout = sort_by_offset(schema.fields@);
    let mut layout_text = "///|\npub fn ".to_owned();
    layout_text.append(input.as_str());
    layout_text.append("::schema() -> @rkyv.Schema {\n  @rkyv.Schema::StructLayout(\n    [\n");
    let n = layout_fields.len();
    let mut entries = String::new();
    let mut offsets = String::new();
    let mut bindings = String::new();
    let mut values = String::new();
    proof {
        lemma_sort_keeps_encodes(schema.fields@);
    }
    let mut i: usize = 0;
    while i < n
        invariant
            i <= n,
            n == layout.len(),
            layout_fields@ == layout,
            forall|k: int| 0 <= k < layout.len() ==> encodes(#[trigger] layout[k].2),
            entries@ == schema_entries_text(layout.take(i as int)),
            offsets@ == offsets_text(layout.take(i as int)),
            bindings@ == value_bindings_text(layout.take(i as int)),
            values@ == value_members_text(layout.take(i as int)),
        decreases n - i,
    {
        let (name, offset, kind) = &layout_fields[i];
        proof {
            assert(layout.take(i + 1).drop_last() =~= layout.take(i as int));
        }
        entries.append("      { name: \"");
        entries.append(name.as_str());
        entries.append("\", schema: ");
        let expression = encoder_schema_expression(kind);
        entries.append(expression.as_str());
        entries.append(" },\n");

        if i > 0 {
            offsets.append(", ");
        }
        push_decimal(&mut offsets, *offset);
        if i == 0 {
            assert(offsets@ =~= offsets_text(layout.take(1)));
        }

        let source = concat("self.", name.as_str());
        let target = concat(name.as_str(), "_value");
        assert(encodes(layout[i as int].2));
        render_encoder_value_binding(&mut bindings, kind, source.as_str(), target.as_str(), "  ");

        values.append("    { name: \"");
        values.append(name.as_str());
        values.append("\", value: ");
        values.append(name.as_str());
        values.append("_value },\n");
        i = i + 1;
    }
    assert(layout.take(n as int) =~= layout);
    layout_text.append(entries.as_str());
    layout_text.append("    ],\n    [");
    layout_text.append(offsets.as_str());
    layout_text.append("],\n    ");
    push_decimal(&mut layout_text, schema.archived_size);
    layout_text.append(",\n  )\n}\n\n///|\npub fn ");
    layout_text.append(input.as_str());
    layout_text.append("::to_value(self : ");
    layout_text.append(input.as_str());
    layout_text.append(") -> @rkyv.Value {\n");
    layout_text.append(bindings.as_str());
    layout_text.append("  @rkyv.Value::Struct([\n");
    layout_text.append(values.as_str());
    layout_text.append("  ])\n}\n\n///|\n");

    let mut one_line = concat3("pub fn ", input.as_str(), "::encode(self : ");
    one_line.append(input.as_str());
    one_line.append(") -> Bytes raise @rkyv.SchemaError {");
    let signature = if text_byte_len(&one_line) >= 82 {
        let mut wrapped = concat3("pub fn ", input.as_str(), "::encode(\n");
        wrapped.append("  self : ");
        wrapped.append(input.as_str());
        wrapped.append(",\n");
        wrapped.append(") -> Bytes raise @rkyv.SchemaError {\n");
        wrapped
    } else {
        one_line.append("\n");
        one_line
    };
    layout_text.append(signature.as_str());
    layout_text.append("  ");
    layout_text.append(input.as_str());
    layout_text.append("::schema().encode(self.to_value())\n}\n");
    text.append(layout_text.as_str());
    output.append(text.as_str());
}

/// Lemma: sorting keeps every field encodable.
proof fn lemma_sort_keeps_encodes(fields: Seq<(String, usize, FieldKind)>)
    requires
        forall|i: int| 0 <= i < fields.len() ==> encodes(#[trigger] fields[i].2),
    ensures
        forall|k: int| 0 <= k < sort_by_offset(fields).len() ==> encodes(
            #[trigger] sort_by_offset(fields)[k].2,
        ),
    decreases fields.len(),
{
    if fields.len() > 0 {
        let rest = fields.drop_last();
        lemma_sort_keeps_encodes(rest);
        let sorted = sort_by_offset(rest);
        crate::layout::lemma_insert_contents(sorted, fields.last());
        let r = sort_by_offset(fields);
        assert forall|k: int| 0 <= k < r.len() implies encodes(#[trigger] r[k].2) by {
            if r[k] != fields.last() {
                let w = choose|w: int| 0 <= w < sorted.len() && sorted[w] == r[k];
                assert(encodes(sorted[w].2));
            } else {
                assert(encodes(fields[fields.len() - 1].2));
            }
        }
    }
}

/// The source rendered with the encoder begins with the view rendered alone,
/// and the encoder part follows it.
pub proof fn law_encoder_follows_view(schema: StructSchema)
    ensures
        struct_view_text(schema).is_prefix_of(struct_view_text(schema) + encoder_text(schema)),
        (struct_view_text(schema) + encoder_text(schema)).skip(struct_view_text(schema).len() as int)
            == encoder_text(schema),
{
    let whole = struct_view_text(schema) + encoder_text(schema);
    assert(whole.subrange(0, struct_view_text(schema).len() as int) =~= struct_view_text(schema));
    assert(whole.skip(struct_view_text(schema).len() as int) =~= encoder_text(schema));
}

/// Whether a field of `kind` can be encoded.
pub fn kind_encodes(kind: &FieldKind) -> (r: bool)
    ensures
        r == encodes(*kind),
    decreases kind,
{
    match kind {
        FieldKind::VecPrimitive(element, _) => !matches!(
            **element,
            FieldKind::VecU32 | FieldKind::VecPrimitive(_, _) | FieldKind::VecString
                | FieldKind::VecStruct(_, _) | FieldKind::Option(_, _)
        ),
        FieldKind::Option(inner, _) => kind_encodes(&**inner),
        _ => true,
    }
}

/// The runtime schema, conversion and `encode` of a struct do not depend on
/// the order in which its fields are declared, when no two fields share an
/// offset.
pub proof fn law_encoder_layout_independent_of_declaration_order(
    schema: StructSchema,
    reordered: StructSchema,
)
    requires
        schema.name@ == reordered.name@,
        schema.archived_size == reordered.archived_size,
        schema.fields@.to_multiset() =~= reordered.fields@.to_multiset(),
        distinct_offsets(schema.fields@),
        distinct_offsets(reordered.fields@),
    ensures
        encoder_layout_text(schema) == encoder_layout_text(reordered),
{
    law_layout_independent_of_declaration_order(schema.fields@, reordered.fields@);
}

/// The text that `{:?}` writes for a field kind: the variant's name, then its
/// fields in round brackets, separated by a comma and a space, with names
/// quoted as strings and numbers in decimal.
pub open spec fn kind_debug_text(kind: FieldKind) -> Seq<char>
    decreases kind,
{
    match kind {
        FieldKind::U8 => "U8"@,
        FieldKind::U16 => "U16"@,
        FieldKind::U32 => "U32"@,
        FieldKind::U64 => "U64"@,
        FieldKind::I8 => "I8"@,
        FieldKind::I16 => "I16"@,
        FieldKind::I32 => "I32"@,
        FieldKind::I64 => "I64"@,
        FieldKind::F32 => "F32"@,
        FieldKind::F64 => "F64"@,
        FieldKind::Bool => "Bool"@,
        FieldKind::String => "String"@,
        FieldKind::VecU32 => "VecU32"@,
        FieldKind::VecPrimitive(element, size) => "VecPrimitive("@ + kind_debug_text(*element)
            + ", "@ + decimal(size as nat) + ")"@,
        FieldKind::VecString => "VecString"@,
        FieldKind::VecStruct(name, size) => "VecStruct("@ + str_debug(name@) + ", "@ + decimal(
            size as nat,
        ) + ")"@,
        FieldKind::Struct(name) => "Struct("@ + str_debug(name@) + ")"@,
        FieldKind::Option(inner, alignment) => "Option("@ + kind_debug_text(*inner) + ", "@
            + decimal(alignment as nat) + ")"@,
    }
}

/// A kind read by a single reader call of its own: a numeric primitive,
/// `bool` or `String`.
pub open spec fn is_named_scalar(kind: FieldKind) -> bool {
    !(kind is VecU32 || kind is VecPrimitive || kind is VecString || kind is VecStruct
        || kind is Struct || kind is Option)
}

/// The reader call of a numeric primitive, `bool` or `String` is the reader
/// method named after the kind itself, lowercased: `read_u16` for `U16`,
/// `read_i32` for `I32`, `read_bool` for `Bool`; so it reads exactly the
/// width and signedness of the field.
pub proof fn law_scalar_reads_name_their_kind(kind: FieldKind, reader: Seq<char>, offset: Seq<char>)
    requires
        is_named_scalar(kind),
    ensures
        read_expression_text(kind, reader, offset) == reader + ".read_"@ + ascii_lowercase(
            kind_debug_text(kind),
        ) + "("@ + offset + ")"@,
{
    reveal_strlit(".read_");
    reveal_strlit("(");
    match kind {
        FieldKind::U8 => {
            reveal_strlit("U8");
            reveal_strlit("u8");
            reveal_strlit(".read_u8(");
            assert(ascii_lowercase(kind_debug_text(kind)) =~= "u8"@);
            assert(".read_"@ + "u8"@ + "("@ =~= ".read_u8("@);
        },
        FieldKind::U16 => {
            reveal_strlit("U16");
            reveal_strlit("u16");
            reveal_strlit(".read_u16(");
            assert(ascii_lowercase(kind_debug_text(kind)) =~= "u16"@);
            assert(".read_"@ + "u16"@ + "("@ =~= ".read_u16("@);
        },
        FieldKind::U32 => {
            reveal_strlit("U32");
            reveal_strlit("u32");
            reveal_strlit(".read_u32(");
            assert(ascii_lowercase(kind_debug_text(kind)) =~= "u32"@);
            assert(".read_"@ + "u32"@ + "("@ =~= ".read_u32("@);
        },
        FieldKind::U64 => {
            reveal_strlit("U64");
            reveal_strlit("u64");
            reveal_strlit(".read_u64(");
            assert(ascii_lowercase(kind_debug_text(kind)) =~= "u64"@);
            assert(".read_"@ + "u64"@ + "("@ =~= ".read_u64("@);
        },
        FieldKind::I8 => {
            reveal_strlit("I8");
            reveal_strlit("i8");
            reveal_strlit(".read_i8(");
            assert(ascii_lowercase(kind_debug_text(kind)) =~= "i8"@);
            assert(".read_"@ + "i8"@ + "("@ =~= ".read_i8("@);
        },
        FieldKind::I16 => {
            reveal_strlit("I16");
            reveal_strlit("i16");
            reveal_strlit(".read_i16(");
            assert(ascii_lowercase(kind_debug_text(kind)) =~= "i16"@);
            assert(".read_"@ + "i16"@ + "("@ =~= ".read_i16("@);
        },
        FieldKind::I32 => {
            reveal_strlit("I32");
            reveal_strlit("i32");
            reveal_strlit(".read_i32(");
            assert(ascii_lowercase(kind_debug_text(kind)) =~= "i32"@);
            assert(".read_"@ + "i32"@ + "("@ =~= ".read_i32("@);
        },
        FieldKind::I64 => {
            reveal_strlit("I64");
            reveal_strlit("i64");
            reveal_strlit(".read_i64(");
            assert(ascii_lowercase(kind_debug_text(kind)) =~= "i64"@);
            assert(".read_"@ + "i64"@ + "("@ =~= ".read_i64("@);
        },
        FieldKind::F32 => {
            reveal_strlit("F32");
            reveal_strlit("f32");
            reveal_strlit(".read_f32(");
            assert(ascii_lowercase(kind_debug_text(kind)) =~= "f32"@);
            assert(".read_"@ + "f32"@ + "("@ =~= ".read_f32("@);
        },
        FieldKind::F64 => {
            reveal_strlit("F64");
            reveal_strlit("f64");
            reveal_strlit(".read_f64(");
            assert(ascii_lowercase(kind_debug_text(kind)) =~= "f64"@);
            assert(".read_"@ + "f64"@ + "("@ =~= ".read_f64("@);
        },
        FieldKind::Bool => {
            reveal_strlit("Bool");
            reveal_strlit("bool");
            reveal_strlit(".read_bool(");
            assert(ascii_lowercase(kind_debug_text(kind)) =~= "bool"@);
            assert(".read_"@ + "bool"@ + "("@ =~= ".read_bool("@);
        },
        FieldKind::String => {
            reveal_strlit("String");
            reveal_strlit("string");
            reveal_strlit(".read_string(");
            assert(ascii_lowercase(kind_debug_text(kind)) =~= "string"@);
            assert(".read_"@ + "string"@ + "("@ =~= ".read_string("@);
        },
        _ => {},
    }
    assert(read_expression_text(kind, reader, offset) =~= reader + ".read_"@ + ascii_lowercase(
        kind_debug_text(kind),
    ) + "("@ + offset + ")"@);
}

/// The runtime schema of a numeric primitive, `bool`, `String` or `Vec<u32>`
/// field is the `@rkyv.Schema` constructor named after the kind itself:
/// `@rkyv.Schema::I32` for `I32`, of the same width and signedness.
pub proof fn law_scalar_schemas_name_their_kind(kind: FieldKind)
    requires
        is_named_scalar(kind) || kind is VecU32,
    ensures
        encoder_schema_expression_text(kind) == "@rkyv.Schema::"@ + kind_debug_text(kind),
{
    reveal_strlit("@rkyv.Schema::");
    match kind {
        FieldKind::U8 => {
            reveal_strlit("U8");
            reveal_strlit("@rkyv.Schema::U8");
        },
        FieldKind::U16 => {
            reveal_strlit("U16");
            reveal_strlit("@rkyv.Schema::U16");
        },
        FieldKind::U32 => {
            reveal_strlit("U32");
            reveal_strlit("@rkyv.Schema::U32");
        },
        FieldKind::U64 => {
            reveal_strlit("U64");
            reveal_strlit("@rkyv.Schema::U64");
        },
        FieldKind::I8 => {
            reveal_strlit("I8");
            reveal_strlit("@rkyv.Schema::I8");
        },
        FieldKind::I16 => {
            reveal_strlit("I16");
            reveal_strlit("@rkyv.Schema::I16");
        },
        FieldKind::I32 => {
            reveal_strlit("I32");
            reveal_strlit("@rkyv.Schema::I32");
        },
        FieldKind::I64 => {
            reveal_strlit("I64");
            reveal_strlit("@rkyv.Schema::I64");
        },
        FieldKind::F32 => {
            reveal_strlit("F32");
            reveal_strlit("@rkyv.Schema::F32");
        },
        FieldKind::F64 => {
            reveal_strlit("F64");
            reveal_strlit("@rkyv.Schema::F64");
        },
        FieldKind::Bool => {
            reveal_strlit("Bool");
            reveal_strlit("@rkyv.Schema::Bool");
        },
        FieldKind::String => {
            reveal_strlit("String");
            reveal_strlit("@rkyv.Schema::String");
        },
        FieldKind::VecU32 => {
            reveal_strlit("VecU32");
            reveal_strlit("@rkyv.Schema::VecU32");
        },
        _ => {},
    }
    assert(encoder_schema_expression_text(kind) =~= "@rkyv.Schema::"@ + kind_debug_text(kind));
}

/// The message of an encoder rendering error: the struct and field that
/// cannot be encoded, and the field's kind.
pub open spec fn encoder_error_message_text(error: EncoderRenderError) -> Seq<char> {
    "cannot generate MoonBit encoder for "@ + error.struct_name@ + "."@ + error.field_name@
        + " ("@ + kind_debug_text(error.field_kind) + ")"@
}

/// Appends the `{:?}` text of `kind`.
fn push_kind_debug(output: &mut String, kind: &FieldKind)
    ensures
        final(output)@ == old(output)@ + kind_debug_text(*kind),
    decreases kind,
{
    match kind {
        FieldKind::U8 => output.append("U8"),
        FieldKind::U16 => output.append("U16"),
        FieldKind::U32 => output.append("U32"),
        FieldKind::U64 => output.append("U64"),
        FieldKind::I8 => output.append("I8"),
        FieldKind::I16 => output.append("I16"),
        FieldKind::I32 => output.append("I32"),
        FieldKind::I64 => output.append("I64"),
        FieldKind::F32 => output.append("F32"),
        FieldKind::F64 => output.append("F64"),
        FieldKind::Bool => output.append("Bool"),
        FieldKind::String => output.append("String"),
        FieldKind::VecU32 => output.append("VecU32"),
        FieldKind::VecPrimitive(element, size) => {
            let mut text = "VecPrimitive(".to_owned();
            push_kind_debug(&mut text, &**element);
            text.append(", ");
            push_decimal(&mut text, *size);
            text.append(")");
            output.append(text.as_str());
        },
        FieldKind::VecString => output.append("VecString"),
        FieldKind::VecStruct(name, size) => {
            let mut text = "VecStruct(".to_owned();
            let quoted = string_debug(name.as_str());
            text.append(quoted.as_str());
            text.append(", ");
            push_decimal(&mut text, *size);
            text.append(")");
            output.append(text.as_str());
        },
        FieldKind::Struct(name) => {
            let mut text = "Struct(".to_owned();
            let quoted = string_debug(name.as_str());
            text.append(quoted.as_str());
            text.append(")");
            output.append(text.as_str());
        },
        FieldKind::Option(inner, alignment) => {
            let mut text = "Option(".to_owned();
            push_kind_debug(&mut text, &**inner);
            text.append(", ");
            push_decimal(&mut text, *alignment);
            text.append(")");
            output.append(text.as_str());
        },
    }
}

impl EncoderRenderError {
    /// The error's message, as its display form writes it:
    /// `cannot generate MoonBit encoder for Struct.field (Kind)`.
    pub fn message(&self) -> (r: String)
        ensures
            r@ == encoder_error_message_text(*self),
    {
        let mut text = "cannot generate MoonBit encoder for ".to_owned();
        text.append(self.struct_name.as_str());
        text.append(".");
        text.append(self.field_name.as_str());
        text.append(" (");
        push_kind_debug(&mut text, &self.field_kind);
        text.append(")");
        text
    }
}

impl StructSchema {
    /// Whether every field can be encoded, which
    /// `render_moonbit_with_encoder` needs besides `supports_view`.
    pub fn supports_encoder(&self) -> (r: bool)
        ensures
            r == schema_encodes(*self),
    {
        let n = self.fields.len();
        let mut i: usize = 0;
        while i < n
            invariant
                i <= n,
                n == self.fields@.len(),
                forall|k: int| 0 <= k < i ==> encodes(#[trigger] self.fields@[k].2),
            decreases n - i,
        {
            if !kind_encodes(&self.fields[i].2) {
                return false;
            }
            i = i + 1;
        }
        true
    }

    /// Renders the lazy read view plus a typed MoonBit input/encoder API.
    ///
    /// Linked struct fields require the referenced bindings to be rendered
    /// with this method as well, so their `*Input` type is available.
    pub fn render_moonbit_with_encoder(&self) -> (r: Result<String, EncoderRenderError>)
        requires
            schema_renders_in_view(*self),
            schema_encodes(*self),
        ensures
            r matches Ok(text) && text@ == struct_view_text(*self) + encoder_text(*self),
    {
        let n = self.fields.len();
        let mut i: usize = 0;
        while i < n
            invariant
                i <= n,
                n == self.fields@.len(),
            decreases n - i,
        {
            let (field_name, _, field_kind) = &self.fields[i];
            if !encoder_supported(field_kind) {
                return Err(
                    EncoderRenderError {
                        struct_name: self.name.clone(),
                        field_name: field_name.clone(),
                        field_kind: field_kind.clone(),
                    },
                );
            }
            i = i + 1;
        }
        let mut output = self.render_moonbit();
        render_encoder(&mut output, self);
        Ok(output)
    }
}

} // verus!
