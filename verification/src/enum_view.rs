//! The MoonBit view and typed writer of a fieldless enum, whose archived form
//! is a one-byte tag.
use vstd::prelude::*;
use crate::kinds::concat;
use crate::schema::EnumSchema;
use crate::text::{decimal, hex_byte, push_decimal, push_hex_byte};

verus! {

// ---------------------------------------------------------------------------
// The texts
// ---------------------------------------------------------------------------
/// One line per variant name, each `prefix`, the name, then a newline.
pub open spec fn variant_lines_text(variants: Seq<(String, u8)>, prefix: Seq<char>) -> Seq<char>
    decreases variants.len(),
{
    if variants.len() == 0 {
        Seq::empty()
    } else {
        variant_lines_text(variants.drop_last(), prefix) + prefix + variants.last().0@ + "\n"@
    }
}

/// A tag byte as a MoonBit byte literal `b'\xhh'`.
pub open spec fn byte_literal_text(value: u8) -> Seq<char> {
    "b'\\x"@ + hex_byte(value) + "'"@
}

/// The tag byte literals separated by `, `.
pub open spec fn tag_list_text(variants: Seq<(String, u8)>) -> Seq<char>
    decreases variants.len(),
{
    if variants.len() == 0 {
        Seq::empty()
    } else if variants.len() == 1 {
        byte_literal_text(variants[0].1)
    } else {
        tag_list_text(variants.drop_last()) + ", "@ + byte_literal_text(variants.last().1)
    }
}

/// The match arms from tag bytes to the variants of `tag`.
pub open spec fn tag_arms_text(variants: Seq<(String, u8)>, tag: Seq<char>) -> Seq<char>
    decreases variants.len(),
{
    if variants.len() == 0 {
        Seq::empty()
    } else {
        tag_arms_text(variants.drop_last(), tag) + "    "@ + byte_literal_text(variants.last().1)
            + " => "@ + tag + "::"@ + variants.last().0@ + "\n"@
    }
}

/// The fallback arm of the tag match and the closing of `tag`.
pub open spec fn tag_match_tail_text() -> Seq<char> {
    "    _ => abort(\"validated enum tag was not matched\")\n  }\n}\n"@
}

/// The MoonBit source of the read-only view of `schema`.
pub open spec fn enum_view_text(schema: EnumSchema) -> Seq<char> {
    enum_view_head_text(schema) + tag_arms_text(schema.variants@, schema.name@ + "Tag"@)
        + tag_match_tail_text()
}

/// The view of `schema` up to the arms of its tag match.
pub open spec fn enum_view_head_text(schema: EnumSchema) -> Seq<char> {
    enum_view_declarations_text(schema) + tag_list_text(schema.variants@)
        + "])\n  match value {\n"@
}

/// The view of `schema` up to the list of its tag bytes.
pub open spec fn enum_view_declarations_text(schema: EnumSchema) -> Seq<char> {
    let view = schema.name@ + "View"@;
    let tag = schema.name@ + "Tag"@;
    let size = decimal(schema.archived_size as nat);
    "///|\npub enum "@ + tag + " {\n"@ + variant_lines_text(schema.variants@, "  "@)
        + "} derive(Debug, Eq)\n\n///|\npub struct "@ + view
        + " {\n  reader : @rkyv.Reader\n  offset : Int\n}\n\n///|\npub fn "@ + view
        + "::at(\n  reader : @rkyv.Reader,\n  offset : Int,\n) -> "@ + view
        + " raise @rkyv.RkyvError {\n  reader.validate_range(offset, "@ + size
        + ")\n  { reader, offset }\n}\n\n///|\npub fn "@ + view + "::root(bytes : Bytes) -> "@
        + view
        + " raise @rkyv.RkyvError {\n  let reader = @rkyv.Reader::new(bytes)\n  let offset = reader.root_offset("@
        + size + ")\n  "@ + view + "::at(reader, offset)\n}\n\n///|\npub fn "@ + view
        + "::validate(bytes : Bytes) -> "@ + view + " raise @rkyv.RkyvError {\n  let view = "@
        + view + "::root(bytes)\n  let _ = view.tag()\n  view\n}\n\n///|\npub fn "@ + view
        + "::tag(self : "@ + view + ") -> "@ + tag
        + " raise @rkyv.RkyvError {\n  let value = self.reader.read_union_tag(self.offset, ["@
}

/// The schema entries of the variants, each an empty struct payload.
pub open spec fn union_entries_text(variants: Seq<(String, u8)>) -> Seq<char>
    decreases variants.len(),
{
    if variants.len() == 0 {
        Seq::empty()
    } else {
        union_entries_text(variants.drop_last()) + "      { name: \""@ + variants.last().0@
            + "\", tag: "@ + byte_literal_text(variants.last().1)
            + ", schema: @rkyv.Schema::Struct([]) },\n"@
    }
}

/// The match arms from the input variants to their runtime values.
pub open spec fn value_arms_text(variants: Seq<(String, u8)>, input: Seq<char>) -> Seq<char>
    decreases variants.len(),
{
    if variants.len() == 0 {
        Seq::empty()
    } else {
        value_arms_text(variants.drop_last(), input) + "    "@ + input + "::"@ + variants.last().0@
            + " => @rkyv.Value::Tagged("@ + byte_literal_text(variants.last().1) + ", None)\n"@
    }
}

/// The typed input enum of `schema`, its runtime schema, its conversion and
/// `encode`.
pub open spec fn enum_encoder_text(schema: EnumSchema) -> Seq<char> {
    let input = schema.name@ + "Input"@;
    "\n///|\npub(all) enum "@ + input + " {\n"@ + variant_lines_text(schema.variants@, "  "@)
        + "}\n\n///|\npub fn "@ + input
        + "::schema() -> @rkyv.Schema {\n  @rkyv.Schema::TaggedUnion(\n    [\n"@
        + union_entries_text(schema.variants@) + "    ],\n    0,\n    0,\n    "@ + decimal(
        schema.archived_size as nat,
    ) + ",\n  )\n}\n\n///|\npub fn "@ + input + "::to_value(self : "@ + input
        + ") -> @rkyv.Value {\n  match self {\n"@ + value_arms_text(schema.variants@, input)
        + "  }\n}\n\n///|\npub fn "@ + input + "::encode(self : "@ + input
        + ") -> Bytes raise @rkyv.SchemaError {\n  "@ + input
        + "::schema().encode(self.to_value())\n}\n"@
}

// ---------------------------------------------------------------------------
// The renderers
// ---------------------------------------------------------------------------
/// One line per variant name.
fn render_variant_lines(variants: &Vec<(String, u8)>, prefix: &str) -> (r: String)
    ensures
        r@ == variant_lines_text(variants@, prefix@),
{
    let mut text = String::new();
    let n = variants.len();
    let mut i: usize = 0;
    while i < n
        invariant
            i <= n,
            n == variants@.len(),
            text@ == variant_lines_text(variants@.take(i as int), prefix@),
        decreases n - i,
    {
        let (name, _) = &variants[i];
        text.append(prefix);
        text.append(name.as_str());
        text.append("\n");
        assert(variants@.take(i + 1).drop_last() =~= variants@.take(i as int));
        i = i + 1;
    }
    assert(variants@.take(n as int) =~= variants@);
    text
}

/// Appends a tag byte literal.
fn push_byte_literal(output: &mut String, value: u8)
    ensures
        final(output)@ == old(output)@ + byte_literal_text(value),
{
    let mut text = "b'\\x".to_owned();
    push_hex_byte(&mut text, value);
    text.append("'");
    output.append(text.as_str());
}

/// The tag list and the match arms of the `tag` method.
fn render_tag_match(variants: &Vec<(String, u8)>, tag: &str) -> (r: (String, String))
    ensures
        r.0@ == tag_list_text(variants@),
        r.1@ == tag_arms_text(variants@, tag@),
{
    let mut list = String::new();
    let mut arms = String::new();
    let n = variants.len();
    let mut i: usize = 0;
    while i < n
        invariant
            i <= n,
            n == variants@.len(),
            list@ == tag_list_text(variants@.take(i as int)),
            arms@ == tag_arms_text(variants@.take(i as int), tag@),
        decreases n - i,
    {
        let (name, value) = &variants[i];
        if i > 0 {
            list.append(", ");
        }
        push_byte_literal(&mut list, *value);
        assert(variants@.take(i + 1).drop_last() =~= variants@.take(i as int));
        if i == 0 {
            assert(list@ =~= tag_list_text(variants@.take(1)));
        }
        arms.append("    ");
        push_byte_literal(&mut arms, *value);
        arms.append(" => ");
        arms.append(tag);
        arms.append("::");
        arms.append(name.as_str());
        arms.append("\n");
        i = i + 1;
    }
    assert(variants@.take(n as int) =~= variants@);
    (list, arms)
}

/// The schema entries and the conversion arms of the input enum.
fn render_input_arms(variants: &Vec<(String, u8)>, input: &str) -> (r: (String, String))
    ensures
        r.0@ == union_entries_text(variants@),
        r.1@ == value_arms_text(variants@, input@),
{
    let mut entries = String::new();
    let mut arms = String::new();
    let n = variants.len();
    let mut i: usize = 0;
    while i < n
        invariant
            i <= n,
            n == variants@.len(),
            entries@ == union_entries_text(variants@.take(i as int)),
            arms@ == value_arms_text(variants@.take(i as int), input@),
        decreases n - i,
    {
        let (name, value) = &variants[i];
        entries.append("      { name: \"");
        entries.append(name.as_str());
        entries.append("\", tag: ");
        push_byte_literal(&mut entries, *value);
        entries.append(", schema: @rkyv.Schema::Struct([]) },\n");
        arms.append("    ");
        arms.append(input);
        arms.append("::");
        arms.append(name.as_str());
        arms.append(" => @rkyv.Value::Tagged(");
        push_byte_literal(&mut arms, *value);
        arms.append(", None)\n");
        assert(variants@.take(i + 1).drop_last() =~= variants@.take(i as int));
        i = i + 1;
    }
    assert(variants@.take(n as int) =~= variants@);
    (entries, arms)
}

/// The arms for `variants` are some arms, the arm of the `i`-th variant, and
/// some more arms.
proof fn lemma_arm_of_variant(variants: Seq<(String, u8)>, tag: Seq<char>, i: int) -> (parts: (
    Seq<char>,
    Seq<char>,
))
    requires
        0 <= i < variants.len(),
    ensures
        tag_arms_text(variants, tag) == parts.0 + "    b'\\x"@ + hex_byte(variants[i].1)
            + "' => "@ + tag + "::"@ + variants[i].0@ + "\n"@ + parts.1,
    decreases variants.len(),
{
    reveal_strlit("    b'\\x");
    reveal_strlit("    ");
    reveal_strlit("b'\\x");
    reveal_strlit("' => ");
    reveal_strlit("'");
    reveal_strlit(" => ");
    let init = variants.drop_last();
    let arm = "    b'\\x"@ + hex_byte(variants[i].1) + "' => "@ + tag + "::"@ + variants[i].0@
        + "\n"@;
    let last = variants.last();
    let last_arm = "    "@ + byte_literal_text(last.1) + " => "@ + tag + "::"@ + last.0@ + "\n"@;
    if i == variants.len() - 1 {
        assert(last_arm =~= arm);
        assert(tag_arms_text(variants, tag) =~= tag_arms_text(init, tag) + arm + Seq::empty());
        (tag_arms_text(init, tag), Seq::empty())
    } else {
        assert(init[i] == variants[i]);
        let (p, s) = lemma_arm_of_variant(init, tag, i);
        assert(tag_arms_text(variants, tag) =~= p + arm + (s + last_arm));
        (p, s + last_arm)
    }
}

/// The tag list of `variants` holds the byte literal of the `i`-th variant.
proof fn lemma_tag_in_list(variants: Seq<(String, u8)>, i: int) -> (parts: (Seq<char>, Seq<char>))
    requires
        0 <= i < variants.len(),
    ensures
        tag_list_text(variants) == parts.0 + "b'\\x"@ + hex_byte(variants[i].1) + "'"@ + parts.1,
    decreases variants.len(),
{
    let literal = "b'\\x"@ + hex_byte(variants[i].1) + "'"@;
    let init = variants.drop_last();
    if variants.len() == 1 {
        assert(tag_list_text(variants) =~= Seq::<char>::empty() + literal + Seq::empty());
        (Seq::empty(), Seq::empty())
    } else if i == variants.len() - 1 {
        assert(tag_list_text(variants) =~= (tag_list_text(init) + ", "@) + literal
            + Seq::empty());
        (tag_list_text(init) + ", "@, Seq::empty())
    } else {
        assert(init[i] == variants[i]);
        let (p, s) = lemma_tag_in_list(init, i);
        let rest = ", "@ + byte_literal_text(variants.last().1);
        assert(tag_list_text(variants) =~= p + literal + (s + rest));
        (p, s + rest)
    }
}

/// Every variant's tag byte is among the tags that the view's `tag` method
/// accepts: the list handed to `read_union_tag`, just before the match.
pub proof fn law_enum_view_accepts_every_tag(schema: EnumSchema, i: int) -> (parts: (
    Seq<char>,
    Seq<char>,
))
    requires
        0 <= i < schema.variants@.len(),
    ensures
        enum_view_text(schema) == parts.0 + "b'\\x"@ + hex_byte(schema.variants@[i].1) + "'"@
            + parts.1 + "])\n  match value {\n"@ + tag_arms_text(
            schema.variants@,
            schema.name@ + "Tag"@,
        ) + "    _ => abort(\"validated enum tag was not matched\")\n  }\n}\n"@,
{
    let (p, s) = lemma_tag_in_list(schema.variants@, i);
    let head = enum_view_declarations_text(schema);
    let literal = "b'\\x"@ + hex_byte(schema.variants@[i].1) + "'"@;
    assert(enum_view_text(schema) =~= (head + p) + literal + s + "])\n  match value {\n"@
        + tag_arms_text(schema.variants@, schema.name@ + "Tag"@) + tag_match_tail_text());
    (head + p, s)
}

/// Every variant of `schema` has its own arm in the view's tag match, ahead
/// of the fallback arm: its tag byte leads to the variant of the same name.
pub proof fn law_enum_view_matches_every_variant(schema: EnumSchema, i: int) -> (parts: (
    Seq<char>,
    Seq<char>,
))
    requires
        0 <= i < schema.variants@.len(),
    ensures
        enum_view_text(schema) == parts.0 + "    b'\\x"@ + hex_byte(schema.variants@[i].1)
            + "' => "@ + schema.name@ + "Tag::"@ + schema.variants@[i].0@ + "\n"@ + parts.1
            + "    _ => abort(\"validated enum tag was not matched\")\n  }\n}\n"@,
{
    reveal_strlit("Tag");
    reveal_strlit("::");
    reveal_strlit("Tag::");
    let tag = schema.name@ + "Tag"@;
    let (p, s) = lemma_arm_of_variant(schema.variants@, tag, i);
    let arm_tail = "' => "@ + tag + "::"@ + schema.variants@[i].0@ + "\n"@;
    assert(arm_tail =~= "' => "@ + schema.name@ + "Tag::"@ + schema.variants@[i].0@ + "\n"@);
    let head = enum_view_head_text(schema);
    assert(enum_view_text(schema) =~= (head + p) + "    b'\\x"@ + hex_byte(
        schema.variants@[i].1,
    ) + arm_tail + s + tag_match_tail_text());
    (head + p, s)
}

/// The writer converts every variant of the input enum to a tagged value
/// carrying that variant's own tag byte.
pub proof fn law_enum_writer_tags_every_variant(
    variants: Seq<(String, u8)>,
    input: Seq<char>,
    i: int,
) -> (parts: (Seq<char>, Seq<char>))
    requires
        0 <= i < variants.len(),
    ensures
        value_arms_text(variants, input) == parts.0 + "    "@ + input + "::"@ + variants[i].0@
            + " => @rkyv.Value::Tagged(b'\\x"@ + hex_byte(variants[i].1) + "', None)\n"@
            + parts.1,
    decreases variants.len(),
{
    reveal_strlit(" => @rkyv.Value::Tagged(b'\\x");
    reveal_strlit(" => @rkyv.Value::Tagged(");
    reveal_strlit("b'\\x");
    reveal_strlit("', None)\n");
    reveal_strlit("'");
    reveal_strlit(", None)\n");
    let arm = "    "@ + input + "::"@ + variants[i].0@ + " => @rkyv.Value::Tagged(b'\\x"@
        + hex_byte(variants[i].1) + "', None)\n"@;
    let init = variants.drop_last();
    let last = variants.last();
    let last_arm = "    "@ + input + "::"@ + last.0@ + " => @rkyv.Value::Tagged("@
        + byte_literal_text(last.1) + ", None)\n"@;
    if i == variants.len() - 1 {
        assert(last_arm =~= arm);
        assert(value_arms_text(variants, input) =~= value_arms_text(init, input) + arm
            + Seq::empty());
        (value_arms_text(init, input), Seq::empty())
    } else {
        assert(init[i] == variants[i]);
        let (p, s) = law_enum_writer_tags_every_variant(init, input, i);
        assert(value_arms_text(variants, input) =~= p + arm + (s + last_arm));
        (p, s + last_arm)
    }
}

/// The runtime schema of the input enum lists every variant under its own
/// name with its own tag byte.
pub proof fn law_enum_schema_lists_every_variant(variants: Seq<(String, u8)>, i: int) -> (parts: (
    Seq<char>,
    Seq<char>,
))
    requires
        0 <= i < variants.len(),
    ensures
        union_entries_text(variants) == parts.0 + "      { name: \""@ + variants[i].0@
            + "\", tag: b'\\x"@ + hex_byte(variants[i].1)
            + "', schema: @rkyv.Schema::Struct([]) },\n"@ + parts.1,
    decreases variants.len(),
{
    reveal_strlit("\", tag: b'\\x");
    reveal_strlit("\", tag: ");
    reveal_strlit("b'\\x");
    reveal_strlit("', schema: @rkyv.Schema::Struct([]) },\n");
    reveal_strlit("'");
    reveal_strlit(", schema: @rkyv.Schema::Struct([]) },\n");
    let entry = "      { name: \""@ + variants[i].0@ + "\", tag: b'\\x"@ + hex_byte(variants[i].1)
        + "', schema: @rkyv.Schema::Struct([]) },\n"@;
    let init = variants.drop_last();
    let last = variants.last();
    let last_entry = "      { name: \""@ + last.0@ + "\", tag: "@ + byte_literal_text(last.1)
        + ", schema: @rkyv.Schema::Struct([]) },\n"@;
    if i == variants.len() - 1 {
        assert(last_entry =~= entry);
        assert(union_entries_text(variants) =~= union_entries_text(init) + entry
            + Seq::empty());
        (union_entries_text(init), Seq::empty())
    } else {
        assert(init[i] == variants[i]);
        let (p, s) = law_enum_schema_lists_every_variant(init, i);
        assert(union_entries_text(variants) =~= p + entry + (s + last_entry));
        (p, s + last_entry)
    }
}

/// The enum source rendered with the writer begins with the view rendered
/// alone, and the writer follows it.
pub proof fn law_enum_encoder_follows_view(schema: EnumSchema)
    ensures
        enum_view_text(schema).is_prefix_of(enum_view_text(schema) + enum_encoder_text(schema)),
        (enum_view_text(schema) + enum_encoder_text(schema)).skip(enum_view_text(schema).len() as int)
            == enum_encoder_text(schema),
{
    let whole = enum_view_text(schema) + enum_encoder_text(schema);
    assert(whole.subrange(0, enum_view_text(schema).len() as int) =~= enum_view_text(schema));
    assert(whole.skip(enum_view_text(schema).len() as int) =~= enum_encoder_text(schema));
}

impl EnumSchema {
    /// Renders a strict, read-only view for a fieldless rkyv enum.
    pub fn render_moonbit(&self) -> (r: String)
        ensures
            r@ == enum_view_text(*self),
    {
        let view = concat(self.name.as_str(), "View");
        let tag = concat(self.name.as_str(), "Tag");
        let mut output = "///|\npub enum ".to_owned();
        output.append(tag.as_str());
        output.append(" {\n");
        let lines = render_variant_lines(&self.variants, "  ");
        output.append(lines.as_str());
        output.append("} derive(Debug, Eq)\n\n///|\npub struct ");
        output.append(view.as_str());
        output.append(" {\n  reader : @rkyv.Reader\n  offset : Int\n}\n\n///|\npub fn ");
        output.append(view.as_str());
        output.append("::at(\n  reader : @rkyv.Reader,\n  offset : Int,\n) -> ");
        output.append(view.as_str());
        output.append(" raise @rkyv.RkyvError {\n  reader.validate_range(offset, ");
        push_decimal(&mut output, self.archived_size);
        output.append(")\n  { reader, offset }\n}\n\n///|\npub fn ");
        output.append(view.as_str());
        output.append("::root(bytes : Bytes) -> ");
        output.append(view.as_str());
        output.append(
            " raise @rkyv.RkyvError {\n  let reader = @rkyv.Reader::new(bytes)\n  let offset = reader.root_offset(",
        );
        push_decimal(&mut output, self.archived_size);
        output.append(")\n  ");
        output.append(view.as_str());
        output.append("::at(reader, offset)\n}\n\n///|\npub fn ");
        output.append(view.as_str());
        output.append("::validate(bytes : Bytes) -> ");
        output.append(view.as_str());
        output.append(" raise @rkyv.RkyvError {\n  let view = ");
        output.append(view.as_str());
        output.append("::root(bytes)\n  let _ = view.tag()\n  view\n}\n\n///|\npub fn ");
        output.append(view.as_str());
        output.append("::tag(self : ");
        output.append(view.as_str());
        output.append(") -> ");
        output.append(tag.as_str());
        output.append(
            " raise @rkyv.RkyvError {\n  let value = self.reader.read_union_tag(self.offset, [",
        );
        let (list, arms) = render_tag_match(&self.variants, tag.as_str());
        output.append(list.as_str());
        output.append("])\n  match value {\n");
        output.append(arms.as_str());
        output.append("    _ => abort(\"validated enum tag was not matched\")\n  }\n}\n");
        output
    }

    /// Renders the view plus a type-safe MoonBit writer for a fieldless enum.
    pub fn render_moonbit_with_encoder(&self) -> (r: String)
        ensures
            r@ == enum_view_text(*self) + enum_encoder_text(*self),
    {
        let input = concat(self.name.as_str(), "Input");
        let mut output = self.render_moonbit();
        let mut text = "\n///|\npub(all) enum ".to_owned();
        text.append(input.as_str());
        text.append(" {\n");
        let lines = render_variant_lines(&self.variants, "  ");
        text.append(lines.as_str());
        text.append("}\n\n///|\npub fn ");
        text.append(input.as_str());
        text.append("::schema() -> @rkyv.Schema {\n  @rkyv.Schema::TaggedUnion(\n    [\n");
        let (entries, arms) = render_input_arms(&self.variants, input.as_str());
        text.append(entries.as_str());
        text.append("    ],\n    0,\n    0,\n    ");
        push_decimal(&mut text, self.archived_size);
        text.append(",\n  )\n}\n\n///|\npub fn ");
        text.append(input.as_str());
        text.append("::to_value(self : ");
        text.append(input.as_str());
        text.append(") -> @rkyv.Value {\n  match self {\n");
        text.append(arms.as_str());
        text.append("  }\n}\n\n///|\npub fn ");
        text.append(input.as_str());
        text.append("::encode(self : ");
        text.append(input.as_str());
        text.append(") -> Bytes raise @rkyv.SchemaError {\n  ");
        text.append(input.as_str());
        text.append("::schema().encode(self.to_value())\n}\n");
        output.append(text.as_str());
        output
    }
}

} // verus!
