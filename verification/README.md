# rkyv-mbt-codegen

Rust-side schema description and MoonBit binding rendering for rkyv 0.8
archives, verified with Verus.

A `StructSchema` records a named struct's archived size and the name, byte
offset and `FieldKind` of each field; an `EnumSchema` records a fieldless
enum's archived size and the tag byte of each variant. The renderers turn
them into MoonBit source: a zero-copy view with a recursive validation pass,
lazy views of vector fields, and optionally a typed input type with an
encoder whose runtime schema lists the fields in offset order.

Layout of `src/`:

- `schema.rs` — the schema types and the traits a derive implements.
- `kinds.rs` — MoonBit types, runtime schema expressions and reader calls per field kind.
- `view.rs` — the struct view (`StructSchema::render_moonbit`).
- `layout.rs` — the stable offset order of fields used by the encoder.
- `encoder.rs` — the struct input and encoder (`StructSchema::render_moonbit_with_encoder`).
- `enum_view.rs` — the enum view and writer.
- `text.rs` — decimal and hexadecimal numerals, UTF-8 byte lengths, vector view names.
- `derive.rs` — which Rust field types `#[derive(RkyvMbt)]` accepts and the kind each becomes, and the variants of a fieldless enum.

In a generated view, the accessor of a scalar, string, struct or optional
field returns `Result[T, @rkyv.RkyvError]`; the accessors of vector fields
raise `@rkyv.RkyvError`, and `validate_all` walks the vectors through them.
`EncoderRenderError::message` gives the text an encoder error displays.

Every renderer's contract gives its output exactly, as a sequence of
characters built from the schema. `app/` writes rendered sources to files,
displays encoder errors, and converts parsed derive input to and from the
library's model.
