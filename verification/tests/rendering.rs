use rkyv_mbt_codegen::text::vec_view_name;
use rkyv_mbt_codegen::{EncoderRenderError, EnumSchema, FieldKind, StructSchema};

fn profile_schema() -> StructSchema {
    StructSchema::new(
        "Profile",
        8,
        vec![
            ("age".to_owned(), 0, FieldKind::U32),
            ("subscribed".to_owned(), 4, FieldKind::Bool),
        ],
    )
}

fn preferences_schema() -> StructSchema {
    StructSchema::new(
        "Preferences",
        32,
        vec![
            ("retries".to_owned(), 0, FieldKind::Option(Box::new(FieldKind::U32), 4)),
            ("nickname".to_owned(), 8, FieldKind::Option(Box::new(FieldKind::String), 4)),
            (
                "profile".to_owned(),
                20,
                FieldKind::Option(Box::new(FieldKind::Struct("Profile".to_owned())), 4),
            ),
        ],
    )
}

fn gauge_schema() -> StructSchema {
    StructSchema::new(
        "Gauge",
        56,
        vec![
            ("readings".to_owned(), 16, FieldKind::VecPrimitive(Box::new(FieldKind::I16), 2)),
            ("labels".to_owned(), 8, FieldKind::VecString),
            ("maybe_tags".to_owned(), 24, FieldKind::Option(Box::new(FieldKind::VecString), 4)),
            ("flags".to_owned(), 0, FieldKind::VecU32),
            ("extra".to_owned(), 40, FieldKind::Option(Box::new(FieldKind::VecU32), 4)),
            ("ratio".to_owned(), 48, FieldKind::F64),
        ],
    )
}

fn color_schema() -> EnumSchema {
    EnumSchema::new(
        "Color",
        1,
        vec![("Red".to_owned(), 0), ("Green".to_owned(), 1), ("Blue".to_owned(), 255)],
    )
}

const PREFERENCES_MBT: &str = r#"///|
pub struct PreferencesView {
  reader : @rkyv.Reader
  offset : Int
}

///|
pub fn PreferencesView::at(
  reader : @rkyv.Reader,
  offset : Int,
) -> PreferencesView raise @rkyv.RkyvError {
  reader.validate_range(offset, 32)
  { reader, offset }
}

///|
pub fn PreferencesView::root(
  bytes : Bytes,
) -> PreferencesView raise @rkyv.RkyvError {
  let reader = @rkyv.Reader::new(bytes)
  let offset = reader.root_offset(32)
  PreferencesView::at(reader, offset)
}

///|
pub fn PreferencesView::validate(
  bytes : Bytes,
) -> PreferencesView raise @rkyv.RkyvError {
  let view = PreferencesView::root(bytes)
  view.validate_all(256)
  view
}

///|
pub fn PreferencesView::validate_all(
  self : PreferencesView,
  remaining_depth : Int,
) -> Unit raise @rkyv.RkyvError {
  @rkyv.require_validation_depth(remaining_depth)
  match self.reader.read_option_value_offset_strict(self.offset, 4) {
    None => ()
    Some(value_offset) => {
      let _ = self.reader.read_u32(value_offset)
    }
  }
  match self.reader.read_option_value_offset_strict(self.offset + 8, 4) {
    None => ()
    Some(value_offset) => {
      let _ = self.reader.read_string(value_offset)
    }
  }
  match self.reader.read_option_value_offset_strict(self.offset + 20, 4) {
    None => ()
    Some(value_offset) => {
      let value = ProfileView::at(self.reader, value_offset)
      value.validate_all(remaining_depth - 1)
    }
  }
}

///|
pub fn PreferencesView::retries(
  self : PreferencesView,
) -> Result[UInt?, @rkyv.RkyvError] {
  try {
    match self.reader.read_option_value_offset(self.offset, 4) {
      None => None
      Some(value_offset) => Some(self.reader.read_u32(value_offset))
    }
  } catch {
    error => Err(error)
  } noraise {
    value => Ok(value)
  }
}

///|
pub fn PreferencesView::nickname(
  self : PreferencesView,
) -> Result[String?, @rkyv.RkyvError] {
  try {
    match self.reader.read_option_value_offset(self.offset + 8, 4) {
      None => None
      Some(value_offset) => Some(self.reader.read_string(value_offset))
    }
  } catch {
    error => Err(error)
  } noraise {
    value => Ok(value)
  }
}

///|
pub fn PreferencesView::profile(
  self : PreferencesView,
) -> Result[ProfileView?, @rkyv.RkyvError] {
  try {
    match self.reader.read_option_value_offset(self.offset + 20, 4) {
      None => None
      Some(value_offset) => Some(ProfileView::at(self.reader, value_offset))
    }
  } catch {
    error => Err(error)
  } noraise {
    value => Ok(value)
  }
}
"#;

const PREFERENCES_ENCODER_MBT: &str = r#"
///|
pub struct PreferencesInput {
  retries : UInt?
  nickname : String?
  profile : ProfileInput?
}

///|
pub fn PreferencesInput::new(
  retries : UInt?,
  nickname : String?,
  profile : ProfileInput?,
) -> PreferencesInput {
  { retries, nickname, profile }
}

///|
pub fn PreferencesInput::schema() -> @rkyv.Schema {
  @rkyv.Schema::StructLayout(
    [
      { name: "retries", schema: @rkyv.Schema::Option(@rkyv.Schema::U32) },
      { name: "nickname", schema: @rkyv.Schema::Option(@rkyv.Schema::String) },
      { name: "profile", schema: @rkyv.Schema::Option(ProfileInput::schema()) },
    ],
    [0, 8, 20],
    32,
  )
}

///|
pub fn PreferencesInput::to_value(self : PreferencesInput) -> @rkyv.Value {
  let retries_value = match self.retries {
    None => @rkyv.Value::Option(None)
    Some(value) => {
      let retries_value_some = @rkyv.Value::U32(value)
      @rkyv.Value::Option(Some(retries_value_some))
    }
  }
  let nickname_value = match self.nickname {
    None => @rkyv.Value::Option(None)
    Some(value) => {
      let nickname_value_some = @rkyv.Value::String(value)
      @rkyv.Value::Option(Some(nickname_value_some))
    }
  }
  let profile_value = match self.profile {
    None => @rkyv.Value::Option(None)
    Some(value) => {
      let profile_value_some = value.to_value()
      @rkyv.Value::Option(Some(profile_value_some))
    }
  }
  @rkyv.Value::Struct([
    { name: "retries", value: retries_value },
    { name: "nickname", value: nickname_value },
    { name: "profile", value: profile_value },
  ])
}

///|
pub fn PreferencesInput::encode(
  self : PreferencesInput,
) -> Bytes raise @rkyv.SchemaError {
  PreferencesInput::schema().encode(self.to_value())
}
"#;

const GAUGE_MBT: &str = r#"///|
pub struct GaugeView {
  reader : @rkyv.Reader
  offset : Int
}

///|
pub fn GaugeView::at(
  reader : @rkyv.Reader,
  offset : Int,
) -> GaugeView raise @rkyv.RkyvError {
  reader.validate_range(offset, 56)
  { reader, offset }
}

///|
pub fn GaugeView::root(bytes : Bytes) -> GaugeView raise @rkyv.RkyvError {
  let reader = @rkyv.Reader::new(bytes)
  let offset = reader.root_offset(56)
  GaugeView::at(reader, offset)
}

///|
pub fn GaugeView::validate(bytes : Bytes) -> GaugeView raise @rkyv.RkyvError {
  let view = GaugeView::root(bytes)
  view.validate_all(256)
  view
}

///|
pub fn GaugeView::validate_all(
  self : GaugeView,
  remaining_depth : Int,
) -> Unit raise @rkyv.RkyvError {
  @rkyv.require_validation_depth(remaining_depth)
  let header = self.reader.read_vec_header_with_element_size(self.offset + 16, 2)
  for index in 0..<header.length {
    let _ = self.reader.read_i16(header.data_offset + index * 2)
  }
  let values = self.labels()
  for index in 0..<values.length() {
    let _ = values.at(index)
  }
  match self.reader.read_option_value_offset_strict(self.offset + 24, 4) {
    None => ()
    Some(value_offset) => {
      let header = self.reader.read_vec_header_with_element_size(value_offset, 8)
      for index in 0..<header.length {
        let _ = self.reader.read_string(header.data_offset + index * 8)
      }
    }
  }
  let _ = self.reader.read_vec_u32(self.offset)
  match self.reader.read_option_value_offset_strict(self.offset + 40, 4) {
    None => ()
    Some(value_offset) => {
      let _ = self.reader.read_vec_u32(value_offset)
    }
  }
  let _ = self.reader.read_f64(self.offset + 48)
}

///|
pub fn GaugeView::readings(
  self : GaugeView,
) -> GaugeReadingsView raise @rkyv.RkyvError {
  let header = self.reader.read_vec_header_with_element_size(
    self.offset + 16,
    2,
  )
  {
    reader: self.reader,
    data_offset: header.data_offset,
    length: header.length,
  }
}

///|
pub struct GaugeReadingsView {
  reader : @rkyv.Reader
  data_offset : Int
  length : Int
}

///|
pub fn GaugeReadingsView::length(self : GaugeReadingsView) -> Int {
  self.length
}

///|
pub fn GaugeReadingsView::at(
  self : GaugeReadingsView,
  index : Int,
) -> Int? raise @rkyv.RkyvError {
  if index < 0 || index >= self.length {
    None
  } else {
    Some(self.reader.read_i16(self.data_offset + index * 2))
  }
}

///|
pub fn GaugeView::labels(
  self : GaugeView,
) -> GaugeLabelsView raise @rkyv.RkyvError {
  let header = self.reader.read_vec_header_with_element_size(self.offset + 8, 8)
  {
    reader: self.reader,
    data_offset: header.data_offset,
    length: header.length,
  }
}

///|
pub struct GaugeLabelsView {
  reader : @rkyv.Reader
  data_offset : Int
  length : Int
}

///|
pub fn GaugeLabelsView::length(self : GaugeLabelsView) -> Int {
  self.length
}

///|
pub fn GaugeLabelsView::at(
  self : GaugeLabelsView,
  index : Int,
) -> String? raise @rkyv.RkyvError {
  if index < 0 || index >= self.length {
    None
  } else {
    Some(self.reader.read_string(self.data_offset + index * 8))
  }
}

///|
pub fn GaugeView::maybe_tags(
  self : GaugeView,
) -> Result[GaugeMaybeTagsView?, @rkyv.RkyvError] {
  try {
    match self.reader.read_option_value_offset(self.offset + 24, 4) {
      None => None
      Some(value_offset) => {
        let header = self.reader.read_vec_header_with_element_size(
          value_offset,
          8,
        )
        Some({
          reader: self.reader,
          data_offset: header.data_offset,
          length: header.length,
        })
      }
    }
  } catch {
    error => Err(error)
  } noraise {
    value => Ok(value)
  }
}

///|
pub struct GaugeMaybeTagsView {
  reader : @rkyv.Reader
  data_offset : Int
  length : Int
}

///|
pub fn GaugeMaybeTagsView::length(self : GaugeMaybeTagsView) -> Int {
  self.length
}

///|
pub fn GaugeMaybeTagsView::at(
  self : GaugeMaybeTagsView,
  index : Int,
) -> String? raise @rkyv.RkyvError {
  if index < 0 || index >= self.length {
    None
  } else {
    Some(self.reader.read_string(self.data_offset + index * 8))
  }
}

///|
pub fn GaugeView::flags(
  self : GaugeView,
) -> @rkyv.U32VecView raise @rkyv.RkyvError {
  self.reader.read_vec_u32(self.offset)
}

///|
pub fn GaugeView::extra(
  self : GaugeView,
) -> Result[@rkyv.U32VecView?, @rkyv.RkyvError] {
  try {
    match self.reader.read_option_value_offset(self.offset + 40, 4) {
      None => None
      Some(value_offset) => Some(self.reader.read_vec_u32(value_offset))
    }
  } catch {
    error => Err(error)
  } noraise {
    value => Ok(value)
  }
}

///|
pub fn GaugeView::ratio(self : GaugeView) -> Result[Double, @rkyv.RkyvError] {
  try {
    self.reader.read_f64(self.offset + 48)
  } catch {
    error => Err(error)
  } noraise {
    value => Ok(value)
  }
}
"#;

const GAUGE_ENCODER_MBT: &str = r#"
///|
pub struct GaugeInput {
  readings : Array[Int]
  labels : Array[String]
  maybe_tags : Array[String]?
  flags : Array[UInt]
  extra : Array[UInt]?
  ratio : Double
}

///|
pub fn GaugeInput::new(
  readings : Array[Int],
  labels : Array[String],
  maybe_tags : Array[String]?,
  flags : Array[UInt],
  extra : Array[UInt]?,
  ratio : Double,
) -> GaugeInput {
  { readings, labels, maybe_tags, flags, extra, ratio }
}

///|
pub fn GaugeInput::schema() -> @rkyv.Schema {
  @rkyv.Schema::StructLayout(
    [
      { name: "flags", schema: @rkyv.Schema::VecU32 },
      { name: "labels", schema: @rkyv.Schema::Vec(@rkyv.Schema::String) },
      { name: "readings", schema: @rkyv.Schema::Vec(@rkyv.Schema::I16) },
      { name: "maybe_tags", schema: @rkyv.Schema::Option(@rkyv.Schema::Vec(@rkyv.Schema::String)) },
      { name: "extra", schema: @rkyv.Schema::Option(@rkyv.Schema::VecU32) },
      { name: "ratio", schema: @rkyv.Schema::F64 },
    ],
    [0, 8, 16, 24, 40, 48],
    56,
  )
}

///|
pub fn GaugeInput::to_value(self : GaugeInput) -> @rkyv.Value {
  let flags_value = @rkyv.Value::VecU32(self.flags)
  let labels_value_items : Array[@rkyv.Value] = []
  for value in self.labels {
    labels_value_items.push(@rkyv.Value::String(value))
  }
  let labels_value = @rkyv.Value::Vec(labels_value_items)
  let readings_value_items : Array[@rkyv.Value] = []
  for value in self.readings {
    readings_value_items.push(@rkyv.Value::I16(value))
  }
  let readings_value = @rkyv.Value::Vec(readings_value_items)
  let maybe_tags_value = match self.maybe_tags {
    None => @rkyv.Value::Option(None)
    Some(value) => {
      let maybe_tags_value_some_items : Array[@rkyv.Value] = []
      for value in value {
        maybe_tags_value_some_items.push(@rkyv.Value::String(value))
      }
      let maybe_tags_value_some = @rkyv.Value::Vec(maybe_tags_value_some_items)
      @rkyv.Value::Option(Some(maybe_tags_value_some))
    }
  }
  let extra_value = match self.extra {
    None => @rkyv.Value::Option(None)
    Some(value) => {
      let extra_value_some = @rkyv.Value::VecU32(value)
      @rkyv.Value::Option(Some(extra_value_some))
    }
  }
  let ratio_value = @rkyv.Value::F64(self.ratio)
  @rkyv.Value::Struct([
    { name: "flags", value: flags_value },
    { name: "labels", value: labels_value },
    { name: "readings", value: readings_value },
    { name: "maybe_tags", value: maybe_tags_value },
    { name: "extra", value: extra_value },
    { name: "ratio", value: ratio_value },
  ])
}

///|
pub fn GaugeInput::encode(self : GaugeInput) -> Bytes raise @rkyv.SchemaError {
  GaugeInput::schema().encode(self.to_value())
}
"#;

const COLOR_MBT: &str = r#"///|
pub enum ColorTag {
  Red
  Green
  Blue
} derive(Debug, Eq)

///|
pub struct ColorView {
  reader : @rkyv.Reader
  offset : Int
}

///|
pub fn ColorView::at(
  reader : @rkyv.Reader,
  offset : Int,
) -> ColorView raise @rkyv.RkyvError {
  reader.validate_range(offset, 1)
  { reader, offset }
}

///|
pub fn ColorView::root(bytes : Bytes) -> ColorView raise @rkyv.RkyvError {
  let reader = @rkyv.Reader::new(bytes)
  let offset = reader.root_offset(1)
  ColorView::at(reader, offset)
}

///|
pub fn ColorView::validate(bytes : Bytes) -> ColorView raise @rkyv.RkyvError {
  let view = ColorView::root(bytes)
  let _ = view.tag()
  view
}

///|
pub fn ColorView::tag(self : ColorView) -> ColorTag raise @rkyv.RkyvError {
  let value = self.reader.read_union_tag(self.offset, [b'\x00', b'\x01', b'\xff'])
  match value {
    b'\x00' => ColorTag::Red
    b'\x01' => ColorTag::Green
    b'\xff' => ColorTag::Blue
    _ => abort("validated enum tag was not matched")
  }
}
"#;

const COLOR_WITH_ENCODER_MBT: &str = r#"///|
pub enum ColorTag {
  Red
  Green
  Blue
} derive(Debug, Eq)

///|
pub struct ColorView {
  reader : @rkyv.Reader
  offset : Int
}

///|
pub fn ColorView::at(
  reader : @rkyv.Reader,
  offset : Int,
) -> ColorView raise @rkyv.RkyvError {
  reader.validate_range(offset, 1)
  { reader, offset }
}

///|
pub fn ColorView::root(bytes : Bytes) -> ColorView raise @rkyv.RkyvError {
  let reader = @rkyv.Reader::new(bytes)
  let offset = reader.root_offset(1)
  ColorView::at(reader, offset)
}

///|
pub fn ColorView::validate(bytes : Bytes) -> ColorView raise @rkyv.RkyvError {
  let view = ColorView::root(bytes)
  let _ = view.tag()
  view
}

///|
pub fn ColorView::tag(self : ColorView) -> ColorTag raise @rkyv.RkyvError {
  let value = self.reader.read_union_tag(self.offset, [b'\x00', b'\x01', b'\xff'])
  match value {
    b'\x00' => ColorTag::Red
    b'\x01' => ColorTag::Green
    b'\xff' => ColorTag::Blue
    _ => abort("validated enum tag was not matched")
  }
}

///|
pub(all) enum ColorInput {
  Red
  Green
  Blue
}

///|
pub fn ColorInput::schema() -> @rkyv.Schema {
  @rkyv.Schema::TaggedUnion(
    [
      { name: "Red", tag: b'\x00', schema: @rkyv.Schema::Struct([]) },
      { name: "Green", tag: b'\x01', schema: @rkyv.Schema::Struct([]) },
      { name: "Blue", tag: b'\xff', schema: @rkyv.Schema::Struct([]) },
    ],
    0,
    0,
    1,
  )
}

///|
pub fn ColorInput::to_value(self : ColorInput) -> @rkyv.Value {
  match self {
    ColorInput::Red => @rkyv.Value::Tagged(b'\x00', None)
    ColorInput::Green => @rkyv.Value::Tagged(b'\x01', None)
    ColorInput::Blue => @rkyv.Value::Tagged(b'\xff', None)
  }
}

///|
pub fn ColorInput::encode(self : ColorInput) -> Bytes raise @rkyv.SchemaError {
  ColorInput::schema().encode(self.to_value())
}
"#;

#[test]
fn renders_the_optional_value_encoder_after_the_view() {
    let source = preferences_schema()
        .render_moonbit_with_encoder()
        .expect("every field kind has an encoder");
    assert_eq!(source, format!("{}{}", PREFERENCES_MBT, PREFERENCES_ENCODER_MBT));
}

#[test]
fn renders_vector_views_and_a_layout_ordered_encoder() {
    let schema = gauge_schema();
    assert_eq!(schema.render_moonbit(), GAUGE_MBT);
    let source = schema.render_moonbit_with_encoder().expect("encodable");
    assert_eq!(source, format!("{}{}", GAUGE_MBT, GAUGE_ENCODER_MBT));
    assert!(source.contains("    [0, 8, 16, 24, 40, 48],\n"));
}

#[test]
fn renders_the_enum_view_and_writer() {
    let schema = color_schema();
    assert_eq!(schema.render_moonbit(), COLOR_MBT);
    assert_eq!(schema.render_moonbit_with_encoder(), COLOR_WITH_ENCODER_MBT);
    assert!(COLOR_WITH_ENCODER_MBT.starts_with(COLOR_MBT));
}

#[test]
fn renders_enum_tags_as_two_hex_digits() {
    let schema = EnumSchema::new(
        "Level",
        1,
        vec![("Low".to_owned(), 10), ("High".to_owned(), 171)],
    );
    let source = schema.render_moonbit();
    assert!(source.contains("read_union_tag(self.offset, [b'\\x0a', b'\\xab'])"));
    assert!(source.contains("    b'\\xab' => LevelTag::High\n"));
}

#[test]
fn renders_an_empty_enum() {
    let schema = EnumSchema::new("Never", 1, vec![]);
    let source = schema.render_moonbit();
    assert!(source.starts_with("///|\npub enum NeverTag {\n} derive(Debug, Eq)\n"));
    assert!(source.contains("read_union_tag(self.offset, [])\n"));
}

#[test]
fn wraps_signatures_by_their_utf8_byte_length() {
    let schema = StructSchema::new("\u{c9}\u{c9}\u{c9}\u{c9}\u{c9}", 4, vec![("x".to_owned(), 0, FieldKind::U8)]);
    let source = schema.render_moonbit();
    assert!(source.contains(
        "pub fn \u{c9}\u{c9}\u{c9}\u{c9}\u{c9}View::root(\n  bytes : Bytes,\n) -> "
    ));
    let short = StructSchema::new("Eeeee", 4, vec![("x".to_owned(), 0, FieldKind::U8)]);
    assert!(short
        .render_moonbit()
        .contains("pub fn EeeeeView::root(bytes : Bytes) -> EeeeeView raise @rkyv.RkyvError {\n"));
}

#[test]
fn wraps_long_vector_headers() {
    let schema = StructSchema::new(
        "Wide",
        104,
        vec![("values".to_owned(), 100, FieldKind::VecPrimitive(Box::new(FieldKind::U16), 2))],
    );
    let source = schema.render_moonbit();
    assert!(source.contains(
        "  let header = self.reader.read_vec_header_with_element_size(\n    self.offset + 100,\n    2,\n  )\n"
    ));
    assert!(source.contains(
        "  let header = self.reader.read_vec_header_with_element_size(self.offset + 100, 2)\n  for index"
    ));
}

#[test]
fn renders_large_sizes_in_decimal() {
    let schema = StructSchema::new("Huge", usize::MAX, vec![]);
    let source = schema.render_moonbit();
    assert!(source.contains(&format!("reader.validate_range(offset, {})\n", usize::MAX)));
    assert!(source.contains(&format!("reader.root_offset({})\n", usize::MAX)));
    let zero = StructSchema::new("Unit", 0, vec![]);
    assert!(zero.render_moonbit().contains("reader.validate_range(offset, 0)\n"));
}

#[test]
fn names_vector_views_in_upper_camel_case() {
    assert_eq!(vec_view_name("DirectoryView", "entries"), "DirectoryEntriesView");
    assert_eq!(vec_view_name("GaugeView", "maybe_tags"), "GaugeMaybeTagsView");
    assert_eq!(vec_view_name("GaugeView", "__odd__name_"), "GaugeOddNameView");
    assert_eq!(vec_view_name("Plain", "a_b"), "PlainABView");
    assert_eq!(vec_view_name("ViewView", "x"), "ViewXView");
    assert_eq!(vec_view_name("DirectoryView", "\u{df}pan__list_"), "DirectorySSpanListView");
    assert_eq!(vec_view_name("DirectoryView", "\u{e9}t\u{e9}"), "Directory\u{c9}t\u{e9}View");
}

#[test]
fn the_encoder_schema_lists_fields_stably_by_offset() {
    let schema = StructSchema::new(
        "Pair",
        8,
        vec![
            ("b".to_owned(), 4, FieldKind::U8),
            ("a".to_owned(), 0, FieldKind::U8),
            ("c".to_owned(), 4, FieldKind::U16),
        ],
    );
    let source = schema.render_moonbit_with_encoder().expect("encodable");
    assert!(source.starts_with(&schema.render_moonbit()));
    let expected_layout = "    [\n      { name: \"a\", schema: @rkyv.Schema::U8 },\n      { name: \"b\", schema: @rkyv.Schema::U8 },\n      { name: \"c\", schema: @rkyv.Schema::U16 },\n    ],\n    [0, 4, 4],\n    8,\n";
    assert!(source.contains(expected_layout));
    assert!(source.contains("  { b, a, c }\n"));
}

#[test]
fn a_vector_of_nested_structs_names_its_input_type() {
    let schema = StructSchema::new(
        "Directory",
        8,
        vec![("entries".to_owned(), 0, FieldKind::VecStruct("Profile".to_owned(), 8))],
    );
    let source = schema.render_moonbit_with_encoder().expect("encodable");
    assert!(source.contains("  entries : Array[ProfileInput]\n"));
    assert!(source.contains("{ name: \"entries\", schema: @rkyv.Schema::Vec(ProfileInput::schema()) },"));
    assert!(source.contains("    entries_value_items.push(value.to_value())\n"));
    let _ = profile_schema();
}

#[test]
fn the_encoder_layout_does_not_depend_on_declaration_order() {
    let declared = gauge_schema().render_moonbit_with_encoder().expect("encodable");
    let mut fields = gauge_schema().fields;
    fields.reverse();
    let reordered = StructSchema::new("Gauge", 56, fields)
        .render_moonbit_with_encoder()
        .expect("encodable");
    let marker = "///|\npub fn GaugeInput::schema()";
    let declared_layout = &declared[declared.find(marker).expect("schema")..];
    let reordered_layout = &reordered[reordered.find(marker).expect("schema")..];
    assert_eq!(declared_layout, reordered_layout);
    assert_ne!(declared, reordered);
}

#[test]
fn an_encoder_error_message_names_the_field_and_its_kind() {
    let error = EncoderRenderError {
        struct_name: "Gauge".to_owned(),
        field_name: "readings".to_owned(),
        field_kind: FieldKind::VecPrimitive(Box::new(FieldKind::I16), 2),
    };
    assert_eq!(
        error.message(),
        "cannot generate MoonBit encoder for Gauge.readings (VecPrimitive(I16, 2))",
    );
}

#[test]
fn an_encoder_error_message_writes_the_kind_as_debug_does() {
    let kinds = vec![
        FieldKind::U8,
        FieldKind::F64,
        FieldKind::VecU32,
        FieldKind::VecString,
        FieldKind::Struct("Profile".to_owned()),
        FieldKind::VecStruct("Pro\"file\n".to_owned(), 8),
        FieldKind::Option(Box::new(FieldKind::Struct("Ünï".to_owned())), 4),
        FieldKind::Option(
            Box::new(FieldKind::VecPrimitive(Box::new(FieldKind::U64), 8)),
            8,
        ),
    ];
    for kind in kinds {
        let expected = format!("cannot generate MoonBit encoder for Item.value ({:?})", kind);
        let error = EncoderRenderError {
            struct_name: "Item".to_owned(),
            field_name: "value".to_owned(),
            field_kind: kind,
        };
        assert_eq!(error.message(), expected);
    }
    let quoted = EncoderRenderError {
        struct_name: "Item".to_owned(),
        field_name: "value".to_owned(),
        field_kind: FieldKind::Struct("Pro\"file".to_owned()),
    };
    assert_eq!(
        quoted.message(),
        "cannot generate MoonBit encoder for Item.value (Struct(\"Pro\\\"file\"))",
    );
}
