use rkyv_mbt_codegen::{FieldKind, RkyvMbt, StructSchema};

pub struct User {
    pub id: u32,
    pub active: bool,
    pub name: String,
    pub scores: Vec<u32>,
}

impl RkyvMbt for User {
    fn rkyv_mbt_schema() -> StructSchema {
        StructSchema::new(
            "User",
            24,
            vec![
                ("id".to_owned(), 0, FieldKind::U32),
                ("active".to_owned(), 4, FieldKind::Bool),
                ("name".to_owned(), 8, FieldKind::String),
                ("scores".to_owned(), 16, FieldKind::VecU32),
            ],
        )
    }
}

pub struct Profile {
    pub age: u32,
    pub subscribed: bool,
}

impl RkyvMbt for Profile {
    fn rkyv_mbt_schema() -> StructSchema {
        StructSchema::new(
            "Profile",
            8,
            vec![
                ("age".to_owned(), 0, FieldKind::U32),
                ("subscribed".to_owned(), 4, FieldKind::Bool),
            ],
        )
    }
}

pub struct Account {
    pub id: u32,
    pub profile: Profile,
}

impl RkyvMbt for Account {
    fn rkyv_mbt_schema() -> StructSchema {
        StructSchema::new(
            "Account",
            12,
            vec![
                ("id".to_owned(), 0, FieldKind::U32),
                ("profile".to_owned(), 4, FieldKind::Struct("Profile".to_owned())),
            ],
        )
    }
}

pub struct Directory {
    pub entries: Vec<Profile>,
}

impl RkyvMbt for Directory {
    fn rkyv_mbt_schema() -> StructSchema {
        StructSchema::new(
            "Directory",
            8,
            vec![("entries".to_owned(), 0, FieldKind::VecStruct("Profile".to_owned(), 8))],
        )
    }
}

pub struct Metrics {
    pub delta: i64,
    pub ratio: f32,
    pub total: u64,
}

impl RkyvMbt for Metrics {
    fn rkyv_mbt_schema() -> StructSchema {
        StructSchema::new(
            "Metrics",
            24,
            vec![
                ("delta".to_owned(), 0, FieldKind::I64),
                ("ratio".to_owned(), 8, FieldKind::F32),
                ("total".to_owned(), 16, FieldKind::U64),
            ],
        )
    }
}

pub struct Preferences {
    pub retries: Option<u32>,
    pub nickname: Option<String>,
    pub profile: Option<Profile>,
}

impl RkyvMbt for Preferences {
    fn rkyv_mbt_schema() -> StructSchema {
        StructSchema::new(
            "Preferences",
            32,
            vec![
                ("retries".to_owned(), 0, FieldKind::Option(Box::new(FieldKind::U32), 4)),
                ("nickname".to_owned(), 8, FieldKind::Option(Box::new(FieldKind::String), 4)),
                (
                    "profile".to_owned(),
                    20,
                    FieldKind::Option(Box::new(FieldKind::Struct("Profile".to_owned())), 4),
                ),
            ],
        )
    }
}

const PREFERENCES_MBT: &str = r#"///|
pub struct PreferencesView {
  reader : @rkyv.Reader
  offset : Int
}

///|
pub fn PreferencesView::at(
  reader : @rkyv.Reader,
  offset : Int,
) -> PreferencesView raise @rkyv.RkyvError {
  reader.validate_range(offset, 32)
  { reader, offset }
}

///|
pub fn PreferencesView::root(
  bytes : Bytes,
) -> PreferencesView raise @rkyv.RkyvError {
  let reader = @rkyv.Reader::new(bytes)
  let offset = reader.root_offset(32)
  PreferencesView::at(reader, offset)
}

///|
pub fn PreferencesView::validate(
  bytes : Bytes,
) -> PreferencesView raise @rkyv.RkyvError {
  let view = PreferencesView::root(bytes)
  view.validate_all(256)
  view
}

///|
pub fn PreferencesView::validate_all(
  self : PreferencesView,
  remaining_depth : Int,
) -> Unit raise @rkyv.RkyvError {
  @rkyv.require_validation_depth(remaining_depth)
  match self.reader.read_option_value_offset_strict(self.offset, 4) {
    None => ()
    Some(value_offset) => {
      let _ = self.reader.read_u32(value_offset)
    }
  }
  match self.reader.read_option_value_offset_strict(self.offset + 8, 4) {
    None => ()
    Some(value_offset) => {
      let _ = self.reader.read_string(value_offset)
    }
  }
  match self.reader.read_option_value_offset_strict(self.offset + 20, 4) {
    None => ()
    Some(value_offset) => {
      let value = ProfileView::at(self.reader, value_offset)
      value.validate_all(remaining_depth - 1)
    }
  }
}

///|
pub fn PreferencesView::retries(
  self : PreferencesView,
) -> Result[UInt?, @rkyv.RkyvError] {
  try {
    match self.reader.read_option_value_offset(self.offset, 4) {
      None => None
      Some(value_offset) => Some(self.reader.read_u32(value_offset))
    }
  } catch {
    error => Err(error)
  } noraise {
    value => Ok(value)
  }
}

///|
pub fn PreferencesView::nickname(
  self : PreferencesView,
) -> Result[String?, @rkyv.RkyvError] {
  try {
    match self.reader.read_option_value_offset(self.offset + 8, 4) {
      None => None
      Some(value_offset) => Some(self.reader.read_string(value_offset))
    }
  } catch {
    error => Err(error)
  } noraise {
    value => Ok(value)
  }
}

///|
pub fn PreferencesView::profile(
  self : PreferencesView,
) -> Result[ProfileView?, @rkyv.RkyvError] {
  try {
    match self.reader.read_option_value_offset(self.offset + 20, 4) {
      None => None
      Some(value_offset) => Some(ProfileView::at(self.reader, value_offset))
    }
  } catch {
    error => Err(error)
  } noraise {
    value => Ok(value)
  }
}
"#;

const USER_MBT: &str = r#"///|
pub struct UserView {
  reader : @rkyv.Reader
  offset : Int
}

///|
pub fn UserView::at(
  reader : @rkyv.Reader,
  offset : Int,
) -> UserView raise @rkyv.RkyvError {
  reader.validate_range(offset, 24)
  { reader, offset }
}

///|
pub fn UserView::root(bytes : Bytes) -> UserView raise @rkyv.RkyvError {
  let reader = @rkyv.Reader::new(bytes)
  let offset = reader.root_offset(24)
  UserView::at(reader, offset)
}

///|
pub fn UserView::validate(bytes : Bytes) -> UserView raise @rkyv.RkyvError {
  let view = UserView::root(bytes)
  view.validate_all(256)
  view
}

///|
pub fn UserView::validate_all(
  self : UserView,
  remaining_depth : Int,
) -> Unit raise @rkyv.RkyvError {
  @rkyv.require_validation_depth(remaining_depth)
  let _ = self.reader.read_u32(self.offset)
  let _ = self.reader.read_bool_strict(self.offset + 4)
  let _ = self.reader.read_string(self.offset + 8)
  let _ = self.reader.read_vec_u32(self.offset + 16)
}

///|
pub fn UserView::id(self : UserView) -> Result[UInt, @rkyv.RkyvError] {
  try {
    self.reader.read_u32(self.offset)
  } catch {
    error => Err(error)
  } noraise {
    value => Ok(value)
  }
}

///|
pub fn UserView::active(self : UserView) -> Result[Bool, @rkyv.RkyvError] {
  try {
    self.reader.read_bool(self.offset + 4)
  } catch {
    error => Err(error)
  } noraise {
    value => Ok(value)
  }
}

///|
pub fn UserView::name(self : UserView) -> Result[String, @rkyv.RkyvError] {
  try {
    self.reader.read_string(self.offset + 8)
  } catch {
    error => Err(error)
  } noraise {
    value => Ok(value)
  }
}

///|
pub fn UserView::scores(
  self : UserView,
) -> @rkyv.U32VecView raise @rkyv.RkyvError {
  self.reader.read_vec_u32(self.offset + 16)
}
"#;

const PROFILE_MBT: &str = r#"///|
pub struct ProfileView {
  reader : @rkyv.Reader
  offset : Int
}

///|
pub fn ProfileView::at(
  reader : @rkyv.Reader,
  offset : Int,
) -> ProfileView raise @rkyv.RkyvError {
  reader.validate_range(offset, 8)
  { reader, offset }
}

///|
pub fn ProfileView::root(bytes : Bytes) -> ProfileView raise @rkyv.RkyvError {
  let reader = @rkyv.Reader::new(bytes)
  let offset = reader.root_offset(8)
  ProfileView::at(reader, offset)
}

///|
pub fn ProfileView::validate(
  bytes : Bytes,
) -> ProfileView raise @rkyv.RkyvError {
  let view = ProfileView::root(bytes)
  view.validate_all(256)
  view
}

///|
pub fn ProfileView::validate_all(
  self : ProfileView,
  remaining_depth : Int,
) -> Unit raise @rkyv.RkyvError {
  @rkyv.require_validation_depth(remaining_depth)
  let _ = self.reader.read_u32(self.offset)
  let _ = self.reader.read_bool_strict(self.offset + 4)
}

///|
pub fn ProfileView::age(self : ProfileView) -> Result[UInt, @rkyv.RkyvError] {
  try {
    self.reader.read_u32(self.offset)
  } catch {
    error => Err(error)
  } noraise {
    value => Ok(value)
  }
}

///|
pub fn ProfileView::subscribed(
  self : ProfileView,
) -> Result[Bool, @rkyv.RkyvError] {
  try {
    self.reader.read_bool(self.offset + 4)
  } catch {
    error => Err(error)
  } noraise {
    value => Ok(value)
  }
}
"#;

const ACCOUNT_MBT: &str = r#"///|
pub struct AccountView {
  reader : @rkyv.Reader
  offset : Int
}

///|
pub fn AccountView::at(
  reader : @rkyv.Reader,
  offset : Int,
) -> AccountView raise @rkyv.RkyvError {
  reader.validate_range(offset, 12)
  { reader, offset }
}

///|
pub fn AccountView::root(bytes : Bytes) -> AccountView raise @rkyv.RkyvError {
  let reader = @rkyv.Reader::new(bytes)
  let offset = reader.root_offset(12)
  AccountView::at(reader, offset)
}

///|
pub fn AccountView::validate(
  bytes : Bytes,
) -> AccountView raise @rkyv.RkyvError {
  let view = AccountView::root(bytes)
  view.validate_all(256)
  view
}

///|
pub fn AccountView::validate_all(
  self : AccountView,
  remaining_depth : Int,
) -> Unit raise @rkyv.RkyvError {
  @rkyv.require_validation_depth(remaining_depth)
  let _ = self.reader.read_u32(self.offset)
  let value = ProfileView::at(self.reader, self.offset + 4)
  value.validate_all(remaining_depth - 1)
}

///|
pub fn AccountView::id(self : AccountView) -> Result[UInt, @rkyv.RkyvError] {
  try {
    self.reader.read_u32(self.offset)
  } catch {
    error => Err(error)
  } noraise {
    value => Ok(value)
  }
}

///|
pub fn AccountView::profile(
  self : AccountView,
) -> Result[ProfileView, @rkyv.RkyvError] {
  try {
    ProfileView::at(self.reader, self.offset + 4)
  } catch {
    error => Err(error)
  } noraise {
    value => Ok(value)
  }
}
"#;

const DIRECTORY_MBT: &str = r#"///|
pub struct DirectoryView {
  reader : @rkyv.Reader
  offset : Int
}

///|
pub fn DirectoryView::at(
  reader : @rkyv.Reader,
  offset : Int,
) -> DirectoryView raise @rkyv.RkyvError {
  reader.validate_range(offset, 8)
  { reader, offset }
}

///|
pub fn DirectoryView::root(
  bytes : Bytes,
) -> DirectoryView raise @rkyv.RkyvError {
  let reader = @rkyv.Reader::new(bytes)
  let offset = reader.root_offset(8)
  DirectoryView::at(reader, offset)
}

///|
pub fn DirectoryView::validate(
  bytes : Bytes,
) -> DirectoryView raise @rkyv.RkyvError {
  let view = DirectoryView::root(bytes)
  view.validate_all(256)
  view
}

///|
pub fn DirectoryView::validate_all(
  self : DirectoryView,
  remaining_depth : Int,
) -> Unit raise @rkyv.RkyvError {
  @rkyv.require_validation_depth(remaining_depth)
  let values = self.entries()
  for index in 0..<values.length() {
    match values.at(index) {
      None => ()
      Some(value) => value.validate_all(remaining_depth - 1)
    }
  }
}

///|
pub fn DirectoryView::entries(
  self : DirectoryView,
) -> DirectoryEntriesView raise @rkyv.RkyvError {
  let header = self.reader.read_vec_header_with_element_size(self.offset, 8)
  {
    reader: self.reader,
    data_offset: header.data_offset,
    length: header.length,
  }
}

///|
pub struct DirectoryEntriesView {
  reader : @rkyv.Reader
  data_offset : Int
  length : Int
}

///|
pub fn DirectoryEntriesView::length(self : DirectoryEntriesView) -> Int {
  self.length
}

///|
pub fn DirectoryEntriesView::at(
  self : DirectoryEntriesView,
  index : Int,
) -> ProfileView? raise @rkyv.RkyvError {
  if index < 0 || index >= self.length {
    None
  } else {
    Some(ProfileView::at(self.reader, self.data_offset + index * 8))
  }
}
"#;

#[test]
fn derives_the_archived_struct_layout_and_moonbit_view() {
    let schema = User::rkyv_mbt_schema();

    assert_eq!(schema.name, "User");
    assert_eq!(schema.archived_size, 24);
    assert_eq!(
        schema.fields,
        vec![
            ("id".into(), 0, FieldKind::U32),
            ("active".into(), 4, FieldKind::Bool),
            ("name".into(), 8, FieldKind::String),
            ("scores".into(), 16, FieldKind::VecU32),
        ],
    );
    assert_eq!(schema.render_moonbit(), USER_MBT);
}

#[test]
fn generates_a_nested_struct_view_from_the_archived_layout() {
    let profile = Profile::rkyv_mbt_schema();
    assert_eq!(profile.archived_size, 8);
    assert_eq!(
        profile.fields,
        vec![
            ("age".into(), 0, FieldKind::U32),
            ("subscribed".into(), 4, FieldKind::Bool),
        ],
    );
    assert_eq!(profile.render_moonbit(), PROFILE_MBT);

    let account = Account::rkyv_mbt_schema();
    assert_eq!(account.archived_size, 12);
    assert_eq!(
        account.fields,
        vec![
            ("id".into(), 0, FieldKind::U32),
            ("profile".into(), 4, FieldKind::Struct("Profile".into())),
        ],
    );
    let source = account.render_moonbit();
    assert!(source.contains("ProfileView::at(self.reader, self.offset + 4)"));
    assert_eq!(source, ACCOUNT_MBT);
}

#[test]
fn generates_a_lazy_view_for_a_vector_of_nested_structs() {
    let schema = Directory::rkyv_mbt_schema();

    assert_eq!(schema.archived_size, 8);
    assert_eq!(
        schema.fields,
        vec![(
            "entries".into(),
            0,
            FieldKind::VecStruct("Profile".into(), 8),
        )],
    );
    let source = schema.render_moonbit();
    assert!(source.contains("pub struct DirectoryEntriesView"));
    assert!(source.contains("read_vec_header_with_element_size(self.offset, 8)"));
    assert!(source.contains("ProfileView::at(self.reader, self.data_offset + index * 8)"));
    assert_eq!(source, DIRECTORY_MBT);
}

#[test]
fn generates_all_supported_numeric_primitive_accessors() {
    let schema = Metrics::rkyv_mbt_schema();

    assert_eq!(schema.archived_size, 24);
    assert_eq!(
        schema.fields,
        vec![
            ("delta".into(), 0, FieldKind::I64),
            ("ratio".into(), 8, FieldKind::F32),
            ("total".into(), 16, FieldKind::U64),
        ],
    );
    let source = schema.render_moonbit();
    assert!(source.contains("Result[Int64, @rkyv.RkyvError]"));
    assert!(source.contains("self.reader.read_i64(self.offset)"));
    assert!(source.contains("Result[Float, @rkyv.RkyvError]"));
    assert!(source.contains("self.reader.read_f32(self.offset + 8)"));
    assert!(source.contains("Result[UInt64, @rkyv.RkyvError]"));
    assert!(source.contains("self.reader.read_u64(self.offset + 16)"));
}

#[test]
fn generates_optional_values_from_the_archived_layout() {
    let schema = Preferences::rkyv_mbt_schema();

    assert_eq!(schema.archived_size, 32);
    assert_eq!(
        schema.fields,
        vec![
            (
                "retries".into(),
                0,
                FieldKind::Option(Box::new(FieldKind::U32), 4),
            ),
            (
                "nickname".into(),
                8,
                FieldKind::Option(Box::new(FieldKind::String), 4),
            ),
            (
                "profile".into(),
                20,
                FieldKind::Option(Box::new(FieldKind::Struct("Profile".into())), 4),
            ),
        ],
    );
    let source = schema.render_moonbit();
    assert!(source.contains("Result[UInt?, @rkyv.RkyvError]"));
    assert!(source.contains("read_option_value_offset(self.offset, 4)"));
    assert!(source.contains("Result[ProfileView?, @rkyv.RkyvError]"));
    assert_eq!(source, PREFERENCES_MBT);
}
