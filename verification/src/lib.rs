//! Rust-side schema extraction and MoonBit binding rendering for rkyv archives.
pub mod derive;
pub mod encoder;
pub mod enum_view;
pub mod kinds;
pub mod layout;
pub mod schema;
pub mod text;
pub mod view;

pub use schema::{EncoderRenderError, EnumSchema, FieldKind, RkyvMbt, RkyvMbtEnum, StructSchema};
