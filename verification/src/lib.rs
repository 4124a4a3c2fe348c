//! Source text of `EguiDebug` implementations, generated from the shape of a
//! type: one display call and one edit call per field of a struct, one
//! selectable option per variant of an enum.
//!
//! - [`shape`]: what the generator reads of a type declaration.
//! - [`template`]: the generated text, as a mathematical function of the shape.
//! - [`generate`]: the generator itself, proved to write exactly that text.
//! - [`decimal`]: the notation of tuple-field indices.
//! - [`nesting`]: the proof that every generated text is well nested.

pub mod decimal;
pub mod generate;
pub mod nesting;
pub mod shape;
pub mod template;

pub use generate::{
    derive_egui_debug, enum_data_impl, named_struct_impl, struct_data_impl, unnamed_struct_impl,
};
pub use shape::{Data, DeriveInput, Fields, Unsupported};
