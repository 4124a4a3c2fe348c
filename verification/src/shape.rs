//! The static shape of a type: what the generator reads of a declaration.
//!
//! Names are kept as text, spelled as in the declaration (a raw identifier
//! keeps its `r#`). The generator copies them into its output unchanged, so a
//! caller hands in identifiers.

use vstd::prelude::*;

verus! {

/// The fields of a struct.
#[derive(Debug, Clone, PartialEq, Eq)]
pub enum Fields {
    /// Named fields, in declaration order: `struct S { a: A, b: B }`.
    Named(Vec<String>),
    /// The number of fields of a tuple struct: `struct S(A, B);`.
    Unnamed(usize),
    /// No field list at all: `struct S;`.
    Unit,
}

/// What kind of type a declaration introduces, with its members.
#[derive(Debug, Clone, PartialEq, Eq)]
pub enum Data {
    Struct(Fields),
    /// The names of the variants, in declaration order.
    Enum(Vec<String>),
    Union,
}

/// A type declaration as the generator sees it.
#[derive(Debug, Clone, PartialEq, Eq)]
pub struct DeriveInput {
    /// The name of the type.
    pub ident: String,
    pub data: Data,
}

/// Why no implementation is generated for a type.
#[derive(Debug, Clone, Copy, PartialEq, Eq, Structural)]
pub enum Unsupported {
    /// A struct without a field list has nothing to show.
    UnitStruct,
    /// The fields of a union cannot be read safely.
    Union,
}

/// Mathematical model of [`Fields`].
pub enum FieldsView {
    Named(Seq<Seq<char>>),
    Unnamed(nat),
    Unit,
}

/// Mathematical model of [`Data`].
pub enum DataView {
    Struct(FieldsView),
    Enum(Seq<Seq<char>>),
    Union,
}

/// Mathematical model of [`DeriveInput`].
pub struct DeriveInputView {
    pub ident: Seq<char>,
    pub data: DataView,
}

/// The texts of a list of names.
pub open spec fn names_view(names: Seq<String>) -> Seq<Seq<char>> {
    Seq::new(names.len(), |i: int| names[i]@)
}

impl View for Fields {
    type V = FieldsView;

    open spec fn view(&self) -> FieldsView {
        match *self {
            Fields::Named(names) => FieldsView::Named(names_view(names@)),
            Fields::Unnamed(count) => FieldsView::Unnamed(count as nat),
            Fields::Unit => FieldsView::Unit,
        }
    }
}

impl View for Data {
    type V = DataView;

    open spec fn view(&self) -> DataView {
        match *self {
            Data::Struct(fields) => DataView::Struct(fields@),
            Data::Enum(variants) => DataView::Enum(names_view(variants@)),
            Data::Union => DataView::Union,
        }
    }
}

impl View for DeriveInput {
    type V = DeriveInputView;

    open spec fn view(&self) -> DeriveInputView {
        DeriveInputView { ident: self.ident@, data: self.data@ }
    }
}

} // verus!
