//! The generated source text, as a function of a type's shape.
//!
//! Every piece of a method body begins with one space, so pieces can be
//! joined without looking at their neighbours and an empty body reads `{ }`.

use vstd::prelude::*;
use crate::decimal::decimal;
use crate::shape::{DataView, DeriveInputView, FieldsView, Unsupported};

verus! {

/// The name of the read-only method, or of the editing one.
pub open spec fn method_name(editable: bool) -> Seq<char> {
    if editable {
        "debug_mut"@
    } else {
        "debug"@
    }
}

/// The header of a method, up to its body.
pub open spec fn signature(editable: bool) -> Seq<char> {
    if editable {
        "fn debug_mut(&mut self, ui: &mut bevy_egui::egui::Ui)"@
    } else {
        "fn debug(&self, ui: &mut bevy_egui::egui::Ui)"@
    }
}

/// A method with the given statements as its body.
pub open spec fn method_text(editable: bool, body: Seq<char>) -> Seq<char> {
    signature(editable) + " {"@ + body + " }"@
}

/// The two methods of an implementation: the read-only one first.
pub open spec fn methods_text(shown: Seq<char>, edited: Seq<char>) -> Seq<char> {
    method_text(false, shown) + " "@ + method_text(true, edited)
}

/// One row for a named field: its name as a label, and the field's own widget
/// beside it.
pub open spec fn labelled_row(name: Seq<char>, editable: bool) -> Seq<char> {
    " ui.horizontal(|ui| { ui.label(\""@ + name + "\"); self."@ + name + "."@ + method_name(
        editable,
    ) + "(ui); });"@
}

/// The rows of all named fields, in declaration order.
pub open spec fn labelled_rows(names: Seq<Seq<char>>, editable: bool) -> Seq<char>
    decreases names.len(),
{
    if names.len() == 0 {
        Seq::empty()
    } else {
        labelled_rows(names.drop_last(), editable) + labelled_row(names.last(), editable)
    }
}

/// The widget of the tuple field at `index`.
pub open spec fn indexed_call(index: nat, editable: bool) -> Seq<char> {
    " self."@ + decimal(index) + "."@ + method_name(editable) + "(ui);"@
}

/// The widgets of the tuple fields `0` to `count - 1`, in that order.
pub open spec fn indexed_calls(count: nat, editable: bool) -> Seq<char>
    decreases count,
{
    if count == 0 {
        Seq::empty()
    } else {
        indexed_calls((count - 1) as nat, editable) + indexed_call((count - 1) as nat, editable)
    }
}

/// The caption of the selector of an enum.
pub open spec fn selector_label(ident: Seq<char>) -> Seq<char> {
    ident + " Type"@
}

/// One selectable option: choosing it stores the variant, and its caption is
/// the variant's name.
pub open spec fn option_row(ident: Seq<char>, variant: Seq<char>) -> Seq<char> {
    " ui.selectable_value(self, "@ + ident + "::"@ + variant + ", \""@ + variant + "\");"@
}

/// The options of all variants, in declaration order.
pub open spec fn option_rows(ident: Seq<char>, variants: Seq<Seq<char>>) -> Seq<char>
    decreases variants.len(),
{
    if variants.len() == 0 {
        Seq::empty()
    } else {
        option_rows(ident, variants.drop_last()) + option_row(ident, variants.last())
    }
}

/// The rows of a field list are the rows of its front part followed by the
/// rows of its back part: every field gets exactly one row, and the rows
/// stand in the order of the fields.
pub proof fn lemma_labelled_rows_concat(
    front: Seq<Seq<char>>,
    back: Seq<Seq<char>>,
    editable: bool,
)
    ensures
        labelled_rows(front + back, editable) == labelled_rows(front, editable) + labelled_rows(
            back,
            editable,
        ),
    decreases back.len(),
{
    if back.len() == 0 {
        assert(front + back =~= front);
    } else {
        lemma_labelled_rows_concat(front, back.drop_last(), editable);
        assert((front + back).drop_last() =~= front + back.drop_last());
        assert((front + back).last() == back.last());
    }
}

/// The options of a variant list are the options of its front part followed
/// by the options of its back part: every variant gets exactly one option,
/// and the options stand in the order of the variants.
pub proof fn lemma_option_rows_concat(
    ident: Seq<char>,
    front: Seq<Seq<char>>,
    back: Seq<Seq<char>>,
)
    ensures
        option_rows(ident, front + back) == option_rows(ident, front) + option_rows(ident, back),
    decreases back.len(),
{
    if back.len() == 0 {
        assert(front + back =~= front);
    } else {
        lemma_option_rows_concat(ident, front, back.drop_last());
        assert((front + back).drop_last() =~= front + back.drop_last());
        assert((front + back).last() == back.last());
    }
}

/// The statement that shows a value by its `Debug` text.
pub open spec fn debug_label() -> Seq<char> {
    " ui.label(format!(\"{:?}\", self));"@
}

/// The selector of an enum: a combo box that shows the current variant and
/// offers every variant.
pub open spec fn selector(ident: Seq<char>, variants: Seq<Seq<char>>) -> Seq<char> {
    " bevy_egui::egui::ComboBox::from_label(\""@ + selector_label(ident)
        + "\").selected_text(format!(\"{:?}\", self)).show_ui(ui, |ui| {"@ + option_rows(
        ident,
        variants,
    ) + " });"@
}

/// The methods for a struct with named fields.
pub open spec fn named_struct_text(names: Seq<Seq<char>>) -> Seq<char> {
    methods_text(labelled_rows(names, false), labelled_rows(names, true))
}

/// The methods for a tuple struct with `count` fields.
pub open spec fn unnamed_struct_text(count: nat) -> Seq<char> {
    methods_text(indexed_calls(count, false), indexed_calls(count, true))
}

/// The methods for an enum.
pub open spec fn enum_text(ident: Seq<char>, variants: Seq<Seq<char>>) -> Seq<char> {
    methods_text(debug_label(), selector(ident, variants))
}

/// The model of a generated text, or of the reason why there is none.
pub open spec fn outcome_view(outcome: Result<String, Unsupported>) -> Result<
    Seq<char>,
    Unsupported,
> {
    match outcome {
        Ok(text) => Ok(text@),
        Err(reason) => Err(reason),
    }
}

/// The methods for a struct, or the reason why it gets none.
pub open spec fn struct_text(fields: FieldsView) -> Result<Seq<char>, Unsupported> {
    match fields {
        FieldsView::Named(names) => Ok(named_struct_text(names)),
        FieldsView::Unnamed(count) => Ok(unnamed_struct_text(count)),
        FieldsView::Unit => Err(Unsupported::UnitStruct),
    }
}

/// The methods for a type, or the reason why it gets none.
pub open spec fn data_text(ident: Seq<char>, data: DataView) -> Result<
    Seq<char>,
    Unsupported,
> {
    match data {
        DataView::Struct(fields) => struct_text(fields),
        DataView::Enum(variants) => Ok(enum_text(ident, variants)),
        DataView::Union => Err(Unsupported::Union),
    }
}

/// An implementation of the trait for the named type, around its methods.
pub open spec fn impl_text(ident: Seq<char>, methods: Seq<char>) -> Seq<char> {
    "impl bevy_egui_debug::EguiDebug for "@ + ident + " { "@ + methods + " }"@
}

/// The whole implementation generated for a declaration, or the reason why
/// there is none.
pub open spec fn derive_text(input: DeriveInputView) -> Result<Seq<char>, Unsupported> {
    match data_text(input.ident, input.data) {
        Ok(methods) => Ok(impl_text(input.ident, methods)),
        Err(reason) => Err(reason),
    }
}

} // verus!
