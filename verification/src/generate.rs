//! The generator: from the shape of a type to the source text of its
//! `EguiDebug` implementation.

use vstd::prelude::*;
use crate::decimal::push_decimal;
use crate::nesting::{
    lemma_generated_text_is_well_nested, lemma_methods_are_well_nested, plain_fields,
    plain_input, plain_names, plain_text, well_nested,
};
use crate::shape::{
    names_view, Data, DataView, DeriveInput, Fields, FieldsView, Unsupported,
};
use crate::template::{
    derive_text, enum_text, indexed_call, indexed_calls, labelled_row,
    labelled_rows, method_name, method_text, methods_text, named_struct_text, option_row,
    option_rows, outcome_view, selector, signature, struct_text, unnamed_struct_text,
};

verus! {

fn method_word(editable: bool) -> (word: &'static str)
    ensures
        word@ == method_name(editable),
{
    if editable {
        "debug_mut"
    } else {
        "debug"
    }
}

fn signature_text(editable: bool) -> (text: &'static str)
    ensures
        text@ == signature(editable),
{
    if editable {
        "fn debug_mut(&mut self, ui: &mut bevy_egui::egui::Ui)"
    } else {
        "fn debug(&self, ui: &mut bevy_egui::egui::Ui)"
    }
}

/// Wraps the statements of a body into the method that holds them.
fn method(editable: bool, body: &str) -> (text: String)
    ensures
        text@ == method_text(editable, body@),
{
    let mut text = String::from_str(signature_text(editable));
    text.append(" {");
    text.append(body);
    text.append(" }");
    text
}

/// Joins the bodies of the two methods into the methods themselves.
fn methods(shown: &str, edited: &str) -> (text: String)
    ensures
        text@ == methods_text(shown@, edited@),
{
    let mut text = method(false, shown);
    text.append(" ");
    let second = method(true, edited);
    text.append(second.as_str());
    text
}

fn push_labelled_row(out: &mut String, name: &str, editable: bool)
    ensures
        final(out)@ == old(out)@ + labelled_row(name@, editable),
{
    out.append(" ui.horizontal(|ui| { ui.label(\"");
    out.append(name);
    out.append("\"); self.");
    out.append(name);
    out.append(".");
    out.append(method_word(editable));
    out.append("(ui); });");
}

fn labelled_rows_text(names: &Vec<String>, editable: bool) -> (text: String)
    ensures
        text@ == labelled_rows(names_view(names@), editable),
{
    let mut text = String::new();
    let mut i: usize = 0;
    while i < names.len()
        invariant
            i <= names.len(),
            text@ == labelled_rows(names_view(names@).take(i as int), editable),
        decreases names.len() - i,
    {
        push_labelled_row(&mut text, names[i].as_str(), editable);
        proof {
            let all = names_view(names@);
            assert(all.take(i + 1).drop_last() == all.take(i as int));
            assert(all.take(i + 1).last() == names[i as int]@);
        }
        i += 1;
    }
    proof {
        assert(names_view(names@).take(i as int) == names_view(names@));
    }
    text
}

fn push_indexed_call(out: &mut String, index: usize, editable: bool)
    ensures
        final(out)@ == old(out)@ + indexed_call(index as nat, editable),
{
    out.append(" self.");
    push_decimal(out, index);
    out.append(".");
    out.append(method_word(editable));
    out.append("(ui);");
}

fn indexed_calls_text(count: usize, editable: bool) -> (text: String)
    ensures
        text@ == indexed_calls(count as nat, editable),
{
    let mut text = String::new();
    let mut i: usize = 0;
    while i < count
        invariant
            i <= count,
            text@ == indexed_calls(i as nat, editable),
        decreases count - i,
    {
        push_indexed_call(&mut text, i, editable);
        i += 1;
    }
    text
}

fn push_option_row(out: &mut String, ident: &str, variant: &str)
    ensures
        final(out)@ == old(out)@ + option_row(ident@, variant@),
{
    out.append(" ui.selectable_value(self, ");
    out.append(ident);
    out.append("::");
    out.append(variant);
    out.append(", \"");
    out.append(variant);
    out.append("\");");
}

fn selector_text(ident: &str, variants: &Vec<String>) -> (text: String)
    ensures
        text@ == selector(ident@, names_view(variants@)),
{
    let mut rows = String::new();
    let mut i: usize = 0;
    while i < variants.len()
        invariant
            i <= variants.len(),
            rows@ == option_rows(ident@, names_view(variants@).take(i as int)),
        decreases variants.len() - i,
    {
        push_option_row(&mut rows, ident, variants[i].as_str());
        proof {
            let all = names_view(variants@);
            assert(all.take(i + 1).drop_last() == all.take(i as int));
            assert(all.take(i + 1).last() == variants[i as int]@);
        }
        i += 1;
    }
    proof {
        assert(names_view(variants@).take(i as int) == names_view(variants@));
    }
    let mut text = String::from_str(" bevy_egui::egui::ComboBox::from_label(\"");
    text.append(ident);
    text.append(" Type");
    text.append("\").selected_text(format!(\"{:?}\", self)).show_ui(ui, |ui| {");
    text.append(rows.as_str());
    text.append(" });");
    text
}

/// The two methods for a struct with the named fields `idents`: each field
/// gets a row with its name as a label and its own widget beside it.
pub fn named_struct_impl(idents: &Vec<String>) -> (text: String)
    ensures
        text@ == named_struct_text(names_view(idents@)),
        plain_names(names_view(idents@)) ==> well_nested(text@),
{
    proof {
        if plain_names(names_view(idents@)) {
            let data = DataView::Struct(FieldsView::Named(names_view(idents@)));
            lemma_methods_are_well_nested(Seq::empty(), data);
        }
    }
    let shown = labelled_rows_text(idents, false);
    let edited = labelled_rows_text(idents, true);
    methods(shown.as_str(), edited.as_str())
}

/// The two methods for a tuple struct with `num_fields` fields: each field
/// gets its own widget, from field `0` on.
pub fn unnamed_struct_impl(num_fields: usize) -> (text: String)
    ensures
        text@ == unnamed_struct_text(num_fields as nat),
        well_nested(text@),
{
    proof {
        let data = DataView::Struct(FieldsView::Unnamed(num_fields as nat));
        lemma_methods_are_well_nested(Seq::empty(), data);
    }
    let shown = indexed_calls_text(num_fields, false);
    let edited = indexed_calls_text(num_fields, true);
    methods(shown.as_str(), edited.as_str())
}

/// The two methods for the enum `name`: its `Debug` text as a label, and a
/// combo box that offers one option per variant.
pub fn enum_data_impl(name: &str, variants: &Vec<String>) -> (text: String)
    ensures
        text@ == enum_text(name@, names_view(variants@)),
        plain_text(name@) && plain_names(names_view(variants@)) ==> well_nested(text@),
{
    proof {
        if plain_text(name@) && plain_names(names_view(variants@)) {
            lemma_methods_are_well_nested(name@, DataView::Enum(names_view(variants@)));
        }
    }
    let edited = selector_text(name, variants);
    methods(" ui.label(format!(\"{:?}\", self));", edited.as_str())
}

/// The two methods for a struct. A struct without a field list is refused.
pub fn struct_data_impl(fields: &Fields) -> (text: Result<String, Unsupported>)
    ensures
        outcome_view(text) == struct_text(fields@),
        text is Err <==> fields@ is Unit,
        plain_fields(fields@) ==> (text matches Ok(methods) ==> well_nested(methods@)),
{
    match fields {
        Fields::Named(idents) => Ok(named_struct_impl(idents)),
        Fields::Unnamed(count) => Ok(unnamed_struct_impl(*count)),
        Fields::Unit => Err(Unsupported::UnitStruct),
    }
}

/// The implementation of `EguiDebug` for the declared type. Unit structs and
/// unions are refused; every other declaration gets its implementation, and
/// where the names in the declaration are plain, as identifiers are, that
/// implementation is well nested.
pub fn derive_egui_debug(input: &DeriveInput) -> (text: Result<String, Unsupported>)
    ensures
        outcome_view(text) == derive_text(input@),
        text == Err::<String, Unsupported>(Unsupported::UnitStruct) <==> input@.data
            == DataView::Struct(FieldsView::Unit),
        text == Err::<String, Unsupported>(Unsupported::Union) <==> input@.data == DataView::Union,
        plain_input(input@) ==> (text matches Ok(source) ==> well_nested(source@)),
{
    proof {
        if plain_input(input@) {
            lemma_generated_text_is_well_nested(input@);
        }
    }
    let methods = match &input.data {
        Data::Struct(fields) => struct_data_impl(fields),
        Data::Enum(variants) => Ok(enum_data_impl(input.ident.as_str(), variants)),
        Data::Union => Err(Unsupported::Union),
    };
    match methods {
        Ok(methods) => {
            let mut text = String::from_str("impl bevy_egui_debug::EguiDebug for ");
            text.append(input.ident.as_str());
            text.append(" { ");
            text.append(methods.as_str());
            text.append(" }");
            Ok(text)
        },
        Err(reason) => Err(reason),
    }
}

} // verus!
