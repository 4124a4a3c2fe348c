//! Nesting of delimiters in source text, and the proof that every generated
//! text closes what it opens, in the right order, and leaves no string
//! literal open.
//!
//! The reader modelled here knows round, square and curly delimiters and
//! string literals with backslash escapes. That is all the generated text is
//! made of, besides the names it is given.

use vstd::prelude::*;
use crate::decimal::{decimal, lemma_decimal_reads_back};
use crate::nesting::pieces::{
    lemma_piece_body_closes, lemma_piece_body_opens, lemma_piece_call,
    lemma_piece_caption_opens, lemma_piece_debug_label, lemma_piece_dot,
    lemma_piece_edited_name, lemma_piece_edited_signature, lemma_piece_field,
    lemma_piece_impl_header, lemma_piece_impl_opens, lemma_piece_label_closes,
    lemma_piece_label_suffix, lemma_piece_option_closes, lemma_piece_option_opens,
    lemma_piece_path, lemma_piece_row_closes, lemma_piece_row_opens,
    lemma_piece_selector_closes, lemma_piece_selector_middle, lemma_piece_selector_opens,
    lemma_piece_shown_name, lemma_piece_shown_signature, lemma_piece_space,
};
use crate::shape::{DataView, DeriveInputView, FieldsView};
use crate::template::{
    data_text, debug_label, derive_text, indexed_call, indexed_calls, labelled_row,
    labelled_rows, method_name, method_text, methods_text, option_row, option_rows, selector,
    selector_label, signature,
};

mod pieces;

verus! {

/// Where a reader of source text stands: the closing delimiters that are
/// still owed, innermost last; whether it is inside a string literal; and,
/// inside one, whether the last character was an unescaped backslash.
pub struct Scan {
    pub owed: Seq<char>,
    pub quoted: bool,
    pub escaped: bool,
}

/// A reader in code, with `owed` still to be closed.
pub open spec fn in_code(owed: Seq<char>) -> Scan {
    Scan { owed, quoted: false, escaped: false }
}

/// A reader inside a string literal, with `owed` still to be closed.
pub open spec fn in_literal(owed: Seq<char>) -> Scan {
    Scan { owed, quoted: true, escaped: false }
}

/// The state after one more character, or `None` where the character closes
/// a delimiter that is not the innermost open one.
pub open spec fn step(at: Scan, c: char) -> Option<Scan> {
    if at.quoted {
        if at.escaped {
            Some(Scan { escaped: false, ..at })
        } else if c == '\\' {
            Some(Scan { escaped: true, ..at })
        } else if c == '"' {
            Some(Scan { quoted: false, ..at })
        } else {
            Some(at)
        }
    } else if c == '"' {
        Some(Scan { quoted: true, ..at })
    } else if c == '(' {
        Some(Scan { owed: at.owed.push(')'), ..at })
    } else if c == '[' {
        Some(Scan { owed: at.owed.push(']'), ..at })
    } else if c == '{' {
        Some(Scan { owed: at.owed.push('}'), ..at })
    } else if c == ')' || c == ']' || c == '}' {
        if at.owed.len() > 0 && at.owed.last() == c {
            Some(Scan { owed: at.owed.drop_last(), ..at })
        } else {
            None
        }
    } else {
        Some(at)
    }
}

/// The state after the first `count` characters of `text`.
pub open spec fn scan_to(at: Scan, text: Seq<char>, count: nat) -> Option<Scan>
    decreases count,
{
    if count == 0 {
        Some(at)
    } else {
        match scan_to(at, text, (count - 1) as nat) {
            Some(before) => step(before, text[count - 1]),
            None => None,
        }
    }
}

/// The state after the whole of `text`.
pub open spec fn scan(at: Scan, text: Seq<char>) -> Option<Scan> {
    scan_to(at, text, text.len())
}

/// A text that, read from outside everything, ends outside everything: each
/// delimiter is closed by its own kind, innermost first, and each string
/// literal is closed.
pub open spec fn well_nested(text: Seq<char>) -> bool {
    scan(in_code(Seq::empty()), text) == Some(in_code(Seq::empty()))
}

/// A character that is no delimiter, no quote and no backslash.
pub open spec fn plain(c: char) -> bool {
    c != '"' && c != '\\' && c != '(' && c != ')' && c != '[' && c != ']' && c != '{' && c != '}'
}

/// A text of plain characters, as every identifier is.
pub open spec fn plain_text(text: Seq<char>) -> bool {
    forall|i: int| 0 <= i < text.len() ==> plain(#[trigger] text[i])
}

/// A list of plain texts.
pub open spec fn plain_names(names: Seq<Seq<char>>) -> bool {
    forall|i: int| 0 <= i < names.len() ==> plain_text(#[trigger] names[i])
}

/// Fields whose names, where they have any, are plain.
pub open spec fn plain_fields(fields: FieldsView) -> bool {
    match fields {
        FieldsView::Named(names) => plain_names(names),
        _ => true,
    }
}

/// Members whose names are all plain.
pub open spec fn plain_data(data: DataView) -> bool {
    match data {
        DataView::Struct(fields) => plain_fields(fields),
        DataView::Enum(variants) => plain_names(variants),
        DataView::Union => true,
    }
}

/// A declaration whose names are all plain.
pub open spec fn plain_input(input: DeriveInputView) -> bool {
    plain_text(input.ident) && plain_data(input.data)
}

/// The first `count` characters alone decide the state after them.
proof fn lemma_scan_to_prefix(at: Scan, text: Seq<char>, other: Seq<char>, count: nat)
    requires
        count <= text.len(),
        count <= other.len(),
        forall|i: int| 0 <= i < count ==> text[i] == other[i],
    ensures
        scan_to(at, text, count) == scan_to(at, other, count),
    decreases count,
{
    if count > 0 {
        lemma_scan_to_prefix(at, text, other, (count - 1) as nat);
    }
}

proof fn lemma_scan_to_suffix(at: Scan, front: Seq<char>, mid: Scan, back: Seq<char>, count: nat)
    requires
        scan(at, front) == Some(mid),
        count <= back.len(),
    ensures
        scan_to(at, front + back, front.len() + count) == scan_to(mid, back, count),
    decreases count,
{
    if count == 0 {
        lemma_scan_to_prefix(at, front + back, front, front.len());
    } else {
        lemma_scan_to_suffix(at, front, mid, back, (count - 1) as nat);
        assert((front + back)[front.len() + count - 1] == back[count - 1]);
    }
}

/// Reading a joined text is reading its front and going on with its back.
pub proof fn lemma_scan_joined(at: Scan, front: Seq<char>, mid: Scan, back: Seq<char>)
    requires
        scan(at, front) == Some(mid),
    ensures
        scan(at, front + back) == scan(mid, back),
{
    lemma_scan_to_suffix(at, front, mid, back, back.len());
}

/// Plain characters change nothing, in code and inside a string literal.
pub proof fn lemma_scan_plain(at: Scan, text: Seq<char>)
    requires
        plain_text(text),
        !at.escaped,
    ensures
        scan(at, text) == Some(at),
{
    lemma_scan_to_plain(at, text, text.len());
}

proof fn lemma_scan_to_plain(at: Scan, text: Seq<char>, count: nat)
    requires
        plain_text(text),
        !at.escaped,
        count <= text.len(),
    ensures
        scan_to(at, text, count) == Some(at),
    decreases count,
{
    if count > 0 {
        lemma_scan_to_plain(at, text, (count - 1) as nat);
        assert(plain(text[count - 1]));
    }
}

/// Reading `back` after `front`, when both readings are known.
pub(crate) proof fn lemma_scan_append(
    at: Scan,
    front: Seq<char>,
    mid: Scan,
    back: Seq<char>,
    end: Scan,
)
    requires
        scan(at, front) == Some(mid),
        scan(mid, back) == Some(end),
    ensures
        scan(at, front + back) == Some(end),
{
    lemma_scan_joined(at, front, mid, back);
}

proof fn lemma_method_name(owed: Seq<char>, editable: bool)
    ensures
        scan(in_code(owed), method_name(editable)) == Some(in_code(owed)),
{
    lemma_piece_shown_name(owed);
    lemma_piece_edited_name(owed);
}

proof fn lemma_signature(owed: Seq<char>, editable: bool)
    ensures
        scan(in_code(owed), signature(editable)) == Some(in_code(owed)),
{
    lemma_piece_shown_signature(owed);
    lemma_piece_edited_signature(owed);
}

/// A row leaves the reader where it found it.
proof fn lemma_labelled_row(owed: Seq<char>, name: Seq<char>, editable: bool)
    requires
        plain_text(name),
    ensures
        scan(in_code(owed), labelled_row(name, editable)) == Some(in_code(owed)),
{
    let at = in_code(owed);
    let inner = owed.push(')').push('}');
    let labelled = in_literal(inner.push(')'));
    let t1 = " ui.horizontal(|ui| { ui.label(\""@;
    lemma_piece_row_opens(owed);
    lemma_scan_plain(labelled, name);
    lemma_scan_append(at, t1, labelled, name, labelled);
    let t2 = t1 + name;
    lemma_piece_label_closes(inner);
    lemma_scan_append(at, t2, labelled, "\"); self."@, in_code(inner));
    let t3 = t2 + "\"); self."@;
    lemma_scan_plain(in_code(inner), name);
    lemma_scan_append(at, t3, in_code(inner), name, in_code(inner));
    let t4 = t3 + name;
    lemma_piece_dot(inner);
    lemma_scan_append(at, t4, in_code(inner), "."@, in_code(inner));
    let t5 = t4 + "."@;
    lemma_method_name(inner, editable);
    lemma_scan_append(at, t5, in_code(inner), method_name(editable), in_code(inner));
    let t6 = t5 + method_name(editable);
    lemma_piece_row_closes(owed);
    lemma_scan_append(at, t6, in_code(inner), "(ui); });"@, at);
}

proof fn lemma_labelled_rows(owed: Seq<char>, names: Seq<Seq<char>>, editable: bool)
    requires
        plain_names(names),
    ensures
        scan(in_code(owed), labelled_rows(names, editable)) == Some(in_code(owed)),
    decreases names.len(),
{
    let at = in_code(owed);
    if names.len() > 0 {
        assert(plain_names(names.drop_last())) by {
            assert forall|i: int| 0 <= i < names.drop_last().len() implies plain_text(
                #[trigger] names.drop_last()[i],
            ) by {
                assert(names.drop_last()[i] == names[i]);
            }
        }
        lemma_labelled_rows(owed, names.drop_last(), editable);
        lemma_labelled_row(owed, names.last(), editable);
        lemma_scan_append(
            at,
            labelled_rows(names.drop_last(), editable),
            at,
            labelled_row(names.last(), editable),
            at,
        );
    }
}

/// The digits of an index are plain.
proof fn lemma_decimal_plain(index: nat)
    ensures
        plain_text(decimal(index)),
{
    lemma_decimal_reads_back(index);
}

proof fn lemma_indexed_call(owed: Seq<char>, index: nat, editable: bool)
    ensures
        scan(in_code(owed), indexed_call(index, editable)) == Some(in_code(owed)),
{
    let at = in_code(owed);
    let t1 = " self."@;
    lemma_piece_field(owed);
    lemma_decimal_plain(index);
    lemma_scan_plain(at, decimal(index));
    lemma_scan_append(at, t1, at, decimal(index), at);
    let t2 = t1 + decimal(index);
    lemma_piece_dot(owed);
    lemma_scan_append(at, t2, at, "."@, at);
    let t3 = t2 + "."@;
    lemma_method_name(owed, editable);
    lemma_scan_append(at, t3, at, method_name(editable), at);
    let t4 = t3 + method_name(editable);
    lemma_piece_call(owed);
    lemma_scan_append(at, t4, at, "(ui);"@, at);
}

proof fn lemma_indexed_calls(owed: Seq<char>, count: nat, editable: bool)
    ensures
        scan(in_code(owed), indexed_calls(count, editable)) == Some(in_code(owed)),
    decreases count,
{
    let at = in_code(owed);
    if count > 0 {
        let before = (count - 1) as nat;
        lemma_indexed_calls(owed, before, editable);
        lemma_indexed_call(owed, before, editable);
        lemma_scan_append(
            at,
            indexed_calls(before, editable),
            at,
            indexed_call(before, editable),
            at,
        );
    }
}

proof fn lemma_option_row(owed: Seq<char>, ident: Seq<char>, variant: Seq<char>)
    requires
        plain_text(ident),
        plain_text(variant),
    ensures
        scan(in_code(owed), option_row(ident, variant)) == Some(in_code(owed)),
{
    let at = in_code(owed);
    let inner = owed.push(')');
    let t1 = " ui.selectable_value(self, "@;
    lemma_piece_option_opens(owed);
    lemma_scan_plain(in_code(inner), ident);
    lemma_scan_append(at, t1, in_code(inner), ident, in_code(inner));
    let t2 = t1 + ident;
    lemma_piece_path(inner);
    lemma_scan_append(at, t2, in_code(inner), "::"@, in_code(inner));
    let t3 = t2 + "::"@;
    lemma_scan_plain(in_code(inner), variant);
    lemma_scan_append(at, t3, in_code(inner), variant, in_code(inner));
    let t4 = t3 + variant;
    lemma_piece_caption_opens(inner);
    lemma_scan_append(at, t4, in_code(inner), ", \""@, in_literal(inner));
    let t5 = t4 + ", \""@;
    lemma_scan_plain(in_literal(inner), variant);
    lemma_scan_append(at, t5, in_literal(inner), variant, in_literal(inner));
    let t6 = t5 + variant;
    lemma_piece_option_closes(owed);
    lemma_scan_append(at, t6, in_literal(inner), "\");"@, at);
}

proof fn lemma_option_rows(owed: Seq<char>, ident: Seq<char>, variants: Seq<Seq<char>>)
    requires
        plain_text(ident),
        plain_names(variants),
    ensures
        scan(in_code(owed), option_rows(ident, variants)) == Some(in_code(owed)),
    decreases variants.len(),
{
    let at = in_code(owed);
    if variants.len() > 0 {
        assert(plain_names(variants.drop_last())) by {
            assert forall|i: int| 0 <= i < variants.drop_last().len() implies plain_text(
                #[trigger] variants.drop_last()[i],
            ) by {
                assert(variants.drop_last()[i] == variants[i]);
            }
        }
        lemma_option_rows(owed, ident, variants.drop_last());
        lemma_option_row(owed, ident, variants.last());
        lemma_scan_append(
            at,
            option_rows(ident, variants.drop_last()),
            at,
            option_row(ident, variants.last()),
            at,
        );
    }
}

proof fn lemma_selector(owed: Seq<char>, ident: Seq<char>, variants: Seq<Seq<char>>)
    requires
        plain_text(ident),
        plain_names(variants),
    ensures
        scan(in_code(owed), selector(ident, variants)) == Some(in_code(owed)),
{
    let at = in_code(owed);
    let labelled = in_literal(owed.push(')'));
    let inner = owed.push(')').push('}');
    let t1 = " bevy_egui::egui::ComboBox::from_label(\""@;
    lemma_piece_selector_opens(owed);
    lemma_scan_plain(labelled, ident);
    lemma_piece_label_suffix(owed.push(')'));
    lemma_scan_append(labelled, ident, labelled, " Type"@, labelled);
    lemma_scan_append(at, t1, labelled, selector_label(ident), labelled);
    let t2 = t1 + selector_label(ident);
    let middle = "\").selected_text(format!(\"{:?}\", self)).show_ui(ui, |ui| {"@;
    lemma_piece_selector_middle(owed);
    lemma_scan_append(at, t2, labelled, middle, in_code(inner));
    let t3 = t2 + middle;
    lemma_option_rows(inner, ident, variants);
    lemma_scan_append(at, t3, in_code(inner), option_rows(ident, variants), in_code(inner));
    let t4 = t3 + option_rows(ident, variants);
    lemma_piece_selector_closes(owed);
    lemma_scan_append(at, t4, in_code(inner), " });"@, at);
}

/// A method is closed when its body is.
proof fn lemma_method_text(owed: Seq<char>, editable: bool, body: Seq<char>)
    requires
        scan(in_code(owed.push('}')), body) == Some(in_code(owed.push('}'))),
    ensures
        scan(in_code(owed), method_text(editable, body)) == Some(in_code(owed)),
{
    let at = in_code(owed);
    let inner = in_code(owed.push('}'));
    lemma_signature(owed, editable);
    lemma_piece_body_opens(owed);
    lemma_scan_append(at, signature(editable), at, " {"@, inner);
    let t2 = signature(editable) + " {"@;
    lemma_scan_append(at, t2, inner, body, inner);
    let t3 = t2 + body;
    lemma_piece_body_closes(owed);
    lemma_scan_append(at, t3, inner, " }"@, at);
}

proof fn lemma_methods_text(owed: Seq<char>, shown: Seq<char>, edited: Seq<char>)
    requires
        scan(in_code(owed.push('}')), shown) == Some(in_code(owed.push('}'))),
        scan(in_code(owed.push('}')), edited) == Some(in_code(owed.push('}'))),
    ensures
        scan(in_code(owed), methods_text(shown, edited)) == Some(in_code(owed)),
{
    let at = in_code(owed);
    lemma_method_text(owed, false, shown);
    lemma_piece_space(owed);
    lemma_scan_append(at, method_text(false, shown), at, " "@, at);
    lemma_method_text(owed, true, edited);
    lemma_scan_append(at, method_text(false, shown) + " "@, at, method_text(true, edited), at);
}

/// The methods of every shape that has any leave the reader where they
/// found it.
proof fn lemma_data_text(owed: Seq<char>, ident: Seq<char>, data: DataView)
    requires
        plain_text(ident),
        plain_data(data),
    ensures
        data_text(ident, data) matches Ok(methods) ==> scan(in_code(owed), methods) == Some(
            in_code(owed),
        ),
{
    let inner = owed.push('}');
    match data {
        DataView::Struct(FieldsView::Named(names)) => {
            lemma_labelled_rows(inner, names, false);
            lemma_labelled_rows(inner, names, true);
            lemma_methods_text(owed, labelled_rows(names, false), labelled_rows(names, true));
        },
        DataView::Struct(FieldsView::Unnamed(count)) => {
            lemma_indexed_calls(inner, count, false);
            lemma_indexed_calls(inner, count, true);
            lemma_methods_text(owed, indexed_calls(count, false), indexed_calls(count, true));
        },
        DataView::Enum(variants) => {
            lemma_piece_debug_label(inner);
            lemma_selector(inner, ident, variants);
            lemma_methods_text(owed, debug_label(), selector(ident, variants));
        },
        _ => {},
    }
}

/// The methods generated for a type are well nested, whatever its shape, as
/// long as the names in it are plain.
pub proof fn lemma_methods_are_well_nested(ident: Seq<char>, data: DataView)
    requires
        plain_text(ident),
        plain_data(data),
    ensures
        data_text(ident, data) matches Ok(methods) ==> well_nested(methods),
{
    lemma_data_text(Seq::empty(), ident, data);
}

/// Every generated implementation is well nested, whatever the shape of the
/// type, as long as the names in it are plain, which identifiers are.
pub proof fn lemma_generated_text_is_well_nested(input: DeriveInputView)
    requires
        plain_input(input),
    ensures
        derive_text(input) matches Ok(text) ==> well_nested(text),
{
    if let Ok(methods) = data_text(input.ident, input.data) {
        let owed = Seq::<char>::empty();
        let at = in_code(owed);
        let inner = in_code(owed.push('}'));
        let t1 = "impl bevy_egui_debug::EguiDebug for "@;
        lemma_piece_impl_header(owed);
        lemma_scan_plain(at, input.ident);
        lemma_scan_append(at, t1, at, input.ident, at);
        let t2 = t1 + input.ident;
        lemma_piece_impl_opens(owed);
        lemma_scan_append(at, t2, at, " { "@, inner);
        let t3 = t2 + " { "@;
        lemma_data_text(owed.push('}'), input.ident, input.data);
        lemma_scan_append(at, t3, inner, methods, inner);
        let t4 = t3 + methods;
        lemma_piece_body_closes(owed);
        lemma_scan_append(at, t4, inner, " }"@, at);
    }
}

} // verus!
