//! What each fixed piece of the generated text does to a reader of source
//! text. A piece is read character by character; the longer ones in two
//! parts, which keeps every reading short.

use vstd::prelude::*;
use crate::nesting::{in_code, in_literal, lemma_scan_append, scan, scan_to};

verus! {

pub(crate) proof fn lemma_piece_shown_receiver(owed: Seq<char>)
    ensures
        scan(in_code(owed), "fn debug(&self, "@) == Some(in_code(owed.push(')'))),
{
    reveal_strlit("fn debug(&self, ");
    reveal_with_fuel(scan_to, 18);
    assert(scan(in_code(owed), "fn debug(&self, "@).unwrap().owed =~= owed.push(')'));
}

pub(crate) proof fn lemma_piece_edited_receiver(owed: Seq<char>)
    ensures
        scan(in_code(owed), "fn debug_mut(&mut self, "@) == Some(in_code(owed.push(')'))),
{
    reveal_strlit("fn debug_mut(&mut self, ");
    reveal_with_fuel(scan_to, 26);
    assert(scan(in_code(owed), "fn debug_mut(&mut self, "@).unwrap().owed =~= owed.push(')'));
}

pub(crate) proof fn lemma_piece_ui_parameter(owed: Seq<char>)
    ensures
        scan(in_code(owed.push(')')), "ui: &mut bevy_egui::egui::Ui)"@) == Some(in_code(owed)),
{
    reveal_strlit("ui: &mut bevy_egui::egui::Ui)");
    reveal_with_fuel(scan_to, 31);
    assert(scan(in_code(owed.push(')')), "ui: &mut bevy_egui::egui::Ui)"@).unwrap().owed =~= owed);
}

pub(crate) proof fn lemma_piece_shown_signature(owed: Seq<char>)
    ensures
        scan(in_code(owed), "fn debug(&self, ui: &mut bevy_egui::egui::Ui)"@) == Some(
            in_code(owed),
        ),
{
    let front = "fn debug(&self, "@;
    let back = "ui: &mut bevy_egui::egui::Ui)"@;
    assert("fn debug(&self, ui: &mut bevy_egui::egui::Ui)"@ =~= front + back) by {
        reveal_strlit("fn debug(&self, ui: &mut bevy_egui::egui::Ui)");
        reveal_strlit("fn debug(&self, ");
        reveal_strlit("ui: &mut bevy_egui::egui::Ui)");
    }
    lemma_piece_shown_receiver(owed);
    lemma_piece_ui_parameter(owed);
    lemma_scan_append(in_code(owed), front, in_code(owed.push(')')), back, in_code(owed));
}

pub(crate) proof fn lemma_piece_edited_signature(owed: Seq<char>)
    ensures
        scan(in_code(owed), "fn debug_mut(&mut self, ui: &mut bevy_egui::egui::Ui)"@) == Some(
            in_code(owed),
        ),
{
    let front = "fn debug_mut(&mut self, "@;
    let back = "ui: &mut bevy_egui::egui::Ui)"@;
    assert("fn debug_mut(&mut self, ui: &mut bevy_egui::egui::Ui)"@ =~= front + back) by {
        reveal_strlit("fn debug_mut(&mut self, ui: &mut bevy_egui::egui::Ui)");
        reveal_strlit("fn debug_mut(&mut self, ");
        reveal_strlit("ui: &mut bevy_egui::egui::Ui)");
    }
    lemma_piece_edited_receiver(owed);
    lemma_piece_ui_parameter(owed);
    lemma_scan_append(in_code(owed), front, in_code(owed.push(')')), back, in_code(owed));
}

pub(crate) proof fn lemma_piece_body_opens(owed: Seq<char>)
    ensures
        scan(in_code(owed), " {"@) == Some(in_code(owed.push('}'))),
{
    reveal_strlit(" {");
    reveal_with_fuel(scan_to, 4);
    assert(scan(in_code(owed), " {"@).unwrap().owed =~= owed.push('}'));
}

pub(crate) proof fn lemma_piece_body_closes(owed: Seq<char>)
    ensures
        scan(in_code(owed.push('}')), " }"@) == Some(in_code(owed)),
{
    reveal_strlit(" }");
    reveal_with_fuel(scan_to, 4);
    assert(scan(in_code(owed.push('}')), " }"@).unwrap().owed =~= owed);
}

pub(crate) proof fn lemma_piece_space(owed: Seq<char>)
    ensures
        scan(in_code(owed), " "@) == Some(in_code(owed)),
{
    reveal_strlit(" ");
    reveal_with_fuel(scan_to, 3);
    assert(scan(in_code(owed), " "@).unwrap().owed =~= owed);
}

pub(crate) proof fn lemma_piece_dot(owed: Seq<char>)
    ensures
        scan(in_code(owed), "."@) == Some(in_code(owed)),
{
    reveal_strlit(".");
    reveal_with_fuel(scan_to, 3);
    assert(scan(in_code(owed), "."@).unwrap().owed =~= owed);
}

pub(crate) proof fn lemma_piece_shown_name(owed: Seq<char>)
    ensures
        scan(in_code(owed), "debug"@) == Some(in_code(owed)),
{
    reveal_strlit("debug");
    reveal_with_fuel(scan_to, 7);
    assert(scan(in_code(owed), "debug"@).unwrap().owed =~= owed);
}

pub(crate) proof fn lemma_piece_edited_name(owed: Seq<char>)
    ensures
        scan(in_code(owed), "debug_mut"@) == Some(in_code(owed)),
{
    reveal_strlit("debug_mut");
    reveal_with_fuel(scan_to, 11);
    assert(scan(in_code(owed), "debug_mut"@).unwrap().owed =~= owed);
}

pub(crate) proof fn lemma_piece_layout_opens(owed: Seq<char>)
    ensures
        scan(in_code(owed), " ui.horizontal(|ui| {"@) == Some(in_code(owed.push(')').push('}'))),
{
    reveal_strlit(" ui.horizontal(|ui| {");
    reveal_with_fuel(scan_to, 23);
    assert(scan(in_code(owed), " ui.horizontal(|ui| {"@).unwrap().owed
        =~= owed.push(')').push('}'));
}

pub(crate) proof fn lemma_piece_label_opens(owed: Seq<char>)
    ensures
        scan(in_code(owed), " ui.label(\""@) == Some(in_literal(owed.push(')'))),
{
    reveal_strlit(" ui.label(\"");
    reveal_with_fuel(scan_to, 13);
    assert(scan(in_code(owed), " ui.label(\""@).unwrap().owed =~= owed.push(')'));
}

pub(crate) proof fn lemma_piece_row_opens(owed: Seq<char>)
    ensures
        scan(in_code(owed), " ui.horizontal(|ui| { ui.label(\""@) == Some(
            in_literal(owed.push(')').push('}').push(')')),
        ),
{
    let front = " ui.horizontal(|ui| {"@;
    let back = " ui.label(\""@;
    assert(" ui.horizontal(|ui| { ui.label(\""@ =~= front + back) by {
        reveal_strlit(" ui.horizontal(|ui| { ui.label(\"");
        reveal_strlit(" ui.horizontal(|ui| {");
        reveal_strlit(" ui.label(\"");
    }
    lemma_piece_layout_opens(owed);
    lemma_piece_label_opens(owed.push(')').push('}'));
    lemma_scan_append(
        in_code(owed),
        front,
        in_code(owed.push(')').push('}')),
        back,
        in_literal(owed.push(')').push('}').push(')')),
    );
}

pub(crate) proof fn lemma_piece_label_closes(owed: Seq<char>)
    ensures
        scan(in_literal(owed.push(')')), "\"); self."@) == Some(in_code(owed)),
{
    reveal_strlit("\"); self.");
    reveal_with_fuel(scan_to, 11);
    assert(scan(in_literal(owed.push(')')), "\"); self."@).unwrap().owed =~= owed);
}

pub(crate) proof fn lemma_piece_row_closes(owed: Seq<char>)
    ensures
        scan(in_code(owed.push(')').push('}')), "(ui); });"@) == Some(in_code(owed)),
{
    reveal_strlit("(ui); });");
    reveal_with_fuel(scan_to, 11);
    assert(scan(in_code(owed.push(')').push('}')), "(ui); });"@).unwrap().owed =~= owed);
}

pub(crate) proof fn lemma_piece_field(owed: Seq<char>)
    ensures
        scan(in_code(owed), " self."@) == Some(in_code(owed)),
{
    reveal_strlit(" self.");
    reveal_with_fuel(scan_to, 8);
    assert(scan(in_code(owed), " self."@).unwrap().owed =~= owed);
}

pub(crate) proof fn lemma_piece_call(owed: Seq<char>)
    ensures
        scan(in_code(owed), "(ui);"@) == Some(in_code(owed)),
{
    reveal_strlit("(ui);");
    reveal_with_fuel(scan_to, 7);
    assert(scan(in_code(owed), "(ui);"@).unwrap().owed =~= owed);
}

pub(crate) proof fn lemma_piece_option_opens(owed: Seq<char>)
    ensures
        scan(in_code(owed), " ui.selectable_value(self, "@) == Some(in_code(owed.push(')'))),
{
    reveal_strlit(" ui.selectable_value(self, ");
    reveal_with_fuel(scan_to, 29);
    assert(scan(in_code(owed), " ui.selectable_value(self, "@).unwrap().owed =~= owed.push(')'));
}

pub(crate) proof fn lemma_piece_path(owed: Seq<char>)
    ensures
        scan(in_code(owed), "::"@) == Some(in_code(owed)),
{
    reveal_strlit("::");
    reveal_with_fuel(scan_to, 4);
    assert(scan(in_code(owed), "::"@).unwrap().owed =~= owed);
}

pub(crate) proof fn lemma_piece_caption_opens(owed: Seq<char>)
    ensures
        scan(in_code(owed), ", \""@) == Some(in_literal(owed)),
{
    reveal_strlit(", \"");
    reveal_with_fuel(scan_to, 5);
    assert(scan(in_code(owed), ", \""@).unwrap().owed =~= owed);
}

pub(crate) proof fn lemma_piece_option_closes(owed: Seq<char>)
    ensures
        scan(in_literal(owed.push(')')), "\");"@) == Some(in_code(owed)),
{
    reveal_strlit("\");");
    reveal_with_fuel(scan_to, 5);
    assert(scan(in_literal(owed.push(')')), "\");"@).unwrap().owed =~= owed);
}

pub(crate) proof fn lemma_piece_format_opens(owed: Seq<char>)
    ensures
        scan(in_code(owed), " ui.label(format!("@) == Some(in_code(owed.push(')').push(')'))),
{
    reveal_strlit(" ui.label(format!(");
    reveal_with_fuel(scan_to, 20);
    assert(scan(in_code(owed), " ui.label(format!("@).unwrap().owed =~= owed.push(')').push(')'));
}

pub(crate) proof fn lemma_piece_format_closes(owed: Seq<char>)
    ensures
        scan(in_code(owed.push(')').push(')')), "\"{:?}\", self));"@) == Some(in_code(owed)),
{
    reveal_strlit("\"{:?}\", self));");
    reveal_with_fuel(scan_to, 17);
    assert(scan(in_code(owed.push(')').push(')')), "\"{:?}\", self));"@).unwrap().owed =~= owed);
}

pub(crate) proof fn lemma_piece_debug_label(owed: Seq<char>)
    ensures
        scan(in_code(owed), " ui.label(format!(\"{:?}\", self));"@) == Some(in_code(owed)),
{
    let front = " ui.label(format!("@;
    let back = "\"{:?}\", self));"@;
    assert(" ui.label(format!(\"{:?}\", self));"@ =~= front + back) by {
        reveal_strlit(" ui.label(format!(\"{:?}\", self));");
        reveal_strlit(" ui.label(format!(");
        reveal_strlit("\"{:?}\", self));");
    }
    lemma_piece_format_opens(owed);
    lemma_piece_format_closes(owed);
    lemma_scan_append(in_code(owed), front, in_code(owed.push(')').push(')')), back, in_code(owed));
}

pub(crate) proof fn lemma_piece_combo_box(owed: Seq<char>)
    ensures
        scan(in_code(owed), " bevy_egui::egui::ComboBox"@) == Some(in_code(owed)),
{
    reveal_strlit(" bevy_egui::egui::ComboBox");
    reveal_with_fuel(scan_to, 28);
    assert(scan(in_code(owed), " bevy_egui::egui::ComboBox"@).unwrap().owed =~= owed);
}

pub(crate) proof fn lemma_piece_from_label(owed: Seq<char>)
    ensures
        scan(in_code(owed), "::from_label(\""@) == Some(in_literal(owed.push(')'))),
{
    reveal_strlit("::from_label(\"");
    reveal_with_fuel(scan_to, 16);
    assert(scan(in_code(owed), "::from_label(\""@).unwrap().owed =~= owed.push(')'));
}

pub(crate) proof fn lemma_piece_selector_opens(owed: Seq<char>)
    ensures
        scan(in_code(owed), " bevy_egui::egui::ComboBox::from_label(\""@) == Some(
            in_literal(owed.push(')')),
        ),
{
    let front = " bevy_egui::egui::ComboBox"@;
    let back = "::from_label(\""@;
    assert(" bevy_egui::egui::ComboBox::from_label(\""@ =~= front + back) by {
        reveal_strlit(" bevy_egui::egui::ComboBox::from_label(\"");
        reveal_strlit(" bevy_egui::egui::ComboBox");
        reveal_strlit("::from_label(\"");
    }
    lemma_piece_combo_box(owed);
    lemma_piece_from_label(owed);
    lemma_scan_append(in_code(owed), front, in_code(owed), back, in_literal(owed.push(')')));
}

pub(crate) proof fn lemma_piece_label_suffix(owed: Seq<char>)
    ensures
        scan(in_literal(owed), " Type"@) == Some(in_literal(owed)),
{
    reveal_strlit(" Type");
    reveal_with_fuel(scan_to, 7);
    assert(scan(in_literal(owed), " Type"@).unwrap().owed =~= owed);
}

pub(crate) proof fn lemma_piece_selected_opens(owed: Seq<char>)
    ensures
        scan(in_literal(owed.push(')')), "\").selected_text("@) == Some(in_code(owed.push(')'))),
{
    reveal_strlit("\").selected_text(");
    reveal_with_fuel(scan_to, 19);
    assert(scan(in_literal(owed.push(')')), "\").selected_text("@).unwrap().owed
        =~= owed.push(')'));
}

pub(crate) proof fn lemma_piece_selected_closes(owed: Seq<char>)
    ensures
        scan(in_code(owed.push(')')), "format!(\"{:?}\", self))"@) == Some(in_code(owed)),
{
    reveal_strlit("format!(\"{:?}\", self))");
    reveal_with_fuel(scan_to, 24);
    assert(scan(in_code(owed.push(')')), "format!(\"{:?}\", self))"@).unwrap().owed =~= owed);
}

pub(crate) proof fn lemma_piece_selected_text(owed: Seq<char>)
    ensures
        scan(in_literal(owed.push(')')), "\").selected_text(format!(\"{:?}\", self))"@) == Some(
            in_code(owed),
        ),
{
    let front = "\").selected_text("@;
    let back = "format!(\"{:?}\", self))"@;
    assert("\").selected_text(format!(\"{:?}\", self))"@ =~= front + back) by {
        reveal_strlit("\").selected_text(format!(\"{:?}\", self))");
        reveal_strlit("\").selected_text(");
        reveal_strlit("format!(\"{:?}\", self))");
    }
    lemma_piece_selected_opens(owed);
    lemma_piece_selected_closes(owed);
    lemma_scan_append(
        in_literal(owed.push(')')),
        front,
        in_code(owed.push(')')),
        back,
        in_code(owed),
    );
}

pub(crate) proof fn lemma_piece_options_open(owed: Seq<char>)
    ensures
        scan(in_code(owed), ".show_ui(ui, |ui| {"@) == Some(in_code(owed.push(')').push('}'))),
{
    reveal_strlit(".show_ui(ui, |ui| {");
    reveal_with_fuel(scan_to, 21);
    assert(scan(in_code(owed), ".show_ui(ui, |ui| {"@).unwrap().owed =~= owed.push(')').push('}'));
}

pub(crate) proof fn lemma_piece_selector_middle(owed: Seq<char>)
    ensures
        scan(
            in_literal(owed.push(')')),
            "\").selected_text(format!(\"{:?}\", self)).show_ui(ui, |ui| {"@,
        ) == Some(in_code(owed.push(')').push('}'))),
{
    let front = "\").selected_text(format!(\"{:?}\", self))"@;
    let back = ".show_ui(ui, |ui| {"@;
    assert("\").selected_text(format!(\"{:?}\", self)).show_ui(ui, |ui| {"@ =~= front + back) by {
        reveal_strlit("\").selected_text(format!(\"{:?}\", self)).show_ui(ui, |ui| {");
        reveal_strlit("\").selected_text(format!(\"{:?}\", self))");
        reveal_strlit(".show_ui(ui, |ui| {");
    }
    lemma_piece_selected_text(owed);
    lemma_piece_options_open(owed);
    lemma_scan_append(
        in_literal(owed.push(')')),
        front,
        in_code(owed),
        back,
        in_code(owed.push(')').push('}')),
    );
}

pub(crate) proof fn lemma_piece_selector_closes(owed: Seq<char>)
    ensures
        scan(in_code(owed.push(')').push('}')), " });"@) == Some(in_code(owed)),
{
    reveal_strlit(" });");
    reveal_with_fuel(scan_to, 6);
    assert(scan(in_code(owed.push(')').push('}')), " });"@).unwrap().owed =~= owed);
}

pub(crate) proof fn lemma_piece_impl_trait_crate(owed: Seq<char>)
    ensures
        scan(in_code(owed), "impl bevy_egui_debug"@) == Some(in_code(owed)),
{
    reveal_strlit("impl bevy_egui_debug");
    reveal_with_fuel(scan_to, 22);
    assert(scan(in_code(owed), "impl bevy_egui_debug"@).unwrap().owed =~= owed);
}

pub(crate) proof fn lemma_piece_impl_trait_name(owed: Seq<char>)
    ensures
        scan(in_code(owed), "::EguiDebug for "@) == Some(in_code(owed)),
{
    reveal_strlit("::EguiDebug for ");
    reveal_with_fuel(scan_to, 18);
    assert(scan(in_code(owed), "::EguiDebug for "@).unwrap().owed =~= owed);
}

pub(crate) proof fn lemma_piece_impl_header(owed: Seq<char>)
    ensures
        scan(in_code(owed), "impl bevy_egui_debug::EguiDebug for "@) == Some(in_code(owed)),
{
    let front = "impl bevy_egui_debug"@;
    let back = "::EguiDebug for "@;
    assert("impl bevy_egui_debug::EguiDebug for "@ =~= front + back) by {
        reveal_strlit("impl bevy_egui_debug::EguiDebug for ");
        reveal_strlit("impl bevy_egui_debug");
        reveal_strlit("::EguiDebug for ");
    }
    lemma_piece_impl_trait_crate(owed);
    lemma_piece_impl_trait_name(owed);
    lemma_scan_append(in_code(owed), front, in_code(owed), back, in_code(owed));
}

pub(crate) proof fn lemma_piece_impl_opens(owed: Seq<char>)
    ensures
        scan(in_code(owed), " { "@) == Some(in_code(owed.push('}'))),
{
    reveal_strlit(" { ");
    reveal_with_fuel(scan_to, 5);
    assert(scan(in_code(owed), " { "@).unwrap().owed =~= owed.push('}'));
}

} // verus!
