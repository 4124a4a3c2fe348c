use egui_debug_derive::generate::{
    derive_egui_debug, enum_data_impl, named_struct_impl, unnamed_struct_impl,
};
use egui_debug_derive::shape::{Data, DeriveInput, Fields, Unsupported};
use std::str::FromStr;

fn names(list: &[&str]) -> Vec<String> {
    list.iter().map(|name| name.to_string()).collect()
}

/// The tokens of a source text, written in one fixed way.
fn tokens(source: &str) -> String {
    proc_macro2::TokenStream::from_str(source).unwrap().to_string()
}

/// What the generator reads of a declaration that syn has parsed.
fn shape_of(input: &syn::DeriveInput) -> DeriveInput {
    DeriveInput {
        ident: input.ident.to_string(),
        data: match &input.data {
            syn::Data::Struct(data) => Data::Struct(match &data.fields {
                syn::Fields::Named(fields) => Fields::Named(
                    fields.named.iter().map(|field| field.ident.as_ref().unwrap().to_string()).collect(),
                ),
                syn::Fields::Unnamed(fields) => Fields::Unnamed(fields.unnamed.len()),
                syn::Fields::Unit => Fields::Unit,
            }),
            syn::Data::Enum(data) => {
                Data::Enum(data.variants.iter().map(|variant| variant.ident.to_string()).collect())
            }
            syn::Data::Union(_) => Data::Union,
        },
    }
}

fn derive_for(declaration: &str) -> Result<String, Unsupported> {
    let input: syn::DeriveInput = syn::parse_str(declaration).unwrap();
    derive_egui_debug(&shape_of(&input))
}

/// The two methods of a generated implementation, after a check of its header.
fn methods_of(source: &str, owner: &str) -> (syn::ImplItemMethod, syn::ImplItemMethod) {
    let item: syn::ItemImpl = syn::parse_str(source).unwrap();
    let (_, path, _) = item.trait_.as_ref().unwrap();
    let segments: Vec<String> = path.segments.iter().map(|s| s.ident.to_string()).collect();
    assert_eq!(segments, vec!["bevy_egui_debug".to_string(), "EguiDebug".to_string()]);
    match &*item.self_ty {
        syn::Type::Path(ty) => assert!(ty.path.is_ident(owner)),
        _ => panic!("the implementation is not for a named type"),
    }
    assert_eq!(item.items.len(), 2);
    let mut found = Vec::new();
    for member in item.items {
        match member {
            syn::ImplItem::Method(method) => found.push(method),
            _ => panic!("the implementation holds something else than methods"),
        }
    }
    let edited = found.pop().unwrap();
    let shown = found.pop().unwrap();
    assert_eq!(shown.sig.ident.to_string(), "debug");
    assert_eq!(edited.sig.ident.to_string(), "debug_mut");
    assert_eq!(shown.sig.inputs.len(), 2);
    assert_eq!(edited.sig.inputs.len(), 2);
    match (&shown.sig.inputs[0], &edited.sig.inputs[0]) {
        (syn::FnArg::Receiver(by_ref), syn::FnArg::Receiver(by_mut)) => {
            assert!(by_ref.reference.is_some() && by_ref.mutability.is_none());
            assert!(by_mut.reference.is_some() && by_mut.mutability.is_some());
        }
        _ => panic!("a method does not take self"),
    }
    (shown, edited)
}

/// The call `receiver.method(args)` that a statement consists of.
fn call_of(statement: &syn::Stmt) -> &syn::ExprMethodCall {
    match statement {
        syn::Stmt::Semi(syn::Expr::MethodCall(call), _) => call,
        _ => panic!("the statement is not a method call"),
    }
}

/// The statements of the closure that a call such as `ui.horizontal(|ui| { .. })`
/// takes as its last argument.
fn closure_body(call: &syn::ExprMethodCall) -> &Vec<syn::Stmt> {
    match call.args.last().unwrap() {
        syn::Expr::Closure(closure) => match &*closure.body {
            syn::Expr::Block(block) => &block.block.stmts,
            _ => panic!("the closure has no block"),
        },
        _ => panic!("the last argument is not a closure"),
    }
}

fn is_path(expr: &syn::Expr, name: &str) -> bool {
    matches!(expr, syn::Expr::Path(path) if path.path.is_ident(name))
}

fn text_of(expr: &syn::Expr) -> String {
    match expr {
        syn::Expr::Lit(syn::ExprLit { lit: syn::Lit::Str(text), .. }) => text.value(),
        _ => panic!("the expression is not a string literal"),
    }
}

#[test]
fn named_struct_has_the_tokens_of_the_handwritten_methods() {
    let text = named_struct_impl(&names(&["a", "b"]));
    let by_hand = "
        fn debug(&self, ui: &mut bevy_egui::egui::Ui) {
            ui.horizontal(|ui|{
                ui.label(\"a\");
                self.a.debug(ui);
            });
            ui.horizontal(|ui|{
                ui.label(\"b\");
                self.b.debug(ui);
            });
        }

        fn debug_mut(&mut self, ui: &mut bevy_egui::egui::Ui) {
            ui.horizontal(|ui|{
                ui.label(\"a\");
                self.a.debug_mut(ui);
            });
            ui.horizontal(|ui|{
                ui.label(\"b\");
                self.b.debug_mut(ui);
            });
        }
    ";
    assert_eq!(tokens(&text), tokens(by_hand));
}

#[test]
fn tuple_struct_has_the_tokens_of_the_handwritten_methods() {
    let text = unnamed_struct_impl(2);
    let by_hand = "
        fn debug(&self, ui: &mut bevy_egui::egui::Ui) {
            self.0.debug(ui);
            self.1.debug(ui);
        }

        fn debug_mut(&mut self, ui: &mut bevy_egui::egui::Ui) {
            self.0.debug_mut(ui);
            self.1.debug_mut(ui);
        }
    ";
    assert_eq!(tokens(&text), tokens(by_hand));
}

#[test]
fn enum_has_the_tokens_of_the_handwritten_methods() {
    let text = enum_data_impl("Mode", &names(&["Fast", "Slow"]));
    let by_hand = "
        fn debug(&self, ui: &mut bevy_egui::egui::Ui) {
            ui.label(format!(\"{:?}\", self));
        }

        fn debug_mut(&mut self, ui: &mut bevy_egui::egui::Ui) {
            bevy_egui::egui::ComboBox::from_label(\"Mode Type\").selected_text(format!(\"{:?}\", self)).show_ui(ui, |ui| {
                    ui.selectable_value(self, Mode::Fast, \"Fast\");
                    ui.selectable_value(self, Mode::Slow, \"Slow\");
                }
            );
        }
    ";
    assert_eq!(tokens(&text), tokens(by_hand));
}

#[test]
fn derived_text_has_the_tokens_of_the_handwritten_impl() {
    let text = derive_for("struct Pair(f32, f32);").unwrap();
    let by_hand = "
        impl bevy_egui_debug::EguiDebug for Pair {
            fn debug(&self, ui: &mut bevy_egui::egui::Ui) {
                self.0.debug(ui);
                self.1.debug(ui);
            }

            fn debug_mut(&mut self, ui: &mut bevy_egui::egui::Ui) {
                self.0.debug_mut(ui);
                self.1.debug_mut(ui);
            }
        }
    ";
    assert_eq!(tokens(&text), tokens(by_hand));
}

#[test]
fn named_struct_parses_into_one_row_per_field() {
    let fields = ["health", "speed", "alive"];
    let text = derive_for("struct Player { health: u32, speed: f32, pub alive: bool }").unwrap();
    let (shown, edited) = methods_of(&text, "Player");
    for (method, name) in [(&shown, "debug"), (&edited, "debug_mut")] {
        assert_eq!(method.block.stmts.len(), fields.len());
        for (statement, field) in method.block.stmts.iter().zip(fields) {
            let row = call_of(statement);
            assert!(is_path(&row.receiver, "ui"));
            assert_eq!(row.method.to_string(), "horizontal");
            let inner = closure_body(row);
            assert_eq!(inner.len(), 2);
            let label = call_of(&inner[0]);
            assert!(is_path(&label.receiver, "ui"));
            assert_eq!(label.method.to_string(), "label");
            assert_eq!(text_of(&label.args[0]), field);
            let widget = call_of(&inner[1]);
            assert_eq!(widget.method.to_string(), name);
            assert!(is_path(&widget.args[0], "ui"));
            match &*widget.receiver {
                syn::Expr::Field(access) => {
                    assert!(is_path(&access.base, "self"));
                    assert!(matches!(&access.member, syn::Member::Named(id) if id == field));
                }
                _ => panic!("the widget is not that of a field"),
            }
        }
    }
}

#[test]
fn tuple_struct_parses_into_one_call_per_index() {
    let text = derive_for("struct Wide(u8, u8, u8, u8, u8, u8, u8, u8, u8, u8, u8, u8);").unwrap();
    let (shown, edited) = methods_of(&text, "Wide");
    for (method, name) in [(&shown, "debug"), (&edited, "debug_mut")] {
        assert_eq!(method.block.stmts.len(), 12);
        for (index, statement) in method.block.stmts.iter().enumerate() {
            let widget = call_of(statement);
            assert_eq!(widget.method.to_string(), name);
            assert!(is_path(&widget.args[0], "ui"));
            match &*widget.receiver {
                syn::Expr::Field(access) => {
                    assert!(is_path(&access.base, "self"));
                    assert!(matches!(
                        &access.member,
                        syn::Member::Unnamed(at) if at.index as usize == index
                    ));
                }
                _ => panic!("the widget is not that of a field"),
            }
        }
    }
}

#[test]
fn enum_parses_into_one_option_per_variant() {
    let variants = ["Idle", "Walking", "Running"];
    let text = derive_for("enum Gait { Idle, Walking, Running }").unwrap();
    let (shown, edited) = methods_of(&text, "Gait");

    assert_eq!(shown.block.stmts.len(), 1);
    let label = call_of(&shown.block.stmts[0]);
    assert!(is_path(&label.receiver, "ui"));
    assert_eq!(label.method.to_string(), "label");
    assert!(matches!(&label.args[0], syn::Expr::Macro(m) if m.mac.path.is_ident("format")));

    assert_eq!(edited.block.stmts.len(), 1);
    let show = call_of(&edited.block.stmts[0]);
    assert_eq!(show.method.to_string(), "show_ui");
    assert!(is_path(&show.args[0], "ui"));
    let selected = match &*show.receiver {
        syn::Expr::MethodCall(call) => call,
        _ => panic!("the selector has no selected text"),
    };
    assert_eq!(selected.method.to_string(), "selected_text");
    match &*selected.receiver {
        syn::Expr::Call(call) => assert_eq!(text_of(&call.args[0]), "Gait Type"),
        _ => panic!("the selector has no label"),
    }

    let options = closure_body(show);
    assert_eq!(options.len(), variants.len());
    for (statement, variant) in options.iter().zip(variants) {
        let option = call_of(statement);
        assert!(is_path(&option.receiver, "ui"));
        assert_eq!(option.method.to_string(), "selectable_value");
        assert_eq!(option.args.len(), 3);
        assert!(is_path(&option.args[0], "self"));
        match &option.args[1] {
            syn::Expr::Path(value) => {
                let segments: Vec<String> =
                    value.path.segments.iter().map(|s| s.ident.to_string()).collect();
                assert_eq!(segments, vec!["Gait".to_string(), variant.to_string()]);
            }
            _ => panic!("the option stores no variant"),
        }
        assert_eq!(text_of(&option.args[2]), variant);
    }
}

#[test]
fn raw_and_non_ascii_names_survive() {
    let text = derive_for("struct Odd { r#type: u8, größe: f32 }").unwrap();
    let (shown, _) = methods_of(&text, "Odd");
    let labels: Vec<String> = shown
        .block
        .stmts
        .iter()
        .map(|statement| text_of(&call_of(&closure_body(call_of(statement))[0]).args[0]))
        .collect();
    assert_eq!(labels, vec!["r#type".to_string(), "größe".to_string()]);
    assert!(text.contains("self.r#type.debug(ui);"));
    assert!(text.contains("self.größe.debug_mut(ui);"));
}

#[test]
fn variants_with_fields_are_offered_by_name_alone() {
    let input: syn::DeriveInput =
        syn::parse_str("enum Shape { Dot, Circle(f32), Rect { w: f32, h: f32 } }").unwrap();
    assert_eq!(
        shape_of(&input),
        DeriveInput { ident: "Shape".to_string(), data: Data::Enum(names(&["Dot", "Circle", "Rect"])) }
    );
    let text = derive_egui_debug(&shape_of(&input)).unwrap();
    assert!(text.contains(" ui.selectable_value(self, Shape::Circle, \"Circle\");"));
}

#[test]
fn declarations_without_members_parse_into_empty_bodies() {
    let text = derive_for("struct Empty {}").unwrap();
    let (shown, edited) = methods_of(&text, "Empty");
    assert!(shown.block.stmts.is_empty() && edited.block.stmts.is_empty());
    let text = derive_for("struct Nothing();").unwrap();
    let (shown, edited) = methods_of(&text, "Nothing");
    assert!(shown.block.stmts.is_empty() && edited.block.stmts.is_empty());
}

#[test]
fn unit_struct_declaration_is_refused() {
    assert_eq!(derive_for("struct Marker;"), Err(Unsupported::UnitStruct));
}

#[test]
fn union_declaration_is_refused() {
    assert_eq!(derive_for("union Bits { int: u32, float: f32 }"), Err(Unsupported::Union));
}
