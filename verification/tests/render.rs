//! End-to-end rendering tests: scopes, modules, imports, declarations.

use codegen::Const;
use codegen::Docs;
use codegen::Function;
use codegen::Impl;
use codegen::Module;
use codegen::Scope;
use codegen::Struct;

#[test]
fn empty_scope_renders_empty_string() {
    let scope = Scope::new();
    assert_eq!(scope.to_string(), "");
}

#[test]
fn rendering_twice_is_byte_identical() {
    let mut scope = Scope::new();
    scope.import("a", "X");
    scope.new_module("m").vis("pub");
    scope.new_struct("S");
    let first = scope.to_string();
    let second = scope.to_string();
    assert_eq!(first, second);
}

#[test]
fn import_grouping_by_visibility_then_path() {
    let mut scope = Scope::new();
    scope.import("a", "X");
    scope.import("b", "Y").vis("pub");
    scope.import("a", "Z");
    assert_eq!(scope.to_string(), "use a::{X, Z};\npub use b::Y;\n");
}

#[test]
fn import_reinsertion_is_idempotent() {
    let mut scope = Scope::new();
    scope.import("a", "X").vis("pub");
    let once = scope.to_string();
    scope.import("a", "X").vis("pub");
    assert_eq!(scope.to_string(), once);
}

#[test]
fn import_last_visibility_wins() {
    let mut scope = Scope::new();
    scope.import("a", "X").vis("pub");
    scope.import("a", "X");
    let mut again = Scope::new();
    again.import("a", "X").vis("pub");
    assert_eq!(scope.to_string(), again.to_string());
    scope.import("a", "X").vis("pub(crate)");
    assert_eq!(scope.to_string(), "pub(crate) use a::X;\n");
}

#[test]
fn import_takes_leading_path_segment() {
    let mut scope = Scope::new();
    scope.import("a", "b::C");
    assert_eq!(scope.to_string(), "use a::b;\n");
}

#[test]
fn single_import_has_no_braces() {
    let mut scope = Scope::new();
    scope.import("std::fmt", "Display");
    scope.new_struct("S");
    assert_eq!(scope.to_string(), "use std::fmt::Display;\n\nstruct S;");
}

#[test]
fn same_path_two_visibilities_gives_two_statements() {
    let mut scope = Scope::new();
    scope.import("a", "X");
    scope.import("a", "Y").vis("pub");
    assert_eq!(scope.to_string(), "use a::X;\npub use a::Y;\n");
}

#[test]
fn modules_render_in_insertion_order() {
    let mut scope = Scope::new();
    scope.new_module("foo");
    scope.new_module("bar");
    assert_eq!(scope.to_string(), "mod foo {\n}\n\nmod bar {\n}");
}

#[test]
fn nested_modules_indent_and_close_in_balance() {
    let mut scope = Scope::new();
    scope
        .new_module("a")
        .new_module("b")
        .new_module("c")
        .new_struct("S");
    assert_eq!(
        scope.to_string(),
        "mod a {\n    mod b {\n        mod c {\n            struct S;\n        }\n    }\n}"
    );
}

#[test]
fn get_or_new_module_returns_the_original() {
    let mut scope = Scope::new();
    scope.new_module("m").vis("pub");
    scope.get_or_new_module("m").new_struct("Inner");
    assert_eq!(
        scope.to_string(),
        "pub mod m {\n    struct Inner;\n}"
    );
}

#[test]
fn get_or_new_module_creates_on_miss() {
    let mut scope = Scope::new();
    scope.get_or_new_module("fresh");
    assert_eq!(scope.to_string(), "mod fresh {\n}");
    assert!(scope.get_module("fresh").is_some());
    assert!(scope.get_module("other").is_none());
}

#[test]
fn get_module_mut_reaches_the_named_module() {
    let mut scope = Scope::new();
    scope.new_module("m");
    scope.get_module_mut("m").unwrap().new_struct("S");
    assert!(scope.get_module_mut("absent").is_none());
    assert_eq!(scope.to_string(), "mod m {\n    struct S;\n}");
}

#[test]
fn module_header_carries_docs_attrs_and_visibility() {
    let mut scope = Scope::new();
    let module = scope.new_module("m");
    module.doc("the m module");
    module.attr("allow(dead_code)");
    module.vis("pub");
    assert_eq!(
        scope.to_string(),
        "/// the m module\n#[allow(dead_code)] \npub mod m {\n}"
    );
}

#[test]
fn module_import_lands_in_its_own_scope() {
    let mut scope = Scope::new();
    scope.new_module("m").import("std::fmt", "Display");
    assert_eq!(
        scope.to_string(),
        "mod m {\n    use std::fmt::Display;\n\n}"
    );
}

#[test]
fn push_module_keeps_the_built_module() {
    let mut scope = Scope::new();
    let mut module = Module::new("outer");
    module.new_struct("S");
    scope.push_module(module);
    assert_eq!(scope.to_string(), "mod outer {\n    struct S;\n}");
}

#[test]
fn scope_docs_come_first() {
    let mut scope = Scope::new();
    scope.doc("top\nlevel");
    scope.new_struct("S");
    assert_eq!(scope.to_string(), "/// top\n/// level\nstruct S;");
}

#[test]
fn const_renders_on_one_line() {
    let mut scope = Scope::new();
    let c = scope.new_const("i32");
    c.name("ANSWER");
    c.value("42");
    c.vis("pub");
    c.doc(Docs::new("the answer"));
    assert_eq!(
        scope.to_string(),
        "/// the answer\npub const ANSWER: i32 = 42;"
    );
}

#[test]
fn const_builder_replaces_type() {
    let mut c = Const::new("i32");
    c.name("N").value("0").ty("u8");
    let mut scope = Scope::new();
    scope.push_const(c);
    assert_eq!(scope.to_string(), "const N: u8 = 0;");
}

#[test]
fn impl_block_renders_members_in_order() {
    let mut scope = Scope::new();
    let imp = scope.new_impl("Foo");
    imp.generic("T");
    imp.target_generic("T");
    imp.impl_trait("Bar");
    imp.bound("T", "Clone");
    imp.push_macro("#[attr]");
    imp.associate_const("N", "usize", "3", "pub");
    imp.associate_type("Item", "T");
    imp.push_fn(Function::new("go"));
    assert_eq!(
        scope.to_string(),
        "#[attr]\nimpl<T> Bar for Foo<T> where T: Clone {\n    pub const N: usize = 3;\n    type Item = T;\n\n    fn go() {\n    }\n}"
    );
}

#[test]
fn impl_new_fn_returns_live_handle() {
    let mut imp = Impl::new("Foo");
    imp.new_fn("go").line("let x = 1;");
    let mut scope = Scope::new();
    scope.push_impl(imp);
    assert_eq!(
        scope.to_string(),
        "impl Foo {\n    fn go() {\n        let x = 1;\n    }\n}"
    );
}

#[test]
fn functions_traits_enums_and_aliases_render() {
    let mut scope = Scope::new();
    scope.new_fn("main").line("run();");
    scope.new_trait("Greet");
    scope.new_enum("Colour");
    scope.new_type_alias("Pair", "Couple");
    assert_eq!(
        scope.to_string(),
        "fn main() {\n    run();\n}\n\ntrait Greet {\n}\n\nenum Colour {\n}\n\ntype Pair = Couple;"
    );
}

#[test]
fn raw_text_is_verbatim() {
    let mut scope = Scope::new();
    scope.raw("#[cfg(test)]\nmod tests;");
    scope.new_struct("S");
    assert_eq!(scope.to_string(), "#[cfg(test)]\nmod tests;\n\nstruct S;");
}

#[test]
fn raw_lines_inside_modules_are_indented() {
    let mut scope = Scope::new();
    scope.get_or_new_module("m").scope().raw("x();\ny();");
    assert_eq!(scope.to_string(), "mod m {\n    x();\n    y();\n}");
}

#[test]
fn push_struct_and_default_scope() {
    let mut scope = Scope::default();
    scope.push_struct(Struct::new("S"));
    assert_eq!(scope.to_string(), "struct S;");
}

#[test]
fn items_are_separated_by_one_blank_line() {
    let mut scope = Scope::new();
    scope.new_struct("A");
    scope.new_struct("B");
    scope.new_struct("C");
    assert_eq!(scope.to_string(), "struct A;\n\nstruct B;\n\nstruct C;");
}
