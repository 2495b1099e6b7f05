use script_bindings::bridge::load_and_evaluate;
use script_bindings::builder::{FunctionBuilder, GroupBuilder, ModuleBuilder, RegistryBuilder};
use script_bindings::generate::{generate, type_sig_text};
use script_bindings::rpg::rpg_registry;
use script_bindings::types::{boolean, function, integer, number, text, tuple};

#[test]
fn one_group_yields_one_stub_file() {
    let out = generate(&rpg_registry());
    assert_eq!(out.len(), 1);
    let (name, content) = &out[0];
    assert!(name.contains("init"));
    assert_eq!(name, "init.d.lua");
    assert!(content.contains("rpg"));
    assert!(content.contains("RpgCharacter"));
}

#[test]
fn documentation_immediately_precedes_declarations() {
    let out = generate(&rpg_registry());
    let content = &out[0].1;
    assert!(content.contains("--- A module for some basic rpg logic\n--- @class rpg\nrpg = {}\n"));
    assert!(content.contains("--- An RPG character\n--- @class RpgCharacter\n"));
    assert!(content.contains("--- doc\n--- @param name string The name for the character\n"));
    assert!(content.contains("--- Provides the current character's attack\n"));
    assert!(content.contains("function RpgCharacter:get_attack() end\n"));
    assert!(content.contains("function rpg.create_rpg_char(name) end\n"));
    assert!(content.contains("function RpgCharacter:__tostring() end\n"));
}

#[test]
fn absent_documentation_emits_no_comment() {
    let group = GroupBuilder::start("plain".to_string())
        .module(
            ModuleBuilder::start("util".to_string())
                .function(FunctionBuilder::start("noop".to_string()).finish())
                .finish(),
        )
        .finish();
    let registry = RegistryBuilder::start().define(group).finish();
    let out = generate(&registry);
    assert_eq!(out[0].0, "plain.d.lua");
    let content = &out[0].1;
    assert!(content.starts_with("--- @meta\n\n--- @class util\nutil = {}\n"));
    assert!(content.contains("function util.noop() end\n"));
    assert!(!content.contains("--- \n"));
}

#[test]
fn generation_twice_is_byte_identical() {
    let first = generate(&rpg_registry());
    let second = generate(&rpg_registry());
    assert_eq!(first.len(), second.len());
    for ((n1, c1), (n2, c2)) in first.iter().zip(second.iter()) {
        assert_eq!(n1, n2);
        assert_eq!(c1, c2);
    }
}

#[test]
fn every_group_maps_to_its_own_file() {
    let registry = RegistryBuilder::start()
        .define(GroupBuilder::start("first".to_string()).finish())
        .define(GroupBuilder::start("second".to_string()).finish())
        .finish();
    let out = generate(&registry);
    assert_eq!(out.len(), 2);
    assert_eq!(out[0].0, "first.d.lua");
    assert_eq!(out[1].0, "second.d.lua");
    assert_eq!(out[0].1, "--- @meta\n\n");
    assert_eq!(out[1].1, "--- @meta\n\n");
}

#[test]
fn type_signatures_translate_descriptors() {
    assert_eq!(type_sig_text(&integer()), "integer");
    assert_eq!(type_sig_text(&number()), "number");
    assert_eq!(type_sig_text(&text()), "string");
    assert_eq!(type_sig_text(&boolean()), "boolean");
    assert_eq!(
        type_sig_text(&tuple(vec![number(), number(), number()])),
        "[number, number, number]"
    );
    let f = function(
        vec![("x".to_string(), number()), ("s".to_string(), text())],
        vec![boolean()],
    );
    assert_eq!(type_sig_text(&f), "fun(x: number, s: string): boolean");
}

#[test]
fn tuple_parameter_renders_inside_stub() {
    let out = generate(&rpg_registry());
    let content = &out[0].1;
    assert!(content.contains("--- @param a_vector [number, number, number] Even a tuple can be fun!\n"));
    assert!(content.contains("--- @param truth boolean Is this true? Maybe maybe not\n"));
}

#[test]
fn script_evaluation_returns_final_value() {
    match load_and_evaluate("return 1 + 1") {
        Ok(v) => assert!(v.contains("2")),
        Err(e) => panic!("evaluation should succeed, got: {}", e.message),
    }
}

#[test]
fn script_failure_is_a_recoverable_error() {
    let r = load_and_evaluate("this is not lua");
    assert!(r.is_err());
}

#[test]
fn stub_content_is_exact_for_a_small_module() {
    let f = FunctionBuilder::start("scale".to_string())
        .param_doc("x".to_string(), integer(), "the factor".to_string())
        .ret(boolean())
        .finish();
    let group = GroupBuilder::start("util".to_string())
        .module(
            ModuleBuilder::start("geom".to_string())
                .doc("Geometry helpers".to_string())
                .document("Scales a thing".to_string())
                .function(f)
                .finish(),
        )
        .finish();
    let registry = RegistryBuilder::start().define(group).finish();
    let out = generate(&registry);
    assert_eq!(out.len(), 1);
    assert_eq!(out[0].0, "util.d.lua");
    assert_eq!(
        out[0].1,
        "--- @meta\n\n\
         --- Geometry helpers\n\
         --- @class geom\n\
         geom = {}\n\n\
         --- Scales a thing\n\
         --- @param x integer the factor\n\
         --- @return boolean\n\
         function geom.scale(x) end\n\n"
    );
}
