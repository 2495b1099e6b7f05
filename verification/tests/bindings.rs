use script_bindings::bridge::{bind, lookup_binding, Binding, Environment};
use script_bindings::builder::{FunctionBuilder, ModuleBuilder};
use script_bindings::convert::{check_value, clone_value, instance_from_value, lookup_entry};
use script_bindings::render::{instance_to_text, int_text, render_value};
use script_bindings::rpg::{
    call_character_method, character_from_value, character_to_value, character_type_spec,
    create_rpg_character, rpg_attack, rpg_module_spec, rpg_registry, CallError, RpgCharacter,
};
use script_bindings::types::{boolean, integer, number, record, text, tuple, type_eq, TypeDescriptor};
use script_bindings::value::ScriptValue;

fn sample_tuple() -> TypeDescriptor {
    tuple(vec![number(), boolean(), text()])
}

#[test]
fn descriptors_from_same_shape_are_equal() {
    assert!(integer() == integer());
    assert!(number() == number());
    assert!(text() == text());
    assert!(boolean() == boolean());
    assert!(sample_tuple() == sample_tuple());
    let r1 = record("Point".to_string(), vec![("x".to_string(), number())]);
    let r2 = record("Point".to_string(), vec![("x".to_string(), number())]);
    assert!(r1 == r2);
}

#[test]
fn descriptors_of_different_shape_differ() {
    assert!(integer() != number());
    assert!(text() != boolean());
    assert!(tuple(vec![number()]) != tuple(vec![number(), number()]));
    let r1 = record("Point".to_string(), vec![("x".to_string(), number())]);
    let r2 = record("Point".to_string(), vec![("y".to_string(), number())]);
    assert!(r1 != r2);
    assert!(!type_eq(&integer(), &boolean()));
}

#[test]
fn builder_assigns_contiguous_param_indices() {
    let f = FunctionBuilder::start("f".to_string())
        .param("a".to_string(), number())
        .param_doc("b".to_string(), text(), "second".to_string())
        .param("c".to_string(), boolean())
        .finish();
    assert_eq!(f.params.len(), 3);
    for (i, p) in f.params.iter().enumerate() {
        assert_eq!(p.index, i);
    }
}

#[test]
fn registry_param_indices_have_no_gaps() {
    let r = rpg_registry();
    for g in &r.groups {
        for m in &g.modules {
            for f in &m.functions {
                for (i, p) in f.params.iter().enumerate() {
                    assert_eq!(p.index, i);
                }
            }
        }
        for t in &g.types {
            for f in &t.methods {
                for (i, p) in f.params.iter().enumerate() {
                    assert_eq!(p.index, i);
                }
            }
        }
    }
}

#[test]
fn queued_and_direct_documentation_agree() {
    let direct = ModuleBuilder::start("m".to_string())
        .function(
            FunctionBuilder::start("f".to_string()).doc("described".to_string()).finish(),
        )
        .finish();
    let queued = ModuleBuilder::start("m".to_string())
        .document("described".to_string())
        .function(FunctionBuilder::start("f".to_string()).finish())
        .finish();
    assert_eq!(direct.functions[0].doc, queued.functions[0].doc);
    assert_eq!(direct.functions[0].name, queued.functions[0].name);
}

#[test]
fn undocumented_item_keeps_no_doc() {
    let m = ModuleBuilder::start("m".to_string())
        .function(FunctionBuilder::start("f".to_string()).finish())
        .finish();
    assert!(m.doc.is_none());
    assert!(m.functions[0].doc.is_none());
}

#[test]
fn conversion_round_trip_rendering_contains_field_values() {
    let spec = character_type_spec();
    let mut env = Environment::new();
    bind(rpg_registry(), &mut env);
    let value = ScriptValue::Table(vec![(
        "name".to_string(),
        ScriptValue::Text("Zana".to_string()),
    )]);
    let inst = match instance_from_value(&spec, &value) {
        Ok(i) => i,
        Err(e) => panic!("conversion should succeed: {}", e.message),
    };
    let rendering = instance_to_text(&inst);
    assert!(rendering.contains("Zana"));
    assert!(rendering.contains("RpgCharacter"));
}

#[test]
fn character_round_trip_through_value() {
    let c = create_rpg_character("Aster".to_string());
    let v = character_to_value(&c);
    let back = match character_from_value(&v) {
        Ok(c) => c,
        Err(e) => panic!("round trip should succeed: {}", e.message),
    };
    assert_eq!(back.name, "Aster");
}

#[test]
fn missing_required_field_is_a_conversion_error() {
    let spec = character_type_spec();
    let empty = ScriptValue::Table(vec![]);
    let err = instance_from_value(&spec, &empty).err().expect("must fail");
    assert_eq!(err.to, "RpgCharacter");
    assert_eq!(err.message, "missing required field: name");
}

#[test]
fn non_table_value_is_a_conversion_error() {
    let spec = character_type_spec();
    let err = instance_from_value(&spec, &ScriptValue::Int(7)).err().expect("must fail");
    assert_eq!(err.from, "integer");
    assert_eq!(err.to, "RpgCharacter");
    assert_eq!(err.message, "cannot convert integer to record");
}

#[test]
fn wrongly_shaped_field_is_a_conversion_error() {
    let spec = character_type_spec();
    let bad = ScriptValue::Table(vec![("name".to_string(), ScriptValue::Int(3))]);
    let err = instance_from_value(&spec, &bad).err().expect("must fail");
    assert_eq!(err.message, "field has the wrong shape: name");
}

#[test]
fn character_conversion_errors_match_shape() {
    let err = character_from_value(&ScriptValue::Nil).err().expect("must fail");
    assert_eq!(err.from, "nil");
    assert_eq!(err.to, "RpgCharacter");
    let missing = character_from_value(&ScriptValue::Table(vec![])).err().expect("must fail");
    assert_eq!(missing.message, "missing required field: name");
}

#[test]
fn zero_parameter_method_callable_with_zero_arguments() {
    let c = RpgCharacter { name: "Kel".to_string() };
    let r = call_character_method(&c, &"get_attack".to_string(), &vec![]);
    match r {
        Ok(ScriptValue::Int(v)) => assert_eq!(v, 1),
        _ => panic!("get_attack with zero arguments must return the declared constant"),
    }
    assert_eq!(rpg_attack(&c), 1);
}

#[test]
fn method_dispatch_rejects_bad_calls() {
    let c = RpgCharacter { name: "Kel".to_string() };
    match call_character_method(&c, &"get_attack".to_string(), &vec![ScriptValue::Nil]) {
        Err(CallError::WrongArity { expected, got }) => {
            assert_eq!(expected, 0);
            assert_eq!(got, 1);
        },
        _ => panic!("extra argument must be rejected"),
    }
    match call_character_method(&c, &"no_such".to_string(), &vec![]) {
        Err(CallError::NoSuchMethod) => {},
        _ => panic!("unknown method must be rejected"),
    }
}

#[test]
fn binding_installs_modules_and_types() {
    let mut env = Environment::new();
    bind(rpg_registry(), &mut env);
    assert_eq!(env.bindings.len(), 2);
    assert_eq!(env.bindings[0].0, "rpg");
    assert_eq!(env.bindings[1].0, "RpgCharacter");
    match &env.bindings[0].1 {
        Binding::Module(m) => assert_eq!(m.name, "rpg"),
        _ => panic!("first binding must be the module"),
    }
    match &env.bindings[1].1 {
        Binding::UserType(t) => assert_eq!(t.name, "RpgCharacter"),
        _ => panic!("second binding must be the user type"),
    }
}

#[test]
fn shape_checking_follows_descriptors() {
    assert!(check_value(&ScriptValue::Int(3), &integer()));
    assert!(check_value(&ScriptValue::Int(3), &number()));
    assert!(!check_value(&ScriptValue::Text("x".to_string()), &integer()));
    let pair = tuple(vec![number(), text()]);
    let good = ScriptValue::List(vec![
        ScriptValue::Int(1),
        ScriptValue::Text("y".to_string()),
    ]);
    let short = ScriptValue::List(vec![ScriptValue::Int(1)]);
    assert!(check_value(&good, &pair));
    assert!(!check_value(&short, &pair));
    let rec = record("P".to_string(), vec![("x".to_string(), number())]);
    let table = ScriptValue::Table(vec![("x".to_string(), ScriptValue::Int(9))]);
    assert!(check_value(&table, &rec));
    assert!(!check_value(&ScriptValue::Table(vec![]), &rec));
}

#[test]
fn table_lookup_finds_first_entry() {
    let entries = vec![
        ("a".to_string(), ScriptValue::Int(1)),
        ("b".to_string(), ScriptValue::Int(2)),
        ("a".to_string(), ScriptValue::Int(3)),
    ];
    match lookup_entry(&entries, &"a".to_string()) {
        Some(ScriptValue::Int(v)) => assert_eq!(*v, 1),
        _ => panic!("lookup must find the first entry"),
    }
    assert!(lookup_entry(&entries, &"c".to_string()).is_none());
}

#[test]
fn rendering_is_exact_for_numbers() {
    assert_eq!(int_text(0), "0");
    assert_eq!(int_text(7), "7");
    assert_eq!(int_text(42), "42");
    assert_eq!(int_text(-5), "-5");
    assert_eq!(int_text(1234567890), "1234567890");
    assert_eq!(int_text(i64::MAX), "9223372036854775807");
    assert_eq!(int_text(i64::MIN), "-9223372036854775808");
}

#[test]
fn rendering_of_values_is_deterministic() {
    let v = ScriptValue::Table(vec![
        ("name".to_string(), ScriptValue::Text("Rin".to_string())),
        ("hp".to_string(), ScriptValue::Int(10)),
        ("flags".to_string(), ScriptValue::List(vec![
            ScriptValue::Boolean(true),
            ScriptValue::Nil,
        ])),
    ]);
    let s = render_value(&v);
    assert_eq!(s, "{ name = Rin, hp = 10, flags = [true, nil] }");
    let copy = clone_value(&v);
    assert_eq!(render_value(&copy), s);
}

#[test]
fn module_spec_carries_its_documentation() {
    let m = rpg_module_spec();
    assert_eq!(m.name, "rpg");
    assert_eq!(m.doc.as_deref(), Some("A module for some basic rpg logic"));
    assert_eq!(m.functions[0].name, "create_rpg_char");
    assert_eq!(m.functions[0].params[0].name, "name");
    assert_eq!(
        m.functions[0].params[0].doc.as_deref(),
        Some("The name for the character")
    );
}

#[test]
fn lookup_finds_installed_binding() {
    let mut env = Environment::new();
    bind(rpg_registry(), &mut env);
    match lookup_binding(&env, &"rpg".to_string()) {
        Some(Binding::Module(m)) => assert_eq!(m.name, "rpg"),
        _ => panic!("the module must be addressable under its name"),
    }
    assert!(lookup_binding(&env, &"absent".to_string()).is_none());
}

#[test]
fn long_method_returns_empty_text() {
    let c = RpgCharacter { name: "Kel".to_string() };
    let args = vec![
        ScriptValue::Int(1),
        ScriptValue::Boolean(true),
        ScriptValue::Text("x".to_string()),
        ScriptValue::Int(2),
        ScriptValue::List(vec![ScriptValue::Int(1), ScriptValue::Int(2), ScriptValue::Int(3)]),
    ];
    match call_character_method(&c, &"long_method".to_string(), &args) {
        Ok(ScriptValue::Text(s)) => assert_eq!(s, ""),
        _ => panic!("a five-argument call must return the empty text"),
    }
    match call_character_method(&c, &"long_method".to_string(), &vec![]) {
        Err(CallError::WrongArity { expected, got }) => {
            assert_eq!(expected, 5);
            assert_eq!(got, 0);
        },
        _ => panic!("wrong arity must be rejected"),
    }
}

#[test]
fn character_metadata_carries_all_documentation() {
    let t = character_type_spec();
    assert_eq!(t.fields[0].name, "name");
    assert_eq!(t.methods[3].name, "new");
    assert_eq!(t.methods[3].doc.as_deref(), Some("Constructor"));
    assert_eq!(t.methods[3].params.len(), 1);
    assert_eq!(t.methods[3].params[0].name, "name");
    assert_eq!(t.methods[1].doc.as_deref(), Some("Testing many parameters"));
    assert_eq!(t.methods[1].params[1].name, "truth");
    assert_eq!(
        t.methods[1].params[2].doc.as_deref(),
        Some("What fun. What will you write??")
    );
    assert_eq!(t.methods[1].params[3].name, "second_number");
    assert_eq!(
        t.methods[2].doc.as_deref(),
        Some("This function provides some kind of testing for the character")
    );
    assert_eq!(t.methods[2].returns.len(), 1);
    assert_eq!(
        t.methods[2].returns[0].doc.as_deref(),
        Some("1.0 a float value, staticly bound to `1.0`")
    );
    assert!(t.metamethods[0].1.doc.is_none());
}
