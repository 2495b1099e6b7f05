use vstd::prelude::*;
use vstd::string::StringExecFns;

use crate::builder::{with_doc, FunctionBuilder, GroupBuilder, ModuleBuilder, RegistryBuilder, TypeBuilder};
use crate::convert::{missing_field_message, wrong_shape_message, ConversionError};
use crate::specs::{
    FieldShape, FieldSpec, FunctionShape, MetaOp, ModuleShape, ModuleSpec, ParamShape, Registry,
    ReturnShape, UserTypeShape, UserTypeSpec,
};
use crate::types::{boolean, integer, number, record, text, tuple, PrimKind, TypeDescriptor, TypeShape};
use crate::value::{table_lookup, tag_of, type_tag, ScriptValue, ValueShape};

verus! {

/// The demonstration native record: a role-playing character.
pub struct RpgCharacter {
    pub name: String,
}

impl View for RpgCharacter {
    type V = Seq<char>;

    open spec fn view(&self) -> Seq<char> {
        self.name@
    }
}

/// Builds a character with the given name. Construction is infallible.
pub fn create_rpg_character(name: String) -> (c: RpgCharacter)
    ensures
        c@ == name@,
{
    RpgCharacter { name }
}

/// The character's attack value: a constant of the demonstration.
pub fn rpg_attack(c: &RpgCharacter) -> (r: i64)
    ensures
        r == 1,
{
    1
}

/// Whether a script value converts to a character: it must be a table whose
/// entry under `name` is text.
pub open spec fn character_convertible(v: ValueShape) -> bool {
    &&& v is Table
    &&& table_lookup(v->Table_0, "name"@) matches Some(w) && w is Text
}

/// Converts a structured script value to a character. Succeeds exactly when
/// the value is a table whose `name` entry is text; otherwise reports a
/// conversion error naming the source tag and the target type, and never
/// panics.
pub fn character_from_value(v: &ScriptValue) -> (r: Result<RpgCharacter, ConversionError>)
    ensures
        r is Ok <==> character_convertible(v@),
        r matches Ok(c) ==> table_lookup(v@->Table_0, "name"@) == Some(ValueShape::Text(c@)),
        r matches Err(e) ==> e@.to == "RpgCharacter"@ && e@.from == tag_of(v@),
        r matches Err(e) ==> (!(v@ is Table) ==> e@.message == "cannot convert "@ + tag_of(v@)
            + " to RpgCharacter"@),
        r matches Err(e) ==> (v@ is Table && table_lookup(v@->Table_0, "name"@) is None
            ==> e@.message == missing_field_message("name"@)),
        r matches Err(e) ==> (v@ is Table && (table_lookup(v@->Table_0, "name"@) matches Some(w)
            && !(w is Text)) ==> e@.message == wrong_shape_message("name"@)),
{
    let entries = match v {
        ScriptValue::Table(entries) => entries,
        _ => {
            return Err(
                ConversionError {
                    from: String::from_str(type_tag(v)),
                    to: String::from_str("RpgCharacter"),
                    message: String::from_str("cannot convert ").concat(type_tag(v)).concat(
                        " to RpgCharacter",
                    ),
                },
            );
        },
    };
    match crate::convert::lookup_entry(entries, &String::from_str("name")) {
        Some(ScriptValue::Text(name)) => Ok(RpgCharacter { name: name.clone() }),
        Some(_) => Err(
            ConversionError {
                from: String::from_str("table"),
                to: String::from_str("RpgCharacter"),
                message: String::from_str("field has the wrong shape: ").concat("name"),
            },
        ),
        None => Err(
            ConversionError {
                from: String::from_str("table"),
                to: String::from_str("RpgCharacter"),
                message: String::from_str("missing required field: ").concat("name"),
            },
        ),
    }
}

/// Turns a character back into a structured script value: a table with its
/// `name` entry. The outbound direction of the codec is infallible.
pub fn character_to_value(c: &RpgCharacter) -> (v: ScriptValue)
    ensures
        v@ is Table,
        table_lookup(v@->Table_0, "name"@) == Some(ValueShape::Text(c@)),
{
    let mut entries: Vec<(String, ScriptValue)> = Vec::new();
    entries.push((String::from_str("name"), ScriptValue::Text(c.name.clone())));
    let v = ScriptValue::Table(entries);
    proof {
        let es = crate::value::shapes_of_entries(entries@);
        assert(es[0] == ("name"@, ValueShape::Text(c@)));
    }
    v
}

/// The structural descriptor of the character record.
pub fn character_descriptor() -> (t: TypeDescriptor)
    ensures
        t@ == (crate::types::TypeShape::Record {
            name: "RpgCharacter"@,
            fields: seq![("name"@, crate::types::TypeShape::Text)],
        }),
{
    let mut fields: Vec<(String, TypeDescriptor)> = Vec::new();
    fields.push((String::from_str("name"), text()));
    let t = record(String::from_str("RpgCharacter"), fields);
    proof {
        assert(crate::types::shapes_of_named(fields@) =~= seq![
            ("name"@, crate::types::TypeShape::Text),
        ]);
    }
    t
}


/// The declared metadata of the attack getter: no parameters, one
/// documented numeric return slot, and the queued documentation text.
pub open spec fn get_attack_shape() -> FunctionShape {
    FunctionShape {
        name: "get_attack"@,
        params: Seq::empty(),
        returns: seq![
            ReturnShape {
                ty: TypeShape::Primitive { kind: PrimKind::Number },
                doc: Some("the attack value, statically bound"@),
            },
        ],
        doc: Some("Provides the current character's attack"@),
    }
}

/// The declared metadata of the many-parameter method: five documented
/// parameters at indices 0 through 4, one text return slot, and the queued
/// documentation text.
pub open spec fn long_method_shape() -> FunctionShape {
    FunctionShape {
        name: "long_method"@,
        params: seq![
            ParamShape {
                index: 0,
                name: "float_value"@,
                ty: TypeShape::Primitive { kind: PrimKind::Number },
                doc: Some("A cute little float number"@),
            },
            ParamShape {
                index: 1,
                name: "truth"@,
                ty: TypeShape::Boolean,
                doc: Some("Is this true? Maybe maybe not"@),
            },
            ParamShape {
                index: 2,
                name: "fun_text"@,
                ty: TypeShape::Text,
                doc: Some("What fun. What will you write??"@),
            },
            ParamShape {
                index: 3,
                name: "second_number"@,
                ty: TypeShape::Primitive { kind: PrimKind::Integer },
                doc: Some("This one's an integer!!!"@),
            },
            ParamShape {
                index: 4,
                name: "a_vector"@,
                ty: TypeShape::Tuple {
                    elems: seq![
                        TypeShape::Primitive { kind: PrimKind::Number },
                        TypeShape::Primitive { kind: PrimKind::Number },
                        TypeShape::Primitive { kind: PrimKind::Number },
                    ],
                },
                doc: Some("Even a tuple can be fun!"@),
            },
        ],
        returns: seq![ReturnShape { ty: TypeShape::Text, doc: None }],
        doc: Some("Testing many parameters"@),
    }
}

/// The declared metadata of the test method: no parameters, one numeric
/// return slot documented as statically bound, and the function's own
/// documentation, which wins over the queued text.
pub open spec fn test_method_shape() -> FunctionShape {
    FunctionShape {
        name: "test"@,
        params: Seq::empty(),
        returns: seq![
            ReturnShape {
                ty: TypeShape::Primitive { kind: PrimKind::Number },
                doc: Some("1.0 a float value, staticly bound to `1.0`"@),
            },
        ],
        doc: Some("This function provides some kind of testing for the character"@),
    }
}

/// The declared metadata of the constructor: one undocumented text
/// parameter and the queued documentation text.
pub open spec fn constructor_shape() -> FunctionShape {
    FunctionShape {
        name: "new"@,
        params: seq![ParamShape { index: 0, name: "name"@, ty: TypeShape::Text, doc: None }],
        returns: Seq::empty(),
        doc: Some("Constructor"@),
    }
}

/// The declared metadata of the string-conversion hook: no parameters, one
/// text return slot, and no documentation of its own.
pub open spec fn stringify_shape() -> FunctionShape {
    FunctionShape {
        name: "__tostring"@,
        params: Seq::empty(),
        returns: seq![ReturnShape { ty: TypeShape::Text, doc: None }],
        doc: None,
    }
}

/// The whole declared metadata of the character user type: its one text
/// field, its four methods in registration order, its string-conversion
/// metamethod, and its documentation.
pub open spec fn character_shape() -> UserTypeShape {
    UserTypeShape {
        name: "RpgCharacter"@,
        fields: seq![FieldShape { name: "name"@, ty: TypeShape::Text, doc: None }],
        methods: seq![
            get_attack_shape(),
            long_method_shape(),
            test_method_shape(),
            constructor_shape(),
        ],
        metamethods: seq![(MetaOp::Stringify, stringify_shape())],
        doc: Some("An RPG character"@),
    }
}

/// The whole declared metadata of the demonstration module: one documented
/// function with a documented text parameter returning the character
/// record, and the module's documentation.
pub open spec fn rpg_module_shape() -> ModuleShape {
    ModuleShape {
        name: "rpg"@,
        functions: seq![
            FunctionShape {
                name: "create_rpg_char"@,
                params: seq![
                    ParamShape {
                        index: 0,
                        name: "name"@,
                        ty: TypeShape::Text,
                        doc: Some("The name for the character"@),
                    },
                ],
                returns: seq![
                    ReturnShape {
                        ty: TypeShape::Record {
                            name: "RpgCharacter"@,
                            fields: seq![("name"@, TypeShape::Text)],
                        },
                        doc: None,
                    },
                ],
                doc: Some("doc"@),
            },
        ],
        doc: Some("A module for some basic rpg logic"@),
    }
}

/// The full metadata of the character user type, built through the builder
/// protocol: its field, its methods with their documentation, and its
/// string-conversion metamethod.
pub fn character_type_spec() -> (t: UserTypeSpec)
    ensures
        t@ == character_shape(),
        t@.wf(),
{
    let get_attack = FunctionBuilder::start(String::from_str("get_attack")).ret_doc(
        number(),
        String::from_str("the attack value, statically bound"),
    ).finish();

    let mut entries: Vec<(String, TypeDescriptor, String)> = Vec::new();
    entries.push(
        (
            String::from_str("float_value"),
            number(),
            String::from_str("A cute little float number"),
        ),
    );
    entries.push(
        (String::from_str("truth"), boolean(), String::from_str("Is this true? Maybe maybe not")),
    );
    entries.push(
        (
            String::from_str("fun_text"),
            text(),
            String::from_str("What fun. What will you write??"),
        ),
    );
    entries.push(
        (
            String::from_str("second_number"),
            integer(),
            String::from_str("This one's an integer!!!"),
        ),
    );
    let mut vec_elems: Vec<TypeDescriptor> = Vec::new();
    vec_elems.push(number());
    vec_elems.push(number());
    vec_elems.push(number());
    proof {
        assert(crate::types::shapes_of_list(vec_elems@) =~= seq![
            crate::types::TypeShape::Primitive { kind: crate::types::PrimKind::Number },
            crate::types::TypeShape::Primitive { kind: crate::types::PrimKind::Number },
            crate::types::TypeShape::Primitive { kind: crate::types::PrimKind::Number },
        ]);
    }
    entries.push(
        (String::from_str("a_vector"), tuple(vec_elems), String::from_str("Even a tuple can be fun!")),
    );
    let ghost ents = entries@;
    let long_b = FunctionBuilder::start(String::from_str("long_method")).params_with_docs(
        entries,
    ).ret(text());
    proof {
        assert forall|k: int| 0 <= k < 5 implies #[trigger] long_b@.params[k] == (ParamShape {
            index: k,
            name: ents[k].0@,
            ty: crate::types::type_shape(ents[k].1),
            doc: Some(ents[k].2@),
        }) by {
            assert(long_b@.params[0int + k] == (ParamShape {
                index: 0int + k,
                name: ents[k].0@,
                ty: crate::types::type_shape(ents[k].1),
                doc: Some(ents[k].2@),
            }));
        }
        assert(long_b@.params =~= long_method_shape().params);
    }
    proof {
        assert forall|i: int| 0 <= i < long_b@.params.len() implies #[trigger] long_b@.params[i].index
            == i by {
            assert(long_b@.params[0 + i].index == 0 + i);
        }
    }
    let long_method = long_b.finish();

    let test_method = FunctionBuilder::start(String::from_str("test")).doc(
        String::from_str("This function provides some kind of testing for the character"),
    ).ret_doc(number(), String::from_str("1.0 a float value, staticly bound to `1.0`")).finish();

    let constructor = FunctionBuilder::start(String::from_str("new")).param(
        String::from_str("name"),
        text(),
    ).finish();

    let to_text = FunctionBuilder::start(String::from_str("__tostring")).ret(text()).finish();

    let ghost ga = get_attack@;
    let ghost lm = long_method@;
    let ghost tm = test_method@;
    let ghost ctor = constructor@;
    let ghost meta = to_text@;
    let built = TypeBuilder::start(String::from_str("RpgCharacter")).doc(
        String::from_str("An RPG character"),
    )
        .field(FieldSpec { name: String::from_str("name"), ty: text(), doc: None })
        .document(String::from_str("Provides the current character's attack"))
        .method(get_attack)
        .document(String::from_str("Testing many parameters"))
        .method(long_method)
        .document(String::from_str("A testing function to explore various options of API systems"))
        .method(test_method)
        .document(String::from_str("Constructor"))
        .method(constructor)
        .metamethod(MetaOp::Stringify, to_text)
        .finish();
    proof {
        assert(ga.returns =~= get_attack_shape().returns);
        assert(with_doc(ga, Some("Provides the current character's attack"@))
            == get_attack_shape());
        assert(lm.returns =~= long_method_shape().returns);
        assert(with_doc(lm, Some("Testing many parameters"@)) == long_method_shape());
        assert(tm.returns =~= test_method_shape().returns);
        assert(with_doc(
            tm,
            Some("A testing function to explore various options of API systems"@),
        ) == test_method_shape());
        assert(ctor.params =~= constructor_shape().params);
        assert(with_doc(ctor, Some("Constructor"@)) == constructor_shape());
        assert(meta.returns =~= stringify_shape().returns);
        assert(meta == stringify_shape());
        assert(built@.fields =~= character_shape().fields);
        assert(built@.methods =~= character_shape().methods);
        assert(built@.metamethods =~= character_shape().metamethods);
        assert(built@ == character_shape());
    }
    built
}

/// The metadata of the demonstration module: one documented function that
/// builds a character.
pub fn rpg_module_spec() -> (m: ModuleSpec)
    ensures
        m@ == rpg_module_shape(),
        m@.wf(),
{
    let create = FunctionBuilder::start(String::from_str("create_rpg_char")).param_doc(
        String::from_str("name"),
        text(),
        String::from_str("The name for the character"),
    ).ret(character_descriptor()).finish();

    let ghost cr = create@;
    let m = ModuleBuilder::start(String::from_str("rpg")).doc(
        String::from_str("A module for some basic rpg logic"),
    ).document(String::from_str("doc")).function(create).finish();
    proof {
        assert(cr.params =~= rpg_module_shape().functions[0].params);
        assert(cr.returns =~= rpg_module_shape().functions[0].returns);
        assert(with_doc(cr, Some("doc"@)) == rpg_module_shape().functions[0]);
        assert(m@.functions =~= rpg_module_shape().functions);
        assert(m@ == rpg_module_shape());
    }
    m
}

/// The demonstration registry: one definition group named `init` carrying
/// the module and the character type.
pub fn rpg_registry() -> (r: Registry)
    ensures
        r@.groups.len() == 1,
        r@.groups[0].name == "init"@,
        r@.groups[0].modules.len() == 1,
        r@.groups[0].modules[0] == rpg_module_shape(),
        r@.groups[0].types.len() == 1,
        r@.groups[0].types[0] == character_shape(),
        r@.wf(),
{
    let group = GroupBuilder::start(String::from_str("init")).module(rpg_module_spec()).register(
        character_type_spec(),
    ).finish();
    let ghost gsh = group@;
    let r = RegistryBuilder::start().define(group).finish();
    proof {
        assert(r@.groups[0] == gsh);
        assert(gsh.modules[0] == rpg_module_shape());
        assert(gsh.types[0] == character_shape());
    }
    r
}

/// A failure to call a method of a bound user type.
pub enum CallError {
    /// No method of that name exists on the type.
    NoSuchMethod,
    /// The call carried the wrong number of arguments.
    WrongArity { expected: usize, got: usize },
}

/// Dispatches a method call on a character, as the runtime bridge does when
/// a script invokes a bound method. A method declared with zero parameters
/// is callable with zero arguments; the attack getter then returns its
/// declared constant value.
pub fn call_character_method(c: &RpgCharacter, method: &String, args: &Vec<ScriptValue>) -> (r:
    Result<ScriptValue, CallError>)
    ensures
        method@ == "get_attack"@ && args@.len() == 0 ==> r == Ok::<ScriptValue, CallError>(
            ScriptValue::Int(1),
        ),
        method@ == "test"@ && args@.len() == 0 ==> r == Ok::<ScriptValue, CallError>(
            ScriptValue::Int(1),
        ),
        method@ == "long_method"@ && args@.len() == 5 ==> (r matches Ok(v) && v@
            == ValueShape::Text(""@)),
        (method@ == "get_attack"@ || method@ == "test"@) && args@.len() != 0 ==> (r matches Err(
            CallError::WrongArity { expected, got },
        ) && expected == 0 && got == args@.len()),
        method@ == "long_method"@ && args@.len() != 5 ==> (r matches Err(
            CallError::WrongArity { expected, got },
        ) && expected == 5 && got == args@.len()),
        method@ != "get_attack"@ && method@ != "test"@ && method@ != "long_method"@ ==> r matches
            Err(CallError::NoSuchMethod),
{
    proof {
        reveal_strlit("get_attack");
        reveal_strlit("test");
        reveal_strlit("long_method");
        assert("get_attack"@.len() == 10);
        assert("test"@.len() == 4);
        assert("long_method"@.len() == 11);
    }
    if *method == String::from_str("get_attack") {
        if args.len() != 0 {
            return Err(CallError::WrongArity { expected: 0, got: args.len() });
        }
        Ok(ScriptValue::Int(rpg_attack(c)))
    } else if *method == String::from_str("test") {
        if args.len() != 0 {
            return Err(CallError::WrongArity { expected: 0, got: args.len() });
        }
        Ok(ScriptValue::Int(rpg_attack(c)))
    } else if *method == String::from_str("long_method") {
        if args.len() != 5 {
            return Err(CallError::WrongArity { expected: 5, got: args.len() });
        }
        Ok(ScriptValue::Text(String::from_str("")))
    } else {
        Err(CallError::NoSuchMethod)
    }
}

} // verus!
