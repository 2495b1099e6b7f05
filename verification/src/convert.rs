use vstd::prelude::*;
use vstd::string::StringExecFns;

use crate::specs::{UserTypeShape, UserTypeSpec};
use crate::types::{TypeDescriptor, TypeShape};
use crate::value::{
    field_matched, fields_match, lemma_fields_match_iff, lemma_values_match_list_iff,
    shapes_of_entries, table_lookup, tag_of, type_tag, value_matches, values_match_list,
    ScriptValue, ValueShape,
};

verus! {

/// A failure to convert a script-side value to a native type: the source
/// value's type tag, the target type's name, and a message naming what was
/// wrong. Returned to the caller, never raised as a panic.
pub struct ConversionError {
    pub from: String,
    pub to: String,
    pub message: String,
}

/// The mathematical content of a `ConversionError`.
pub struct ConversionErrorShape {
    pub from: Seq<char>,
    pub to: Seq<char>,
    pub message: Seq<char>,
}

impl View for ConversionError {
    type V = ConversionErrorShape;

    open spec fn view(&self) -> ConversionErrorShape {
        ConversionErrorShape { from: self.from@, to: self.to@, message: self.message@ }
    }
}

/// The message of a conversion that was handed a value of the wrong overall
/// kind for the target record.
pub open spec fn not_a_record_message(tag: Seq<char>) -> Seq<char> {
    "cannot convert "@ + tag + " to record"@
}

/// The message of a conversion that found a required field absent.
pub open spec fn missing_field_message(name: Seq<char>) -> Seq<char> {
    "missing required field: "@ + name
}

/// The message of a conversion that found a field present but of the wrong
/// shape.
pub open spec fn wrong_shape_message(name: Seq<char>) -> Seq<char> {
    "field has the wrong shape: "@ + name
}

/// A native instance of a user type: the type's name and one value per
/// declared field, in declaration order.
pub struct Instance {
    pub ty_name: String,
    pub values: Vec<(String, ScriptValue)>,
}

/// The mathematical content of an `Instance`.
pub struct InstanceShape {
    pub ty_name: Seq<char>,
    pub values: Seq<(Seq<char>, ValueShape)>,
}

impl View for Instance {
    type V = InstanceShape;

    open spec fn view(&self) -> InstanceShape {
        InstanceShape { ty_name: self.ty_name@, values: shapes_of_entries(self.values@) }
    }
}

/// A script value can be converted to an instance of a user type exactly
/// when it is a table in which every declared field is present under its
/// name with a conforming value.
pub open spec fn record_convertible(t: UserTypeShape, v: ValueShape) -> bool {
    &&& v is Table
    &&& forall|i: int|
        0 <= i < t.fields.len() ==> #[trigger] field_matched(
            v->Table_0,
            t.fields[i].name,
            t.fields[i].ty,
        )
}

/// A deep copy of a script value.
pub fn clone_value(v: &ScriptValue) -> (r: ScriptValue)
    ensures
        r@ == v@,
    decreases *v,
{
    match v {
        ScriptValue::Nil => ScriptValue::Nil,
        ScriptValue::Boolean(b) => ScriptValue::Boolean(*b),
        ScriptValue::Int(n) => ScriptValue::Int(*n),
        ScriptValue::Text(s) => ScriptValue::Text(s.clone()),
        ScriptValue::List(items) => ScriptValue::List(clone_values(items)),
        ScriptValue::Table(entries) => ScriptValue::Table(clone_entries(entries)),
    }
}

/// A deep copy of a list of script values.
fn clone_values(items: &Vec<ScriptValue>) -> (r: Vec<ScriptValue>)
    ensures
        crate::value::shapes_of_values(r@) == crate::value::shapes_of_values(items@),
    decreases items@,
{
    let mut out: Vec<ScriptValue> = Vec::new();
    let mut i: usize = 0;
    while i < items.len()
        invariant
            i <= items.len(),
            out@.len() == i,
            forall|k: int| 0 <= k < i ==> #[trigger] out@[k]@ == items@[k]@,
        decreases items.len() - i,
    {
        out.push(clone_value(&items[i]));
        i += 1;
    }
    proof {
        let os = crate::value::shapes_of_values(out@);
        let vs = crate::value::shapes_of_values(items@);
        assert forall|k: int| 0 <= k < os.len() implies os[k] == vs[k] by {
            assert(out@[k]@ == items@[k]@);
        }
        assert(os =~= vs);
    }
    out
}

/// A deep copy of a list of keyed script values.
fn clone_entries(entries: &Vec<(String, ScriptValue)>) -> (r: Vec<(String, ScriptValue)>)
    ensures
        shapes_of_entries(r@) == shapes_of_entries(entries@),
    decreases entries@,
{
    let mut out: Vec<(String, ScriptValue)> = Vec::new();
    let mut i: usize = 0;
    while i < entries.len()
        invariant
            i <= entries.len(),
            out@.len() == i,
            forall|k: int|
                0 <= k < i ==> #[trigger] out@[k].0@ == entries@[k].0@ && out@[k].1@
                    == entries@[k].1@,
        decreases entries.len() - i,
    {
        let key = entries[i].0.clone();
        let val = clone_value(&entries[i].1);
        out.push((key, val));
        i += 1;
    }
    proof {
        let os = shapes_of_entries(out@);
        let vs = shapes_of_entries(entries@);
        assert forall|k: int| 0 <= k < os.len() implies os[k] == vs[k] by {
            assert(out@[k].0@ == entries@[k].0@ && out@[k].1@ == entries@[k].1@);
        }
        assert(os =~= vs);
    }
    out
}

/// The first entry of a table under the given key, if any, searching from
/// position `i`.
fn lookup_entry_from<'a>(entries: &'a Vec<(String, ScriptValue)>, key: &String, i: usize) -> (r:
    Option<&'a ScriptValue>)
    requires
        i <= entries.len(),
    ensures
        match r {
            Some(w) => table_lookup(shapes_of_entries(entries@).skip(i as int), key@) == Some(w@),
            None => table_lookup(shapes_of_entries(entries@).skip(i as int), key@) is None,
        },
    decreases entries.len() - i,
{
    let ghost shapes = shapes_of_entries(entries@);
    if i == entries.len() {
        proof {
            assert(shapes.skip(i as int) =~= Seq::empty());
        }
        None
    } else if entries[i].0 == *key {
        proof {
            assert(shapes.skip(i as int)[0] == shapes[i as int]);
        }
        Some(&entries[i].1)
    } else {
        let r = lookup_entry_from(entries, key, i + 1);
        proof {
            assert(shapes.skip(i as int)[0] == shapes[i as int]);
            assert(shapes.skip(i as int).drop_first() =~= shapes.skip(i + 1));
        }
        r
    }
}

/// The first entry of a table under the given key, if any.
pub fn lookup_entry<'a>(entries: &'a Vec<(String, ScriptValue)>, key: &String) -> (r: Option<
    &'a ScriptValue,
>)
    ensures
        match r {
            Some(w) => table_lookup(shapes_of_entries(entries@), key@) == Some(w@),
            None => table_lookup(shapes_of_entries(entries@), key@) is None,
        },
{
    proof {
        assert(shapes_of_entries(entries@).skip(0) =~= shapes_of_entries(entries@));
    }
    lookup_entry_from(entries, key, 0)
}

/// Decides whether a value conforms to a type descriptor.
pub fn check_value(v: &ScriptValue, t: &TypeDescriptor) -> (r: bool)
    ensures
        r == value_matches(v@, t@),
    decreases *t,
{
    match t {
        TypeDescriptor::Primitive { kind } => match v {
            ScriptValue::Int(_) => true,
            _ => false,
        },
        TypeDescriptor::Text => match v {
            ScriptValue::Text(_) => true,
            _ => false,
        },
        TypeDescriptor::Boolean => match v {
            ScriptValue::Boolean(_) => true,
            _ => false,
        },
        TypeDescriptor::Tuple { elems } => match v {
            ScriptValue::List(items) => check_values_list(items, elems),
            _ => false,
        },
        TypeDescriptor::Record { name, fields } => match v {
            ScriptValue::Table(entries) => check_record_fields(entries, fields),
            _ => false,
        },
        TypeDescriptor::Function { params, returns } => false,
    }
}

/// Decides elementwise conformance of a list of values to a list of tuple
/// slots.
fn check_values_list(items: &Vec<ScriptValue>, elems: &Vec<TypeDescriptor>) -> (r: bool)
    ensures
        r == values_match_list(
            crate::value::shapes_of_values(items@),
            crate::types::shapes_of_list(elems@),
        ),
    decreases elems@,
{
    let ghost ishapes = crate::value::shapes_of_values(items@);
    let ghost eshapes = crate::types::shapes_of_list(elems@);
    proof {
        lemma_values_match_list_iff(ishapes, eshapes);
    }
    if items.len() != elems.len() {
        return false;
    }
    let mut i: usize = 0;
    while i < elems.len()
        invariant
            i <= elems.len(),
            items@.len() == elems@.len(),
            ishapes == crate::value::shapes_of_values(items@),
            eshapes == crate::types::shapes_of_list(elems@),
            forall|k: int| 0 <= k < i ==> #[trigger] value_matches(ishapes[k], eshapes[k]),
        decreases elems.len() - i,
    {
        if !check_value(&items[i], &elems[i]) {
            proof {
                assert(!value_matches(ishapes[i as int], eshapes[i as int]));
                lemma_values_match_list_iff(ishapes, eshapes);
            }
            return false;
        }
        i += 1;
    }
    proof {
        lemma_values_match_list_iff(ishapes, eshapes);
    }
    true
}

/// Decides whether a table provides every named field with a conforming
/// value.
fn check_record_fields(
    entries: &Vec<(String, ScriptValue)>,
    fields: &Vec<(String, TypeDescriptor)>,
) -> (r: bool)
    ensures
        r == fields_match(shapes_of_entries(entries@), crate::types::shapes_of_named(fields@)),
    decreases fields@,
{
    let ghost eshapes = shapes_of_entries(entries@);
    let ghost fshapes = crate::types::shapes_of_named(fields@);
    proof {
        lemma_fields_match_iff(eshapes, fshapes);
    }
    let mut i: usize = 0;
    while i < fields.len()
        invariant
            i <= fields.len(),
            eshapes == shapes_of_entries(entries@),
            fshapes == crate::types::shapes_of_named(fields@),
            fshapes.len() == fields@.len(),
            forall|k: int|
                0 <= k < i ==> #[trigger] field_matched(eshapes, fshapes[k].0, fshapes[k].1),
        decreases fields.len() - i,
    {
        match lookup_entry(entries, &fields[i].0) {
            None => {
                proof {
                    assert(!field_matched(eshapes, fshapes[i as int].0, fshapes[i as int].1));
                    lemma_fields_match_iff(eshapes, fshapes);
                }
                return false;
            },
            Some(w) => {
                if !check_value(w, &fields[i].1) {
                    proof {
                        assert(!field_matched(eshapes, fshapes[i as int].0, fshapes[i as int].1));
                        lemma_fields_match_iff(eshapes, fshapes);
                    }
                    return false;
                }
            },
        }
        i += 1;
    }
    proof {
        lemma_fields_match_iff(eshapes, fshapes);
    }
    true
}

/// Converts a structured script value to a native instance of the given user
/// type. Succeeds exactly when the value is a table in which every declared
/// field is present under its name with a conforming value; otherwise
/// returns a `ConversionError` naming the source tag, the target type and
/// the first failure, and never panics and never fills a field with a
/// default.
pub fn instance_from_value(t: &UserTypeSpec, v: &ScriptValue) -> (r: Result<
    Instance,
    ConversionError,
>)
    ensures
        r is Ok <==> record_convertible(t@, v@),
        r matches Ok(inst) ==> {
            &&& inst@.ty_name == t@.name
            &&& inst@.values.len() == t@.fields.len()
            &&& forall|i: int|
                0 <= i < t@.fields.len() ==> #[trigger] inst@.values[i].0 == t@.fields[i].name
                    && table_lookup(v@->Table_0, t@.fields[i].name) == Some(inst@.values[i].1)
        },
        r matches Err(e) ==> e@.to == t@.name && e@.from == tag_of(v@),
        r matches Err(e) ==> (!(v@ is Table) ==> e@.message == not_a_record_message(tag_of(v@))),
        r matches Err(e) ==> (v@ is Table ==> exists|i: int|
            {
                &&& 0 <= i < t@.fields.len()
                &&& !(#[trigger] field_matched(v@->Table_0, t@.fields[i].name, t@.fields[i].ty))
                &&& forall|j: int|
                    0 <= j < i ==> #[trigger] field_matched(
                        v@->Table_0,
                        t@.fields[j].name,
                        t@.fields[j].ty,
                    )
                &&& e@.message == if table_lookup(v@->Table_0, t@.fields[i].name) is None {
                    missing_field_message(t@.fields[i].name)
                } else {
                    wrong_shape_message(t@.fields[i].name)
                }
            }),
{
    let entries = match v {
        ScriptValue::Table(entries) => entries,
        _ => {
            let tag = type_tag(v);
            return Err(
                ConversionError {
                    from: String::from_str(tag),
                    to: t.name.clone(),
                    message: String::from_str("cannot convert ").concat(tag).concat(" to record"),
                },
            );
        },
    };
    let ghost eshapes = shapes_of_entries(entries@);
    let mut values: Vec<(String, ScriptValue)> = Vec::new();
    let mut i: usize = 0;
    while i < t.fields.len()
        invariant
            i <= t.fields.len(),
            eshapes == shapes_of_entries(entries@),
            v@ == ValueShape::Table(eshapes),
            t@.fields.len() == t.fields@.len(),
            values@.len() == i,
            forall|k: int|
                0 <= k < i ==> #[trigger] field_matched(eshapes, t@.fields[k].name, t@.fields[k].ty),
            forall|k: int|
                0 <= k < i ==> #[trigger] values@[k].0@ == t@.fields[k].name && table_lookup(
                    eshapes,
                    t@.fields[k].name,
                ) == Some(values@[k].1@),
        decreases t.fields.len() - i,
    {
        let field = &t.fields[i];
        match lookup_entry(entries, &field.name) {
            None => {
                proof {
                    assert(!field_matched(eshapes, t@.fields[i as int].name, t@.fields[i as int].ty));
                }
                return Err(
                    ConversionError {
                        from: String::from_str("table"),
                        to: t.name.clone(),
                        message: String::from_str("missing required field: ").concat(
                            field.name.as_str(),
                        ),
                    },
                );
            },
            Some(w) => {
                if !check_value(w, &field.ty) {
                    proof {
                        assert(!field_matched(eshapes, t@.fields[i as int].name, t@.fields[i as int].ty));
                    }
                    return Err(
                        ConversionError {
                            from: String::from_str("table"),
                            to: t.name.clone(),
                            message: String::from_str("field has the wrong shape: ").concat(
                                field.name.as_str(),
                            ),
                        },
                    );
                }
                values.push((field.name.clone(), clone_value(w)));
                proof {
                    assert(t@.fields[i as int] == t.fields@[i as int]@);
                    assert(field_matched(eshapes, t@.fields[i as int].name, t@.fields[i as int].ty));
                    assert(values@[i as int].0@ == t@.fields[i as int].name);
                    assert(table_lookup(eshapes, t@.fields[i as int].name) == Some(
                        values@[i as int].1@,
                    ));
                }
            },
        }
        i += 1;
    }
    let inst = Instance { ty_name: t.name.clone(), values };
    proof {
        assert(forall|k: int|
            0 <= k < t@.fields.len() ==> #[trigger] inst@.values[k].0 == t@.fields[k].name
                && table_lookup(eshapes, t@.fields[k].name) == Some(inst@.values[k].1));
    }
    Ok(inst)
}

} // verus!
