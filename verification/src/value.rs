use vstd::prelude::*;

use crate::types::TypeShape;

verus! {

/// A structured value at the native/script boundary, as the library models
/// it: the data a script can hand over or receive. Numeric script values are
/// carried as whole numbers.
#[derive(Debug)]
pub enum ScriptValue {
    /// The absent value.
    Nil,
    /// A truth value.
    Boolean(bool),
    /// A whole number.
    Int(i64),
    /// A text value.
    Text(String),
    /// An ordered sequence of values.
    List(Vec<ScriptValue>),
    /// A keyed collection of values, in insertion order.
    Table(Vec<(String, ScriptValue)>),
}

/// The mathematical shape of a `ScriptValue`.
pub enum ValueShape {
    Nil,
    Boolean(bool),
    Int(int),
    Text(Seq<char>),
    List(Seq<ValueShape>),
    Table(Seq<(Seq<char>, ValueShape)>),
}

/// The shape of one script value.
pub open spec fn value_shape(v: ScriptValue) -> ValueShape
    decreases v,
{
    match v {
        ScriptValue::Nil => ValueShape::Nil,
        ScriptValue::Boolean(b) => ValueShape::Boolean(b),
        ScriptValue::Int(n) => ValueShape::Int(n as int),
        ScriptValue::Text(s) => ValueShape::Text(s@),
        ScriptValue::List(items) => ValueShape::List(shapes_of_values(items@)),
        ScriptValue::Table(entries) => ValueShape::Table(shapes_of_entries(entries@)),
    }
}

/// The shapes of a list of script values, in order.
pub open spec fn shapes_of_values(vs: Seq<ScriptValue>) -> Seq<ValueShape>
    decreases vs,
{
    Seq::new(
        vs.len(),
        |i: int|
            if 0 <= i < vs.len() {
                value_shape(vs[i])
            } else {
                ValueShape::Nil
            },
    )
}

/// The shapes of a list of keyed script values, keys kept, in order.
pub open spec fn shapes_of_entries(es: Seq<(String, ScriptValue)>) -> Seq<(Seq<char>, ValueShape)>
    decreases es,
{
    Seq::new(
        es.len(),
        |i: int|
            if 0 <= i < es.len() {
                (es[i].0@, value_shape(es[i].1))
            } else {
                (Seq::empty(), ValueShape::Nil)
            },
    )
}

impl View for ScriptValue {
    type V = ValueShape;

    open spec fn view(&self) -> ValueShape {
        value_shape(*self)
    }
}

impl DeepView for ScriptValue {
    type V = ValueShape;

    open spec fn deep_view(&self) -> ValueShape {
        self@
    }
}

/// The type tag of a value shape, as named in conversion errors.
pub open spec fn tag_of(v: ValueShape) -> Seq<char> {
    match v {
        ValueShape::Nil => "nil"@,
        ValueShape::Boolean(_) => "boolean"@,
        ValueShape::Int(_) => "integer"@,
        ValueShape::Text(_) => "string"@,
        ValueShape::List(_) => "list"@,
        ValueShape::Table(_) => "table"@,
    }
}

/// The type tag of a value, as named in conversion errors.
pub fn type_tag(v: &ScriptValue) -> (r: &'static str)
    ensures
        r@ == tag_of(v@),
{
    match v {
        ScriptValue::Nil => "nil",
        ScriptValue::Boolean(_) => "boolean",
        ScriptValue::Int(_) => "integer",
        ScriptValue::Text(_) => "string",
        ScriptValue::List(_) => "list",
        ScriptValue::Table(_) => "table",
    }
}

/// The value under the first entry of a table carrying the given key, if any.
pub open spec fn table_lookup(es: Seq<(Seq<char>, ValueShape)>, key: Seq<char>) -> Option<
    ValueShape,
>
    decreases es.len(),
{
    if es.len() == 0 {
        None
    } else if es[0].0 == key {
        Some(es[0].1)
    } else {
        table_lookup(es.drop_first(), key)
    }
}

/// Whether a value conforms to a type shape. Numeric primitives accept whole
/// numbers; tuples require elementwise conformance in order; records require
/// every declared field to be present under its name with a conforming
/// value. Function types describe behaviour, not data, so no value conforms
/// to them.
pub open spec fn value_matches(v: ValueShape, t: TypeShape) -> bool
    decreases t, 0int,
{
    match t {
        TypeShape::Primitive { kind } => v is Int,
        TypeShape::Text => v is Text,
        TypeShape::Boolean => v is Boolean,
        TypeShape::Tuple { elems } => match v {
            ValueShape::List(items) => values_match_list(items, elems),
            _ => false,
        },
        TypeShape::Record { name, fields } => match v {
            ValueShape::Table(entries) => fields_match(entries, fields),
            _ => false,
        },
        TypeShape::Function { params, returns } => false,
    }
}

/// Elementwise conformance of a list of values to a list of tuple slots, in
/// order.
pub open spec fn values_match_list(items: Seq<ValueShape>, elems: Seq<TypeShape>) -> bool
    decreases elems, 1int,
{
    if items.len() != elems.len() {
        false
    } else if elems.len() == 0 {
        true
    } else {
        value_matches(items[0], elems[0]) && values_match_list(
            items.drop_first(),
            elems.drop_first(),
        )
    }
}

/// Every named field is present in the table with a conforming value.
pub open spec fn fields_match(
    entries: Seq<(Seq<char>, ValueShape)>,
    fields: Seq<(Seq<char>, TypeShape)>,
) -> bool
    decreases fields, 1int,
{
    if fields.len() == 0 {
        true
    } else {
        field_matched(entries, fields[0].0, fields[0].1) && fields_match(
            entries,
            fields.drop_first(),
        )
    }
}

/// A field is matched in a table when an entry under its name exists and
/// conforms to its type.
pub open spec fn field_matched(
    entries: Seq<(Seq<char>, ValueShape)>,
    name: Seq<char>,
    t: TypeShape,
) -> bool
    decreases t, 1int,
{
    match table_lookup(entries, name) {
        Some(w) => value_matches(w, t),
        None => false,
    }
}

/// Elementwise characterization of `values_match_list`: it holds exactly
/// when the lengths agree and each element conforms to its slot.
pub proof fn lemma_values_match_list_iff(items: Seq<ValueShape>, elems: Seq<TypeShape>)
    ensures
        values_match_list(items, elems) <==> (items.len() == elems.len() && forall|i: int|
            0 <= i < elems.len() ==> #[trigger] value_matches(items[i], elems[i])),
    decreases elems.len(),
{
    if items.len() == elems.len() && elems.len() > 0 {
        lemma_values_match_list_iff(items.drop_first(), elems.drop_first());
        if value_matches(items[0], elems[0]) && (forall|i: int|
            0 <= i < elems.drop_first().len() ==> #[trigger] value_matches(
                items.drop_first()[i],
                elems.drop_first()[i],
            )) {
            assert forall|i: int| 0 <= i < elems.len() implies #[trigger] value_matches(
                items[i],
                elems[i],
            ) by {
                if i > 0 {
                    assert(value_matches(items.drop_first()[i - 1], elems.drop_first()[i - 1]));
                }
            }
        }
        if (forall|i: int| 0 <= i < elems.len() ==> #[trigger] value_matches(items[i], elems[i])) {
            assert forall|i: int| 0 <= i < elems.drop_first().len() implies #[trigger] value_matches(
                items.drop_first()[i],
                elems.drop_first()[i],
            ) by {
                assert(value_matches(items[i + 1], elems[i + 1]));
            }
        }
    }
}

/// Fieldwise characterization of `fields_match`: it holds exactly when every
/// field is matched in the table.
pub proof fn lemma_fields_match_iff(
    entries: Seq<(Seq<char>, ValueShape)>,
    fields: Seq<(Seq<char>, TypeShape)>,
)
    ensures
        fields_match(entries, fields) <==> (forall|i: int|
            0 <= i < fields.len() ==> #[trigger] field_matched(entries, fields[i].0, fields[i].1)),
    decreases fields.len(),
{
    if fields.len() > 0 {
        lemma_fields_match_iff(entries, fields.drop_first());
        if field_matched(entries, fields[0].0, fields[0].1) && (forall|i: int|
            0 <= i < fields.drop_first().len() ==> #[trigger] field_matched(
                entries,
                fields.drop_first()[i].0,
                fields.drop_first()[i].1,
            )) {
            assert forall|i: int| 0 <= i < fields.len() implies #[trigger] field_matched(
                entries,
                fields[i].0,
                fields[i].1,
            ) by {
                if i > 0 {
                    assert(field_matched(
                        entries,
                        fields.drop_first()[i - 1].0,
                        fields.drop_first()[i - 1].1,
                    ));
                }
            }
        }
        if (forall|i: int|
            0 <= i < fields.len() ==> #[trigger] field_matched(entries, fields[i].0, fields[i].1)) {
            assert forall|i: int| 0 <= i < fields.drop_first().len() implies #[trigger] field_matched(
                entries,
                fields.drop_first()[i].0,
                fields.drop_first()[i].1,
            ) by {
                assert(field_matched(entries, fields[i + 1].0, fields[i + 1].1));
            }
        }
    }
}

} // verus!
