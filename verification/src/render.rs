use vstd::prelude::*;
use vstd::string::StringExecFns;

use crate::convert::{Instance, InstanceShape};
use crate::specs::UserTypeShape;
use crate::value::table_lookup;
use crate::value::{ScriptValue, ValueShape};

verus! {

/// The one-character text of a decimal digit.
pub open spec fn digit_seq(d: int) -> Seq<char> {
    if d == 0 {
        "0"@
    } else if d == 1 {
        "1"@
    } else if d == 2 {
        "2"@
    } else if d == 3 {
        "3"@
    } else if d == 4 {
        "4"@
    } else if d == 5 {
        "5"@
    } else if d == 6 {
        "6"@
    } else if d == 7 {
        "7"@
    } else if d == 8 {
        "8"@
    } else {
        "9"@
    }
}

/// The decimal text of a natural number, most significant digit first.
pub open spec fn dec_nat(n: nat) -> Seq<char>
    decreases n,
{
    if n < 10 {
        digit_seq(n as int)
    } else {
        dec_nat(n / 10) + digit_seq((n % 10) as int)
    }
}

/// The decimal text of an integer: a leading minus sign when negative.
pub open spec fn dec_int(n: int) -> Seq<char> {
    if n < 0 {
        "-"@ + dec_nat((-n) as nat)
    } else {
        dec_nat(n as nat)
    }
}

/// The text of one decimal digit.
fn digit_text(d: u64) -> (r: &'static str)
    requires
        d < 10,
    ensures
        r@ == digit_seq(d as int),
{
    if d == 0 {
        "0"
    } else if d == 1 {
        "1"
    } else if d == 2 {
        "2"
    } else if d == 3 {
        "3"
    } else if d == 4 {
        "4"
    } else if d == 5 {
        "5"
    } else if d == 6 {
        "6"
    } else if d == 7 {
        "7"
    } else if d == 8 {
        "8"
    } else {
        "9"
    }
}

/// The decimal text of a natural number.
fn nat_text(m: u64) -> (s: String)
    ensures
        s@ == dec_nat(m as nat),
    decreases m,
{
    if m < 10 {
        String::from_str(digit_text(m))
    } else {
        let mut s = nat_text(m / 10);
        s.append(digit_text(m % 10));
        s
    }
}

/// The decimal text of a signed whole number.
pub fn int_text(n: i64) -> (s: String)
    ensures
        s@ == dec_int(n as int),
{
    if n >= 0 {
        nat_text(n as u64)
    } else {
        let m: u64 = ((-(n + 1)) as u64) + 1;
        proof {
            assert(m as int == -(n as int));
        }
        let mut s = String::from_str("-");
        s.append(nat_text(m).as_str());
        s
    }
}

/// The deterministic, human-readable text of a value shape.
pub open spec fn value_text(v: ValueShape) -> Seq<char>
    decreases v, 0int,
{
    match v {
        ValueShape::Nil => "nil"@,
        ValueShape::Boolean(b) => if b {
            "true"@
        } else {
            "false"@
        },
        ValueShape::Int(n) => dec_int(n),
        ValueShape::Text(s) => s,
        ValueShape::List(items) => "["@ + values_text(items) + "]"@,
        ValueShape::Table(entries) => "{ "@ + entries_text(entries) + " }"@,
    }
}

/// The comma-separated text of a list of value shapes.
pub open spec fn values_text(items: Seq<ValueShape>) -> Seq<char>
    decreases items, 1int,
{
    if items.len() == 0 {
        Seq::empty()
    } else if items.len() == 1 {
        value_text(items[0])
    } else {
        value_text(items[0]) + ", "@ + values_text(items.drop_first())
    }
}

/// The comma-separated `name = value` text of a list of keyed value shapes.
pub open spec fn entries_text(entries: Seq<(Seq<char>, ValueShape)>) -> Seq<char>
    decreases entries, 1int,
{
    if entries.len() == 0 {
        Seq::empty()
    } else if entries.len() == 1 {
        entry_text(entries[0])
    } else {
        entry_text(entries[0]) + ", "@ + entries_text(entries.drop_first())
    }
}

/// The `name = value` text of one keyed value shape.
pub open spec fn entry_text(e: (Seq<char>, ValueShape)) -> Seq<char>
    decreases e, 2int,
{
    e.0 + " = "@ + value_text(e.1)
}

/// Renders a value as deterministic, human-readable text.
pub fn render_value(v: &ScriptValue) -> (s: String)
    ensures
        s@ == value_text(v@),
    decreases *v,
{
    match v {
        ScriptValue::Nil => String::from_str("nil"),
        ScriptValue::Boolean(b) => if *b {
            String::from_str("true")
        } else {
            String::from_str("false")
        },
        ScriptValue::Int(n) => int_text(*n),
        ScriptValue::Text(t) => t.clone(),
        ScriptValue::List(items) => {
            let mut s = String::from_str("[");
            s.append(render_values(items).as_str());
            s.append("]");
            s
        },
        ScriptValue::Table(entries) => {
            let mut s = String::from_str("{ ");
            s.append(render_entries(entries).as_str());
            s.append(" }");
            s
        },
    }
}

/// Renders a list of values as comma-separated text.
fn render_values(items: &Vec<ScriptValue>) -> (s: String)
    ensures
        s@ == values_text(crate::value::shapes_of_values(items@)),
    decreases items@,
{
    let ghost shapes = crate::value::shapes_of_values(items@);
    let mut s = String::new();
    let mut i: usize = 0;
    while i < items.len()
        invariant
            i <= items.len(),
            shapes == crate::value::shapes_of_values(items@),
            shapes.len() == items@.len(),
            s@ == prefix_values_text(shapes, i as int),
        decreases items.len() - i,
    {
        if i > 0 {
            s.append(", ");
        }
        s.append(render_value(&items[i]).as_str());
        proof {
            assert(s@ =~= prefix_values_text(shapes, i as int + 1));
        }
        i += 1;
    }
    proof {
        lemma_prefix_values_text_all(shapes);
    }
    s
}

/// The comma-separated text of the first `n` value shapes of a list.
pub open spec fn prefix_values_text(items: Seq<ValueShape>, n: int) -> Seq<char>
    decreases n,
{
    if n <= 0 {
        Seq::empty()
    } else if n == 1 {
        value_text(items[0])
    } else {
        prefix_values_text(items, n - 1) + ", "@ + value_text(items[n - 1])
    }
}

/// The full prefix text of a list of value shapes is its text.
proof fn lemma_prefix_values_text_all(items: Seq<ValueShape>)
    ensures
        prefix_values_text(items, items.len() as int) == values_text(items),
    decreases items.len(),
{
    if items.len() > 1 {
        lemma_prefix_values_text_all(items.drop_first());
        lemma_prefix_shift(items, items.len() as int);
    }
}

/// Prefix texts commute with dropping the first element: for `n >= 2`, the
/// prefix text of `n` elements is the first element's text, a separator, and
/// the prefix text of `n - 1` elements of the remainder.
proof fn lemma_prefix_shift(items: Seq<ValueShape>, n: int)
    requires
        2 <= n <= items.len(),
    ensures
        prefix_values_text(items, n) == value_text(items[0]) + ", "@ + prefix_values_text(
            items.drop_first(),
            n - 1,
        ),
    decreases n,
{
    if n == 2 {
        assert(items.drop_first()[0] == items[1]);
        assert(prefix_values_text(items, 1) == value_text(items[0]));
        assert(prefix_values_text(items.drop_first(), 1) == value_text(items.drop_first()[0]));
    } else {
        lemma_prefix_shift(items, n - 1);
        assert(items.drop_first()[n - 2] == items[n - 1]);
        assert((value_text(items[0]) + ", "@ + prefix_values_text(items.drop_first(), n - 2))
            + ", "@ + value_text(items[n - 1]) =~= value_text(items[0]) + ", "@
            + (prefix_values_text(items.drop_first(), n - 2) + ", "@ + value_text(items[n - 1])));
    }
}

/// The comma-separated text of the first `n` keyed value shapes of a table.
pub open spec fn prefix_entries_text(entries: Seq<(Seq<char>, ValueShape)>, n: int) -> Seq<char>
    decreases n,
{
    if n <= 0 {
        Seq::empty()
    } else if n == 1 {
        entry_text(entries[0])
    } else {
        prefix_entries_text(entries, n - 1) + ", "@ + entry_text(entries[n - 1])
    }
}

/// The full prefix text of a table's entries is its text.
proof fn lemma_prefix_entries_text_all(entries: Seq<(Seq<char>, ValueShape)>)
    ensures
        prefix_entries_text(entries, entries.len() as int) == entries_text(entries),
    decreases entries.len(),
{
    if entries.len() > 1 {
        lemma_prefix_entries_text_all(entries.drop_first());
        lemma_prefix_entries_shift(entries, entries.len() as int);
    }
}

/// As `lemma_prefix_shift`, for table entries.
proof fn lemma_prefix_entries_shift(entries: Seq<(Seq<char>, ValueShape)>, n: int)
    requires
        2 <= n <= entries.len(),
    ensures
        prefix_entries_text(entries, n) == entry_text(entries[0]) + ", "@ + prefix_entries_text(
            entries.drop_first(),
            n - 1,
        ),
    decreases n,
{
    if n == 2 {
        assert(entries.drop_first()[0] == entries[1]);
        assert(prefix_entries_text(entries, 1) == entry_text(entries[0]));
        assert(prefix_entries_text(entries.drop_first(), 1) == entry_text(entries.drop_first()[0]));
    } else {
        lemma_prefix_entries_shift(entries, n - 1);
        assert(entries.drop_first()[n - 2] == entries[n - 1]);
        assert((entry_text(entries[0]) + ", "@ + prefix_entries_text(entries.drop_first(), n - 2))
            + ", "@ + entry_text(entries[n - 1]) =~= entry_text(entries[0]) + ", "@
            + (prefix_entries_text(entries.drop_first(), n - 2) + ", "@ + entry_text(
            entries[n - 1],
        )));
    }
}

/// Renders a table's entries as comma-separated `name = value` text.
fn render_entries(entries: &Vec<(String, ScriptValue)>) -> (s: String)
    ensures
        s@ == entries_text(crate::value::shapes_of_entries(entries@)),
    decreases entries@,
{
    let ghost shapes = crate::value::shapes_of_entries(entries@);
    let mut s = String::new();
    let mut i: usize = 0;
    while i < entries.len()
        invariant
            i <= entries.len(),
            shapes == crate::value::shapes_of_entries(entries@),
            shapes.len() == entries@.len(),
            s@ == prefix_entries_text(shapes, i as int),
        decreases entries.len() - i,
    {
        if i > 0 {
            s.append(", ");
        }
        s.append(entries[i].0.as_str());
        s.append(" = ");
        s.append(render_value(&entries[i].1).as_str());
        proof {
            assert(s@ =~= prefix_entries_text(shapes, i as int + 1));
        }
        i += 1;
    }
    proof {
        lemma_prefix_entries_text_all(shapes);
    }
    s
}

/// The deterministic text of a native instance: its type name and every
/// field's current value.
pub open spec fn instance_text(i: InstanceShape) -> Seq<char> {
    i.ty_name + " { "@ + entries_text(i.values) + " }"@
}

/// Renders an instance as deterministic, human-readable text carrying the
/// current value of every field. The scripting environment's
/// string-conversion hook resolves to this rendering.
pub fn instance_to_text(inst: &Instance) -> (s: String)
    ensures
        s@ == instance_text(inst@),
{
    let mut s = inst.ty_name.clone();
    s.append(" { ");
    s.append(render_entries(&inst.values).as_str());
    s.append(" }");
    s
}

/// One sequence occurs inside another.
pub open spec fn contains_seq(hay: Seq<char>, needle: Seq<char>) -> bool {
    exists|k: int|
        0 <= k && k + needle.len() <= hay.len() && #[trigger] hay.subrange(k, k + needle.len())
            == needle
}

/// What a part contains, the whole contains: occurrence survives text added
/// on the right.
pub proof fn lemma_contains_extend_right(a: Seq<char>, b: Seq<char>, needle: Seq<char>)
    requires
        contains_seq(a, needle),
    ensures
        contains_seq(a + b, needle),
{
    let k = choose|k: int|
        0 <= k && k + needle.len() <= a.len() && #[trigger] a.subrange(k, k + needle.len())
            == needle;
    assert((a + b).subrange(k, k + needle.len()) =~= a.subrange(k, k + needle.len()));
}

/// What a part contains, the whole contains: occurrence survives text added
/// on the left.
pub proof fn lemma_contains_extend_left(a: Seq<char>, b: Seq<char>, needle: Seq<char>)
    requires
        contains_seq(b, needle),
    ensures
        contains_seq(a + b, needle),
{
    let k = choose|k: int|
        0 <= k && k + needle.len() <= b.len() && #[trigger] b.subrange(k, k + needle.len())
            == needle;
    assert((a + b).subrange(a.len() + k, a.len() + k + needle.len()) =~= b.subrange(
        k,
        k + needle.len(),
    ));
}

/// A sequence contains itself.
pub proof fn lemma_contains_self(s: Seq<char>)
    ensures
        contains_seq(s, s),
{
    let n: int = 0;
    assert(s.subrange(n, n + s.len()) =~= s);
}

/// The text of a table's entries contains the rendered value of each entry.
proof fn lemma_entries_text_contains(entries: Seq<(Seq<char>, ValueShape)>, k: int)
    requires
        0 <= k < entries.len(),
    ensures
        contains_seq(entries_text(entries), value_text(entries[k].1)),
    decreases k,
{
    if entries.len() == 1 {
        lemma_contains_self(value_text(entries[0].1));
        lemma_contains_extend_left(entries[0].0 + " = "@, value_text(entries[0].1), value_text(entries[0].1));
        assert(entry_text(entries[0]) == (entries[0].0 + " = "@) + value_text(entries[0].1));
        assert(entries_text(entries) == entry_text(entries[0]));
        assert(contains_seq(entries_text(entries), value_text(entries[k].1)));
    } else if k == 0 {
        lemma_contains_self(value_text(entries[0].1));
        lemma_contains_extend_left(entries[0].0 + " = "@, value_text(entries[0].1), value_text(entries[0].1));
        assert(entry_text(entries[0]) == (entries[0].0 + " = "@) + value_text(entries[0].1));
        lemma_contains_extend_right(entry_text(entries[0]), ", "@ + entries_text(entries.drop_first()), value_text(entries[0].1));
        assert(entry_text(entries[0]) + ", "@ + entries_text(entries.drop_first())
            =~= entry_text(entries[0]) + (", "@ + entries_text(entries.drop_first())));
        assert(contains_seq(entries_text(entries), value_text(entries[k].1)));
    } else {
        lemma_entries_text_contains(entries.drop_first(), k - 1);
        assert(entries.drop_first()[k - 1] == entries[k]);
        lemma_contains_extend_left(entry_text(entries[0]) + ", "@, entries_text(entries.drop_first()), value_text(entries[k].1));
        assert(entry_text(entries[0]) + ", "@ + entries_text(entries.drop_first())
            =~= (entry_text(entries[0]) + ", "@) + entries_text(entries.drop_first()));
        assert(contains_seq(entries_text(entries), value_text(entries[k].1)));
    }
}

/// Round-trip rendering law: the text of an instance contains the rendered
/// current value of every one of its fields.
pub proof fn lemma_instance_text_contains_fields(i: InstanceShape, k: int)
    requires
        0 <= k < i.values.len(),
    ensures
        contains_seq(instance_text(i), value_text(i.values[k].1)),
{
    lemma_entries_text_contains(i.values, k);
    lemma_contains_extend_left(" { "@, entries_text(i.values), value_text(i.values[k].1));
    lemma_contains_extend_left(i.ty_name, " { "@ + entries_text(i.values), value_text(i.values[k].1));
    lemma_contains_extend_right(i.ty_name + (" { "@ + entries_text(i.values)), " }"@, value_text(i.values[k].1));
    assert(i.ty_name + " { "@ + entries_text(i.values) + " }"@
        =~= (i.ty_name + (" { "@ + entries_text(i.values))) + " }"@);
}


/// Round-trip law: take a user type and a table in which every declared
/// field is present; convert the table to an instance whose field values are
/// the table's entries; render the instance. The rendering then contains the
/// rendered current value of every declared field.
pub proof fn lemma_round_trip_shows_every_field(
    t: UserTypeShape,
    v: ValueShape,
    inst: InstanceShape,
    s: Seq<char>,
)
    requires
        v is Table,
        inst.values.len() == t.fields.len(),
        forall|i: int|
            0 <= i < t.fields.len() ==> ((#[trigger] t.fields[i]).name == inst.values[i].0
                && table_lookup(v->Table_0, t.fields[i].name) == Some(inst.values[i].1)),
        s == instance_text(inst),
    ensures
        forall|k: int|
            0 <= k < t.fields.len() ==> ((#[trigger] table_lookup(v->Table_0, t.fields[k].name))
                matches Some(w) && contains_seq(s, value_text(w))),
{
    assert forall|k: int|
        0 <= k < t.fields.len() implies ((#[trigger] table_lookup(v->Table_0, t.fields[k].name))
        matches Some(w) && contains_seq(s, value_text(w))) by {
        assert(t.fields[k].name == inst.values[k].0);
        assert(table_lookup(v->Table_0, t.fields[k].name) == Some(inst.values[k].1));
        lemma_instance_text_contains_fields(inst, k);
    }
}

} // verus!
