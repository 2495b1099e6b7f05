use vstd::prelude::*;

verus! {

/// The kind of a primitive numeric scripting type.
#[derive(Clone, Copy, Debug, PartialEq, Eq, Structural)]
pub enum PrimKind {
    /// A whole number.
    Integer,
    /// A general numeric value.
    Number,
}

/// Structural description of a scriptable type.
///
/// Composite descriptors (`Tuple`, `Function`) nest to arbitrary depth, and
/// element order inside them is significant and preserved. Equality of
/// descriptors is value equality of their shapes, never identity.
#[derive(Debug)]
pub enum TypeDescriptor {
    /// A primitive numeric type.
    Primitive { kind: PrimKind },
    /// A textual type.
    Text,
    /// A truth value.
    Boolean,
    /// A fixed-length ordered sequence of element types.
    Tuple { elems: Vec<TypeDescriptor> },
    /// A named record with ordered, named fields.
    Record { name: String, fields: Vec<(String, TypeDescriptor)> },
    /// A function signature: named parameters and ordered return slots.
    Function { params: Vec<(String, TypeDescriptor)>, returns: Vec<TypeDescriptor> },
}

/// The mathematical shape of a `TypeDescriptor`: the same tree with strings
/// and vectors replaced by their abstract sequences. Contracts speak of
/// shapes, so that two descriptors are interchangeable exactly when their
/// shapes coincide.
pub enum TypeShape {
    Primitive { kind: PrimKind },
    Text,
    Boolean,
    Tuple { elems: Seq<TypeShape> },
    Record { name: Seq<char>, fields: Seq<(Seq<char>, TypeShape)> },
    Function { params: Seq<(Seq<char>, TypeShape)>, returns: Seq<TypeShape> },
}

/// The shape of one descriptor.
pub open spec fn type_shape(t: TypeDescriptor) -> TypeShape
    decreases t,
{
    match t {
        TypeDescriptor::Primitive { kind } => TypeShape::Primitive { kind },
        TypeDescriptor::Text => TypeShape::Text,
        TypeDescriptor::Boolean => TypeShape::Boolean,
        TypeDescriptor::Tuple { elems } => TypeShape::Tuple { elems: shapes_of_list(elems@) },
        TypeDescriptor::Record { name, fields } => TypeShape::Record {
            name: name@,
            fields: shapes_of_named(fields@),
        },
        TypeDescriptor::Function { params, returns } => TypeShape::Function {
            params: shapes_of_named(params@),
            returns: shapes_of_list(returns@),
        },
    }
}

/// The shapes of a list of descriptors, in order.
pub open spec fn shapes_of_list(ts: Seq<TypeDescriptor>) -> Seq<TypeShape>
    decreases ts,
{
    Seq::new(
        ts.len(),
        |i: int|
            if 0 <= i < ts.len() {
                type_shape(ts[i])
            } else {
                TypeShape::Text
            },
    )
}

/// The shapes of a list of named descriptors, names kept, in order.
pub open spec fn shapes_of_named(ts: Seq<(String, TypeDescriptor)>) -> Seq<(Seq<char>, TypeShape)>
    decreases ts,
{
    Seq::new(
        ts.len(),
        |i: int|
            if 0 <= i < ts.len() {
                (ts[i].0@, type_shape(ts[i].1))
            } else {
                (Seq::empty(), TypeShape::Text)
            },
    )
}

impl View for TypeDescriptor {
    type V = TypeShape;

    open spec fn view(&self) -> TypeShape {
        type_shape(*self)
    }
}

/// Builds the descriptor of the integer primitive.
pub fn integer() -> (t: TypeDescriptor)
    ensures
        t@ == (TypeShape::Primitive { kind: PrimKind::Integer }),
{
    TypeDescriptor::Primitive { kind: PrimKind::Integer }
}

/// Builds the descriptor of the general numeric primitive.
pub fn number() -> (t: TypeDescriptor)
    ensures
        t@ == (TypeShape::Primitive { kind: PrimKind::Number }),
{
    TypeDescriptor::Primitive { kind: PrimKind::Number }
}

/// Builds the descriptor of the textual type.
pub fn text() -> (t: TypeDescriptor)
    ensures
        t@ == TypeShape::Text,
{
    TypeDescriptor::Text
}

/// Builds the descriptor of the truth-value type.
pub fn boolean() -> (t: TypeDescriptor)
    ensures
        t@ == TypeShape::Boolean,
{
    TypeDescriptor::Boolean
}

/// Builds a tuple descriptor from its element descriptors, keeping order.
pub fn tuple(elems: Vec<TypeDescriptor>) -> (t: TypeDescriptor)
    ensures
        t@ == (TypeShape::Tuple { elems: shapes_of_list(elems@) }),
{
    TypeDescriptor::Tuple { elems }
}

/// Builds a record descriptor from its name and named field descriptors.
pub fn record(name: String, fields: Vec<(String, TypeDescriptor)>) -> (t: TypeDescriptor)
    ensures
        t@ == (TypeShape::Record { name: name@, fields: shapes_of_named(fields@) }),
{
    TypeDescriptor::Record { name, fields }
}

/// Builds a function-signature descriptor from named parameters and return slots.
pub fn function(
    params: Vec<(String, TypeDescriptor)>,
    returns: Vec<TypeDescriptor>,
) -> (t: TypeDescriptor)
    ensures
        t@ == (TypeShape::Function { params: shapes_of_named(params@), returns: shapes_of_list(returns@) }),
{
    TypeDescriptor::Function { params, returns }
}

/// Decides structural equality of two descriptors: true exactly when their
/// shapes coincide.
pub fn type_eq(a: &TypeDescriptor, b: &TypeDescriptor) -> (r: bool)
    ensures
        r == (a@ == b@),
    decreases *a,
{
    match (a, b) {
        (TypeDescriptor::Primitive { kind: ka }, TypeDescriptor::Primitive { kind: kb }) => ka
            == kb,
        (TypeDescriptor::Text, TypeDescriptor::Text) => true,
        (TypeDescriptor::Boolean, TypeDescriptor::Boolean) => true,
        (TypeDescriptor::Tuple { elems: ea }, TypeDescriptor::Tuple { elems: eb }) => list_eq(
            ea,
            eb,
        ),
        (
            TypeDescriptor::Record { name: na, fields: fa },
            TypeDescriptor::Record { name: nb, fields: fb },
        ) => *na == *nb && named_eq(fa, fb),
        (
            TypeDescriptor::Function { params: pa, returns: ra },
            TypeDescriptor::Function { params: pb, returns: rb },
        ) => named_eq(pa, pb) && list_eq(ra, rb),
        _ => false,
    }
}

/// Decides elementwise structural equality of two descriptor lists.
fn list_eq(a: &Vec<TypeDescriptor>, b: &Vec<TypeDescriptor>) -> (r: bool)
    ensures
        r == (shapes_of_list(a@) == shapes_of_list(b@)),
    decreases a@,
{
    if a.len() != b.len() {
        proof {
            assert(shapes_of_list(a@).len() != shapes_of_list(b@).len());
        }
        return false;
    }
    let mut i: usize = 0;
    while i < a.len()
        invariant
            i <= a.len(),
            a@.len() == b@.len(),
            forall|k: int| 0 <= k < i ==> type_shape(a@[k]) == type_shape(b@[k]),
        decreases a.len() - i,
    {
        if !type_eq(&a[i], &b[i]) {
            proof {
                assert(shapes_of_list(a@)[i as int] != shapes_of_list(b@)[i as int]);
            }
            return false;
        }
        i += 1;
    }
    proof {
        assert(shapes_of_list(a@) =~= shapes_of_list(b@));
    }
    true
}

/// Decides elementwise structural equality of two named-descriptor lists.
fn named_eq(a: &Vec<(String, TypeDescriptor)>, b: &Vec<(String, TypeDescriptor)>) -> (r: bool)
    ensures
        r == (shapes_of_named(a@) == shapes_of_named(b@)),
    decreases a@,
{
    if a.len() != b.len() {
        proof {
            assert(shapes_of_named(a@).len() != shapes_of_named(b@).len());
        }
        return false;
    }
    let mut i: usize = 0;
    while i < a.len()
        invariant
            i <= a.len(),
            a@.len() == b@.len(),
            forall|k: int|
                0 <= k < i ==> a@[k].0@ == b@[k].0@ && type_shape(a@[k].1) == type_shape(b@[k].1),
        decreases a.len() - i,
    {
        let same_name = a[i].0 == b[i].0;
        if !(same_name && type_eq(&a[i].1, &b[i].1)) {
            proof {
                assert(shapes_of_named(a@)[i as int] != shapes_of_named(b@)[i as int]);
            }
            return false;
        }
        i += 1;
    }
    proof {
        assert(shapes_of_named(a@) =~= shapes_of_named(b@));
    }
    true
}

impl PartialEq for TypeDescriptor {
    /// `==` on descriptors is structural equality of shapes.
    fn eq(&self, other: &TypeDescriptor) -> bool {
        type_eq(self, other)
    }
}

impl vstd::std_specs::cmp::PartialEqSpecImpl for TypeDescriptor {
    open spec fn obeys_eq_spec() -> bool {
        true
    }

    open spec fn eq_spec(&self, other: &TypeDescriptor) -> bool {
        self@ == other@
    }
}

/// Structural equality law for composite shapes: two tuple shapes are equal
/// exactly when they have the same length and equal elements at every
/// position.
pub proof fn lemma_tuple_shape_structural(xs: Seq<TypeShape>, ys: Seq<TypeShape>)
    ensures
        (TypeShape::Tuple { elems: xs } == TypeShape::Tuple { elems: ys }) <==> (xs.len()
            == ys.len() && forall|i: int| 0 <= i < xs.len() ==> xs[i] == ys[i]),
{
    if xs.len() == ys.len() && forall|i: int| 0 <= i < xs.len() ==> xs[i] == ys[i] {
        assert(xs =~= ys);
    }
}

/// Structural equality law for record shapes: equal exactly when the names
/// coincide and the field lists agree pointwise.
pub proof fn lemma_record_shape_structural(
    n1: Seq<char>,
    fs1: Seq<(Seq<char>, TypeShape)>,
    n2: Seq<char>,
    fs2: Seq<(Seq<char>, TypeShape)>,
)
    ensures
        (TypeShape::Record { name: n1, fields: fs1 } == TypeShape::Record {
            name: n2,
            fields: fs2,
        }) <==> (n1 == n2 && fs1.len() == fs2.len() && forall|i: int|
            0 <= i < fs1.len() ==> fs1[i] == fs2[i]),
{
    if n1 == n2 && fs1.len() == fs2.len() && forall|i: int| 0 <= i < fs1.len() ==> fs1[i]
        == fs2[i] {
        assert(fs1 =~= fs2);
    }
}

} // verus!
