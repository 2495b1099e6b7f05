use vstd::prelude::*;
use vstd::string::StringExecFns;

use crate::specs::{
    FieldShape, FieldSpec, FunctionShape, FunctionSpec, GroupShape, GroupSpec, MetaOp, ModuleShape,
    ModuleSpec, ParamShape, ParamSpec, Registry, RegistryShape, ReturnShape, ReturnSpec,
    UserTypeShape, UserTypeSpec,
};
use crate::types::{PrimKind, TypeDescriptor, TypeShape};

verus! {

/// A documentation block: one comment line right above the declaration it
/// describes, or nothing at all when no documentation was attached.
pub open spec fn doc_comment(d: Option<Seq<char>>) -> Seq<char> {
    match d {
        Option::None => Seq::empty(),
        Option::Some(t) => "--- "@ + t + "\n"@,
    }
}

/// A trailing documentation fragment on a line, or nothing.
pub open spec fn doc_suffix(d: Option<Seq<char>>) -> Seq<char> {
    match d {
        Option::None => Seq::empty(),
        Option::Some(t) => " "@ + t,
    }
}

/// The stub-language signature of a type shape.
pub open spec fn type_sig(t: TypeShape) -> Seq<char>
    decreases t, 0int,
{
    match t {
        TypeShape::Primitive { kind } => match kind {
            PrimKind::Integer => "integer"@,
            PrimKind::Number => "number"@,
        },
        TypeShape::Text => "string"@,
        TypeShape::Boolean => "boolean"@,
        TypeShape::Tuple { elems } => "["@ + sigs_join(elems, elems.len() as int) + "]"@,
        TypeShape::Record { name, fields } => name,
        TypeShape::Function { params, returns: rets } => "fun("@ + named_sigs_join(
            params,
            params.len() as int,
        ) + ")"@ + if rets.len() == 0 {
            Seq::<char>::empty()
        } else {
            ": "@ + sigs_join(rets, rets.len() as int)
        },
    }
}

/// The comma-separated signatures of the first `n` of a list of type shapes.
pub open spec fn sigs_join(ts: Seq<TypeShape>, n: int) -> Seq<char>
    decreases ts, 1int, n,
{
    if n <= 0 || n > ts.len() {
        Seq::empty()
    } else if n == 1 {
        type_sig(ts[0])
    } else {
        sigs_join(ts, n - 1) + ", "@ + type_sig(ts[n - 1])
    }
}

/// The comma-separated `name: signature` text of the first `n` named type
/// shapes.
pub open spec fn named_sigs_join(ps: Seq<(Seq<char>, TypeShape)>, n: int) -> Seq<char>
    decreases ps, 1int, n,
{
    if n <= 0 || n > ps.len() {
        Seq::empty()
    } else if n == 1 {
        ps[0].0 + ": "@ + type_sig(ps[0].1)
    } else {
        named_sigs_join(ps, n - 1) + ", "@ + (ps[n - 1].0 + ": "@ + type_sig(ps[n - 1].1))
    }
}

/// The annotation line of one parameter.
pub open spec fn param_line(p: ParamShape) -> Seq<char> {
    "--- @param "@ + p.name + " "@ + type_sig(p.ty) + doc_suffix(p.doc) + "\n"@
}

/// The annotation line of one return slot.
pub open spec fn return_line(r: ReturnShape) -> Seq<char> {
    "--- @return "@ + type_sig(r.ty) + doc_suffix(r.doc) + "\n"@
}

/// The annotation lines of the first `n` parameters.
pub open spec fn param_lines(ps: Seq<ParamShape>, n: int) -> Seq<char>
    decreases n,
{
    if n <= 0 {
        Seq::empty()
    } else {
        param_lines(ps, n - 1) + param_line(ps[n - 1])
    }
}

/// The annotation lines of the first `n` return slots.
pub open spec fn return_lines(rs: Seq<ReturnShape>, n: int) -> Seq<char>
    decreases n,
{
    if n <= 0 {
        Seq::empty()
    } else {
        return_lines(rs, n - 1) + return_line(rs[n - 1])
    }
}

/// The comma-separated names of the first `n` parameters.
pub open spec fn param_names_join(ps: Seq<ParamShape>, n: int) -> Seq<char>
    decreases n,
{
    if n <= 0 {
        Seq::empty()
    } else if n == 1 {
        ps[0].name
    } else {
        param_names_join(ps, n - 1) + ", "@ + ps[n - 1].name
    }
}

/// The full stub text of one function declared under an owner: its
/// documentation block immediately above, one line per parameter and return
/// slot, and the declaration itself.
pub open spec fn function_text(owner: Seq<char>, sep: Seq<char>, f: FunctionShape) -> Seq<char> {
    doc_comment(f.doc) + param_lines(f.params, f.params.len() as int) + return_lines(
        f.returns,
        f.returns.len() as int,
    ) + "function "@ + owner + sep + f.name + "("@ + param_names_join(
        f.params,
        f.params.len() as int,
    ) + ") end\n\n"@
}

/// The stub texts of the first `n` functions of an owner.
pub open spec fn functions_text(owner: Seq<char>, sep: Seq<char>, fs: Seq<FunctionShape>, n: int) -> Seq<char>
    decreases n,
{
    if n <= 0 {
        Seq::empty()
    } else {
        functions_text(owner, sep, fs, n - 1) + function_text(owner, sep, fs[n - 1])
    }
}

/// The stub text of one module: its documentation block, its class
/// annotation and declaration, then its functions.
pub open spec fn module_text(m: ModuleShape) -> Seq<char> {
    doc_comment(m.doc) + "--- @class "@ + m.name + "\n"@ + m.name + " = {}\n\n"@ + functions_text(
        m.name,
        "."@,
        m.functions,
        m.functions.len() as int,
    )
}

/// The annotation line of one record field.
pub open spec fn field_line(f: FieldShape) -> Seq<char> {
    doc_comment(f.doc) + "--- @field "@ + f.name + " "@ + type_sig(f.ty) + "\n"@
}

/// The annotation lines of the first `n` record fields.
pub open spec fn field_lines(fs: Seq<FieldShape>, n: int) -> Seq<char>
    decreases n,
{
    if n <= 0 {
        Seq::empty()
    } else {
        field_lines(fs, n - 1) + field_line(fs[n - 1])
    }
}

/// The stub texts of the first `n` metamethods of a type.
pub open spec fn metamethods_text(owner: Seq<char>, ms: Seq<(MetaOp, FunctionShape)>, n: int) -> Seq<char>
    decreases n,
{
    if n <= 0 {
        Seq::empty()
    } else {
        metamethods_text(owner, ms, n - 1) + function_text(owner, ":"@, ms[n - 1].1)
    }
}

/// The stub text of one user type: its documentation block, its class
/// annotation, its field lines, then its methods and metamethods.
pub open spec fn usertype_text(t: UserTypeShape) -> Seq<char> {
    doc_comment(t.doc) + "--- @class "@ + t.name + "\n"@ + field_lines(
        t.fields,
        t.fields.len() as int,
    ) + "\n"@ + functions_text(t.name, ":"@, t.methods, t.methods.len() as int) + metamethods_text(
        t.name,
        t.metamethods,
        t.metamethods.len() as int,
    )
}

/// The stub texts of the first `n` modules of a group.
pub open spec fn modules_text(ms: Seq<ModuleShape>, n: int) -> Seq<char>
    decreases n,
{
    if n <= 0 {
        Seq::empty()
    } else {
        modules_text(ms, n - 1) + module_text(ms[n - 1])
    }
}

/// The stub texts of the first `n` user types of a group.
pub open spec fn types_text(ts: Seq<UserTypeShape>, n: int) -> Seq<char>
    decreases n,
{
    if n <= 0 {
        Seq::empty()
    } else {
        types_text(ts, n - 1) + usertype_text(ts[n - 1])
    }
}

/// The full content of the stub file of one definition group.
pub open spec fn group_text(g: GroupShape) -> Seq<char> {
    "--- @meta\n\n"@ + modules_text(g.modules, g.modules.len() as int) + types_text(
        g.types,
        g.types.len() as int,
    )
}

/// The file name of one definition group's stub file, derived from the
/// group's name alone.
pub open spec fn file_name(name: Seq<char>) -> Seq<char> {
    name + ".d.lua"@
}

/// Everything generation emits for a registry: one `(file name, content)`
/// pair per definition group, in group order, each a function of the
/// registry alone.
pub open spec fn generated(r: RegistryShape) -> Seq<(Seq<char>, Seq<char>)> {
    Seq::new(
        r.groups.len(),
        |i: int|
            if 0 <= i < r.groups.len() {
                (file_name(r.groups[i].name), group_text(r.groups[i]))
            } else {
                (Seq::empty(), Seq::empty())
            },
    )
}

/// Generation is deterministic, so generating twice from an unchanged
/// registry produces byte-identical output.
pub proof fn lemma_generate_idempotent(
    r: RegistryShape,
    out1: Seq<(Seq<char>, Seq<char>)>,
    out2: Seq<(Seq<char>, Seq<char>)>,
)
    requires
        out1 == generated(r),
        out2 == generated(r),
    ensures
        out1 == out2,
{
}

/// Renders the text of a documentation block.
fn doc_comment_text(d: &Option<String>) -> (s: String)
    ensures
        s@ == doc_comment(d.deep_view()),
{
    match d {
        Option::None => String::new(),
        Option::Some(t) => {
            let mut s = String::from_str("--- ");
            s.append(t.as_str());
            s.append("\n");
            s
        },
    }
}

/// Renders the trailing documentation fragment of a line.
fn doc_suffix_text(d: &Option<String>) -> (s: String)
    ensures
        s@ == doc_suffix(d.deep_view()),
{
    match d {
        Option::None => String::new(),
        Option::Some(t) => {
            let mut s = String::from_str(" ");
            s.append(t.as_str());
            s
        },
    }
}

/// Renders the signature of a type descriptor.
pub fn type_sig_text(t: &TypeDescriptor) -> (s: String)
    ensures
        s@ == type_sig(t@),
    decreases *t,
{
    match t {
        TypeDescriptor::Primitive { kind } => match kind {
            PrimKind::Integer => String::from_str("integer"),
            PrimKind::Number => String::from_str("number"),
        },
        TypeDescriptor::Text => String::from_str("string"),
        TypeDescriptor::Boolean => String::from_str("boolean"),
        TypeDescriptor::Tuple { elems } => {
            let mut s = String::from_str("[");
            s.append(sigs_join_text(elems).as_str());
            s.append("]");
            s
        },
        TypeDescriptor::Record { name, fields } => name.clone(),
        TypeDescriptor::Function { params, returns: rets } => {
            let mut s = String::from_str("fun(");
            s.append(named_sigs_join_text(params).as_str());
            s.append(")");
            if rets.len() > 0 {
                s.append(": ");
                s.append(sigs_join_text(rets).as_str());
            }
            s
        },
    }
}

/// Renders the comma-separated signatures of a list of descriptors.
fn sigs_join_text(ts: &Vec<TypeDescriptor>) -> (s: String)
    ensures
        s@ == sigs_join(crate::types::shapes_of_list(ts@), ts@.len() as int),
    decreases ts@,
{
    let ghost shapes = crate::types::shapes_of_list(ts@);
    let mut s = String::new();
    let mut i: usize = 0;
    while i < ts.len()
        invariant
            i <= ts.len(),
            shapes == crate::types::shapes_of_list(ts@),
            shapes.len() == ts@.len(),
            s@ == sigs_join(shapes, i as int),
        decreases ts.len() - i,
    {
        if i > 0 {
            s.append(", ");
        }
        s.append(type_sig_text(&ts[i]).as_str());
        proof {
            assert(s@ =~= sigs_join(shapes, i as int + 1));
        }
        i += 1;
    }
    s
}

/// Renders the comma-separated `name: signature` text of named descriptors.
fn named_sigs_join_text(ps: &Vec<(String, TypeDescriptor)>) -> (s: String)
    ensures
        s@ == named_sigs_join(crate::types::shapes_of_named(ps@), ps@.len() as int),
    decreases ps@,
{
    let ghost shapes = crate::types::shapes_of_named(ps@);
    let mut s = String::new();
    let mut i: usize = 0;
    while i < ps.len()
        invariant
            i <= ps.len(),
            shapes == crate::types::shapes_of_named(ps@),
            shapes.len() == ps@.len(),
            s@ == named_sigs_join(shapes, i as int),
        decreases ps.len() - i,
    {
        if i > 0 {
            s.append(", ");
        }
        s.append(ps[i].0.as_str());
        s.append(": ");
        s.append(type_sig_text(&ps[i].1).as_str());
        proof {
            assert(s@ =~= named_sigs_join(shapes, i as int + 1));
        }
        i += 1;
    }
    s
}

/// Renders the annotation line of one parameter.
fn param_line_text(p: &ParamSpec) -> (s: String)
    ensures
        s@ == param_line(p@),
{
    let mut s = String::from_str("--- @param ");
    s.append(p.name.as_str());
    s.append(" ");
    s.append(type_sig_text(&p.ty).as_str());
    s.append(doc_suffix_text(&p.doc).as_str());
    s.append("\n");
    s
}

/// Renders the annotation line of one return slot.
fn return_line_text(r: &ReturnSpec) -> (s: String)
    ensures
        s@ == return_line(r@),
{
    let mut s = String::from_str("--- @return ");
    s.append(type_sig_text(&r.ty).as_str());
    s.append(doc_suffix_text(&r.doc).as_str());
    s.append("\n");
    s
}

/// Renders the full stub text of one function under an owner.
#[verifier::rlimit(60)]
fn function_text_of(owner: &String, sep: &str, f: &FunctionSpec) -> (s: String)
    ensures
        s@ == function_text(owner@, sep@, f@),
{
    let mut s = doc_comment_text(&f.doc);
    let mut i: usize = 0;
    while i < f.params.len()
        invariant
            i <= f.params.len(),
            s@ == doc_comment(f@.doc) + param_lines(f@.params, i as int),
        decreases f.params.len() - i,
    {
        s.append(param_line_text(&f.params[i]).as_str());
        proof {
            assert(s@ =~= doc_comment(f@.doc) + param_lines(f@.params, i as int + 1));
        }
        i += 1;
    }
    let ghost head = doc_comment(f@.doc) + param_lines(f@.params, f@.params.len() as int);
    let mut j: usize = 0;
    while j < f.returns.len()
        invariant
            j <= f.returns.len(),
            head == doc_comment(f@.doc) + param_lines(f@.params, f@.params.len() as int),
            s@ == head + return_lines(f@.returns, j as int),
        decreases f.returns.len() - j,
    {
        s.append(return_line_text(&f.returns[j]).as_str());
        proof {
            assert(s@ =~= head + return_lines(f@.returns, j as int + 1));
        }
        j += 1;
    }
    s.append("function ");
    s.append(owner.as_str());
    s.append(sep);
    s.append(f.name.as_str());
    s.append("(");
    let ghost mid = s@;
    let mut k: usize = 0;
    while k < f.params.len()
        invariant
            k <= f.params.len(),
            s@ == mid + param_names_join(f@.params, k as int),
        decreases f.params.len() - k,
    {
        if k > 0 {
            s.append(", ");
        }
        s.append(f.params[k].name.as_str());
        proof {
            assert(s@ =~= mid + param_names_join(f@.params, k as int + 1));
        }
        k += 1;
    }
    s.append(") end\n\n");
    proof {
        assert(s@ =~= function_text(owner@, sep@, f@));
    }
    s
}

/// Renders the stub text of one module.
#[verifier::rlimit(60)]
fn module_text_of(m: &ModuleSpec) -> (s: String)
    ensures
        s@ == module_text(m@),
{
    let mut s = doc_comment_text(&m.doc);
    s.append("--- @class ");
    s.append(m.name.as_str());
    s.append("\n");
    s.append(m.name.as_str());
    s.append(" = {}\n\n");
    let ghost head = s@;
    let mut i: usize = 0;
    while i < m.functions.len()
        invariant
            i <= m.functions.len(),
            s@ == head + functions_text(m@.name, "."@, m@.functions, i as int),
        decreases m.functions.len() - i,
    {
        s.append(function_text_of(&m.name, ".", &m.functions[i]).as_str());
        proof {
            assert(s@ =~= head + functions_text(m@.name, "."@, m@.functions, i as int + 1));
        }
        i += 1;
    }
    proof {
        assert(s@ =~= module_text(m@));
    }
    s
}

/// Renders the annotation line of one record field.
fn field_line_text(f: &FieldSpec) -> (s: String)
    ensures
        s@ == field_line(f@),
{
    let mut s = doc_comment_text(&f.doc);
    s.append("--- @field ");
    s.append(f.name.as_str());
    s.append(" ");
    s.append(type_sig_text(&f.ty).as_str());
    s.append("\n");
    s
}

/// Renders the stub text of one user type.
#[verifier::rlimit(60)]
fn usertype_text_of(t: &UserTypeSpec) -> (s: String)
    ensures
        s@ == usertype_text(t@),
{
    let mut s = doc_comment_text(&t.doc);
    s.append("--- @class ");
    s.append(t.name.as_str());
    s.append("\n");
    let ghost head = s@;
    let mut i: usize = 0;
    while i < t.fields.len()
        invariant
            i <= t.fields.len(),
            s@ == head + field_lines(t@.fields, i as int),
        decreases t.fields.len() - i,
    {
        s.append(field_line_text(&t.fields[i]).as_str());
        proof {
            assert(s@ =~= head + field_lines(t@.fields, i as int + 1));
        }
        i += 1;
    }
    s.append("\n");
    let ghost head2 = s@;
    let mut j: usize = 0;
    while j < t.methods.len()
        invariant
            j <= t.methods.len(),
            s@ == head2 + functions_text(t@.name, ":"@, t@.methods, j as int),
        decreases t.methods.len() - j,
    {
        s.append(function_text_of(&t.name, ":", &t.methods[j]).as_str());
        proof {
            assert(s@ =~= head2 + functions_text(t@.name, ":"@, t@.methods, j as int + 1));
        }
        j += 1;
    }
    let ghost head3 = s@;
    let mut k: usize = 0;
    while k < t.metamethods.len()
        invariant
            k <= t.metamethods.len(),
            s@ == head3 + metamethods_text(t@.name, t@.metamethods, k as int),
        decreases t.metamethods.len() - k,
    {
        s.append(function_text_of(&t.name, ":", &t.metamethods[k].1).as_str());
        proof {
            assert(s@ =~= head3 + metamethods_text(t@.name, t@.metamethods, k as int + 1));
        }
        k += 1;
    }
    proof {
        assert(s@ =~= usertype_text(t@));
    }
    s
}

/// Renders the full stub content of one definition group.
#[verifier::rlimit(60)]
pub fn group_text_of(g: &GroupSpec) -> (s: String)
    ensures
        s@ == group_text(g@),
{
    let mut s = String::from_str("--- @meta\n\n");
    let ghost head = s@;
    let mut i: usize = 0;
    while i < g.modules.len()
        invariant
            i <= g.modules.len(),
            s@ == head + modules_text(g@.modules, i as int),
        decreases g.modules.len() - i,
    {
        s.append(module_text_of(&g.modules[i]).as_str());
        proof {
            assert(s@ =~= head + modules_text(g@.modules, i as int + 1));
        }
        i += 1;
    }
    let ghost head2 = s@;
    let mut j: usize = 0;
    while j < g.types.len()
        invariant
            j <= g.types.len(),
            s@ == head2 + types_text(g@.types, j as int),
        decreases g.types.len() - j,
    {
        s.append(usertype_text_of(&g.types[j]).as_str());
        proof {
            assert(s@ =~= head2 + types_text(g@.types, j as int + 1));
        }
        j += 1;
    }
    proof {
        assert(s@ =~= group_text(g@));
    }
    s
}

/// Renders the stub file name of one definition group.
pub fn file_name_of(g: &GroupSpec) -> (s: String)
    ensures
        s@ == file_name(g@.name),
{
    let mut s = g.name.clone();
    s.append(".d.lua");
    s
}

/// Walks a finished registry and produces exactly one `(file name, content)`
/// pair per definition group, in declaration order. The output is a function
/// of the registry alone, so repeating generation on an unchanged registry
/// yields byte-identical files.
pub fn generate(r: &Registry) -> (out: Vec<(String, String)>)
    ensures
        out@.len() == r@.groups.len(),
        forall|i: int|
            0 <= i < out@.len() ==> (#[trigger] out@[i].0@) == file_name(r@.groups[i].name)
                && out@[i].1@ == group_text(r@.groups[i]),
{
    let mut out: Vec<(String, String)> = Vec::new();
    let mut i: usize = 0;
    while i < r.groups.len()
        invariant
            i <= r.groups.len(),
            r@.groups.len() == r.groups@.len(),
            out@.len() == i,
            forall|k: int|
                0 <= k < i ==> (#[trigger] out@[k].0@) == file_name(r@.groups[k].name)
                    && out@[k].1@ == group_text(r@.groups[k]),
        decreases r.groups.len() - i,
    {
        let g = &r.groups[i];
        let name = file_name_of(g);
        let content = group_text_of(g);
        out.push((name, content));
        proof {
            assert(r@.groups[i as int] == r.groups@[i as int]@);
        }
        i += 1;
    }
    out
}

} // verus!
