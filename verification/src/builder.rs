use vstd::prelude::*;

use crate::specs::{
    FieldShape, FieldSpec, FunctionShape, FunctionSpec, GroupShape, GroupSpec, MetaOp, ModuleShape,
    ModuleSpec, ParamShape, ParamSpec, Registry, RegistryShape, ReturnShape, ReturnSpec,
    UserTypeShape, UserTypeSpec,
};
use crate::types::{type_shape, TypeDescriptor};

verus! {

/// A function shape with queued documentation attached: queued text fills the
/// doc slot only when the item carries none of its own.
pub open spec fn with_doc(f: FunctionShape, d: Option<Seq<char>>) -> FunctionShape {
    FunctionShape {
        doc: if f.doc is None {
            d
        } else {
            f.doc
        },
        ..f
    }
}

/// A field shape with queued documentation attached, as in `with_doc`.
pub open spec fn field_with_doc(f: FieldShape, d: Option<Seq<char>>) -> FieldShape {
    FieldShape {
        doc: if f.doc is None {
            d
        } else {
            f.doc
        },
        ..f
    }
}

/// Accumulates the metadata of one function: its name, positional parameters,
/// return slots, and documentation. Parameters receive their index from the
/// position at which they are added.
pub struct FunctionBuilder {
    pub name: String,
    pub params: Vec<ParamSpec>,
    pub returns: Vec<ReturnSpec>,
    pub doc: Option<String>,
}

/// The mathematical state of a `FunctionBuilder`.
pub struct FunctionBuilderShape {
    pub name: Seq<char>,
    pub params: Seq<ParamShape>,
    pub returns: Seq<ReturnShape>,
    pub doc: Option<Seq<char>>,
}

impl View for FunctionBuilder {
    type V = FunctionBuilderShape;

    open spec fn view(&self) -> FunctionBuilderShape {
        FunctionBuilderShape {
            name: self.name@,
            params: self.params.deep_view(),
            returns: self.returns.deep_view(),
            doc: self.doc.deep_view(),
        }
    }
}

impl FunctionBuilderShape {
    /// Parameter indices added so far are exactly the positions `0..len-1`.
    pub open spec fn params_wf(self) -> bool {
        forall|i: int| 0 <= i < self.params.len() ==> #[trigger] self.params[i].index == i
    }
}

impl FunctionBuilder {
    /// Begins a function with the given name and no parameters, returns or
    /// documentation.
    pub fn start(name: String) -> (b: FunctionBuilder)
        ensures
            b@.name == name@,
            b@.params == Seq::<ParamShape>::empty(),
            b@.returns == Seq::<ReturnShape>::empty(),
            b@.doc is None,
    {
        FunctionBuilder { name, params: Vec::new(), returns: Vec::new(), doc: None }
    }

    /// Adds an undocumented positional parameter; its index is its position.
    pub fn param(self, name: String, ty: TypeDescriptor) -> (r: FunctionBuilder)
        ensures
            r@.params == self@.params.push(
                ParamShape {
                    index: self@.params.len() as int,
                    name: name@,
                    ty: type_shape(ty),
                    doc: None,
                },
            ),
            r@.name == self@.name,
            r@.returns == self@.returns,
            r@.doc == self@.doc,
    {
        self.param_opt_doc(name, ty, None)
    }

    /// Adds a documented positional parameter; its index is its position.
    pub fn param_doc(self, name: String, ty: TypeDescriptor, doc: String) -> (r: FunctionBuilder)
        ensures
            r@.params == self@.params.push(
                ParamShape {
                    index: self@.params.len() as int,
                    name: name@,
                    ty: type_shape(ty),
                    doc: Some(doc@),
                },
            ),
            r@.name == self@.name,
            r@.returns == self@.returns,
            r@.doc == self@.doc,
    {
        self.param_opt_doc(name, ty, Some(doc))
    }

    /// Adds a positional parameter with optional documentation.
    pub fn param_opt_doc(
        self,
        name: String,
        ty: TypeDescriptor,
        doc: Option<String>,
    ) -> (r: FunctionBuilder)
        ensures
            r@.params == self@.params.push(
                ParamShape {
                    index: self@.params.len() as int,
                    name: name@,
                    ty: type_shape(ty),
                    doc: doc.deep_view(),
                },
            ),
            r@.name == self@.name,
            r@.returns == self@.returns,
            r@.doc == self@.doc,
    {
        let mut params = self.params;
        let index = params.len();
        params.push(ParamSpec { index, name, ty, doc });
        FunctionBuilder { name: self.name, params, returns: self.returns, doc: self.doc }
    }

    /// Adds an undocumented return slot.
    pub fn ret(self, ty: TypeDescriptor) -> (r: FunctionBuilder)
        ensures
            r@.returns == self@.returns.push(ReturnShape { ty: type_shape(ty), doc: None }),
            r@.name == self@.name,
            r@.params == self@.params,
            r@.doc == self@.doc,
    {
        self.ret_opt_doc(ty, None)
    }

    /// Adds a documented return slot.
    pub fn ret_doc(self, ty: TypeDescriptor, doc: String) -> (r: FunctionBuilder)
        ensures
            r@.returns == self@.returns.push(ReturnShape { ty: type_shape(ty), doc: Some(doc@) }),
            r@.name == self@.name,
            r@.params == self@.params,
            r@.doc == self@.doc,
    {
        self.ret_opt_doc(ty, Some(doc))
    }

    /// Adds a return slot with optional documentation.
    pub fn ret_opt_doc(self, ty: TypeDescriptor, doc: Option<String>) -> (r: FunctionBuilder)
        ensures
            r@.returns == self@.returns.push(ReturnShape { ty: type_shape(ty), doc: doc.deep_view() }),
            r@.name == self@.name,
            r@.params == self@.params,
            r@.doc == self@.doc,
    {
        let mut rets = self.returns;
        rets.push(ReturnSpec { ty, doc });
        FunctionBuilder { name: self.name, params: self.params, returns: rets, doc: self.doc }
    }

    /// Sets the function's own documentation.
    pub fn doc(self, text: String) -> (r: FunctionBuilder)
        ensures
            r@.doc == Some(text@),
            r@.name == self@.name,
            r@.params == self@.params,
            r@.returns == self@.returns,
    {
        FunctionBuilder { name: self.name, params: self.params, returns: self.returns, doc: Some(text) }
    }

    /// Adds one documented, typed parameter per entry of `entries`, in order,
    /// each indexed by its position.
    pub fn params_with_docs(
        self,
        entries: Vec<(String, TypeDescriptor, String)>,
    ) -> (r: FunctionBuilder)
        ensures
            r@.params.len() == self@.params.len() + entries@.len(),
            forall|i: int|
                0 <= i < self@.params.len() ==> #[trigger] r@.params[i] == self@.params[i],
            forall|i: int|
                0 <= i < entries@.len() ==> #[trigger] r@.params[self@.params.len() + i]
                    == (ParamShape {
                    index: self@.params.len() + i,
                    name: entries@[i].0@,
                    ty: type_shape(entries@[i].1),
                    doc: Some(entries@[i].2@),
                }),
            r@.name == self@.name,
            r@.returns == self@.returns,
            r@.doc == self@.doc,
    {
        let ghost orig = self@;
        let mut b = self;
        let mut entries = entries;
        let ghost all = entries@;
        let mut i: usize = 0;
        let n = entries.len();
        while i < n
            invariant
                i <= n,
                n == all.len(),
                entries@ == all.subrange(i as int, n as int),
                b@.params.len() == orig.params.len() + i,
                forall|k: int| 0 <= k < orig.params.len() ==> #[trigger] b@.params[k] == orig.params[k],
                forall|k: int|
                    0 <= k < i ==> #[trigger] b@.params[orig.params.len() + k] == (ParamShape {
                        index: orig.params.len() + k,
                        name: all[k].0@,
                        ty: type_shape(all[k].1),
                        doc: Some(all[k].2@),
                    }),
                b@.name == orig.name,
                b@.returns == orig.returns,
                b@.doc == orig.doc,
            decreases n - i,
        {
            let (name, ty, doc) = entries.remove(0);
            proof {
                assert(all.subrange(i as int, n as int)[0] == all[i as int]);
                assert(entries@ == all.subrange(i as int, n as int).remove(0));
                assert(entries@ =~= all.subrange(i + 1, n as int));
            }
            b = b.param_doc(name, ty, doc);
            i += 1;
        }
        b
    }

    /// Finalizes the builder into an immutable `FunctionSpec` whose parameter
    /// indices are exactly `0..n-1`.
    pub fn finish(self) -> (f: FunctionSpec)
        requires
            self@.params_wf(),
        ensures
            f@ == (FunctionShape {
                name: self@.name,
                params: self@.params,
                returns: self@.returns,
                doc: self@.doc,
            }),
            f@.wf(),
    {
        FunctionSpec { name: self.name, params: self.params, returns: self.returns, doc: self.doc }
    }
}


/// Accumulates the functions of one module. `document` queues text for the
/// next added function; `function` attaches queued text to an undocumented
/// function and clears the queue. Both documentation styles yield the same
/// final metadata (`lemma_module_doc_styles_agree`).
pub struct ModuleBuilder {
    pub name: String,
    pub functions: Vec<FunctionSpec>,
    pub doc: Option<String>,
    pub pending: Option<String>,
}

/// The mathematical state of a `ModuleBuilder`.
pub struct ModuleBuilderShape {
    pub name: Seq<char>,
    pub functions: Seq<FunctionShape>,
    pub doc: Option<Seq<char>>,
    pub pending: Option<Seq<char>>,
}

impl View for ModuleBuilder {
    type V = ModuleBuilderShape;

    open spec fn view(&self) -> ModuleBuilderShape {
        ModuleBuilderShape {
            name: self.name@,
            functions: self.functions.deep_view(),
            doc: self.doc.deep_view(),
            pending: self.pending.deep_view(),
        }
    }
}

/// The state of a module builder after one function is added: the function
/// takes the queued documentation if it has none of its own, and the queue is
/// cleared.
pub open spec fn module_add_function(m: ModuleBuilderShape, f: FunctionShape) -> ModuleBuilderShape {
    ModuleBuilderShape {
        functions: m.functions.push(with_doc(f, m.pending)),
        pending: None,
        ..m
    }
}

impl ModuleBuilder {
    /// Begins a module with the given name and nothing registered.
    pub fn start(name: String) -> (b: ModuleBuilder)
        ensures
            b@.name == name@,
            b@.functions == Seq::<FunctionShape>::empty(),
            b@.doc is None,
            b@.pending is None,
    {
        ModuleBuilder { name, functions: Vec::new(), doc: None, pending: None }
    }

    /// Sets the module's own documentation.
    pub fn doc(self, text: String) -> (r: ModuleBuilder)
        ensures
            r@ == (ModuleBuilderShape { doc: Some(text@), ..self@ }),
    {
        ModuleBuilder { name: self.name, functions: self.functions, doc: Some(text), pending: self.pending }
    }

    /// Queues documentation for the next registered function.
    pub fn document(self, text: String) -> (r: ModuleBuilder)
        ensures
            r@ == (ModuleBuilderShape { pending: Some(text@), ..self@ }),
    {
        ModuleBuilder { name: self.name, functions: self.functions, doc: self.doc, pending: Some(text) }
    }

    /// Registers a function, attaching any queued documentation if the
    /// function carries none of its own.
    pub fn function(self, f: FunctionSpec) -> (r: ModuleBuilder)
        ensures
            r@ == module_add_function(self@, f@),
    {
        let doc_for_f = match f.doc {
            Some(d) => Some(d),
            None => self.pending,
        };
        let ghost orig = self@;
        let ghost fshape = f@;
        let mut functions = self.functions;
        functions.push(FunctionSpec { name: f.name, params: f.params, returns: f.returns, doc: doc_for_f });
        let r = ModuleBuilder { name: self.name, functions, doc: self.doc, pending: None };
        proof {
            assert(r@.functions =~= orig.functions.push(with_doc(fshape, orig.pending)));
        }
        r
    }

    /// Finalizes the builder into an immutable `ModuleSpec`.
    pub fn finish(self) -> (m: ModuleSpec)
        ensures
            m@ == (ModuleShape { name: self@.name, functions: self@.functions, doc: self@.doc }),
    {
        ModuleSpec { name: self.name, functions: self.functions, doc: self.doc }
    }
}

/// Queued and direct documentation agree on modules: queueing text and then
/// registering an undocumented function leaves the builder in the same state
/// as registering the function with that text already set.
pub proof fn lemma_module_doc_styles_agree(m: ModuleBuilderShape, f: FunctionShape, text: Seq<char>)
    requires
        f.doc is None,
        m.pending is None,
    ensures
        module_add_function(ModuleBuilderShape { pending: Some(text), ..m }, f)
            == module_add_function(m, FunctionShape { doc: Some(text), ..f }),
{
}

/// Accumulates the fields, methods and metamethods of one user type.
/// `document` queues text for the next registered field or method, as on
/// modules.
pub struct TypeBuilder {
    pub name: String,
    pub fields: Vec<FieldSpec>,
    pub methods: Vec<FunctionSpec>,
    pub metamethods: Vec<(MetaOp, FunctionSpec)>,
    pub doc: Option<String>,
    pub pending: Option<String>,
}

/// The mathematical state of a `TypeBuilder`.
pub struct TypeBuilderShape {
    pub name: Seq<char>,
    pub fields: Seq<FieldShape>,
    pub methods: Seq<FunctionShape>,
    pub metamethods: Seq<(MetaOp, FunctionShape)>,
    pub doc: Option<Seq<char>>,
    pub pending: Option<Seq<char>>,
}

impl View for TypeBuilder {
    type V = TypeBuilderShape;

    open spec fn view(&self) -> TypeBuilderShape {
        TypeBuilderShape {
            name: self.name@,
            fields: self.fields.deep_view(),
            methods: self.methods.deep_view(),
            metamethods: self.metamethods.deep_view(),
            doc: self.doc.deep_view(),
            pending: self.pending.deep_view(),
        }
    }
}

/// The state of a type builder after one method is added, with queued
/// documentation attached as on modules.
pub open spec fn type_add_method(t: TypeBuilderShape, f: FunctionShape) -> TypeBuilderShape {
    TypeBuilderShape { methods: t.methods.push(with_doc(f, t.pending)), pending: None, ..t }
}

/// The state of a type builder after one field is added, with queued
/// documentation attached as on modules.
pub open spec fn type_add_field(t: TypeBuilderShape, f: FieldShape) -> TypeBuilderShape {
    TypeBuilderShape { fields: t.fields.push(field_with_doc(f, t.pending)), pending: None, ..t }
}

impl TypeBuilder {
    /// Begins a user type with the given name and nothing registered.
    pub fn start(name: String) -> (b: TypeBuilder)
        ensures
            b@.name == name@,
            b@.fields == Seq::<FieldShape>::empty(),
            b@.methods == Seq::<FunctionShape>::empty(),
            b@.metamethods == Seq::<(MetaOp, FunctionShape)>::empty(),
            b@.doc is None,
            b@.pending is None,
    {
        TypeBuilder {
            name,
            fields: Vec::new(),
            methods: Vec::new(),
            metamethods: Vec::new(),
            doc: None,
            pending: None,
        }
    }

    /// Sets the type's own documentation.
    pub fn doc(self, text: String) -> (r: TypeBuilder)
        ensures
            r@ == (TypeBuilderShape { doc: Some(text@), ..self@ }),
    {
        TypeBuilder {
            name: self.name,
            fields: self.fields,
            methods: self.methods,
            metamethods: self.metamethods,
            doc: Some(text),
            pending: self.pending,
        }
    }

    /// Queues documentation for the next registered field or method.
    pub fn document(self, text: String) -> (r: TypeBuilder)
        ensures
            r@ == (TypeBuilderShape { pending: Some(text@), ..self@ }),
    {
        TypeBuilder {
            name: self.name,
            fields: self.fields,
            methods: self.methods,
            metamethods: self.metamethods,
            doc: self.doc,
            pending: Some(text),
        }
    }

    /// Registers a data field, attaching any queued documentation if the
    /// field carries none of its own.
    pub fn field(self, f: FieldSpec) -> (r: TypeBuilder)
        ensures
            r@ == type_add_field(self@, f@),
    {
        let doc_for_f = match f.doc {
            Some(d) => Some(d),
            None => self.pending,
        };
        let ghost orig = self@;
        let ghost fshape = f@;
        let mut fields = self.fields;
        fields.push(FieldSpec { name: f.name, ty: f.ty, doc: doc_for_f });
        let r = TypeBuilder {
            name: self.name,
            fields,
            methods: self.methods,
            metamethods: self.metamethods,
            doc: self.doc,
            pending: None,
        };
        proof {
            assert(r@.fields =~= orig.fields.push(field_with_doc(fshape, orig.pending)));
        }
        r
    }

    /// Registers a method, attaching any queued documentation if the method
    /// carries none of its own.
    pub fn method(self, f: FunctionSpec) -> (r: TypeBuilder)
        ensures
            r@ == type_add_method(self@, f@),
    {
        let doc_for_f = match f.doc {
            Some(d) => Some(d),
            None => self.pending,
        };
        let ghost orig = self@;
        let ghost fshape = f@;
        let mut methods = self.methods;
        methods.push(FunctionSpec { name: f.name, params: f.params, returns: f.returns, doc: doc_for_f });
        let r = TypeBuilder {
            name: self.name,
            fields: self.fields,
            methods,
            metamethods: self.metamethods,
            doc: self.doc,
            pending: None,
        };
        proof {
            assert(r@.methods =~= orig.methods.push(with_doc(fshape, orig.pending)));
        }
        r
    }

    /// Registers a metamethod under its hook; queued documentation does not
    /// apply to metamethods.
    pub fn metamethod(self, op: MetaOp, f: FunctionSpec) -> (r: TypeBuilder)
        ensures
            r@ == (TypeBuilderShape { metamethods: self@.metamethods.push((op, f@)), ..self@ }),
    {
        let ghost orig = self@;
        let ghost fshape = f@;
        let mut metamethods = self.metamethods;
        metamethods.push((op, f));
        let r = TypeBuilder {
            name: self.name,
            fields: self.fields,
            methods: self.methods,
            metamethods,
            doc: self.doc,
            pending: self.pending,
        };
        proof {
            assert(r@.metamethods =~= orig.metamethods.push((op, fshape)));
        }
        r
    }

    /// Finalizes the builder into an immutable `UserTypeSpec`.
    pub fn finish(self) -> (t: UserTypeSpec)
        ensures
            t@ == (UserTypeShape {
                name: self@.name,
                fields: self@.fields,
                methods: self@.methods,
                metamethods: self@.metamethods,
                doc: self@.doc,
            }),
    {
        UserTypeSpec {
            name: self.name,
            fields: self.fields,
            methods: self.methods,
            metamethods: self.metamethods,
            doc: self.doc,
        }
    }
}

/// Queued and direct documentation agree on user types, for methods.
pub proof fn lemma_type_doc_styles_agree(t: TypeBuilderShape, f: FunctionShape, text: Seq<char>)
    requires
        f.doc is None,
        t.pending is None,
    ensures
        type_add_method(TypeBuilderShape { pending: Some(text), ..t }, f)
            == type_add_method(t, FunctionShape { doc: Some(text), ..f }),
{
}

/// Accumulates the modules and user types of one definition group.
pub struct GroupBuilder {
    pub name: String,
    pub modules: Vec<ModuleSpec>,
    pub types: Vec<UserTypeSpec>,
}

/// The mathematical state of a `GroupBuilder`.
pub struct GroupBuilderShape {
    pub name: Seq<char>,
    pub modules: Seq<ModuleShape>,
    pub types: Seq<UserTypeShape>,
}

impl View for GroupBuilder {
    type V = GroupBuilderShape;

    open spec fn view(&self) -> GroupBuilderShape {
        GroupBuilderShape {
            name: self.name@,
            modules: self.modules.deep_view(),
            types: self.types.deep_view(),
        }
    }
}

impl GroupBuilder {
    /// Begins a definition group with the given name and nothing registered.
    pub fn start(name: String) -> (b: GroupBuilder)
        ensures
            b@.name == name@,
            b@.modules == Seq::<ModuleShape>::empty(),
            b@.types == Seq::<UserTypeShape>::empty(),
    {
        GroupBuilder { name, modules: Vec::new(), types: Vec::new() }
    }

    /// Registers a module binding in the group.
    pub fn module(self, m: ModuleSpec) -> (r: GroupBuilder)
        ensures
            r@ == (GroupBuilderShape { modules: self@.modules.push(m@), ..self@ }),
    {
        let ghost orig = self@;
        let ghost mshape = m@;
        let mut modules = self.modules;
        modules.push(m);
        let r = GroupBuilder { name: self.name, modules, types: self.types };
        proof {
            assert(r@.modules =~= orig.modules.push(mshape));
        }
        r
    }

    /// Registers a user-type binding in the group.
    pub fn register(self, t: UserTypeSpec) -> (r: GroupBuilder)
        ensures
            r@ == (GroupBuilderShape { types: self@.types.push(t@), ..self@ }),
    {
        let ghost orig = self@;
        let ghost tshape = t@;
        let mut types = self.types;
        types.push(t);
        let r = GroupBuilder { name: self.name, modules: self.modules, types };
        proof {
            assert(r@.types =~= orig.types.push(tshape));
        }
        r
    }

    /// Finalizes the builder into an immutable `GroupSpec`.
    pub fn finish(self) -> (g: GroupSpec)
        ensures
            g@ == (GroupShape { name: self@.name, modules: self@.modules, types: self@.types }),
    {
        GroupSpec { name: self.name, modules: self.modules, types: self.types }
    }
}

/// Accumulates definition groups into a registry. `finish` consumes the
/// builder, so no finalized registry can be extended afterwards.
pub struct RegistryBuilder {
    pub groups: Vec<GroupSpec>,
}

/// The mathematical state of a `RegistryBuilder`.
pub struct RegistryBuilderShape {
    pub groups: Seq<GroupShape>,
}

impl View for RegistryBuilder {
    type V = RegistryBuilderShape;

    open spec fn view(&self) -> RegistryBuilderShape {
        RegistryBuilderShape { groups: self.groups.deep_view() }
    }
}

impl RegistryBuilder {
    /// Begins a registry with zero definition groups.
    pub fn start() -> (b: RegistryBuilder)
        ensures
            b@.groups == Seq::<GroupShape>::empty(),
    {
        RegistryBuilder { groups: Vec::new() }
    }

    /// Adds a finished definition group.
    pub fn define(self, g: GroupSpec) -> (r: RegistryBuilder)
        ensures
            r@.groups == self@.groups.push(g@),
    {
        let ghost orig = self@;
        let ghost gshape = g@;
        let mut groups = self.groups;
        groups.push(g);
        let r = RegistryBuilder { groups };
        proof {
            assert(r@.groups =~= orig.groups.push(gshape));
        }
        r
    }

    /// Finalizes the builder into the immutable `Registry`.
    pub fn finish(self) -> (r: Registry)
        ensures
            r@ == (RegistryShape { groups: self@.groups }),
    {
        Registry { groups: self.groups }
    }
}

/// In a well-formed registry, every function's parameter indices are exactly
/// `0 .. n-1`, in order, with no gaps and no duplicates: the parameter at
/// position `i` carries index `i`, and distinct positions carry distinct
/// indices. This holds of module functions, of user-type methods, and of
/// metamethods.
pub proof fn lemma_registry_param_indices(r: RegistryShape, g: int, m: int, t: int)
    requires
        r.wf(),
        0 <= g < r.groups.len(),
    ensures
        0 <= m < r.groups[g].modules.len() ==> forall|f: int, i: int|
            0 <= f < r.groups[g].modules[m].functions.len() && 0 <= i
                < r.groups[g].modules[m].functions[f].params.len()
                ==> #[trigger] r.groups[g].modules[m].functions[f].params[i].index == i,
        0 <= t < r.groups[g].types.len() ==> forall|f: int, i: int|
            0 <= f < r.groups[g].types[t].methods.len() && 0 <= i
                < r.groups[g].types[t].methods[f].params.len()
                ==> #[trigger] r.groups[g].types[t].methods[f].params[i].index == i,
        0 <= t < r.groups[g].types.len() ==> forall|f: int, i: int|
            0 <= f < r.groups[g].types[t].metamethods.len() && 0 <= i
                < r.groups[g].types[t].metamethods[f].1.params.len()
                ==> #[trigger] r.groups[g].types[t].metamethods[f].1.params[i].index == i,
{
    assert(r.groups[g].wf());
}

} // verus!
