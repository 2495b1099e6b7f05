use vstd::prelude::*;

use crate::types::{type_shape, TypeDescriptor, TypeShape};

verus! {

/// Metadata of one positional function parameter.
///
/// `index` is the parameter's position in the call order; inside one
/// function's parameter list the indices are exactly `0, 1, ..., n-1`.
pub struct ParamSpec {
    pub index: usize,
    pub name: String,
    pub ty: TypeDescriptor,
    pub doc: Option<String>,
}

/// The mathematical content of a `ParamSpec`.
pub struct ParamShape {
    pub index: int,
    pub name: Seq<char>,
    pub ty: TypeShape,
    pub doc: Option<Seq<char>>,
}

impl View for ParamSpec {
    type V = ParamShape;

    open spec fn view(&self) -> ParamShape {
        ParamShape {
            index: self.index as int,
            name: self.name@,
            ty: type_shape(self.ty),
            doc: self.doc.deep_view(),
        }
    }
}

impl DeepView for ParamSpec {
    type V = ParamShape;

    open spec fn deep_view(&self) -> ParamShape {
        self@
    }
}

/// Metadata of one return slot of a function.
pub struct ReturnSpec {
    pub ty: TypeDescriptor,
    pub doc: Option<String>,
}

/// The mathematical content of a `ReturnSpec`.
pub struct ReturnShape {
    pub ty: TypeShape,
    pub doc: Option<Seq<char>>,
}

impl View for ReturnSpec {
    type V = ReturnShape;

    open spec fn view(&self) -> ReturnShape {
        ReturnShape {
            ty: type_shape(self.ty),
            doc: self.doc.deep_view(),
        }
    }
}

impl DeepView for ReturnSpec {
    type V = ReturnShape;

    open spec fn deep_view(&self) -> ReturnShape {
        self@
    }
}

/// Metadata of one registered function: a free function, a constructor, or an
/// instance method (a method's implicit receiver is not counted in `params`).
pub struct FunctionSpec {
    pub name: String,
    pub params: Vec<ParamSpec>,
    pub returns: Vec<ReturnSpec>,
    pub doc: Option<String>,
}

/// The mathematical content of a `FunctionSpec`.
pub struct FunctionShape {
    pub name: Seq<char>,
    pub params: Seq<ParamShape>,
    pub returns: Seq<ReturnShape>,
    pub doc: Option<Seq<char>>,
}

impl View for FunctionSpec {
    type V = FunctionShape;

    open spec fn view(&self) -> FunctionShape {
        FunctionShape {
            name: self.name@,
            params: self.params.deep_view(),
            returns: self.returns.deep_view(),
            doc: self.doc.deep_view(),
        }
    }
}

impl DeepView for FunctionSpec {
    type V = FunctionShape;

    open spec fn deep_view(&self) -> FunctionShape {
        self@
    }
}

impl FunctionShape {
    /// Well-formedness: parameter indices are exactly `0..n-1`, in order.
    pub open spec fn wf(self) -> bool {
        forall|i: int| 0 <= i < self.params.len() ==> #[trigger] self.params[i].index == i
    }
}

/// Metadata of one data field of a user type.
pub struct FieldSpec {
    pub name: String,
    pub ty: TypeDescriptor,
    pub doc: Option<String>,
}

/// The mathematical content of a `FieldSpec`.
pub struct FieldShape {
    pub name: Seq<char>,
    pub ty: TypeShape,
    pub doc: Option<Seq<char>>,
}

impl View for FieldSpec {
    type V = FieldShape;

    open spec fn view(&self) -> FieldShape {
        FieldShape {
            name: self.name@,
            ty: type_shape(self.ty),
            doc: self.doc.deep_view(),
        }
    }
}

impl DeepView for FieldSpec {
    type V = FieldShape;

    open spec fn deep_view(&self) -> FieldShape {
        self@
    }
}

/// A special operation hook invoked implicitly by the scripting environment.
#[derive(Clone, Copy, Debug, PartialEq, Eq, Structural)]
pub enum MetaOp {
    /// Textual representation of an instance.
    Stringify,
}

impl DeepView for MetaOp {
    type V = MetaOp;

    open spec fn deep_view(&self) -> MetaOp {
        *self
    }
}

/// Metadata of one registered user-defined data type.
pub struct UserTypeSpec {
    pub name: String,
    pub fields: Vec<FieldSpec>,
    pub methods: Vec<FunctionSpec>,
    pub metamethods: Vec<(MetaOp, FunctionSpec)>,
    pub doc: Option<String>,
}

/// The mathematical content of a `UserTypeSpec`.
pub struct UserTypeShape {
    pub name: Seq<char>,
    pub fields: Seq<FieldShape>,
    pub methods: Seq<FunctionShape>,
    pub metamethods: Seq<(MetaOp, FunctionShape)>,
    pub doc: Option<Seq<char>>,
}

impl View for UserTypeSpec {
    type V = UserTypeShape;

    open spec fn view(&self) -> UserTypeShape {
        UserTypeShape {
            name: self.name@,
            fields: self.fields.deep_view(),
            methods: self.methods.deep_view(),
            metamethods: self.metamethods.deep_view(),
            doc: self.doc.deep_view(),
        }
    }
}

impl DeepView for UserTypeSpec {
    type V = UserTypeShape;

    open spec fn deep_view(&self) -> UserTypeShape {
        self@
    }
}

impl UserTypeShape {
    /// Well-formedness: every method and metamethod has contiguous parameter
    /// indices.
    pub open spec fn wf(self) -> bool {
        &&& forall|i: int| 0 <= i < self.methods.len() ==> (#[trigger] self.methods[i]).wf()
        &&& forall|i: int|
            0 <= i < self.metamethods.len() ==> (#[trigger] self.metamethods[i]).1.wf()
    }
}

/// Metadata of one registered module: a named bundle of functions.
pub struct ModuleSpec {
    pub name: String,
    pub functions: Vec<FunctionSpec>,
    pub doc: Option<String>,
}

/// The mathematical content of a `ModuleSpec`.
pub struct ModuleShape {
    pub name: Seq<char>,
    pub functions: Seq<FunctionShape>,
    pub doc: Option<Seq<char>>,
}

impl View for ModuleSpec {
    type V = ModuleShape;

    open spec fn view(&self) -> ModuleShape {
        ModuleShape {
            name: self.name@,
            functions: self.functions.deep_view(),
            doc: self.doc.deep_view(),
        }
    }
}

impl DeepView for ModuleSpec {
    type V = ModuleShape;

    open spec fn deep_view(&self) -> ModuleShape {
        self@
    }
}

impl ModuleShape {
    /// Well-formedness: every function has contiguous parameter indices.
    pub open spec fn wf(self) -> bool {
        forall|i: int| 0 <= i < self.functions.len() ==> (#[trigger] self.functions[i]).wf()
    }
}

/// One definition group: a named bundle of modules and user types that maps
/// to exactly one generated stub file.
pub struct GroupSpec {
    pub name: String,
    pub modules: Vec<ModuleSpec>,
    pub types: Vec<UserTypeSpec>,
}

/// The mathematical content of a `GroupSpec`.
pub struct GroupShape {
    pub name: Seq<char>,
    pub modules: Seq<ModuleShape>,
    pub types: Seq<UserTypeShape>,
}

impl View for GroupSpec {
    type V = GroupShape;

    open spec fn view(&self) -> GroupShape {
        GroupShape {
            name: self.name@,
            modules: self.modules.deep_view(),
            types: self.types.deep_view(),
        }
    }
}

impl DeepView for GroupSpec {
    type V = GroupShape;

    open spec fn deep_view(&self) -> GroupShape {
        self@
    }
}

impl GroupShape {
    /// Well-formedness of every module and type of the group.
    pub open spec fn wf(self) -> bool {
        &&& forall|i: int| 0 <= i < self.modules.len() ==> (#[trigger] self.modules[i]).wf()
        &&& forall|i: int| 0 <= i < self.types.len() ==> (#[trigger] self.types[i]).wf()
    }
}

/// The finished, immutable aggregate of all definition groups.
pub struct Registry {
    pub groups: Vec<GroupSpec>,
}

/// The mathematical content of a `Registry`.
pub struct RegistryShape {
    pub groups: Seq<GroupShape>,
}

impl View for Registry {
    type V = RegistryShape;

    open spec fn view(&self) -> RegistryShape {
        RegistryShape { groups: self.groups.deep_view() }
    }
}

impl RegistryShape {
    /// Well-formedness of every group of the registry.
    pub open spec fn wf(self) -> bool {
        forall|i: int| 0 <= i < self.groups.len() ==> (#[trigger] self.groups[i]).wf()
    }
}

} // verus!
