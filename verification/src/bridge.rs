use vstd::prelude::*;
use vstd::string::StringExecFns;

use crate::specs::{
    GroupShape, GroupSpec, ModuleShape, ModuleSpec, Registry, RegistryShape, UserTypeShape,
    UserTypeSpec,
};

verus! {

/// One globally addressable entity installed in a scripting environment: a
/// module or a user type, under its script-visible name.
pub enum Binding {
    Module(ModuleSpec),
    UserType(UserTypeSpec),
}

/// The mathematical content of a `Binding`.
pub enum BindingShape {
    Module(ModuleShape),
    UserType(UserTypeShape),
}

impl View for Binding {
    type V = BindingShape;

    open spec fn view(&self) -> BindingShape {
        match self {
            Binding::Module(m) => BindingShape::Module(m@),
            Binding::UserType(t) => BindingShape::UserType(t@),
        }
    }
}

/// The library's model of a scripting environment's global namespace: the
/// bindings installed so far, in installation order. It is written once by
/// `bind` and read thereafter.
pub struct Environment {
    pub bindings: Vec<(String, Binding)>,
}

/// The mathematical content of an `Environment`.
pub struct EnvironmentShape {
    pub bindings: Seq<(Seq<char>, BindingShape)>,
}

impl View for Environment {
    type V = EnvironmentShape;

    open spec fn view(&self) -> EnvironmentShape {
        EnvironmentShape {
            bindings: Seq::new(
                self.bindings@.len(),
                |i: int|
                    if 0 <= i < self.bindings@.len() {
                        (self.bindings@[i].0@, self.bindings@[i].1@)
                    } else {
                        (Seq::empty(), BindingShape::Module(arbitrary()))
                    },
            ),
        }
    }
}

impl Environment {
    /// An environment with nothing installed.
    pub fn new() -> (e: Environment)
        ensures
            e@.bindings == Seq::<(Seq<char>, BindingShape)>::empty(),
    {
        let e = Environment { bindings: Vec::new() };
        proof {
            assert(e@.bindings =~= Seq::<(Seq<char>, BindingShape)>::empty());
        }
        e
    }
}

/// What installing one group adds to an environment: each module, then each
/// user type, under its name, in declaration order.
pub open spec fn group_bindings(g: GroupShape) -> Seq<(Seq<char>, BindingShape)> {
    Seq::new(g.modules.len(), |i: int| (g.modules[i].name, BindingShape::Module(g.modules[i])))
        + Seq::new(g.types.len(), |i: int| (g.types[i].name, BindingShape::UserType(g.types[i])))
}

/// What installing the first `n` groups of a registry adds, in group order.
pub open spec fn registry_bindings_prefix(gs: Seq<GroupShape>, n: int) -> Seq<
    (Seq<char>, BindingShape),
>
    decreases n,
{
    if n <= 0 {
        Seq::empty()
    } else {
        registry_bindings_prefix(gs, n - 1) + group_bindings(gs[n - 1])
    }
}

/// What installing a whole registry adds to an environment.
pub open spec fn registry_bindings(r: RegistryShape) -> Seq<(Seq<char>, BindingShape)> {
    registry_bindings_prefix(r.groups, r.groups.len() as int)
}

/// Installs one definition group into the environment: every module and
/// user type of the group becomes a globally addressable binding, in
/// declaration order.
pub fn bind_group(g: GroupSpec, env: &mut Environment)
    ensures
        final (env)@.bindings == old(env)@.bindings + group_bindings(g@),
{
    let ghost base = env@.bindings;
    let ghost gshape = g@;
    let ghost ms = Seq::new(
        gshape.modules.len(),
        |i: int| (gshape.modules[i].name, BindingShape::Module(gshape.modules[i])),
    );
    let ghost ts = Seq::new(
        gshape.types.len(),
        |i: int| (gshape.types[i].name, BindingShape::UserType(gshape.types[i])),
    );
    let mut mods = g.modules;
    let ghost all_mods = mods@;
    let mut i: usize = 0;
    let n = mods.len();
    while i < n
        invariant
            i <= n,
            n == all_mods.len(),
            mods@ == all_mods.subrange(i as int, n as int),
            all_mods.len() == gshape.modules.len(),
            forall|k: int| 0 <= k < n ==> (#[trigger] all_mods[k])@ == gshape.modules[k],
            ms.len() == n,
            forall|k: int|
                0 <= k < n ==> #[trigger] ms[k] == (gshape.modules[k].name, BindingShape::Module(
                    gshape.modules[k],
                )),
            env@.bindings == base + ms.subrange(0, i as int),
        decreases n - i,
    {
        proof {
            assert(env@.bindings == base + ms.subrange(0, i as int));
            assert(ms.subrange(0, i as int).len() == i);
            assert(env@.bindings.len() == base.len() + i);
        }
        let m = mods.remove(0);
        proof {
            assert(all_mods.subrange(i as int, n as int)[0] == all_mods[i as int]);
            assert(mods@ =~= all_mods.subrange(i + 1, n as int));
        }
        proof {
            assert(m@ == gshape.modules[i as int]);
        }
        let name = m.name.clone();
        let ghost before = env.bindings@;
        let ghost oldv = env@.bindings;
        env.bindings.push((name, Binding::Module(m)));
        proof {
            let newv = env@.bindings;
            let target = base + ms.subrange(0, i as int + 1);
            assert(newv.len() == target.len());
            assert forall|k: int| 0 <= k < newv.len() implies newv[k] == target[k] by {
                if k < before.len() {
                    assert(env.bindings@[k] == before[k]);
                    assert(newv[k] == oldv[k]);
                    assert(oldv[k] == (base + ms.subrange(0, i as int))[k]);
                    if k >= base.len() {
                        assert(ms.subrange(0, i as int + 1)[k - base.len()] == ms[k
                            - base.len()]);
                        assert(ms.subrange(0, i as int)[k - base.len()] == ms[k - base.len()]);
                    }
                } else {
                    assert(newv[k] == (gshape.modules[i as int].name, BindingShape::Module(
                        gshape.modules[i as int],
                    )));
                    assert(target[k] == ms.subrange(0, i as int + 1)[i as int]);
                    assert(ms.subrange(0, i as int + 1)[i as int] == ms[i as int]);
                }
            }
            assert(newv =~= target);
        }
        i += 1;
    }
    proof {
        assert(ms.subrange(0, n as int) =~= ms);
    }
    let ghost base2 = env@.bindings;
    let mut tys = g.types;
    let ghost all_tys = tys@;
    let mut j: usize = 0;
    let p = tys.len();
    while j < p
        invariant
            j <= p,
            p == all_tys.len(),
            tys@ == all_tys.subrange(j as int, p as int),
            all_tys.len() == gshape.types.len(),
            forall|k: int| 0 <= k < p ==> (#[trigger] all_tys[k])@ == gshape.types[k],
            ts.len() == p,
            forall|k: int|
                0 <= k < p ==> #[trigger] ts[k] == (gshape.types[k].name, BindingShape::UserType(
                    gshape.types[k],
                )),
            env@.bindings == base2 + ts.subrange(0, j as int),
        decreases p - j,
    {
        let t = tys.remove(0);
        proof {
            assert(all_tys.subrange(j as int, p as int)[0] == all_tys[j as int]);
            assert(tys@ =~= all_tys.subrange(j + 1, p as int));
        }
        proof {
            assert(env@.bindings == base2 + ts.subrange(0, j as int));
            assert(ts.subrange(0, j as int).len() == j);
            assert(env@.bindings.len() == base2.len() + j);
            assert(t@ == gshape.types[j as int]);
        }
        let name = t.name.clone();
        let ghost before = env.bindings@;
        let ghost oldv = env@.bindings;
        env.bindings.push((name, Binding::UserType(t)));
        proof {
            let newv = env@.bindings;
            let target = base2 + ts.subrange(0, j as int + 1);
            assert(newv.len() == target.len());
            assert forall|k: int| 0 <= k < newv.len() implies newv[k] == target[k] by {
                if k < before.len() {
                    assert(env.bindings@[k] == before[k]);
                    assert(newv[k] == oldv[k]);
                    assert(oldv[k] == (base2 + ts.subrange(0, j as int))[k]);
                    if k >= base2.len() {
                        assert(ts.subrange(0, j as int + 1)[k - base2.len()] == ts[k
                            - base2.len()]);
                        assert(ts.subrange(0, j as int)[k - base2.len()] == ts[k - base2.len()]);
                    }
                } else {
                    assert(newv[k] == (gshape.types[j as int].name, BindingShape::UserType(
                        gshape.types[j as int],
                    )));
                    assert(target[k] == ts.subrange(0, j as int + 1)[j as int]);
                    assert(ts.subrange(0, j as int + 1)[j as int] == ts[j as int]);
                }
            }
            assert(newv =~= target);
        }
        j += 1;
    }
    proof {
        assert(ts.subrange(0, p as int) =~= ts);
        assert(env@.bindings =~= base + group_bindings(gshape));
    }
}

/// Installs every module and user type of a finished registry into the
/// environment, group by group, in declaration order.
pub fn bind(r: Registry, env: &mut Environment)
    ensures
        final (env)@.bindings == old(env)@.bindings + registry_bindings(r@),
{
    let ghost base = env@.bindings;
    let ghost rshape = r@;
    let mut groups = r.groups;
    let ghost all = groups@;
    let mut i: usize = 0;
    let n = groups.len();
    while i < n
        invariant
            i <= n,
            n == all.len(),
            groups@ == all.subrange(i as int, n as int),
            all.len() == rshape.groups.len(),
            forall|k: int| 0 <= k < n ==> (#[trigger] all[k])@ == rshape.groups[k],
            env@.bindings == base + registry_bindings_prefix(rshape.groups, i as int),
        decreases n - i,
    {
        let g = groups.remove(0);
        proof {
            assert(all.subrange(i as int, n as int)[0] == all[i as int]);
            assert(groups@ =~= all.subrange(i + 1, n as int));
        }
        bind_group(g, env);
        proof {
            assert(env@.bindings =~= base + registry_bindings_prefix(rshape.groups, i as int + 1));
        }
        i += 1;
    }
}

/// The binding under the first entry of an environment carrying the given
/// name, if any.
pub open spec fn binding_lookup(bs: Seq<(Seq<char>, BindingShape)>, key: Seq<char>) -> Option<
    BindingShape,
>
    decreases bs.len(),
{
    if bs.len() == 0 {
        None
    } else if bs[0].0 == key {
        Some(bs[0].1)
    } else {
        binding_lookup(bs.drop_first(), key)
    }
}

/// The first binding installed under the given name, if any.
pub fn lookup_binding<'a>(env: &'a Environment, name: &String) -> (r: Option<&'a Binding>)
    ensures
        match r {
            Some(b) => binding_lookup(env@.bindings, name@) == Some(b@),
            None => binding_lookup(env@.bindings, name@) is None,
        },
{
    proof {
        assert(env@.bindings.skip(0) =~= env@.bindings);
    }
    lookup_binding_from(env, name, 0)
}

/// The first binding under the given name, searching from position `i`.
fn lookup_binding_from<'a>(env: &'a Environment, name: &String, i: usize) -> (r: Option<
    &'a Binding,
>)
    requires
        i <= env.bindings.len(),
    ensures
        match r {
            Some(b) => binding_lookup(env@.bindings.skip(i as int), name@) == Some(b@),
            None => binding_lookup(env@.bindings.skip(i as int), name@) is None,
        },
    decreases env.bindings.len() - i,
{
    let ghost shapes = env@.bindings;
    if i == env.bindings.len() {
        proof {
            assert(shapes.skip(i as int) =~= Seq::empty());
        }
        None
    } else if env.bindings[i].0 == *name {
        proof {
            assert(shapes.skip(i as int)[0] == shapes[i as int]);
        }
        Some(&env.bindings[i].1)
    } else {
        let r = lookup_binding_from(env, name, i + 1);
        proof {
            assert(shapes.skip(i as int)[0] == shapes[i as int]);
            assert(shapes.skip(i as int).drop_first() =~= shapes.skip(i + 1));
        }
        r
    }
}

/// The embedded script failed to compile or raised a runtime fault; carries
/// a human-readable diagnostic. Recoverable: whether to abort or continue is
/// the caller's policy.
pub struct ScriptError {
    pub message: String,
}

impl View for ScriptError {
    type V = Seq<char>;

    open spec fn view(&self) -> Seq<char> {
        self.message@
    }
}

/// Relies on mlua's `Lua::new`, `Lua::load` and `Chunk::eval`: compiles and
/// runs the source synchronously to completion in a fresh interpreter, and
/// returns a rendering of the final expression value, or the interpreter's
/// diagnostic on failure. What a script computes may depend on more than its
/// text, so nothing is stated of which outcome comes back.
#[verifier::external_body]
fn eval_source_raw(source: &str) -> (r: Result<String, String>) {
    let lua = mlua_extras::mlua::Lua::new();
    match lua.load(source).eval::<mlua_extras::mlua::Value>() {
        Ok(value) => Ok(format!("{value:?}")),
        Err(err) => Err(format!("{err}")),
    }
}

/// Maps a raw evaluation outcome into the library's error taxonomy: a
/// success keeps the rendered value, a failure becomes a `ScriptError`
/// carrying the diagnostic.
pub fn script_outcome(raw: Result<String, String>) -> (r: Result<String, ScriptError>)
    ensures
        raw matches Ok(v) ==> r matches Ok(w) && w@ == v@,
        raw matches Err(m) ==> r matches Err(e) && e@ == m@,
{
    match raw {
        Ok(v) => Ok(v),
        Err(m) => Err(ScriptError { message: m }),
    }
}

/// Compiles and runs a script synchronously to completion: on success the
/// rendering of its final expression value, on failure a recoverable
/// `ScriptError`. Every outcome of the interpreter is handed back through
/// `script_outcome`; none is swallowed and none aborts the process.
pub fn load_and_evaluate(source: &str) -> (r: Result<String, ScriptError>) {
    script_outcome(eval_source_raw(source))
}

} // verus!
