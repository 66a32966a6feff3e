//! Named constants of the modules of the environment: their names, locations and types.

use vstd::prelude::*;

use crate::env::{GlobalEnv, ModuleEnv};
use crate::loc::Loc;
use crate::model::{ModuleId, NamedConstantId};
use crate::symbol::Symbol;
use crate::ty::{Type, TypeView};

verus! {

/// The data of a named constant.
pub struct NamedConstantData {
    /// The module that declares the constant.
    pub module_id: ModuleId,
    /// The name of the constant.
    pub name: Symbol,
    /// The location of the constant.
    pub loc: Loc,
    /// The type of the constant.
    pub typ: Type,
}

impl GlobalEnv {
    /// The named constants are consistent: each lives in a module of the environment under a
    /// name of the pool, and no module declares two of the same name.
    pub open spec fn constants_wf(&self) -> bool {
        &&& forall|i: int|
            0 <= i < self.named_constants@.len() ==> (#[trigger] self.named_constants@[i]).module_id@
                < self.module_data@.len()
        &&& forall|i: int|
            0 <= i < self.named_constants@.len() ==> self.symbol_pool.has(
                (#[trigger] self.named_constants@[i]).name,
            )
        &&& forall|i: int, j: int|
            0 <= i < self.named_constants@.len() && 0 <= j < self.named_constants@.len() && i != j
                ==> !((#[trigger] self.named_constants@[i]).module_id
                == (#[trigger] self.named_constants@[j]).module_id && self.named_constants@[i].name
                == self.named_constants@[j].name)
    }
}

/// The positions of the named constants of `cs` that the module `m` declares, in increasing
/// order.
pub open spec fn constant_positions(cs: Seq<NamedConstantData>, m: nat) -> Seq<int>
    decreases cs.len(),
{
    if cs.len() == 0 {
        Seq::empty()
    } else {
        let rest = constant_positions(cs.drop_last(), m);
        if cs.last().module_id@ == m {
            rest.push(cs.len() - 1)
        } else {
            rest
        }
    }
}

/// The named constants of the module `m` are listed by their positions, each once, in increasing
/// order: a position is listed exactly when its constant belongs to `m`.
pub proof fn lemma_constant_positions(sd: Seq<NamedConstantData>, m: nat)
    ensures
        forall|x: int|
            constant_positions(sd, m).contains(x) <==> 0 <= x < sd.len() && sd[x].module_id@ == m,
        forall|a: int, b: int|
            0 <= a < b < constant_positions(sd, m).len() ==> constant_positions(sd, m)[a]
                < constant_positions(sd, m)[b],
    decreases sd.len(),
{
    if sd.len() > 0 {
        let init = sd.drop_last();
        lemma_constant_positions(init, m);
        let rest = constant_positions(init, m);
        assert forall|x: int|
            constant_positions(sd, m).contains(x) <==> 0 <= x < sd.len() && sd[x].module_id@ == m by {
            if 0 <= x < init.len() {
                assert(init[x] == sd[x]);
            }
            if sd.last().module_id@ == m {
                crate::env::lemma_contains_push(rest, sd.len() - 1, x);
            }
        }
        if sd.last().module_id@ == m {
            let all = rest.push(sd.len() - 1);
            assert forall|a: int, b: int|
                #![trigger all[a], all[b]]
                0 <= a < b < all.len() implies all[a] < all[b] by {
                if b == rest.len() {
                    assert(rest.contains(rest[a]));
                } else {
                    assert(all[a] == rest[a] && all[b] == rest[b]);
                }
            }
        }
    }
}

/// The positions of the named constants that `cs` refers to.
pub open spec fn constant_indices(cs: Seq<NamedConstantEnv<'_>>) -> Seq<int> {
    cs.map_values(|c: NamedConstantEnv<'_>| c.index() as int)
}

impl<'env> ModuleEnv<'env> {
    /// Gets the named constant of this module with the given name.
    pub fn find_named_constant(&self, name: Symbol) -> (r: Option<NamedConstantEnv<'env>>)
        ensures
            r matches Some(c) ==> c.env() == self.env() && c.index()
                < self.env().named_constants@.len() && c.data().module_id@ == self.index()
                && c.data().name == name,
            r is None ==> forall|j: int|
                0 <= j < self.env().named_constants@.len() ==> !((
                #[trigger] self.env().named_constants@[j]).module_id@ == self.index()
                    && self.env().named_constants@[j].name == name),
    {
        proof {
            use_type_invariant(self);
        }
        let env = self.env;
        let n = env.named_constants.len();
        let mut i: usize = 0;
        while i < n
            invariant
                env == self.env,
                env.wf(),
                self.idx < env.module_data@.len(),
                n == env.named_constants@.len(),
                i <= n,
                forall|j: int|
                    0 <= j < i ==> !((#[trigger] env.named_constants@[j]).module_id@ == self.idx
                        && env.named_constants@[j].name == name),
            decreases n - i,
        {
            let c = &env.named_constants[i];
            if c.module_id.to_usize() == self.idx && c.name == name {
                return Some(NamedConstantEnv { module_env: ModuleEnv { env, idx: self.idx }, idx: i });
            }
            i = i + 1;
        }
        None
    }

    /// Gets the named constant of this module with the given id, which must exist.
    pub fn get_named_constant(&self, id: NamedConstantId) -> (r: NamedConstantEnv<'env>)
        requires
            exists|j: int|
                0 <= j < self.env().named_constants@.len() && (
                #[trigger] self.env().named_constants@[j]).module_id@ == self.index()
                    && self.env().named_constants@[j].name == id@,
        ensures
            r.env() == self.env(),
            r.index() < self.env().named_constants@.len(),
            r.data().module_id@ == self.index(),
            r.data().name == id@,
    {
        match self.find_named_constant(id.symbol()) {
            Some(c) => c,
            None => {
                proof {
                    assert(false);
                }
                proof {
                    use_type_invariant(self);
                }
                NamedConstantEnv { module_env: ModuleEnv { env: self.env, idx: self.idx }, idx: 0 }
            },
        }
    }

    /// Gets the named constant of this module with the given id, which must exist, consuming
    /// this module reference.
    pub fn into_named_constant(self, id: NamedConstantId) -> (r: NamedConstantEnv<'env>)
        requires
            exists|j: int|
                0 <= j < self.env().named_constants@.len() && (
                #[trigger] self.env().named_constants@[j]).module_id@ == self.index()
                    && self.env().named_constants@[j].name == id@,
        ensures
            r.env() == self.env(),
            r.index() < self.env().named_constants@.len(),
            r.data().module_id@ == self.index(),
            r.data().name == id@,
    {
        self.get_named_constant(id)
    }

    /// Gets the number of named constants in this module.
    pub fn get_named_constant_count(&self) -> (r: usize)
        ensures
            r == constant_positions(self.env().named_constants@, self.index()).len(),
    {
        proof {
            use_type_invariant(self);
        }
        let env = self.env;
        let n = env.named_constants.len();
        let mut count: usize = 0;
        let mut i: usize = 0;
        while i < n
            invariant
                env == self.env,
                n == env.named_constants@.len(),
                i <= n,
                count == constant_positions(env.named_constants@.take(i as int), self.idx as nat).len(),
                count <= i,
            decreases n - i,
        {
            proof {
                assert(env.named_constants@.take(i + 1).drop_last() =~= env.named_constants@.take(
                    i as int,
                ));
            }
            if env.named_constants[i].module_id.to_usize() == self.idx {
                count = count + 1;
            }
            i = i + 1;
        }
        proof {
            assert(env.named_constants@.take(n as int) =~= env.named_constants@);
        }
        count
    }

    /// The named constants of this module, in the order of the environment.
    pub fn get_named_constants(&self) -> (r: Vec<NamedConstantEnv<'env>>)
        ensures
            forall|k: int| 0 <= k < r@.len() ==> (#[trigger] r@[k]).env() == self.env(),
            constant_indices(r@) == constant_positions(self.env().named_constants@, self.index()),
    {
        proof {
            use_type_invariant(self);
        }
        let env = self.env;
        let n = env.named_constants.len();
        let mut r: Vec<NamedConstantEnv<'env>> = Vec::new();
        let mut i: usize = 0;
        while i < n
            invariant
                env == self.env,
                env.wf(),
                self.idx < env.module_data@.len(),
                n == env.named_constants@.len(),
                i <= n,
                forall|k: int| 0 <= k < r@.len() ==> (#[trigger] r@[k]).env() == env,
                constant_indices(r@) == constant_positions(env.named_constants@.take(i as int), self.idx as nat),
            decreases n - i,
        {
            let ghost before = r@;
            proof {
                assert(env.named_constants@.take(i + 1).drop_last() =~= env.named_constants@.take(
                    i as int,
                ));
            }
            if env.named_constants[i].module_id.to_usize() == self.idx {
                r.push(NamedConstantEnv { module_env: ModuleEnv { env, idx: self.idx }, idx: i });
                proof {
                    assert(constant_indices(r@) =~= constant_indices(before).push(i as int));
                }
            }
            i = i + 1;
        }
        proof {
            assert(env.named_constants@.take(n as int) =~= env.named_constants@);
        }
        r
    }

    /// The named constants of this module, in the order of the environment, consuming this
    /// module reference.
    pub fn into_named_constants(self) -> (r: Vec<NamedConstantEnv<'env>>)
        ensures
            forall|k: int| 0 <= k < r@.len() ==> (#[trigger] r@[k]).env() == self.env(),
            constant_indices(r@) == constant_positions(self.env().named_constants@, self.index()),
    {
        self.get_named_constants()
    }
}

/// A reference to a named constant of the environment.
pub struct NamedConstantEnv<'env> {
    module_env: ModuleEnv<'env>,
    idx: usize,
}

impl<'env> NamedConstantEnv<'env> {
    #[verifier::type_invariant]
    spec fn valid(self) -> bool {
        &&& self.module_env.env.wf()
        &&& self.idx < self.module_env.env.named_constants@.len()
        &&& self.module_env.idx == self.module_env.env.named_constants@[self.idx as int].module_id@
    }

    /// The environment of this constant.
    pub closed spec fn env(self) -> &'env GlobalEnv {
        self.module_env.env
    }

    /// The position of this constant in the environment.
    pub closed spec fn index(self) -> nat {
        self.idx as nat
    }

    /// The data of this constant.
    pub open spec fn data(self) -> NamedConstantData {
        self.env().named_constants@[self.index() as int]
    }

    /// The module that declares this constant.
    pub fn module_env(&self) -> (r: &ModuleEnv<'env>)
        ensures
            r.env() == self.env(),
            r.index() == self.data().module_id@,
    {
        proof {
            use_type_invariant(self);
        }
        &self.module_env
    }

    /// Returns the name of this constant.
    pub fn get_name(&self) -> (r: Symbol)
        ensures
            r == self.data().name,
    {
        proof {
            use_type_invariant(self);
        }
        self.module_env.env.named_constants[self.idx].name
    }

    /// Returns the id of this constant.
    pub fn get_id(&self) -> (r: NamedConstantId)
        ensures
            r@ == self.data().name,
    {
        NamedConstantId::new(self.get_name())
    }

    /// Returns the location of this constant.
    pub fn get_loc(&self) -> (r: Loc)
        ensures
            r@ == self.data().loc@,
    {
        proof {
            use_type_invariant(self);
        }
        self.module_env.env.named_constants[self.idx].loc.duplicate()
    }

    /// Returns the type of this constant.
    pub fn get_type(&self) -> (r: Type)
        ensures
            r@ == self.data().typ@,
    {
        proof {
            use_type_invariant(self);
        }
        self.module_env.env.named_constants[self.idx].typ.duplicate()
    }
}

} // verus!
