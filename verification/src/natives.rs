//! Functions that the prover knows by name: the qualified ids of well-known functions of the
//! prover, ghost, log, standard and Sui modules, and the sets of them that are deterministic,
//! that never abort, that are intrinsic, or that are used as functions.

use vstd::prelude::*;

use crate::env::{GlobalEnv, contains_qid, fun_key};
use crate::model::{FunId, ModuleId, QualifiedId};
use crate::sorted_set::{lemma_increasing_no_duplicates, sorted_set, strictly_increasing};
use crate::symbol::Symbol;

verus! {

/// The views of a sequence of strings.
pub open spec fn str_views(s: Seq<&str>) -> Seq<Seq<char>> {
    s.map_values(|x: &str| x@)
}

/// The views of a sequence of pairs of a module name and a function name.
pub open spec fn pair_views(s: Seq<(&str, &str)>) -> Seq<(Seq<char>, Seq<char>)> {
    s.map_values(|p: (&str, &str)| (p.0@, p.1@))
}

/// The pairs of the module name `m` with each function name of `fs`.
pub open spec fn in_module(m: Seq<char>, fs: Seq<Seq<char>>) -> Seq<(Seq<char>, Seq<char>)> {
    fs.map_values(|f: Seq<char>| (m, f))
}

impl GlobalEnv {
    /// The module at position `i` is the first one named `name` that declares functions.
    pub open spec fn first_module(&self, i: int, name: Seq<char>) -> bool {
        &&& 0 <= i < self.module_data@.len()
        &&& self.module_named(i, name)
        &&& forall|k: int| 0 <= k < i ==> !#[trigger] self.module_named(k, name)
    }

    /// Some module named `name` declares functions.
    pub open spec fn has_module(&self, name: Seq<char>) -> bool {
        exists|i: int| 0 <= i < self.module_data@.len() && #[trigger] self.module_named(i, name)
    }

    /// `q` names the function `fun_name` of the first module named `module_name`, whether or
    /// not that module declares such a function.
    pub open spec fn is_fun_qid(
        &self,
        q: QualifiedId<FunId>,
        module_name: Seq<char>,
        fun_name: Seq<char>,
    ) -> bool {
        &&& self.first_module(q.module_id@ as int, module_name)
        &&& q.id@@ < self.symbol_pool@.len()
        &&& self.symbol_pool@[q.id@@ as int] == fun_name
    }

    /// `q` is the qualified id of the function `fun_name` declared in the first module named
    /// `module_name`.
    pub open spec fn finds_qid(
        &self,
        q: QualifiedId<FunId>,
        module_name: Seq<char>,
        fun_name: Seq<char>,
    ) -> bool {
        self.fun_qid_opt(module_name, fun_name) == Some(q)
    }

    /// The function names of `names`, pairs of a module name and a function name, are in the
    /// symbol pool.
    pub open spec fn has_names(&self, names: Seq<(Seq<char>, Seq<char>)>) -> bool {
        forall|k: int| 0 <= k < names.len() ==> self.symbol_pool@.contains(#[trigger] names[k].1)
    }

    /// `other` is this environment with strings added to its symbol pool.
    pub open spec fn grows_to(&self, other: &GlobalEnv) -> bool {
        &&& self.symbol_pool@.len() <= other.symbol_pool@.len()
        &&& forall|i: int|
            0 <= i < self.symbol_pool@.len() ==> #[trigger] other.symbol_pool@[i]
                == self.symbol_pool@[i]
        &&& self.next_free_node_id == other.next_free_node_id
        &&& self.global_id_counter == other.global_id_counter
        &&& self.diags == other.diags
        &&& self.exp_info == other.exp_info
        &&& self.same_declarations(other)
    }

    /// The qualified ids that name the functions of `names`, pairs of a module name and a
    /// function name, whether or not the modules declare them.
    pub open spec fn fun_qids(&self, names: Seq<(Seq<char>, Seq<char>)>) -> Set<
        QualifiedId<FunId>,
    > {
        Set::new(
            |q: QualifiedId<FunId>|
                exists|k: int|
                    0 <= k < names.len() && #[trigger] self.is_fun_qid(q, names[k].0, names[k].1),
        )
    }

    /// The qualified ids of the functions, among the pairs of a module name and a function
    /// name of `names`, that the environment declares.
    pub open spec fn opt_qids(&self, names: Seq<(Seq<char>, Seq<char>)>) -> Set<
        QualifiedId<FunId>,
    > {
        Set::new(
            |q: QualifiedId<FunId>|
                exists|k: int|
                    0 <= k < names.len() && #[trigger] self.finds_qid(q, names[k].0, names[k].1),
        )
    }

    /// Growing the symbol pool keeps the environment well-formed and the names of its
    /// modules and functions.
    pub(crate) proof fn lemma_grows(&self, other: &GlobalEnv)
        requires
            self.wf(),
            self.grows_to(other),
        ensures
            other.wf(),
            forall|i: int, name: Seq<char>|
                0 <= i < self.module_data@.len() ==> (#[trigger] other.module_named(i, name)
                    == self.module_named(i, name)),
            forall|j: int|
                0 <= j < self.function_data@.len() ==> #[trigger] other.fun_name_str(j)
                    == self.fun_name_str(j),
    {
        assert forall|i: int, name: Seq<char>| 0 <= i < self.module_data@.len() implies (
        #[trigger] other.module_named(i, name) == self.module_named(i, name)) by {
            assert(self.symbol_pool.has(self.module_data@[i].name));
        }
        assert forall|j: int| 0 <= j < self.function_data@.len() implies #[trigger] other.fun_name_str(
            j,
        ) == self.fun_name_str(j) by {
            assert(self.symbol_pool.has(self.function_data@[j].id@));
        }
    }

    /// Growing the symbol pool keeps which modules are there and which is the first of a
    /// name.
    pub proof fn lemma_grows_modules(&self, other: &GlobalEnv, name: Seq<char>)
        requires
            self.wf(),
            self.grows_to(other),
        ensures
            other.has_module(name) == self.has_module(name),
            forall|i: int| #[trigger] other.first_module(i, name) == self.first_module(i, name),
    {
        self.lemma_grows(other);
        if self.has_module(name) {
            let i = choose|i: int| 0 <= i < self.module_data@.len() && #[trigger] self.module_named(i, name);
            assert(other.module_named(i, name));
        }
        if other.has_module(name) {
            let i = choose|i: int|
                0 <= i < other.module_data@.len() && #[trigger] other.module_named(i, name);
            assert(self.module_named(i, name));
        }
        assert forall|i: int| #[trigger] other.first_module(i, name) == self.first_module(i, name) by {
            if 0 <= i < self.module_data@.len() {
                assert(other.module_named(i, name) == self.module_named(i, name));
                if self.first_module(i, name) {
                    assert forall|k: int| 0 <= k < i implies !#[trigger] other.module_named(k, name) by {
                        assert(other.module_named(k, name) == self.module_named(k, name));
                    }
                }
                if other.first_module(i, name) {
                    assert forall|k: int| 0 <= k < i implies !#[trigger] self.module_named(k, name) by {
                        assert(other.module_named(k, name) == self.module_named(k, name));
                    }
                }
            }
        }
    }

    /// In a well-formed environment with a pool of distinct strings, the witnesses of a
    /// lookup by name all give the same qualified id.
    pub(crate) proof fn lemma_witness_unique(
        &self,
        module_name: Seq<char>,
        fun_name: Seq<char>,
        i1: int,
        j1: int,
        i2: int,
        j2: int,
    )
        requires
            self.wf(),
            self.symbol_pool.distinct(),
            self.qid_witness(i1, j1, module_name, fun_name),
            self.qid_witness(i2, j2, module_name, fun_name),
        ensures
            fun_key(self.function_data@[j1]) == fun_key(self.function_data@[j2]),
    {
        assert(i1 == i2) by {
            if i1 < i2 {
                assert(!self.module_named(i1, module_name));
            }
            if i2 < i1 {
                assert(!self.module_named(i2, module_name));
            }
        }
        let f1 = self.function_data@[j1];
        let f2 = self.function_data@[j2];
        assert(self.symbol_pool.has(f1.id@));
        assert(self.symbol_pool.has(f2.id@));
        assert(f1.id@@ == f2.id@@);
        Symbol::lemma_view_injective(f1.id@, f2.id@);
        FunId::lemma_view_injective(f1.id, f2.id);
        ModuleId::lemma_view_injective(f1.module_id, f2.module_id);
    }

    /// Growing a pool of distinct strings keeps what a lookup by name finds.
    pub proof fn lemma_grows_fun_qid_opt(&self, other: &GlobalEnv, module_name: Seq<char>, fun_name: Seq<char>)
        requires
            self.wf(),
            self.symbol_pool.distinct(),
            self.grows_to(other),
        ensures
            other.fun_qid_opt(module_name, fun_name) == self.fun_qid_opt(module_name, fun_name),
    {
        self.lemma_grows(other);
        assert forall|i: int, j: int|
            #[trigger] other.qid_witness(i, j, module_name, fun_name) == self.qid_witness(
                i,
                j,
                module_name,
                fun_name,
            ) by {
            if 0 <= i < self.module_data@.len() && 0 <= j < self.function_data@.len() {
                assert(other.module_named(i, module_name) == self.module_named(i, module_name));
                assert(other.fun_name_str(j) == self.fun_name_str(j));
                if self.qid_witness(i, j, module_name, fun_name) {
                    assert forall|k: int| 0 <= k < i implies !#[trigger] other.module_named(
                        k,
                        module_name,
                    ) by {
                        assert(other.module_named(k, module_name) == self.module_named(k, module_name));
                    }
                }
                if other.qid_witness(i, j, module_name, fun_name) {
                    assert forall|k: int| 0 <= k < i implies !#[trigger] self.module_named(
                        k,
                        module_name,
                    ) by {
                        assert(other.module_named(k, module_name) == self.module_named(k, module_name));
                    }
                }
            }
        }
        if exists|i: int, j: int| self.qid_witness(i, j, module_name, fun_name) {
            let (i1, j1) = choose|i: int, j: int| self.qid_witness(i, j, module_name, fun_name);
            let (i2, j2) = choose|i: int, j: int| other.qid_witness(i, j, module_name, fun_name);
            assert(other.qid_witness(i1, j1, module_name, fun_name));
            assert(self.qid_witness(i2, j2, module_name, fun_name));
            self.lemma_witness_unique(module_name, fun_name, i1, j1, i2, j2);
        }
    }

    /// Growing a pool of distinct strings keeps the qualified ids of declared functions.
    pub proof fn lemma_grows_opt_qids(&self, other: &GlobalEnv, names: Seq<(Seq<char>, Seq<char>)>)
        requires
            self.wf(),
            self.symbol_pool.distinct(),
            self.grows_to(other),
        ensures
            other.opt_qids(names) == self.opt_qids(names),
    {
        assert forall|k: int| 0 <= k < names.len() implies other.fun_qid_opt(names[k].0, names[k].1)
            == self.fun_qid_opt(names[k].0, names[k].1) by {
            self.lemma_grows_fun_qid_opt(other, names[k].0, names[k].1);
        }
        assert(other.opt_qids(names) =~= self.opt_qids(names)) by {
            assert forall|q: QualifiedId<FunId>| #[trigger] other.opt_qids(names).contains(q)
                == self.opt_qids(names).contains(q) by {
                if other.opt_qids(names).contains(q) {
                    let k = choose|k: int|
                        0 <= k < names.len() && #[trigger] other.finds_qid(q, names[k].0, names[k].1);
                    assert(self.finds_qid(q, names[k].0, names[k].1));
                }
                if self.opt_qids(names).contains(q) {
                    let k = choose|k: int|
                        0 <= k < names.len() && #[trigger] self.finds_qid(q, names[k].0, names[k].1);
                    assert(other.finds_qid(q, names[k].0, names[k].1));
                }
            }
        }
    }

    /// Growing a pool into one of distinct strings keeps the qualified ids named by
    /// strings that were in the pool.
    pub proof fn lemma_grows_fun_qids(&self, other: &GlobalEnv, names: Seq<(Seq<char>, Seq<char>)>)
        requires
            self.wf(),
            other.symbol_pool.distinct(),
            self.grows_to(other),
            self.has_names(names),
        ensures
            other.fun_qids(names) == self.fun_qids(names),
    {
        assert(other.fun_qids(names) =~= self.fun_qids(names)) by {
            assert forall|q: QualifiedId<FunId>| #[trigger] other.fun_qids(names).contains(q)
                == self.fun_qids(names).contains(q) by {
                if other.fun_qids(names).contains(q) {
                    let k = choose|k: int|
                        0 <= k < names.len() && #[trigger] other.is_fun_qid(q, names[k].0, names[k].1);
                    self.lemma_grows_modules(other, names[k].0);
                    assert(self.symbol_pool@.contains(names[k].1));
                    let x = choose|x: int|
                        0 <= x < self.symbol_pool@.len() && self.symbol_pool@[x] == names[k].1;
                    assert(other.symbol_pool@[x] == names[k].1);
                    assert(q.id@@ == x);
                    assert(self.first_module(q.module_id@ as int, names[k].0));
                    assert(self.is_fun_qid(q, names[k].0, names[k].1));
                }
                if self.fun_qids(names).contains(q) {
                    let k = choose|k: int|
                        0 <= k < names.len() && #[trigger] self.is_fun_qid(q, names[k].0, names[k].1);
                    self.lemma_grows_modules(other, names[k].0);
                    assert(other.symbol_pool@[q.id@@ as int] == names[k].1);
                    assert(other.first_module(q.module_id@ as int, names[k].0));
                    assert(other.is_fun_qid(q, names[k].0, names[k].1));
                }
            }
        }
    }

    /// The id of the first module named `module_name` that declares functions, which must
    /// exist.
    pub(crate) fn find_module_id(&self, module_name: &str) -> (r: ModuleId)
        requires
            self.wf(),
            self.has_module(module_name@),
        ensures
            self.first_module(r@ as int, module_name@),
    {
        let ghost i0 = choose|i: int|
            0 <= i < self.module_data@.len() && #[trigger] self.module_named(i, module_name@);
        let msym = match self.symbol_pool.find(module_name) {
            Some(sym) => sym,
            None => {
                proof {
                    assert(self.symbol_pool.has(self.module_data@[i0].name));
                    assert(self.symbol_pool@.contains(module_name@));
                }
                return ModuleId::new(0);
            },
        };
        proof {
            assert forall|i: int| 0 <= i < self.module_data@.len() implies (self.module_named(
                i,
                module_name@,
            ) <==> ((#[trigger] self.module_data@[i]).name == msym && self.module_has_functions(
                i,
            ))) by {
                assert(self.symbol_pool.has(self.module_data@[i].name));
                Symbol::lemma_view_injective(self.module_data@[i].name, msym);
            }
        }
        match self.find_module_by_name(msym) {
            Some(m) => {
                let r = m.get_id();
                proof {
                    assert forall|k: int| 0 <= k < m.index() implies !#[trigger] self.module_named(
                        k,
                        module_name@,
                    ) by {
                        assert(self.module_data@[k] == self.module_data@[k]);
                    }
                    assert(self.module_data@[m.index() as int] == m.data());
                }
                r
            },
            None => {
                proof {
                    assert(self.module_data@[i0].name == msym);
                }
                ModuleId::new(0)
            },
        }
    }

    /// The qualified id that names the function `fun_name` of the first module named
    /// `module_name`, which must exist; the name of the function is added to the symbol pool.
    pub(crate) fn get_fun_qid(&mut self, module_name: &str, fun_name: &str) -> (r: QualifiedId<FunId>)
        requires
            old(self).wf(),
            old(self).has_module(module_name@),
        ensures
            old(self).grows_to(&*final(self)),
            final(self).wf(),
            final(self).is_fun_qid(r, module_name@, fun_name@),
            final(self).symbol_pool@.contains(fun_name@),
    {
        let mid = self.find_module_id(module_name);
        let sym = self.symbol_pool.make(fun_name);
        proof {
            old(self).lemma_grows(&*self);
            old(self).lemma_grows_modules(&*self, module_name@);
            assert(self.symbol_pool@[sym@ as int] == fun_name@);
        }
        mid.qualified(FunId::new(sym))
    }

    /// Whether the prover's vector module is there.
    pub fn has_prover_vector_module(&self) -> (r: bool)
        requires
            self.wf(),
        ensures
            r == self.has_module(Self::PROVER_VECTOR_MODULE_NAME@),
    {
        self.module_exists(Self::PROVER_VECTOR_MODULE_NAME)
    }

    /// Whether some module named `module_name` declares functions.
    pub(crate) fn module_exists(&self, module_name: &str) -> (r: bool)
        requires
            self.wf(),
        ensures
            r == self.has_module(module_name@),
    {
        match self.symbol_pool.find(module_name) {
            Some(sym) => {
                let m = self.find_module_by_name(sym);
                proof {
                    let name = module_name@;
                    assert forall|i: int| 0 <= i < self.module_data@.len() implies (
                    #[trigger] self.module_named(i, name) <==> (self.module_data@[i].name == sym
                        && self.module_has_functions(i))) by {
                        assert(self.symbol_pool.has(self.module_data@[i].name));
                        Symbol::lemma_view_injective(self.module_data@[i].name, sym);
                    }
                    match &m {
                        Some(e) => {
                            assert(self.module_data@[e.index() as int] == e.data());
                            assert(self.module_named(e.index() as int, name));
                        },
                        None => {
                            if self.has_module(name) {
                                let i = choose|i: int|
                                    0 <= i < self.module_data@.len() && #[trigger] self.module_named(
                                        i,
                                        name,
                                    );
                                assert(self.module_data@[i].name == sym);
                            }
                        },
                    }
                }
                m.is_some()
            },
            None => {
                proof {
                    let name = module_name@;
                    if self.has_module(name) {
                        let i = choose|i: int|
                            0 <= i < self.module_data@.len() && #[trigger] self.module_named(i, name);
                        assert(self.symbol_pool.has(self.module_data@[i].name));
                        assert(self.symbol_pool@.contains(name));
                    }
                }
                false
            },
        }
    }
}

/// Adds `q` to `qids` unless it is there.
fn insert_qid(qids: &mut Vec<QualifiedId<FunId>>, q: QualifiedId<FunId>)
    requires
        old(qids)@.no_duplicates(),
    ensures
        final(qids)@.no_duplicates(),
        final(qids)@.to_set() == old(qids)@.to_set().insert(q),
{
    if !contains_qid(qids, &q) {
        qids.push(q);
        proof {
            assert(qids@ == old(qids)@.push(q));
            assert(qids@.to_set() =~= old(qids)@.to_set().insert(q)) by {
                assert forall|x: QualifiedId<FunId>| #[trigger] qids@.contains(x) implies old(
                    qids,
                )@.to_set().insert(q).contains(x) by {
                    let k = choose|k: int| 0 <= k < qids@.len() && qids@[k] == x;
                    if k < old(qids)@.len() {
                        assert(old(qids)@[k] == x);
                    }
                }
                assert forall|x: QualifiedId<FunId>| #[trigger] old(qids)@.contains(x) implies qids@.contains(x) by {
                    let k = choose|k: int| 0 <= k < old(qids)@.len() && old(qids)@[k] == x;
                    assert(qids@[k] == x);
                }
                assert(qids@[old(qids)@.len() as int] == q);
            }
        }
    } else {
        assert(qids@.to_set() =~= old(qids)@.to_set().insert(q));
    }
}

impl GlobalEnv {
    /// Adds to `qids` the qualified ids that name the functions of `names`, pairs of a module
    /// name and a function name, where each module must exist; the names of the functions are
    /// added to the symbol pool.
    fn add_fun_qids(&mut self, qids: &mut Vec<QualifiedId<FunId>>, names: &Vec<(&str, &str)>)
        requires
            old(self).wf(),
            forall|k: int|
                0 <= k < names@.len() ==> old(self).has_module(#[trigger] pair_views(names@)[k].0),
            old(qids)@.no_duplicates(),
        ensures
            old(self).grows_to(&*final(self)),
            final(self).wf(),
            final(qids)@.no_duplicates(),
            final(self).has_names(pair_views(names@)),
            final(qids)@.to_set() == old(qids)@.to_set() + final(self).fun_qids(
                pair_views(names@),
            ),
    {
        let ghost ps = pair_views(names@);
        let n = names.len();
        let mut i: usize = 0;
        proof {
            assert(self.fun_qids(ps.take(0)) =~= Set::empty());
            assert(qids@.to_set() =~= old(qids)@.to_set() + Set::empty());
        }
        while i < n
            invariant
                n == names@.len(),
                ps == pair_views(names@),
                i <= n,
                old(self).grows_to(&*self),
                old(self).wf(),
                self.wf(),
                forall|k: int| 0 <= k < n ==> old(self).has_module(#[trigger] ps[k].0),
                qids@.no_duplicates(),
                forall|k: int| 0 <= k < i ==> self.symbol_pool@.contains(#[trigger] ps[k].1),
                qids@.to_set() == old(qids)@.to_set() + self.fun_qids(ps.take(i as int)),
            decreases n - i,
        {
            let ghost before = *self;
            let (m, f) = names[i];
            proof {
                assert(ps[i as int] == (m@, f@));
                assert(old(self).has_module(ps[i as int].0));
                old(self).lemma_grows_modules(&*self, m@);
            }
            let q = self.get_fun_qid(m, f);
            insert_qid(qids, q);
            proof {
                use_type_invariant(&self.symbol_pool);
                assert forall|k: int| 0 <= k < ps.take(i as int).len() implies before.symbol_pool@.contains(
                    #[trigger] ps.take(i as int)[k].1,
                ) by {
                    assert(ps.take(i as int)[k] == ps[k]);
                }
                assert(before.has_names(ps.take(i as int)));
                before.lemma_grows_fun_qids(&*self, ps.take(i as int));
                assert forall|k: int| 0 <= k < i + 1 implies self.symbol_pool@.contains(
                    #[trigger] ps[k].1,
                ) by {
                    if k < i {
                        let x = choose|x: int|
                            0 <= x < before.symbol_pool@.len() && before.symbol_pool@[x] == ps[k].1;
                        assert(self.symbol_pool@[x] == ps[k].1);
                    }
                }
                let prev = self.fun_qids(ps.take(i as int));
                let next = self.fun_qids(ps.take(i + 1));
                assert(next =~= prev.insert(q)) by {
                    assert(ps.take(i + 1)[i as int] == ps[i as int]);
                    assert forall|x: QualifiedId<FunId>| #[trigger] next.contains(x) implies prev.insert(
                        q,
                    ).contains(x) by {
                        let k = choose|k: int|
                            0 <= k < i + 1 && #[trigger] self.is_fun_qid(
                                x,
                                ps.take(i + 1)[k].0,
                                ps.take(i + 1)[k].1,
                            );
                        if k < i {
                            assert(ps.take(i + 1)[k] == ps.take(i as int)[k]);
                        } else {
                            assert(x.module_id@ == q.module_id@) by {
                                let a = x.module_id@ as int;
                                let b = q.module_id@ as int;
                                if a < b {
                                    assert(!self.module_named(a, m@));
                                }
                                if b < a {
                                    assert(!self.module_named(b, m@));
                                }
                            }
                            ModuleId::lemma_view_injective(x.module_id, q.module_id);
                            Symbol::lemma_view_injective(x.id@, q.id@);
                            FunId::lemma_view_injective(x.id, q.id);
                        }
                    }
                    assert forall|x: QualifiedId<FunId>| #[trigger] prev.insert(q).contains(x) implies next.contains(
                        x,
                    ) by {
                        if x == q {
                            assert(self.is_fun_qid(q, ps.take(i + 1)[i as int].0, ps.take(i + 1)[i as int].1));
                        } else {
                            let k = choose|k: int|
                                0 <= k < i && #[trigger] self.is_fun_qid(
                                    x,
                                    ps.take(i as int)[k].0,
                                    ps.take(i as int)[k].1,
                                );
                            assert(ps.take(i + 1)[k] == ps.take(i as int)[k]);
                        }
                    }
                }
                assert(qids@.to_set() =~= old(qids)@.to_set() + next);
            }
            i = i + 1;
        }
        proof {
            assert(ps.take(n as int) =~= ps);
        }
    }

    /// Adds to `qids` the qualified ids that name the functions `fun_names` of the first
    /// module named `module_name`, which must exist; the names of the functions are added to
    /// the symbol pool.
    fn add_fun_qids_in(
        &mut self,
        qids: &mut Vec<QualifiedId<FunId>>,
        module_name: &str,
        fun_names: &Vec<&str>,
    )
        requires
            old(self).wf(),
            old(self).has_module(module_name@),
            old(qids)@.no_duplicates(),
        ensures
            old(self).grows_to(&*final(self)),
            final(self).wf(),
            final(qids)@.no_duplicates(),
            final(self).has_names(in_module(module_name@, str_views(fun_names@))),
            final(qids)@.to_set() == old(qids)@.to_set() + final(self).fun_qids(
                in_module(module_name@, str_views(fun_names@)),
            ),
    {
        let ghost target = in_module(module_name@, str_views(fun_names@));
        let mut pairs: Vec<(&str, &str)> = Vec::new();
        let n = fun_names.len();
        let mut i: usize = 0;
        while i < n
            invariant
                n == fun_names@.len(),
                i <= n,
                target == in_module(module_name@, str_views(fun_names@)),
                pair_views(pairs@) == target.take(i as int),
            decreases n - i,
        {
            let ghost before = pairs@;
            pairs.push((module_name, fun_names[i]));
            proof {
                assert(target.len() == n);
                assert(pair_views(before).len() == before.len());
                assert(before.len() == i);
                assert(pairs@ == before.push((module_name, fun_names@[i as int])));
                assert(target[i as int] == (module_name@, fun_names@[i as int]@));
                assert forall|j: int| 0 <= j < i + 1 implies #[trigger] pair_views(pairs@)[j]
                    == target.take(i + 1)[j] by {
                    assert(target.take(i + 1)[j] == target[j]);
                    if j < i {
                        assert(pairs@[j] == before[j]);
                        assert(pair_views(before)[j] == target.take(i as int)[j]);
                        assert(target.take(i as int)[j] == target[j]);
                    } else {
                        assert(pairs@[j] == (module_name, fun_names@[i as int]));
                    }
                }
                assert(pair_views(pairs@) =~= target.take(i + 1));
            }
            i = i + 1;
        }
        proof {
            assert(target.take(n as int) =~= target);
            assert forall|k: int| 0 <= k < pairs@.len() implies old(self).has_module(
                #[trigger] pair_views(pairs@)[k].0,
            ) by {
                assert(pair_views(pairs@)[k] == target[k]);
            }
        }
        self.add_fun_qids(qids, &pairs);
    }

    /// Adds to `qids` the qualified ids of the functions, among the pairs of a module name and
    /// a function name of `names`, that the environment declares.
    fn add_opt_qids(&self, qids: &mut Vec<QualifiedId<FunId>>, names: &Vec<(&str, &str)>)
        requires
            self.wf(),
            old(qids)@.no_duplicates(),
        ensures
            final(qids)@.no_duplicates(),
            final(qids)@.to_set() == old(qids)@.to_set() + self.opt_qids(pair_views(names@)),
    {
        let n = names.len();
        let mut i: usize = 0;
        proof {
            assert(self.opt_qids(pair_views(names@).take(0)) =~= Set::empty());
            assert(qids@.to_set() =~= old(qids)@.to_set() + Set::empty());
        }
        while i < n
            invariant
                n == names@.len(),
                i <= n,
                self.wf(),
                qids@.no_duplicates(),
                qids@.to_set() == old(qids)@.to_set() + self.opt_qids(
                    pair_views(names@).take(i as int),
                ),
            decreases n - i,
        {
            let ghost ps = pair_views(names@);
            let ghost before = qids@.to_set();
            let (m, f) = names[i];
            let found = self.get_fun_qid_opt(m, f);
            match found {
                Some(q) => {
                    insert_qid(qids, q);
                },
                None => {},
            }
            proof {
                let prev = self.opt_qids(ps.take(i as int));
                let next = self.opt_qids(ps.take(i + 1));
                assert(ps[i as int] == (m@, f@));
                assert(ps.take(i + 1)[i as int] == ps[i as int]);
                assert forall|x: QualifiedId<FunId>| #[trigger] next.contains(x) == (prev.contains(x)
                    || found == Some(x)) by {
                    if next.contains(x) {
                        let k = choose|k: int|
                            0 <= k < i + 1 && #[trigger] self.finds_qid(
                                x,
                                ps.take(i + 1)[k].0,
                                ps.take(i + 1)[k].1,
                            );
                        if k < i {
                            assert(ps.take(i + 1)[k] == ps.take(i as int)[k]);
                        }
                    }
                    if prev.contains(x) {
                        let k = choose|k: int|
                            0 <= k < i && #[trigger] self.finds_qid(
                                x,
                                ps.take(i as int)[k].0,
                                ps.take(i as int)[k].1,
                            );
                        assert(ps.take(i + 1)[k] == ps.take(i as int)[k]);
                    }
                    if found == Some(x) {
                        assert(self.finds_qid(x, ps.take(i + 1)[i as int].0, ps.take(i + 1)[i as int].1));
                    }
                }
                match found {
                    Some(q) => {
                        assert(next =~= prev.insert(q));
                    },
                    None => {
                        assert(next =~= prev);
                    },
                }
                assert(qids@.to_set() =~= old(qids)@.to_set() + next);
            }
            i = i + 1;
        }
        proof {
            assert(pair_views(names@).take(n as int) =~= pair_views(names@));
        }
    }
}

/// Growth of the symbol pool composes.
pub proof fn lemma_grows_trans(a: GlobalEnv, b: GlobalEnv, c: GlobalEnv)
    requires
        a.grows_to(&b),
        b.grows_to(&c),
    ensures
        a.grows_to(&c),
{
    assert forall|i: int| 0 <= i < a.symbol_pool@.len() implies #[trigger] c.symbol_pool@[i]
        == a.symbol_pool@[i] by {
        assert(b.symbol_pool@[i] == a.symbol_pool@[i]);
    }
}

/// Names in the symbol pool stay there as it grows.
proof fn lemma_grows_has_names(a: GlobalEnv, b: GlobalEnv, names: Seq<(Seq<char>, Seq<char>)>)
    requires
        a.grows_to(&b),
        a.has_names(names),
    ensures
        b.has_names(names),
{
    assert forall|k: int| 0 <= k < names.len() implies b.symbol_pool@.contains(
        #[trigger] names[k].1,
    ) by {
        let x = choose|x: int| 0 <= x < a.symbol_pool@.len() && a.symbol_pool@[x] == names[k].1;
        assert(b.symbol_pool@[x] == names[k].1);
    }
}

impl GlobalEnv {
    /// The qualified ids that name the functions of the prover's vector modules, where the
    /// vector module is there.
    pub open spec fn prover_vector_qids(&self) -> Set<QualifiedId<FunId>> {
        if self.has_module(GlobalEnv::PROVER_VECTOR_MODULE_NAME@) {
            self.fun_qids(in_module(GlobalEnv::PROVER_MODULE_NAME@, prover_lambda_funs()))
                + self.fun_qids(in_module(GlobalEnv::PROVER_VECTOR_MODULE_NAME@, vector_iter_funs()))
                + self.fun_qids(
                in_module(GlobalEnv::PROVER_VECTOR_EXT_MODULE_NAME@, vector_ext_pure_funs()),
            )
        } else {
            Set::empty()
        }
    }

    /// Where the vector module is there, the names of the functions of the prover's vector
    /// modules are in the symbol pool.
    pub open spec fn has_prover_vector_names(&self) -> bool {
        self.has_module(GlobalEnv::PROVER_VECTOR_MODULE_NAME@) ==> {
            &&& self.has_names(in_module(GlobalEnv::PROVER_MODULE_NAME@, prover_lambda_funs()))
            &&& self.has_names(in_module(GlobalEnv::PROVER_VECTOR_MODULE_NAME@, vector_iter_funs()))
            &&& self.has_names(
                in_module(GlobalEnv::PROVER_VECTOR_EXT_MODULE_NAME@, vector_ext_pure_funs()),
            )
        }
    }

    /// Growing a pool into one of distinct strings keeps the qualified ids of the functions of
    /// the prover's vector modules once their names are in the pool.
    proof fn lemma_grows_prover_vector_qids(&self, other: &GlobalEnv)
        requires
            self.wf(),
            other.symbol_pool.distinct(),
            self.grows_to(other),
            self.has_prover_vector_names(),
        ensures
            other.prover_vector_qids() == self.prover_vector_qids(),
            other.has_prover_vector_names(),
    {
        self.lemma_grows_modules(other, GlobalEnv::PROVER_VECTOR_MODULE_NAME@);
        if self.has_module(GlobalEnv::PROVER_VECTOR_MODULE_NAME@) {
            let a = in_module(GlobalEnv::PROVER_MODULE_NAME@, prover_lambda_funs());
            let b = in_module(GlobalEnv::PROVER_VECTOR_MODULE_NAME@, vector_iter_funs());
            let c = in_module(GlobalEnv::PROVER_VECTOR_EXT_MODULE_NAME@, vector_ext_pure_funs());
            self.lemma_grows_fun_qids(other, a);
            self.lemma_grows_fun_qids(other, b);
            self.lemma_grows_fun_qids(other, c);
            lemma_grows_has_names(*self, *other, a);
            lemma_grows_has_names(*self, *other, b);
            lemma_grows_has_names(*self, *other, c);
        }
    }

    /// Adds to `qids` the qualified ids that name the functions of the prover's vector
    /// modules, where the vector module is there; their names are added to the symbol pool.
    fn add_prover_vector_qids(&mut self, qids: &mut Vec<QualifiedId<FunId>>)
        requires
            old(self).wf(),
            old(self).has_module(GlobalEnv::PROVER_MODULE_NAME@),
            old(self).has_module(GlobalEnv::PROVER_VECTOR_MODULE_NAME@) ==> old(self).has_module(
                GlobalEnv::PROVER_VECTOR_EXT_MODULE_NAME@,
            ),
            old(qids)@.no_duplicates(),
        ensures
            old(self).grows_to(&*final(self)),
            final(self).wf(),
            final(qids)@.no_duplicates(),
            final(self).has_prover_vector_names(),
            final(qids)@.to_set() == old(qids)@.to_set() + final(self).prover_vector_qids(),
    {
        if self.has_prover_vector_module() {
            self.add_fun_qids_in(qids, Self::PROVER_MODULE_NAME, &prover_lambda_funs_table());
            let ghost s1 = *self;
            proof {
                old(self).lemma_grows_modules(&*self, GlobalEnv::PROVER_VECTOR_MODULE_NAME@);
            }
            self.add_fun_qids_in(qids, Self::PROVER_VECTOR_MODULE_NAME, &vector_iter_funs_table());
            let ghost s2 = *self;
            proof {
                lemma_grows_trans(*old(self), s1, s2);
                old(self).lemma_grows_modules(&*self, GlobalEnv::PROVER_VECTOR_EXT_MODULE_NAME@);
            }
            self.add_fun_qids_in(
                qids,
                Self::PROVER_VECTOR_EXT_MODULE_NAME,
                &vector_ext_pure_funs_table(),
            );
            proof {
                use_type_invariant(&self.symbol_pool);
                let a = in_module(GlobalEnv::PROVER_MODULE_NAME@, prover_lambda_funs());
                let b = in_module(GlobalEnv::PROVER_VECTOR_MODULE_NAME@, vector_iter_funs());
                lemma_grows_trans(s1, s2, *self);
                lemma_grows_trans(*old(self), s2, *self);
                s1.lemma_grows_fun_qids(&*self, a);
                s2.lemma_grows_fun_qids(&*self, b);
                lemma_grows_has_names(s1, *self, a);
                lemma_grows_has_names(s2, *self, b);
                old(self).lemma_grows_modules(&*self, GlobalEnv::PROVER_VECTOR_MODULE_NAME@);
                assert(qids@.to_set() =~= old(qids)@.to_set() + self.prover_vector_qids());
            }
        } else {
            proof {
                assert(qids@.to_set() =~= old(qids)@.to_set() + Set::empty());
            }
        }
    }

    /// The qualified ids of the native functions that the prover treats as deterministic.
    pub open spec fn deterministic_natives(&self) -> Set<QualifiedId<FunId>> {
        self.fun_qids(in_module(GlobalEnv::PROVER_MODULE_NAME@, deterministic_prover_funs()))
            + self.prover_vector_qids() + self.opt_qids(prover_ext_funs()) + self.fun_qids(
            in_module(GlobalEnv::SPEC_MODULE_NAME@, ghost_funs()),
        ) + self.fun_qids(in_module(GlobalEnv::LOG_MODULE_NAME@, log_funs())) + self.opt_qids(
            deterministic_extra_funs(),
        )
    }

    /// The qualified ids of the native functions that are deterministic: those of the
    /// prover, ghost and log modules, of the prover's vector modules where the vector module
    /// is there, and those of the standard and Sui modules that the environment declares.
    /// The prover, ghost and log modules must exist, and the vector extension module where
    /// the vector module does; the names of the functions are added to the symbol pool.
    pub fn deterministic_native_functions(&mut self) -> (r: Vec<QualifiedId<FunId>>)
        requires
            old(self).wf(),
            old(self).has_module(GlobalEnv::PROVER_MODULE_NAME@),
            old(self).has_module(GlobalEnv::SPEC_MODULE_NAME@),
            old(self).has_module(GlobalEnv::LOG_MODULE_NAME@),
            old(self).has_module(GlobalEnv::PROVER_VECTOR_MODULE_NAME@) ==> old(self).has_module(
                GlobalEnv::PROVER_VECTOR_EXT_MODULE_NAME@,
            ),
        ensures
            old(self).grows_to(&*final(self)),
            final(self).wf(),
            r@.no_duplicates(),
            strictly_increasing(r@),
            r@.to_set() == final(self).deterministic_natives(),
    {
        let mut qids: Vec<QualifiedId<FunId>> = Vec::new();
        proof {
            assert(qids@.to_set() =~= Set::empty());
        }
        self.add_fun_qids_in(&mut qids, Self::PROVER_MODULE_NAME, &deterministic_prover_funs_table());
        let ghost s1 = *self;
        proof {
            old(self).lemma_grows_modules(&*self, GlobalEnv::PROVER_MODULE_NAME@);
            old(self).lemma_grows_modules(&*self, GlobalEnv::PROVER_VECTOR_MODULE_NAME@);
            old(self).lemma_grows_modules(&*self, GlobalEnv::PROVER_VECTOR_EXT_MODULE_NAME@);
        }
        self.add_prover_vector_qids(&mut qids);
        let ghost s2 = *self;
        proof {
            use_type_invariant(&self.symbol_pool);
            lemma_grows_trans(*old(self), s1, s2);
        }
        self.add_opt_qids(&mut qids, &prover_ext_funs_table());
        proof {
            old(self).lemma_grows_modules(&*self, GlobalEnv::SPEC_MODULE_NAME@);
        }
        self.add_fun_qids_in(&mut qids, Self::SPEC_MODULE_NAME, &ghost_funs_table());
        let ghost s3 = *self;
        proof {
            lemma_grows_trans(*old(self), s2, s3);
            old(self).lemma_grows_modules(&*self, GlobalEnv::LOG_MODULE_NAME@);
        }
        self.add_fun_qids_in(&mut qids, Self::LOG_MODULE_NAME, &log_funs_table());
        let ghost s4 = *self;
        proof {
            lemma_grows_trans(*old(self), s3, s4);
        }
        self.add_opt_qids(&mut qids, &deterministic_extra_funs_table());
        proof {
            use_type_invariant(&self.symbol_pool);
            lemma_grows_trans(s1, s2, s3);
            lemma_grows_trans(s1, s3, *self);
            lemma_grows_trans(s2, s3, *self);
            s1.lemma_grows_fun_qids(
                &*self,
                in_module(GlobalEnv::PROVER_MODULE_NAME@, deterministic_prover_funs()),
            );
            s2.lemma_grows_prover_vector_qids(&*self);
            s2.lemma_grows_opt_qids(&*self, prover_ext_funs());
            s3.lemma_grows_fun_qids(&*self, in_module(GlobalEnv::SPEC_MODULE_NAME@, ghost_funs()));
            assert(qids@.to_set() =~= self.deterministic_natives());
        }
        let r = sorted_set(&qids);
        proof {
            lemma_increasing_no_duplicates(r@);
        }
        r
    }
}

impl GlobalEnv {
    /// The qualified ids of the native functions that the prover knows never to abort.
    pub open spec fn no_aborting_natives(&self) -> Set<QualifiedId<FunId>> {
        self.fun_qids(in_module(GlobalEnv::PROVER_MODULE_NAME@, no_abort_prover_funs()))
            + self.fun_qids(in_module(GlobalEnv::SPEC_MODULE_NAME@, ghost_funs()))
            + self.prover_vector_qids() + self.opt_qids(prover_ext_funs()) + self.fun_qids(
            in_module(GlobalEnv::LOG_MODULE_NAME@, log_funs()),
        ) + self.opt_qids(no_abort_extra_funs())
    }

    /// The qualified ids of the native functions that never abort: those of the prover,
    /// ghost and log modules that do not, of the prover's vector modules where the vector
    /// module is there, and those of the standard and Sui modules that the environment
    /// declares. The prover, ghost and log modules must exist, and the vector extension
    /// module where the vector module does; the names of the functions are added to the
    /// symbol pool.
    pub fn no_aborting_native_functions(&mut self) -> (r: Vec<QualifiedId<FunId>>)
        requires
            old(self).wf(),
            old(self).has_module(GlobalEnv::PROVER_MODULE_NAME@),
            old(self).has_module(GlobalEnv::SPEC_MODULE_NAME@),
            old(self).has_module(GlobalEnv::LOG_MODULE_NAME@),
            old(self).has_module(GlobalEnv::PROVER_VECTOR_MODULE_NAME@) ==> old(self).has_module(
                GlobalEnv::PROVER_VECTOR_EXT_MODULE_NAME@,
            ),
        ensures
            old(self).grows_to(&*final(self)),
            final(self).wf(),
            r@.no_duplicates(),
            strictly_increasing(r@),
            r@.to_set() == final(self).no_aborting_natives(),
    {
        let mut qids: Vec<QualifiedId<FunId>> = Vec::new();
        proof {
            assert(qids@.to_set() =~= Set::empty());
        }
        self.add_fun_qids_in(&mut qids, Self::PROVER_MODULE_NAME, &no_abort_prover_funs_table());
        let ghost s1 = *self;
        proof {
            old(self).lemma_grows_modules(&*self, GlobalEnv::SPEC_MODULE_NAME@);
        }
        self.add_fun_qids_in(&mut qids, Self::SPEC_MODULE_NAME, &ghost_funs_table());
        let ghost s2 = *self;
        proof {
            lemma_grows_trans(*old(self), s1, s2);
            old(self).lemma_grows_modules(&*self, GlobalEnv::PROVER_MODULE_NAME@);
            old(self).lemma_grows_modules(&*self, GlobalEnv::PROVER_VECTOR_MODULE_NAME@);
            old(self).lemma_grows_modules(&*self, GlobalEnv::PROVER_VECTOR_EXT_MODULE_NAME@);
        }
        self.add_prover_vector_qids(&mut qids);
        let ghost s3 = *self;
        proof {
            use_type_invariant(&self.symbol_pool);
            lemma_grows_trans(*old(self), s2, s3);
        }
        self.add_opt_qids(&mut qids, &prover_ext_funs_table());
        proof {
            old(self).lemma_grows_modules(&*self, GlobalEnv::LOG_MODULE_NAME@);
        }
        self.add_fun_qids_in(&mut qids, Self::LOG_MODULE_NAME, &log_funs_table());
        let ghost s4 = *self;
        proof {
            lemma_grows_trans(*old(self), s3, s4);
        }
        self.add_opt_qids(&mut qids, &no_abort_extra_funs_table());
        proof {
            use_type_invariant(&self.symbol_pool);
            lemma_grows_trans(s1, s2, s3);
            lemma_grows_trans(s1, s3, *self);
            lemma_grows_trans(s2, s3, *self);
            s1.lemma_grows_fun_qids(
                &*self,
                in_module(GlobalEnv::PROVER_MODULE_NAME@, no_abort_prover_funs()),
            );
            s2.lemma_grows_fun_qids(&*self, in_module(GlobalEnv::SPEC_MODULE_NAME@, ghost_funs()));
            s3.lemma_grows_prover_vector_qids(&*self);
            s3.lemma_grows_opt_qids(&*self, prover_ext_funs());
            assert(qids@.to_set() =~= self.no_aborting_natives());
        }
        let r = sorted_set(&qids);
        proof {
            lemma_increasing_no_duplicates(r@);
        }
        r
    }

    /// The qualified ids of the functions that the prover treats as intrinsic and that the
    /// environment declares.
    pub fn intrinsic_fun_ids(&self) -> (r: Vec<QualifiedId<FunId>>)
        requires
            self.wf(),
        ensures
            strictly_increasing(r@),
            r@.no_duplicates(),
            r@.to_set() == self.opt_qids(intrinsic_funs()),
    {
        let mut qids: Vec<QualifiedId<FunId>> = Vec::new();
        proof {
            assert(qids@.to_set() =~= Set::empty());
        }
        self.add_opt_qids(&mut qids, &intrinsic_funs_table());
        proof {
            assert(qids@.to_set() =~= self.opt_qids(intrinsic_funs()));
        }
        let sorted = sorted_set(&qids);
        proof {
            lemma_increasing_no_duplicates(sorted@);
            assert forall|x: QualifiedId<FunId>| sorted@.contains(x) <==> qids@.contains(x) by {
                assert(sorted@.to_set().contains(x) == qids@.to_set().contains(x));
            }
            assert(sorted@.to_set() =~= qids@.to_set());
        }
        sorted
    }

    /// The qualified ids that name the pure functions of the prover's vector extension module
    /// used as functions, where the vector module is there.
    pub open spec fn vector_ext_native_qids(&self) -> Set<QualifiedId<FunId>> {
        if self.has_module(GlobalEnv::PROVER_VECTOR_MODULE_NAME@) {
            self.fun_qids(
                in_module(GlobalEnv::PROVER_VECTOR_EXT_MODULE_NAME@, vector_ext_native_funs()),
            )
        } else {
            Set::empty()
        }
    }

    /// The qualified ids of the native functions that are used as functions.
    pub open spec fn native_fns(&self) -> Set<QualifiedId<FunId>> {
        self.opt_qids(native_funs_head()) + self.vector_ext_native_qids() + self.opt_qids(
            native_funs_tail(),
        )
    }

    /// The qualified ids of the native functions that are used as functions: those of the
    /// standard and Sui modules that the environment declares, and the pure functions of the
    /// prover's vector extension module where the vector module is there, in which case the
    /// extension module must exist too; the names of the latter are added to the symbol pool.
    pub fn native_fn_ids(&mut self) -> (r: Vec<QualifiedId<FunId>>)
        requires
            old(self).wf(),
            old(self).has_module(GlobalEnv::PROVER_VECTOR_MODULE_NAME@) ==> old(self).has_module(
                GlobalEnv::PROVER_VECTOR_EXT_MODULE_NAME@,
            ),
        ensures
            strictly_increasing(r@),
            old(self).grows_to(&*final(self)),
            final(self).wf(),
            r@.no_duplicates(),
            r@.to_set() == final(self).native_fns(),
    {
        let mut qids: Vec<QualifiedId<FunId>> = Vec::new();
        proof {
            assert(qids@.to_set() =~= Set::empty());
            use_type_invariant(&self.symbol_pool);
        }
        self.add_opt_qids(&mut qids, &native_funs_head_table());
        let ghost s0 = *self;
        let ghost head = qids@.to_set();
        let has_vector = self.has_prover_vector_module();
        if has_vector {
            self.add_fun_qids_in(
                &mut qids,
                Self::PROVER_VECTOR_EXT_MODULE_NAME,
                &vector_ext_native_funs_table(),
            );
        }
        let ghost s1 = *self;
        proof {
            use_type_invariant(&self.symbol_pool);
            s0.lemma_grows_opt_qids(&*self, native_funs_head());
            s0.lemma_grows_modules(&*self, GlobalEnv::PROVER_VECTOR_MODULE_NAME@);
            assert(qids@.to_set() =~= head + self.vector_ext_native_qids());
        }
        self.add_opt_qids(&mut qids, &native_funs_tail_table());
        proof {
            assert(qids@.to_set() =~= self.native_fns());
        }
        let sorted = sorted_set(&qids);
        proof {
            lemma_increasing_no_duplicates(sorted@);
            assert forall|x: QualifiedId<FunId>| sorted@.contains(x) <==> qids@.contains(x) by {
                assert(sorted@.to_set().contains(x) == qids@.to_set().contains(x));
            }
            assert(sorted@.to_set() =~= qids@.to_set());
        }
        sorted
    }

    /// Whether `qid` is a native function used as a function; the conditions and effects are
    /// those of `native_fn_ids`.
    pub fn should_be_used_as_func(&mut self, qid: &QualifiedId<FunId>) -> (r: bool)
        requires
            old(self).wf(),
            old(self).has_module(GlobalEnv::PROVER_VECTOR_MODULE_NAME@) ==> old(self).has_module(
                GlobalEnv::PROVER_VECTOR_EXT_MODULE_NAME@,
            ),
        ensures
            old(self).grows_to(&*final(self)),
            final(self).wf(),
            r == final(self).native_fns().contains(*qid),
    {
        let ids = self.native_fn_ids();
        contains_qid(&ids, qid)
    }
}

impl GlobalEnv {
    /// The position of the function with the qualified id `q`.
    pub open spec fn fun_index(&self, q: QualifiedId<FunId>) -> int {
        choose|j: int| 0 <= j < self.function_data@.len() && fun_key(self.function_data@[j]) == q
    }

    /// The full name of the function `q`: the name of its module, `::` and its own name.
    pub open spec fn fun_full_name(&self, q: QualifiedId<FunId>) -> Seq<char> {
        self.fun_module_name_str(self.fun_index(q)) + "::"@ + self.fun_name_str(self.fun_index(q))
    }

    /// The function `q` is native.
    pub open spec fn fun_is_native(&self, q: QualifiedId<FunId>) -> bool {
        self.function_data@[self.fun_index(q)].is_native
    }

    /// The function `q` is one that the prover treats as intrinsic.
    pub open spec fn fun_is_intrinsic(&self, q: QualifiedId<FunId>) -> bool {
        self.opt_qids(intrinsic_funs()).contains(q)
    }

    /// In a well-formed environment, the position of a function is the only one with its
    /// qualified id.
    proof fn lemma_fun_index(&self, j: int)
        requires
            self.wf(),
            0 <= j < self.function_data@.len(),
        ensures
            self.fun_index(fun_key(self.function_data@[j])) == j,
    {
        let q = fun_key(self.function_data@[j]);
        let i = self.fun_index(q);
        assert(0 <= i < self.function_data@.len() && fun_key(self.function_data@[i]) == q);
    }

    /// Whether the native function `qid`, which must be a function of the environment, is
    /// deterministic; an error names a function that is not native. For a native function,
    /// the conditions and effects are those of `deterministic_native_functions`.
    pub fn is_deterministic(&mut self, qid: QualifiedId<FunId>) -> (r: Result<bool, String>)
        requires
            old(self).wf(),
            old(self).has_function(qid),
            old(self).fun_is_native(qid) ==> {
                &&& old(self).has_module(GlobalEnv::PROVER_MODULE_NAME@)
                &&& old(self).has_module(GlobalEnv::SPEC_MODULE_NAME@)
                &&& old(self).has_module(GlobalEnv::LOG_MODULE_NAME@)
                &&& old(self).has_module(GlobalEnv::PROVER_VECTOR_MODULE_NAME@) ==> old(
                    self,
                ).has_module(GlobalEnv::PROVER_VECTOR_EXT_MODULE_NAME@)
            },
        ensures
            old(self).grows_to(&*final(self)),
            final(self).wf(),
            !old(self).fun_is_native(qid) ==> *final(self) == *old(self) && (r matches Err(msg)
                && msg@ == "Function "@ + old(self).fun_full_name(qid) + " is not native"@),
            old(self).fun_is_native(qid) ==> r == Ok::<bool, String>(
                final(self).deterministic_natives().contains(qid),
            ),
    {
        let f = self.get_function(qid);
        let native = f.is_native();
        let name = f.get_full_name_str();
        proof {
            self.lemma_fun_index(f.index() as int);
        }
        if !native {
            let msg = String::from_str("Function ").concat(name.as_str()).concat(" is not native");
            return Err(msg);
        }
        let ids = self.deterministic_native_functions();
        Ok(contains_qid(&ids, &qid))
    }

    /// Whether the native or intrinsic function `qid`, which must be a function of the
    /// environment, never aborts; an error names a function that is neither. Otherwise the
    /// conditions and effects are those of `no_aborting_native_functions`.
    pub fn func_not_aborts(&mut self, qid: QualifiedId<FunId>) -> (r: Result<bool, String>)
        requires
            old(self).wf(),
            old(self).has_function(qid),
            old(self).fun_is_native(qid) || old(self).fun_is_intrinsic(qid) ==> {
                &&& old(self).has_module(GlobalEnv::PROVER_MODULE_NAME@)
                &&& old(self).has_module(GlobalEnv::SPEC_MODULE_NAME@)
                &&& old(self).has_module(GlobalEnv::LOG_MODULE_NAME@)
                &&& old(self).has_module(GlobalEnv::PROVER_VECTOR_MODULE_NAME@) ==> old(
                    self,
                ).has_module(GlobalEnv::PROVER_VECTOR_EXT_MODULE_NAME@)
            },
        ensures
            old(self).grows_to(&*final(self)),
            final(self).wf(),
            !old(self).fun_is_native(qid) && !old(self).fun_is_intrinsic(qid) ==> *final(self)
                == *old(self) && (r matches Err(msg) && msg@ == "Function "@ + old(
                self,
            ).fun_full_name(qid) + " is not native or intrinsic"@),
            old(self).fun_is_native(qid) || old(self).fun_is_intrinsic(qid) ==> r == Ok::<
                bool,
                String,
            >(final(self).no_aborting_natives().contains(qid)),
    {
        let f = self.get_function(qid);
        let native = f.is_native();
        let intrinsic = f.is_intrinsic();
        let name = f.get_full_name_str();
        proof {
            self.lemma_fun_index(f.index() as int);
        }
        if !native && !intrinsic {
            let msg = String::from_str("Function ").concat(name.as_str()).concat(
                " is not native or intrinsic",
            );
            return Err(msg);
        }
        let ids = self.no_aborting_native_functions();
        Ok(contains_qid(&ids, &qid))
    }
}

/// The functions of the prover module that are deterministic.
pub open spec fn deterministic_prover_funs() -> Seq<Seq<char>> {
    seq![
        GlobalEnv::REQUIRES_FUNCTION_NAME@,
        GlobalEnv::ENSURES_FUNCTION_NAME@,
        GlobalEnv::ASSERTS_FUNCTION_NAME@,
        GlobalEnv::ASSERTS_OF_FUNCTION_NAME@,
        GlobalEnv::SPLIT_HERE_FUNCTION_NAME@,
        GlobalEnv::FOCUS_FUNCTION_NAME@,
        GlobalEnv::ALLOW_PATH_ISOLATION_FUNCTION_NAME@,
        GlobalEnv::INVARIANT_BEGIN_FUNCTION_NAME@,
        GlobalEnv::INVARIANT_END_FUNCTION_NAME@,
        GlobalEnv::PROVER_VAL_FUNCTION_NAME@,
        GlobalEnv::PROVER_REF_FUNCTION_NAME@,
    ]
}

/// The functions of the prover module that are deterministic.
fn deterministic_prover_funs_table() -> (r: Vec<&'static str>)
    ensures
        str_views(r@) == deterministic_prover_funs(),
{
    let r = vec![
        GlobalEnv::REQUIRES_FUNCTION_NAME,
        GlobalEnv::ENSURES_FUNCTION_NAME,
        GlobalEnv::ASSERTS_FUNCTION_NAME,
        GlobalEnv::ASSERTS_OF_FUNCTION_NAME,
        GlobalEnv::SPLIT_HERE_FUNCTION_NAME,
        GlobalEnv::FOCUS_FUNCTION_NAME,
        GlobalEnv::ALLOW_PATH_ISOLATION_FUNCTION_NAME,
        GlobalEnv::INVARIANT_BEGIN_FUNCTION_NAME,
        GlobalEnv::INVARIANT_END_FUNCTION_NAME,
        GlobalEnv::PROVER_VAL_FUNCTION_NAME,
        GlobalEnv::PROVER_REF_FUNCTION_NAME,
    ];
    assert(str_views(r@) =~= deterministic_prover_funs());
    r
}

/// The functions of the prover module that open and close quantifier lambdas.
pub open spec fn prover_lambda_funs() -> Seq<Seq<char>> {
    seq![
        GlobalEnv::PROVER_BEGIN_FORALL_LAMBDA@,
        GlobalEnv::PROVER_END_FORALL_LAMBDA@,
        GlobalEnv::PROVER_BEGIN_EXISTS_LAMBDA@,
        GlobalEnv::PROVER_END_EXISTS_LAMBDA@,
    ]
}

/// The functions of the prover module that open and close quantifier lambdas.
fn prover_lambda_funs_table() -> (r: Vec<&'static str>)
    ensures
        str_views(r@) == prover_lambda_funs(),
{
    let r = vec![
        GlobalEnv::PROVER_BEGIN_FORALL_LAMBDA,
        GlobalEnv::PROVER_END_FORALL_LAMBDA,
        GlobalEnv::PROVER_BEGIN_EXISTS_LAMBDA,
        GlobalEnv::PROVER_END_EXISTS_LAMBDA,
    ];
    assert(str_views(r@) =~= prover_lambda_funs());
    r
}

/// The functions of the prover's vector module.
pub open spec fn vector_iter_funs() -> Seq<Seq<char>> {
    seq![
        GlobalEnv::PROVER_BEGIN_MAP_LAMBDA@,
        GlobalEnv::PROVER_BEGIN_MAP_RANGE_LAMBDA@,
        GlobalEnv::PROVER_END_MAP_LAMBDA@,
        GlobalEnv::PROVER_BEGIN_FILTER_LAMBDA@,
        GlobalEnv::PROVER_BEGIN_FILTER_RANGE_LAMBDA@,
        GlobalEnv::PROVER_END_FILTER_LAMBDA@,
        GlobalEnv::PROVER_BEGIN_FIND_LAMBDA@,
        GlobalEnv::PROVER_BEGIN_FIND_RANGE_LAMBDA@,
        GlobalEnv::PROVER_END_FIND_LAMBDA@,
        GlobalEnv::PROVER_BEGIN_FIND_INDEX_LAMBDA@,
        GlobalEnv::PROVER_BEGIN_FIND_INDEX_RANGE_LAMBDA@,
        GlobalEnv::PROVER_END_FIND_INDEX_LAMBDA@,
        GlobalEnv::PROVER_BEGIN_FIND_INDICES_LAMBDA@,
        GlobalEnv::PROVER_BEGIN_FIND_INDICES_RANGE_LAMBDA@,
        GlobalEnv::PROVER_END_FIND_INDICES_LAMBDA@,
        GlobalEnv::PROVER_BEGIN_COUNT_LAMBDA@,
        GlobalEnv::PROVER_BEGIN_COUNT_RANGE_LAMBDA@,
        GlobalEnv::PROVER_END_COUNT_LAMBDA@,
        GlobalEnv::PROVER_BEGIN_ANY_LAMBDA@,
        GlobalEnv::PROVER_BEGIN_ANY_RANGE_LAMBDA@,
        GlobalEnv::PROVER_END_ANY_LAMBDA@,
        GlobalEnv::PROVER_BEGIN_ALL_LAMBDA@,
        GlobalEnv::PROVER_BEGIN_ALL_RANGE_LAMBDA@,
        GlobalEnv::PROVER_END_ALL_LAMBDA@,
        GlobalEnv::PROVER_BEGIN_SUM_MAP_LAMBDA@,
        GlobalEnv::PROVER_BEGIN_SUM_MAP_RANGE_LAMBDA@,
        GlobalEnv::PROVER_END_SUM_MAP_LAMBDA@,
        GlobalEnv::PROVER_BEGIN_RANGE_MAP_LAMBDA@,
        GlobalEnv::PROVER_END_RANGE_MAP_LAMBDA@,
        GlobalEnv::PROVER_BEGIN_RANGE_COUNT_LAMBDA@,
        GlobalEnv::PROVER_END_RANGE_COUNT_LAMBDA@,
        GlobalEnv::PROVER_BEGIN_RANGE_SUM_MAP_LAMBDA@,
        GlobalEnv::PROVER_END_RANGE_SUM_MAP_LAMBDA@,
        GlobalEnv::PROVER_RANGE@,
        GlobalEnv::PROVER_VEC_SUM@,
        GlobalEnv::PROVER_VEC_SUM_RANGE@,
        GlobalEnv::PROVER_VEC_SLICE@,
    ]
}

/// The functions of the prover's vector module.
fn vector_iter_funs_table() -> (r: Vec<&'static str>)
    ensures
        str_views(r@) == vector_iter_funs(),
{
    let r = vec![
        GlobalEnv::PROVER_BEGIN_MAP_LAMBDA,
        GlobalEnv::PROVER_BEGIN_MAP_RANGE_LAMBDA,
        GlobalEnv::PROVER_END_MAP_LAMBDA,
        GlobalEnv::PROVER_BEGIN_FILTER_LAMBDA,
        GlobalEnv::PROVER_BEGIN_FILTER_RANGE_LAMBDA,
        GlobalEnv::PROVER_END_FILTER_LAMBDA,
        GlobalEnv::PROVER_BEGIN_FIND_LAMBDA,
        GlobalEnv::PROVER_BEGIN_FIND_RANGE_LAMBDA,
        GlobalEnv::PROVER_END_FIND_LAMBDA,
        GlobalEnv::PROVER_BEGIN_FIND_INDEX_LAMBDA,
        GlobalEnv::PROVER_BEGIN_FIND_INDEX_RANGE_LAMBDA,
        GlobalEnv::PROVER_END_FIND_INDEX_LAMBDA,
        GlobalEnv::PROVER_BEGIN_FIND_INDICES_LAMBDA,
        GlobalEnv::PROVER_BEGIN_FIND_INDICES_RANGE_LAMBDA,
        GlobalEnv::PROVER_END_FIND_INDICES_LAMBDA,
        GlobalEnv::PROVER_BEGIN_COUNT_LAMBDA,
        GlobalEnv::PROVER_BEGIN_COUNT_RANGE_LAMBDA,
        GlobalEnv::PROVER_END_COUNT_LAMBDA,
        GlobalEnv::PROVER_BEGIN_ANY_LAMBDA,
        GlobalEnv::PROVER_BEGIN_ANY_RANGE_LAMBDA,
        GlobalEnv::PROVER_END_ANY_LAMBDA,
        GlobalEnv::PROVER_BEGIN_ALL_LAMBDA,
        GlobalEnv::PROVER_BEGIN_ALL_RANGE_LAMBDA,
        GlobalEnv::PROVER_END_ALL_LAMBDA,
        GlobalEnv::PROVER_BEGIN_SUM_MAP_LAMBDA,
        GlobalEnv::PROVER_BEGIN_SUM_MAP_RANGE_LAMBDA,
        GlobalEnv::PROVER_END_SUM_MAP_LAMBDA,
        GlobalEnv::PROVER_BEGIN_RANGE_MAP_LAMBDA,
        GlobalEnv::PROVER_END_RANGE_MAP_LAMBDA,
        GlobalEnv::PROVER_BEGIN_RANGE_COUNT_LAMBDA,
        GlobalEnv::PROVER_END_RANGE_COUNT_LAMBDA,
        GlobalEnv::PROVER_BEGIN_RANGE_SUM_MAP_LAMBDA,
        GlobalEnv::PROVER_END_RANGE_SUM_MAP_LAMBDA,
        GlobalEnv::PROVER_RANGE,
        GlobalEnv::PROVER_VEC_SUM,
        GlobalEnv::PROVER_VEC_SUM_RANGE,
        GlobalEnv::PROVER_VEC_SLICE,
    ];
    assert(str_views(r@) =~= vector_iter_funs());
    r
}

/// The pure functions of the prover's vector extension module.
pub open spec fn vector_ext_pure_funs() -> Seq<Seq<char>> {
    seq![
        GlobalEnv::PROVER_VEC_APPEND_PURE@,
        GlobalEnv::PROVER_VEC_PUSH_BACK_PURE@,
        GlobalEnv::PROVER_VEC_POP_BACK_PURE@,
        GlobalEnv::PROVER_VEC_PUSH_FRONT_PURE@,
        GlobalEnv::PROVER_VEC_POP_FRONT_PURE@,
        GlobalEnv::PROVER_VEC_INSERT_PURE@,
        GlobalEnv::PROVER_VEC_REMOVE_PURE@,
    ]
}

/// The pure functions of the prover's vector extension module.
fn vector_ext_pure_funs_table() -> (r: Vec<&'static str>)
    ensures
        str_views(r@) == vector_ext_pure_funs(),
{
    let r = vec![
        GlobalEnv::PROVER_VEC_APPEND_PURE,
        GlobalEnv::PROVER_VEC_PUSH_BACK_PURE,
        GlobalEnv::PROVER_VEC_POP_BACK_PURE,
        GlobalEnv::PROVER_VEC_PUSH_FRONT_PURE,
        GlobalEnv::PROVER_VEC_POP_FRONT_PURE,
        GlobalEnv::PROVER_VEC_INSERT_PURE,
        GlobalEnv::PROVER_VEC_REMOVE_PURE,
    ];
    assert(str_views(r@) =~= vector_ext_pure_funs());
    r
}

/// The functions of the prover's extension modules, none of which aborts.
pub open spec fn prover_ext_funs() -> Seq<(Seq<char>, Seq<char>)> {
    seq![
        (GlobalEnv::PROVER_VECTOR_EXT_MODULE_NAME@, GlobalEnv::BORROW_OR_UNKNOWN_FUNCTION_NAME@),
        (GlobalEnv::VEC_SET_EXT_MODULE_NAME@, GlobalEnv::INSERT_PURE_FUNCTION_NAME@),
        (GlobalEnv::VEC_SET_EXT_MODULE_NAME@, GlobalEnv::REMOVE_PURE_FUNCTION_NAME@),
        (GlobalEnv::VEC_MAP_EXT_MODULE_NAME@, GlobalEnv::GET_OR_UNKNOWN_FUNCTION_NAME@),
        (GlobalEnv::VEC_MAP_EXT_MODULE_NAME@, GlobalEnv::GET_IDX_OR_UNKNOWN_FUNCTION_NAME@),
        (GlobalEnv::VEC_MAP_EXT_MODULE_NAME@, GlobalEnv::GET_ENTRY_BY_IDX_OR_UNKNOWN_FUNCTION_NAME@),
        (GlobalEnv::VEC_MAP_EXT_MODULE_NAME@, GlobalEnv::INSERT_PURE_FUNCTION_NAME@),
        (GlobalEnv::VEC_MAP_EXT_MODULE_NAME@, GlobalEnv::REMOVE_PURE_FUNCTION_NAME@),
        (GlobalEnv::TABLE_EXT_MODULE_NAME@, GlobalEnv::BORROW_OR_UNKNOWN_FUNCTION_NAME@),
        (GlobalEnv::TABLE_EXT_MODULE_NAME@, GlobalEnv::ADD_PURE_FUNCTION_NAME@),
        (GlobalEnv::TABLE_EXT_MODULE_NAME@, GlobalEnv::REMOVE_PURE_FUNCTION_NAME@),
        (GlobalEnv::OBJECT_TABLE_EXT_MODULE_NAME@, GlobalEnv::BORROW_OR_UNKNOWN_FUNCTION_NAME@),
        (GlobalEnv::OBJECT_TABLE_EXT_MODULE_NAME@, GlobalEnv::ADD_PURE_FUNCTION_NAME@),
        (GlobalEnv::OBJECT_TABLE_EXT_MODULE_NAME@, GlobalEnv::REMOVE_PURE_FUNCTION_NAME@),
        (GlobalEnv::DYNAMIC_FIELD_EXT_MODULE_NAME@, GlobalEnv::BORROW_OR_UNKNOWN_FUNCTION_NAME@),
        (GlobalEnv::DYNAMIC_OBJECT_FIELD_EXT_MODULE_NAME@, GlobalEnv::BORROW_OR_UNKNOWN_FUNCTION_NAME@),
    ]
}

/// The functions of the prover's extension modules, none of which aborts.
fn prover_ext_funs_table() -> (r: Vec<(&'static str, &'static str)>)
    ensures
        pair_views(r@) == prover_ext_funs(),
{
    let r = vec![
        (GlobalEnv::PROVER_VECTOR_EXT_MODULE_NAME, GlobalEnv::BORROW_OR_UNKNOWN_FUNCTION_NAME),
        (GlobalEnv::VEC_SET_EXT_MODULE_NAME, GlobalEnv::INSERT_PURE_FUNCTION_NAME),
        (GlobalEnv::VEC_SET_EXT_MODULE_NAME, GlobalEnv::REMOVE_PURE_FUNCTION_NAME),
        (GlobalEnv::VEC_MAP_EXT_MODULE_NAME, GlobalEnv::GET_OR_UNKNOWN_FUNCTION_NAME),
        (GlobalEnv::VEC_MAP_EXT_MODULE_NAME, GlobalEnv::GET_IDX_OR_UNKNOWN_FUNCTION_NAME),
        (GlobalEnv::VEC_MAP_EXT_MODULE_NAME, GlobalEnv::GET_ENTRY_BY_IDX_OR_UNKNOWN_FUNCTION_NAME),
        (GlobalEnv::VEC_MAP_EXT_MODULE_NAME, GlobalEnv::INSERT_PURE_FUNCTION_NAME),
        (GlobalEnv::VEC_MAP_EXT_MODULE_NAME, GlobalEnv::REMOVE_PURE_FUNCTION_NAME),
        (GlobalEnv::TABLE_EXT_MODULE_NAME, GlobalEnv::BORROW_OR_UNKNOWN_FUNCTION_NAME),
        (GlobalEnv::TABLE_EXT_MODULE_NAME, GlobalEnv::ADD_PURE_FUNCTION_NAME),
        (GlobalEnv::TABLE_EXT_MODULE_NAME, GlobalEnv::REMOVE_PURE_FUNCTION_NAME),
        (GlobalEnv::OBJECT_TABLE_EXT_MODULE_NAME, GlobalEnv::BORROW_OR_UNKNOWN_FUNCTION_NAME),
        (GlobalEnv::OBJECT_TABLE_EXT_MODULE_NAME, GlobalEnv::ADD_PURE_FUNCTION_NAME),
        (GlobalEnv::OBJECT_TABLE_EXT_MODULE_NAME, GlobalEnv::REMOVE_PURE_FUNCTION_NAME),
        (GlobalEnv::DYNAMIC_FIELD_EXT_MODULE_NAME, GlobalEnv::BORROW_OR_UNKNOWN_FUNCTION_NAME),
        (GlobalEnv::DYNAMIC_OBJECT_FIELD_EXT_MODULE_NAME, GlobalEnv::BORROW_OR_UNKNOWN_FUNCTION_NAME),
    ];
    assert(pair_views(r@) =~= prover_ext_funs());
    r
}

/// The functions of the ghost module.
pub open spec fn ghost_funs() -> Seq<Seq<char>> {
    seq![
        GlobalEnv::GLOBAL_FUNCTION_NAME@,
        GlobalEnv::GLOBAL_SET_FUNCTION_NAME@,
        GlobalEnv::GLOBAL_BORROW_MUT_FUNCTION_NAME@,
        GlobalEnv::DECLARE_GLOBAL_FUNCTION_NAME@,
        GlobalEnv::DECLARE_GLOBAL_MUT_FUNCTION_NAME@,
        GlobalEnv::HAVOC_GLOBAL_FUNCTION_NAME@,
    ]
}

/// The functions of the ghost module.
fn ghost_funs_table() -> (r: Vec<&'static str>)
    ensures
        str_views(r@) == ghost_funs(),
{
    let r = vec![
        GlobalEnv::GLOBAL_FUNCTION_NAME,
        GlobalEnv::GLOBAL_SET_FUNCTION_NAME,
        GlobalEnv::GLOBAL_BORROW_MUT_FUNCTION_NAME,
        GlobalEnv::DECLARE_GLOBAL_FUNCTION_NAME,
        GlobalEnv::DECLARE_GLOBAL_MUT_FUNCTION_NAME,
        GlobalEnv::HAVOC_GLOBAL_FUNCTION_NAME,
    ];
    assert(str_views(r@) =~= ghost_funs());
    r
}

/// The functions of the log module.
pub open spec fn log_funs() -> Seq<Seq<char>> {
    seq![
        GlobalEnv::LOG_TEXT_FUNCTION_NAME@,
        GlobalEnv::LOG_VAR_FUNCTION_NAME@,
        GlobalEnv::LOG_GHOST_FUNCTION_NAME@,
    ]
}

/// The functions of the log module.
fn log_funs_table() -> (r: Vec<&'static str>)
    ensures
        str_views(r@) == log_funs(),
{
    let r = vec![
        GlobalEnv::LOG_TEXT_FUNCTION_NAME,
        GlobalEnv::LOG_VAR_FUNCTION_NAME,
        GlobalEnv::LOG_GHOST_FUNCTION_NAME,
    ];
    assert(str_views(r@) =~= log_funs());
    r
}

/// The native functions of the standard and Sui modules that are deterministic.
pub open spec fn deterministic_extra_funs() -> Seq<(Seq<char>, Seq<char>)> {
    seq![
        (GlobalEnv::VECTOR_MODULE_NAME@, GlobalEnv::VECTOR_MAGIC_EMPTY_FUNCTION_NAME@),
        (GlobalEnv::VECTOR_MODULE_NAME@, GlobalEnv::VECTOR_SIZE_DETECTIVE_FUNCTION_NAME@),
        (GlobalEnv::VECTOR_MODULE_NAME@, GlobalEnv::VECTOR_PEEK_A_BOO_FUNCTION_NAME@),
        (GlobalEnv::VECTOR_MODULE_NAME@, GlobalEnv::VECTOR_STACK_PUSHER_FUNCTION_NAME@),
        (GlobalEnv::VECTOR_MODULE_NAME@, GlobalEnv::VECTOR_MUTANT_PEEKER_FUNCTION_NAME@),
        (GlobalEnv::VECTOR_MODULE_NAME@, GlobalEnv::VECTOR_STACK_POPPER_FUNCTION_NAME@),
        (GlobalEnv::VECTOR_MODULE_NAME@, GlobalEnv::VECTOR_DESTRUCTION_DERBY_FUNCTION_NAME@),
        (GlobalEnv::VECTOR_MODULE_NAME@, GlobalEnv::VECTOR_SWITCHEROO_FUNCTION_NAME@),
        (GlobalEnv::VECTOR_MODULE_NAME@, GlobalEnv::VECTOR_SINGLETON_FUNCTION_NAME@),
        (GlobalEnv::STD_HASH_MODULE_NAME@, GlobalEnv::HASH_SHA2_FUNCTION_NAME@),
        (GlobalEnv::STD_HASH_MODULE_NAME@, GlobalEnv::HASH_SHA3_FUNCTION_NAME@),
        (GlobalEnv::STD_BCS_MODULE_NAME@, GlobalEnv::BCS_BYTE_TRANSFORMER_FUNCTION_NAME@),
        (GlobalEnv::STD_DEBUG_MODULE_NAME@, GlobalEnv::DEBUG_PRINT_FUNCTION_NAME@),
        (GlobalEnv::STD_DEBUG_MODULE_NAME@, GlobalEnv::DEBUG_PRINT_TRACE_FUNCTION_NAME@),
        (GlobalEnv::STD_TYPE_NAME_MODULE_NAME@, GlobalEnv::TYPE_NAME_WITH_DEFINING_IDS_FUNCTION_NAME@),
        (GlobalEnv::STD_TYPE_NAME_MODULE_NAME@, GlobalEnv::TYPE_NAME_WITH_ORIGINAL_IDS_FUNCTION_NAME@),
        (GlobalEnv::STD_TYPE_NAME_MODULE_NAME@, GlobalEnv::TYPE_NAME_DEFINING_ID_FUNCTION_NAME@),
        (GlobalEnv::STD_TYPE_NAME_MODULE_NAME@, GlobalEnv::TYPE_NAME_ORIGINAL_ID_FUNCTION_NAME@),
        (GlobalEnv::STD_STRING_MODULE_NAME@, GlobalEnv::STRING_CHECK_UTF8_FUNCTION_NAME@),
        (GlobalEnv::STD_STRING_MODULE_NAME@, GlobalEnv::STRING_IS_CHAR_BOUNDARY_FUNCTION_NAME@),
        (GlobalEnv::STD_STRING_MODULE_NAME@, GlobalEnv::STRING_SUB_STRING_FUNCTION_NAME@),
        (GlobalEnv::STD_STRING_MODULE_NAME@, GlobalEnv::STRING_INDEX_OF_FUNCTION_NAME@),
        (GlobalEnv::STD_INTEGER_MODULE_NAME@, GlobalEnv::INTEGER_FROM_U8_FUNCTION_NAME@),
        (GlobalEnv::STD_INTEGER_MODULE_NAME@, GlobalEnv::INTEGER_FROM_U16_FUNCTION_NAME@),
        (GlobalEnv::STD_INTEGER_MODULE_NAME@, GlobalEnv::INTEGER_FROM_U32_FUNCTION_NAME@),
        (GlobalEnv::STD_INTEGER_MODULE_NAME@, GlobalEnv::INTEGER_FROM_U64_FUNCTION_NAME@),
        (GlobalEnv::STD_INTEGER_MODULE_NAME@, GlobalEnv::INTEGER_FROM_U128_FUNCTION_NAME@),
        (GlobalEnv::STD_INTEGER_MODULE_NAME@, GlobalEnv::INTEGER_FROM_U256_FUNCTION_NAME@),
        (GlobalEnv::STD_INTEGER_MODULE_NAME@, GlobalEnv::INTEGER_TO_U8_FUNCTION_NAME@),
        (GlobalEnv::STD_INTEGER_MODULE_NAME@, GlobalEnv::INTEGER_TO_U16_FUNCTION_NAME@),
        (GlobalEnv::STD_INTEGER_MODULE_NAME@, GlobalEnv::INTEGER_TO_U32_FUNCTION_NAME@),
        (GlobalEnv::STD_INTEGER_MODULE_NAME@, GlobalEnv::INTEGER_TO_U64_FUNCTION_NAME@),
        (GlobalEnv::STD_INTEGER_MODULE_NAME@, GlobalEnv::INTEGER_TO_U128_FUNCTION_NAME@),
        (GlobalEnv::STD_INTEGER_MODULE_NAME@, GlobalEnv::INTEGER_TO_U256_FUNCTION_NAME@),
        (GlobalEnv::STD_INTEGER_MODULE_NAME@, GlobalEnv::INTEGER_ADD_FUNCTION_NAME@),
        (GlobalEnv::STD_INTEGER_MODULE_NAME@, GlobalEnv::INTEGER_SUB_FUNCTION_NAME@),
        (GlobalEnv::STD_INTEGER_MODULE_NAME@, GlobalEnv::INTEGER_NEG_FUNCTION_NAME@),
        (GlobalEnv::STD_INTEGER_MODULE_NAME@, GlobalEnv::INTEGER_MUL_FUNCTION_NAME@),
        (GlobalEnv::STD_INTEGER_MODULE_NAME@, GlobalEnv::INTEGER_DIV_FUNCTION_NAME@),
        (GlobalEnv::STD_INTEGER_MODULE_NAME@, GlobalEnv::INTEGER_MOD_FUNCTION_NAME@),
        (GlobalEnv::STD_INTEGER_MODULE_NAME@, GlobalEnv::INTEGER_SQRT_FUNCTION_NAME@),
        (GlobalEnv::STD_INTEGER_MODULE_NAME@, GlobalEnv::INTEGER_POW_FUNCTION_NAME@),
        (GlobalEnv::STD_INTEGER_MODULE_NAME@, GlobalEnv::INTEGER_BIT_OR_FUNCTION_NAME@),
        (GlobalEnv::STD_INTEGER_MODULE_NAME@, GlobalEnv::INTEGER_BIT_AND_FUNCTION_NAME@),
        (GlobalEnv::STD_INTEGER_MODULE_NAME@, GlobalEnv::INTEGER_BIT_XOR_FUNCTION_NAME@),
        (GlobalEnv::STD_INTEGER_MODULE_NAME@, GlobalEnv::INTEGER_BIT_NOT_FUNCTION_NAME@),
        (GlobalEnv::STD_INTEGER_MODULE_NAME@, GlobalEnv::INTEGER_LT_FUNCTION_NAME@),
        (GlobalEnv::STD_INTEGER_MODULE_NAME@, GlobalEnv::INTEGER_GT_FUNCTION_NAME@),
        (GlobalEnv::STD_INTEGER_MODULE_NAME@, GlobalEnv::INTEGER_LTE_FUNCTION_NAME@),
        (GlobalEnv::STD_INTEGER_MODULE_NAME@, GlobalEnv::INTEGER_GTE_FUNCTION_NAME@),
        (GlobalEnv::STD_REAL_MODULE_NAME@, GlobalEnv::REAL_FROM_INTEGER_FUNCTION_NAME@),
        (GlobalEnv::STD_REAL_MODULE_NAME@, GlobalEnv::REAL_TO_INTEGER_FUNCTION_NAME@),
        (GlobalEnv::STD_REAL_MODULE_NAME@, GlobalEnv::REAL_ADD_FUNCTION_NAME@),
        (GlobalEnv::STD_REAL_MODULE_NAME@, GlobalEnv::REAL_SUB_FUNCTION_NAME@),
        (GlobalEnv::STD_REAL_MODULE_NAME@, GlobalEnv::REAL_NEG_FUNCTION_NAME@),
        (GlobalEnv::STD_REAL_MODULE_NAME@, GlobalEnv::REAL_MUL_FUNCTION_NAME@),
        (GlobalEnv::STD_REAL_MODULE_NAME@, GlobalEnv::REAL_DIV_FUNCTION_NAME@),
        (GlobalEnv::STD_REAL_MODULE_NAME@, GlobalEnv::REAL_SQRT_FUNCTION_NAME@),
        (GlobalEnv::STD_REAL_MODULE_NAME@, GlobalEnv::REAL_EXP_FUNCTION_NAME@),
        (GlobalEnv::STD_REAL_MODULE_NAME@, GlobalEnv::REAL_LT_FUNCTION_NAME@),
        (GlobalEnv::STD_REAL_MODULE_NAME@, GlobalEnv::REAL_GT_FUNCTION_NAME@),
        (GlobalEnv::STD_REAL_MODULE_NAME@, GlobalEnv::REAL_LTE_FUNCTION_NAME@),
        (GlobalEnv::STD_REAL_MODULE_NAME@, GlobalEnv::REAL_GTE_FUNCTION_NAME@),
        (GlobalEnv::SUI_ADDRESS_MODULE_NAME@, GlobalEnv::ADDRESS_TO_U256_FUNCTION_NAME@),
        (GlobalEnv::SUI_ADDRESS_MODULE_NAME@, GlobalEnv::ADDRESS_FROM_U256_FUNCTION_NAME@),
        (GlobalEnv::SUI_ADDRESS_MODULE_NAME@, GlobalEnv::ADDRESS_FROM_BYTES_FUNCTION_NAME@),
        (GlobalEnv::SUI_TYPES_MODULE_NAME@, GlobalEnv::TYPES_WITNESS_INSPECTOR_FUNCTION_NAME@),
        (GlobalEnv::OBJECT_MODULE_NAME@, GlobalEnv::OBJECT_BORROW_UID_FUNCTION_NAME@),
        (GlobalEnv::OBJECT_MODULE_NAME@, GlobalEnv::OBJECT_DELETE_FUNCTION_NAME@),
        (GlobalEnv::OBJECT_MODULE_NAME@, GlobalEnv::OBJECT_RECORD_NEW_UID_FUNCTION_NAME@),
        (GlobalEnv::DYNAMIC_FIELD_MODULE_NAME@, GlobalEnv::DYNAMIC_FIELD_HASH_TYPE_AND_KEY_FUNCTION_NAME@),
        (GlobalEnv::DYNAMIC_FIELD_MODULE_NAME@, GlobalEnv::DYNAMIC_FIELD_ADD_CHILD_OBJECT_FUNCTION_NAME@),
        (GlobalEnv::DYNAMIC_FIELD_MODULE_NAME@, GlobalEnv::DYNAMIC_FIELD_BORROW_CHILD_OBJECT_FUNCTION_NAME@),
        (GlobalEnv::DYNAMIC_FIELD_MODULE_NAME@, GlobalEnv::DYNAMIC_FIELD_BORROW_CHILD_OBJECT_MUT_FUNCTION_NAME@),
        (GlobalEnv::DYNAMIC_FIELD_MODULE_NAME@, GlobalEnv::DYNAMIC_FIELD_REMOVE_CHILD_OBJECT_FUNCTION_NAME@),
        (GlobalEnv::DYNAMIC_FIELD_MODULE_NAME@, GlobalEnv::DYNAMIC_FIELD_HAS_CHILD_OBJECT_FUNCTION_NAME@),
        (GlobalEnv::DYNAMIC_FIELD_MODULE_NAME@, GlobalEnv::DYNAMIC_FIELD_HAS_CHILD_OBJECT_WITH_TYPE_FUNCTION_NAME@),
        (GlobalEnv::SUI_TX_CONTEXT_MODULE_NAME@, GlobalEnv::TX_CONTEXT_SENDER_FUNCTION_NAME@),
        (GlobalEnv::SUI_TX_CONTEXT_MODULE_NAME@, GlobalEnv::TX_CONTEXT_EPOCH_FUNCTION_NAME@),
        (GlobalEnv::SUI_TX_CONTEXT_MODULE_NAME@, GlobalEnv::TX_CONTEXT_EPOCH_TIMESTAMP_MS_FUNCTION_NAME@),
        (GlobalEnv::SUI_TX_CONTEXT_MODULE_NAME@, GlobalEnv::TX_CONTEXT_REFERENCE_GAS_PRICE_FUNCTION_NAME@),
        (GlobalEnv::SUI_TX_CONTEXT_MODULE_NAME@, GlobalEnv::TX_CONTEXT_GAS_PRICE_FUNCTION_NAME@),
        (GlobalEnv::SUI_TX_CONTEXT_MODULE_NAME@, GlobalEnv::TX_CONTEXT_GAS_BUDGET_FUNCTION_NAME@),
        (GlobalEnv::SUI_TX_CONTEXT_MODULE_NAME@, GlobalEnv::TX_CONTEXT_SPONSOR_FUNCTION_NAME@),
        (GlobalEnv::SUI_TX_CONTEXT_MODULE_NAME@, GlobalEnv::TX_CONTEXT_REPLACE_FUNCTION_NAME@),
        (GlobalEnv::SUI_TX_CONTEXT_MODULE_NAME@, GlobalEnv::TX_CONTEXT_DERIVE_ID_FUNCTION_NAME@),
        (GlobalEnv::SUI_HASH_MODULE_NAME@, GlobalEnv::CRYPTO_HASH_BLAKE_2B_FUNCTION_NAME@),
        (GlobalEnv::SUI_HASH_MODULE_NAME@, GlobalEnv::CRYPTO_HASH_KECCAK_FUNCTION_NAME@),
        (GlobalEnv::SUI_HMAC_MODULE_NAME@, GlobalEnv::CRYPTO_HMAC_SHA3_FUNCTION_NAME@),
        (GlobalEnv::SUI_ED25519_MODULE_NAME@, GlobalEnv::CRYPTO_ED25519_VERIFIER_FUNCTION_NAME@),
        (GlobalEnv::SUI_ECVRF_MODULE_NAME@, GlobalEnv::CRYPTO_ECVRF_VERIFIER_FUNCTION_NAME@),
        (GlobalEnv::SUI_ECDSA_R1_MODULE_NAME@, GlobalEnv::CRYPTO_ECDSA_R1_KEY_RECOVERER_FUNCTION_NAME@),
        (GlobalEnv::SUI_ECDSA_R1_MODULE_NAME@, GlobalEnv::CRYPTO_ECDSA_R1_SIG_VALIDATOR_FUNCTION_NAME@),
        (GlobalEnv::SUI_ECDSA_K1_MODULE_NAME@, GlobalEnv::CRYPTO_ECDSA_K1_EC_RECOVER_FUNCTION_NAME@),
        (GlobalEnv::SUI_ECDSA_K1_MODULE_NAME@, GlobalEnv::CRYPTO_ECDSA_K1_DECOMPRESS_PUBKEY_FUNCTION_NAME@),
        (GlobalEnv::SUI_ECDSA_K1_MODULE_NAME@, GlobalEnv::CRYPTO_ECDSA_K1_VERIFY_FUNCTION_NAME@),
        (GlobalEnv::SUI_ECDSA_K1_MODULE_NAME@, GlobalEnv::CRYPTO_ECDSA_K1_SIGN_FUNCTION_NAME@),
        (GlobalEnv::SUI_ECDSA_K1_MODULE_NAME@, GlobalEnv::CRYPTO_ECDSA_K1_KEYPAIR_FROM_SEED_FUNCTION_NAME@),
        (GlobalEnv::SUI_BLS12381_MODULE_NAME@, GlobalEnv::CRYPTO_BLS_MIN_SIG_VERIFY_FUNCTION_NAME@),
        (GlobalEnv::SUI_BLS12381_MODULE_NAME@, GlobalEnv::CRYPTO_BLS_MIN_PK_VERIFY_FUNCTION_NAME@),
        (GlobalEnv::SUI_GROUP_OPS_MODULE_NAME@, GlobalEnv::CRYPTO_GROUP_OPS_VALIDATE_FUNCTION_NAME@),
        (GlobalEnv::SUI_GROUP_OPS_MODULE_NAME@, GlobalEnv::CRYPTO_GROUP_OPS_ADD_FUNCTION_NAME@),
        (GlobalEnv::SUI_GROUP_OPS_MODULE_NAME@, GlobalEnv::CRYPTO_GROUP_OPS_SUB_FUNCTION_NAME@),
        (GlobalEnv::SUI_GROUP_OPS_MODULE_NAME@, GlobalEnv::CRYPTO_GROUP_OPS_MUL_FUNCTION_NAME@),
        (GlobalEnv::SUI_GROUP_OPS_MODULE_NAME@, GlobalEnv::CRYPTO_GROUP_OPS_DIV_FUNCTION_NAME@),
        (GlobalEnv::SUI_GROUP_OPS_MODULE_NAME@, GlobalEnv::CRYPTO_GROUP_OPS_HASH_TO_FUNCTION_NAME@),
        (GlobalEnv::SUI_GROUP_OPS_MODULE_NAME@, GlobalEnv::CRYPTO_GROUP_OPS_MULTI_SCALAR_MUL_FUNCTION_NAME@),
        (GlobalEnv::SUI_GROUP_OPS_MODULE_NAME@, GlobalEnv::CRYPTO_GROUP_OPS_PAIRING_FUNCTION_NAME@),
        (GlobalEnv::SUI_GROUP_OPS_MODULE_NAME@, GlobalEnv::CRYPTO_GROUP_OPS_CONVERT_FUNCTION_NAME@),
        (GlobalEnv::SUI_GROUP_OPS_MODULE_NAME@, GlobalEnv::CRYPTO_GROUP_OPS_SUM_FUNCTION_NAME@),
        (GlobalEnv::SUI_GROTH16_MODULE_NAME@, GlobalEnv::CRYPTO_GROTH16_PREPARE_VERIFYING_KEY_FUNCTION_NAME@),
        (GlobalEnv::SUI_GROTH16_MODULE_NAME@, GlobalEnv::CRYPTO_GROTH16_VERIFY_PROOF_FUNCTION_NAME@),
        (GlobalEnv::SUI_POSEIDON_MODULE_NAME@, GlobalEnv::CRYPTO_POSEIDON_BN254_FUNCTION_NAME@),
        (GlobalEnv::SUI_VDF_MODULE_NAME@, GlobalEnv::CRYPTO_VDF_INPUT_HASHER_FUNCTION_NAME@),
        (GlobalEnv::SUI_VDF_MODULE_NAME@, GlobalEnv::CRYPTO_VDF_PROOF_VERIFIER_FUNCTION_NAME@),
        (GlobalEnv::SUI_NITRO_ATTESTATION_MODULE_NAME@, GlobalEnv::CRYPTO_NITRO_ATTESTATION_LOADER_FUNCTION_NAME@),
    ]
}

/// The native functions of the standard and Sui modules that are deterministic.
fn deterministic_extra_funs_table() -> (r: Vec<(&'static str, &'static str)>)
    ensures
        pair_views(r@) == deterministic_extra_funs(),
{
    let r = vec![
        (GlobalEnv::VECTOR_MODULE_NAME, GlobalEnv::VECTOR_MAGIC_EMPTY_FUNCTION_NAME),
        (GlobalEnv::VECTOR_MODULE_NAME, GlobalEnv::VECTOR_SIZE_DETECTIVE_FUNCTION_NAME),
        (GlobalEnv::VECTOR_MODULE_NAME, GlobalEnv::VECTOR_PEEK_A_BOO_FUNCTION_NAME),
        (GlobalEnv::VECTOR_MODULE_NAME, GlobalEnv::VECTOR_STACK_PUSHER_FUNCTION_NAME),
        (GlobalEnv::VECTOR_MODULE_NAME, GlobalEnv::VECTOR_MUTANT_PEEKER_FUNCTION_NAME),
        (GlobalEnv::VECTOR_MODULE_NAME, GlobalEnv::VECTOR_STACK_POPPER_FUNCTION_NAME),
        (GlobalEnv::VECTOR_MODULE_NAME, GlobalEnv::VECTOR_DESTRUCTION_DERBY_FUNCTION_NAME),
        (GlobalEnv::VECTOR_MODULE_NAME, GlobalEnv::VECTOR_SWITCHEROO_FUNCTION_NAME),
        (GlobalEnv::VECTOR_MODULE_NAME, GlobalEnv::VECTOR_SINGLETON_FUNCTION_NAME),
        (GlobalEnv::STD_HASH_MODULE_NAME, GlobalEnv::HASH_SHA2_FUNCTION_NAME),
        (GlobalEnv::STD_HASH_MODULE_NAME, GlobalEnv::HASH_SHA3_FUNCTION_NAME),
        (GlobalEnv::STD_BCS_MODULE_NAME, GlobalEnv::BCS_BYTE_TRANSFORMER_FUNCTION_NAME),
        (GlobalEnv::STD_DEBUG_MODULE_NAME, GlobalEnv::DEBUG_PRINT_FUNCTION_NAME),
        (GlobalEnv::STD_DEBUG_MODULE_NAME, GlobalEnv::DEBUG_PRINT_TRACE_FUNCTION_NAME),
        (GlobalEnv::STD_TYPE_NAME_MODULE_NAME, GlobalEnv::TYPE_NAME_WITH_DEFINING_IDS_FUNCTION_NAME),
        (GlobalEnv::STD_TYPE_NAME_MODULE_NAME, GlobalEnv::TYPE_NAME_WITH_ORIGINAL_IDS_FUNCTION_NAME),
        (GlobalEnv::STD_TYPE_NAME_MODULE_NAME, GlobalEnv::TYPE_NAME_DEFINING_ID_FUNCTION_NAME),
        (GlobalEnv::STD_TYPE_NAME_MODULE_NAME, GlobalEnv::TYPE_NAME_ORIGINAL_ID_FUNCTION_NAME),
        (GlobalEnv::STD_STRING_MODULE_NAME, GlobalEnv::STRING_CHECK_UTF8_FUNCTION_NAME),
        (GlobalEnv::STD_STRING_MODULE_NAME, GlobalEnv::STRING_IS_CHAR_BOUNDARY_FUNCTION_NAME),
        (GlobalEnv::STD_STRING_MODULE_NAME, GlobalEnv::STRING_SUB_STRING_FUNCTION_NAME),
        (GlobalEnv::STD_STRING_MODULE_NAME, GlobalEnv::STRING_INDEX_OF_FUNCTION_NAME),
        (GlobalEnv::STD_INTEGER_MODULE_NAME, GlobalEnv::INTEGER_FROM_U8_FUNCTION_NAME),
        (GlobalEnv::STD_INTEGER_MODULE_NAME, GlobalEnv::INTEGER_FROM_U16_FUNCTION_NAME),
        (GlobalEnv::STD_INTEGER_MODULE_NAME, GlobalEnv::INTEGER_FROM_U32_FUNCTION_NAME),
        (GlobalEnv::STD_INTEGER_MODULE_NAME, GlobalEnv::INTEGER_FROM_U64_FUNCTION_NAME),
        (GlobalEnv::STD_INTEGER_MODULE_NAME, GlobalEnv::INTEGER_FROM_U128_FUNCTION_NAME),
        (GlobalEnv::STD_INTEGER_MODULE_NAME, GlobalEnv::INTEGER_FROM_U256_FUNCTION_NAME),
        (GlobalEnv::STD_INTEGER_MODULE_NAME, GlobalEnv::INTEGER_TO_U8_FUNCTION_NAME),
        (GlobalEnv::STD_INTEGER_MODULE_NAME, GlobalEnv::INTEGER_TO_U16_FUNCTION_NAME),
        (GlobalEnv::STD_INTEGER_MODULE_NAME, GlobalEnv::INTEGER_TO_U32_FUNCTION_NAME),
        (GlobalEnv::STD_INTEGER_MODULE_NAME, GlobalEnv::INTEGER_TO_U64_FUNCTION_NAME),
        (GlobalEnv::STD_INTEGER_MODULE_NAME, GlobalEnv::INTEGER_TO_U128_FUNCTION_NAME),
        (GlobalEnv::STD_INTEGER_MODULE_NAME, GlobalEnv::INTEGER_TO_U256_FUNCTION_NAME),
        (GlobalEnv::STD_INTEGER_MODULE_NAME, GlobalEnv::INTEGER_ADD_FUNCTION_NAME),
        (GlobalEnv::STD_INTEGER_MODULE_NAME, GlobalEnv::INTEGER_SUB_FUNCTION_NAME),
        (GlobalEnv::STD_INTEGER_MODULE_NAME, GlobalEnv::INTEGER_NEG_FUNCTION_NAME),
        (GlobalEnv::STD_INTEGER_MODULE_NAME, GlobalEnv::INTEGER_MUL_FUNCTION_NAME),
        (GlobalEnv::STD_INTEGER_MODULE_NAME, GlobalEnv::INTEGER_DIV_FUNCTION_NAME),
        (GlobalEnv::STD_INTEGER_MODULE_NAME, GlobalEnv::INTEGER_MOD_FUNCTION_NAME),
        (GlobalEnv::STD_INTEGER_MODULE_NAME, GlobalEnv::INTEGER_SQRT_FUNCTION_NAME),
        (GlobalEnv::STD_INTEGER_MODULE_NAME, GlobalEnv::INTEGER_POW_FUNCTION_NAME),
        (GlobalEnv::STD_INTEGER_MODULE_NAME, GlobalEnv::INTEGER_BIT_OR_FUNCTION_NAME),
        (GlobalEnv::STD_INTEGER_MODULE_NAME, GlobalEnv::INTEGER_BIT_AND_FUNCTION_NAME),
        (GlobalEnv::STD_INTEGER_MODULE_NAME, GlobalEnv::INTEGER_BIT_XOR_FUNCTION_NAME),
        (GlobalEnv::STD_INTEGER_MODULE_NAME, GlobalEnv::INTEGER_BIT_NOT_FUNCTION_NAME),
        (GlobalEnv::STD_INTEGER_MODULE_NAME, GlobalEnv::INTEGER_LT_FUNCTION_NAME),
        (GlobalEnv::STD_INTEGER_MODULE_NAME, GlobalEnv::INTEGER_GT_FUNCTION_NAME),
        (GlobalEnv::STD_INTEGER_MODULE_NAME, GlobalEnv::INTEGER_LTE_FUNCTION_NAME),
        (GlobalEnv::STD_INTEGER_MODULE_NAME, GlobalEnv::INTEGER_GTE_FUNCTION_NAME),
        (GlobalEnv::STD_REAL_MODULE_NAME, GlobalEnv::REAL_FROM_INTEGER_FUNCTION_NAME),
        (GlobalEnv::STD_REAL_MODULE_NAME, GlobalEnv::REAL_TO_INTEGER_FUNCTION_NAME),
        (GlobalEnv::STD_REAL_MODULE_NAME, GlobalEnv::REAL_ADD_FUNCTION_NAME),
        (GlobalEnv::STD_REAL_MODULE_NAME, GlobalEnv::REAL_SUB_FUNCTION_NAME),
        (GlobalEnv::STD_REAL_MODULE_NAME, GlobalEnv::REAL_NEG_FUNCTION_NAME),
        (GlobalEnv::STD_REAL_MODULE_NAME, GlobalEnv::REAL_MUL_FUNCTION_NAME),
        (GlobalEnv::STD_REAL_MODULE_NAME, GlobalEnv::REAL_DIV_FUNCTION_NAME),
        (GlobalEnv::STD_REAL_MODULE_NAME, GlobalEnv::REAL_SQRT_FUNCTION_NAME),
        (GlobalEnv::STD_REAL_MODULE_NAME, GlobalEnv::REAL_EXP_FUNCTION_NAME),
        (GlobalEnv::STD_REAL_MODULE_NAME, GlobalEnv::REAL_LT_FUNCTION_NAME),
        (GlobalEnv::STD_REAL_MODULE_NAME, GlobalEnv::REAL_GT_FUNCTION_NAME),
        (GlobalEnv::STD_REAL_MODULE_NAME, GlobalEnv::REAL_LTE_FUNCTION_NAME),
        (GlobalEnv::STD_REAL_MODULE_NAME, GlobalEnv::REAL_GTE_FUNCTION_NAME),
        (GlobalEnv::SUI_ADDRESS_MODULE_NAME, GlobalEnv::ADDRESS_TO_U256_FUNCTION_NAME),
        (GlobalEnv::SUI_ADDRESS_MODULE_NAME, GlobalEnv::ADDRESS_FROM_U256_FUNCTION_NAME),
        (GlobalEnv::SUI_ADDRESS_MODULE_NAME, GlobalEnv::ADDRESS_FROM_BYTES_FUNCTION_NAME),
        (GlobalEnv::SUI_TYPES_MODULE_NAME, GlobalEnv::TYPES_WITNESS_INSPECTOR_FUNCTION_NAME),
        (GlobalEnv::OBJECT_MODULE_NAME, GlobalEnv::OBJECT_BORROW_UID_FUNCTION_NAME),
        (GlobalEnv::OBJECT_MODULE_NAME, GlobalEnv::OBJECT_DELETE_FUNCTION_NAME),
        (GlobalEnv::OBJECT_MODULE_NAME, GlobalEnv::OBJECT_RECORD_NEW_UID_FUNCTION_NAME),
        (GlobalEnv::DYNAMIC_FIELD_MODULE_NAME, GlobalEnv::DYNAMIC_FIELD_HASH_TYPE_AND_KEY_FUNCTION_NAME),
        (GlobalEnv::DYNAMIC_FIELD_MODULE_NAME, GlobalEnv::DYNAMIC_FIELD_ADD_CHILD_OBJECT_FUNCTION_NAME),
        (GlobalEnv::DYNAMIC_FIELD_MODULE_NAME, GlobalEnv::DYNAMIC_FIELD_BORROW_CHILD_OBJECT_FUNCTION_NAME),
        (GlobalEnv::DYNAMIC_FIELD_MODULE_NAME, GlobalEnv::DYNAMIC_FIELD_BORROW_CHILD_OBJECT_MUT_FUNCTION_NAME),
        (GlobalEnv::DYNAMIC_FIELD_MODULE_NAME, GlobalEnv::DYNAMIC_FIELD_REMOVE_CHILD_OBJECT_FUNCTION_NAME),
        (GlobalEnv::DYNAMIC_FIELD_MODULE_NAME, GlobalEnv::DYNAMIC_FIELD_HAS_CHILD_OBJECT_FUNCTION_NAME),
        (GlobalEnv::DYNAMIC_FIELD_MODULE_NAME, GlobalEnv::DYNAMIC_FIELD_HAS_CHILD_OBJECT_WITH_TYPE_FUNCTION_NAME),
        (GlobalEnv::SUI_TX_CONTEXT_MODULE_NAME, GlobalEnv::TX_CONTEXT_SENDER_FUNCTION_NAME),
        (GlobalEnv::SUI_TX_CONTEXT_MODULE_NAME, GlobalEnv::TX_CONTEXT_EPOCH_FUNCTION_NAME),
        (GlobalEnv::SUI_TX_CONTEXT_MODULE_NAME, GlobalEnv::TX_CONTEXT_EPOCH_TIMESTAMP_MS_FUNCTION_NAME),
        (GlobalEnv::SUI_TX_CONTEXT_MODULE_NAME, GlobalEnv::TX_CONTEXT_REFERENCE_GAS_PRICE_FUNCTION_NAME),
        (GlobalEnv::SUI_TX_CONTEXT_MODULE_NAME, GlobalEnv::TX_CONTEXT_GAS_PRICE_FUNCTION_NAME),
        (GlobalEnv::SUI_TX_CONTEXT_MODULE_NAME, GlobalEnv::TX_CONTEXT_GAS_BUDGET_FUNCTION_NAME),
        (GlobalEnv::SUI_TX_CONTEXT_MODULE_NAME, GlobalEnv::TX_CONTEXT_SPONSOR_FUNCTION_NAME),
        (GlobalEnv::SUI_TX_CONTEXT_MODULE_NAME, GlobalEnv::TX_CONTEXT_REPLACE_FUNCTION_NAME),
        (GlobalEnv::SUI_TX_CONTEXT_MODULE_NAME, GlobalEnv::TX_CONTEXT_DERIVE_ID_FUNCTION_NAME),
        (GlobalEnv::SUI_HASH_MODULE_NAME, GlobalEnv::CRYPTO_HASH_BLAKE_2B_FUNCTION_NAME),
        (GlobalEnv::SUI_HASH_MODULE_NAME, GlobalEnv::CRYPTO_HASH_KECCAK_FUNCTION_NAME),
        (GlobalEnv::SUI_HMAC_MODULE_NAME, GlobalEnv::CRYPTO_HMAC_SHA3_FUNCTION_NAME),
        (GlobalEnv::SUI_ED25519_MODULE_NAME, GlobalEnv::CRYPTO_ED25519_VERIFIER_FUNCTION_NAME),
        (GlobalEnv::SUI_ECVRF_MODULE_NAME, GlobalEnv::CRYPTO_ECVRF_VERIFIER_FUNCTION_NAME),
        (GlobalEnv::SUI_ECDSA_R1_MODULE_NAME, GlobalEnv::CRYPTO_ECDSA_R1_KEY_RECOVERER_FUNCTION_NAME),
        (GlobalEnv::SUI_ECDSA_R1_MODULE_NAME, GlobalEnv::CRYPTO_ECDSA_R1_SIG_VALIDATOR_FUNCTION_NAME),
        (GlobalEnv::SUI_ECDSA_K1_MODULE_NAME, GlobalEnv::CRYPTO_ECDSA_K1_EC_RECOVER_FUNCTION_NAME),
        (GlobalEnv::SUI_ECDSA_K1_MODULE_NAME, GlobalEnv::CRYPTO_ECDSA_K1_DECOMPRESS_PUBKEY_FUNCTION_NAME),
        (GlobalEnv::SUI_ECDSA_K1_MODULE_NAME, GlobalEnv::CRYPTO_ECDSA_K1_VERIFY_FUNCTION_NAME),
        (GlobalEnv::SUI_ECDSA_K1_MODULE_NAME, GlobalEnv::CRYPTO_ECDSA_K1_SIGN_FUNCTION_NAME),
        (GlobalEnv::SUI_ECDSA_K1_MODULE_NAME, GlobalEnv::CRYPTO_ECDSA_K1_KEYPAIR_FROM_SEED_FUNCTION_NAME),
        (GlobalEnv::SUI_BLS12381_MODULE_NAME, GlobalEnv::CRYPTO_BLS_MIN_SIG_VERIFY_FUNCTION_NAME),
        (GlobalEnv::SUI_BLS12381_MODULE_NAME, GlobalEnv::CRYPTO_BLS_MIN_PK_VERIFY_FUNCTION_NAME),
        (GlobalEnv::SUI_GROUP_OPS_MODULE_NAME, GlobalEnv::CRYPTO_GROUP_OPS_VALIDATE_FUNCTION_NAME),
        (GlobalEnv::SUI_GROUP_OPS_MODULE_NAME, GlobalEnv::CRYPTO_GROUP_OPS_ADD_FUNCTION_NAME),
        (GlobalEnv::SUI_GROUP_OPS_MODULE_NAME, GlobalEnv::CRYPTO_GROUP_OPS_SUB_FUNCTION_NAME),
        (GlobalEnv::SUI_GROUP_OPS_MODULE_NAME, GlobalEnv::CRYPTO_GROUP_OPS_MUL_FUNCTION_NAME),
        (GlobalEnv::SUI_GROUP_OPS_MODULE_NAME, GlobalEnv::CRYPTO_GROUP_OPS_DIV_FUNCTION_NAME),
        (GlobalEnv::SUI_GROUP_OPS_MODULE_NAME, GlobalEnv::CRYPTO_GROUP_OPS_HASH_TO_FUNCTION_NAME),
        (GlobalEnv::SUI_GROUP_OPS_MODULE_NAME, GlobalEnv::CRYPTO_GROUP_OPS_MULTI_SCALAR_MUL_FUNCTION_NAME),
        (GlobalEnv::SUI_GROUP_OPS_MODULE_NAME, GlobalEnv::CRYPTO_GROUP_OPS_PAIRING_FUNCTION_NAME),
        (GlobalEnv::SUI_GROUP_OPS_MODULE_NAME, GlobalEnv::CRYPTO_GROUP_OPS_CONVERT_FUNCTION_NAME),
        (GlobalEnv::SUI_GROUP_OPS_MODULE_NAME, GlobalEnv::CRYPTO_GROUP_OPS_SUM_FUNCTION_NAME),
        (GlobalEnv::SUI_GROTH16_MODULE_NAME, GlobalEnv::CRYPTO_GROTH16_PREPARE_VERIFYING_KEY_FUNCTION_NAME),
        (GlobalEnv::SUI_GROTH16_MODULE_NAME, GlobalEnv::CRYPTO_GROTH16_VERIFY_PROOF_FUNCTION_NAME),
        (GlobalEnv::SUI_POSEIDON_MODULE_NAME, GlobalEnv::CRYPTO_POSEIDON_BN254_FUNCTION_NAME),
        (GlobalEnv::SUI_VDF_MODULE_NAME, GlobalEnv::CRYPTO_VDF_INPUT_HASHER_FUNCTION_NAME),
        (GlobalEnv::SUI_VDF_MODULE_NAME, GlobalEnv::CRYPTO_VDF_PROOF_VERIFIER_FUNCTION_NAME),
        (GlobalEnv::SUI_NITRO_ATTESTATION_MODULE_NAME, GlobalEnv::CRYPTO_NITRO_ATTESTATION_LOADER_FUNCTION_NAME),
    ];
    assert(pair_views(r@) =~= deterministic_extra_funs());
    r
}

/// The functions of the prover module that never abort.
pub open spec fn no_abort_prover_funs() -> Seq<Seq<char>> {
    seq![
        GlobalEnv::ASSERTS_OF_FUNCTION_NAME@,
        GlobalEnv::SPLIT_HERE_FUNCTION_NAME@,
        GlobalEnv::FOCUS_FUNCTION_NAME@,
        GlobalEnv::ALLOW_PATH_ISOLATION_FUNCTION_NAME@,
    ]
}

/// The functions of the prover module that never abort.
fn no_abort_prover_funs_table() -> (r: Vec<&'static str>)
    ensures
        str_views(r@) == no_abort_prover_funs(),
{
    let r = vec![
        GlobalEnv::ASSERTS_OF_FUNCTION_NAME,
        GlobalEnv::SPLIT_HERE_FUNCTION_NAME,
        GlobalEnv::FOCUS_FUNCTION_NAME,
        GlobalEnv::ALLOW_PATH_ISOLATION_FUNCTION_NAME,
    ];
    assert(str_views(r@) =~= no_abort_prover_funs());
    r
}

/// The native functions of the standard and Sui modules that never abort.
pub open spec fn no_abort_extra_funs() -> Seq<(Seq<char>, Seq<char>)> {
    seq![
        (GlobalEnv::VECTOR_MODULE_NAME@, GlobalEnv::VECTOR_MAGIC_EMPTY_FUNCTION_NAME@),
        (GlobalEnv::VECTOR_MODULE_NAME@, GlobalEnv::VECTOR_SIZE_DETECTIVE_FUNCTION_NAME@),
        (GlobalEnv::VECTOR_MODULE_NAME@, GlobalEnv::VECTOR_IS_EMPTY_FUNCTION_NAME@),
        (GlobalEnv::VECTOR_MODULE_NAME@, GlobalEnv::VECTOR_CONTAINS_FUNCTION_NAME@),
        (GlobalEnv::VECTOR_MODULE_NAME@, GlobalEnv::VECTOR_INDEX_OF_FUNCTION_NAME@),
        (GlobalEnv::VECTOR_MODULE_NAME@, GlobalEnv::VECTOR_SINGLETON_FUNCTION_NAME@),
        (GlobalEnv::STD_HASH_MODULE_NAME@, GlobalEnv::HASH_SHA2_FUNCTION_NAME@),
        (GlobalEnv::STD_HASH_MODULE_NAME@, GlobalEnv::HASH_SHA3_FUNCTION_NAME@),
        (GlobalEnv::STD_BCS_MODULE_NAME@, GlobalEnv::BCS_BYTE_TRANSFORMER_FUNCTION_NAME@),
        (GlobalEnv::STD_DEBUG_MODULE_NAME@, GlobalEnv::DEBUG_PRINT_FUNCTION_NAME@),
        (GlobalEnv::STD_DEBUG_MODULE_NAME@, GlobalEnv::DEBUG_PRINT_TRACE_FUNCTION_NAME@),
        (GlobalEnv::STD_TYPE_NAME_MODULE_NAME@, GlobalEnv::TYPE_NAME_WITH_DEFINING_IDS_FUNCTION_NAME@),
        (GlobalEnv::STD_TYPE_NAME_MODULE_NAME@, GlobalEnv::TYPE_NAME_WITH_ORIGINAL_IDS_FUNCTION_NAME@),
        (GlobalEnv::STD_TYPE_NAME_MODULE_NAME@, GlobalEnv::TYPE_NAME_DEFINING_ID_FUNCTION_NAME@),
        (GlobalEnv::STD_TYPE_NAME_MODULE_NAME@, GlobalEnv::TYPE_NAME_ORIGINAL_ID_FUNCTION_NAME@),
        (GlobalEnv::STD_STRING_MODULE_NAME@, GlobalEnv::STRING_CHECK_UTF8_FUNCTION_NAME@),
        (GlobalEnv::STD_STRING_MODULE_NAME@, GlobalEnv::STRING_IS_CHAR_BOUNDARY_FUNCTION_NAME@),
        (GlobalEnv::STD_STRING_MODULE_NAME@, GlobalEnv::STRING_SUB_STRING_FUNCTION_NAME@),
        (GlobalEnv::STD_STRING_MODULE_NAME@, GlobalEnv::STRING_INDEX_OF_FUNCTION_NAME@),
        (GlobalEnv::STD_INTEGER_MODULE_NAME@, GlobalEnv::INTEGER_FROM_U8_FUNCTION_NAME@),
        (GlobalEnv::STD_INTEGER_MODULE_NAME@, GlobalEnv::INTEGER_FROM_U16_FUNCTION_NAME@),
        (GlobalEnv::STD_INTEGER_MODULE_NAME@, GlobalEnv::INTEGER_FROM_U32_FUNCTION_NAME@),
        (GlobalEnv::STD_INTEGER_MODULE_NAME@, GlobalEnv::INTEGER_FROM_U64_FUNCTION_NAME@),
        (GlobalEnv::STD_INTEGER_MODULE_NAME@, GlobalEnv::INTEGER_FROM_U128_FUNCTION_NAME@),
        (GlobalEnv::STD_INTEGER_MODULE_NAME@, GlobalEnv::INTEGER_FROM_U256_FUNCTION_NAME@),
        (GlobalEnv::STD_INTEGER_MODULE_NAME@, GlobalEnv::INTEGER_ADD_FUNCTION_NAME@),
        (GlobalEnv::STD_INTEGER_MODULE_NAME@, GlobalEnv::INTEGER_SUB_FUNCTION_NAME@),
        (GlobalEnv::STD_INTEGER_MODULE_NAME@, GlobalEnv::INTEGER_NEG_FUNCTION_NAME@),
        (GlobalEnv::STD_INTEGER_MODULE_NAME@, GlobalEnv::INTEGER_MUL_FUNCTION_NAME@),
        (GlobalEnv::STD_INTEGER_MODULE_NAME@, GlobalEnv::INTEGER_BIT_OR_FUNCTION_NAME@),
        (GlobalEnv::STD_INTEGER_MODULE_NAME@, GlobalEnv::INTEGER_BIT_AND_FUNCTION_NAME@),
        (GlobalEnv::STD_INTEGER_MODULE_NAME@, GlobalEnv::INTEGER_BIT_XOR_FUNCTION_NAME@),
        (GlobalEnv::STD_INTEGER_MODULE_NAME@, GlobalEnv::INTEGER_BIT_NOT_FUNCTION_NAME@),
        (GlobalEnv::STD_INTEGER_MODULE_NAME@, GlobalEnv::INTEGER_LT_FUNCTION_NAME@),
        (GlobalEnv::STD_INTEGER_MODULE_NAME@, GlobalEnv::INTEGER_GT_FUNCTION_NAME@),
        (GlobalEnv::STD_INTEGER_MODULE_NAME@, GlobalEnv::INTEGER_LTE_FUNCTION_NAME@),
        (GlobalEnv::STD_INTEGER_MODULE_NAME@, GlobalEnv::INTEGER_GTE_FUNCTION_NAME@),
        (GlobalEnv::STD_REAL_MODULE_NAME@, GlobalEnv::REAL_FROM_INTEGER_FUNCTION_NAME@),
        (GlobalEnv::STD_REAL_MODULE_NAME@, GlobalEnv::REAL_TO_INTEGER_FUNCTION_NAME@),
        (GlobalEnv::STD_REAL_MODULE_NAME@, GlobalEnv::REAL_ADD_FUNCTION_NAME@),
        (GlobalEnv::STD_REAL_MODULE_NAME@, GlobalEnv::REAL_SUB_FUNCTION_NAME@),
        (GlobalEnv::STD_REAL_MODULE_NAME@, GlobalEnv::REAL_NEG_FUNCTION_NAME@),
        (GlobalEnv::STD_REAL_MODULE_NAME@, GlobalEnv::REAL_MUL_FUNCTION_NAME@),
        (GlobalEnv::STD_REAL_MODULE_NAME@, GlobalEnv::REAL_LT_FUNCTION_NAME@),
        (GlobalEnv::STD_REAL_MODULE_NAME@, GlobalEnv::REAL_GT_FUNCTION_NAME@),
        (GlobalEnv::STD_REAL_MODULE_NAME@, GlobalEnv::REAL_LTE_FUNCTION_NAME@),
        (GlobalEnv::STD_REAL_MODULE_NAME@, GlobalEnv::REAL_GTE_FUNCTION_NAME@),
        (GlobalEnv::VEC_SET_MODULE_NAME@, GlobalEnv::VEC_SET_GET_IDX_OPT_FUNCTION_NAME@),
        (GlobalEnv::VEC_SET_MODULE_NAME@, GlobalEnv::VEC_SET_CONTAINS_FUNCTION_NAME@),
        (GlobalEnv::VEC_MAP_MODULE_NAME@, GlobalEnv::VEC_MAP_GET_IDX_OPT_FUNCTION_NAME@),
        (GlobalEnv::VEC_MAP_MODULE_NAME@, GlobalEnv::VEC_MAP_CONTAINS_FUNCTION_NAME@),
        (GlobalEnv::VEC_MAP_MODULE_NAME@, GlobalEnv::VEC_MAP_INTO_KEYS_VALUES_FUNCTION_NAME@),
        (GlobalEnv::VEC_MAP_MODULE_NAME@, GlobalEnv::VEC_MAP_KEYS_FUNCTION_NAME@),
        (GlobalEnv::TABLE_MODULE_NAME@, GlobalEnv::TABLE_IS_EMPTY_FUNCTION_NAME@),
        (GlobalEnv::TABLE_MODULE_NAME@, GlobalEnv::TABLE_LENGTH_FUNCTION_NAME@),
        (GlobalEnv::TABLE_MODULE_NAME@, GlobalEnv::TABLE_CONTAINS_FUNCTION_NAME@),
        (GlobalEnv::OBJECT_TABLE_MODULE_NAME@, GlobalEnv::TABLE_IS_EMPTY_FUNCTION_NAME@),
        (GlobalEnv::OBJECT_TABLE_MODULE_NAME@, GlobalEnv::TABLE_LENGTH_FUNCTION_NAME@),
        (GlobalEnv::OBJECT_TABLE_MODULE_NAME@, GlobalEnv::TABLE_CONTAINS_FUNCTION_NAME@),
        (GlobalEnv::DYNAMIC_FIELD_MODULE_NAME@, GlobalEnv::DYNAMIC_FIELD_EXISTS_FUNCTION_NAME@),
        (GlobalEnv::DYNAMIC_FIELD_MODULE_NAME@, GlobalEnv::DYNAMIC_FIELD_EXISTS_WITH_TYPE_FUNCTION_NAME@),
        (GlobalEnv::DYNAMIC_OBJECT_MODULE_NAME@, GlobalEnv::DYNAMIC_FIELD_EXISTS_FUNCTION_NAME@),
        (GlobalEnv::DYNAMIC_OBJECT_MODULE_NAME@, GlobalEnv::DYNAMIC_FIELD_EXISTS_WITH_TYPE_FUNCTION_NAME@),
        (GlobalEnv::SUI_ADDRESS_MODULE_NAME@, GlobalEnv::ADDRESS_TO_U256_FUNCTION_NAME@),
        (GlobalEnv::SUI_ACCUMULATOR_MODULE_NAME@, GlobalEnv::ACCUMULATOR_EMIT_DEPOSIT_EVENT_FUNCTION_NAME@),
        (GlobalEnv::SUI_ACCUMULATOR_MODULE_NAME@, GlobalEnv::ACCUMULATOR_EMIT_WITHDRAW_EVENT_FUNCTION_NAME@),
        (GlobalEnv::SUI_EVENT_MODULE_NAME@, GlobalEnv::EVENT_EMIT_FUNCTION_NAME@),
        (GlobalEnv::SUI_TX_CONTEXT_MODULE_NAME@, GlobalEnv::TX_CONTEXT_SENDER_FUNCTION_NAME@),
        (GlobalEnv::SUI_TX_CONTEXT_MODULE_NAME@, GlobalEnv::TX_CONTEXT_EPOCH_FUNCTION_NAME@),
        (GlobalEnv::SUI_TX_CONTEXT_MODULE_NAME@, GlobalEnv::TX_CONTEXT_EPOCH_TIMESTAMP_MS_FUNCTION_NAME@),
        (GlobalEnv::SUI_TX_CONTEXT_MODULE_NAME@, GlobalEnv::TX_CONTEXT_FRESH_ID_FUNCTION_NAME@),
        (GlobalEnv::SUI_TX_CONTEXT_MODULE_NAME@, GlobalEnv::TX_CONTEXT_REFERENCE_GAS_PRICE_FUNCTION_NAME@),
        (GlobalEnv::SUI_TX_CONTEXT_MODULE_NAME@, GlobalEnv::TX_CONTEXT_GAS_PRICE_FUNCTION_NAME@),
        (GlobalEnv::SUI_TX_CONTEXT_MODULE_NAME@, GlobalEnv::TX_CONTEXT_IDS_CREATED_FUNCTION_NAME@),
        (GlobalEnv::SUI_TX_CONTEXT_MODULE_NAME@, GlobalEnv::TX_CONTEXT_GAS_BUDGET_FUNCTION_NAME@),
        (GlobalEnv::SUI_TX_CONTEXT_MODULE_NAME@, GlobalEnv::TX_CONTEXT_LAST_CREATED_ID_FUNCTION_NAME@),
        (GlobalEnv::SUI_TX_CONTEXT_MODULE_NAME@, GlobalEnv::TX_CONTEXT_SPONSOR_FUNCTION_NAME@),
        (GlobalEnv::SUI_TX_CONTEXT_MODULE_NAME@, GlobalEnv::TX_CONTEXT_REPLACE_FUNCTION_NAME@),
        (GlobalEnv::SUI_TX_CONTEXT_MODULE_NAME@, GlobalEnv::TX_CONTEXT_DERIVE_ID_FUNCTION_NAME@),
        (GlobalEnv::SUI_ECDSA_K1_MODULE_NAME@, GlobalEnv::CRYPTO_ECDSA_K1_VERIFY_FUNCTION_NAME@),
        (GlobalEnv::SUI_ECDSA_K1_MODULE_NAME@, GlobalEnv::CRYPTO_ECDSA_K1_SIGN_FUNCTION_NAME@),
        (GlobalEnv::SUI_ECDSA_R1_MODULE_NAME@, GlobalEnv::CRYPTO_ECDSA_R1_SIG_VALIDATOR_FUNCTION_NAME@),
        (GlobalEnv::SUI_ED25519_MODULE_NAME@, GlobalEnv::CRYPTO_ED25519_VERIFIER_FUNCTION_NAME@),
        (GlobalEnv::SUI_BLS12381_MODULE_NAME@, GlobalEnv::CRYPTO_BLS_MIN_SIG_VERIFY_FUNCTION_NAME@),
        (GlobalEnv::SUI_BLS12381_MODULE_NAME@, GlobalEnv::CRYPTO_BLS_MIN_PK_VERIFY_FUNCTION_NAME@),
        (GlobalEnv::SUI_TYPES_MODULE_NAME@, GlobalEnv::TYPES_WITNESS_INSPECTOR_FUNCTION_NAME@),
        (GlobalEnv::OBJECT_MODULE_NAME@, GlobalEnv::OBJECT_BORROW_UID_FUNCTION_NAME@),
        (GlobalEnv::OBJECT_MODULE_NAME@, GlobalEnv::OBJECT_DELETE_FUNCTION_NAME@),
        (GlobalEnv::OBJECT_MODULE_NAME@, GlobalEnv::OBJECT_RECORD_NEW_UID_FUNCTION_NAME@),
        (GlobalEnv::SUI_HASH_MODULE_NAME@, GlobalEnv::CRYPTO_HASH_BLAKE_2B_FUNCTION_NAME@),
        (GlobalEnv::SUI_HASH_MODULE_NAME@, GlobalEnv::CRYPTO_HASH_KECCAK_FUNCTION_NAME@),
        (GlobalEnv::SUI_HMAC_MODULE_NAME@, GlobalEnv::CRYPTO_HMAC_SHA3_FUNCTION_NAME@),
        (GlobalEnv::SUI_GROUP_OPS_MODULE_NAME@, GlobalEnv::CRYPTO_GROUP_OPS_VALIDATE_FUNCTION_NAME@),
        (GlobalEnv::SUI_GROUP_OPS_MODULE_NAME@, GlobalEnv::CRYPTO_GROUP_OPS_ADD_FUNCTION_NAME@),
        (GlobalEnv::SUI_GROUP_OPS_MODULE_NAME@, GlobalEnv::CRYPTO_GROUP_OPS_SUB_FUNCTION_NAME@),
        (GlobalEnv::SUI_GROUP_OPS_MODULE_NAME@, GlobalEnv::CRYPTO_GROUP_OPS_MUL_FUNCTION_NAME@),
        (GlobalEnv::SUI_GROUP_OPS_MODULE_NAME@, GlobalEnv::CRYPTO_GROUP_OPS_DIV_FUNCTION_NAME@),
        (GlobalEnv::SUI_GROUP_OPS_MODULE_NAME@, GlobalEnv::CRYPTO_GROUP_OPS_HASH_TO_FUNCTION_NAME@),
        (GlobalEnv::SUI_GROUP_OPS_MODULE_NAME@, GlobalEnv::CRYPTO_GROUP_OPS_MULTI_SCALAR_MUL_FUNCTION_NAME@),
        (GlobalEnv::SUI_GROUP_OPS_MODULE_NAME@, GlobalEnv::CRYPTO_GROUP_OPS_PAIRING_FUNCTION_NAME@),
        (GlobalEnv::SUI_GROUP_OPS_MODULE_NAME@, GlobalEnv::CRYPTO_GROUP_OPS_CONVERT_FUNCTION_NAME@),
        (GlobalEnv::SUI_GROUP_OPS_MODULE_NAME@, GlobalEnv::CRYPTO_GROUP_OPS_SUM_FUNCTION_NAME@),
        (GlobalEnv::SUI_VDF_MODULE_NAME@, GlobalEnv::CRYPTO_VDF_INPUT_HASHER_FUNCTION_NAME@),
        (GlobalEnv::SUI_VDF_MODULE_NAME@, GlobalEnv::CRYPTO_VDF_PROOF_VERIFIER_FUNCTION_NAME@),
        (GlobalEnv::SUI_NITRO_ATTESTATION_MODULE_NAME@, GlobalEnv::CRYPTO_NITRO_ATTESTATION_LOADER_FUNCTION_NAME@),
    ]
}

/// The native functions of the standard and Sui modules that never abort.
fn no_abort_extra_funs_table() -> (r: Vec<(&'static str, &'static str)>)
    ensures
        pair_views(r@) == no_abort_extra_funs(),
{
    let r = vec![
        (GlobalEnv::VECTOR_MODULE_NAME, GlobalEnv::VECTOR_MAGIC_EMPTY_FUNCTION_NAME),
        (GlobalEnv::VECTOR_MODULE_NAME, GlobalEnv::VECTOR_SIZE_DETECTIVE_FUNCTION_NAME),
        (GlobalEnv::VECTOR_MODULE_NAME, GlobalEnv::VECTOR_IS_EMPTY_FUNCTION_NAME),
        (GlobalEnv::VECTOR_MODULE_NAME, GlobalEnv::VECTOR_CONTAINS_FUNCTION_NAME),
        (GlobalEnv::VECTOR_MODULE_NAME, GlobalEnv::VECTOR_INDEX_OF_FUNCTION_NAME),
        (GlobalEnv::VECTOR_MODULE_NAME, GlobalEnv::VECTOR_SINGLETON_FUNCTION_NAME),
        (GlobalEnv::STD_HASH_MODULE_NAME, GlobalEnv::HASH_SHA2_FUNCTION_NAME),
        (GlobalEnv::STD_HASH_MODULE_NAME, GlobalEnv::HASH_SHA3_FUNCTION_NAME),
        (GlobalEnv::STD_BCS_MODULE_NAME, GlobalEnv::BCS_BYTE_TRANSFORMER_FUNCTION_NAME),
        (GlobalEnv::STD_DEBUG_MODULE_NAME, GlobalEnv::DEBUG_PRINT_FUNCTION_NAME),
        (GlobalEnv::STD_DEBUG_MODULE_NAME, GlobalEnv::DEBUG_PRINT_TRACE_FUNCTION_NAME),
        (GlobalEnv::STD_TYPE_NAME_MODULE_NAME, GlobalEnv::TYPE_NAME_WITH_DEFINING_IDS_FUNCTION_NAME),
        (GlobalEnv::STD_TYPE_NAME_MODULE_NAME, GlobalEnv::TYPE_NAME_WITH_ORIGINAL_IDS_FUNCTION_NAME),
        (GlobalEnv::STD_TYPE_NAME_MODULE_NAME, GlobalEnv::TYPE_NAME_DEFINING_ID_FUNCTION_NAME),
        (GlobalEnv::STD_TYPE_NAME_MODULE_NAME, GlobalEnv::TYPE_NAME_ORIGINAL_ID_FUNCTION_NAME),
        (GlobalEnv::STD_STRING_MODULE_NAME, GlobalEnv::STRING_CHECK_UTF8_FUNCTION_NAME),
        (GlobalEnv::STD_STRING_MODULE_NAME, GlobalEnv::STRING_IS_CHAR_BOUNDARY_FUNCTION_NAME),
        (GlobalEnv::STD_STRING_MODULE_NAME, GlobalEnv::STRING_SUB_STRING_FUNCTION_NAME),
        (GlobalEnv::STD_STRING_MODULE_NAME, GlobalEnv::STRING_INDEX_OF_FUNCTION_NAME),
        (GlobalEnv::STD_INTEGER_MODULE_NAME, GlobalEnv::INTEGER_FROM_U8_FUNCTION_NAME),
        (GlobalEnv::STD_INTEGER_MODULE_NAME, GlobalEnv::INTEGER_FROM_U16_FUNCTION_NAME),
        (GlobalEnv::STD_INTEGER_MODULE_NAME, GlobalEnv::INTEGER_FROM_U32_FUNCTION_NAME),
        (GlobalEnv::STD_INTEGER_MODULE_NAME, GlobalEnv::INTEGER_FROM_U64_FUNCTION_NAME),
        (GlobalEnv::STD_INTEGER_MODULE_NAME, GlobalEnv::INTEGER_FROM_U128_FUNCTION_NAME),
        (GlobalEnv::STD_INTEGER_MODULE_NAME, GlobalEnv::INTEGER_FROM_U256_FUNCTION_NAME),
        (GlobalEnv::STD_INTEGER_MODULE_NAME, GlobalEnv::INTEGER_ADD_FUNCTION_NAME),
        (GlobalEnv::STD_INTEGER_MODULE_NAME, GlobalEnv::INTEGER_SUB_FUNCTION_NAME),
        (GlobalEnv::STD_INTEGER_MODULE_NAME, GlobalEnv::INTEGER_NEG_FUNCTION_NAME),
        (GlobalEnv::STD_INTEGER_MODULE_NAME, GlobalEnv::INTEGER_MUL_FUNCTION_NAME),
        (GlobalEnv::STD_INTEGER_MODULE_NAME, GlobalEnv::INTEGER_BIT_OR_FUNCTION_NAME),
        (GlobalEnv::STD_INTEGER_MODULE_NAME, GlobalEnv::INTEGER_BIT_AND_FUNCTION_NAME),
        (GlobalEnv::STD_INTEGER_MODULE_NAME, GlobalEnv::INTEGER_BIT_XOR_FUNCTION_NAME),
        (GlobalEnv::STD_INTEGER_MODULE_NAME, GlobalEnv::INTEGER_BIT_NOT_FUNCTION_NAME),
        (GlobalEnv::STD_INTEGER_MODULE_NAME, GlobalEnv::INTEGER_LT_FUNCTION_NAME),
        (GlobalEnv::STD_INTEGER_MODULE_NAME, GlobalEnv::INTEGER_GT_FUNCTION_NAME),
        (GlobalEnv::STD_INTEGER_MODULE_NAME, GlobalEnv::INTEGER_LTE_FUNCTION_NAME),
        (GlobalEnv::STD_INTEGER_MODULE_NAME, GlobalEnv::INTEGER_GTE_FUNCTION_NAME),
        (GlobalEnv::STD_REAL_MODULE_NAME, GlobalEnv::REAL_FROM_INTEGER_FUNCTION_NAME),
        (GlobalEnv::STD_REAL_MODULE_NAME, GlobalEnv::REAL_TO_INTEGER_FUNCTION_NAME),
        (GlobalEnv::STD_REAL_MODULE_NAME, GlobalEnv::REAL_ADD_FUNCTION_NAME),
        (GlobalEnv::STD_REAL_MODULE_NAME, GlobalEnv::REAL_SUB_FUNCTION_NAME),
        (GlobalEnv::STD_REAL_MODULE_NAME, GlobalEnv::REAL_NEG_FUNCTION_NAME),
        (GlobalEnv::STD_REAL_MODULE_NAME, GlobalEnv::REAL_MUL_FUNCTION_NAME),
        (GlobalEnv::STD_REAL_MODULE_NAME, GlobalEnv::REAL_LT_FUNCTION_NAME),
        (GlobalEnv::STD_REAL_MODULE_NAME, GlobalEnv::REAL_GT_FUNCTION_NAME),
        (GlobalEnv::STD_REAL_MODULE_NAME, GlobalEnv::REAL_LTE_FUNCTION_NAME),
        (GlobalEnv::STD_REAL_MODULE_NAME, GlobalEnv::REAL_GTE_FUNCTION_NAME),
        (GlobalEnv::VEC_SET_MODULE_NAME, GlobalEnv::VEC_SET_GET_IDX_OPT_FUNCTION_NAME),
        (GlobalEnv::VEC_SET_MODULE_NAME, GlobalEnv::VEC_SET_CONTAINS_FUNCTION_NAME),
        (GlobalEnv::VEC_MAP_MODULE_NAME, GlobalEnv::VEC_MAP_GET_IDX_OPT_FUNCTION_NAME),
        (GlobalEnv::VEC_MAP_MODULE_NAME, GlobalEnv::VEC_MAP_CONTAINS_FUNCTION_NAME),
        (GlobalEnv::VEC_MAP_MODULE_NAME, GlobalEnv::VEC_MAP_INTO_KEYS_VALUES_FUNCTION_NAME),
        (GlobalEnv::VEC_MAP_MODULE_NAME, GlobalEnv::VEC_MAP_KEYS_FUNCTION_NAME),
        (GlobalEnv::TABLE_MODULE_NAME, GlobalEnv::TABLE_IS_EMPTY_FUNCTION_NAME),
        (GlobalEnv::TABLE_MODULE_NAME, GlobalEnv::TABLE_LENGTH_FUNCTION_NAME),
        (GlobalEnv::TABLE_MODULE_NAME, GlobalEnv::TABLE_CONTAINS_FUNCTION_NAME),
        (GlobalEnv::OBJECT_TABLE_MODULE_NAME, GlobalEnv::TABLE_IS_EMPTY_FUNCTION_NAME),
        (GlobalEnv::OBJECT_TABLE_MODULE_NAME, GlobalEnv::TABLE_LENGTH_FUNCTION_NAME),
        (GlobalEnv::OBJECT_TABLE_MODULE_NAME, GlobalEnv::TABLE_CONTAINS_FUNCTION_NAME),
        (GlobalEnv::DYNAMIC_FIELD_MODULE_NAME, GlobalEnv::DYNAMIC_FIELD_EXISTS_FUNCTION_NAME),
        (GlobalEnv::DYNAMIC_FIELD_MODULE_NAME, GlobalEnv::DYNAMIC_FIELD_EXISTS_WITH_TYPE_FUNCTION_NAME),
        (GlobalEnv::DYNAMIC_OBJECT_MODULE_NAME, GlobalEnv::DYNAMIC_FIELD_EXISTS_FUNCTION_NAME),
        (GlobalEnv::DYNAMIC_OBJECT_MODULE_NAME, GlobalEnv::DYNAMIC_FIELD_EXISTS_WITH_TYPE_FUNCTION_NAME),
        (GlobalEnv::SUI_ADDRESS_MODULE_NAME, GlobalEnv::ADDRESS_TO_U256_FUNCTION_NAME),
        (GlobalEnv::SUI_ACCUMULATOR_MODULE_NAME, GlobalEnv::ACCUMULATOR_EMIT_DEPOSIT_EVENT_FUNCTION_NAME),
        (GlobalEnv::SUI_ACCUMULATOR_MODULE_NAME, GlobalEnv::ACCUMULATOR_EMIT_WITHDRAW_EVENT_FUNCTION_NAME),
        (GlobalEnv::SUI_EVENT_MODULE_NAME, GlobalEnv::EVENT_EMIT_FUNCTION_NAME),
        (GlobalEnv::SUI_TX_CONTEXT_MODULE_NAME, GlobalEnv::TX_CONTEXT_SENDER_FUNCTION_NAME),
        (GlobalEnv::SUI_TX_CONTEXT_MODULE_NAME, GlobalEnv::TX_CONTEXT_EPOCH_FUNCTION_NAME),
        (GlobalEnv::SUI_TX_CONTEXT_MODULE_NAME, GlobalEnv::TX_CONTEXT_EPOCH_TIMESTAMP_MS_FUNCTION_NAME),
        (GlobalEnv::SUI_TX_CONTEXT_MODULE_NAME, GlobalEnv::TX_CONTEXT_FRESH_ID_FUNCTION_NAME),
        (GlobalEnv::SUI_TX_CONTEXT_MODULE_NAME, GlobalEnv::TX_CONTEXT_REFERENCE_GAS_PRICE_FUNCTION_NAME),
        (GlobalEnv::SUI_TX_CONTEXT_MODULE_NAME, GlobalEnv::TX_CONTEXT_GAS_PRICE_FUNCTION_NAME),
        (GlobalEnv::SUI_TX_CONTEXT_MODULE_NAME, GlobalEnv::TX_CONTEXT_IDS_CREATED_FUNCTION_NAME),
        (GlobalEnv::SUI_TX_CONTEXT_MODULE_NAME, GlobalEnv::TX_CONTEXT_GAS_BUDGET_FUNCTION_NAME),
        (GlobalEnv::SUI_TX_CONTEXT_MODULE_NAME, GlobalEnv::TX_CONTEXT_LAST_CREATED_ID_FUNCTION_NAME),
        (GlobalEnv::SUI_TX_CONTEXT_MODULE_NAME, GlobalEnv::TX_CONTEXT_SPONSOR_FUNCTION_NAME),
        (GlobalEnv::SUI_TX_CONTEXT_MODULE_NAME, GlobalEnv::TX_CONTEXT_REPLACE_FUNCTION_NAME),
        (GlobalEnv::SUI_TX_CONTEXT_MODULE_NAME, GlobalEnv::TX_CONTEXT_DERIVE_ID_FUNCTION_NAME),
        (GlobalEnv::SUI_ECDSA_K1_MODULE_NAME, GlobalEnv::CRYPTO_ECDSA_K1_VERIFY_FUNCTION_NAME),
        (GlobalEnv::SUI_ECDSA_K1_MODULE_NAME, GlobalEnv::CRYPTO_ECDSA_K1_SIGN_FUNCTION_NAME),
        (GlobalEnv::SUI_ECDSA_R1_MODULE_NAME, GlobalEnv::CRYPTO_ECDSA_R1_SIG_VALIDATOR_FUNCTION_NAME),
        (GlobalEnv::SUI_ED25519_MODULE_NAME, GlobalEnv::CRYPTO_ED25519_VERIFIER_FUNCTION_NAME),
        (GlobalEnv::SUI_BLS12381_MODULE_NAME, GlobalEnv::CRYPTO_BLS_MIN_SIG_VERIFY_FUNCTION_NAME),
        (GlobalEnv::SUI_BLS12381_MODULE_NAME, GlobalEnv::CRYPTO_BLS_MIN_PK_VERIFY_FUNCTION_NAME),
        (GlobalEnv::SUI_TYPES_MODULE_NAME, GlobalEnv::TYPES_WITNESS_INSPECTOR_FUNCTION_NAME),
        (GlobalEnv::OBJECT_MODULE_NAME, GlobalEnv::OBJECT_BORROW_UID_FUNCTION_NAME),
        (GlobalEnv::OBJECT_MODULE_NAME, GlobalEnv::OBJECT_DELETE_FUNCTION_NAME),
        (GlobalEnv::OBJECT_MODULE_NAME, GlobalEnv::OBJECT_RECORD_NEW_UID_FUNCTION_NAME),
        (GlobalEnv::SUI_HASH_MODULE_NAME, GlobalEnv::CRYPTO_HASH_BLAKE_2B_FUNCTION_NAME),
        (GlobalEnv::SUI_HASH_MODULE_NAME, GlobalEnv::CRYPTO_HASH_KECCAK_FUNCTION_NAME),
        (GlobalEnv::SUI_HMAC_MODULE_NAME, GlobalEnv::CRYPTO_HMAC_SHA3_FUNCTION_NAME),
        (GlobalEnv::SUI_GROUP_OPS_MODULE_NAME, GlobalEnv::CRYPTO_GROUP_OPS_VALIDATE_FUNCTION_NAME),
        (GlobalEnv::SUI_GROUP_OPS_MODULE_NAME, GlobalEnv::CRYPTO_GROUP_OPS_ADD_FUNCTION_NAME),
        (GlobalEnv::SUI_GROUP_OPS_MODULE_NAME, GlobalEnv::CRYPTO_GROUP_OPS_SUB_FUNCTION_NAME),
        (GlobalEnv::SUI_GROUP_OPS_MODULE_NAME, GlobalEnv::CRYPTO_GROUP_OPS_MUL_FUNCTION_NAME),
        (GlobalEnv::SUI_GROUP_OPS_MODULE_NAME, GlobalEnv::CRYPTO_GROUP_OPS_DIV_FUNCTION_NAME),
        (GlobalEnv::SUI_GROUP_OPS_MODULE_NAME, GlobalEnv::CRYPTO_GROUP_OPS_HASH_TO_FUNCTION_NAME),
        (GlobalEnv::SUI_GROUP_OPS_MODULE_NAME, GlobalEnv::CRYPTO_GROUP_OPS_MULTI_SCALAR_MUL_FUNCTION_NAME),
        (GlobalEnv::SUI_GROUP_OPS_MODULE_NAME, GlobalEnv::CRYPTO_GROUP_OPS_PAIRING_FUNCTION_NAME),
        (GlobalEnv::SUI_GROUP_OPS_MODULE_NAME, GlobalEnv::CRYPTO_GROUP_OPS_CONVERT_FUNCTION_NAME),
        (GlobalEnv::SUI_GROUP_OPS_MODULE_NAME, GlobalEnv::CRYPTO_GROUP_OPS_SUM_FUNCTION_NAME),
        (GlobalEnv::SUI_VDF_MODULE_NAME, GlobalEnv::CRYPTO_VDF_INPUT_HASHER_FUNCTION_NAME),
        (GlobalEnv::SUI_VDF_MODULE_NAME, GlobalEnv::CRYPTO_VDF_PROOF_VERIFIER_FUNCTION_NAME),
        (GlobalEnv::SUI_NITRO_ATTESTATION_MODULE_NAME, GlobalEnv::CRYPTO_NITRO_ATTESTATION_LOADER_FUNCTION_NAME),
    ];
    assert(pair_views(r@) =~= no_abort_extra_funs());
    r
}

/// The functions that the prover treats as intrinsic.
pub open spec fn intrinsic_funs() -> Seq<(Seq<char>, Seq<char>)> {
    seq![
        (GlobalEnv::VECTOR_MODULE_NAME@, GlobalEnv::VECTOR_REVERSE_FUNCTION_NAME@),
        (GlobalEnv::VECTOR_MODULE_NAME@, GlobalEnv::VECTOR_APPEND_FUNCTION_NAME@),
        (GlobalEnv::VECTOR_MODULE_NAME@, GlobalEnv::VECTOR_IS_EMPTY_FUNCTION_NAME@),
        (GlobalEnv::VECTOR_MODULE_NAME@, GlobalEnv::VECTOR_CONTAINS_FUNCTION_NAME@),
        (GlobalEnv::VECTOR_MODULE_NAME@, GlobalEnv::VECTOR_INDEX_OF_FUNCTION_NAME@),
        (GlobalEnv::VECTOR_MODULE_NAME@, GlobalEnv::VECTOR_REMOVE_FUNCTION_NAME@),
        (GlobalEnv::VECTOR_MODULE_NAME@, GlobalEnv::VECTOR_INSERT_FUNCTION_NAME@),
        (GlobalEnv::VECTOR_MODULE_NAME@, GlobalEnv::VECTOR_SWAP_REMOVE_FUNCTION_NAME@),
        (GlobalEnv::VECTOR_MODULE_NAME@, GlobalEnv::VECTOR_TAKE_FUNCTION_NAME@),
        (GlobalEnv::VECTOR_MODULE_NAME@, GlobalEnv::VECTOR_SKIP_FUNCTION_NAME@),
        (GlobalEnv::VECTOR_MODULE_NAME@, GlobalEnv::VECTOR_SINGLETON_FUNCTION_NAME@),
        (GlobalEnv::VEC_SET_MODULE_NAME@, GlobalEnv::VEC_SET_GET_IDX_OPT_FUNCTION_NAME@),
        (GlobalEnv::VEC_SET_MODULE_NAME@, GlobalEnv::VEC_SET_FROM_KEYS_FUNCTION_NAME@),
        (GlobalEnv::VEC_SET_MODULE_NAME@, GlobalEnv::VEC_SET_CONTAINS_FUNCTION_NAME@),
        (GlobalEnv::VEC_SET_MODULE_NAME@, GlobalEnv::VEC_SET_REMOVE_FUNCTION_NAME@),
        (GlobalEnv::VEC_MAP_MODULE_NAME@, GlobalEnv::VEC_MAP_GET_FUNCTION_NAME@),
        (GlobalEnv::VEC_MAP_MODULE_NAME@, GlobalEnv::VEC_MAP_GET_IDX_FUNCTION_NAME@),
        (GlobalEnv::VEC_MAP_MODULE_NAME@, GlobalEnv::VEC_MAP_GET_IDX_OPT_FUNCTION_NAME@),
        (GlobalEnv::VEC_MAP_MODULE_NAME@, GlobalEnv::VEC_MAP_CONTAINS_FUNCTION_NAME@),
        (GlobalEnv::VEC_MAP_MODULE_NAME@, GlobalEnv::VEC_MAP_FROM_KEYS_VALUES_FUNCTION_NAME@),
        (GlobalEnv::VEC_MAP_MODULE_NAME@, GlobalEnv::VEC_MAP_INTO_KEYS_VALUES_FUNCTION_NAME@),
        (GlobalEnv::VEC_MAP_MODULE_NAME@, GlobalEnv::VEC_MAP_KEYS_FUNCTION_NAME@),
        (GlobalEnv::VEC_MAP_MODULE_NAME@, GlobalEnv::VEC_MAP_REMOVE_FUNCTION_NAME@),
        (GlobalEnv::TABLE_MODULE_NAME@, GlobalEnv::TABLE_NEW_FUNCTION_NAME@),
        (GlobalEnv::TABLE_MODULE_NAME@, GlobalEnv::TABLE_ADD_FUNCTION_NAME@),
        (GlobalEnv::TABLE_MODULE_NAME@, GlobalEnv::TABLE_BORROW_FUNCTION_NAME@),
        (GlobalEnv::TABLE_MODULE_NAME@, GlobalEnv::TABLE_BORROW_MUT_FUNCTION_NAME@),
        (GlobalEnv::TABLE_MODULE_NAME@, GlobalEnv::TABLE_REMOVE_FUNCTION_NAME@),
        (GlobalEnv::TABLE_MODULE_NAME@, GlobalEnv::TABLE_CONTAINS_FUNCTION_NAME@),
        (GlobalEnv::TABLE_MODULE_NAME@, GlobalEnv::TABLE_LENGTH_FUNCTION_NAME@),
        (GlobalEnv::TABLE_MODULE_NAME@, GlobalEnv::TABLE_IS_EMPTY_FUNCTION_NAME@),
        (GlobalEnv::TABLE_MODULE_NAME@, GlobalEnv::TABLE_DESTROY_EMPTY_FUNCTION_NAME@),
        (GlobalEnv::TABLE_MODULE_NAME@, GlobalEnv::TABLE_DROP_FUNCTION_NAME@),
        (GlobalEnv::OBJECT_TABLE_MODULE_NAME@, GlobalEnv::TABLE_NEW_FUNCTION_NAME@),
        (GlobalEnv::OBJECT_TABLE_MODULE_NAME@, GlobalEnv::TABLE_ADD_FUNCTION_NAME@),
        (GlobalEnv::OBJECT_TABLE_MODULE_NAME@, GlobalEnv::TABLE_BORROW_FUNCTION_NAME@),
        (GlobalEnv::OBJECT_TABLE_MODULE_NAME@, GlobalEnv::TABLE_BORROW_MUT_FUNCTION_NAME@),
        (GlobalEnv::OBJECT_TABLE_MODULE_NAME@, GlobalEnv::TABLE_REMOVE_FUNCTION_NAME@),
        (GlobalEnv::OBJECT_TABLE_MODULE_NAME@, GlobalEnv::TABLE_CONTAINS_FUNCTION_NAME@),
        (GlobalEnv::OBJECT_TABLE_MODULE_NAME@, GlobalEnv::TABLE_LENGTH_FUNCTION_NAME@),
        (GlobalEnv::OBJECT_TABLE_MODULE_NAME@, GlobalEnv::TABLE_IS_EMPTY_FUNCTION_NAME@),
        (GlobalEnv::OBJECT_TABLE_MODULE_NAME@, GlobalEnv::TABLE_DESTROY_EMPTY_FUNCTION_NAME@),
        (GlobalEnv::OBJECT_TABLE_MODULE_NAME@, GlobalEnv::OBJECT_TABLE_VALUE_ID_FUNCTION_NAME@),
        (GlobalEnv::DYNAMIC_FIELD_MODULE_NAME@, GlobalEnv::DYNAMIC_FIELD_ADD_FUNCTION_NAME@),
        (GlobalEnv::DYNAMIC_FIELD_MODULE_NAME@, GlobalEnv::DYNAMIC_FIELD_BORROW_FUNCTION_NAME@),
        (GlobalEnv::DYNAMIC_FIELD_MODULE_NAME@, GlobalEnv::DYNAMIC_FIELD_BORROW_MUT_FUNCTION_NAME@),
        (GlobalEnv::DYNAMIC_FIELD_MODULE_NAME@, GlobalEnv::DYNAMIC_FIELD_REMOVE_FUNCTION_NAME@),
        (GlobalEnv::DYNAMIC_FIELD_MODULE_NAME@, GlobalEnv::DYNAMIC_FIELD_EXISTS_FUNCTION_NAME@),
        (GlobalEnv::DYNAMIC_FIELD_MODULE_NAME@, GlobalEnv::DYNAMIC_FIELD_REMOVE_IF_EXISTS_FUNCTION_NAME@),
        (GlobalEnv::DYNAMIC_FIELD_MODULE_NAME@, GlobalEnv::DYNAMIC_FIELD_EXISTS_WITH_TYPE_FUNCTION_NAME@),
        (GlobalEnv::DYNAMIC_OBJECT_MODULE_NAME@, GlobalEnv::DYNAMIC_FIELD_ADD_FUNCTION_NAME@),
        (GlobalEnv::DYNAMIC_OBJECT_MODULE_NAME@, GlobalEnv::DYNAMIC_FIELD_BORROW_FUNCTION_NAME@),
        (GlobalEnv::DYNAMIC_OBJECT_MODULE_NAME@, GlobalEnv::DYNAMIC_FIELD_BORROW_MUT_FUNCTION_NAME@),
        (GlobalEnv::DYNAMIC_OBJECT_MODULE_NAME@, GlobalEnv::DYNAMIC_FIELD_REMOVE_FUNCTION_NAME@),
        (GlobalEnv::DYNAMIC_OBJECT_MODULE_NAME@, GlobalEnv::DYNAMIC_FIELD_EXISTS_FUNCTION_NAME@),
        (GlobalEnv::DYNAMIC_OBJECT_MODULE_NAME@, GlobalEnv::DYNAMIC_FIELD_EXISTS_WITH_TYPE_FUNCTION_NAME@),
        (GlobalEnv::TABLE_EXT_MODULE_NAME@, GlobalEnv::BORROW_OR_UNKNOWN_FUNCTION_NAME@),
        (GlobalEnv::OBJECT_TABLE_EXT_MODULE_NAME@, GlobalEnv::BORROW_OR_UNKNOWN_FUNCTION_NAME@),
        (GlobalEnv::DYNAMIC_FIELD_EXT_MODULE_NAME@, GlobalEnv::BORROW_OR_UNKNOWN_FUNCTION_NAME@),
        (GlobalEnv::DYNAMIC_OBJECT_FIELD_EXT_MODULE_NAME@, GlobalEnv::BORROW_OR_UNKNOWN_FUNCTION_NAME@),
        (GlobalEnv::TABLE_EXT_MODULE_NAME@, GlobalEnv::ADD_PURE_FUNCTION_NAME@),
        (GlobalEnv::TABLE_EXT_MODULE_NAME@, GlobalEnv::REMOVE_PURE_FUNCTION_NAME@),
        (GlobalEnv::OBJECT_TABLE_EXT_MODULE_NAME@, GlobalEnv::ADD_PURE_FUNCTION_NAME@),
        (GlobalEnv::OBJECT_TABLE_EXT_MODULE_NAME@, GlobalEnv::REMOVE_PURE_FUNCTION_NAME@),
    ]
}

/// The functions that the prover treats as intrinsic.
fn intrinsic_funs_table() -> (r: Vec<(&'static str, &'static str)>)
    ensures
        pair_views(r@) == intrinsic_funs(),
{
    let r = vec![
        (GlobalEnv::VECTOR_MODULE_NAME, GlobalEnv::VECTOR_REVERSE_FUNCTION_NAME),
        (GlobalEnv::VECTOR_MODULE_NAME, GlobalEnv::VECTOR_APPEND_FUNCTION_NAME),
        (GlobalEnv::VECTOR_MODULE_NAME, GlobalEnv::VECTOR_IS_EMPTY_FUNCTION_NAME),
        (GlobalEnv::VECTOR_MODULE_NAME, GlobalEnv::VECTOR_CONTAINS_FUNCTION_NAME),
        (GlobalEnv::VECTOR_MODULE_NAME, GlobalEnv::VECTOR_INDEX_OF_FUNCTION_NAME),
        (GlobalEnv::VECTOR_MODULE_NAME, GlobalEnv::VECTOR_REMOVE_FUNCTION_NAME),
        (GlobalEnv::VECTOR_MODULE_NAME, GlobalEnv::VECTOR_INSERT_FUNCTION_NAME),
        (GlobalEnv::VECTOR_MODULE_NAME, GlobalEnv::VECTOR_SWAP_REMOVE_FUNCTION_NAME),
        (GlobalEnv::VECTOR_MODULE_NAME, GlobalEnv::VECTOR_TAKE_FUNCTION_NAME),
        (GlobalEnv::VECTOR_MODULE_NAME, GlobalEnv::VECTOR_SKIP_FUNCTION_NAME),
        (GlobalEnv::VECTOR_MODULE_NAME, GlobalEnv::VECTOR_SINGLETON_FUNCTION_NAME),
        (GlobalEnv::VEC_SET_MODULE_NAME, GlobalEnv::VEC_SET_GET_IDX_OPT_FUNCTION_NAME),
        (GlobalEnv::VEC_SET_MODULE_NAME, GlobalEnv::VEC_SET_FROM_KEYS_FUNCTION_NAME),
        (GlobalEnv::VEC_SET_MODULE_NAME, GlobalEnv::VEC_SET_CONTAINS_FUNCTION_NAME),
        (GlobalEnv::VEC_SET_MODULE_NAME, GlobalEnv::VEC_SET_REMOVE_FUNCTION_NAME),
        (GlobalEnv::VEC_MAP_MODULE_NAME, GlobalEnv::VEC_MAP_GET_FUNCTION_NAME),
        (GlobalEnv::VEC_MAP_MODULE_NAME, GlobalEnv::VEC_MAP_GET_IDX_FUNCTION_NAME),
        (GlobalEnv::VEC_MAP_MODULE_NAME, GlobalEnv::VEC_MAP_GET_IDX_OPT_FUNCTION_NAME),
        (GlobalEnv::VEC_MAP_MODULE_NAME, GlobalEnv::VEC_MAP_CONTAINS_FUNCTION_NAME),
        (GlobalEnv::VEC_MAP_MODULE_NAME, GlobalEnv::VEC_MAP_FROM_KEYS_VALUES_FUNCTION_NAME),
        (GlobalEnv::VEC_MAP_MODULE_NAME, GlobalEnv::VEC_MAP_INTO_KEYS_VALUES_FUNCTION_NAME),
        (GlobalEnv::VEC_MAP_MODULE_NAME, GlobalEnv::VEC_MAP_KEYS_FUNCTION_NAME),
        (GlobalEnv::VEC_MAP_MODULE_NAME, GlobalEnv::VEC_MAP_REMOVE_FUNCTION_NAME),
        (GlobalEnv::TABLE_MODULE_NAME, GlobalEnv::TABLE_NEW_FUNCTION_NAME),
        (GlobalEnv::TABLE_MODULE_NAME, GlobalEnv::TABLE_ADD_FUNCTION_NAME),
        (GlobalEnv::TABLE_MODULE_NAME, GlobalEnv::TABLE_BORROW_FUNCTION_NAME),
        (GlobalEnv::TABLE_MODULE_NAME, GlobalEnv::TABLE_BORROW_MUT_FUNCTION_NAME),
        (GlobalEnv::TABLE_MODULE_NAME, GlobalEnv::TABLE_REMOVE_FUNCTION_NAME),
        (GlobalEnv::TABLE_MODULE_NAME, GlobalEnv::TABLE_CONTAINS_FUNCTION_NAME),
        (GlobalEnv::TABLE_MODULE_NAME, GlobalEnv::TABLE_LENGTH_FUNCTION_NAME),
        (GlobalEnv::TABLE_MODULE_NAME, GlobalEnv::TABLE_IS_EMPTY_FUNCTION_NAME),
        (GlobalEnv::TABLE_MODULE_NAME, GlobalEnv::TABLE_DESTROY_EMPTY_FUNCTION_NAME),
        (GlobalEnv::TABLE_MODULE_NAME, GlobalEnv::TABLE_DROP_FUNCTION_NAME),
        (GlobalEnv::OBJECT_TABLE_MODULE_NAME, GlobalEnv::TABLE_NEW_FUNCTION_NAME),
        (GlobalEnv::OBJECT_TABLE_MODULE_NAME, GlobalEnv::TABLE_ADD_FUNCTION_NAME),
        (GlobalEnv::OBJECT_TABLE_MODULE_NAME, GlobalEnv::TABLE_BORROW_FUNCTION_NAME),
        (GlobalEnv::OBJECT_TABLE_MODULE_NAME, GlobalEnv::TABLE_BORROW_MUT_FUNCTION_NAME),
        (GlobalEnv::OBJECT_TABLE_MODULE_NAME, GlobalEnv::TABLE_REMOVE_FUNCTION_NAME),
        (GlobalEnv::OBJECT_TABLE_MODULE_NAME, GlobalEnv::TABLE_CONTAINS_FUNCTION_NAME),
        (GlobalEnv::OBJECT_TABLE_MODULE_NAME, GlobalEnv::TABLE_LENGTH_FUNCTION_NAME),
        (GlobalEnv::OBJECT_TABLE_MODULE_NAME, GlobalEnv::TABLE_IS_EMPTY_FUNCTION_NAME),
        (GlobalEnv::OBJECT_TABLE_MODULE_NAME, GlobalEnv::TABLE_DESTROY_EMPTY_FUNCTION_NAME),
        (GlobalEnv::OBJECT_TABLE_MODULE_NAME, GlobalEnv::OBJECT_TABLE_VALUE_ID_FUNCTION_NAME),
        (GlobalEnv::DYNAMIC_FIELD_MODULE_NAME, GlobalEnv::DYNAMIC_FIELD_ADD_FUNCTION_NAME),
        (GlobalEnv::DYNAMIC_FIELD_MODULE_NAME, GlobalEnv::DYNAMIC_FIELD_BORROW_FUNCTION_NAME),
        (GlobalEnv::DYNAMIC_FIELD_MODULE_NAME, GlobalEnv::DYNAMIC_FIELD_BORROW_MUT_FUNCTION_NAME),
        (GlobalEnv::DYNAMIC_FIELD_MODULE_NAME, GlobalEnv::DYNAMIC_FIELD_REMOVE_FUNCTION_NAME),
        (GlobalEnv::DYNAMIC_FIELD_MODULE_NAME, GlobalEnv::DYNAMIC_FIELD_EXISTS_FUNCTION_NAME),
        (GlobalEnv::DYNAMIC_FIELD_MODULE_NAME, GlobalEnv::DYNAMIC_FIELD_REMOVE_IF_EXISTS_FUNCTION_NAME),
        (GlobalEnv::DYNAMIC_FIELD_MODULE_NAME, GlobalEnv::DYNAMIC_FIELD_EXISTS_WITH_TYPE_FUNCTION_NAME),
        (GlobalEnv::DYNAMIC_OBJECT_MODULE_NAME, GlobalEnv::DYNAMIC_FIELD_ADD_FUNCTION_NAME),
        (GlobalEnv::DYNAMIC_OBJECT_MODULE_NAME, GlobalEnv::DYNAMIC_FIELD_BORROW_FUNCTION_NAME),
        (GlobalEnv::DYNAMIC_OBJECT_MODULE_NAME, GlobalEnv::DYNAMIC_FIELD_BORROW_MUT_FUNCTION_NAME),
        (GlobalEnv::DYNAMIC_OBJECT_MODULE_NAME, GlobalEnv::DYNAMIC_FIELD_REMOVE_FUNCTION_NAME),
        (GlobalEnv::DYNAMIC_OBJECT_MODULE_NAME, GlobalEnv::DYNAMIC_FIELD_EXISTS_FUNCTION_NAME),
        (GlobalEnv::DYNAMIC_OBJECT_MODULE_NAME, GlobalEnv::DYNAMIC_FIELD_EXISTS_WITH_TYPE_FUNCTION_NAME),
        (GlobalEnv::TABLE_EXT_MODULE_NAME, GlobalEnv::BORROW_OR_UNKNOWN_FUNCTION_NAME),
        (GlobalEnv::OBJECT_TABLE_EXT_MODULE_NAME, GlobalEnv::BORROW_OR_UNKNOWN_FUNCTION_NAME),
        (GlobalEnv::DYNAMIC_FIELD_EXT_MODULE_NAME, GlobalEnv::BORROW_OR_UNKNOWN_FUNCTION_NAME),
        (GlobalEnv::DYNAMIC_OBJECT_FIELD_EXT_MODULE_NAME, GlobalEnv::BORROW_OR_UNKNOWN_FUNCTION_NAME),
        (GlobalEnv::TABLE_EXT_MODULE_NAME, GlobalEnv::ADD_PURE_FUNCTION_NAME),
        (GlobalEnv::TABLE_EXT_MODULE_NAME, GlobalEnv::REMOVE_PURE_FUNCTION_NAME),
        (GlobalEnv::OBJECT_TABLE_EXT_MODULE_NAME, GlobalEnv::ADD_PURE_FUNCTION_NAME),
        (GlobalEnv::OBJECT_TABLE_EXT_MODULE_NAME, GlobalEnv::REMOVE_PURE_FUNCTION_NAME),
    ];
    assert(pair_views(r@) =~= intrinsic_funs());
    r
}

/// The native functions used as functions, before the pure vector functions.
pub open spec fn native_funs_head() -> Seq<(Seq<char>, Seq<char>)> {
    seq![
        (GlobalEnv::STD_INTEGER_MODULE_NAME@, GlobalEnv::INTEGER_FROM_U8_FUNCTION_NAME@),
        (GlobalEnv::STD_INTEGER_MODULE_NAME@, GlobalEnv::INTEGER_FROM_U16_FUNCTION_NAME@),
        (GlobalEnv::STD_INTEGER_MODULE_NAME@, GlobalEnv::INTEGER_FROM_U32_FUNCTION_NAME@),
        (GlobalEnv::STD_INTEGER_MODULE_NAME@, GlobalEnv::INTEGER_FROM_U64_FUNCTION_NAME@),
        (GlobalEnv::STD_INTEGER_MODULE_NAME@, GlobalEnv::INTEGER_FROM_U128_FUNCTION_NAME@),
        (GlobalEnv::STD_INTEGER_MODULE_NAME@, GlobalEnv::INTEGER_FROM_U256_FUNCTION_NAME@),
        (GlobalEnv::STD_INTEGER_MODULE_NAME@, GlobalEnv::INTEGER_TO_U8_FUNCTION_NAME@),
        (GlobalEnv::STD_INTEGER_MODULE_NAME@, GlobalEnv::INTEGER_TO_U16_FUNCTION_NAME@),
        (GlobalEnv::STD_INTEGER_MODULE_NAME@, GlobalEnv::INTEGER_TO_U32_FUNCTION_NAME@),
        (GlobalEnv::STD_INTEGER_MODULE_NAME@, GlobalEnv::INTEGER_TO_U64_FUNCTION_NAME@),
        (GlobalEnv::STD_INTEGER_MODULE_NAME@, GlobalEnv::INTEGER_TO_U128_FUNCTION_NAME@),
        (GlobalEnv::STD_INTEGER_MODULE_NAME@, GlobalEnv::INTEGER_TO_U256_FUNCTION_NAME@),
        (GlobalEnv::STD_INTEGER_MODULE_NAME@, GlobalEnv::INTEGER_ADD_FUNCTION_NAME@),
        (GlobalEnv::STD_INTEGER_MODULE_NAME@, GlobalEnv::INTEGER_SUB_FUNCTION_NAME@),
        (GlobalEnv::STD_INTEGER_MODULE_NAME@, GlobalEnv::INTEGER_NEG_FUNCTION_NAME@),
        (GlobalEnv::STD_INTEGER_MODULE_NAME@, GlobalEnv::INTEGER_MUL_FUNCTION_NAME@),
        (GlobalEnv::STD_INTEGER_MODULE_NAME@, GlobalEnv::INTEGER_DIV_FUNCTION_NAME@),
        (GlobalEnv::STD_INTEGER_MODULE_NAME@, GlobalEnv::INTEGER_MOD_FUNCTION_NAME@),
        (GlobalEnv::STD_INTEGER_MODULE_NAME@, GlobalEnv::INTEGER_SQRT_FUNCTION_NAME@),
        (GlobalEnv::STD_INTEGER_MODULE_NAME@, GlobalEnv::INTEGER_POW_FUNCTION_NAME@),
        (GlobalEnv::STD_INTEGER_MODULE_NAME@, GlobalEnv::INTEGER_BIT_OR_FUNCTION_NAME@),
        (GlobalEnv::STD_INTEGER_MODULE_NAME@, GlobalEnv::INTEGER_BIT_AND_FUNCTION_NAME@),
        (GlobalEnv::STD_INTEGER_MODULE_NAME@, GlobalEnv::INTEGER_BIT_XOR_FUNCTION_NAME@),
        (GlobalEnv::STD_INTEGER_MODULE_NAME@, GlobalEnv::INTEGER_BIT_NOT_FUNCTION_NAME@),
        (GlobalEnv::STD_INTEGER_MODULE_NAME@, GlobalEnv::INTEGER_LT_FUNCTION_NAME@),
        (GlobalEnv::STD_INTEGER_MODULE_NAME@, GlobalEnv::INTEGER_GT_FUNCTION_NAME@),
        (GlobalEnv::STD_INTEGER_MODULE_NAME@, GlobalEnv::INTEGER_LTE_FUNCTION_NAME@),
        (GlobalEnv::STD_INTEGER_MODULE_NAME@, GlobalEnv::INTEGER_GTE_FUNCTION_NAME@),
        (GlobalEnv::STD_REAL_MODULE_NAME@, GlobalEnv::REAL_FROM_INTEGER_FUNCTION_NAME@),
        (GlobalEnv::STD_REAL_MODULE_NAME@, GlobalEnv::REAL_TO_INTEGER_FUNCTION_NAME@),
        (GlobalEnv::STD_REAL_MODULE_NAME@, GlobalEnv::REAL_ADD_FUNCTION_NAME@),
        (GlobalEnv::STD_REAL_MODULE_NAME@, GlobalEnv::REAL_SUB_FUNCTION_NAME@),
        (GlobalEnv::STD_REAL_MODULE_NAME@, GlobalEnv::REAL_NEG_FUNCTION_NAME@),
        (GlobalEnv::STD_REAL_MODULE_NAME@, GlobalEnv::REAL_MUL_FUNCTION_NAME@),
        (GlobalEnv::STD_REAL_MODULE_NAME@, GlobalEnv::REAL_DIV_FUNCTION_NAME@),
        (GlobalEnv::STD_REAL_MODULE_NAME@, GlobalEnv::REAL_SQRT_FUNCTION_NAME@),
        (GlobalEnv::STD_REAL_MODULE_NAME@, GlobalEnv::REAL_EXP_FUNCTION_NAME@),
        (GlobalEnv::STD_REAL_MODULE_NAME@, GlobalEnv::REAL_LT_FUNCTION_NAME@),
        (GlobalEnv::STD_REAL_MODULE_NAME@, GlobalEnv::REAL_GT_FUNCTION_NAME@),
        (GlobalEnv::STD_REAL_MODULE_NAME@, GlobalEnv::REAL_LTE_FUNCTION_NAME@),
        (GlobalEnv::STD_REAL_MODULE_NAME@, GlobalEnv::REAL_GTE_FUNCTION_NAME@),
        (GlobalEnv::STD_BCS_MODULE_NAME@, GlobalEnv::BCS_BYTE_TRANSFORMER_FUNCTION_NAME@),
        (GlobalEnv::VECTOR_MODULE_NAME@, GlobalEnv::VECTOR_MAGIC_EMPTY_FUNCTION_NAME@),
        (GlobalEnv::VECTOR_MODULE_NAME@, GlobalEnv::VECTOR_IS_EMPTY_FUNCTION_NAME@),
        (GlobalEnv::VECTOR_MODULE_NAME@, GlobalEnv::VECTOR_SIZE_DETECTIVE_FUNCTION_NAME@),
        (GlobalEnv::VECTOR_MODULE_NAME@, GlobalEnv::VECTOR_CONTAINS_FUNCTION_NAME@),
        (GlobalEnv::VECTOR_MODULE_NAME@, GlobalEnv::VECTOR_STACK_PUSHER_FUNCTION_NAME@),
        (GlobalEnv::VECTOR_MODULE_NAME@, GlobalEnv::VECTOR_APPEND_FUNCTION_NAME@),
        (GlobalEnv::VECTOR_MODULE_NAME@, GlobalEnv::VECTOR_REVERSE_FUNCTION_NAME@),
        (GlobalEnv::VECTOR_MODULE_NAME@, GlobalEnv::VECTOR_SINGLETON_FUNCTION_NAME@),
        (GlobalEnv::VEC_SET_MODULE_NAME@, GlobalEnv::VEC_SET_CONTAINS_FUNCTION_NAME@),
        (GlobalEnv::VEC_MAP_MODULE_NAME@, GlobalEnv::VEC_MAP_CONTAINS_FUNCTION_NAME@),
        (GlobalEnv::VEC_MAP_MODULE_NAME@, GlobalEnv::VEC_MAP_GET_IDX_OPT_FUNCTION_NAME@),
        (GlobalEnv::VEC_MAP_MODULE_NAME@, GlobalEnv::VEC_MAP_KEYS_FUNCTION_NAME@),
        (GlobalEnv::PROVER_VECTOR_MODULE_NAME@, GlobalEnv::PROVER_VEC_SLICE@),
        (GlobalEnv::PROVER_VECTOR_EXT_MODULE_NAME@, GlobalEnv::PROVER_VEC_APPEND_PURE@),
    ]
}

/// The native functions used as functions, before the pure vector functions.
fn native_funs_head_table() -> (r: Vec<(&'static str, &'static str)>)
    ensures
        pair_views(r@) == native_funs_head(),
{
    let r = vec![
        (GlobalEnv::STD_INTEGER_MODULE_NAME, GlobalEnv::INTEGER_FROM_U8_FUNCTION_NAME),
        (GlobalEnv::STD_INTEGER_MODULE_NAME, GlobalEnv::INTEGER_FROM_U16_FUNCTION_NAME),
        (GlobalEnv::STD_INTEGER_MODULE_NAME, GlobalEnv::INTEGER_FROM_U32_FUNCTION_NAME),
        (GlobalEnv::STD_INTEGER_MODULE_NAME, GlobalEnv::INTEGER_FROM_U64_FUNCTION_NAME),
        (GlobalEnv::STD_INTEGER_MODULE_NAME, GlobalEnv::INTEGER_FROM_U128_FUNCTION_NAME),
        (GlobalEnv::STD_INTEGER_MODULE_NAME, GlobalEnv::INTEGER_FROM_U256_FUNCTION_NAME),
        (GlobalEnv::STD_INTEGER_MODULE_NAME, GlobalEnv::INTEGER_TO_U8_FUNCTION_NAME),
        (GlobalEnv::STD_INTEGER_MODULE_NAME, GlobalEnv::INTEGER_TO_U16_FUNCTION_NAME),
        (GlobalEnv::STD_INTEGER_MODULE_NAME, GlobalEnv::INTEGER_TO_U32_FUNCTION_NAME),
        (GlobalEnv::STD_INTEGER_MODULE_NAME, GlobalEnv::INTEGER_TO_U64_FUNCTION_NAME),
        (GlobalEnv::STD_INTEGER_MODULE_NAME, GlobalEnv::INTEGER_TO_U128_FUNCTION_NAME),
        (GlobalEnv::STD_INTEGER_MODULE_NAME, GlobalEnv::INTEGER_TO_U256_FUNCTION_NAME),
        (GlobalEnv::STD_INTEGER_MODULE_NAME, GlobalEnv::INTEGER_ADD_FUNCTION_NAME),
        (GlobalEnv::STD_INTEGER_MODULE_NAME, GlobalEnv::INTEGER_SUB_FUNCTION_NAME),
        (GlobalEnv::STD_INTEGER_MODULE_NAME, GlobalEnv::INTEGER_NEG_FUNCTION_NAME),
        (GlobalEnv::STD_INTEGER_MODULE_NAME, GlobalEnv::INTEGER_MUL_FUNCTION_NAME),
        (GlobalEnv::STD_INTEGER_MODULE_NAME, GlobalEnv::INTEGER_DIV_FUNCTION_NAME),
        (GlobalEnv::STD_INTEGER_MODULE_NAME, GlobalEnv::INTEGER_MOD_FUNCTION_NAME),
        (GlobalEnv::STD_INTEGER_MODULE_NAME, GlobalEnv::INTEGER_SQRT_FUNCTION_NAME),
        (GlobalEnv::STD_INTEGER_MODULE_NAME, GlobalEnv::INTEGER_POW_FUNCTION_NAME),
        (GlobalEnv::STD_INTEGER_MODULE_NAME, GlobalEnv::INTEGER_BIT_OR_FUNCTION_NAME),
        (GlobalEnv::STD_INTEGER_MODULE_NAME, GlobalEnv::INTEGER_BIT_AND_FUNCTION_NAME),
        (GlobalEnv::STD_INTEGER_MODULE_NAME, GlobalEnv::INTEGER_BIT_XOR_FUNCTION_NAME),
        (GlobalEnv::STD_INTEGER_MODULE_NAME, GlobalEnv::INTEGER_BIT_NOT_FUNCTION_NAME),
        (GlobalEnv::STD_INTEGER_MODULE_NAME, GlobalEnv::INTEGER_LT_FUNCTION_NAME),
        (GlobalEnv::STD_INTEGER_MODULE_NAME, GlobalEnv::INTEGER_GT_FUNCTION_NAME),
        (GlobalEnv::STD_INTEGER_MODULE_NAME, GlobalEnv::INTEGER_LTE_FUNCTION_NAME),
        (GlobalEnv::STD_INTEGER_MODULE_NAME, GlobalEnv::INTEGER_GTE_FUNCTION_NAME),
        (GlobalEnv::STD_REAL_MODULE_NAME, GlobalEnv::REAL_FROM_INTEGER_FUNCTION_NAME),
        (GlobalEnv::STD_REAL_MODULE_NAME, GlobalEnv::REAL_TO_INTEGER_FUNCTION_NAME),
        (GlobalEnv::STD_REAL_MODULE_NAME, GlobalEnv::REAL_ADD_FUNCTION_NAME),
        (GlobalEnv::STD_REAL_MODULE_NAME, GlobalEnv::REAL_SUB_FUNCTION_NAME),
        (GlobalEnv::STD_REAL_MODULE_NAME, GlobalEnv::REAL_NEG_FUNCTION_NAME),
        (GlobalEnv::STD_REAL_MODULE_NAME, GlobalEnv::REAL_MUL_FUNCTION_NAME),
        (GlobalEnv::STD_REAL_MODULE_NAME, GlobalEnv::REAL_DIV_FUNCTION_NAME),
        (GlobalEnv::STD_REAL_MODULE_NAME, GlobalEnv::REAL_SQRT_FUNCTION_NAME),
        (GlobalEnv::STD_REAL_MODULE_NAME, GlobalEnv::REAL_EXP_FUNCTION_NAME),
        (GlobalEnv::STD_REAL_MODULE_NAME, GlobalEnv::REAL_LT_FUNCTION_NAME),
        (GlobalEnv::STD_REAL_MODULE_NAME, GlobalEnv::REAL_GT_FUNCTION_NAME),
        (GlobalEnv::STD_REAL_MODULE_NAME, GlobalEnv::REAL_LTE_FUNCTION_NAME),
        (GlobalEnv::STD_REAL_MODULE_NAME, GlobalEnv::REAL_GTE_FUNCTION_NAME),
        (GlobalEnv::STD_BCS_MODULE_NAME, GlobalEnv::BCS_BYTE_TRANSFORMER_FUNCTION_NAME),
        (GlobalEnv::VECTOR_MODULE_NAME, GlobalEnv::VECTOR_MAGIC_EMPTY_FUNCTION_NAME),
        (GlobalEnv::VECTOR_MODULE_NAME, GlobalEnv::VECTOR_IS_EMPTY_FUNCTION_NAME),
        (GlobalEnv::VECTOR_MODULE_NAME, GlobalEnv::VECTOR_SIZE_DETECTIVE_FUNCTION_NAME),
        (GlobalEnv::VECTOR_MODULE_NAME, GlobalEnv::VECTOR_CONTAINS_FUNCTION_NAME),
        (GlobalEnv::VECTOR_MODULE_NAME, GlobalEnv::VECTOR_STACK_PUSHER_FUNCTION_NAME),
        (GlobalEnv::VECTOR_MODULE_NAME, GlobalEnv::VECTOR_APPEND_FUNCTION_NAME),
        (GlobalEnv::VECTOR_MODULE_NAME, GlobalEnv::VECTOR_REVERSE_FUNCTION_NAME),
        (GlobalEnv::VECTOR_MODULE_NAME, GlobalEnv::VECTOR_SINGLETON_FUNCTION_NAME),
        (GlobalEnv::VEC_SET_MODULE_NAME, GlobalEnv::VEC_SET_CONTAINS_FUNCTION_NAME),
        (GlobalEnv::VEC_MAP_MODULE_NAME, GlobalEnv::VEC_MAP_CONTAINS_FUNCTION_NAME),
        (GlobalEnv::VEC_MAP_MODULE_NAME, GlobalEnv::VEC_MAP_GET_IDX_OPT_FUNCTION_NAME),
        (GlobalEnv::VEC_MAP_MODULE_NAME, GlobalEnv::VEC_MAP_KEYS_FUNCTION_NAME),
        (GlobalEnv::PROVER_VECTOR_MODULE_NAME, GlobalEnv::PROVER_VEC_SLICE),
        (GlobalEnv::PROVER_VECTOR_EXT_MODULE_NAME, GlobalEnv::PROVER_VEC_APPEND_PURE),
    ];
    assert(pair_views(r@) =~= native_funs_head());
    r
}

/// The native functions used as functions, after the pure vector functions.
pub open spec fn native_funs_tail() -> Seq<(Seq<char>, Seq<char>)> {
    seq![
        (GlobalEnv::PROVER_VECTOR_EXT_MODULE_NAME@, GlobalEnv::BORROW_OR_UNKNOWN_FUNCTION_NAME@),
        (GlobalEnv::PROVER_VECTOR_MODULE_NAME@, GlobalEnv::PROVER_VEC_SUM@),
        (GlobalEnv::PROVER_VECTOR_MODULE_NAME@, GlobalEnv::PROVER_VEC_SUM_RANGE@),
        (GlobalEnv::PROVER_VECTOR_MODULE_NAME@, GlobalEnv::PROVER_RANGE@),
        (GlobalEnv::VEC_SET_EXT_MODULE_NAME@, GlobalEnv::INSERT_PURE_FUNCTION_NAME@),
        (GlobalEnv::VEC_SET_EXT_MODULE_NAME@, GlobalEnv::REMOVE_PURE_FUNCTION_NAME@),
        (GlobalEnv::VEC_MAP_EXT_MODULE_NAME@, GlobalEnv::GET_OR_UNKNOWN_FUNCTION_NAME@),
        (GlobalEnv::VEC_MAP_EXT_MODULE_NAME@, GlobalEnv::GET_IDX_OR_UNKNOWN_FUNCTION_NAME@),
        (GlobalEnv::VEC_MAP_EXT_MODULE_NAME@, GlobalEnv::INSERT_PURE_FUNCTION_NAME@),
        (GlobalEnv::VEC_MAP_EXT_MODULE_NAME@, GlobalEnv::REMOVE_PURE_FUNCTION_NAME@),
        (GlobalEnv::TABLE_MODULE_NAME@, GlobalEnv::TABLE_IS_EMPTY_FUNCTION_NAME@),
        (GlobalEnv::TABLE_MODULE_NAME@, GlobalEnv::TABLE_LENGTH_FUNCTION_NAME@),
        (GlobalEnv::TABLE_MODULE_NAME@, GlobalEnv::TABLE_CONTAINS_FUNCTION_NAME@),
        (GlobalEnv::OBJECT_TABLE_MODULE_NAME@, GlobalEnv::TABLE_IS_EMPTY_FUNCTION_NAME@),
        (GlobalEnv::OBJECT_TABLE_MODULE_NAME@, GlobalEnv::TABLE_LENGTH_FUNCTION_NAME@),
        (GlobalEnv::OBJECT_TABLE_MODULE_NAME@, GlobalEnv::TABLE_CONTAINS_FUNCTION_NAME@),
        (GlobalEnv::TABLE_EXT_MODULE_NAME@, GlobalEnv::BORROW_OR_UNKNOWN_FUNCTION_NAME@),
        (GlobalEnv::TABLE_EXT_MODULE_NAME@, GlobalEnv::ADD_PURE_FUNCTION_NAME@),
        (GlobalEnv::TABLE_EXT_MODULE_NAME@, GlobalEnv::REMOVE_PURE_FUNCTION_NAME@),
        (GlobalEnv::OBJECT_TABLE_EXT_MODULE_NAME@, GlobalEnv::BORROW_OR_UNKNOWN_FUNCTION_NAME@),
        (GlobalEnv::OBJECT_TABLE_EXT_MODULE_NAME@, GlobalEnv::ADD_PURE_FUNCTION_NAME@),
        (GlobalEnv::OBJECT_TABLE_EXT_MODULE_NAME@, GlobalEnv::REMOVE_PURE_FUNCTION_NAME@),
        (GlobalEnv::DYNAMIC_FIELD_MODULE_NAME@, GlobalEnv::DYNAMIC_FIELD_EXISTS_FUNCTION_NAME@),
        (GlobalEnv::DYNAMIC_FIELD_MODULE_NAME@, GlobalEnv::DYNAMIC_FIELD_EXISTS_WITH_TYPE_FUNCTION_NAME@),
        (GlobalEnv::DYNAMIC_OBJECT_MODULE_NAME@, GlobalEnv::DYNAMIC_FIELD_EXISTS_FUNCTION_NAME@),
        (GlobalEnv::DYNAMIC_OBJECT_MODULE_NAME@, GlobalEnv::DYNAMIC_FIELD_EXISTS_WITH_TYPE_FUNCTION_NAME@),
        (GlobalEnv::DYNAMIC_FIELD_EXT_MODULE_NAME@, GlobalEnv::BORROW_OR_UNKNOWN_FUNCTION_NAME@),
        (GlobalEnv::DYNAMIC_OBJECT_FIELD_EXT_MODULE_NAME@, GlobalEnv::BORROW_OR_UNKNOWN_FUNCTION_NAME@),
        (GlobalEnv::OBJECT_MODULE_NAME@, GlobalEnv::OBJECT_BORROW_UID_FUNCTION_NAME@),
        (GlobalEnv::SUI_TX_CONTEXT_MODULE_NAME@, GlobalEnv::TX_CONTEXT_SENDER_FUNCTION_NAME@),
        (GlobalEnv::SUI_TX_CONTEXT_MODULE_NAME@, GlobalEnv::TX_CONTEXT_EPOCH_FUNCTION_NAME@),
        (GlobalEnv::SUI_TX_CONTEXT_MODULE_NAME@, GlobalEnv::TX_CONTEXT_EPOCH_TIMESTAMP_MS_FUNCTION_NAME@),
        (GlobalEnv::SUI_TX_CONTEXT_MODULE_NAME@, GlobalEnv::TX_CONTEXT_REFERENCE_GAS_PRICE_FUNCTION_NAME@),
        (GlobalEnv::SUI_TX_CONTEXT_MODULE_NAME@, GlobalEnv::TX_CONTEXT_GAS_PRICE_FUNCTION_NAME@),
        (GlobalEnv::STD_TYPE_NAME_MODULE_NAME@, GlobalEnv::TYPE_NAME_WITH_DEFINING_IDS_FUNCTION_NAME@),
        (GlobalEnv::STD_TYPE_NAME_MODULE_NAME@, GlobalEnv::TYPE_NAME_WITH_ORIGINAL_IDS_FUNCTION_NAME@),
        (GlobalEnv::STD_TYPE_NAME_MODULE_NAME@, GlobalEnv::TYPE_NAME_DEFINING_ID_FUNCTION_NAME@),
        (GlobalEnv::STD_TYPE_NAME_MODULE_NAME@, GlobalEnv::TYPE_NAME_ORIGINAL_ID_FUNCTION_NAME@),
    ]
}

/// The native functions used as functions, after the pure vector functions.
fn native_funs_tail_table() -> (r: Vec<(&'static str, &'static str)>)
    ensures
        pair_views(r@) == native_funs_tail(),
{
    let r = vec![
        (GlobalEnv::PROVER_VECTOR_EXT_MODULE_NAME, GlobalEnv::BORROW_OR_UNKNOWN_FUNCTION_NAME),
        (GlobalEnv::PROVER_VECTOR_MODULE_NAME, GlobalEnv::PROVER_VEC_SUM),
        (GlobalEnv::PROVER_VECTOR_MODULE_NAME, GlobalEnv::PROVER_VEC_SUM_RANGE),
        (GlobalEnv::PROVER_VECTOR_MODULE_NAME, GlobalEnv::PROVER_RANGE),
        (GlobalEnv::VEC_SET_EXT_MODULE_NAME, GlobalEnv::INSERT_PURE_FUNCTION_NAME),
        (GlobalEnv::VEC_SET_EXT_MODULE_NAME, GlobalEnv::REMOVE_PURE_FUNCTION_NAME),
        (GlobalEnv::VEC_MAP_EXT_MODULE_NAME, GlobalEnv::GET_OR_UNKNOWN_FUNCTION_NAME),
        (GlobalEnv::VEC_MAP_EXT_MODULE_NAME, GlobalEnv::GET_IDX_OR_UNKNOWN_FUNCTION_NAME),
        (GlobalEnv::VEC_MAP_EXT_MODULE_NAME, GlobalEnv::INSERT_PURE_FUNCTION_NAME),
        (GlobalEnv::VEC_MAP_EXT_MODULE_NAME, GlobalEnv::REMOVE_PURE_FUNCTION_NAME),
        (GlobalEnv::TABLE_MODULE_NAME, GlobalEnv::TABLE_IS_EMPTY_FUNCTION_NAME),
        (GlobalEnv::TABLE_MODULE_NAME, GlobalEnv::TABLE_LENGTH_FUNCTION_NAME),
        (GlobalEnv::TABLE_MODULE_NAME, GlobalEnv::TABLE_CONTAINS_FUNCTION_NAME),
        (GlobalEnv::OBJECT_TABLE_MODULE_NAME, GlobalEnv::TABLE_IS_EMPTY_FUNCTION_NAME),
        (GlobalEnv::OBJECT_TABLE_MODULE_NAME, GlobalEnv::TABLE_LENGTH_FUNCTION_NAME),
        (GlobalEnv::OBJECT_TABLE_MODULE_NAME, GlobalEnv::TABLE_CONTAINS_FUNCTION_NAME),
        (GlobalEnv::TABLE_EXT_MODULE_NAME, GlobalEnv::BORROW_OR_UNKNOWN_FUNCTION_NAME),
        (GlobalEnv::TABLE_EXT_MODULE_NAME, GlobalEnv::ADD_PURE_FUNCTION_NAME),
        (GlobalEnv::TABLE_EXT_MODULE_NAME, GlobalEnv::REMOVE_PURE_FUNCTION_NAME),
        (GlobalEnv::OBJECT_TABLE_EXT_MODULE_NAME, GlobalEnv::BORROW_OR_UNKNOWN_FUNCTION_NAME),
        (GlobalEnv::OBJECT_TABLE_EXT_MODULE_NAME, GlobalEnv::ADD_PURE_FUNCTION_NAME),
        (GlobalEnv::OBJECT_TABLE_EXT_MODULE_NAME, GlobalEnv::REMOVE_PURE_FUNCTION_NAME),
        (GlobalEnv::DYNAMIC_FIELD_MODULE_NAME, GlobalEnv::DYNAMIC_FIELD_EXISTS_FUNCTION_NAME),
        (GlobalEnv::DYNAMIC_FIELD_MODULE_NAME, GlobalEnv::DYNAMIC_FIELD_EXISTS_WITH_TYPE_FUNCTION_NAME),
        (GlobalEnv::DYNAMIC_OBJECT_MODULE_NAME, GlobalEnv::DYNAMIC_FIELD_EXISTS_FUNCTION_NAME),
        (GlobalEnv::DYNAMIC_OBJECT_MODULE_NAME, GlobalEnv::DYNAMIC_FIELD_EXISTS_WITH_TYPE_FUNCTION_NAME),
        (GlobalEnv::DYNAMIC_FIELD_EXT_MODULE_NAME, GlobalEnv::BORROW_OR_UNKNOWN_FUNCTION_NAME),
        (GlobalEnv::DYNAMIC_OBJECT_FIELD_EXT_MODULE_NAME, GlobalEnv::BORROW_OR_UNKNOWN_FUNCTION_NAME),
        (GlobalEnv::OBJECT_MODULE_NAME, GlobalEnv::OBJECT_BORROW_UID_FUNCTION_NAME),
        (GlobalEnv::SUI_TX_CONTEXT_MODULE_NAME, GlobalEnv::TX_CONTEXT_SENDER_FUNCTION_NAME),
        (GlobalEnv::SUI_TX_CONTEXT_MODULE_NAME, GlobalEnv::TX_CONTEXT_EPOCH_FUNCTION_NAME),
        (GlobalEnv::SUI_TX_CONTEXT_MODULE_NAME, GlobalEnv::TX_CONTEXT_EPOCH_TIMESTAMP_MS_FUNCTION_NAME),
        (GlobalEnv::SUI_TX_CONTEXT_MODULE_NAME, GlobalEnv::TX_CONTEXT_REFERENCE_GAS_PRICE_FUNCTION_NAME),
        (GlobalEnv::SUI_TX_CONTEXT_MODULE_NAME, GlobalEnv::TX_CONTEXT_GAS_PRICE_FUNCTION_NAME),
        (GlobalEnv::STD_TYPE_NAME_MODULE_NAME, GlobalEnv::TYPE_NAME_WITH_DEFINING_IDS_FUNCTION_NAME),
        (GlobalEnv::STD_TYPE_NAME_MODULE_NAME, GlobalEnv::TYPE_NAME_WITH_ORIGINAL_IDS_FUNCTION_NAME),
        (GlobalEnv::STD_TYPE_NAME_MODULE_NAME, GlobalEnv::TYPE_NAME_DEFINING_ID_FUNCTION_NAME),
        (GlobalEnv::STD_TYPE_NAME_MODULE_NAME, GlobalEnv::TYPE_NAME_ORIGINAL_ID_FUNCTION_NAME),
    ];
    assert(pair_views(r@) =~= native_funs_tail());
    r
}

/// The pure functions of the prover's vector extension module that are used as functions.
pub open spec fn vector_ext_native_funs() -> Seq<Seq<char>> {
    seq![
        GlobalEnv::PROVER_VEC_PUSH_BACK_PURE@,
        GlobalEnv::PROVER_VEC_POP_BACK_PURE@,
        GlobalEnv::PROVER_VEC_PUSH_FRONT_PURE@,
        GlobalEnv::PROVER_VEC_POP_FRONT_PURE@,
        GlobalEnv::PROVER_VEC_INSERT_PURE@,
        GlobalEnv::PROVER_VEC_REMOVE_PURE@,
    ]
}

/// The pure functions of the prover's vector extension module that are used as functions.
fn vector_ext_native_funs_table() -> (r: Vec<&'static str>)
    ensures
        str_views(r@) == vector_ext_native_funs(),
{
    let r = vec![
        GlobalEnv::PROVER_VEC_PUSH_BACK_PURE,
        GlobalEnv::PROVER_VEC_POP_BACK_PURE,
        GlobalEnv::PROVER_VEC_PUSH_FRONT_PURE,
        GlobalEnv::PROVER_VEC_POP_FRONT_PURE,
        GlobalEnv::PROVER_VEC_INSERT_PURE,
        GlobalEnv::PROVER_VEC_REMOVE_PURE,
    ];
    assert(str_views(r@) =~= vector_ext_native_funs());
    r
}

} // verus!
