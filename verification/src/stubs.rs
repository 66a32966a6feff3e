//! Stub modules: where the prover's own modules (`prover`, `ghost`, `log`) are not loaded,
//! the environment gets an empty module of that name with one native placeholder function,
//! so that the lookups of well-known functions find it.

use vstd::prelude::*;

use crate::address::Address;
use crate::env::{FunctionData, GlobalEnv, ModuleData, Visibility};
use crate::loc::{Loc, default_loc_view};
use crate::model::{FunId, ModuleId};
use crate::symbol::{Symbol, made};

verus! {

impl GlobalEnv {
    /// The name of the placeholder function of a stub module. A module is found by name only
    /// where it declares a function, so a stub module declares this one.
    pub const STUB_PLACEHOLDER_FUNCTION_NAME: &'static str = "__stub_placeholder";

    /// `after` is this environment with a stub module named `name` added at the end: its id is
    /// the number of modules before, its address is 0, its location is the default one, and
    /// it declares one private native function, the placeholder, with no parameters, locals
    /// or return values.
    /// The symbol pool keeps its strings and gains at most `name` and the placeholder's name;
    /// nothing else changes.
    pub open spec fn stub_added(&self, after: GlobalEnv, name: Seq<char>) -> bool {
        let n = self.module_data@.len();
        let nf = self.function_data@.len();
        let m = after.module_data@[n as int];
        let f = after.function_data@[nf as int];
        &&& after.module_data@.len() == n + 1
        &&& after.module_data@.take(n as int) == self.module_data@
        &&& m.id@ == n
        &&& after.symbol_pool@[m.name@ as int] == name
        &&& m.address@ == 0
        &&& m.full_name@ == "0x0::"@ + name
        &&& !m.is_script
        &&& m.used_modules@.len() == 0
        &&& m.friend_modules@.len() == 0
        &&& m.loc@ == default_loc_view()
        &&& after.function_data@.len() == nf + 1
        &&& after.function_data@.take(nf as int) == self.function_data@
        &&& f.module_id@ == n
        &&& after.symbol_pool@[f.id@@ as int] == GlobalEnv::STUB_PLACEHOLDER_FUNCTION_NAME@
        &&& f.visibility == Visibility::Private
        &&& !f.is_entry
        &&& f.is_native
        &&& f.parameters@.len() == 0
        &&& f.called_funs@.len() == 0
        &&& f.loc@ == default_loc_view()
        &&& f.return_types@.len() == 0
        &&& f.locals@.len() == 0
        &&& f.local_names@.len() == 0
        &&& self.symbol_pool@.len() <= after.symbol_pool@.len()
        &&& forall|i: int|
            0 <= i < self.symbol_pool@.len() ==> #[trigger] after.symbol_pool@[i]
                == self.symbol_pool@[i]
        &&& forall|i: int|
            self.symbol_pool@.len() <= i < after.symbol_pool@.len() ==> #[trigger] after.symbol_pool@[i]
                == name || after.symbol_pool@[i] == GlobalEnv::STUB_PLACEHOLDER_FUNCTION_NAME@
        &&& after.struct_data == self.struct_data
        &&& after.enum_data == self.enum_data
        &&& after.named_constants == self.named_constants
        &&& after.files == self.files
        &&& after.next_free_node_id == self.next_free_node_id
        &&& after.global_id_counter == self.global_id_counter
        &&& after.diags == self.diags
        &&& after.exp_info == self.exp_info
        &&& after.unknown_loc == self.unknown_loc
        &&& after.internal_loc == self.internal_loc
        &&& after.stdlib_address == self.stdlib_address
        &&& after.extlib_address == self.extlib_address
    }

    /// `after` is this environment where a module named `name` declares functions: the
    /// environment as it was where one did already, else with a stub module of that name added.
    pub open spec fn stubbed(&self, after: GlobalEnv, name: Seq<char>) -> bool {
        &&& after.wf()
        &&& after.has_module(name)
        &&& self.has_module(name) ==> after == *self
        &&& !self.has_module(name) ==> self.stub_added(after, name)
    }

    /// Adds a stub module named `module_name` unless a module of that name declares functions.
    fn add_stub_module(&mut self, module_name: &str)
        requires
            old(self).wf(),
            old(self).module_data@.len() < 0x10000,
        ensures
            old(self).stubbed(*final(self), module_name@),
    {
        if self.module_exists(module_name) {
            return;
        }
        let ghost before = *self;
        let module_symbol = self.symbol_pool.make(module_name);
        let ghost pool1 = self.symbol_pool@;
        let placeholder = self.symbol_pool.make(Self::STUB_PLACEHOLDER_FUNCTION_NAME);
        proof {
            lemma_pool_grows_twice(
                before.symbol_pool@,
                module_name@,
                pool1,
                module_symbol,
                Self::STUB_PLACEHOLDER_FUNCTION_NAME@,
                self.symbol_pool@,
                placeholder,
            );
        }
        let n = self.module_data.len();
        let mid = ModuleId::new(n);
        let full_name = String::from_str("0x0::").concat(self.symbol_pool.string(module_symbol).as_str());
        self.module_data.push(
            ModuleData {
                id: mid,
                name: module_symbol,
                address: Address::from_u16(0),
                full_name,
                is_script: false,
                used_modules: Vec::new(),
                friend_modules: Vec::new(),
                loc: Loc::default(),
            },
        );
        self.function_data.push(
            FunctionData {
                module_id: mid,
                id: FunId::new(placeholder),
                visibility: Visibility::Private,
                is_entry: false,
                is_native: true,
                parameters: Vec::new(),
                called_funs: Vec::new(),
                loc: Loc::default(),
                return_types: Vec::new(),
                locals: Vec::new(),
                local_names: Vec::new(),
            },
        );
        proof {
            reveal_strlit("0x0::");
            let nf = before.function_data@.len();
            assert(self.module_data@.take(n as int) =~= before.module_data@);
            assert(self.function_data@.take(nf as int) =~= before.function_data@);
            assert(self.module_has_functions(n as int)) by {
                assert(self.function_data@[nf as int].module_id@ == n);
            }
            assert(self.module_named(n as int, module_name@));
            self.lemma_stub_wf(before, n as int);
        }
    }

    /// The environment where a stub module was added to a well-formed one is well-formed.
    proof fn lemma_stub_wf(&self, before: GlobalEnv, n: int)
        requires
            before.wf(),
            n == before.module_data@.len(),
            n < 0x10000,
            self.module_data@.len() == n + 1,
            self.module_data@.take(n) == before.module_data@,
            self.module_data@[n].id@ == n,
            self.symbol_pool.has(self.module_data@[n].name),
            self.module_data@[n].used_modules@.len() == 0,
            self.module_data@[n].friend_modules@.len() == 0,
            self.function_data@.len() == before.function_data@.len() + 1,
            self.function_data@.take(before.function_data@.len() as int) == before.function_data@,
            self.function_data@[before.function_data@.len() as int].module_id@ == n,
            self.symbol_pool.has(self.function_data@[before.function_data@.len() as int].id@),
            self.function_data@[before.function_data@.len() as int].parameters@.len() == 0,
            self.function_data@[before.function_data@.len() as int].called_funs@.len() == 0,
            before.symbol_pool@.len() <= self.symbol_pool@.len(),
            self.struct_data == before.struct_data,
            self.enum_data == before.enum_data,
            self.named_constants == before.named_constants,
            self.files == before.files,
        ensures
            self.wf(),
    {
        let nf = before.function_data@.len() as int;
        assert forall|i: int| 0 <= i < n implies #[trigger] self.module_data@[i] == before.module_data@[i] by {
            assert(self.module_data@.take(n)[i] == self.module_data@[i]);
        }
        assert forall|i: int| 0 <= i < nf implies #[trigger] self.function_data@[i] == before.function_data@[i] by {
            assert(self.function_data@.take(nf)[i] == self.function_data@[i]);
        }
        assert forall|i: int, k: int|
            0 <= i < self.function_data@.len() && 0 <= k < self.function_data@[i].called_funs@.len()
                implies self.has_function(#[trigger] self.function_data@[i].called_funs@[k]) by {
            assert(i < nf);
            assert(self.function_data@[i] == before.function_data@[i]);
            let q = before.function_data@[i].called_funs@[k];
            assert(before.has_function(q));
            let j = choose|j: int| 0 <= j < nf && crate::env::fun_key(#[trigger] before.function_data@[j]) == q;
            assert(self.function_data@[j] == before.function_data@[j]);
        }
        assert forall|i: int, j: int|
            0 <= i < self.function_data@.len() && 0 <= j < self.function_data@.len() && i != j
                implies crate::env::fun_key(#[trigger] self.function_data@[i]) != crate::env::fun_key(
            #[trigger] self.function_data@[j]) by {
            if i == nf {
                assert(before.function_data@[j].module_id@ < n);
            } else if j == nf {
                assert(before.function_data@[i].module_id@ < n);
            } else {
                assert(self.function_data@[i] == before.function_data@[i]);
                assert(self.function_data@[j] == before.function_data@[j]);
            }
        }
    }

    /// Adds a stub module named `prover` unless a module of that name declares functions.
    pub fn add_stub_prover_module(&mut self)
        requires
            old(self).wf(),
            old(self).module_data@.len() < 0x10000,
        ensures
            old(self).stubbed(*final(self), GlobalEnv::PROVER_MODULE_NAME@),
    {
        self.add_stub_module(Self::PROVER_MODULE_NAME)
    }

    /// Adds a stub module named `ghost` unless a module of that name declares functions.
    pub fn add_stub_spec_module(&mut self)
        requires
            old(self).wf(),
            old(self).module_data@.len() < 0x10000,
        ensures
            old(self).stubbed(*final(self), GlobalEnv::SPEC_MODULE_NAME@),
    {
        self.add_stub_module(Self::SPEC_MODULE_NAME)
    }

    /// Adds a stub module named `log` unless a module of that name declares functions.
    pub fn add_stub_log_module(&mut self)
        requires
            old(self).wf(),
            old(self).module_data@.len() < 0x10000,
        ensures
            old(self).stubbed(*final(self), GlobalEnv::LOG_MODULE_NAME@),
    {
        self.add_stub_module(Self::LOG_MODULE_NAME)
    }
}

/// Adding a stub module is idempotent: where a stub module named `name` was added, adding
/// one again changes nothing.
pub proof fn lemma_stub_idempotent(e0: GlobalEnv, e1: GlobalEnv, e2: GlobalEnv, name: Seq<char>)
    requires
        e0.stubbed(e1, name),
        e1.stubbed(e2, name),
    ensures
        e2 == e1,
{
}

/// Stubbing a module adds one module where no module of that name declared functions, and
/// none otherwise. The module added has the next module id and declares exactly one function,
/// the placeholder.
pub proof fn lemma_stub_adds_one_module(e0: GlobalEnv, e1: GlobalEnv, name: Seq<char>)
    requires
        e0.wf(),
        e0.stubbed(e1, name),
    ensures
        e1.module_data@.len() == e0.module_data@.len() + if e0.has_module(name) {
            0int
        } else {
            1int
        },
        !e0.has_module(name) ==> {
            let n = e0.module_data@.len();
            let nf = e0.function_data@.len();
            &&& e1.module_data@[n as int].id@ == n
            &&& e1.symbol_pool@[e1.module_data@[n as int].name@ as int] == name
            &&& forall|j: int|
                0 <= j < e1.function_data@.len() ==> ((#[trigger] e1.function_data@[j]).module_id@
                    == n <==> j == nf)
            &&& e1.symbol_pool@[e1.function_data@[nf as int].id@@ as int]
                == GlobalEnv::STUB_PLACEHOLDER_FUNCTION_NAME@
        },
{
    if !e0.has_module(name) {
        let n = e0.module_data@.len();
        let nf = e0.function_data@.len() as int;
        assert forall|j: int| 0 <= j < e1.function_data@.len() implies ((
        #[trigger] e1.function_data@[j]).module_id@ == n <==> j == nf) by {
            if j < nf {
                assert(e1.function_data@.take(nf)[j] == e1.function_data@[j]);
                assert(e0.function_data@[j].module_id@ < n);
            }
        }
    }
}

/// Adding the stub `prover` module: afterwards a module named `prover` declares functions, so
/// the prover module is found; one module is added exactly where none named `prover`
/// declared functions, with the next module id and the placeholder as its only function; and
/// adding it again changes nothing.
pub proof fn lemma_stub_prover_module(e0: GlobalEnv, e1: GlobalEnv, e2: GlobalEnv)
    requires
        e0.wf(),
        e0.stubbed(e1, GlobalEnv::PROVER_MODULE_NAME@),
        e1.stubbed(e2, GlobalEnv::PROVER_MODULE_NAME@),
    ensures
        e1.has_module(GlobalEnv::PROVER_MODULE_NAME@),
        e1.module_data@.len() == e0.module_data@.len() + if e0.has_module(
            GlobalEnv::PROVER_MODULE_NAME@,
        ) {
            0int
        } else {
            1int
        },
        !e0.has_module(GlobalEnv::PROVER_MODULE_NAME@) ==> {
            let n = e0.module_data@.len();
            let nf = e0.function_data@.len();
            &&& e1.module_data@[n as int].id@ == n
            &&& forall|j: int|
                0 <= j < e1.function_data@.len() ==> ((#[trigger] e1.function_data@[j]).module_id@
                    == n <==> j == nf)
            &&& e1.symbol_pool@[e1.function_data@[nf as int].id@@ as int]
                == GlobalEnv::STUB_PLACEHOLDER_FUNCTION_NAME@
        },
        e2 == e1,
{
    lemma_stub_adds_one_module(e0, e1, GlobalEnv::PROVER_MODULE_NAME@);
    lemma_stub_idempotent(e0, e1, e2, GlobalEnv::PROVER_MODULE_NAME@);
}

/// Adding a stub module hides no module: a module of another name declares functions after
/// it where it did before, and the first module of that name stays the same.
pub proof fn lemma_stub_keeps_modules(
    e0: GlobalEnv,
    e1: GlobalEnv,
    stub_name: Seq<char>,
    name: Seq<char>,
)
    requires
        e0.wf(),
        e0.stubbed(e1, stub_name),
        name != stub_name,
    ensures
        e1.has_module(name) == e0.has_module(name),
        forall|i: int| #[trigger] e1.first_module(i, name) == e0.first_module(i, name),
{
    if !e0.has_module(stub_name) {
        let n = e0.module_data@.len() as int;
        let nf = e0.function_data@.len() as int;
        assert forall|i: int| 0 <= i < n implies #[trigger] e1.module_data@[i] == e0.module_data@[i] by {
            assert(e1.module_data@.take(n)[i] == e1.module_data@[i]);
        }
        assert forall|j: int| 0 <= j < nf implies #[trigger] e1.function_data@[j] == e0.function_data@[j] by {
            assert(e1.function_data@.take(nf)[j] == e1.function_data@[j]);
        }
        assert forall|i: int| 0 <= i < e1.module_data@.len() implies #[trigger] e1.module_named(i, name)
            == (i < n && e0.module_named(i, name)) by {
            if i < n {
                assert(e0.symbol_pool.has(e0.module_data@[i].name));
                if e0.module_has_functions(i) {
                    let j = choose|j: int|
                        0 <= j < nf && (#[trigger] e0.function_data@[j]).module_id@ == i;
                    assert(e1.function_data@[j] == e0.function_data@[j]);
                }
                if e1.module_has_functions(i) {
                    let j = choose|j: int|
                        0 <= j < nf + 1 && (#[trigger] e1.function_data@[j]).module_id@ == i;
                    assert(j < nf);
                    assert(e1.function_data@[j] == e0.function_data@[j]);
                }
            }
        }
        if e0.has_module(name) {
            let i = choose|i: int| 0 <= i < e0.module_data@.len() && #[trigger] e0.module_named(i, name);
            assert(e1.module_named(i, name));
        }
        if e1.has_module(name) {
            let i = choose|i: int| 0 <= i < e1.module_data@.len() && #[trigger] e1.module_named(i, name);
            assert(e0.module_named(i, name));
        }
        assert forall|i: int| #[trigger] e1.first_module(i, name) == e0.first_module(i, name) by {
            if 0 <= i < e1.module_data@.len() {
                assert(e1.module_named(i, name) == (i < n && e0.module_named(i, name)));
                if e0.first_module(i, name) {
                    assert forall|k: int| 0 <= k < i implies !#[trigger] e1.module_named(k, name) by {
                        assert(e1.module_named(k, name) == (k < n && e0.module_named(k, name)));
                    }
                }
                if e1.first_module(i, name) {
                    assert forall|k: int| 0 <= k < i implies !#[trigger] e0.module_named(k, name) by {
                        assert(e1.module_named(k, name) == (k < n && e0.module_named(k, name)));
                    }
                }
            }
        }
    }
}

/// Stubbing the `prover`, `ghost` and `log` modules in turn gives an environment where the
/// deterministic native functions can be computed: those three modules declare functions, and
/// the prover's vector extension module is there where its vector module is, as it was before.
pub proof fn lemma_stubs_enable_natives(e0: GlobalEnv, e1: GlobalEnv, e2: GlobalEnv, e3: GlobalEnv)
    requires
        e0.wf(),
        e0.has_module(GlobalEnv::PROVER_VECTOR_MODULE_NAME@) ==> e0.has_module(
            GlobalEnv::PROVER_VECTOR_EXT_MODULE_NAME@,
        ),
        e0.stubbed(e1, GlobalEnv::PROVER_MODULE_NAME@),
        e1.stubbed(e2, GlobalEnv::SPEC_MODULE_NAME@),
        e2.stubbed(e3, GlobalEnv::LOG_MODULE_NAME@),
    ensures
        e3.wf(),
        e3.has_module(GlobalEnv::PROVER_MODULE_NAME@),
        e3.has_module(GlobalEnv::SPEC_MODULE_NAME@),
        e3.has_module(GlobalEnv::LOG_MODULE_NAME@),
        e3.has_module(GlobalEnv::PROVER_VECTOR_MODULE_NAME@) ==> e3.has_module(
            GlobalEnv::PROVER_VECTOR_EXT_MODULE_NAME@,
        ),
{
    reveal_strlit("prover");
    reveal_strlit("ghost");
    reveal_strlit("log");
    reveal_strlit("vector_iter");
    reveal_strlit("vector_ext");
    let prover = GlobalEnv::PROVER_MODULE_NAME@;
    let ghost_name = GlobalEnv::SPEC_MODULE_NAME@;
    let log = GlobalEnv::LOG_MODULE_NAME@;
    let vec = GlobalEnv::PROVER_VECTOR_MODULE_NAME@;
    let ext = GlobalEnv::PROVER_VECTOR_EXT_MODULE_NAME@;
    assert(prover.len() == 6 && ghost_name.len() == 5 && log.len() == 3);
    assert(vec.len() == 11 && ext.len() == 10);
    lemma_stub_keeps_modules(e1, e2, ghost_name, prover);
    lemma_stub_keeps_modules(e2, e3, log, prover);
    lemma_stub_keeps_modules(e2, e3, log, ghost_name);
    lemma_stub_keeps_modules(e0, e1, prover, vec);
    lemma_stub_keeps_modules(e1, e2, ghost_name, vec);
    lemma_stub_keeps_modules(e2, e3, log, vec);
    lemma_stub_keeps_modules(e0, e1, prover, ext);
    lemma_stub_keeps_modules(e1, e2, ghost_name, ext);
    lemma_stub_keeps_modules(e2, e3, log, ext);
}

/// Interning two strings in turn keeps the strings of the pool and the symbol of the first,
/// and adds at most those two strings.
proof fn lemma_pool_grows_twice(
    p0: Seq<Seq<char>>,
    a: Seq<char>,
    p1: Seq<Seq<char>>,
    ra: Symbol,
    b: Seq<char>,
    p2: Seq<Seq<char>>,
    rb: Symbol,
)
    requires
        made(p0, a, p1, ra),
        made(p1, b, p2, rb),
    ensures
        p0.len() <= p2.len(),
        forall|i: int| 0 <= i < p0.len() ==> #[trigger] p2[i] == p0[i],
        forall|i: int| p0.len() <= i < p2.len() ==> #[trigger] p2[i] == a || p2[i] == b,
        ra@ < p2.len(),
        p2[ra@ as int] == a,
{
    assert forall|i: int| p0.len() <= i < p2.len() implies #[trigger] p2[i] == a || p2[i] == b by {
        if i < p1.len() {
            assert(p2[i] == p1[i]);
        }
    }
}

} // verus!
