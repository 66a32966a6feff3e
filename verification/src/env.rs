//! The environment of a set of Move modules, held as plain data: modules, their functions,
//! and what the model derives from them (names, visibility, verification targets, the
//! call relation).

use std::collections::BTreeMap;
use vstd::prelude::*;
use vstd::set_lib::{lemma_int_range, set_int_range};

use crate::address::{Address, ModuleName};
use crate::diag::Diagnostic;
use crate::nodes::ExpInfo;
use crate::constants::NamedConstantData;
use crate::enums::EnumData;
use crate::files::{FileHash, SourceFile, sha256_digest};
use crate::structs::StructData;
use crate::loc::{FileId, Loc, LocView, Span, enclosing_span, loc_encloses, span_encloses};
use crate::natives::intrinsic_funs;
use crate::sorted_set::{lemma_increasing_no_duplicates, sorted_set, strictly_increasing};
use crate::model::{FunId, GlobalId, ModuleId, NodeId, Parameter, QualifiedId, VerificationScope};
use crate::symbol::{Symbol, SymbolPool, made};
use crate::ty::{Type, TypeView, is_mut_ref};

verus! {

/// Visibility of a function in its module.
#[derive(Debug, Clone, Copy, PartialEq, Eq, Structural, Hash)]
pub enum Visibility {
    Private,
    Public,
    Friend,
}

/// The data of a function.
pub struct FunctionData {
    /// The module that declares the function.
    pub module_id: ModuleId,
    /// Id (the name) of the function.
    pub id: FunId,
    pub visibility: Visibility,
    pub is_entry: bool,
    pub is_native: bool,
    /// The parameters of the function, with their names and types.
    pub parameters: Vec<Parameter>,
    /// The functions that the code of this function calls.
    pub called_funs: Vec<QualifiedId<FunId>>,
    /// The location of the function.
    pub loc: Loc,
    /// The types of the values that the function returns.
    pub return_types: Vec<Type>,
    /// The types of the locals of the code of the function that follow its parameters; none
    /// for a native function.
    pub locals: Vec<Type>,
    /// The names that the source map gives the parameters and then the locals, as far as it
    /// gives them.
    pub local_names: Vec<String>,
}

/// The data of a module.
pub struct ModuleData {
    pub id: ModuleId,
    /// The name of the module without its address.
    pub name: Symbol,
    /// The address of the module.
    pub address: Address,
    /// The name of the module with its address.
    pub full_name: String,
    /// Whether this module stands for a script.
    pub is_script: bool,
    /// The modules whose code this one uses (not itself).
    pub used_modules: Vec<ModuleId>,
    /// The modules that this one declares as friends.
    pub friend_modules: Vec<ModuleId>,
    /// The location of the module.
    pub loc: Loc,
}

/// The environment: the symbol pool, the modules and the functions of all modules.
pub struct GlobalEnv {
    pub symbol_pool: SymbolPool,
    pub module_data: Vec<ModuleData>,
    pub function_data: Vec<FunctionData>,
    /// The structs of all modules.
    pub struct_data: Vec<StructData>,
    /// The enums of all modules.
    pub enum_data: Vec<EnumData>,
    /// The named constants of all modules.
    pub named_constants: Vec<NamedConstantData>,
    /// The source files, by their file ids.
    pub files: Vec<SourceFile>,
    /// The number of the next node id to allocate.
    pub next_free_node_id: usize,
    /// The number of the next global id to allocate.
    pub global_id_counter: usize,
    /// The diagnostics added so far, each with whether it has been reported.
    pub diags: Vec<(Diagnostic, bool)>,
    /// The information on the nodes of expressions, by the index of the node.
    pub exp_info: BTreeMap<usize, ExpInfo>,
    /// The location that stands for an unknown one.
    pub unknown_loc: Loc,
    /// The location that stands for a well-known but undisclosed one.
    pub internal_loc: Loc,
    /// The address of the standard library, where it was defined.
    pub stdlib_address: Option<Address>,
    /// The address of the extension libraries, where it was defined.
    pub extlib_address: Option<Address>,
}

/// The qualified id of a function.
pub open spec fn fun_key(f: FunctionData) -> QualifiedId<FunId> {
    QualifiedId { module_id: f.module_id, id: f.id }
}

/// The number of functions of `fs` that belong to the module with index `m`.
pub open spec fn count_in_module(fs: Seq<FunctionData>, m: nat) -> nat
    decreases fs.len(),
{
    if fs.len() == 0 {
        0
    } else {
        count_in_module(fs.drop_last(), m) + if fs.last().module_id@ == m {
            1nat
        } else {
            0nat
        }
    }
}

/// A module has a function exactly when it counts one.
pub proof fn lemma_count_in_module_positive(fs: Seq<FunctionData>, m: nat)
    ensures
        count_in_module(fs, m) > 0 <==> exists|i: int|
            0 <= i < fs.len() && (#[trigger] fs[i]).module_id@ == m,
    decreases fs.len(),
{
    if fs.len() > 0 {
        lemma_count_in_module_positive(fs.drop_last(), m);
        if exists|i: int| 0 <= i < fs.len() && (#[trigger] fs[i]).module_id@ == m {
            let i = choose|i: int| 0 <= i < fs.len() && (#[trigger] fs[i]).module_id@ == m;
            if i < fs.len() - 1 {
                assert(fs.drop_last()[i] == fs[i]);
            }
        }
        if exists|i: int|
            0 <= i < fs.drop_last().len() && (#[trigger] fs.drop_last()[i]).module_id@ == m {
            let i = choose|i: int|
                0 <= i < fs.drop_last().len() && (#[trigger] fs.drop_last()[i]).module_id@ == m;
            assert(fs[i] == fs.drop_last()[i]);
        }
    }
}

/// An element is in a sequence with one more element when it is that element or was there.
pub proof fn lemma_contains_push<A>(s: Seq<A>, x: A, y: A)
    ensures
        s.push(x).contains(y) <==> (s.contains(y) || x == y),
{
    if s.contains(y) {
        let k = choose|k: int| 0 <= k < s.len() && s[k] == y;
        assert(s.push(x)[k] == y);
    }
    if x == y {
        assert(s.push(x)[s.len() as int] == y);
    }
    if s.push(x).contains(y) {
        let k = choose|k: int| 0 <= k < s.push(x).len() && s.push(x)[k] == y;
        if k < s.len() {
            assert(s[k] == y);
        }
    }
}

/// `s` holds `::`.
pub open spec fn has_double_colon(s: Seq<char>) -> bool {
    exists|i: int| 0 <= i < s.len() - 1 && #[trigger] s[i] == ':' && s[i + 1] == ':'
}

/// Whether `s` holds `::`.
pub fn contains_double_colon(s: &str) -> (r: bool)
    ensures
        r == has_double_colon(s@),
{
    let n = s.unicode_len();
    if n < 2 {
        return false;
    }
    let mut i: usize = 0;
    while i < n - 1
        invariant
            n == s@.len(),
            n >= 2,
            forall|j: int| 0 <= j < i && j < n - 1 ==> !(#[trigger] s@[j] == ':' && s@[j + 1] == ':'),
        decreases n - i,
    {
        if s.get_char(i) == ':' && s.get_char(i + 1) == ':' {
            return true;
        }
        i = i + 1;
    }
    false
}

/// Whether two qualified function ids are the same.
pub fn same_qid(a: &QualifiedId<FunId>, b: &QualifiedId<FunId>) -> (r: bool)
    ensures
        r == (*a == *b),
{
    a.module_id == b.module_id && a.id == b.id
}

/// Whether `v` contains `q`.
pub fn contains_qid(v: &Vec<QualifiedId<FunId>>, q: &QualifiedId<FunId>) -> (r: bool)
    ensures
        r == v@.contains(*q),
{
    let n = v.len();
    let mut i: usize = 0;
    while i < n
        invariant
            n == v@.len(),
            i <= n,
            forall|j: int| 0 <= j < i ==> v@[j] != *q,
        decreases n - i,
    {
        if same_qid(&v[i], q) {
            return true;
        }
        i = i + 1;
    }
    false
}

impl GlobalEnv {
    /// The data is consistent: modules are numbered by their position and are no more than
    /// ids can number, each function lives in a module of the environment, qualified
    /// function ids are unique, every called function is a function of the environment, every
    /// used and friend module is a module of the environment, every name is a symbol of the
    /// pool, the structs, enums and named constants are consistent, and there are no more
    /// source files than file indices can number.
    pub open spec fn wf(&self) -> bool {
        &&& self.structs_wf()
        &&& self.enums_wf()
        &&& self.constants_wf()
        &&& self.files@.len() <= 0x10000
        &&& self.module_data@.len() <= 0x10000
        &&& forall|i: int|
            0 <= i < self.module_data@.len() ==> (#[trigger] self.module_data@[i]).id@ == i
        &&& forall|i: int|
            0 <= i < self.module_data@.len() ==> self.symbol_pool.has(
                (#[trigger] self.module_data@[i]).name,
            )
        &&& forall|i: int, k: int|
            0 <= i < self.module_data@.len() && 0 <= k < self.module_data@[i].used_modules@.len()
                ==> (#[trigger] self.module_data@[i].used_modules@[k])@
                < self.module_data@.len()
        &&& forall|i: int, k: int|
            0 <= i < self.module_data@.len() && 0 <= k < self.module_data@[i].friend_modules@.len()
                ==> (#[trigger] self.module_data@[i].friend_modules@[k])@
                < self.module_data@.len()
        &&& forall|i: int|
            0 <= i < self.function_data@.len() ==> (#[trigger] self.function_data@[i]).module_id@
                < self.module_data@.len()
        &&& forall|i: int|
            0 <= i < self.function_data@.len() ==> self.symbol_pool.has(
                (#[trigger] self.function_data@[i]).id@,
            )
        &&& forall|i: int, j: int|
            0 <= i < self.function_data@.len() && 0 <= j < self.function_data@.len() && i != j
                ==> fun_key(#[trigger] self.function_data@[i]) != fun_key(
                #[trigger] self.function_data@[j],
            )
        &&& forall|i: int, k: int|
            0 <= i < self.function_data@.len() && 0 <= k
                < self.function_data@[i].called_funs@.len() ==> self.has_function(
                #[trigger] self.function_data@[i].called_funs@[k],
            )
        &&& forall|i: int, k: int|
            0 <= i < self.function_data@.len() && 0 <= k
                < self.function_data@[i].parameters@.len() ==> self.symbol_pool.has(
                (#[trigger] self.function_data@[i].parameters@[k]).0,
            )
    }

    /// `q` is the qualified id of a function of the environment.
    pub open spec fn has_function(&self, q: QualifiedId<FunId>) -> bool {
        exists|i: int|
            0 <= i < self.function_data@.len() && fun_key(#[trigger] self.function_data@[i]) == q
    }

    /// The function `a` calls the function `b`.
    pub open spec fn calls(&self, a: QualifiedId<FunId>, b: QualifiedId<FunId>) -> bool {
        exists|i: int|
            0 <= i < self.function_data@.len() && fun_key(#[trigger] self.function_data@[i]) == a
                && self.function_data@[i].called_funs@.contains(b)
    }

    /// Each function of `p` calls the next one.
    pub open spec fn is_call_path(&self, p: Seq<QualifiedId<FunId>>) -> bool {
        forall|k: int| 0 <= k < p.len() - 1 ==> self.calls(#[trigger] p[k], p[k + 1])
    }

    /// `b` is reached from `a` by one call or more.
    pub open spec fn reaches(&self, a: QualifiedId<FunId>, b: QualifiedId<FunId>) -> bool {
        exists|p: Seq<QualifiedId<FunId>>|
            p.len() >= 2 && p[0] == a && p.last() == b && #[trigger] self.is_call_path(p)
    }

    /// `r` is the global id that this environment hands out next, and `after` counts it as
    /// handed out.
    pub open spec fn hands_out_global_id(&self, r: GlobalId, after: GlobalEnv) -> bool {
        r@ == self.global_id_counter && after.global_id_counter == self.global_id_counter + 1
    }

    /// `self` and `other` declare the same modules, functions and structs, and agree on the
    /// special locations and the addresses of the libraries.
    pub open spec fn same_declarations(&self, other: &GlobalEnv) -> bool {
        &&& self.module_data == other.module_data
        &&& self.function_data == other.function_data
        &&& self.struct_data == other.struct_data
        &&& self.enum_data == other.enum_data
        &&& self.named_constants == other.named_constants
        &&& self.files == other.files
        &&& self.unknown_loc == other.unknown_loc
        &&& self.internal_loc == other.internal_loc
        &&& self.stdlib_address == other.stdlib_address
        &&& self.extlib_address == other.extlib_address
    }

    /// A pseudo source file whose name and text are `text` and whose hash is that of `text`,
    /// of no package and no dependency.
    fn pseudo_file(text: &str) -> (r: SourceFile)
        ensures
            r.name@ == text@,
            r.source@ == text@,
            r.hash@ == sha256_digest(text@),
            r.aliases@.len() == 0,
            !r.is_dep,
    {
        SourceFile {
            name: String::from_str(text),
            source: String::from_str(text),
            hash: FileHash::new(text),
            aliases: Vec::new(),
            is_dep: false,
        }
    }

    /// Creates an environment without modules, symbols, diagnostics or nodes. The unknown
    /// location spans the text `<unknown>` of the first file and the internal location the
    /// text `<internal>` of the second.
    pub fn new() -> (r: GlobalEnv)
        ensures
            r.wf(),
            r.symbol_pool@ == Seq::<Seq<char>>::empty(),
            r.module_data@ == Seq::<ModuleData>::empty(),
            r.function_data@ == Seq::<FunctionData>::empty(),
            r.struct_data@ == Seq::<StructData>::empty(),
            r.enum_data@ == Seq::<EnumData>::empty(),
            r.named_constants@ == Seq::<NamedConstantData>::empty(),
            r.files@.len() == 2,
            r.files@[0].name@ == "<unknown>"@,
            r.files@[0].source@ == "<unknown>"@,
            r.files@[0].hash@ == sha256_digest("<unknown>"@),
            r.files@[0].aliases@.len() == 0,
            !r.files@[0].is_dep,
            r.files@[1].name@ == "<internal>"@,
            r.files@[1].source@ == "<internal>"@,
            r.files@[1].hash@ == sha256_digest("<internal>"@),
            r.files@[1].aliases@.len() == 0,
            !r.files@[1].is_dep,
            r.next_free_node_id == 0,
            r.global_id_counter == 0,
            r.diags@ == Seq::<(Diagnostic, bool)>::empty(),
            r.exp_info@ == Map::<usize, ExpInfo>::empty(),
            r.unknown_loc@ == (LocView { file: 0, start: 0, end: 9 }),
            r.internal_loc@ == (LocView { file: 1, start: 0, end: 10 }),
            r.stdlib_address is None,
            r.extlib_address is None,
    {
        GlobalEnv {
            symbol_pool: SymbolPool::new(),
            module_data: Vec::new(),
            function_data: Vec::new(),
            struct_data: Vec::new(),
            enum_data: Vec::new(),
            named_constants: Vec::new(),
            files: vec![GlobalEnv::pseudo_file("<unknown>"), GlobalEnv::pseudo_file("<internal>")],
            next_free_node_id: 0,
            global_id_counter: 0,
            diags: Vec::new(),
            exp_info: BTreeMap::new(),
            unknown_loc: Loc::new(FileId::new(0), Span::new(0, 9)),
            internal_loc: Loc::new(FileId::new(1), Span::new(0, 10)),
            stdlib_address: None,
            extlib_address: None,
        }
    }

    /// Returns the unknown location.
    pub fn unknown_loc(&self) -> (r: Loc)
        ensures
            r@ == self.unknown_loc@,
    {
        self.unknown_loc.duplicate()
    }

    /// Returns the internal location.
    pub fn internal_loc(&self) -> (r: Loc)
        ensures
            r@ == self.internal_loc@,
    {
        self.internal_loc.duplicate()
    }

    /// Forgets the information on nodes and restarts the counters of node ids and global ids.
    pub fn cleanup(&mut self)
        ensures
            final(self).exp_info@ == Map::<usize, ExpInfo>::empty(),
            final(self).next_free_node_id == 0,
            final(self).global_id_counter == 0,
            final(self).symbol_pool == old(self).symbol_pool,
            final(self).diags == old(self).diags,
            final(self).same_declarations(&*old(self)),
    {
        self.exp_info.clear();
        self.global_id_counter = 0;
        self.next_free_node_id = 0;
    }

    /// Create a new global id unique to this environment.
    pub fn new_global_id(&mut self) -> (r: GlobalId)
        requires
            old(self).global_id_counter < usize::MAX,
        ensures
            old(self).hands_out_global_id(r, *final(self)),
            final(self).next_free_node_id == old(self).next_free_node_id,
            final(self).symbol_pool == old(self).symbol_pool,
            final(self).diags == old(self).diags,
            final(self).exp_info == old(self).exp_info,
            final(self).same_declarations(&*old(self)),
    {
        let id = GlobalId::new(self.global_id_counter);
        self.global_id_counter = self.global_id_counter + 1;
        id
    }

    /// Returns the next free node number.
    pub fn next_free_node_number(&self) -> (r: usize)
        ensures
            r == self.next_free_node_id,
    {
        self.next_free_node_id
    }

    /// Allocates a new node id.
    pub fn new_node_id(&mut self) -> (r: NodeId)
        requires
            old(self).next_free_node_id < usize::MAX,
        ensures
            r@ == old(self).next_free_node_id,
            final(self).next_free_node_id == old(self).next_free_node_id + 1,
            final(self).global_id_counter == old(self).global_id_counter,
            final(self).symbol_pool == old(self).symbol_pool,
            final(self).diags == old(self).diags,
            final(self).exp_info == old(self).exp_info,
            final(self).same_declarations(&*old(self)),
    {
        let id = NodeId::new(self.next_free_node_id);
        self.next_free_node_id = self.next_free_node_id + 1;
        id
    }

    /// The number at which the standard library lives: the one defined, or 1.
    pub open spec fn stdlib_value(&self) -> nat {
        match self.stdlib_address {
            Some(a) => a@,
            None => 1,
        }
    }

    /// The number at which the extension libraries live: the one defined, or 2.
    pub open spec fn extlib_value(&self) -> nat {
        match self.extlib_address {
            Some(a) => a@,
            None => 2,
        }
    }

    /// Returns the address where the standard library is defined.
    pub fn get_stdlib_address(&self) -> (r: Address)
        ensures
            r@ == self.stdlib_value(),
    {
        match &self.stdlib_address {
            Some(a) => a.duplicate(),
            None => Address::from_u16(1),
        }
    }

    /// Returns the address where the extension libraries are defined.
    pub fn get_extlib_address(&self) -> (r: Address)
        ensures
            r@ == self.extlib_value(),
    {
        match &self.extlib_address {
            Some(a) => a.duplicate(),
            None => Address::from_u16(2),
        }
    }

    /// Return the total number of declared functions in the modules of the environment.
    pub fn get_declared_function_count(&self) -> (r: usize)
        ensures
            r == self.function_data@.len(),
    {
        self.function_data.len()
    }

    /// Return the module enclosing this location: the first one whose location encloses it.
    pub fn get_enclosing_module(&self, loc: &Loc) -> (r: Option<ModuleEnv<'_>>)
        requires
            self.wf(),
        ensures
            r matches Some(m) ==> m.env() == self && m.index() < self.module_data@.len()
                && loc_encloses(m.data().loc@, loc@) && forall|
                j: int,
            |
                0 <= j < m.index() ==> !loc_encloses(
                    (#[trigger] self.module_data@[j]).loc@,
                    loc@,
                ),
            r is None ==> forall|j: int|
                0 <= j < self.module_data@.len() ==> !loc_encloses(
                    (#[trigger] self.module_data@[j]).loc@,
                    loc@,
                ),
    {
        let n = self.module_data.len();
        let mut i: usize = 0;
        while i < n
            invariant
                self.wf(),
                n == self.module_data@.len(),
                i <= n,
                forall|j: int|
                    0 <= j < i ==> !loc_encloses((#[trigger] self.module_data@[j]).loc@, loc@),
            decreases n - i,
        {
            let data = &self.module_data[i];
            let fa = data.loc.file_id();
            let fb = loc.file_id();
            proof {
                FileId::lemma_view_injective(fa, fb);
            }
            if fa == fb && enclosing_span(data.loc.span(), loc.span()) {
                return Some(ModuleEnv { env: self, idx: i });
            }
            i = i + 1;
        }
        None
    }

    /// Returns the function enclosing this location: the first function of the enclosing
    /// module whose span encloses the span of `loc`.
    pub fn get_enclosing_function(&self, loc: &Loc) -> (r: Option<FunctionEnv<'_>>)
        requires
            self.wf(),
        ensures
            r matches Some(f) ==> f.env() == self && loc_encloses(f.module_data().loc@, loc@)
                && (forall|j: int|
                0 <= j < f.data().module_id@ ==> !loc_encloses(
                    (#[trigger] self.module_data@[j]).loc@,
                    loc@,
                )) && span_encloses(
                (f.data().loc@.start, f.data().loc@.end),
                (loc@.start, loc@.end),
            ) && forall|j: int|
                0 <= j < f.index() && (#[trigger] self.function_data@[j]).module_id
                    == f.data().module_id ==> !span_encloses(
                    (self.function_data@[j].loc@.start, self.function_data@[j].loc@.end),
                    (loc@.start, loc@.end),
                ),
            r is None ==> (forall|j: int|
                0 <= j < self.module_data@.len() ==> !loc_encloses(
                    (#[trigger] self.module_data@[j]).loc@,
                    loc@,
                )) || exists|m: nat|
                m < self.module_data@.len() && loc_encloses(self.module_data@[m as int].loc@, loc@)
                    && (forall|j: int|
                    0 <= j < m ==> !loc_encloses(
                        (#[trigger] self.module_data@[j]).loc@,
                        loc@,
                    )) && forall|j: int|
                    0 <= j < self.function_data@.len() && (#[trigger] self.function_data@[j]).module_id@
                        == m ==> !span_encloses(
                        (self.function_data@[j].loc@.start, self.function_data@[j].loc@.end),
                        (loc@.start, loc@.end),
                    ),
    {
        let module_env = match self.get_enclosing_module(loc) {
            Some(m) => m,
            None => {
                return None;
            },
        };
        let mid = module_env.get_id();
        let n = self.function_data.len();
        let mut i: usize = 0;
        while i < n
            invariant
                self.wf(),
                n == self.function_data@.len(),
                i <= n,
                mid@ < self.module_data@.len(),
                loc_encloses(self.module_data@[mid@ as int].loc@, loc@),
                forall|j: int|
                    0 <= j < mid@ ==> !loc_encloses((#[trigger] self.module_data@[j]).loc@, loc@),
                forall|j: int|
                    0 <= j < i && (#[trigger] self.function_data@[j]).module_id == mid
                        ==> !span_encloses(
                        (self.function_data@[j].loc@.start, self.function_data@[j].loc@.end),
                        (loc@.start, loc@.end),
                    ),
            decreases n - i,
        {
            let f = &self.function_data[i];
            if f.module_id == mid && enclosing_span(f.loc.span(), loc.span()) {
                return Some(FunctionEnv { module_env: ModuleEnv { env: self, idx: mid.to_usize() }, idx: i });
            }
            i = i + 1;
        }
        proof {
            assert forall|j: int|
                0 <= j < self.function_data@.len() && (#[trigger] self.function_data@[j]).module_id@
                    == mid@ implies !span_encloses(
                (self.function_data@[j].loc@.start, self.function_data@[j].loc@.end),
                (loc@.start, loc@.end),
            ) by {
                ModuleId::lemma_view_injective(self.function_data@[j].module_id, mid);
            }
        }
        None
    }

    /// Reaching by calls is transitive.
    pub proof fn lemma_reaches_transitive(
        &self,
        a: QualifiedId<FunId>,
        b: QualifiedId<FunId>,
        c: QualifiedId<FunId>,
    )
        requires
            self.reaches(a, b),
            self.reaches(b, c),
        ensures
            self.reaches(a, c),
    {
        let p = choose|p: Seq<QualifiedId<FunId>>|
            p.len() >= 2 && p[0] == a && p.last() == b && #[trigger] self.is_call_path(p);
        let q = choose|q: Seq<QualifiedId<FunId>>|
            q.len() >= 2 && q[0] == b && q.last() == c && #[trigger] self.is_call_path(q);
        let r = p + q.drop_first();
        assert forall|k: int| 0 <= k < r.len() - 1 implies self.calls(#[trigger] r[k], r[k + 1]) by {
            if k < p.len() - 1 {
                assert(r[k] == p[k] && r[k + 1] == p[k + 1]);
                assert(self.calls(p[k], p[k + 1]));
            } else if k == p.len() - 1 {
                assert(r[k] == q[0] && r[k + 1] == q[1]);
                assert(self.calls(q[0], q[1]));
            } else {
                let m = k - p.len() + 1;
                assert(r[k] == q[m] && r[k + 1] == q[m + 1]);
                assert(self.calls(q[m], q[m + 1]));
            }
        }
        assert(self.is_call_path(r));
        assert(r[0] == a);
        assert(r.last() == c);
    }

    /// What a function reached from `a` calls is reached from `a` too: the transitive closure
    /// of the called functions is closed under calls.
    pub proof fn lemma_reaches_closed_under_calls(
        &self,
        a: QualifiedId<FunId>,
        b: QualifiedId<FunId>,
        c: QualifiedId<FunId>,
    )
        requires
            self.reaches(a, b),
            self.calls(b, c),
        ensures
            self.reaches(a, c),
    {
        let p = seq![b, c];
        assert(self.is_call_path(p));
        self.lemma_reaches_transitive(a, b, c);
    }

    /// Every module depends on itself, and dependence is transitive.
    pub proof fn lemma_depends_on_reflexive_transitive(&self, a: int, b: int, c: int)
        ensures
            self.depends_on(a, a),
            self.depends_on(a, b) && self.depends_on(b, c) ==> self.depends_on(a, c),
    {
        if self.depends_on(a, b) && self.depends_on(b, c) && a != b && b != c {
            let p = choose|p: Seq<int>|
                p.len() >= 2 && p[0] == a && p.last() == b && #[trigger] self.is_module_path(p);
            let q = choose|q: Seq<int>|
                q.len() >= 2 && q[0] == b && q.last() == c && #[trigger] self.is_module_path(q);
            let r = p + q.drop_first();
            assert forall|k: int| 0 <= k < r.len() - 1 implies self.uses_module(#[trigger] r[k], r[k + 1]) by {
                if k < p.len() - 1 {
                    assert(r[k] == p[k] && r[k + 1] == p[k + 1]);
                    assert(self.uses_module(p[k], p[k + 1]));
                } else if k == p.len() - 1 {
                    assert(r[k] == q[0] && r[k + 1] == q[1]);
                    assert(self.uses_module(q[0], q[1]));
                } else {
                    let m = k - p.len() + 1;
                    assert(r[k] == q[m] && r[k + 1] == q[m + 1]);
                    assert(self.uses_module(q[m], q[m + 1]));
                }
            }
            assert(self.is_module_path(r));
            assert(r[0] == a);
            assert(r.last() == c);
        }
    }

    /// The module at position `i` declares a function.
    pub open spec fn module_has_functions(&self, i: int) -> bool {
        exists|j: int|
            0 <= j < self.function_data@.len() && (#[trigger] self.function_data@[j]).module_id@ == i
    }

    /// The module at position `i` has the name `name` and declares a function.
    pub open spec fn module_named(&self, i: int, name: Seq<char>) -> bool {
        self.symbol_pool@[self.module_data@[i].name@ as int] == name && self.module_has_functions(i)
    }

    /// The name of the function at position `j`, as a string.
    pub open spec fn fun_name_str(&self, j: int) -> Seq<char> {
        self.symbol_pool@[self.function_data@[j].id@@ as int]
    }

    /// The name of the module of the function at position `j`, as a string.
    pub open spec fn fun_module_name_str(&self, j: int) -> Seq<char> {
        self.symbol_pool@[self.module_data@[self.function_data@[j].module_id@ as int].name@ as int]
    }

    /// The function at position `j` is named `name` in one of the two ways in which
    /// `resolve_function` accepts a qualified name: with the name of its module, or with the
    /// full name of its module.
    pub open spec fn matches_qualified_name(&self, j: int, name: Seq<char>) -> bool {
        ||| self.fun_module_name_str(j) + "::"@ + self.fun_name_str(j) == name
        ||| self.module_data@[self.function_data@[j].module_id@ as int].full_name@ + "::"@
            + self.fun_name_str(j) == name
    }

    /// Finds the first module of the given address and simple name.
    pub fn find_module(&self, name: &ModuleName) -> (r: Option<ModuleEnv<'_>>)
        requires
            self.wf(),
        ensures
            r matches Some(m) ==> m.env() == self && m.index() < self.module_data@.len()
                && self.module_has_name(m.index() as int, name) && forall|j: int|
                0 <= j < m.index() ==> !#[trigger] self.module_has_name(j, name),
            r is None ==> forall|j: int|
                0 <= j < self.module_data@.len() ==> !#[trigger] self.module_has_name(j, name),
    {
        let n = self.module_data.len();
        let mut i: usize = 0;
        while i < n
            invariant
                self.wf(),
                n == self.module_data@.len(),
                i <= n,
                forall|j: int| 0 <= j < i ==> !#[trigger] self.module_has_name(j, name),
            decreases n - i,
        {
            let m = ModuleEnv { env: self, idx: i };
            if m.get_address().same(name.addr()) && m.get_name() == name.name() {
                return Some(m);
            }
            i = i + 1;
        }
        None
    }

    /// The module at position `i` is at `address` and its simple name is `name`.
    pub open spec fn module_at_named(&self, i: int, address: nat, name: Seq<char>) -> bool {
        &&& self.module_data@[i].address@ == address
        &&& self.symbol_pool@[self.module_data@[i].name@ as int] == name
    }

    /// The module at position `i` is the first at `address` whose simple name is `name`.
    pub open spec fn first_module_at_named(&self, i: int, address: nat, name: Seq<char>) -> bool {
        &&& 0 <= i < self.module_data@.len()
        &&& self.module_at_named(i, address, name)
        &&& forall|j: int| 0 <= j < i ==> !#[trigger] self.module_at_named(j, address, name)
    }

    /// The name of the module `name` at `address`, as a module id of the bytecode gives them;
    /// the name is interned in the pool.
    pub fn to_module_name(&mut self, address: &Address, name: &str) -> (r: ModuleName)
        ensures
            made(old(self).symbol_pool@, name@, final(self).symbol_pool@, r.spec_name()),
            r.spec_addr() == address@,
            final(self).same_declarations(&*old(self)),
            final(self).next_free_node_id == old(self).next_free_node_id,
            final(self).global_id_counter == old(self).global_id_counter,
            final(self).diags == old(self).diags,
            final(self).exp_info == old(self).exp_info,
    {
        let sym = self.symbol_pool.make(name);
        ModuleName::new(address.duplicate(), sym)
    }

    /// Finds the first module at `address` whose simple name is `name`, as a module id of the
    /// bytecode gives them. The name is looked up in the pool: a name that is not there names
    /// no module.
    pub fn find_module_by_language_storage_id(&self, address: &Address, name: &str) -> (r: Option<
        ModuleEnv<'_>,
    >)
        requires
            self.wf(),
        ensures
            r matches Some(m) ==> m.env() == self && m.index() < self.module_data@.len()
                && self.module_at_named(m.index() as int, address@, name@) && forall|j: int|
                0 <= j < m.index() ==> !#[trigger] self.module_at_named(j, address@, name@),
            r is None ==> forall|j: int|
                0 <= j < self.module_data@.len() ==> !#[trigger] self.module_at_named(
                    j,
                    address@,
                    name@,
                ),
    {
        match self.symbol_pool.find(name) {
            None => {
                proof {
                    assert forall|j: int| 0 <= j < self.module_data@.len() implies !#[trigger] self.module_at_named(
                        j,
                        address@,
                        name@,
                    ) by {
                        let k = self.module_data@[j].name@ as int;
                        assert(self.symbol_pool.has(self.module_data@[j].name));
                        if self.symbol_pool@[k] == name@ {
                            assert(self.symbol_pool@.contains(name@));
                        }
                    }
                }
                None
            },
            Some(sym) => {
                let module_name = ModuleName::new(address.duplicate(), sym);
                let r = self.find_module(&module_name);
                proof {
                    assert forall|j: int| 0 <= j < self.module_data@.len() implies #[trigger] self.module_at_named(
                        j,
                        address@,
                        name@,
                    ) == self.module_has_name(j, &module_name) by {
                        assert(self.symbol_pool.has(self.module_data@[j].name));
                        if self.symbol_pool@[self.module_data@[j].name@ as int] == name@ {
                            Symbol::lemma_view_injective(self.module_data@[j].name, sym);
                        }
                    }
                    if r is Some {
                        let i = r->Some_0.index() as int;
                        assert(self.module_has_name(i, &module_name));
                        assert forall|j: int| 0 <= j < i implies !#[trigger] self.module_at_named(
                            j,
                            address@,
                            name@,
                        ) by {
                            assert(!self.module_has_name(j, &module_name));
                        }
                    }
                }
                r
            },
        }
    }

    /// Finds the function named `fun_name` in the first module at `address` whose simple name
    /// is `module_name`, as the bytecode names them. The names are looked up in the pool.
    pub fn find_function_by_language_storage_id_name(
        &self,
        address: &Address,
        module_name: &str,
        fun_name: &str,
    ) -> (r: Option<FunctionEnv<'_>>)
        requires
            self.wf(),
        ensures
            r matches Some(f) ==> f.env() == self && f.index() < self.function_data@.len()
                && self.first_module_at_named(f.data().module_id@ as int, address@, module_name@)
                && self.symbol_pool@[f.data().id@@ as int] == fun_name@,
            r is None ==> forall|i: int, k: int|
                #![trigger self.first_module_at_named(i, address@, module_name@), self.function_data@[k]]
                self.first_module_at_named(i, address@, module_name@) && 0 <= k
                    < self.function_data@.len() && self.function_data@[k].module_id@ == i
                    ==> self.symbol_pool@[self.function_data@[k].id@@ as int] != fun_name@,
    {
        match self.find_module_by_language_storage_id(address, module_name) {
            None => None,
            Some(m) => {
                match self.symbol_pool.find(fun_name) {
                    None => {
                        proof {
                            assert forall|k: int| 0 <= k < self.function_data@.len() implies self.symbol_pool@[(#[trigger] self.function_data@[k]).id@@ as int] != fun_name@ by {
                                assert(self.symbol_pool.has(self.function_data@[k].id@));
                                if self.symbol_pool@[self.function_data@[k].id@@ as int] == fun_name@ {
                                    assert(self.symbol_pool@.contains(fun_name@));
                                }
                            }
                        }
                        None
                    },
                    Some(sym) => {
                        let r = m.find_function(sym);
                        proof {
                            assert(self.module_data@[m.index() as int].id@ == m.index());
                            assert forall|i: int, k: int|
                                #![trigger self.first_module_at_named(i, address@, module_name@), self.function_data@[k]]
                                self.first_module_at_named(i, address@, module_name@) && 0 <= k
                                    < self.function_data@.len() && self.function_data@[k].module_id@ == i
                                    && r is None
                                    implies self.symbol_pool@[self.function_data@[k].id@@ as int] != fun_name@ by {
                                if i < m.index() {
                                    assert(!self.module_at_named(i, address@, module_name@));
                                }
                                if m.index() < i {
                                    assert(!self.module_at_named(m.index() as int, address@, module_name@));
                                }
                                assert(i == m.index());
                                assert(self.symbol_pool.has(self.function_data@[k].id@));
                                if self.symbol_pool@[self.function_data@[k].id@@ as int] == fun_name@ {
                                    Symbol::lemma_view_injective(self.function_data@[k].id@, sym);
                                }
                            }
                        }
                        r
                    },
                }
            },
        }
    }

    /// The module at position `i` has the address and the simple name of `name`.
    pub open spec fn module_has_name(&self, i: int, name: &ModuleName) -> bool {
        self.module_data@[i].address@ == name.spec_addr() && self.module_data@[i].name
            == name.spec_name()
    }

    /// Finds the first module with the given simple name that declares a function.
    pub fn find_module_by_name(&self, simple_name: Symbol) -> (r: Option<ModuleEnv<'_>>)
        requires
            self.wf(),
        ensures
            r matches Some(m) ==> m.env() == self && m.index() < self.module_data@.len()
                && m.data().name == simple_name && self.module_has_functions(m.index() as int)
                && forall|j: int|
                0 <= j < m.index() ==> !((#[trigger] self.module_data@[j]).name == simple_name
                    && self.module_has_functions(j)),
            r is None ==> forall|j: int|
                0 <= j < self.module_data@.len() ==> !((#[trigger] self.module_data@[j]).name
                    == simple_name && self.module_has_functions(j)),
    {
        let n = self.module_data.len();
        let mut i: usize = 0;
        while i < n
            invariant
                self.wf(),
                n == self.module_data@.len(),
                i <= n,
                forall|j: int|
                    0 <= j < i ==> !((#[trigger] self.module_data@[j]).name == simple_name
                        && self.module_has_functions(j)),
            decreases n - i,
        {
            let m = ModuleEnv { env: self, idx: i };
            proof {
                lemma_count_in_module_positive(self.function_data@, i as nat);
            }
            if m.get_name() == simple_name && m.get_function_count() > 0 {
                return Some(m);
            }
            i = i + 1;
        }
        None
    }

    /// Finds the function with the given simple name in the module `module_id`.
    pub fn find_function_by_name(&self, module_id: ModuleId, simple_name: Symbol) -> (r: Option<
        FunctionEnv<'_>,
    >)
        requires
            self.wf(),
            module_id@ < self.module_data@.len(),
        ensures
            r matches Some(f) ==> f.env() == self && f.data().module_id == module_id
                && f.data().id@ == simple_name,
            r is None ==> forall|j: int|
                0 <= j < self.function_data@.len() ==> !((
                #[trigger] self.function_data@[j]).module_id == module_id
                    && self.function_data@[j].id@ == simple_name),
    {
        let r = self.get_module(module_id).find_function(simple_name);
        proof {
            if r is Some {
                ModuleId::lemma_view_injective(r->Some_0.data().module_id, module_id);
            } else {
                assert forall|j: int|
                    0 <= j < self.function_data@.len() implies !((
                    #[trigger] self.function_data@[j]).module_id == module_id
                        && self.function_data@[j].id@ == simple_name) by {
                    ModuleId::lemma_view_injective(self.function_data@[j].module_id, module_id);
                }
            }
        }
        r
    }

    /// The module at position `i` is the first one named `module_name` that declares
    /// functions, and the function at position `j` is the one named `fun_name` in it.
    pub open spec fn qid_witness(&self, i: int, j: int, module_name: Seq<char>, fun_name: Seq<
        char,
    >) -> bool {
        &&& 0 <= i < self.module_data@.len()
        &&& self.module_named(i, module_name)
        &&& forall|k: int| 0 <= k < i ==> !#[trigger] self.module_named(k, module_name)
        &&& 0 <= j < self.function_data@.len()
        &&& self.function_data@[j].module_id@ == i
        &&& self.fun_name_str(j) == fun_name
    }

    /// The qualified id of the function named `fun_name` in the first module named
    /// `module_name` that declares functions, if there is such a function.
    pub open spec fn fun_qid_opt(&self, module_name: Seq<char>, fun_name: Seq<char>) -> Option<
        QualifiedId<FunId>,
    > {
        if exists|i: int, j: int| self.qid_witness(i, j, module_name, fun_name) {
            let (i, j) = choose|i: int, j: int| self.qid_witness(i, j, module_name, fun_name);
            Some(fun_key(self.function_data@[j]))
        } else {
            None
        }
    }

    /// The qualified id of the function named `fun_name` in the first module named
    /// `module_name` that declares functions, if there is such a function.
    /// The module of a witness is the first module of that name.
    proof fn lemma_witness_module(
        &self,
        i: int,
        j: int,
        module_name: Seq<char>,
        fun_name: Seq<char>,
        first: int,
    )
        requires
            0 <= first < self.module_data@.len(),
            self.module_named(first, module_name),
            forall|k: int| 0 <= k < first ==> !#[trigger] self.module_named(k, module_name),
        ensures
            self.qid_witness(i, j, module_name, fun_name) ==> i == first,
    {
    }

    pub fn get_fun_qid_opt(&self, module_name: &str, fun_name: &str) -> (r: Option<
        QualifiedId<FunId>,
    >)
        requires
            self.wf(),
        ensures
            r == self.fun_qid_opt(module_name@, fun_name@),
    {
        let pool = &self.symbol_pool;
        let msym = match pool.find(module_name) {
            Some(sym) => sym,
            None => {
                proof {
                    assert forall|i: int| 0 <= i < self.module_data@.len() implies !self.module_named(
                        i,
                        module_name@,
                    ) by {
                        let nm = self.module_data@[i].name@ as int;
                        assert(self.symbol_pool.has(self.module_data@[i].name));
                        if self.symbol_pool@[nm] == module_name@ {
                            assert(self.symbol_pool@.contains(module_name@));
                        }
                    }
                    assert(!exists|i: int, j: int| self.qid_witness(i, j, module_name@, fun_name@));
                }
                return None;
            },
        };
        proof {
            assert forall|i: int| 0 <= i < self.module_data@.len() implies (self.module_named(
                i,
                module_name@,
            ) <==> ((#[trigger] self.module_data@[i]).name == msym && self.module_has_functions(
                i,
            ))) by {
                assert(self.symbol_pool.has(self.module_data@[i].name));
                Symbol::lemma_view_injective(self.module_data@[i].name, msym);
            }
        }
        let m = match self.find_module_by_name(msym) {
            Some(m) => m,
            None => {
                proof {
                    assert forall|i: int, j: int|
                        !self.qid_witness(i, j, module_name@, fun_name@) by {
                        if 0 <= i < self.module_data@.len() && self.module_named(i, module_name@) {
                            assert(self.module_data@[i].name == msym);
                        }
                    }
                }
                return None;
            },
        };
        proof {
            assert forall|k: int| 0 <= k < m.index() implies !#[trigger] self.module_named(
                k,
                module_name@,
            ) by {
                assert(self.module_data@[k] == self.module_data@[k]);
            }
        }
        let fsym = match pool.find(fun_name) {
            Some(sym) => sym,
            None => {
                proof {
                    assert forall|j: int|
                        0 <= j < self.function_data@.len() && (
                        #[trigger] self.function_data@[j]).module_id@ == m.index() implies self.fun_name_str(j)
                        != fun_name@ by {
                        assert(self.symbol_pool.has(self.function_data@[j].id@));
                        if self.fun_name_str(j) == fun_name@ {
                            assert(self.symbol_pool@.contains(fun_name@));
                        }
                    }
                    assert forall|i: int, j: int|
                        !self.qid_witness(i, j, module_name@, fun_name@) by {
                        self.lemma_witness_module(i, j, module_name@, fun_name@, m.index() as int);
                    }
                }
                return None;
            },
        };
        match m.find_function(fsym) {
            Some(f) => {
                let q = f.get_qualified_id();
                proof {
                    let i = m.index() as int;
                    let j = f.index() as int;
                    assert(self.function_data@[j] == f.data());
                    assert(self.module_data@[i] == m.data());
                    assert(self.module_named(i, module_name@));
                    assert(self.function_data@[j].module_id@ == i);
                    assert(self.fun_name_str(j) == fun_name@);
                    assert(0 <= j < self.function_data@.len());
                    assert(self.qid_witness(i, j, module_name@, fun_name@));
                    let (i2, j2) = choose|i2: int, j2: int|
                        self.qid_witness(i2, j2, module_name@, fun_name@);
                    self.lemma_witness_module(i2, j2, module_name@, fun_name@, i);
                    assert(self.symbol_pool.has(self.function_data@[j2].id@));
                    assert(self.symbol_pool@[self.function_data@[j2].id@@ as int] == fun_name@);
                    Symbol::lemma_view_injective(self.function_data@[j2].id@, fsym);
                    FunId::lemma_view_injective(self.function_data@[j2].id, self.function_data@[j].id);
                    ModuleId::lemma_view_injective(
                        self.function_data@[j2].module_id,
                        self.function_data@[j].module_id,
                    );
                }
                Some(q)
            },
            None => {
                proof {
                    assert forall|j: int|
                        0 <= j < self.function_data@.len() && (
                        #[trigger] self.function_data@[j]).module_id@ == m.index() implies self.fun_name_str(j)
                        != fun_name@ by {
                        assert(self.symbol_pool.has(self.function_data@[j].id@));
                        Symbol::lemma_view_injective(self.function_data@[j].id@, fsym);
                    }
                    assert forall|i: int, j: int|
                        !self.qid_witness(i, j, module_name@, fun_name@) by {
                        self.lemma_witness_module(i, j, module_name@, fun_name@, m.index() as int);
                    }
                }
                None
            },
        }
    }

    /// Resolve a potentially-qualified function name to a qualified id: `function` is
    /// searched in the module `caller_module`, `module::function` and
    /// `package::module::function` in all modules, where the first match is taken: modules by
    /// id, then functions by symbol. A name without `::` is added to the symbol pool.
    pub fn resolve_function(&mut self, name: &str, caller_module: ModuleId) -> (r: Option<
        QualifiedId<FunId>,
    >)
        requires
            old(self).wf(),
            caller_module@ < old(self).module_data@.len(),
        ensures
            !has_double_colon(name@) ==> (r matches Some(q) ==> exists|j: int|
                0 <= j < old(self).function_data@.len() && old(self).function_data@[j].module_id@
                    == caller_module@ && old(self).fun_name_str(j) == name@ && q == fun_key(
                    old(self).function_data@[j],
                )),
            !has_double_colon(name@) ==> (r is None ==> forall|j: int|
                0 <= j < old(self).function_data@.len() && (
                #[trigger] old(self).function_data@[j]).module_id@ == caller_module@
                    ==> old(self).fun_name_str(j) != name@),
            has_double_colon(name@) ==> (r matches Some(q) ==> exists|j: int|
                #[trigger] old(self).first_qualified_match(j, name@) && q == fun_key(
                    old(self).function_data@[j],
                )),
            has_double_colon(name@) ==> (r is None ==> forall|j: int|
                0 <= j < old(self).function_data@.len() ==> !#[trigger] old(
                    self,
                ).matches_qualified_name(j, name@)),
            !has_double_colon(name@) ==> exists|s: Symbol|
                made(old(self).symbol_pool@, name@, final(self).symbol_pool@, s),
            has_double_colon(name@) ==> final(self).symbol_pool == old(self).symbol_pool,
            final(self).same_declarations(&*old(self)),
            final(self).next_free_node_id == old(self).next_free_node_id,
            final(self).global_id_counter == old(self).global_id_counter,
            final(self).diags == old(self).diags,
            final(self).exp_info == old(self).exp_info,
    {
        let r = {
            let m = self.get_module(caller_module);
            self.resolve_function_in(name, &m)
        };
        if !contains_double_colon(name) {
            let ghost before = self.symbol_pool@;
            let sym = self.symbol_pool.make(name);
            proof {
                assert(made(before, name@, self.symbol_pool@, sym));
            }
        }
        r
    }

    /// `resolve_function` on this environment as it is, with the caller's module given by its
    /// environment.
    fn resolve_function_in(&self, name: &str, caller_module: &ModuleEnv) -> (r: Option<
        QualifiedId<FunId>,
    >)
        requires
            self.wf(),
            caller_module.env() == self,
        ensures
            !has_double_colon(name@) ==> (r matches Some(q) ==> exists|j: int|
                0 <= j < self.function_data@.len() && self.function_data@[j].module_id@
                    == caller_module.index() && self.fun_name_str(j) == name@ && q == fun_key(
                    self.function_data@[j],
                )),
            !has_double_colon(name@) ==> (r is None ==> forall|j: int|
                0 <= j < self.function_data@.len() && (#[trigger] self.function_data@[j]).module_id@
                    == caller_module.index() ==> self.fun_name_str(j) != name@),
            has_double_colon(name@) ==> (r matches Some(q) ==> exists|j: int|
                #[trigger] self.first_qualified_match(j, name@) && q == fun_key(
                    self.function_data@[j],
                )),
            has_double_colon(name@) ==> (r is None ==> forall|j: int|
                0 <= j < self.function_data@.len() ==> !#[trigger] self.matches_qualified_name(
                    j,
                    name@,
                )),
    {
        if !contains_double_colon(name) {
            let sym = match self.symbol_pool.find(name) {
                Some(sym) => sym,
                None => {
                    proof {
                        assert forall|j: int|
                            0 <= j < self.function_data@.len() && (
                            #[trigger] self.function_data@[j]).module_id@ == caller_module.index() implies self.fun_name_str(j)
                            != name@ by {
                            assert(self.symbol_pool.has(self.function_data@[j].id@));
                            if self.fun_name_str(j) == name@ {
                                assert(self.symbol_pool@.contains(name@));
                            }
                        }
                    }
                    return None;
                },
            };
            return match caller_module.find_function(sym) {
                Some(f) => {
                    let q = f.get_qualified_id();
                    proof {
                        let j = f.index() as int;
                        assert(self.function_data@[j] == f.data());
                        assert(self.fun_name_str(j) == name@);
                    }
                    Some(q)
                },
                None => {
                    proof {
                        assert forall|j: int|
                            0 <= j < self.function_data@.len() && (
                            #[trigger] self.function_data@[j]).module_id@ == caller_module.index() implies self.fun_name_str(j)
                            != name@ by {
                            assert(self.symbol_pool.has(self.function_data@[j].id@));
                            Symbol::lemma_view_injective(self.function_data@[j].id@, sym);
                        }
                    }
                    None
                },
            };
        }
        let key = String::from_str(name);
        let nm = self.module_data.len();
        let nf = self.function_data.len();
        let mut i: usize = 0;
        while i < nm
            invariant
                self.wf(),
                nm == self.module_data@.len(),
                nf == self.function_data@.len(),
                key@ == name@,
                has_double_colon(name@),
                i <= nm,
                forall|j: int|
                    0 <= j < nf && (#[trigger] self.function_data@[j]).module_id@ < i
                        ==> !self.matches_qualified_name(j, name@),
            decreases nm - i,
        {
            let module = ModuleEnv { env: self, idx: i };
            let mut best: Option<usize> = None;
            let mut k: usize = 0;
            while k < nf
                invariant
                    self.wf(),
                    nm == self.module_data@.len(),
                    nf == self.function_data@.len(),
                    module.env() == self,
                    module.index() == i,
                    key@ == name@,
                    has_double_colon(name@),
                    i < nm,
                    k <= nf,
                    forall|j: int|
                        0 <= j < nf && (#[trigger] self.function_data@[j]).module_id@ < i
                            ==> !self.matches_qualified_name(j, name@),
                    best matches Some(b) ==> b < k && self.function_data@[b as int].module_id@ == i
                        && self.matches_qualified_name(b as int, name@) && forall|j: int|
                        0 <= j < k && (#[trigger] self.function_data@[j]).module_id@ == i
                            && self.matches_qualified_name(j, name@)
                            ==> self.function_data@[b as int].id@@ <= self.function_data@[j].id@@,
                    best is None ==> forall|j: int|
                        0 <= j < k && (#[trigger] self.function_data@[j]).module_id@ == i
                            ==> !self.matches_qualified_name(j, name@),
                decreases nf - k,
            {
                if self.function_data[k].module_id.to_usize() == i {
                    let func = FunctionEnv { module_env: ModuleEnv { env: self, idx: i }, idx: k };
                    // module::function
                    let short_match = func.get_full_name_str() == key;
                    // package::module::function
                    let fully_qualified = module.get_full_name_str().concat("::").concat(
                        func.get_name_str().as_str(),
                    );
                    let long_match = fully_qualified == key;
                    proof {
                        assert(self.function_data@[k as int] == func.data());
                        assert((short_match || long_match) == self.matches_qualified_name(
                            k as int,
                            name@,
                        ));
                    }
                    if short_match || long_match {
                        let better = match best {
                            Some(b) => self.function_data[k].id.symbol().index()
                                < self.function_data[b].id.symbol().index(),
                            None => true,
                        };
                        if better {
                            best = Some(k);
                        }
                    }
                }
                k = k + 1;
            }
            match best {
                Some(b) => {
                    let q = self.function_data[b].module_id.qualified(self.function_data[b].id);
                    proof {
                        assert(self.first_qualified_match(b as int, name@)) by {
                            assert forall|j: int|
                                0 <= j < nf && #[trigger] self.matches_qualified_name(j, name@) implies (
                            self.function_data@[b as int].module_id@ < self.function_data@[j].module_id@
                                || (self.function_data@[b as int].module_id@
                                == self.function_data@[j].module_id@
                                && self.function_data@[b as int].id@@
                                <= self.function_data@[j].id@@)) by {
                                if self.function_data@[j].module_id@ < i {
                                }
                            }
                        }
                    }
                    return Some(q);
                },
                None => {},
            }
            i = i + 1;
        }
        proof {
            assert forall|j: int| 0 <= j < nf implies !#[trigger] self.matches_qualified_name(j, name@) by {
                assert(self.function_data@[j].module_id@ < nm);
            }
        }
        None
    }

    /// The function at position `j` is the first that matches the qualified name `name`:
    /// in the module of the lowest id among the matches, the one of the lowest symbol.
    pub open spec fn first_qualified_match(&self, j: int, name: Seq<char>) -> bool {
        &&& 0 <= j < self.function_data@.len()
        &&& self.matches_qualified_name(j, name)
        &&& forall|k: int|
            0 <= k < self.function_data@.len() && #[trigger] self.matches_qualified_name(k, name) ==> (
            self.function_data@[j].module_id@ < self.function_data@[k].module_id@ || (
            self.function_data@[j].module_id@ == self.function_data@[k].module_id@
                && self.function_data@[j].id@@ <= self.function_data@[k].id@@))
    }

    /// The module at position `a` uses the module at position `b`.
    pub open spec fn uses_module(&self, a: int, b: int) -> bool {
        0 <= a < self.module_data@.len() && exists|k: int|
            0 <= k < self.module_data@[a].used_modules@.len()
                && (#[trigger] self.module_data@[a].used_modules@[k])@ == b
    }

    /// Each module of `p` uses the next one.
    pub open spec fn is_module_path(&self, p: Seq<int>) -> bool {
        forall|k: int| 0 <= k < p.len() - 1 ==> self.uses_module(#[trigger] p[k], p[k + 1])
    }

    /// The module at position `b` is the one at `a` or is used by it, directly or not.
    pub open spec fn depends_on(&self, a: int, b: int) -> bool {
        a == b || exists|p: Seq<int>|
            p.len() >= 2 && p[0] == a && p.last() == b && #[trigger] self.is_module_path(p)
    }

    /// Dependence extends by one use.
    pub proof fn lemma_depends_on_step(&self, a: int, b: int, c: int)
        requires
            self.depends_on(a, b),
            self.uses_module(b, c),
        ensures
            self.depends_on(a, c),
    {
        if a == b {
            let p = seq![a, c];
            assert(self.is_module_path(p));
        } else {
            let p = choose|p: Seq<int>|
                p.len() >= 2 && p[0] == a && p.last() == b && #[trigger] self.is_module_path(p);
            let q = p.push(c);
            assert forall|k: int| 0 <= k < q.len() - 1 implies self.uses_module(#[trigger] q[k], q[k + 1]) by {
                if k < p.len() - 1 {
                    assert(q[k] == p[k] && q[k + 1] == p[k + 1]);
                    assert(self.uses_module(p[k], p[k + 1]));
                }
            }
            assert(self.is_module_path(q));
        }
    }

    /// A set of modules that holds `a` and every module used by one of its members holds
    /// every module that `a` depends on.
    pub proof fn lemma_closed_holds_dependencies(&self, a: int, set: Set<int>, b: int)
        requires
            set.contains(a),
            forall|x: int, y: int| set.contains(x) && #[trigger] self.uses_module(x, y) ==> set.contains(y),
            self.depends_on(a, b),
        ensures
            set.contains(b),
    {
        if a != b {
            let p = choose|p: Seq<int>|
                p.len() >= 2 && p[0] == a && p.last() == b && #[trigger] self.is_module_path(p);
            self.lemma_closed_holds_module_path(set, p, p.len() - 1);
        }
    }

    proof fn lemma_closed_holds_module_path(&self, set: Set<int>, p: Seq<int>, k: int)
        requires
            p.len() >= 1,
            set.contains(p[0]),
            forall|x: int, y: int| set.contains(x) && #[trigger] self.uses_module(x, y) ==> set.contains(y),
            self.is_module_path(p),
            0 <= k < p.len(),
        ensures
            set.contains(p[k]),
        decreases k,
    {
        if k > 0 {
            self.lemma_closed_holds_module_path(set, p, k - 1);
            assert(self.uses_module(p[k - 1], p[k]));
        }
    }

    /// Gets the number of modules in this environment.
    pub fn get_module_count(&self) -> (r: usize)
        ensures
            r == self.module_data@.len(),
    {
        self.module_data.len()
    }

    /// Return the module with the given id.
    pub fn get_module(&self, id: ModuleId) -> (r: ModuleEnv<'_>)
        requires
            self.wf(),
            id@ < self.module_data@.len(),
        ensures
            r.env() == self,
            r.index() == id@,
    {
        ModuleEnv { env: self, idx: id.to_usize() }
    }

    /// The position of the function `fun` in the environment, if it is there.
    fn find_function(&self, fun: &QualifiedId<FunId>) -> (r: Option<usize>)
        ensures
            r matches Some(i) ==> i < self.function_data@.len() && fun_key(
                self.function_data@[i as int],
            ) == *fun,
            r is None ==> !self.has_function(*fun),
    {
        let n = self.function_data.len();
        let mut i: usize = 0;
        while i < n
            invariant
                n == self.function_data@.len(),
                i <= n,
                forall|j: int| 0 <= j < i ==> fun_key(#[trigger] self.function_data@[j]) != *fun,
            decreases n - i,
        {
            let f = &self.function_data[i];
            if f.module_id == fun.module_id && f.id == fun.id {
                return Some(i);
            }
            i = i + 1;
        }
        None
    }

    /// Return the function of the qualified id `fun`, which must be a function of the
    /// environment.
    pub fn get_function_qid(&self, fun: QualifiedId<FunId>) -> (r: FunctionEnv<'_>)
        requires
            self.wf(),
            self.has_function(fun),
        ensures
            r.env() == self,
            r.index() < self.function_data@.len(),
            fun_key(r.data()) == fun,
    {
        self.get_function(fun)
    }

    /// Return the function `fun`, which must be a function of the environment.
    pub fn get_function(&self, fun: QualifiedId<FunId>) -> (r: FunctionEnv<'_>)
        requires
            self.wf(),
            self.has_function(fun),
        ensures
            r.env() == self,
            r.index() < self.function_data@.len(),
            fun_key(r.data()) == fun,
    {
        match self.find_function(&fun) {
            Some(i) => {
                let m = self.function_data[i].module_id;
                FunctionEnv { module_env: ModuleEnv { env: self, idx: m.to_usize() }, idx: i }
            },
            None => {
                proof {
                    assert(false);
                }
                FunctionEnv { module_env: ModuleEnv { env: self, idx: 0 }, idx: 0 }
            },
        }
    }

    /// `set` holds every function that `start` or a function of `set` calls.
    pub open spec fn closed_under_calls(
        &self,
        start: QualifiedId<FunId>,
        set: Seq<QualifiedId<FunId>>,
    ) -> bool {
        &&& forall|b: QualifiedId<FunId>| #[trigger] self.calls(start, b) ==> set.contains(b)
        &&& forall|x: QualifiedId<FunId>, b: QualifiedId<FunId>|
            set.contains(x) && #[trigger] self.calls(x, b) ==> set.contains(b)
    }

    /// A set of functions that is closed under calls holds every function reached from
    /// `start`.
    pub proof fn lemma_closed_holds_reached(
        &self,
        start: QualifiedId<FunId>,
        set: Seq<QualifiedId<FunId>>,
        x: QualifiedId<FunId>,
    )
        requires
            self.closed_under_calls(start, set),
            self.reaches(start, x),
        ensures
            set.contains(x),
    {
        let p = choose|p: Seq<QualifiedId<FunId>>|
            p.len() >= 2 && p[0] == start && p.last() == x && #[trigger] self.is_call_path(p);
        self.lemma_closed_holds_path(start, set, p, p.len() - 1);
    }

    proof fn lemma_closed_holds_path(
        &self,
        start: QualifiedId<FunId>,
        set: Seq<QualifiedId<FunId>>,
        p: Seq<QualifiedId<FunId>>,
        k: int,
    )
        requires
            self.closed_under_calls(start, set),
            p.len() >= 2,
            p[0] == start,
            self.is_call_path(p),
            1 <= k < p.len(),
        ensures
            set.contains(p[k]),
        decreases k,
    {
        assert(self.calls(p[k - 1], p[k]));
        if k > 1 {
            self.lemma_closed_holds_path(start, set, p, k - 1);
        }
    }

    /// A sequence without duplicates of functions of the environment is no longer than the
    /// sequence of all functions.
    pub proof fn lemma_functions_bound(&self, s: Seq<QualifiedId<FunId>>)
        requires
            s.no_duplicates(),
            forall|i: int| 0 <= i < s.len() ==> self.has_function(#[trigger] s[i]),
        ensures
            s.len() <= self.function_data@.len(),
    {
        let keys = self.function_data@.map_values(|f: FunctionData| fun_key(f));
        assert forall|q: QualifiedId<FunId>| s.to_set().contains(q) implies keys.to_set().contains(
            q,
        ) by {
            let i = choose|i: int| 0 <= i < s.len() && s[i] == q;
            assert(self.has_function(s[i]));
            let j = choose|j: int|
                0 <= j < self.function_data@.len() && fun_key(#[trigger] self.function_data@[j])
                    == q;
            assert(keys[j] == q);
        }
        s.unique_seq_to_set();
        keys.lemma_cardinality_of_set();
        vstd::set_lib::lemma_len_subset(s.to_set(), keys.to_set());
    }

    /// The functions reached from `start` by one call or more, each once.
    fn called_closure(&self, start: QualifiedId<FunId>) -> (r: Vec<QualifiedId<FunId>>)
        requires
            self.wf(),
            self.has_function(start),
        ensures
            r@.no_duplicates(),
            forall|x: QualifiedId<FunId>| r@.contains(x) <==> self.reaches(start, x),
    {
        let mut set: Vec<QualifiedId<FunId>> = Vec::new();
        let mut queue: Vec<QualifiedId<FunId>> = Vec::new();
        queue.push(start);
        let mut head: usize = 0;
        let total = self.function_data.len();
        while head < queue.len()
            invariant
                self.wf(),
                total == self.function_data@.len(),
                queue@ == seq![start] + set@,
                set@.no_duplicates(),
                set@.len() <= total,
                head <= queue@.len(),
                forall|k: int| 0 <= k < queue@.len() ==> self.has_function(#[trigger] queue@[k]),
                forall|x: QualifiedId<FunId>| set@.contains(x) ==> self.reaches(start, x),
                forall|k: int, b: QualifiedId<FunId>|
                    0 <= k < head && #[trigger] self.calls(queue@[k], b) ==> set@.contains(b),
            decreases total + 1 - head,
        {
            let cur = queue[head];
            proof {
                assert(self.has_function(queue@[head as int]));
                assert(head == 0 ==> cur == start);
                assert(head > 0 ==> cur == set@[head - 1]);
            }
            let fi = match self.find_function(&cur) {
                Some(i) => i,
                None => {
                    proof {
                        assert(false);
                    }
                    0
                },
            };
            let called = &self.function_data[fi].called_funs;
            let n = called.len();
            let mut j: usize = 0;
            while j < n
                invariant
                    self.wf(),
                    total == self.function_data@.len(),
                    fi < total,
                    fun_key(self.function_data@[fi as int]) == cur,
                    *called == self.function_data@[fi as int].called_funs,
                    n == called@.len(),
                    j <= n,
                    head < queue@.len(),
                    queue@[head as int] == cur,
                    head == 0 ==> cur == start,
                    head > 0 ==> set@.contains(cur),
                    queue@ == seq![start] + set@,
                    set@.no_duplicates(),
                    set@.len() <= total,
                    forall|k: int|
                        0 <= k < queue@.len() ==> self.has_function(#[trigger] queue@[k]),
                    forall|x: QualifiedId<FunId>| set@.contains(x) ==> self.reaches(start, x),
                    forall|k: int, b: QualifiedId<FunId>|
                        0 <= k < head && #[trigger] self.calls(queue@[k], b) ==> set@.contains(b),
                    forall|jj: int| 0 <= jj < j ==> set@.contains(#[trigger] called@[jj]),
                decreases n - j,
            {
                let c = called[j];
                let ghost set_before = set@;
                if !contains_qid(&set, &c) {
                    proof {
                        assert(self.has_function(called@[j as int]));
                        assert(self.calls(cur, c));
                        if head == 0 {
                            let p = seq![start, c];
                            assert(self.is_call_path(p));
                        } else {
                            let p = choose|p: Seq<QualifiedId<FunId>>|
                                p.len() >= 2 && p[0] == start && p.last() == cur
                                    && #[trigger] self.is_call_path(p);
                            let q = p.push(c);
                            assert forall|k: int| 0 <= k < q.len() - 1 implies self.calls(
                                #[trigger] q[k],
                                q[k + 1],
                            ) by {
                                if k < p.len() - 1 {
                                    assert(q[k] == p[k] && q[k + 1] == p[k + 1]);
                                    assert(self.calls(p[k], p[k + 1]));
                                }
                            }
                            assert(self.is_call_path(q));
                            assert(q[0] == start && q.last() == c);
                        }
                        assert(self.reaches(start, c));
                        let s2 = set@.push(c);
                        assert forall|i: int| 0 <= i < s2.len() implies self.has_function(
                            #[trigger] s2[i],
                        ) by {
                            if i < set@.len() {
                                assert(queue@[i + 1] == set@[i]);
                            }
                        }
                        assert(s2.no_duplicates());
                        self.lemma_functions_bound(s2);
                    }
                    let ghost old_set = set@;
                    set.push(c);
                    queue.push(c);
                    proof {
                        assert(queue@ =~= seq![start] + set@);
                        assert forall|x: QualifiedId<FunId>| old_set.contains(x) implies set@.contains(
                            x,
                        ) by {
                            let m = choose|m: int| 0 <= m < old_set.len() && old_set[m] == x;
                            assert(set@[m] == x);
                        }
                        assert(set@[set@.len() - 1] == c);
                    }
                }
                proof {
                    assert(set@.contains(c));
                    assert forall|jj: int| 0 <= jj < j + 1 implies set@.contains(
                        #[trigger] called@[jj],
                    ) by {
                        if jj < j {
                            assert(set_before.contains(called@[jj]));
                            let m = choose|m: int|
                                0 <= m < set_before.len() && set_before[m] == called@[jj];
                            assert(set@[m] == called@[jj]);
                        }
                    }
                }
                j = j + 1;
            }
            proof {
                assert forall|k: int, b: QualifiedId<FunId>|
                    0 <= k < head + 1 && #[trigger] self.calls(queue@[k], b) implies set@.contains(
                    b,
                ) by {
                    if k == head {
                        let i = choose|i: int|
                            0 <= i < self.function_data@.len() && fun_key(
                                #[trigger] self.function_data@[i],
                            ) == cur && self.function_data@[i].called_funs@.contains(b);
                        assert(i == fi);
                        let jj = choose|jj: int| 0 <= jj < called@.len() && called@[jj] == b;
                        assert(set@.contains(called@[jj]));
                    }
                }
            }
            head = head + 1;
        }
        proof {
            assert forall|b: QualifiedId<FunId>| #[trigger] self.calls(start, b) implies set@.contains(
                b,
            ) by {
                assert(queue@[0] == start);
                assert(self.calls(queue@[0], b));
            }
            assert forall|x: QualifiedId<FunId>, b: QualifiedId<FunId>|
                set@.contains(x) && #[trigger] self.calls(x, b) implies set@.contains(b) by {
                let m = choose|m: int| 0 <= m < set@.len() && set@[m] == x;
                assert(queue@[m + 1] == x);
                assert(self.calls(queue@[m + 1], b));
            }
            assert forall|x: QualifiedId<FunId>| self.reaches(start, x) implies set@.contains(x) by {
                self.lemma_closed_holds_reached(start, set@, x);
            }
        }
        set
    }

    /// The modules of the environment, in their order.
    pub fn get_modules(&self) -> (r: Vec<ModuleEnv<'_>>)
        requires
            self.wf(),
        ensures
            r@.len() == self.module_data@.len(),
            forall|i: int|
                0 <= i < r@.len() ==> (#[trigger] r@[i]).env() == self && r@[i].index() == i,
    {
        let mut r: Vec<ModuleEnv<'_>> = Vec::new();
        let n = self.module_data.len();
        let mut i: usize = 0;
        while i < n
            invariant
                self.wf(),
                n == self.module_data@.len(),
                i <= n,
                r@.len() == i,
                forall|j: int|
                    0 <= j < i ==> (#[trigger] r@[j]).env() == self && r@[j].index() == j,
            decreases n - i,
        {
            r.push(ModuleEnv { env: self, idx: i });
            i = i + 1;
        }
        r
    }

    /// The target modules of the environment, in their order.
    pub fn get_target_modules(&self) -> (r: Vec<ModuleEnv<'_>>)
        requires
            self.wf(),
        ensures
            forall|k: int| 0 <= k < r@.len() ==> (#[trigger] r@[k]).env() == self,
            module_indices(r@) == target_indices(self.files@, self.module_data@),
    {
        let mut r: Vec<ModuleEnv<'_>> = Vec::new();
        let n = self.module_data.len();
        let mut i: usize = 0;
        while i < n
            invariant
                self.wf(),
                n == self.module_data@.len(),
                i <= n,
                forall|k: int| 0 <= k < r@.len() ==> (#[trigger] r@[k]).env() == self,
                module_indices(r@) == target_indices(self.files@, self.module_data@.take(i as int)),
            decreases n - i,
        {
            let ghost before = r@;
            let m = ModuleEnv { env: self, idx: i };
            proof {
                assert(self.module_data@.take(i + 1).drop_last() =~= self.module_data@.take(
                    i as int,
                ));
            }
            if m.is_target() {
                r.push(m);
                proof {
                    assert(module_indices(r@) =~= module_indices(before).push(i as int));
                }
            } else {
                proof {
                    assert(!self.is_target_data(self.module_data@[i as int]));
                }
            }
            i = i + 1;
        }
        proof {
            assert(self.module_data@.take(n as int) =~= self.module_data@);
        }
        r
    }
}

/// The positions of the modules that `ms` refers to.
pub open spec fn module_indices(ms: Seq<ModuleEnv<'_>>) -> Seq<int> {
    ms.map_values(|m: ModuleEnv<'_>| m.index() as int)
}

/// The positions of the target modules among `ms`, in increasing order.
pub open spec fn target_indices(files: Seq<SourceFile>, ms: Seq<ModuleData>) -> Seq<int>
    decreases ms.len(),
{
    if ms.len() == 0 {
        Seq::empty()
    } else {
        let rest = target_indices(files, ms.drop_last());
        if !(ms.last().loc@.file < files.len() && files[ms.last().loc@.file as int].is_dep) {
            rest.push(ms.len() - 1)
        } else {
            rest
        }
    }
}

/// A reference to a module of the environment.
pub struct ModuleEnv<'env> {
    pub(crate) env: &'env GlobalEnv,
    pub(crate) idx: usize,
}

impl<'env> ModuleEnv<'env> {
    #[verifier::type_invariant]
    pub(crate) open spec fn valid(self) -> bool {
        self.env.wf() && self.idx < self.env.module_data@.len()
    }

    /// The environment of this module.
    pub open(crate) spec fn env(self) -> &'env GlobalEnv {
        self.env
    }

    /// The position of this module in the environment.
    pub open(crate) spec fn index(self) -> nat {
        self.idx as nat
    }

    /// The data of this module.
    pub open spec fn data(self) -> ModuleData {
        self.env().module_data@[self.index() as int]
    }

    /// Returns the id of this module in the global env.
    pub fn get_id(&self) -> (r: ModuleId)
        ensures
            r == self.data().id,
            r@ == self.index(),
    {
        proof {
            use_type_invariant(self);
        }
        self.env.module_data[self.idx].id
    }

    /// Returns full name as a string.
    pub fn get_full_name_str(&self) -> (r: String)
        ensures
            r@ == self.data().full_name@,
    {
        proof {
            use_type_invariant(self);
        }
        self.env.module_data[self.idx].full_name.clone()
    }

    /// The name of this module without its address, as a string.
    pub open spec fn name_str(self) -> Seq<char> {
        self.env().symbol_pool@[self.data().name@ as int]
    }

    /// Returns the name of this module without its address.
    pub fn get_name(&self) -> (r: Symbol)
        ensures
            r == self.data().name,
    {
        proof {
            use_type_invariant(self);
        }
        self.env.module_data[self.idx].name
    }

    /// Returns the name of this module without its address, as a string.
    pub fn get_name_str(&self) -> (r: String)
        ensures
            r@ == self.name_str(),
    {
        proof {
            use_type_invariant(self);
        }
        self.env.symbol_pool.string(self.env.module_data[self.idx].name)
    }

    /// Returns true if either the full name or simple name of this module matches the given
    /// string.
    pub fn matches_name(&self, name: &str) -> (r: bool)
        ensures
            r == (self.data().full_name@ == name@ || self.name_str() == name@),
    {
        let n = String::from_str(name);
        self.get_full_name_str() == n || self.get_name_str() == n
    }

    /// Returns the location of this module.
    pub fn get_loc(&self) -> (r: Loc)
        ensures
            r@ == self.data().loc@,
    {
        proof {
            use_type_invariant(self);
        }
        self.env.module_data[self.idx].loc.duplicate()
    }

    /// Returns the number of functions of this module.
    pub fn get_function_count(&self) -> (r: usize)
        ensures
            r == count_in_module(self.env().function_data@, self.index()),
    {
        proof {
            use_type_invariant(self);
        }
        let fs = &self.env.function_data;
        let n = fs.len();
        let mut count: usize = 0;
        let mut i: usize = 0;
        while i < n
            invariant
                n == fs@.len(),
                i <= n,
                count == count_in_module(fs@.take(i as int), self.index()),
                count <= i,
            decreases n - i,
        {
            proof {
                assert(fs@.take(i + 1).drop_last() =~= fs@.take(i as int));
            }
            if fs[i].module_id.to_usize() == self.idx {
                count = count + 1;
            }
            i = i + 1;
        }
        proof {
            assert(fs@.take(n as int) =~= fs@);
        }
        count
    }

    /// Finds the function of this module with the given name.
    pub fn find_function(&self, name: Symbol) -> (r: Option<FunctionEnv<'env>>)
        ensures
            r matches Some(f) ==> f.env() == self.env() && f.index()
                < self.env().function_data@.len() && f.data().module_id@ == self.index()
                && f.data().id@ == name,
            r is None ==> forall|j: int|
                0 <= j < self.env().function_data@.len() ==> !((
                #[trigger] self.env().function_data@[j]).module_id@ == self.index()
                    && self.env().function_data@[j].id@ == name),
    {
        proof {
            use_type_invariant(self);
        }
        let fs = &self.env.function_data;
        let n = fs.len();
        let mut i: usize = 0;
        while i < n
            invariant
                self.env.wf(),
                self.idx < self.env.module_data@.len(),
                *fs == self.env.function_data,
                n == fs@.len(),
                i <= n,
                forall|j: int|
                    0 <= j < i ==> !((#[trigger] fs@[j]).module_id@ == self.index() && fs@[j].id@
                        == name),
            decreases n - i,
        {
            if fs[i].module_id.to_usize() == self.idx && fs[i].id.symbol() == name {
                return Some(FunctionEnv { module_env: ModuleEnv { env: self.env, idx: self.idx }, idx: i });
            }
            i = i + 1;
        }
        None
    }

    /// Returns the functions of this module, in the order of the environment.
    pub fn get_functions(&self) -> (r: Vec<FunctionEnv<'env>>)
        ensures
            forall|k: int|
                0 <= k < r@.len() ==> (#[trigger] r@[k]).env() == self.env() && r@[k].data().module_id@
                    == self.index(),
            forall|k: int, l: int| 0 <= k < l < r@.len() ==> (#[trigger] r@[k]).index() < (#[trigger] r@[l]).index(),
            forall|j: int|
                0 <= j < self.env().function_data@.len() && (#[trigger] self.env().function_data@[j]).module_id@
                    == self.index() ==> exists|k: int| 0 <= k < r@.len() && r@[k].index() == j,
    {
        proof {
            use_type_invariant(self);
        }
        let fs = &self.env.function_data;
        let n = fs.len();
        let mut r: Vec<FunctionEnv<'env>> = Vec::new();
        let mut i: usize = 0;
        while i < n
            invariant
                self.env.wf(),
                self.idx < self.env.module_data@.len(),
                *fs == self.env.function_data,
                n == fs@.len(),
                i <= n,
                forall|k: int|
                    0 <= k < r@.len() ==> (#[trigger] r@[k]).env() == self.env() && r@[k].data().module_id@
                        == self.index() && r@[k].index() < i,
                forall|k: int, l: int| 0 <= k < l < r@.len() ==> (#[trigger] r@[k]).index() < (#[trigger] r@[l]).index(),
                forall|j: int|
                    0 <= j < i && (#[trigger] fs@[j]).module_id@ == self.index() ==> exists|k: int|
                        0 <= k < r@.len() && r@[k].index() == j,
            decreases n - i,
        {
            if fs[i].module_id.to_usize() == self.idx {
                let f = FunctionEnv { module_env: ModuleEnv { env: self.env, idx: self.idx }, idx: i };
                let ghost old_r = r@;
                r.push(f);
                proof {
                    assert forall|j: int|
                        0 <= j < i + 1 && (#[trigger] fs@[j]).module_id@ == self.index() implies exists|k: int|
                        0 <= k < r@.len() && r@[k].index() == j by {
                        if j < i {
                            let k = choose|k: int| 0 <= k < old_r.len() && old_r[k].index() == j;
                            assert(r@[k] == old_r[k]);
                        } else {
                            assert(r@[r@.len() - 1].index() == j);
                        }
                    }
                }
            }
            i = i + 1;
        }
        r
    }

    /// Gets the function of this module with the given id, which must exist.
    pub fn get_function(&self, id: FunId) -> (r: FunctionEnv<'env>)
        requires
            exists|j: int|
                0 <= j < self.env().function_data@.len() && (
                #[trigger] self.env().function_data@[j]).module_id@ == self.index()
                    && self.env().function_data@[j].id@ == id@,
        ensures
            r.env() == self.env(),
            r.index() < self.env().function_data@.len(),
            r.data().module_id@ == self.index(),
            r.data().id@ == id@,
    {
        match self.find_function(id.symbol()) {
            Some(f) => f,
            None => {
                proof {
                    assert(false);
                }
                proof {
                    use_type_invariant(self);
                }
                FunctionEnv { module_env: ModuleEnv { env: self.env, idx: self.idx }, idx: 0 }
            },
        }
    }

    /// Gets the function of this module with the given id, which must exist, consuming this
    /// module reference.
    pub fn into_function(self, id: FunId) -> (r: FunctionEnv<'env>)
        requires
            exists|j: int|
                0 <= j < self.env().function_data@.len() && (
                #[trigger] self.env().function_data@[j]).module_id@ == self.index()
                    && self.env().function_data@[j].id@ == id@,
        ensures
            r.env() == self.env(),
            r.index() < self.env().function_data@.len(),
            r.data().module_id@ == self.index(),
            r.data().id@ == id@,
    {
        self.get_function(id)
    }

    /// Returns the functions of this module, in the order of the environment, consuming this
    /// module reference.
    pub fn into_functions(self) -> (r: Vec<FunctionEnv<'env>>)
        ensures
            forall|k: int|
                0 <= k < r@.len() ==> (#[trigger] r@[k]).env() == self.env() && r@[k].data().module_id@
                    == self.index(),
            forall|k: int, l: int| 0 <= k < l < r@.len() ==> (#[trigger] r@[k]).index() < (#[trigger] r@[l]).index(),
            forall|j: int|
                0 <= j < self.env().function_data@.len() && (#[trigger] self.env().function_data@[j]).module_id@
                    == self.index() ==> exists|k: int| 0 <= k < r@.len() && r@[k].index() == j,
    {
        self.get_functions()
    }

    /// Returns the set of modules this one declares as friends, each once.
    pub fn get_friend_modules(&self) -> (r: Vec<ModuleId>)
        ensures
            strictly_increasing(r@),
            r@.no_duplicates(),
            forall|m: ModuleId| r@.contains(m) <==> self.data().friend_modules@.contains(m),
    {
        proof {
            use_type_invariant(self);
        }
        let friends = &self.env.module_data[self.idx].friend_modules;
        let n = friends.len();
        let mut r: Vec<ModuleId> = Vec::new();
        let mut i: usize = 0;
        while i < n
            invariant
                *friends == self.data().friend_modules,
                n == friends@.len(),
                i <= n,
                r@.no_duplicates(),
                forall|m: ModuleId| r@.contains(m) <==> friends@.take(i as int).contains(m),
            decreases n - i,
        {
            let m = friends[i];
            let mut found = false;
            let mut k: usize = 0;
            while k < r.len()
                invariant
                    k <= r@.len(),
                    found == r@.take(k as int).contains(m),
                decreases r@.len() - k,
            {
                proof {
                    assert(r@.take(k + 1) =~= r@.take(k as int).push(r@[k as int]));
                    lemma_contains_push(r@.take(k as int), r@[k as int], m);
                }
                if r[k] == m {
                    found = true;
                }
                k = k + 1;
            }
            proof {
                assert(r@.take(r@.len() as int) =~= r@);
                assert(friends@.take(i + 1) =~= friends@.take(i as int).push(m));
                assert forall|x: ModuleId| friends@.take(i + 1).contains(x) <==> (friends@.take(
                    i as int,
                ).contains(x) || m == x) by {
                    lemma_contains_push(friends@.take(i as int), m, x);
                }
            }
            let ghost old_r = r@;
            if !found {
                r.push(m);
                proof {
                    assert forall|x: ModuleId| r@.contains(x) <==> (old_r.contains(x) || m == x) by {
                        lemma_contains_push(old_r, m, x);
                    }
                }
            }
            proof {
                assert(found == old_r.contains(m));
                assert forall|x: ModuleId| r@.contains(x) <==> friends@.take(i + 1).contains(x) by {
                    if !found {
                        assert(r@.contains(x) <==> (old_r.contains(x) || m == x));
                    } else {
                        assert(r@ == old_r);
                    }
                }
            }
            i = i + 1;
        }
        proof {
            assert(friends@.take(n as int) =~= friends@);
        }
        let sorted = sorted_set(&r);
        proof {
            lemma_increasing_no_duplicates(sorted@);
            assert forall|x: ModuleId| sorted@.contains(x) <==> r@.contains(x) by {
                assert(sorted@.to_set().contains(x) == r@.to_set().contains(x));
            }
            assert(sorted@.to_set() =~= r@.to_set());
        }
        sorted
    }

    /// Returns the set of modules this one uses: its used modules other than itself, each once.
    pub fn get_used_modules(&self) -> (r: Vec<ModuleId>)
        ensures
            strictly_increasing(r@),
            r@.no_duplicates(),
            forall|m: ModuleId| r@.contains(m) <==> self.data().used_modules@.contains(m) && m != self.data().id,
    {
        proof {
            use_type_invariant(self);
        }
        let me = self.env.module_data[self.idx].id;
        let used = &self.env.module_data[self.idx].used_modules;
        let n = used.len();
        let mut r: Vec<ModuleId> = Vec::new();
        let mut i: usize = 0;
        while i < n
            invariant
                *used == self.data().used_modules,
                me == self.data().id,
                n == used@.len(),
                i <= n,
                r@.no_duplicates(),
                forall|m: ModuleId| r@.contains(m) <==> used@.take(i as int).contains(m) && m != me,
            decreases n - i,
        {
            let m = used[i];
            let mut found = false;
            let mut k: usize = 0;
            while k < r.len()
                invariant
                    k <= r@.len(),
                    found == r@.take(k as int).contains(m),
                decreases r@.len() - k,
            {
                proof {
                    assert(r@.take(k + 1) =~= r@.take(k as int).push(r@[k as int]));
                    lemma_contains_push(r@.take(k as int), r@[k as int], m);
                }
                if r[k] == m {
                    found = true;
                }
                k = k + 1;
            }
            proof {
                assert(r@.take(r@.len() as int) =~= r@);
                assert(used@.take(i + 1) =~= used@.take(i as int).push(m));
                assert forall|x: ModuleId| used@.take(i + 1).contains(x) <==> (used@.take(
                    i as int,
                ).contains(x) || m == x) by {
                    lemma_contains_push(used@.take(i as int), m, x);
                }
            }
            let ghost old_r = r@;
            if !found && m != me {
                r.push(m);
                proof {
                    assert forall|x: ModuleId| r@.contains(x) <==> (old_r.contains(x) || m == x) by {
                        lemma_contains_push(old_r, m, x);
                    }
                }
            }
            proof {
                assert(found == old_r.contains(m));
                assert forall|x: ModuleId|
                    r@.contains(x) <==> used@.take(i + 1).contains(x) && x != me by {
                    if !found && m != me {
                        assert(r@.contains(x) <==> (old_r.contains(x) || m == x));
                    } else {
                        assert(r@ == old_r);
                    }
                }
            }
            i = i + 1;
        }
        proof {
            assert(used@.take(n as int) =~= used@);
        }
        let sorted = sorted_set(&r);
        proof {
            lemma_increasing_no_duplicates(sorted@);
            assert forall|x: ModuleId| sorted@.contains(x) <==> r@.contains(x) by {
                assert(sorted@.to_set().contains(x) == r@.to_set().contains(x));
            }
            assert(sorted@.to_set() =~= r@.to_set());
        }
        sorted
    }

    /// Returns the set of modules that use this one, in their order.
    pub fn get_using_modules(&self) -> (r: Vec<ModuleId>)
        ensures
            strictly_increasing(r@),
            r@.no_duplicates(),
            forall|m: ModuleId|
                r@.contains(m) <==> m@ < self.env().module_data@.len() && m != self.data().id
                    && self.env().module_data@[m@ as int].used_modules@.contains(self.data().id),
    {
        proof {
            use_type_invariant(self);
        }
        let me = self.env.module_data[self.idx].id;
        let mods = &self.env.module_data;
        let n = mods.len();
        let mut r: Vec<ModuleId> = Vec::new();
        let mut i: usize = 0;
        while i < n
            invariant
                self.env.wf(),
                *mods == self.env.module_data,
                me == self.data().id,
                n == mods@.len(),
                i <= n,
                r@.no_duplicates(),
                forall|k: int| 0 <= k < r@.len() ==> (#[trigger] r@[k])@ < i,
                forall|m: ModuleId|
                    r@.contains(m) <==> m@ < i && m != me && mods@[m@ as int].used_modules@.contains(me),
            decreases n - i,
        {
            let other = mods[i].id;
            let mut uses = false;
            let used = &mods[i].used_modules;
            let mut k: usize = 0;
            while k < used.len()
                invariant
                    k <= used@.len(),
                    uses == used@.take(k as int).contains(me),
                decreases used@.len() - k,
            {
                proof {
                    assert(used@.take(k + 1) =~= used@.take(k as int).push(used@[k as int]));
                    lemma_contains_push(used@.take(k as int), used@[k as int], me);
                }
                if used[k] == me {
                    uses = true;
                }
                k = k + 1;
            }
            proof {
                assert(used@.take(used@.len() as int) =~= used@);
                assert(other@ == i);
            }
            if uses && other != me {
                proof {
                    assert(!r@.contains(other));
                }
                let ghost old_r = r@;
                r.push(other);
                proof {
                    assert forall|m: ModuleId|
                        r@.contains(m) <==> m@ < i + 1 && m != me && mods@[m@ as int].used_modules@.contains(me) by {
                        ModuleId::lemma_view_injective(m, other);
                        if r@.contains(m) && m != other {
                            let k = choose|k: int| 0 <= k < r@.len() && r@[k] == m;
                            assert(old_r[k] == m);
                        }
                        if m == other {
                            assert(r@[r@.len() - 1] == m);
                        }
                        if old_r.contains(m) {
                            let k = choose|k: int| 0 <= k < old_r.len() && old_r[k] == m;
                            assert(r@[k] == m);
                        }
                    }
                }
            } else {
                proof {
                    assert forall|m: ModuleId|
                        r@.contains(m) <==> m@ < i + 1 && m != me && mods@[m@ as int].used_modules@.contains(me) by {
                        ModuleId::lemma_view_injective(m, other);
                    }
                }
            }
            i = i + 1;
        }
        let sorted = sorted_set(&r);
        proof {
            lemma_increasing_no_duplicates(sorted@);
            assert forall|x: ModuleId| sorted@.contains(x) <==> r@.contains(x) by {
                assert(sorted@.to_set().contains(x) == r@.to_set().contains(x));
            }
            assert(sorted@.to_set() =~= r@.to_set());
        }
        sorted
    }

    /// Returns true if the given module is a transitive dependency of this one: this module,
    /// or one that it uses directly or indirectly.
    pub fn is_transitive_dependency(&self, module_id: ModuleId) -> (r: bool)
        ensures
            r == self.env().depends_on(self.index() as int, module_id@ as int),
    {
        proof {
            use_type_invariant(self);
        }
        let my_id = self.get_id();
        proof {
            ModuleId::lemma_view_injective(my_id, module_id);
        }
        if my_id == module_id {
            return true;
        }
        let env = self.env;
        let n = env.module_data.len();
        let mut visited: Vec<bool> = Vec::new();
        let mut i: usize = 0;
        while i < n
            invariant
                i <= n,
                visited@.len() == i,
                forall|x: int| 0 <= x < i ==> !visited@[x],
            decreases n - i,
        {
            visited.push(false);
            i = i + 1;
        }
        let start = self.idx;
        visited.set(start, true);
        let mut stack: Vec<usize> = Vec::new();
        stack.push(start);
        let ghost mut vset: Set<int> = set![start as int];
        let ghost mut pops: nat = 0;
        let ghost target = module_id@ as int;
        proof {
            assert(target != start);
            assert(vset.len() == 1);
            assert(stack@[0] == start);
            assert(stack@.contains(start));
            assert forall|x: int| 0 <= x < n implies (visited@[x] <==> vset.contains(x)) by {
                if x == start {
                } else {
                    assert(visited@[x] == false);
                }
            }
        }
        while stack.len() > 0
            invariant
                env == self.env(),
                start == self.index(),
                target == module_id@,
                env.wf(),
                n == env.module_data@.len(),
                start < n,
                target != start,
                visited@.len() == n,
                forall|x: int| 0 <= x < n ==> (visited@[x] <==> vset.contains(x)),
                forall|x: int| vset.contains(x) ==> 0 <= x < n,
                vset.finite(),
                vset.len() <= n,
                stack@.len() + pops == vset.len(),
                vset.contains(start as int),
                forall|x: int| vset.contains(x) ==> env.depends_on(start as int, x),
                forall|x: int| vset.contains(x) ==> x != target,
                forall|k: int| 0 <= k < stack@.len() ==> vset.contains(#[trigger] stack@[k] as int),
                forall|x: int, y: int|
                    vset.contains(x) && !stack@.contains(x as usize) && #[trigger] env.uses_module(x, y)
                        ==> vset.contains(y),
            decreases n - pops,
        {
            let ghost old_stack = stack@;
            let cur = stack.pop().unwrap();
            proof {
                assert(cur == old_stack[old_stack.len() - 1]);
                assert(vset.contains(old_stack[old_stack.len() - 1] as int));
                assert(stack@ =~= old_stack.drop_last());
                assert forall|k: int| 0 <= k < stack@.len() implies vset.contains(#[trigger] stack@[k] as int) by {
                    assert(stack@[k] == old_stack[k]);
                }
                assert forall|x: int| vset.contains(x) && x != cur && !stack@.contains(x as usize) implies !old_stack.contains(x as usize) by {
                    if old_stack.contains(x as usize) {
                        let k = choose|k: int| 0 <= k < old_stack.len() && old_stack[k] == x as usize;
                        if k < old_stack.len() - 1 {
                            assert(stack@[k] == x as usize);
                        }
                    }
                }
                pops = pops + 1;
                lemma_int_range(0, n as int);
                vstd::set_lib::lemma_len_subset(vset, set_int_range(0, n as int));
            }
            let used = &env.module_data[cur].used_modules;
            let m = used.len();
            let mut j: usize = 0;
            while j < m
                invariant
                    env == self.env(),
                    start == self.index(),
                    target == module_id@,
                    env.wf(),
                    n == env.module_data@.len(),
                    cur < n,
                    *used == env.module_data@[cur as int].used_modules,
                    m == used@.len(),
                    j <= m,
                    start < n,
                    target != start,
                    visited@.len() == n,
                    forall|x: int| 0 <= x < n ==> (visited@[x] <==> vset.contains(x)),
                    forall|x: int| vset.contains(x) ==> 0 <= x < n,
                    vset.finite(),
                    vset.len() <= n,
                    stack@.len() + pops == vset.len(),
                    vset.contains(cur as int),
                    vset.contains(start as int),
                    forall|x: int| vset.contains(x) ==> env.depends_on(start as int, x),
                    forall|x: int| vset.contains(x) ==> x != target,
                    forall|k: int| 0 <= k < stack@.len() ==> vset.contains(#[trigger] stack@[k] as int),
                    forall|x: int, y: int|
                        vset.contains(x) && x != cur && !stack@.contains(x as usize)
                            && #[trigger] env.uses_module(x, y) ==> vset.contains(y),
                    forall|k: int| 0 <= k < j ==> vset.contains((#[trigger] used@[k])@ as int),
                decreases m - j,
            {
                let dep = used[j];
                proof {
                    assert(env.uses_module(cur as int, dep@ as int));
                    env.lemma_depends_on_step(start as int, cur as int, dep@ as int);
                }
                if dep == module_id {
                    return true;
                }
                let d = dep.to_usize();
                proof {
                    ModuleId::lemma_view_injective(dep, module_id);
                }
                if !visited[d] {
                    proof {
                        lemma_int_range(0, n as int);
                        vstd::set_lib::lemma_len_subset(vset.insert(d as int), set_int_range(0, n as int));
                    }
                    visited.set(d, true);
                    let ghost old_stack = stack@;
                    stack.push(d);
                    proof {
                        assert(d as int != target);
                        assert(env.depends_on(start as int, d as int));
                        assert(!vset.contains(d as int));
                        assert(vset.insert(d as int).len() == vset.len() + 1);
                        let ghost old_vset = vset;
                        vset = vset.insert(d as int);
                        assert forall|k: int| 0 <= k < stack@.len() implies vset.contains(#[trigger] stack@[k] as int) by {
                            if k < old_stack.len() {
                                assert(stack@[k] == old_stack[k]);
                            }
                        }
                        assert forall|x: int| vset.contains(x) && x != cur && !stack@.contains(x as usize) implies !old_stack.contains(x as usize) by {
                            if old_stack.contains(x as usize) {
                                let k = choose|k: int| 0 <= k < old_stack.len() && old_stack[k] == x as usize;
                                assert(stack@[k] == x as usize);
                            }
                        }
                        assert(stack@[stack@.len() - 1] == d);
                        assert forall|x: int, y: int|
                            vset.contains(x) && x != cur && !stack@.contains(x as usize)
                                && #[trigger] env.uses_module(x, y) implies vset.contains(y) by {
                            assert(x != d as int);
                            assert(old_vset.contains(x));
                            assert(!old_stack.contains(x as usize));
                            assert(old_vset.contains(y));
                        }
                    }
                }
                j = j + 1;
            }
            proof {
                assert forall|x: int, y: int|
                    vset.contains(x) && !stack@.contains(x as usize) && #[trigger] env.uses_module(x, y)
                        implies vset.contains(y) by {
                    if x == cur {
                        let k = choose|k: int|
                            0 <= k < env.module_data@[x].used_modules@.len()
                                && (#[trigger] env.module_data@[x].used_modules@[k])@ == y;
                        assert(vset.contains((used@[k])@ as int));
                    }
                }
            }
        }
        proof {
            assert forall|x: int, y: int| vset.contains(x) && #[trigger] env.uses_module(x, y) implies vset.contains(y) by {
                assert(!stack@.contains(x as usize));
            }
            if env.depends_on(start as int, target) {
                env.lemma_closed_holds_dependencies(start as int, vset, target);
            }
        }
        false
    }

    /// Returns true if this is a module representing a script.
    pub fn is_script_module(&self) -> (r: bool)
        ensures
            r == self.data().is_script,
    {
        proof {
            use_type_invariant(self);
        }
        self.env.module_data[self.idx].is_script
    }

    /// Returns true of this module is target of compilation. A non-target module is
    /// a dependency only but not explicitly requested to process.
    pub fn is_target(&self) -> (r: bool)
        ensures
            r == self.env().is_target_data(self.data()),
    {
        proof {
            use_type_invariant(self);
        }
        let f = self.env.module_data[self.idx].loc.file_id();
        !self.env.file_is_dep(f)
    }

    /// The address of this module.
    pub fn get_address(&self) -> (r: Address)
        ensures
            r@ == self.data().address@,
    {
        proof {
            use_type_invariant(self);
        }
        self.env.module_data[self.idx].address.duplicate()
    }

    /// Whether the simple name of this module is `module_name`.
    fn match_module_name(&self, module_name: &str) -> (r: bool)
        ensures
            r == (self.name_str() == module_name@),
    {
        self.get_name_str() == String::from_str(module_name)
    }

    /// This module is the module `module_name` of the standard library.
    pub open spec fn spec_in_std(self, module_name: Seq<char>) -> bool {
        self.data().address@ == self.env().stdlib_value() && self.name_str() == module_name
    }

    /// This module is the module `module_name` of the extension libraries.
    pub open spec fn spec_in_ext(self, module_name: Seq<char>) -> bool {
        self.data().address@ == self.env().extlib_value() && self.name_str() == module_name
    }

    /// Whether this is the module `module_name` of the standard library.
    fn is_module_in_std(&self, module_name: &str) -> (r: bool)
        ensures
            r == self.spec_in_std(module_name@),
    {
        proof {
            use_type_invariant(self);
        }
        self.get_address().same(&self.env.get_stdlib_address()) && self.match_module_name(
            module_name,
        )
    }

    /// Whether this is the module `module_name` of the extension libraries.
    fn is_module_in_ext(&self, module_name: &str) -> (r: bool)
        ensures
            r == self.spec_in_ext(module_name@),
    {
        proof {
            use_type_invariant(self);
        }
        self.get_address().same(&self.env.get_extlib_address()) && self.match_module_name(
            module_name,
        )
    }

    /// Whether this is the vector module of the standard library.
    pub fn is_std_vector(&self) -> (r: bool)
        ensures
            r == self.spec_in_std("vector"@),
    {
        self.is_module_in_std("vector")
    }

    /// Whether this is a table module of the standard or extension libraries.
    pub fn is_table(&self) -> (r: bool)
        ensures
            r == (self.spec_in_std("table"@) || self.spec_in_std("table_with_length"@)
                || self.spec_in_ext("table"@) || self.spec_in_ext("table_with_length"@)),
    {
        self.is_module_in_std("table") || self.is_module_in_std("table_with_length")
            || self.is_module_in_ext("table") || self.is_module_in_ext("table_with_length")
    }
}

/// A reference to a function of the environment.
pub struct FunctionEnv<'env> {
    /// Reference to enclosing module.
    module_env: ModuleEnv<'env>,
    idx: usize,
}

impl<'env> FunctionEnv<'env> {
    #[verifier::type_invariant]
    spec fn valid(self) -> bool {
        &&& self.module_env.env.wf()
        &&& self.idx < self.module_env.env.function_data@.len()
        &&& self.module_env.idx == self.module_env.env.function_data@[self.idx as int].module_id@
    }

    /// The environment of this function.
    pub closed spec fn env(self) -> &'env GlobalEnv {
        self.module_env.env
    }

    /// The position of this function in the environment.
    pub closed spec fn index(self) -> nat {
        self.idx as nat
    }

    /// The enclosing module.
    pub closed spec fn module(self) -> ModuleEnv<'env> {
        self.module_env
    }

    /// The data of this function.
    pub open spec fn data(self) -> FunctionData {
        self.env().function_data@[self.index() as int]
    }

    /// The data of the module of this function.
    pub open spec fn module_data(self) -> ModuleData {
        self.env().module_data@[self.data().module_id@ as int]
    }

    /// Shortcut for accessing the symbol pool.
    pub fn symbol_pool(&self) -> (r: &'env SymbolPool)
        ensures
            *r == self.env().symbol_pool,
    {
        &self.module_env.env.symbol_pool
    }

    /// The data of this function.
    pub(crate) fn fun_data(&self) -> (r: &'env FunctionData)
        ensures
            *r == self.data(),
            self.env().wf(),
            self.index() < self.env().function_data@.len(),
    {
        proof {
            use_type_invariant(self);
        }
        &self.module_env.env.function_data[self.idx]
    }

    /// Returns the location of this function.
    pub fn get_loc(&self) -> (r: Loc)
        ensures
            r@ == self.data().loc@,
    {
        proof {
            use_type_invariant(self);
        }
        self.module_env.env.function_data[self.idx].loc.duplicate()
    }

    /// Returns the enclosing module.
    pub fn module_env(&self) -> (r: &ModuleEnv<'env>)
        ensures
            *r == self.module(),
            r.env() == self.env(),
            r.index() == self.data().module_id@,
    {
        proof {
            use_type_invariant(self);
        }
        &self.module_env
    }

    /// Returns the name of this function.
    pub fn get_name(&self) -> (r: Symbol)
        ensures
            r == self.data().id@,
    {
        proof {
            use_type_invariant(self);
        }
        self.module_env.env.function_data[self.idx].id.symbol()
    }

    /// Gets the id of this function.
    pub fn get_id(&self) -> (r: FunId)
        ensures
            r == self.data().id,
    {
        proof {
            use_type_invariant(self);
        }
        self.module_env.env.function_data[self.idx].id
    }

    /// Gets the qualified id of this function.
    pub fn get_qualified_id(&self) -> (r: QualifiedId<FunId>)
        ensures
            r == fun_key(self.data()),
    {
        proof {
            use_type_invariant(self);
        }
        let f = &self.module_env.env.function_data[self.idx];
        f.module_id.qualified(f.id)
    }

    /// The name of this function as a string.
    pub open spec fn name_str(self) -> Seq<char> {
        self.env().symbol_pool@[self.data().id@@ as int]
    }

    /// The name of the module of this function, without its address.
    pub open spec fn module_name_str(self) -> Seq<char> {
        self.env().symbol_pool@[self.module_data().name@ as int]
    }

    /// The name of this function with the name of its module, without the address.
    pub open spec fn name_string(self) -> Seq<char> {
        if self.module_data().is_script {
            "Script::"@ + self.name_str()
        } else {
            self.module_name_str() + "::"@ + self.name_str()
        }
    }

    /// Returns the function name excluding the address and the module name.
    pub fn get_name_str(&self) -> (r: String)
        ensures
            r@ == self.name_str(),
    {
        proof {
            use_type_invariant(self);
        }
        let sym = self.get_name();
        self.module_env.env.symbol_pool.string(sym)
    }

    /// Gets full name as string: the name of the module and the name of the function.
    pub fn get_full_name_str(&self) -> (r: String)
        ensures
            r@ == self.module_name_str() + "::"@ + self.name_str(),
    {
        proof {
            use_type_invariant(self);
        }
        let r = self.module_env.get_name_str().concat("::");
        r.concat(self.get_name_str().as_str())
    }

    /// Returns the function name with the module name excluding the address.
    pub fn get_name_string(&self) -> (r: String)
        ensures
            r@ == self.name_string(),
    {
        proof {
            use_type_invariant(self);
        }
        if self.module_env.is_script_module() {
            String::from_str("Script::").concat(self.get_name_str().as_str())
        } else {
            self.get_full_name_str()
        }
    }

    /// Returns true if either the name or simple name of this function matches the given
    /// string.
    pub fn matches_name(&self, name: &str) -> (r: bool)
        ensures
            r == (name@ == self.name_str() || name@ == self.name_string()),
    {
        let n = String::from_str(name);
        n == self.get_name_str() || n == self.get_name_string()
    }

    /// Returns true if this function is native.
    pub fn is_native(&self) -> (r: bool)
        ensures
            r == self.data().is_native,
    {
        proof {
            use_type_invariant(self);
        }
        self.module_env.env.function_data[self.idx].is_native
    }

    /// Whether this is a function that the prover treats as intrinsic.
    pub fn is_intrinsic(&self) -> (r: bool)
        ensures
            r == self.env().opt_qids(intrinsic_funs()).contains(fun_key(self.data())),
    {
        proof {
            use_type_invariant(self);
        }
        let ids = self.module_env.env.intrinsic_fun_ids();
        contains_qid(&ids, &self.get_qualified_id())
    }

    /// Whether this is the well-known native or intrinsic function of the full name `name`,
    /// in the standard or the extension libraries.
    pub fn is_well_known(&self, name: &str) -> (r: bool)
        ensures
            r == ((self.data().is_native || self.env().opt_qids(intrinsic_funs()).contains(
                fun_key(self.data()),
            )) && (self.module_data().address@ == self.env().stdlib_value()
                || self.module_data().address@ == self.env().extlib_value())
                && self.module_name_str() + "::"@ + self.name_str() == name@),
    {
        proof {
            use_type_invariant(self);
        }
        if !self.is_native() && !self.is_intrinsic() {
            return false;
        }
        let env = self.module_env.env;
        let addr = self.module_env.get_address();
        (addr.same(&env.get_stdlib_address()) || addr.same(&env.get_extlib_address()))
            && self.get_full_name_str() == String::from_str(name)
    }

    /// Return the visibility of this function.
    pub fn visibility(&self) -> (r: Visibility)
        ensures
            r == self.data().visibility,
    {
        proof {
            use_type_invariant(self);
        }
        self.module_env.env.function_data[self.idx].visibility
    }

    /// Return true if the function is an entry function.
    pub fn is_entry(&self) -> (r: bool)
        ensures
            r == self.data().is_entry,
    {
        proof {
            use_type_invariant(self);
        }
        self.module_env.env.function_data[self.idx].is_entry
    }

    /// Return the visibility string for this function. Useful for formatted printing.
    pub fn visibility_str(&self) -> (r: &str)
        ensures
            self.data().visibility == Visibility::Public ==> r@ == "public "@,
            self.data().visibility == Visibility::Friend ==> r@ == "public(friend) "@,
            self.data().visibility == Visibility::Private ==> r@ == ""@,
    {
        match self.visibility() {
            Visibility::Public => "public ",
            Visibility::Friend => "public(friend) ",
            Visibility::Private => "",
        }
    }

    /// Whether the function is exposed outside of its module.
    pub open spec fn spec_is_exposed(self) -> bool {
        self.module_data().is_script || self.data().is_entry || self.data().visibility
            != Visibility::Private
    }

    /// Return whether this function is exposed outside of the module.
    pub fn is_exposed(&self) -> (r: bool)
        ensures
            r == self.spec_is_exposed(),
    {
        proof {
            use_type_invariant(self);
        }
        self.module_env.is_script_module() || self.is_entry() || match self.visibility() {
            Visibility::Public | Visibility::Friend => true,
            Visibility::Private => false,
        }
    }

    /// Return whether this function can be called from code that is not known.
    pub fn has_unknown_callers(&self) -> (r: bool)
        ensures
            r == (self.module_data().is_script || self.data().is_entry || self.data().visibility
                == Visibility::Public),
    {
        proof {
            use_type_invariant(self);
        }
        self.module_env.is_script_module() || self.is_entry() || match self.visibility() {
            Visibility::Public => true,
            Visibility::Private | Visibility::Friend => false,
        }
    }

    /// Returns true if the function is a script function.
    pub fn is_script(&self) -> (r: bool)
        ensures
            r == (self.module_data().is_script || self.data().is_entry),
    {
        proof {
            use_type_invariant(self);
        }
        self.module_env.is_script_module() || self.is_entry()
    }

    /// Return true if this function is a friend function.
    pub fn is_friend(&self) -> (r: bool)
        ensures
            r == (self.data().visibility == Visibility::Friend),
    {
        self.visibility() == Visibility::Friend
    }

    /// Returns the number of parameters.
    pub fn get_parameter_count(&self) -> (r: usize)
        ensures
            r == self.data().parameters@.len(),
    {
        proof {
            use_type_invariant(self);
        }
        self.module_env.env.function_data[self.idx].parameters.len()
    }

    /// Return `true` if idx is a formal parameter index.
    pub fn is_parameter(&self, idx: usize) -> (r: bool)
        ensures
            r == (idx < self.data().parameters@.len()),
    {
        idx < self.get_parameter_count()
    }

    /// The types of the parameters.
    pub open spec fn parameter_types(self) -> Seq<TypeView> {
        self.data().parameters@.map_values(|p: Parameter| p.1@)
    }

    /// Returns the parameter types associated with this function.
    pub fn get_parameter_types(&self) -> (r: Vec<Type>)
        ensures
            r@.len() == self.data().parameters@.len(),
            forall|i: int| 0 <= i < r@.len() ==> (#[trigger] r@[i])@ == self.parameter_types()[i],
    {
        proof {
            use_type_invariant(self);
        }
        let params = &self.module_env.env.function_data[self.idx].parameters;
        let mut r: Vec<Type> = Vec::new();
        let n = params.len();
        let mut i: usize = 0;
        while i < n
            invariant
                n == params@.len(),
                *params == self.data().parameters,
                i <= n,
                r@.len() == i,
                forall|j: int| 0 <= j < i ==> (#[trigger] r@[j])@ == self.parameter_types()[j],
            decreases n - i,
        {
            r.push(params[i].1.duplicate());
            i = i + 1;
        }
        r
    }

    /// Returns the parameters of this function: their names and types.
    pub fn get_parameters(&self) -> (r: Vec<Parameter>)
        ensures
            r@.len() == self.data().parameters@.len(),
            forall|i: int|
                0 <= i < r@.len() ==> (#[trigger] r@[i]).0 == self.data().parameters@[i].0
                    && r@[i].1@ == self.data().parameters@[i].1@,
    {
        proof {
            use_type_invariant(self);
        }
        let params = &self.module_env.env.function_data[self.idx].parameters;
        let mut r: Vec<Parameter> = Vec::new();
        let n = params.len();
        let mut i: usize = 0;
        while i < n
            invariant
                n == params@.len(),
                *params == self.data().parameters,
                i <= n,
                r@.len() == i,
                forall|j: int|
                    0 <= j < i ==> (#[trigger] r@[j]).0 == params@[j].0 && r@[j].1@ == params@[j].1@,
            decreases n - i,
        {
            r.push(Parameter(params[i].0, params[i].1.duplicate()));
            i = i + 1;
        }
        r
    }

    /// Returns true if this function mutates any references (i.e. has &mut parameters).
    pub fn is_mutating(&self) -> (r: bool)
        ensures
            r == exists|i: int|
                0 <= i < self.data().parameters@.len() && is_mut_ref(
                    #[trigger] self.parameter_types()[i],
                ),
    {
        proof {
            use_type_invariant(self);
        }
        let params = &self.module_env.env.function_data[self.idx].parameters;
        let n = params.len();
        let mut i: usize = 0;
        while i < n
            invariant
                n == params@.len(),
                *params == self.data().parameters,
                i <= n,
                forall|j: int| 0 <= j < i ==> !is_mut_ref(#[trigger] self.parameter_types()[j]),
            decreases n - i,
        {
            if params[i].1.is_mutable_reference() {
                proof {
                    assert(self.parameter_types()[i as int] == params@[i as int].1@);
                }
                return true;
            }
            i = i + 1;
        }
        false
    }

    /// Return true if this is a named parameter of this function.
    pub fn is_named_parameter(&self, name: &str) -> (r: bool)
        ensures
            r == exists|i: int|
                0 <= i < self.data().parameters@.len() && self.env().symbol_pool@[(
                #[trigger] self.data().parameters@[i]).0@ as int] == name@,
    {
        proof {
            use_type_invariant(self);
        }
        let key = String::from_str(name);
        let params = &self.module_env.env.function_data[self.idx].parameters;
        let pool = &self.module_env.env.symbol_pool;
        proof {
            assert forall|j: int| 0 <= j < params@.len() implies pool.has(
                (#[trigger] params@[j]).0,
            ) by {
                assert(self.env().function_data@[self.index() as int].parameters@[j] == params@[j]);
            }
        }
        let n = params.len();
        let mut i: usize = 0;
        while i < n
            invariant
                n == params@.len(),
                *params == self.data().parameters,
                *pool == self.env().symbol_pool,
                key@ == name@,
                forall|j: int| 0 <= j < n ==> pool.has((#[trigger] params@[j]).0),
                i <= n,
                forall|j: int| 0 <= j < i ==> pool@[(#[trigger] params@[j]).0@ as int] != name@,
            decreases n - i,
        {
            if pool.string(params[i].0) == key {
                return true;
            }
            i = i + 1;
        }
        false
    }

    /// Whether the function is a target of verification under `scope`.
    pub open spec fn spec_should_verify(self, scope: VerificationScope) -> bool {
        match scope {
            VerificationScope::Only(name) => name@ == self.name_str() || name@
                == self.name_string(),
            _ => self.env().is_target_data(self.module_data()) && match scope {
                VerificationScope::Public => self.spec_is_exposed(),
                VerificationScope::All => true,
                VerificationScope::OnlyModule(m) => self.module_data().full_name@ == m@
                    || self.module_name_str() == m@,
                _ => false,
            },
        }
    }

    /// Determine whether the function is target of verification.
    pub fn should_verify(&self, default_scope: &VerificationScope) -> (r: bool)
        ensures
            r == self.spec_should_verify(*default_scope),
    {
        proof {
            use_type_invariant(self);
        }
        if let VerificationScope::Only(function_name) = default_scope {
            // Overrides pragmas.
            return self.matches_name(function_name.as_str());
        }
        if !self.module_env.is_target() {
            // Don't generate verify method for functions from dependencies.
            return false;
        }
        match default_scope {
            VerificationScope::Public => self.is_exposed(),
            VerificationScope::All => true,
            VerificationScope::Only(_) => false,
            VerificationScope::OnlyModule(module_name) => self.module_env.matches_name(
                module_name.as_str(),
            ),
            VerificationScope::Nothing => false,
        }
    }

    /// Every function verified under `Public`, or under `OnlyModule`, is verified under `All`,
    /// none is verified under `Nothing`, and a function of a module that is not a target is
    /// verified only under `Only`.
    pub proof fn lemma_should_verify_scopes(self, module_name: String, scope: VerificationScope)
        ensures
            self.spec_should_verify(VerificationScope::Public) ==> self.spec_should_verify(
                VerificationScope::All,
            ),
            self.spec_should_verify(VerificationScope::OnlyModule(module_name))
                ==> self.spec_should_verify(VerificationScope::All),
            !self.spec_should_verify(VerificationScope::Nothing),
            !self.env().is_target_data(self.module_data()) && !(scope is Only)
                ==> !self.spec_should_verify(scope),
    {
    }

    /// Which functions each scope verifies. Under `Only(name)`, the function named `name`, by
    /// its simple or its full name, wherever it is. Under the other scopes only functions of
    /// target modules: under `Public` those exposed outside their module, that is those of a
    /// script, entry functions, and public and public(friend) functions, but no private one;
    /// under `All` every one; under `OnlyModule(m)` those of the module named `m`, by its full
    /// or its simple name; under `Nothing` none.
    pub proof fn lemma_should_verify_by_scope(self, name: String, module_name: String)
        ensures
            self.spec_should_verify(VerificationScope::Public) == (self.env().is_target_data(
                self.module_data(),
            ) && (self.module_data().is_script || self.data().is_entry || self.data().visibility
                == Visibility::Public || self.data().visibility == Visibility::Friend)),
            self.spec_should_verify(VerificationScope::All) == self.env().is_target_data(
                self.module_data(),
            ),
            self.spec_should_verify(VerificationScope::OnlyModule(module_name)) == (
            self.env().is_target_data(self.module_data()) && (self.module_data().full_name@
                == module_name@ || self.module_name_str() == module_name@)),
            !self.spec_should_verify(VerificationScope::Nothing),
            self.spec_should_verify(VerificationScope::Only(name)) == (name@ == self.name_str()
                || name@ == self.name_string()),
            self.spec_is_exposed() == (self.module_data().is_script || self.data().is_entry
                || self.data().visibility == Visibility::Public || self.data().visibility
                == Visibility::Friend),
    {
    }

    /// Determine whether this function is explicitly deactivated for verification.
    pub fn is_explicitly_not_verified(&self, scope: &VerificationScope) -> (r: bool)
        ensures
            r == (scope is Only && !self.spec_should_verify(*scope)),
    {
        if let VerificationScope::Only(function_name) = scope {
            // Overrides pragmas.
            !self.matches_name(function_name.as_str())
        } else {
            false
        }
    }

    /// Get the transitive closure of the called functions: the functions reached from this one
    /// by one call or more.
    pub fn get_transitive_closure_of_called_functions(&self) -> (r: Vec<QualifiedId<FunId>>)
        ensures
            r@.no_duplicates(),
            strictly_increasing(r@),
            forall|x: QualifiedId<FunId>|
                r@.contains(x) <==> self.env().reaches(fun_key(self.data()), x),
    {
        proof {
            use_type_invariant(self);
            assert(self.env().has_function(fun_key(self.data())));
        }
        let q = self.get_qualified_id();
        let reached = self.module_env.env.called_closure(q);
        let r = sorted_set(&reached);
        proof {
            lemma_increasing_no_duplicates(r@);
            assert forall|x: QualifiedId<FunId>| r@.contains(x) <==> reached@.contains(x) by {
                assert(r@.to_set().contains(x) == reached@.to_set().contains(x));
            }
        }
        r
    }

    /// Get the functions that call this one.
    pub fn get_calling_functions(&self) -> (r: Vec<QualifiedId<FunId>>)
        ensures
            r@.no_duplicates(),
            strictly_increasing(r@),
            forall|x: QualifiedId<FunId>|
                r@.contains(x) <==> self.env().calls(x, fun_key(self.data())),
    {
        proof {
            use_type_invariant(self);
        }
        let me = self.get_qualified_id();
        let env = self.module_env.env;
        let mut r: Vec<QualifiedId<FunId>> = Vec::new();
        let n = env.function_data.len();
        let mut i: usize = 0;
        while i < n
            invariant
                env.wf(),
                n == env.function_data@.len(),
                i <= n,
                r@.no_duplicates(),
                forall|x: QualifiedId<FunId>|
                    r@.contains(x) <==> exists|k: int|
                        0 <= k < i && fun_key(#[trigger] env.function_data@[k]) == x
                            && env.function_data@[k].called_funs@.contains(me),
            decreases n - i,
        {
            let f = &env.function_data[i];
            if contains_qid(&f.called_funs, &me) {
                let q = f.module_id.qualified(f.id);
                proof {
                    assert(!r@.contains(q)) by {
                        if r@.contains(q) {
                            let k = choose|k: int|
                                0 <= k < i && fun_key(#[trigger] env.function_data@[k]) == q
                                    && env.function_data@[k].called_funs@.contains(me);
                            assert(fun_key(env.function_data@[k]) == fun_key(
                                env.function_data@[i as int],
                            ));
                        }
                    }
                    assert forall|x: QualifiedId<FunId>|
                        r@.push(q).contains(x) <==> exists|k: int|
                            0 <= k < i + 1 && fun_key(#[trigger] env.function_data@[k]) == x
                                && env.function_data@[k].called_funs@.contains(me) by {
                        if r@.push(q).contains(x) && x != q {
                            let m = choose|m: int| 0 <= m < r@.push(q).len() && r@.push(q)[m] == x;
                            assert(m < r@.len());
                            assert(r@[m] == x);
                            assert(r@.contains(x));
                        }
                        if x == q {
                            assert(fun_key(env.function_data@[i as int]) == x);
                        }
                        if exists|k: int|
                            0 <= k < i + 1 && fun_key(#[trigger] env.function_data@[k]) == x
                                && env.function_data@[k].called_funs@.contains(me) {
                            let k = choose|k: int|
                                0 <= k < i + 1 && fun_key(#[trigger] env.function_data@[k]) == x
                                    && env.function_data@[k].called_funs@.contains(me);
                            if k < i {
                                assert(r@.contains(x));
                                let m = choose|m: int| 0 <= m < r@.len() && r@[m] == x;
                                assert(r@.push(q)[m] == x);
                            } else {
                                assert(r@.push(q)[r@.len() as int] == q);
                            }
                        }
                        if x == q {
                            assert(r@.push(q)[r@.len() as int] == q);
                        }
                    }
                }
                r.push(q);
            } else {
                proof {
                    assert forall|x: QualifiedId<FunId>|
                        r@.contains(x) <==> exists|k: int|
                            0 <= k < i + 1 && fun_key(#[trigger] env.function_data@[k]) == x
                                && env.function_data@[k].called_funs@.contains(me) by {
                        if exists|k: int|
                            0 <= k < i + 1 && fun_key(#[trigger] env.function_data@[k]) == x
                                && env.function_data@[k].called_funs@.contains(me) {
                            let k = choose|k: int|
                                0 <= k < i + 1 && fun_key(#[trigger] env.function_data@[k]) == x
                                    && env.function_data@[k].called_funs@.contains(me);
                            assert(k != i);
                        }
                    }
                }
            }
            i = i + 1;
        }
        let sorted = sorted_set(&r);
        proof {
            lemma_increasing_no_duplicates(sorted@);
            assert forall|x: QualifiedId<FunId>| sorted@.contains(x) <==> r@.contains(x) by {
                assert(sorted@.to_set().contains(x) == r@.to_set().contains(x));
            }
        }
        sorted
    }

    /// Get the functions that this one calls.
    pub fn get_called_functions(&self) -> (r: Vec<QualifiedId<FunId>>)
        ensures
            strictly_increasing(r@),
            r@.to_set() == self.data().called_funs@.to_set(),
    {
        proof {
            use_type_invariant(self);
        }
        sorted_set(&self.module_env.env.function_data[self.idx].called_funs)
    }
}

/// Global ids handed out one after another are numbered on from the counter where the first
/// one was handed out, in the order in which they were handed out: from a new or cleaned-up
/// environment, where the counter is 0, the id handed out `k`-th (from 0) is `k`. So no two of
/// them are equal, and two consecutive ones are consecutive numbers.
pub proof fn lemma_global_ids_numbered(envs: Seq<GlobalEnv>, ids: Seq<GlobalId>)
    requires
        envs.len() == ids.len() + 1,
        forall|i: int|
            #![trigger ids[i]]
            0 <= i < ids.len() ==> envs[i].hands_out_global_id(ids[i], envs[i + 1]),
    ensures
        forall|i: int| 0 <= i < ids.len() ==> #[trigger] ids[i]@ == envs[0].global_id_counter + i,
        forall|i: int, j: int| 0 <= i < j < ids.len() ==> ids[i] != ids[j],
{
    lemma_global_id_counters(envs, ids, ids.len());
    assert forall|i: int| 0 <= i < ids.len() implies #[trigger] ids[i]@ == envs[0].global_id_counter
        + i by {
        assert(envs[i].hands_out_global_id(ids[i], envs[i + 1]));
    }
    assert forall|i: int, j: int| 0 <= i < j < ids.len() implies ids[i] != ids[j] by {
        assert(ids[i]@ == envs[0].global_id_counter + i);
        assert(ids[j]@ == envs[0].global_id_counter + j);
    }
}

/// After `n` ids were handed out, the counter is `n` above where it started.
proof fn lemma_global_id_counters(envs: Seq<GlobalEnv>, ids: Seq<GlobalId>, n: nat)
    requires
        envs.len() == ids.len() + 1,
        n <= ids.len(),
        forall|i: int|
            #![trigger ids[i]]
            0 <= i < ids.len() ==> envs[i].hands_out_global_id(ids[i], envs[i + 1]),
    ensures
        forall|i: int|
            0 <= i <= n ==> #[trigger] envs[i].global_id_counter == envs[0].global_id_counter + i,
    decreases n,
{
    if n > 0 {
        lemma_global_id_counters(envs, ids, (n - 1) as nat);
        assert(envs[n - 1].hands_out_global_id(ids[n - 1], envs[n - 1 + 1]));
    }
}

} // verus!
