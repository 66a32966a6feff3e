//! Structs of the modules of the environment: their names, locations, fields, and the
//! queries on them.

use vstd::prelude::*;

use crate::env::{GlobalEnv, ModuleData, ModuleEnv};
use crate::loc::{Loc, LocView, enclosing_span, loc_encloses, span_encloses};
use crate::model::{DatatypeId, FieldId, ModuleId, QualifiedId};
use crate::symbol::{Symbol, SymbolPool};
use crate::enums::VariantEnv;
use crate::sorted_set::{lemma_increasing_no_duplicates, sorted_set, strictly_increasing};
use crate::ty::{Type, TypeView};

verus! {

/// The data of a field of a struct.
pub struct FieldData {
    /// The name of the field.
    pub name: Symbol,
    /// The position of the field in the struct.
    pub offset: usize,
    /// The type of the field.
    pub ty: Type,
}

/// The data of a struct.
pub struct StructData {
    /// The module that declares the struct.
    pub module_id: ModuleId,
    /// The name of the struct.
    pub name: Symbol,
    /// The location of the struct.
    pub loc: Loc,
    /// Whether the struct is native.
    pub is_native: bool,
    /// Whether the struct has the `key` ability.
    pub has_key: bool,
    /// The fields of the struct.
    pub fields: Vec<FieldData>,
}

/// The offsets of the fields `fs` number them from 0: they are distinct and below the number
/// of fields.
pub open spec fn offsets_numbered(fs: Seq<FieldData>) -> bool {
    &&& forall|a: int| 0 <= a < fs.len() ==> (#[trigger] fs[a]).offset < fs.len()
    &&& forall|a: int, b: int|
        0 <= a < fs.len() && 0 <= b < fs.len() && a != b ==> (#[trigger] fs[a]).offset != (
        #[trigger] fs[b]).offset
}

/// The position of the field named `name` among `fields`, if there is one.
pub(crate) fn find_field_index(fields: &Vec<FieldData>, name: Symbol) -> (r: Option<usize>)
    ensures
        r matches Some(a) ==> a < fields@.len() && fields@[a as int].name == name,
        r is None ==> forall|a: int| 0 <= a < fields@.len() ==> (#[trigger] fields@[a]).name != name,
{
    let n = fields.len();
    let mut a: usize = 0;
    while a < n
        invariant
            n == fields@.len(),
            a <= n,
            forall|b: int| 0 <= b < a ==> (#[trigger] fields@[b]).name != name,
        decreases n - a,
    {
        if fields[a].name == name {
            return Some(a);
        }
        a = a + 1;
    }
    None
}

/// Every offset below the number of fields is the offset of a field.
proof fn lemma_offsets_cover(fs: Seq<FieldData>, offset: int)
    requires
        offsets_numbered(fs),
        0 <= offset < fs.len(),
    ensures
        exists|a: int| 0 <= a < fs.len() && (#[trigger] fs[a]).offset == offset,
{
    let m = fs.map_values(|f: FieldData| f.offset as int);
    assert forall|a: int, b: int| 0 <= a < m.len() && 0 <= b < m.len() && a != b implies m[a]
        != m[b] by {
        assert(fs[a].offset != fs[b].offset);
    }
    assert forall|a: int| 0 <= a < m.len() implies 0 <= #[trigger] m[a] < m.len() by {
        assert(fs[a].offset < fs.len());
    }
    lemma_distinct_below_cover(m, fs.len() as int, offset);
    let a = choose|a: int| 0 <= a < fs.len() && m[a] == offset;
    assert(fs[a].offset == offset);
}

/// The position of the field at `offset` among `fields`.
pub(crate) fn field_index_by_offset(fields: &Vec<FieldData>, offset: usize) -> (r: usize)
    requires
        offsets_numbered(fields@),
        offset < fields@.len(),
    ensures
        r < fields@.len(),
        fields@[r as int].offset == offset,
{
    let n = fields.len();
    let mut a: usize = 0;
    while a < n
        invariant
            n == fields@.len(),
            a <= n,
            forall|b: int| 0 <= b < a ==> (#[trigger] fields@[b]).offset != offset,
        decreases n - a,
    {
        if fields[a].offset == offset {
            return a;
        }
        a = a + 1;
    }
    proof {
        lemma_offsets_cover(fields@, offset as int);
    }
    0
}

/// Positions of fields listed by their offsets list each field: where the `k`-th position
/// holds the field of offset `k`, every field is at some position.
pub(crate) proof fn lemma_listed_by_offset(fs: Seq<FieldData>, idx: Seq<int>, a: int)
    requires
        offsets_numbered(fs),
        idx.len() == fs.len(),
        forall|k: int| 0 <= k < idx.len() ==> 0 <= #[trigger] idx[k] < fs.len() && fs[idx[k]].offset == k,
        0 <= a < fs.len(),
    ensures
        exists|k: int| 0 <= k < idx.len() && idx[k] == a,
{
    let o = fs[a].offset as int;
    let b = idx[o];
    assert(fs[b].offset == o);
    assert(b == a);
}

/// `q` is the qualified id of the struct `s`.
pub open spec fn is_struct_key(s: StructData, q: QualifiedId<DatatypeId>) -> bool {
    q.module_id == s.module_id && q.id@ == s.name
}

impl GlobalEnv {
    /// The structs are consistent: each lives in a module of the environment under a name of
    /// the pool, qualified struct ids are unique, and the fields of a struct have distinct
    /// names of the pool and are numbered from 0 by their offsets.
    pub open spec fn structs_wf(&self) -> bool {
        &&& forall|i: int|
            0 <= i < self.struct_data@.len() ==> (#[trigger] self.struct_data@[i]).module_id@
                < self.module_data@.len()
        &&& forall|i: int|
            0 <= i < self.struct_data@.len() ==> self.symbol_pool.has(
                (#[trigger] self.struct_data@[i]).name,
            )
        &&& forall|i: int, j: int|
            0 <= i < self.struct_data@.len() && 0 <= j < self.struct_data@.len() && i != j
                ==> !((#[trigger] self.struct_data@[i]).module_id
                == (#[trigger] self.struct_data@[j]).module_id && self.struct_data@[i].name
                == self.struct_data@[j].name)
        &&& forall|i: int|
            0 <= i < self.struct_data@.len() ==> self.fields_wf(
                (#[trigger] self.struct_data@[i]).fields@,
            )
    }

    /// The fields `fs` have distinct names of the pool and are numbered from 0 by their
    /// offsets.
    pub open spec fn fields_wf(&self, fs: Seq<FieldData>) -> bool {
        &&& forall|a: int| 0 <= a < fs.len() ==> self.symbol_pool.has((#[trigger] fs[a]).name)
        &&& offsets_numbered(fs)
        &&& forall|a: int, b: int|
            0 <= a < fs.len() && 0 <= b < fs.len() && a != b ==> (#[trigger] fs[a]).name != (
            #[trigger] fs[b]).name
    }

    /// `q` is the qualified id of a struct of the environment.
    pub open spec fn has_struct(&self, q: QualifiedId<DatatypeId>) -> bool {
        exists|i: int|
            0 <= i < self.struct_data@.len() && is_struct_key(#[trigger] self.struct_data@[i], q)
    }

    /// Return the total number of declared structs in the modules of the environment.
    pub fn get_declared_struct_count(&self) -> (r: usize)
        ensures
            r == self.struct_data@.len(),
    {
        self.struct_data.len()
    }

    /// The position of the struct with the qualified id `q`, if there is one.
    pub(crate) fn find_struct_position(&self, q: &QualifiedId<DatatypeId>) -> (r: Option<usize>)
        ensures
            r matches Some(i) ==> i < self.struct_data@.len() && is_struct_key(
                self.struct_data@[i as int],
                *q,
            ),
            r is None ==> !self.has_struct(*q),
    {
        let n = self.struct_data.len();
        let mut i: usize = 0;
        while i < n
            invariant
                n == self.struct_data@.len(),
                i <= n,
                forall|j: int| 0 <= j < i ==> !is_struct_key(#[trigger] self.struct_data@[j], *q),
            decreases n - i,
        {
            let s = &self.struct_data[i];
            proof {
                ModuleId::lemma_view_injective(s.module_id, q.module_id);
            }
            if s.module_id.to_usize() == q.module_id.to_usize() && s.name == q.id.symbol() {
                return Some(i);
            }
            i = i + 1;
        }
        None
    }

    /// Returns the struct of the qualified id `q`, which must exist.
    pub fn get_struct(&self, q: QualifiedId<DatatypeId>) -> (r: StructEnv<'_>)
        requires
            self.wf(),
            self.has_struct(q),
        ensures
            r.env() == self,
            r.index() < self.struct_data@.len(),
            is_struct_key(r.data(), q),
    {
        match self.find_struct_position(&q) {
            Some(i) => {
                let m = self.struct_data[i].module_id;
                StructEnv { module_env: ModuleEnv { env: self, idx: m.to_usize() }, idx: i }
            },
            None => {
                proof {
                    assert(false);
                }
                StructEnv { module_env: ModuleEnv { env: self, idx: 0 }, idx: 0 }
            },
        }
    }

    /// Returns the struct of the qualified id `q`, which must exist.
    pub fn get_struct_qid(&self, q: QualifiedId<DatatypeId>) -> (r: StructEnv<'_>)
        requires
            self.wf(),
            self.has_struct(q),
        ensures
            r.env() == self,
            r.index() < self.struct_data@.len(),
            is_struct_key(r.data(), q),
    {
        self.get_struct(q)
    }

    /// Returns the struct enclosing `loc`: the first struct of the enclosing module whose
    /// span encloses the span of `loc`.
    pub fn get_enclosing_struct(&self, loc: &Loc) -> (r: Option<StructEnv<'_>>)
        requires
            self.wf(),
        ensures
            r matches Some(s) ==> s.env() == self && s.index() < self.struct_data@.len()
                && self.encloses_struct(s.index() as int, loc@),
            r is None ==> forall|i: int|
                0 <= i < self.struct_data@.len() ==> !#[trigger] self.encloses_struct(i, loc@),
    {
        let m = match self.get_enclosing_module(loc) {
            Some(m) => m,
            None => {
                return None;
            },
        };
        let mi = m.get_id();
        proof {
            let k = m.index() as int;
            assert(self.module_data@[k].id@ == k);
            assert(self.first_enclosing_module(k, loc@));
            assert forall|j: int|
                0 <= j < self.struct_data@.len() && #[trigger] self.encloses_struct(j, loc@)
                    implies self.struct_data@[j].module_id@ == mi@ by {
                let a = self.struct_data@[j].module_id@ as int;
                if a < k {
                    assert(!loc_encloses(self.module_data@[a].loc@, loc@));
                }
                if k < a {
                    assert(!loc_encloses(self.module_data@[k].loc@, loc@));
                }
            }
        }
        let n = self.struct_data.len();
        let mut i: usize = 0;
        while i < n
            invariant
                self.wf(),
                n == self.struct_data@.len(),
                i <= n,
                mi@ < self.module_data@.len(),
                self.first_enclosing_module(mi@ as int, loc@),
                forall|j: int|
                    0 <= j < self.struct_data@.len() ==> (#[trigger] self.encloses_struct(j, loc@)
                    ==> self.struct_data@[j].module_id@ == mi@),
                forall|j: int| 0 <= j < i ==> !#[trigger] self.encloses_struct(j, loc@),
            decreases n - i,
        {
            let s = &self.struct_data[i];
            proof {
                ModuleId::lemma_view_injective(s.module_id, mi);
            }
            if s.module_id == mi && enclosing_span(s.loc.span(), loc.span()) {
                return Some(StructEnv { module_env: ModuleEnv { env: self, idx: mi.to_usize() }, idx: i });
            }
            i = i + 1;
        }
        None
    }

    /// The module at position `i` is the first one whose location encloses `loc`.
    pub open spec fn first_enclosing_module(&self, i: int, loc: LocView) -> bool {
        &&& 0 <= i < self.module_data@.len()
        &&& loc_encloses(self.module_data@[i].loc@, loc)
        &&& forall|j: int|
            0 <= j < i ==> !loc_encloses((#[trigger] self.module_data@[j]).loc@, loc)
    }

    /// The struct at position `i` lies in the first module that encloses `loc`, and its span
    /// encloses the span of `loc`.
    pub open spec fn encloses_struct(&self, i: int, loc: LocView) -> bool {
        &&& self.first_enclosing_module(self.struct_data@[i].module_id@ as int, loc)
        &&& span_encloses(
            (self.struct_data@[i].loc@.start, self.struct_data@[i].loc@.end),
            (loc.start, loc.end),
        )
    }
}

/// A struct is identified by its qualified id: two structs of a well-formed environment
/// with the same qualified id are the same, so looking a struct up by its qualified id gives
/// it back.
pub proof fn lemma_struct_key_identifies(env: GlobalEnv, i: int, j: int, q: QualifiedId<DatatypeId>)
    requires
        env.wf(),
        0 <= i < env.struct_data@.len(),
        0 <= j < env.struct_data@.len(),
        is_struct_key(env.struct_data@[i], q),
        is_struct_key(env.struct_data@[j], q),
    ensures
        i == j,
{
    Symbol::lemma_view_injective(env.struct_data@[i].name, env.struct_data@[j].name);
}

/// The positions of the structs of `sd` that the module `m` declares, in increasing order.
pub open spec fn struct_positions(sd: Seq<StructData>, m: nat) -> Seq<int>
    decreases sd.len(),
{
    if sd.len() == 0 {
        Seq::empty()
    } else {
        let rest = struct_positions(sd.drop_last(), m);
        if sd.last().module_id@ == m {
            rest.push(sd.len() - 1)
        } else {
            rest
        }
    }
}

/// The positions of the structs of `sd` with the `key` ability that the module `m` declares,
/// in increasing order.
pub open spec fn object_positions(sd: Seq<StructData>, m: nat) -> Seq<int>
    decreases sd.len(),
{
    if sd.len() == 0 {
        Seq::empty()
    } else {
        let rest = object_positions(sd.drop_last(), m);
        if sd.last().module_id@ == m && sd.last().has_key {
            rest.push(sd.len() - 1)
        } else {
            rest
        }
    }
}

/// The structs of the module `m` are listed by their positions, each once, in increasing
/// order: a position is listed exactly when its struct belongs to `m`.
pub proof fn lemma_struct_positions(sd: Seq<StructData>, m: nat)
    ensures
        forall|x: int|
            struct_positions(sd, m).contains(x) <==> 0 <= x < sd.len() && sd[x].module_id@ == m,
        forall|a: int, b: int|
            0 <= a < b < struct_positions(sd, m).len() ==> struct_positions(sd, m)[a]
                < struct_positions(sd, m)[b],
    decreases sd.len(),
{
    if sd.len() > 0 {
        let init = sd.drop_last();
        lemma_struct_positions(init, m);
        let rest = struct_positions(init, m);
        assert forall|x: int|
            struct_positions(sd, m).contains(x) <==> 0 <= x < sd.len() && sd[x].module_id@ == m by {
            if 0 <= x < init.len() {
                assert(init[x] == sd[x]);
            }
            if sd.last().module_id@ == m {
                crate::env::lemma_contains_push(rest, sd.len() - 1, x);
            }
        }
        if sd.last().module_id@ == m {
            let all = rest.push(sd.len() - 1);
            assert forall|a: int, b: int|
                #![trigger all[a], all[b]]
                0 <= a < b < all.len() implies all[a] < all[b] by {
                if b == rest.len() {
                    assert(rest.contains(rest[a]));
                } else {
                    assert(all[a] == rest[a] && all[b] == rest[b]);
                }
            }
        }
    }
}

/// The objects of the module `m` are its structs with the `key` ability, listed by their
/// positions, each once, in increasing order: a position is listed exactly when its struct
/// belongs to `m` and has the `key` ability.
pub proof fn lemma_object_positions(sd: Seq<StructData>, m: nat)
    ensures
        forall|x: int|
            object_positions(sd, m).contains(x) <==> 0 <= x < sd.len() && sd[x].module_id@ == m
                && sd[x].has_key,
        forall|a: int, b: int|
            0 <= a < b < object_positions(sd, m).len() ==> object_positions(sd, m)[a]
                < object_positions(sd, m)[b],
    decreases sd.len(),
{
    if sd.len() > 0 {
        let init = sd.drop_last();
        lemma_object_positions(init, m);
        let rest = object_positions(init, m);
        assert forall|x: int|
            object_positions(sd, m).contains(x) <==> 0 <= x < sd.len() && sd[x].module_id@ == m
                && sd[x].has_key by {
            if 0 <= x < init.len() {
                assert(init[x] == sd[x]);
            }
            if sd.last().module_id@ == m && sd.last().has_key {
                crate::env::lemma_contains_push(rest, sd.len() - 1, x);
            }
        }
        if sd.last().module_id@ == m && sd.last().has_key {
            let all = rest.push(sd.len() - 1);
            assert forall|a: int, b: int|
                #![trigger all[a], all[b]]
                0 <= a < b < all.len() implies all[a] < all[b] by {
                if b == rest.len() {
                    assert(rest.contains(rest[a]));
                } else {
                    assert(all[a] == rest[a] && all[b] == rest[b]);
                }
            }
        }
    }
}

/// The positions of the structs that `ss` refers to.
pub open spec fn struct_indices(ss: Seq<StructEnv<'_>>) -> Seq<int> {
    ss.map_values(|s: StructEnv<'_>| s.index() as int)
}

impl<'env> ModuleEnv<'env> {
    /// Finds the struct of this module with the given name.
    pub fn find_struct(&self, name: Symbol) -> (r: Option<StructEnv<'env>>)
        ensures
            r matches Some(s) ==> s.env() == self.env() && s.index()
                < self.env().struct_data@.len() && s.data().module_id@ == self.index()
                && s.data().name == name,
            r is None ==> forall|j: int|
                0 <= j < self.env().struct_data@.len() ==> !((
                #[trigger] self.env().struct_data@[j]).module_id@ == self.index()
                    && self.env().struct_data@[j].name == name),
    {
        proof {
            use_type_invariant(self);
        }
        let env = self.env;
        let n = env.struct_data.len();
        let mut i: usize = 0;
        while i < n
            invariant
                env == self.env,
                env.wf(),
                self.idx < env.module_data@.len(),
                n == env.struct_data@.len(),
                i <= n,
                forall|j: int|
                    0 <= j < i ==> !((#[trigger] env.struct_data@[j]).module_id@ == self.idx
                        && env.struct_data@[j].name == name),
            decreases n - i,
        {
            let sd = &env.struct_data[i];
            if sd.module_id.to_usize() == self.idx && sd.name == name {
                return Some(StructEnv { module_env: ModuleEnv { env, idx: self.idx }, idx: i });
            }
            i = i + 1;
        }
        None
    }

    /// Gets the struct of this module with the given id, which must exist.
    pub fn get_struct(&self, id: DatatypeId) -> (r: StructEnv<'env>)
        requires
            exists|j: int|
                0 <= j < self.env().struct_data@.len() && (
                #[trigger] self.env().struct_data@[j]).module_id@ == self.index()
                    && self.env().struct_data@[j].name == id@,
        ensures
            r.env() == self.env(),
            r.index() < self.env().struct_data@.len(),
            r.data().module_id@ == self.index(),
            r.data().name == id@,
    {
        match self.find_struct(id.symbol()) {
            Some(s) => s,
            None => {
                proof {
                    assert(false);
                }
                proof {
                    use_type_invariant(self);
                }
                StructEnv { module_env: ModuleEnv { env: self.env, idx: self.idx }, idx: 0 }
            },
        }
    }

    /// The structs of this module, in the order of the environment.
    pub fn get_structs(&self) -> (r: Vec<StructEnv<'env>>)
        ensures
            forall|k: int| 0 <= k < r@.len() ==> (#[trigger] r@[k]).env() == self.env(),
            struct_indices(r@) == struct_positions(self.env().struct_data@, self.index()),
    {
        proof {
            use_type_invariant(self);
        }
        let env = self.env;
        let n = env.struct_data.len();
        let mut r: Vec<StructEnv<'env>> = Vec::new();
        let mut i: usize = 0;
        while i < n
            invariant
                env == self.env,
                env.wf(),
                self.idx < env.module_data@.len(),
                n == env.struct_data@.len(),
                i <= n,
                forall|k: int| 0 <= k < r@.len() ==> (#[trigger] r@[k]).env() == env,
                struct_indices(r@) == struct_positions(env.struct_data@.take(i as int), self.idx as nat),
            decreases n - i,
        {
            let ghost before = r@;
            proof {
                assert(env.struct_data@.take(i + 1).drop_last() =~= env.struct_data@.take(i as int));
            }
            if env.struct_data[i].module_id.to_usize() == self.idx {
                r.push(StructEnv { module_env: ModuleEnv { env, idx: self.idx }, idx: i });
                proof {
                    assert(struct_indices(r@) =~= struct_indices(before).push(i as int));
                }
            }
            i = i + 1;
        }
        proof {
            assert(env.struct_data@.take(n as int) =~= env.struct_data@);
        }
        r
    }

    /// Gets the struct of this module with the given id, which must exist, consuming this
    /// module reference.
    pub fn into_struct(self, id: DatatypeId) -> (r: StructEnv<'env>)
        requires
            exists|j: int|
                0 <= j < self.env().struct_data@.len() && (
                #[trigger] self.env().struct_data@[j]).module_id@ == self.index()
                    && self.env().struct_data@[j].name == id@,
        ensures
            r.env() == self.env(),
            r.index() < self.env().struct_data@.len(),
            r.data().module_id@ == self.index(),
            r.data().name == id@,
    {
        self.get_struct(id)
    }

    /// The structs of this module, in the order of the environment, consuming this module
    /// reference.
    pub fn into_structs(self) -> (r: Vec<StructEnv<'env>>)
        ensures
            forall|k: int| 0 <= k < r@.len() ==> (#[trigger] r@[k]).env() == self.env(),
            struct_indices(r@) == struct_positions(self.env().struct_data@, self.index()),
    {
        self.get_structs()
    }

    /// The object types of this module: its structs with the `key` ability, in the order of
    /// the environment.
    pub fn get_objects(&self) -> (r: Vec<StructEnv<'env>>)
        ensures
            forall|k: int| 0 <= k < r@.len() ==> (#[trigger] r@[k]).env() == self.env(),
            struct_indices(r@) == object_positions(self.env().struct_data@, self.index()),
            forall|k: int|
                0 <= k < r@.len() ==> (#[trigger] r@[k]).data().has_key && r@[k].data().module_id@
                    == self.index(),
            forall|i: int|
                0 <= i < self.env().struct_data@.len() && (
                #[trigger] self.env().struct_data@[i]).module_id@ == self.index()
                    && self.env().struct_data@[i].has_key ==> exists|k: int|
                    0 <= k < r@.len() && r@[k].index() == i,
    {
        proof {
            use_type_invariant(self);
        }
        let env = self.env;
        let n = env.struct_data.len();
        let mut r: Vec<StructEnv<'env>> = Vec::new();
        let mut i: usize = 0;
        while i < n
            invariant
                env == self.env,
                env.wf(),
                self.idx < env.module_data@.len(),
                n == env.struct_data@.len(),
                i <= n,
                forall|k: int| 0 <= k < r@.len() ==> (#[trigger] r@[k]).env() == env,
                struct_indices(r@) == object_positions(env.struct_data@.take(i as int), self.idx as nat),
            decreases n - i,
        {
            let ghost before = r@;
            proof {
                assert(env.struct_data@.take(i + 1).drop_last() =~= env.struct_data@.take(i as int));
            }
            if env.struct_data[i].module_id.to_usize() == self.idx && env.struct_data[i].has_key {
                r.push(StructEnv { module_env: ModuleEnv { env, idx: self.idx }, idx: i });
                proof {
                    assert(struct_indices(r@) =~= struct_indices(before).push(i as int));
                }
            }
            i = i + 1;
        }
        proof {
            assert(env.struct_data@.take(n as int) =~= env.struct_data@);
            let ps = object_positions(env.struct_data@, self.idx as nat);
            lemma_object_positions(env.struct_data@, self.idx as nat);
            assert forall|k: int| 0 <= k < r@.len() implies (#[trigger] r@[k]).data().has_key
                && r@[k].data().module_id@ == self.index() by {
                assert(struct_indices(r@)[k] == r@[k].index());
                assert(ps.contains(ps[k]));
            }
            assert forall|i: int|
                0 <= i < env.struct_data@.len() && (#[trigger] env.struct_data@[i]).module_id@
                    == self.index() && env.struct_data@[i].has_key implies exists|k: int|
                0 <= k < r@.len() && r@[k].index() == i by {
                assert(ps.contains(i));
                let k = choose|k: int| 0 <= k < ps.len() && ps[k] == i;
                assert(struct_indices(r@)[k] == r@[k].index());
            }
        }
        r
    }

    /// Gets the number of structs in this module.
    pub fn get_struct_count(&self) -> (r: usize)
        ensures
            r == struct_positions(self.env().struct_data@, self.index()).len(),
    {
        proof {
            use_type_invariant(self);
        }
        let env = self.env;
        let n = env.struct_data.len();
        let mut count: usize = 0;
        let mut i: usize = 0;
        while i < n
            invariant
                env == self.env,
                n == env.struct_data@.len(),
                i <= n,
                count == struct_positions(env.struct_data@.take(i as int), self.idx as nat).len(),
                count <= i,
            decreases n - i,
        {
            proof {
                assert(env.struct_data@.take(i + 1).drop_last() =~= env.struct_data@.take(i as int));
            }
            if env.struct_data[i].module_id.to_usize() == self.idx {
                count = count + 1;
            }
            i = i + 1;
        }
        proof {
            assert(env.struct_data@.take(n as int) =~= env.struct_data@);
        }
        count
    }
}

impl GlobalEnv {
    /// The module at position `i` is the first one named `module_name` that declares
    /// functions, and the struct at position `j` is the one named `struct_name` in it.
    pub open spec fn struct_witness(
        &self,
        i: int,
        j: int,
        module_name: Seq<char>,
        struct_name: Seq<char>,
    ) -> bool {
        &&& self.first_module(i, module_name)
        &&& 0 <= j < self.struct_data@.len()
        &&& self.struct_data@[j].module_id@ == i
        &&& self.symbol_pool@[self.struct_data@[j].name@ as int] == struct_name
    }

    /// The first module named `module_name` that declares functions declares a struct named
    /// `struct_name`.
    pub open spec fn has_struct_named(&self, module_name: Seq<char>, struct_name: Seq<char>) -> bool {
        exists|i: int, j: int| #[trigger] self.struct_witness(i, j, module_name, struct_name)
    }

    /// `q` is the qualified id of the struct named `struct_name` in the first module named
    /// `module_name` that declares functions.
    pub open spec fn finds_struct(
        &self,
        q: QualifiedId<DatatypeId>,
        module_name: Seq<char>,
        struct_name: Seq<char>,
    ) -> bool {
        exists|i: int, j: int|
            #[trigger] self.struct_witness(i, j, module_name, struct_name) && is_struct_key(
                self.struct_data@[j],
                q,
            )
    }

    /// `q` is the qualified id of one of the structs that the prover treats as intrinsic.
    pub open spec fn is_intrinsic_struct(&self, q: QualifiedId<DatatypeId>) -> bool {
        ||| self.finds_struct(q, GlobalEnv::TABLE_MODULE_NAME@, GlobalEnv::TABLE_STRUCT_NAME@)
        ||| self.finds_struct(
            q,
            GlobalEnv::OBJECT_TABLE_MODULE_NAME@,
            GlobalEnv::OBJECT_TABLE_STRUCT_NAME@,
        )
    }

    /// In a well-formed environment with a pool of distinct strings, a struct found by name
    /// has one qualified id.
    proof fn lemma_finds_struct_unique(
        &self,
        q1: QualifiedId<DatatypeId>,
        q2: QualifiedId<DatatypeId>,
        module_name: Seq<char>,
        struct_name: Seq<char>,
    )
        requires
            self.wf(),
            self.symbol_pool.distinct(),
            self.finds_struct(q1, module_name, struct_name),
            self.finds_struct(q2, module_name, struct_name),
        ensures
            q1 == q2,
    {
        let (i1, j1) = choose|i: int, j: int|
            #[trigger] self.struct_witness(i, j, module_name, struct_name) && is_struct_key(
                self.struct_data@[j],
                q1,
            );
        let (i2, j2) = choose|i: int, j: int|
            #[trigger] self.struct_witness(i, j, module_name, struct_name) && is_struct_key(
                self.struct_data@[j],
                q2,
            );
        assert(i1 == i2) by {
            if i1 < i2 {
                assert(!self.module_named(i1, module_name));
            }
            if i2 < i1 {
                assert(!self.module_named(i2, module_name));
            }
        }
        let s1 = self.struct_data@[j1];
        let s2 = self.struct_data@[j2];
        assert(self.symbol_pool.has(s1.name));
        assert(self.symbol_pool.has(s2.name));
        assert(s1.name@ == s2.name@);
        Symbol::lemma_view_injective(s1.name, s2.name);
        ModuleId::lemma_view_injective(s1.module_id, s2.module_id);
        DatatypeId::lemma_view_injective(q1.id, q2.id);
    }

    /// The qualified id of the struct named `struct_name` in the first module named
    /// `module_name` that declares functions, if there is such a struct.
    pub(crate) fn get_struct_qid_opt(&self, module_name: &str, struct_name: &str) -> (r: Option<
        QualifiedId<DatatypeId>,
    >)
        requires
            self.wf(),
        ensures
            r matches Some(q) ==> self.finds_struct(q, module_name@, struct_name@),
            r is None ==> !self.has_struct_named(module_name@, struct_name@),
    {
        let pool = &self.symbol_pool;
        let msym = match pool.find(module_name) {
            Some(sym) => sym,
            None => {
                proof {
                    assert forall|i: int, j: int|
                        !#[trigger] self.struct_witness(i, j, module_name@, struct_name@) by {
                        if 0 <= i < self.module_data@.len() && self.module_named(i, module_name@) {
                            assert(self.symbol_pool.has(self.module_data@[i].name));
                            assert(self.symbol_pool@.contains(module_name@));
                        }
                    }
                }
                return None;
            },
        };
        proof {
            assert forall|i: int| 0 <= i < self.module_data@.len() implies (self.module_named(
                i,
                module_name@,
            ) <==> ((#[trigger] self.module_data@[i]).name == msym && self.module_has_functions(
                i,
            ))) by {
                assert(self.symbol_pool.has(self.module_data@[i].name));
                Symbol::lemma_view_injective(self.module_data@[i].name, msym);
            }
        }
        let m = match self.find_module_by_name(msym) {
            Some(m) => m,
            None => {
                proof {
                    assert forall|i: int, j: int|
                        !#[trigger] self.struct_witness(i, j, module_name@, struct_name@) by {
                        if 0 <= i < self.module_data@.len() && self.module_named(i, module_name@) {
                            assert(self.module_data@[i].name == msym);
                        }
                    }
                }
                return None;
            },
        };
        let ghost mi = m.index() as int;
        proof {
            assert(self.module_data@[mi] == m.data());
            assert(self.module_named(mi, module_name@));
            assert forall|k: int| 0 <= k < mi implies !#[trigger] self.module_named(
                k,
                module_name@,
            ) by {
                assert(self.module_data@[k] == self.module_data@[k]);
            }
            assert(self.first_module(mi, module_name@));
            assert forall|i: int, j: int| #[trigger] self.struct_witness(
                i,
                j,
                module_name@,
                struct_name@,
            ) implies i == mi by {
                if i < mi {
                    assert(!self.module_named(i, module_name@));
                }
                if mi < i {
                    assert(!self.module_named(mi, module_name@));
                }
            }
        }
        let ssym = match pool.find(struct_name) {
            Some(sym) => sym,
            None => {
                proof {
                    assert forall|i: int, j: int|
                        !#[trigger] self.struct_witness(i, j, module_name@, struct_name@) by {
                        if 0 <= j < self.struct_data@.len() {
                            assert(self.symbol_pool.has(self.struct_data@[j].name));
                            if self.symbol_pool@[self.struct_data@[j].name@ as int] == struct_name@ {
                                assert(self.symbol_pool@.contains(struct_name@));
                            }
                        }
                    }
                }
                return None;
            },
        };
        match m.find_struct(ssym) {
            Some(st) => {
                let q = st.get_qualified_id();
                proof {
                    let j = st.index() as int;
                    assert(self.struct_data@[j] == st.data());
                    assert(self.struct_witness(mi, j, module_name@, struct_name@));
                }
                Some(q)
            },
            None => {
                proof {
                    assert forall|i: int, j: int|
                        !#[trigger] self.struct_witness(i, j, module_name@, struct_name@) by {
                        if self.struct_witness(i, j, module_name@, struct_name@) {
                            assert(i == mi);
                            assert(self.symbol_pool.has(self.struct_data@[j].name));
                            Symbol::lemma_view_injective(self.struct_data@[j].name, ssym);
                        }
                    }
                }
                None
            },
        }
    }

    /// The qualified ids of the structs that the prover treats as intrinsic and that the
    /// environment declares.
    pub fn intrinsic_datatype_ids(&self) -> (r: Vec<QualifiedId<DatatypeId>>)
        requires
            self.wf(),
        ensures
            strictly_increasing(r@),
            forall|q: QualifiedId<DatatypeId>| r@.contains(q) <==> self.is_intrinsic_struct(q),
    {
        proof {
            use_type_invariant(&self.symbol_pool);
        }
        let mut r: Vec<QualifiedId<DatatypeId>> = Vec::new();
        let table = self.table_qid();
        let object_table = self.object_table_qid();
        match table {
            Some(q) => {
                r.push(q);
            },
            None => {},
        }
        match object_table {
            Some(q) => {
                r.push(q);
            },
            None => {},
        }
        proof {
            assert forall|q: QualifiedId<DatatypeId>| r@.contains(q) <==> self.is_intrinsic_struct(
                q,
            ) by {
                if self.finds_struct(q, GlobalEnv::TABLE_MODULE_NAME@, GlobalEnv::TABLE_STRUCT_NAME@) {
                    assert(self.has_struct_named(
                        GlobalEnv::TABLE_MODULE_NAME@,
                        GlobalEnv::TABLE_STRUCT_NAME@,
                    ));
                    let t = table->Some_0;
                    self.lemma_finds_struct_unique(
                        q,
                        t,
                        GlobalEnv::TABLE_MODULE_NAME@,
                        GlobalEnv::TABLE_STRUCT_NAME@,
                    );
                    assert(r@[0] == t);
                }
                if self.finds_struct(
                    q,
                    GlobalEnv::OBJECT_TABLE_MODULE_NAME@,
                    GlobalEnv::OBJECT_TABLE_STRUCT_NAME@,
                ) {
                    assert(self.has_struct_named(
                        GlobalEnv::OBJECT_TABLE_MODULE_NAME@,
                        GlobalEnv::OBJECT_TABLE_STRUCT_NAME@,
                    ));
                    let t = object_table->Some_0;
                    self.lemma_finds_struct_unique(
                        q,
                        t,
                        GlobalEnv::OBJECT_TABLE_MODULE_NAME@,
                        GlobalEnv::OBJECT_TABLE_STRUCT_NAME@,
                    );
                    assert(r@[r@.len() - 1] == t);
                }
            }
        }
        let sorted = sorted_set(&r);
        proof {
            lemma_increasing_no_duplicates(sorted@);
            assert forall|x: QualifiedId<DatatypeId>| sorted@.contains(x) <==> r@.contains(x) by {
                assert(sorted@.to_set().contains(x) == r@.to_set().contains(x));
            }
            assert(sorted@.to_set() =~= r@.to_set());
        }
        sorted
    }
}

impl<'env> StructEnv<'env> {
    /// Determines whether this struct is one that the prover treats as intrinsic.
    pub fn is_intrinsic(&self) -> (r: bool)
        ensures
            forall|q: QualifiedId<DatatypeId>|
                is_struct_key(self.data(), q) ==> (r == self.env().is_intrinsic_struct(q)),
    {
        proof {
            use_type_invariant(self);
        }
        let q = self.get_qualified_id();
        let ids = self.module_env.env.intrinsic_datatype_ids();
        let n = ids.len();
        let mut i: usize = 0;
        let mut found = false;
        while i < n
            invariant
                n == ids@.len(),
                i <= n,
                found == exists|k: int| 0 <= k < i && ids@[k] == q,
            decreases n - i,
        {
            let p = &ids[i];
            proof {
                ModuleId::lemma_view_injective(p.module_id, q.module_id);
                DatatypeId::lemma_view_injective(p.id, q.id);
            }
            if p.module_id == q.module_id && p.id == q.id {
                found = true;
            }
            proof {
                if found {
                    if !(exists|k: int| 0 <= k < i && ids@[k] == q) {
                        assert(ids@[i as int] == q);
                    }
                }
            }
            i = i + 1;
        }
        proof {
            assert forall|p: QualifiedId<DatatypeId>| is_struct_key(self.data(), p) implies p == q by {
                ModuleId::lemma_view_injective(p.module_id, q.module_id);
                DatatypeId::lemma_view_injective(p.id, q.id);
            }
        }
        found
    }
}

/// A reference to a struct of the environment.
pub struct StructEnv<'env> {
    module_env: ModuleEnv<'env>,
    idx: usize,
}

impl<'env> StructEnv<'env> {
    #[verifier::type_invariant]
    spec fn valid(self) -> bool {
        &&& self.module_env.env.wf()
        &&& self.idx < self.module_env.env.struct_data@.len()
        &&& self.module_env.idx == self.module_env.env.struct_data@[self.idx as int].module_id@
    }

    /// The environment of this struct.
    pub closed spec fn env(self) -> &'env GlobalEnv {
        self.module_env.env
    }

    /// The position of this struct in the environment.
    pub closed spec fn index(self) -> nat {
        self.idx as nat
    }

    /// The data of this struct.
    pub open spec fn data(self) -> StructData {
        self.env().struct_data@[self.index() as int]
    }

    /// The data of the module of this struct.
    pub open spec fn module_data(self) -> ModuleData {
        self.env().module_data@[self.data().module_id@ as int]
    }

    /// The name of this struct, as a string.
    pub open spec fn name_str(self) -> Seq<char> {
        self.env().symbol_pool@[self.data().name@ as int]
    }

    /// Returns the name of this struct.
    pub fn get_name(&self) -> (r: Symbol)
        ensures
            r == self.data().name,
    {
        proof {
            use_type_invariant(self);
        }
        self.module_env.env.struct_data[self.idx].name
    }

    /// Gets full name as string: the name of the module and the name of the struct.
    pub fn get_full_name_str(&self) -> (r: String)
        ensures
            r@ == self.env().symbol_pool@[self.module_data().name@ as int] + "::"@
                + self.name_str(),
    {
        proof {
            use_type_invariant(self);
        }
        let pool = &self.module_env.env.symbol_pool;
        let r = self.module_env.get_name_str().concat("::");
        r.concat(pool.string(self.get_name()).as_str())
    }

    /// Gets full name with the address of the module as string.
    pub fn get_full_name_with_address(&self) -> (r: String)
        ensures
            r@ == self.module_data().full_name@ + "::"@ + self.name_str(),
    {
        proof {
            use_type_invariant(self);
        }
        let pool = &self.module_env.env.symbol_pool;
        let r = self.module_env.get_full_name_str().concat("::");
        r.concat(pool.string(self.get_name()).as_str())
    }

    /// Shortcut for accessing the symbol pool.
    pub fn symbol_pool(&self) -> (r: &SymbolPool)
        ensures
            *r == self.env().symbol_pool,
    {
        &self.module_env.env.symbol_pool
    }

    /// Returns the location of this struct.
    pub fn get_loc(&self) -> (r: Loc)
        ensures
            r@ == self.data().loc@,
    {
        proof {
            use_type_invariant(self);
        }
        self.module_env.env.struct_data[self.idx].loc.duplicate()
    }

    /// Gets the id of this struct.
    pub fn get_id(&self) -> (r: DatatypeId)
        ensures
            r@ == self.data().name,
    {
        DatatypeId::new(self.get_name())
    }

    /// Gets the qualified id of this struct.
    pub fn get_qualified_id(&self) -> (r: QualifiedId<DatatypeId>)
        ensures
            is_struct_key(self.data(), r),
    {
        proof {
            use_type_invariant(self);
        }
        let s = &self.module_env.env.struct_data[self.idx];
        s.module_id.qualified(DatatypeId::new(s.name))
    }

    /// Determines whether this struct is native.
    pub fn is_native(&self) -> (r: bool)
        ensures
            r == self.data().is_native,
    {
        proof {
            use_type_invariant(self);
        }
        self.module_env.env.struct_data[self.idx].is_native
    }

    /// Determines whether memory-related operations need to be declared for this struct:
    /// whether it has the `key` ability.
    pub fn has_memory(&self) -> (r: bool)
        ensures
            r == self.data().has_key,
    {
        proof {
            use_type_invariant(self);
        }
        self.module_env.env.struct_data[self.idx].has_key
    }

    /// Return the number of fields in the struct.
    pub fn get_field_count(&self) -> (r: usize)
        ensures
            r == self.data().fields@.len(),
    {
        proof {
            use_type_invariant(self);
        }
        self.module_env.env.struct_data[self.idx].fields.len()
    }

    /// The data of the field at position `a`.
    fn field_at(&self, a: usize) -> (r: &FieldData)
        requires
            a < self.data().fields@.len(),
        ensures
            *r == self.data().fields@[a as int],
    {
        proof {
            use_type_invariant(self);
        }
        &self.module_env.env.struct_data[self.idx].fields[a]
    }

    /// Finds a field by its name.
    pub fn find_field(&self, name: Symbol) -> (r: Option<FieldEnv<'env>>)
        ensures
            r matches Some(f) ==> f.parent() == EnclosingEnv::Struct(*self) && f.data().name == name,
            r is None ==> forall|a: int|
                0 <= a < self.data().fields@.len() ==> (#[trigger] self.data().fields@[a]).name
                    != name,
    {
        proof {
            use_type_invariant(self);
        }
        match find_field_index(&self.module_env.env.struct_data[self.idx].fields, name) {
            Some(a) => Some(FieldEnv { parent_env: EnclosingEnv::Struct(self.duplicate()), idx: a }),
            None => None,
        }
    }

    /// Gets a field by its id, which must be the id of a field of this struct.
    pub fn get_field(&self, id: FieldId) -> (r: FieldEnv<'env>)
        requires
            exists|a: int|
                0 <= a < self.data().fields@.len() && (#[trigger] self.data().fields@[a]).name
                    == id@,
        ensures
            r.parent() == EnclosingEnv::Struct(*self),
            r.data().name == id@,
    {
        proof {
            use_type_invariant(self);
        }
        match self.find_field(id.symbol()) {
            Some(f) => f,
            None => {
                proof {
                    assert(false);
                }
                FieldEnv { parent_env: EnclosingEnv::Struct(self.duplicate()), idx: 0 }
            },
        }
    }

    /// Gets a field by its offset, which must be below the number of fields.
    pub fn get_field_by_offset(&self, offset: usize) -> (r: FieldEnv<'env>)
        requires
            offset < self.data().fields@.len(),
        ensures
            r.parent() == EnclosingEnv::Struct(*self),
            r.data().offset == offset,
    {
        proof {
            use_type_invariant(self);
            assert(self.env().fields_wf(self.data().fields@));
        }
        let a = field_index_by_offset(&self.module_env.env.struct_data[self.idx].fields, offset);
        FieldEnv { parent_env: EnclosingEnv::Struct(self.duplicate()), idx: a }
    }

    /// The fields of this struct, ordered by offset.
    pub fn get_fields(&self) -> (r: Vec<FieldEnv<'env>>)
        ensures
            r@.len() == self.data().fields@.len(),
            forall|k: int|
                0 <= k < r@.len() ==> (#[trigger] r@[k]).parent() == EnclosingEnv::Struct(*self)
                    && r@[k].data().offset == k,
            forall|a: int| 0 <= a < self.data().fields@.len() ==> #[trigger] field_listed(r@, a),
    {
        proof {
            use_type_invariant(self);
            assert(self.env().fields_wf(self.data().fields@));
        }
        let n = self.get_field_count();
        let mut r: Vec<FieldEnv<'env>> = Vec::new();
        let mut k: usize = 0;
        while k < n
            invariant
                n == self.data().fields@.len(),
                offsets_numbered(self.data().fields@),
                k <= n,
                r@.len() == k,
                forall|j: int|
                    0 <= j < k ==> (#[trigger] r@[j]).parent() == EnclosingEnv::Struct(*self)
                        && r@[j].data().offset == j && r@[j].index() < n,
            decreases n - k,
        {
            let f = self.get_field_by_offset(k);
            proof {
                use_type_invariant(&f);
            }
            r.push(f);
            k = k + 1;
        }
        proof {
            let fs = self.data().fields@;
            let idx = r@.map_values(|f: FieldEnv<'env>| f.index() as int);
            assert forall|a: int| 0 <= a < fs.len() implies #[trigger] field_listed(r@, a) by {
                assert forall|k: int| 0 <= k < idx.len() implies 0 <= #[trigger] idx[k] < fs.len()
                    && fs[idx[k]].offset == k by {
                    assert(r@[k].data() == r@[k].parent().fields()[r@[k].index() as int]);
                }
                lemma_listed_by_offset(fs, idx, a);
                let k = choose|k: int| 0 <= k < idx.len() && idx[k] == a;
                assert(r@[k].index() == a);
            }
        }
        r
    }

    /// The environment of this struct.
    pub fn global_env(&self) -> (r: &'env GlobalEnv)
        ensures
            r == self.env(),
            r.wf(),
    {
        proof {
            use_type_invariant(self);
        }
        self.module_env.env
    }

    /// A copy of this reference.
    pub fn duplicate(&self) -> (r: StructEnv<'env>)
        ensures
            r == *self,
    {
        proof {
            use_type_invariant(self);
        }
        StructEnv { module_env: ModuleEnv { env: self.module_env.env, idx: self.module_env.idx }, idx: self.idx }
    }
}

/// Distinct numbers of `m`, all in `0..n` where `n` is the length of `m`, cover `0..n`.
pub(crate) proof fn lemma_distinct_below_cover(m: Seq<int>, n: int, o: int)
    requires
        m.len() == n,
        0 <= o < n,
        forall|a: int| 0 <= a < n ==> 0 <= #[trigger] m[a] < n,
        forall|a: int, b: int| 0 <= a < n && 0 <= b < n && a != b ==> m[a] != m[b],
    ensures
        exists|a: int| 0 <= a < n && m[a] == o,
{
    if forall|a: int| 0 <= a < n ==> #[trigger] m[a] != o {
        let s = m.to_set();
        let range = Set::new(|x: int| 0 <= x < n && x != o);
        assert(s.subset_of(range));
        vstd::set_lib::lemma_int_range(0, n);
        assert(range =~= vstd::set_lib::set_int_range(0, n).remove(o));
        assert(m.no_duplicates());
        m.unique_seq_to_set();
        vstd::set_lib::lemma_len_subset(s, range);
    }
}

/// The field at position `a` of its parent is among the fields that `r` refers to.
pub open spec fn field_listed(r: Seq<FieldEnv<'_>>, a: int) -> bool {
    exists|k: int| 0 <= k < r.len() && (#[trigger] r[k]).index() == a
}

/// The struct or the variant of an enum that declares a field.
pub enum EnclosingEnv<'env> {
    Struct(StructEnv<'env>),
    Variant(VariantEnv<'env>),
}

impl<'env> EnclosingEnv<'env> {
    /// The fields of the struct or variant.
    pub open spec fn fields(self) -> Seq<FieldData> {
        match self {
            EnclosingEnv::Struct(s) => s.data().fields@,
            EnclosingEnv::Variant(v) => v.data().fields@,
        }
    }

    /// The data of the field at position `a`.
    fn field_at(&self, a: usize) -> (r: &FieldData)
        requires
            a < self.fields().len(),
        ensures
            *r == self.fields()[a as int],
    {
        match self {
            EnclosingEnv::Struct(s) => s.field_at(a),
            EnclosingEnv::Variant(v) => v.field_at(a),
        }
    }
}

/// A reference to a field of a struct or of a variant of an enum.
pub struct FieldEnv<'env> {
    pub(crate) parent_env: EnclosingEnv<'env>,
    pub(crate) idx: usize,
}

impl<'env> FieldEnv<'env> {
    #[verifier::type_invariant]
    pub(crate) open spec fn valid(self) -> bool {
        self.idx < self.parent_env.fields().len()
    }

    /// The struct or variant that declares this field.
    pub open(crate) spec fn parent(self) -> EnclosingEnv<'env> {
        self.parent_env
    }

    /// The position of this field among the fields of its parent.
    pub open(crate) spec fn index(self) -> nat {
        self.idx as nat
    }

    /// The data of this field.
    pub open spec fn data(self) -> FieldData {
        self.parent().fields()[self.index() as int]
    }

    /// The struct or variant that declares this field.
    pub fn parent_env(&self) -> (r: &EnclosingEnv<'env>)
        ensures
            *r == self.parent(),
    {
        &self.parent_env
    }

    /// Gets the name of this field.
    pub fn get_name(&self) -> (r: Symbol)
        ensures
            r == self.data().name,
    {
        proof {
            use_type_invariant(self);
        }
        self.parent_env.field_at(self.idx).name
    }

    /// Gets the id of this field.
    pub fn get_id(&self) -> (r: FieldId)
        ensures
            r@ == self.data().name,
    {
        FieldId::new(self.get_name())
    }

    /// Gets the type of this field.
    pub fn get_type(&self) -> (r: Type)
        ensures
            r@ == self.data().ty@,
    {
        proof {
            use_type_invariant(self);
        }
        self.parent_env.field_at(self.idx).ty.duplicate()
    }

    /// Gets the offset of this field.
    pub fn get_offset(&self) -> (r: usize)
        ensures
            r == self.data().offset,
    {
        proof {
            use_type_invariant(self);
        }
        self.parent_env.field_at(self.idx).offset
    }
}

} // verus!
