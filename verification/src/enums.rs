//! Enums of the modules of the environment: their variants, the fields of each variant, and
//! the queries on them.

use vstd::prelude::*;

use crate::env::{GlobalEnv, ModuleData, ModuleEnv};
use crate::loc::Loc;
use crate::model::{DatatypeId, FieldId, ModuleId, QualifiedId, VariantId};
use crate::structs::{
    EnclosingEnv, FieldData, FieldEnv, StructEnv, field_index_by_offset, find_field_index,
    field_listed, is_struct_key, lemma_distinct_below_cover, lemma_listed_by_offset,
    offsets_numbered,
};
use crate::symbol::{Symbol, SymbolPool};

verus! {

/// The data of a variant of an enum.
pub struct VariantData {
    /// The name of the variant.
    pub name: Symbol,
    /// The location of the variant.
    pub loc: Loc,
    /// The tag of the variant: its position in the declaration of the enum.
    pub tag: usize,
    /// The fields of the variant.
    pub fields: Vec<FieldData>,
}

/// The data of an enum.
pub struct EnumData {
    /// The module that declares the enum.
    pub module_id: ModuleId,
    /// The name of the enum.
    pub name: Symbol,
    /// The location of the enum.
    pub loc: Loc,
    /// Whether the enum has the `key` ability.
    pub has_key: bool,
    /// The variants of the enum.
    pub variants: Vec<VariantData>,
}

/// The tags of the variants `vs` number them from 0: they are distinct and below the number
/// of variants.
pub open spec fn tags_numbered(vs: Seq<VariantData>) -> bool {
    &&& forall|a: int| 0 <= a < vs.len() ==> (#[trigger] vs[a]).tag < vs.len()
    &&& forall|a: int, b: int|
        0 <= a < vs.len() && 0 <= b < vs.len() && a != b ==> (#[trigger] vs[a]).tag != (
        #[trigger] vs[b]).tag
}

/// `q` is the qualified id of the enum `e`.
pub open spec fn is_enum_key(e: EnumData, q: QualifiedId<DatatypeId>) -> bool {
    q.module_id == e.module_id && q.id@ == e.name
}

/// Every tag below the number of variants is the tag of a variant.
proof fn lemma_tags_cover(vs: Seq<VariantData>, tag: int)
    requires
        tags_numbered(vs),
        0 <= tag < vs.len(),
    ensures
        exists|a: int| 0 <= a < vs.len() && (#[trigger] vs[a]).tag == tag,
{
    let m = vs.map_values(|v: VariantData| v.tag as int);
    assert forall|a: int, b: int| 0 <= a < m.len() && 0 <= b < m.len() && a != b implies m[a]
        != m[b] by {
        assert(vs[a].tag != vs[b].tag);
    }
    assert forall|a: int| 0 <= a < m.len() implies 0 <= #[trigger] m[a] < m.len() by {
        assert(vs[a].tag < vs.len());
    }
    lemma_distinct_below_cover(m, vs.len() as int, tag);
    let a = choose|a: int| 0 <= a < vs.len() && m[a] == tag;
    assert(vs[a].tag == tag);
}

/// The position of the variant named `name` among `variants`, if there is one.
fn find_variant_index(variants: &Vec<VariantData>, name: Symbol) -> (r: Option<usize>)
    ensures
        r matches Some(a) ==> a < variants@.len() && variants@[a as int].name == name,
        r is None ==> forall|a: int|
            0 <= a < variants@.len() ==> (#[trigger] variants@[a]).name != name,
{
    let n = variants.len();
    let mut a: usize = 0;
    while a < n
        invariant
            n == variants@.len(),
            a <= n,
            forall|b: int| 0 <= b < a ==> (#[trigger] variants@[b]).name != name,
        decreases n - a,
    {
        if variants[a].name == name {
            return Some(a);
        }
        a = a + 1;
    }
    None
}

/// The position of the variant with tag `tag` among `variants`.
fn variant_index_by_tag(variants: &Vec<VariantData>, tag: usize) -> (r: usize)
    requires
        tags_numbered(variants@),
        tag < variants@.len(),
    ensures
        r < variants@.len(),
        variants@[r as int].tag == tag,
{
    let n = variants.len();
    let mut a: usize = 0;
    while a < n
        invariant
            n == variants@.len(),
            a <= n,
            forall|b: int| 0 <= b < a ==> (#[trigger] variants@[b]).tag != tag,
        decreases n - a,
    {
        if variants[a].tag == tag {
            return a;
        }
        a = a + 1;
    }
    proof {
        lemma_tags_cover(variants@, tag as int);
    }
    0
}

/// Positions of variants listed by their tags list each variant: where the `k`-th position
/// holds the variant of tag `k`, every variant is at some position.
proof fn lemma_listed_by_tag(vs: Seq<VariantData>, idx: Seq<int>, a: int)
    requires
        tags_numbered(vs),
        idx.len() == vs.len(),
        forall|k: int| 0 <= k < idx.len() ==> 0 <= #[trigger] idx[k] < vs.len() && vs[idx[k]].tag == k,
        0 <= a < vs.len(),
    ensures
        exists|k: int| 0 <= k < idx.len() && idx[k] == a,
{
    let t = vs[a].tag as int;
    let b = idx[t];
    assert(vs[b].tag == t);
    assert(b == a);
}

impl GlobalEnv {
    /// The enums are consistent: each lives in a module of the environment under a name of
    /// the pool, qualified enum ids are unique, and the variants of each enum are consistent.
    pub open spec fn enums_wf(&self) -> bool {
        &&& forall|i: int|
            0 <= i < self.enum_data@.len() ==> (#[trigger] self.enum_data@[i]).module_id@
                < self.module_data@.len()
        &&& forall|i: int|
            0 <= i < self.enum_data@.len() ==> self.symbol_pool.has(
                (#[trigger] self.enum_data@[i]).name,
            )
        &&& forall|i: int, j: int|
            0 <= i < self.enum_data@.len() && 0 <= j < self.enum_data@.len() && i != j
                ==> !((#[trigger] self.enum_data@[i]).module_id
                == (#[trigger] self.enum_data@[j]).module_id && self.enum_data@[i].name
                == self.enum_data@[j].name)
        &&& forall|i: int|
            0 <= i < self.enum_data@.len() ==> self.variants_wf(
                (#[trigger] self.enum_data@[i]).variants@,
            )
    }

    /// The variants `vs` have distinct names of the pool, are numbered from 0 by their tags,
    /// and the fields of each are consistent.
    pub open spec fn variants_wf(&self, vs: Seq<VariantData>) -> bool {
        &&& forall|a: int| 0 <= a < vs.len() ==> self.symbol_pool.has((#[trigger] vs[a]).name)
        &&& tags_numbered(vs)
        &&& forall|a: int, b: int|
            0 <= a < vs.len() && 0 <= b < vs.len() && a != b ==> (#[trigger] vs[a]).name != (
            #[trigger] vs[b]).name
        &&& forall|a: int| 0 <= a < vs.len() ==> self.fields_wf((#[trigger] vs[a]).fields@)
    }

    /// `q` is the qualified id of an enum of the environment.
    pub open spec fn has_enum(&self, q: QualifiedId<DatatypeId>) -> bool {
        exists|i: int| 0 <= i < self.enum_data@.len() && is_enum_key(#[trigger] self.enum_data@[i], q)
    }

    /// The position of the enum with the qualified id `q`, if there is one.
    pub(crate) fn find_enum_position(&self, q: &QualifiedId<DatatypeId>) -> (r: Option<usize>)
        ensures
            r matches Some(i) ==> i < self.enum_data@.len() && is_enum_key(
                self.enum_data@[i as int],
                *q,
            ),
            r is None ==> !self.has_enum(*q),
    {
        let n = self.enum_data.len();
        let mut i: usize = 0;
        while i < n
            invariant
                n == self.enum_data@.len(),
                i <= n,
                forall|j: int| 0 <= j < i ==> !is_enum_key(#[trigger] self.enum_data@[j], *q),
            decreases n - i,
        {
            let e = &self.enum_data[i];
            proof {
                ModuleId::lemma_view_injective(e.module_id, q.module_id);
            }
            if e.module_id.to_usize() == q.module_id.to_usize() && e.name == q.id.symbol() {
                return Some(i);
            }
            i = i + 1;
        }
        None
    }

    /// Returns the enum of the qualified id `q`, which must exist.
    pub fn get_enum_qid(&self, q: QualifiedId<DatatypeId>) -> (r: EnumEnv<'_>)
        requires
            self.wf(),
            self.has_enum(q),
        ensures
            r.env() == self,
            r.index() < self.enum_data@.len(),
            is_enum_key(r.data(), q),
    {
        match self.find_enum_position(&q) {
            Some(i) => {
                let m = self.enum_data[i].module_id;
                EnumEnv { module_env: ModuleEnv { env: self, idx: m.to_usize() }, idx: i }
            },
            None => {
                proof {
                    assert(false);
                }
                EnumEnv { module_env: ModuleEnv { env: self, idx: 0 }, idx: 0 }
            },
        }
    }

    /// Returns the struct of the qualified id `q` if there is one, else the enum of it, which
    /// must then exist.
    pub fn get_struct_or_enum_qid(&self, q: QualifiedId<DatatypeId>) -> (r: StructOrEnumEnv<'_>)
        requires
            self.wf(),
            self.has_struct(q) || self.has_enum(q),
        ensures
            self.has_struct(q) ==> (r matches StructOrEnumEnv::Struct(s) && s.env() == self
                && is_struct_key(s.data(), q)),
            !self.has_struct(q) ==> (r matches StructOrEnumEnv::Enum(e) && e.env() == self
                && is_enum_key(e.data(), q)),
    {
        match self.find_struct_position(&q) {
            Some(_) => StructOrEnumEnv::Struct(self.get_struct_qid(q)),
            None => StructOrEnumEnv::Enum(self.get_enum_qid(q)),
        }
    }
}

/// An enum is identified by its qualified id: two enums of a well-formed environment with
/// the same qualified id are the same, so looking an enum up by its qualified id gives it
/// back.
pub proof fn lemma_enum_key_identifies(env: GlobalEnv, i: int, j: int, q: QualifiedId<DatatypeId>)
    requires
        env.wf(),
        0 <= i < env.enum_data@.len(),
        0 <= j < env.enum_data@.len(),
        is_enum_key(env.enum_data@[i], q),
        is_enum_key(env.enum_data@[j], q),
    ensures
        i == j,
{
    Symbol::lemma_view_injective(env.enum_data@[i].name, env.enum_data@[j].name);
}

/// A struct or an enum of the environment.
pub enum StructOrEnumEnv<'env> {
    Struct(StructEnv<'env>),
    Enum(EnumEnv<'env>),
}

/// The positions of the enums of `ed` that the module `m` declares, in increasing order.
pub open spec fn enum_positions(ed: Seq<EnumData>, m: nat) -> Seq<int>
    decreases ed.len(),
{
    if ed.len() == 0 {
        Seq::empty()
    } else {
        let rest = enum_positions(ed.drop_last(), m);
        if ed.last().module_id@ == m {
            rest.push(ed.len() - 1)
        } else {
            rest
        }
    }
}

/// The enums of the module `m` are listed by their positions, each once, in increasing
/// order: a position is listed exactly when its enum belongs to `m`.
pub proof fn lemma_enum_positions(sd: Seq<EnumData>, m: nat)
    ensures
        forall|x: int|
            enum_positions(sd, m).contains(x) <==> 0 <= x < sd.len() && sd[x].module_id@ == m,
        forall|a: int, b: int|
            0 <= a < b < enum_positions(sd, m).len() ==> enum_positions(sd, m)[a]
                < enum_positions(sd, m)[b],
    decreases sd.len(),
{
    if sd.len() > 0 {
        let init = sd.drop_last();
        lemma_enum_positions(init, m);
        let rest = enum_positions(init, m);
        assert forall|x: int|
            enum_positions(sd, m).contains(x) <==> 0 <= x < sd.len() && sd[x].module_id@ == m by {
            if 0 <= x < init.len() {
                assert(init[x] == sd[x]);
            }
            if sd.last().module_id@ == m {
                crate::env::lemma_contains_push(rest, sd.len() - 1, x);
            }
        }
        if sd.last().module_id@ == m {
            let all = rest.push(sd.len() - 1);
            assert forall|a: int, b: int|
                #![trigger all[a], all[b]]
                0 <= a < b < all.len() implies all[a] < all[b] by {
                if b == rest.len() {
                    assert(rest.contains(rest[a]));
                } else {
                    assert(all[a] == rest[a] && all[b] == rest[b]);
                }
            }
        }
    }
}

/// The positions of the enums that `es` refers to.
pub open spec fn enum_indices(es: Seq<EnumEnv<'_>>) -> Seq<int> {
    es.map_values(|e: EnumEnv<'_>| e.index() as int)
}

impl<'env> ModuleEnv<'env> {
    /// Finds the enum of this module with the given name.
    pub fn find_enum(&self, name: Symbol) -> (r: Option<EnumEnv<'env>>)
        ensures
            r matches Some(e) ==> e.env() == self.env() && e.index() < self.env().enum_data@.len()
                && e.data().module_id@ == self.index() && e.data().name == name,
            r is None ==> forall|j: int|
                0 <= j < self.env().enum_data@.len() ==> !((
                #[trigger] self.env().enum_data@[j]).module_id@ == self.index()
                    && self.env().enum_data@[j].name == name),
    {
        proof {
            use_type_invariant(self);
        }
        let env = self.env;
        let n = env.enum_data.len();
        let mut i: usize = 0;
        while i < n
            invariant
                env == self.env,
                env.wf(),
                self.idx < env.module_data@.len(),
                n == env.enum_data@.len(),
                i <= n,
                forall|j: int|
                    0 <= j < i ==> !((#[trigger] env.enum_data@[j]).module_id@ == self.idx
                        && env.enum_data@[j].name == name),
            decreases n - i,
        {
            let ed = &env.enum_data[i];
            if ed.module_id.to_usize() == self.idx && ed.name == name {
                return Some(EnumEnv { module_env: ModuleEnv { env, idx: self.idx }, idx: i });
            }
            i = i + 1;
        }
        None
    }

    /// Gets the enum of this module with the given id, which must exist.
    pub fn get_enum(&self, id: DatatypeId) -> (r: EnumEnv<'env>)
        requires
            exists|j: int|
                0 <= j < self.env().enum_data@.len() && (
                #[trigger] self.env().enum_data@[j]).module_id@ == self.index()
                    && self.env().enum_data@[j].name == id@,
        ensures
            r.env() == self.env(),
            r.index() < self.env().enum_data@.len(),
            r.data().module_id@ == self.index(),
            r.data().name == id@,
    {
        match self.find_enum(id.symbol()) {
            Some(e) => e,
            None => {
                proof {
                    assert(false);
                }
                proof {
                    use_type_invariant(self);
                }
                EnumEnv { module_env: ModuleEnv { env: self.env, idx: self.idx }, idx: 0 }
            },
        }
    }

    /// Gets the enum of this module with the given id, which must exist, consuming this module
    /// reference.
    pub fn into_enum(self, id: DatatypeId) -> (r: EnumEnv<'env>)
        requires
            exists|j: int|
                0 <= j < self.env().enum_data@.len() && (
                #[trigger] self.env().enum_data@[j]).module_id@ == self.index()
                    && self.env().enum_data@[j].name == id@,
        ensures
            r.env() == self.env(),
            r.index() < self.env().enum_data@.len(),
            r.data().module_id@ == self.index(),
            r.data().name == id@,
    {
        self.get_enum(id)
    }

    /// The enums of this module, in the order of the environment, consuming this module
    /// reference.
    pub fn into_enums(self) -> (r: Vec<EnumEnv<'env>>)
        ensures
            forall|k: int| 0 <= k < r@.len() ==> (#[trigger] r@[k]).env() == self.env(),
            enum_indices(r@) == enum_positions(self.env().enum_data@, self.index()),
    {
        self.get_enums()
    }

    /// Gets the struct of this module with the given id if there is one, else the enum with
    /// that id, which must then exist, consuming this module reference.
    pub fn into_struct_or_enum(self, id: DatatypeId) -> (r: StructOrEnumEnv<'env>)
        requires
            (exists|j: int|
                0 <= j < self.env().struct_data@.len() && (
                #[trigger] self.env().struct_data@[j]).module_id@ == self.index()
                    && self.env().struct_data@[j].name == id@) || (exists|j: int|
                0 <= j < self.env().enum_data@.len() && (
                #[trigger] self.env().enum_data@[j]).module_id@ == self.index()
                    && self.env().enum_data@[j].name == id@),
        ensures
            r matches StructOrEnumEnv::Struct(s) ==> s.env() == self.env()
                && s.data().module_id@ == self.index() && s.data().name == id@,
            r matches StructOrEnumEnv::Enum(e) ==> e.env() == self.env()
                && e.data().module_id@ == self.index() && e.data().name == id@ && forall|j: int|
                0 <= j < self.env().struct_data@.len() ==> !((
                #[trigger] self.env().struct_data@[j]).module_id@ == self.index()
                    && self.env().struct_data@[j].name == id@),
    {
        self.get_struct_or_enum(id)
    }

    /// Gets the struct of this module with the given id if there is one, else the enum with
    /// that id, which must then exist.
    pub fn get_struct_or_enum(&self, id: DatatypeId) -> (r: StructOrEnumEnv<'env>)
        requires
            (exists|j: int|
                0 <= j < self.env().struct_data@.len() && (
                #[trigger] self.env().struct_data@[j]).module_id@ == self.index()
                    && self.env().struct_data@[j].name == id@) || (exists|j: int|
                0 <= j < self.env().enum_data@.len() && (
                #[trigger] self.env().enum_data@[j]).module_id@ == self.index()
                    && self.env().enum_data@[j].name == id@),
        ensures
            r matches StructOrEnumEnv::Struct(s) ==> s.env() == self.env()
                && s.data().module_id@ == self.index() && s.data().name == id@,
            r matches StructOrEnumEnv::Enum(e) ==> e.env() == self.env()
                && e.data().module_id@ == self.index() && e.data().name == id@ && forall|j: int|
                0 <= j < self.env().struct_data@.len() ==> !((
                #[trigger] self.env().struct_data@[j]).module_id@ == self.index()
                    && self.env().struct_data@[j].name == id@),
    {
        match self.find_struct(id.symbol()) {
            Some(s) => StructOrEnumEnv::Struct(s),
            None => StructOrEnumEnv::Enum(self.get_enum(id)),
        }
    }

    /// The enums of this module, in the order of the environment.
    pub fn get_enums(&self) -> (r: Vec<EnumEnv<'env>>)
        ensures
            forall|k: int| 0 <= k < r@.len() ==> (#[trigger] r@[k]).env() == self.env(),
            enum_indices(r@) == enum_positions(self.env().enum_data@, self.index()),
    {
        proof {
            use_type_invariant(self);
        }
        let env = self.env;
        let n = env.enum_data.len();
        let mut r: Vec<EnumEnv<'env>> = Vec::new();
        let mut i: usize = 0;
        while i < n
            invariant
                env == self.env,
                env.wf(),
                self.idx < env.module_data@.len(),
                n == env.enum_data@.len(),
                i <= n,
                forall|k: int| 0 <= k < r@.len() ==> (#[trigger] r@[k]).env() == env,
                enum_indices(r@) == enum_positions(env.enum_data@.take(i as int), self.idx as nat),
            decreases n - i,
        {
            let ghost before = r@;
            proof {
                assert(env.enum_data@.take(i + 1).drop_last() =~= env.enum_data@.take(i as int));
            }
            if env.enum_data[i].module_id.to_usize() == self.idx {
                r.push(EnumEnv { module_env: ModuleEnv { env, idx: self.idx }, idx: i });
                proof {
                    assert(enum_indices(r@) =~= enum_indices(before).push(i as int));
                }
            }
            i = i + 1;
        }
        proof {
            assert(env.enum_data@.take(n as int) =~= env.enum_data@);
        }
        r
    }

    /// Gets the number of enums in this module.
    pub fn get_enum_count(&self) -> (r: usize)
        ensures
            r == enum_positions(self.env().enum_data@, self.index()).len(),
    {
        proof {
            use_type_invariant(self);
        }
        let env = self.env;
        let n = env.enum_data.len();
        let mut count: usize = 0;
        let mut i: usize = 0;
        while i < n
            invariant
                env == self.env,
                n == env.enum_data@.len(),
                i <= n,
                count == enum_positions(env.enum_data@.take(i as int), self.idx as nat).len(),
                count <= i,
            decreases n - i,
        {
            proof {
                assert(env.enum_data@.take(i + 1).drop_last() =~= env.enum_data@.take(i as int));
            }
            if env.enum_data[i].module_id.to_usize() == self.idx {
                count = count + 1;
            }
            i = i + 1;
        }
        proof {
            assert(env.enum_data@.take(n as int) =~= env.enum_data@);
        }
        count
    }
}

/// A reference to an enum of the environment.
pub struct EnumEnv<'env> {
    module_env: ModuleEnv<'env>,
    idx: usize,
}

impl<'env> EnumEnv<'env> {
    #[verifier::type_invariant]
    spec fn valid(self) -> bool {
        &&& self.module_env.env.wf()
        &&& self.idx < self.module_env.env.enum_data@.len()
        &&& self.module_env.idx == self.module_env.env.enum_data@[self.idx as int].module_id@
    }

    /// The environment of this enum.
    pub closed spec fn env(self) -> &'env GlobalEnv {
        self.module_env.env
    }

    /// The position of this enum in the environment.
    pub closed spec fn index(self) -> nat {
        self.idx as nat
    }

    /// The data of this enum.
    pub open spec fn data(self) -> EnumData {
        self.env().enum_data@[self.index() as int]
    }

    /// The data of the module of this enum.
    pub open spec fn module_data(self) -> ModuleData {
        self.env().module_data@[self.data().module_id@ as int]
    }

    /// The name of this enum, as a string.
    pub open spec fn name_str(self) -> Seq<char> {
        self.env().symbol_pool@[self.data().name@ as int]
    }

    /// The variants of this enum.
    pub open spec fn variants(self) -> Seq<VariantData> {
        self.data().variants@
    }

    /// Returns the name of this enum.
    pub fn get_name(&self) -> (r: Symbol)
        ensures
            r == self.data().name,
    {
        proof {
            use_type_invariant(self);
        }
        self.module_env.env.enum_data[self.idx].name
    }

    /// Gets full name as string: the name of the module and the name of the enum.
    pub fn get_full_name_str(&self) -> (r: String)
        ensures
            r@ == self.env().symbol_pool@[self.module_data().name@ as int] + "::"@
                + self.name_str(),
    {
        proof {
            use_type_invariant(self);
        }
        let pool = &self.module_env.env.symbol_pool;
        let r = self.module_env.get_name_str().concat("::");
        r.concat(pool.string(self.get_name()).as_str())
    }

    /// Gets full name with the address of the module as string.
    pub fn get_full_name_with_address(&self) -> (r: String)
        ensures
            r@ == self.module_data().full_name@ + "::"@ + self.name_str(),
    {
        proof {
            use_type_invariant(self);
        }
        let pool = &self.module_env.env.symbol_pool;
        let r = self.module_env.get_full_name_str().concat("::");
        r.concat(pool.string(self.get_name()).as_str())
    }

    /// Shortcut for accessing the symbol pool.
    pub fn symbol_pool(&self) -> (r: &SymbolPool)
        ensures
            *r == self.env().symbol_pool,
    {
        &self.module_env.env.symbol_pool
    }

    /// Returns the location of this enum.
    pub fn get_loc(&self) -> (r: Loc)
        ensures
            r@ == self.data().loc@,
    {
        proof {
            use_type_invariant(self);
        }
        self.module_env.env.enum_data[self.idx].loc.duplicate()
    }

    /// Gets the id of this enum.
    pub fn get_id(&self) -> (r: DatatypeId)
        ensures
            r@ == self.data().name,
    {
        DatatypeId::new(self.get_name())
    }

    /// Gets the qualified id of this enum.
    pub fn get_qualified_id(&self) -> (r: QualifiedId<DatatypeId>)
        ensures
            is_enum_key(self.data(), r),
    {
        proof {
            use_type_invariant(self);
        }
        let e = &self.module_env.env.enum_data[self.idx];
        e.module_id.qualified(DatatypeId::new(e.name))
    }

    /// Determines whether memory-related operations need to be declared for this enum:
    /// whether it has the `key` ability.
    pub fn has_memory(&self) -> (r: bool)
        ensures
            r == self.data().has_key,
    {
        proof {
            use_type_invariant(self);
        }
        self.module_env.env.enum_data[self.idx].has_key
    }

    /// Return the number of variants in the enum.
    pub fn get_variant_count(&self) -> (r: usize)
        ensures
            r == self.variants().len(),
    {
        proof {
            use_type_invariant(self);
        }
        self.module_env.env.enum_data[self.idx].variants.len()
    }

    /// The data of the variant at position `a`.
    fn variant_at(&self, a: usize) -> (r: &VariantData)
        requires
            a < self.variants().len(),
        ensures
            *r == self.variants()[a as int],
    {
        proof {
            use_type_invariant(self);
        }
        &self.module_env.env.enum_data[self.idx].variants[a]
    }

    /// Finds a variant by its name.
    pub fn find_variant(&self, name: Symbol) -> (r: Option<VariantEnv<'env>>)
        ensures
            r matches Some(v) ==> v.enum_of() == *self && v.data().name == name,
            r is None ==> forall|a: int|
                0 <= a < self.variants().len() ==> (#[trigger] self.variants()[a]).name != name,
    {
        proof {
            use_type_invariant(self);
        }
        match find_variant_index(&self.module_env.env.enum_data[self.idx].variants, name) {
            Some(a) => Some(VariantEnv { enum_env: self.duplicate(), idx: a }),
            None => None,
        }
    }

    /// Gets a variant by its id, which must be the id of a variant of this enum.
    pub fn get_variant(&self, id: VariantId) -> (r: VariantEnv<'env>)
        requires
            exists|a: int|
                0 <= a < self.variants().len() && (#[trigger] self.variants()[a]).name == id@,
        ensures
            r.enum_of() == *self,
            r.data().name == id@,
    {
        match self.find_variant(id.symbol()) {
            Some(v) => v,
            None => {
                proof {
                    assert(false);
                }
                VariantEnv { enum_env: self.duplicate(), idx: 0 }
            },
        }
    }

    /// Gets a variant by its tag, which must be below the number of variants.
    pub fn get_variant_by_tag(&self, tag: usize) -> (r: VariantEnv<'env>)
        requires
            tag < self.variants().len(),
        ensures
            r.enum_of() == *self,
            r.data().tag == tag,
    {
        proof {
            use_type_invariant(self);
            assert(self.env().variants_wf(self.variants()));
        }
        let a = variant_index_by_tag(&self.module_env.env.enum_data[self.idx].variants, tag);
        VariantEnv { enum_env: self.duplicate(), idx: a }
    }

    /// The variants of this enum, ordered by tag.
    pub fn get_variants(&self) -> (r: Vec<VariantEnv<'env>>)
        ensures
            r@.len() == self.variants().len(),
            forall|k: int|
                0 <= k < r@.len() ==> (#[trigger] r@[k]).enum_of() == *self && r@[k].data().tag
                    == k,
            forall|a: int| 0 <= a < self.variants().len() ==> #[trigger] variant_listed(r@, a),
    {
        proof {
            use_type_invariant(self);
            assert(self.env().variants_wf(self.variants()));
        }
        let n = self.get_variant_count();
        let mut r: Vec<VariantEnv<'env>> = Vec::new();
        let mut k: usize = 0;
        while k < n
            invariant
                n == self.variants().len(),
                tags_numbered(self.variants()),
                k <= n,
                r@.len() == k,
                forall|j: int|
                    0 <= j < k ==> (#[trigger] r@[j]).enum_of() == *self && r@[j].data().tag == j
                        && r@[j].index() < n,
            decreases n - k,
        {
            let v = self.get_variant_by_tag(k);
            proof {
                use_type_invariant(&v);
            }
            r.push(v);
            k = k + 1;
        }
        proof {
            let vs = self.variants();
            let idx = r@.map_values(|v: VariantEnv<'env>| v.index() as int);
            assert forall|a: int| 0 <= a < vs.len() implies #[trigger] variant_listed(r@, a) by {
                assert forall|k: int| 0 <= k < idx.len() implies 0 <= #[trigger] idx[k] < vs.len()
                    && vs[idx[k]].tag == k by {
                    lemma_variant_index(r@[k]);
                }
                lemma_listed_by_tag(vs, idx, a);
                let k = choose|k: int| 0 <= k < idx.len() && idx[k] == a;
                assert(r@[k].index() == a);
            }
        }
        r
    }

    /// The position of the variant with tag `t`.
    pub open spec fn variant_pos(self, t: int) -> int {
        choose|a: int| 0 <= a < self.variants().len() && (#[trigger] self.variants()[a]).tag == t
    }

    /// The number of fields of the variants with tags below `t`.
    pub open spec fn fields_before(self, t: int) -> nat
        decreases t,
    {
        if t <= 0 {
            0
        } else {
            self.fields_before(t - 1) + self.variants()[self.variant_pos(t - 1)].fields@.len()
        }
    }

    /// In the fields `r` of the variants listed by tag, the field at offset `o` of the
    /// variant with tag `t` is in its place.
    pub open spec fn lists_field(self, r: Seq<FieldEnv<'env>>, t: int, o: int) -> bool {
        let f = r[self.fields_before(t) + o];
        &&& f.parent() matches EnclosingEnv::Variant(v) && v.enum_of() == self && v.data().tag == t
        &&& f.data().offset == o
    }

    /// The fields of all variants: the variants ordered by tag, and the fields of each ordered
    /// by offset.
    pub fn get_all_fields(&self) -> (r: Vec<FieldEnv<'env>>)
        ensures
            r@.len() == self.fields_before(self.variants().len() as int),
            forall|t: int, o: int|
                0 <= t < self.variants().len() && 0 <= o
                    < self.variants()[self.variant_pos(t)].fields@.len() ==> #[trigger] self.lists_field(
                    r@,
                    t,
                    o,
                ),
    {
        proof {
            use_type_invariant(self);
            assert(self.env().variants_wf(self.variants()));
        }
        let n = self.get_variant_count();
        let mut r: Vec<FieldEnv<'env>> = Vec::new();
        let mut t: usize = 0;
        while t < n
            invariant
                n == self.variants().len(),
                tags_numbered(self.variants()),
                t <= n,
                r@.len() == self.fields_before(t as int),
                forall|t2: int, o: int|
                    0 <= t2 < t && 0 <= o < self.variants()[self.variant_pos(t2)].fields@.len()
                        ==> #[trigger] self.lists_field(r@, t2, o),
            decreases n - t,
        {
            let v = self.get_variant_by_tag(t);
            proof {
                use_type_invariant(&v);
            }
            let mut fs = v.get_fields();
            let ghost before = r@;
            let ghost fsv = fs@;
            proof {
                self.lemma_variant_pos(t as int, v.index() as int);
                assert(self.fields_before(t + 1) == self.fields_before(t as int) + fsv.len());
            }
            r.append(&mut fs);
            proof {
                assert forall|t2: int, o: int|
                    0 <= t2 < t + 1 && 0 <= o < self.variants()[self.variant_pos(t2)].fields@.len()
                        implies #[trigger] self.lists_field(r@, t2, o) by {
                    if t2 < t {
                        self.lemma_fields_before_monotone(t2 + 1, t as int);
                        assert(self.lists_field(before, t2, o));
                        assert(r@[self.fields_before(t2) + o] == before[self.fields_before(t2)
                            + o]);
                    } else {
                        assert(r@[self.fields_before(t2) + o] == fsv[o]);
                    }
                }
            }
            t = t + 1;
        }
        r
    }

    /// The variant at position `a` is the one with tag `t`, where its tag is `t`.
    proof fn lemma_variant_pos(self, t: int, a: int)
        requires
            tags_numbered(self.variants()),
            0 <= a < self.variants().len(),
            self.variants()[a].tag == t,
        ensures
            self.variant_pos(t) == a,
    {
        let b = self.variant_pos(t);
        assert(0 <= b < self.variants().len() && self.variants()[b].tag == t);
    }

    /// The fields of the variants with tags below `s` are no more than those below `t`, where
    /// `s <= t`.
    proof fn lemma_fields_before_monotone(self, s: int, t: int)
        requires
            s <= t,
        ensures
            self.fields_before(s) <= self.fields_before(t),
        decreases t - s,
    {
        if s < t {
            self.lemma_fields_before_monotone(s, t - 1);
        }
    }

    /// The environment of this enum.
    pub fn global_env(&self) -> (r: &'env GlobalEnv)
        ensures
            r == self.env(),
            r.wf(),
    {
        proof {
            use_type_invariant(self);
        }
        self.module_env.env
    }

    /// A copy of this reference.
    pub fn duplicate(&self) -> (r: EnumEnv<'env>)
        ensures
            r == *self,
    {
        proof {
            use_type_invariant(self);
        }
        EnumEnv { module_env: ModuleEnv { env: self.module_env.env, idx: self.module_env.idx }, idx: self.idx }
    }
}

/// The variant at position `a` of its enum is among the variants that `r` refers to.
pub open spec fn variant_listed(r: Seq<VariantEnv<'_>>, a: int) -> bool {
    exists|k: int| 0 <= k < r.len() && (#[trigger] r[k]).index() == a
}

/// The position of a variant is that of a variant of its enum.
proof fn lemma_variant_index(v: VariantEnv<'_>)
    ensures
        v.data() == v.enum_of().variants()[v.index() as int],
{
}

/// A reference to a variant of an enum.
pub struct VariantEnv<'env> {
    enum_env: EnumEnv<'env>,
    idx: usize,
}

impl<'env> VariantEnv<'env> {
    #[verifier::type_invariant]
    spec fn valid(self) -> bool {
        self.idx < self.enum_env.variants().len()
    }

    /// The enum of this variant.
    pub closed spec fn enum_of(self) -> EnumEnv<'env> {
        self.enum_env
    }

    /// The position of this variant among the variants of its enum.
    pub closed spec fn index(self) -> nat {
        self.idx as nat
    }

    /// The data of this variant.
    pub open spec fn data(self) -> VariantData {
        self.enum_of().variants()[self.index() as int]
    }

    /// The name of this variant, as a string.
    pub open spec fn name_str(self) -> Seq<char> {
        self.enum_of().env().symbol_pool@[self.data().name@ as int]
    }

    /// The enum of this variant.
    pub fn enum_env(&self) -> (r: &EnumEnv<'env>)
        ensures
            *r == self.enum_of(),
    {
        &self.enum_env
    }

    /// Returns the name of this variant.
    pub fn get_name(&self) -> (r: Symbol)
        ensures
            r == self.data().name,
    {
        proof {
            use_type_invariant(self);
        }
        self.enum_env.variant_at(self.idx).name
    }

    /// Gets full name as string: the names of the module, of the enum and of the variant.
    pub fn get_full_name_str(&self) -> (r: String)
        ensures
            r@ == self.enum_of().env().symbol_pool@[self.enum_of().module_data().name@ as int]
                + "::"@ + self.enum_of().name_str() + "::"@ + self.name_str(),
    {
        proof {
            use_type_invariant(self);
            use_type_invariant(&self.enum_env);
        }
        let pool = self.enum_env.symbol_pool();
        let r = self.enum_env.get_full_name_str().concat("::");
        r.concat(pool.string(self.get_name()).as_str())
    }

    /// Gets the name of this variant after that of its enum. The name of the enum is the one
    /// without the address of its module, as `get_full_name_str` of the enum gives it.
    pub fn get_full_name_with_address(&self) -> (r: String)
        ensures
            r@ == self.enum_of().env().symbol_pool@[self.enum_of().module_data().name@ as int]
                + "::"@ + self.enum_of().name_str() + "::"@ + self.name_str(),
    {
        proof {
            use_type_invariant(self);
            use_type_invariant(&self.enum_env);
        }
        let pool = self.enum_env.symbol_pool();
        let r = self.enum_env.get_full_name_str().concat("::");
        r.concat(pool.string(self.get_name()).as_str())
    }

    /// Gets the tag of this variant.
    pub fn get_tag(&self) -> (r: usize)
        ensures
            r == self.data().tag,
    {
        proof {
            use_type_invariant(self);
        }
        self.enum_env.variant_at(self.idx).tag
    }

    /// Shortcut for accessing the symbol pool.
    pub fn symbol_pool(&self) -> (r: &SymbolPool)
        ensures
            *r == self.enum_of().env().symbol_pool,
    {
        self.enum_env.symbol_pool()
    }

    /// Returns the location of this variant.
    pub fn get_loc(&self) -> (r: Loc)
        ensures
            r@ == self.data().loc@,
    {
        proof {
            use_type_invariant(self);
        }
        self.enum_env.variant_at(self.idx).loc.duplicate()
    }

    /// Gets the id of this variant.
    pub fn get_id(&self) -> (r: VariantId)
        ensures
            r@ == self.data().name,
    {
        VariantId::new(self.get_name())
    }

    /// Return the number of fields in the variant.
    pub fn get_field_count(&self) -> (r: usize)
        ensures
            r == self.data().fields@.len(),
    {
        proof {
            use_type_invariant(self);
        }
        self.enum_env.variant_at(self.idx).fields.len()
    }

    /// The data of the field at position `a`.
    pub(crate) fn field_at(&self, a: usize) -> (r: &FieldData)
        requires
            a < self.data().fields@.len(),
        ensures
            *r == self.data().fields@[a as int],
    {
        proof {
            use_type_invariant(self);
        }
        &self.enum_env.variant_at(self.idx).fields[a]
    }

    /// Finds a field by its name.
    pub fn find_field(&self, name: Symbol) -> (r: Option<FieldEnv<'env>>)
        ensures
            r matches Some(f) ==> f.parent() == EnclosingEnv::Variant(*self) && f.data().name
                == name,
            r is None ==> forall|a: int|
                0 <= a < self.data().fields@.len() ==> (#[trigger] self.data().fields@[a]).name
                    != name,
    {
        proof {
            use_type_invariant(self);
        }
        match find_field_index(&self.enum_env.variant_at(self.idx).fields, name) {
            Some(a) => Some(FieldEnv { parent_env: EnclosingEnv::Variant(self.duplicate()), idx: a }),
            None => None,
        }
    }

    /// Gets a field by its id, which must be the id of a field of this variant.
    pub fn get_field(&self, id: FieldId) -> (r: FieldEnv<'env>)
        requires
            exists|a: int|
                0 <= a < self.data().fields@.len() && (#[trigger] self.data().fields@[a]).name
                    == id@,
        ensures
            r.parent() == EnclosingEnv::Variant(*self),
            r.data().name == id@,
    {
        match self.find_field(id.symbol()) {
            Some(f) => f,
            None => {
                proof {
                    assert(false);
                }
                FieldEnv { parent_env: EnclosingEnv::Variant(self.duplicate()), idx: 0 }
            },
        }
    }

    /// The fields of this variant are consistent.
    proof fn lemma_fields_wf(self)
        requires
            self.enum_of().env().wf(),
            self.enum_of().index() < self.enum_of().env().enum_data@.len(),
            self.index() < self.enum_of().variants().len(),
        ensures
            self.enum_of().env().fields_wf(self.data().fields@),
    {
        let env = self.enum_of().env();
        assert(env.variants_wf(env.enum_data@[self.enum_of().index() as int].variants@));
    }

    /// Gets a field by its offset, which must be below the number of fields.
    pub fn get_field_by_offset(&self, offset: usize) -> (r: FieldEnv<'env>)
        requires
            offset < self.data().fields@.len(),
        ensures
            r.parent() == EnclosingEnv::Variant(*self),
            r.data().offset == offset,
    {
        proof {
            use_type_invariant(self);
            use_type_invariant(&self.enum_env);
            self.lemma_fields_wf();
        }
        let a = field_index_by_offset(&self.enum_env.variant_at(self.idx).fields, offset);
        FieldEnv { parent_env: EnclosingEnv::Variant(self.duplicate()), idx: a }
    }

    /// The fields of this variant, ordered by offset.
    pub fn get_fields(&self) -> (r: Vec<FieldEnv<'env>>)
        ensures
            r@.len() == self.data().fields@.len(),
            forall|k: int|
                0 <= k < r@.len() ==> (#[trigger] r@[k]).parent() == EnclosingEnv::Variant(*self)
                    && r@[k].data().offset == k,
            forall|a: int| 0 <= a < self.data().fields@.len() ==> #[trigger] field_listed(r@, a),
    {
        proof {
            use_type_invariant(self);
            use_type_invariant(&self.enum_env);
            self.lemma_fields_wf();
        }
        let n = self.get_field_count();
        let mut r: Vec<FieldEnv<'env>> = Vec::new();
        let mut k: usize = 0;
        while k < n
            invariant
                n == self.data().fields@.len(),
                offsets_numbered(self.data().fields@),
                k <= n,
                r@.len() == k,
                forall|j: int|
                    0 <= j < k ==> (#[trigger] r@[j]).parent() == EnclosingEnv::Variant(*self)
                        && r@[j].data().offset == j && r@[j].index() < n,
            decreases n - k,
        {
            let f = self.get_field_by_offset(k);
            proof {
                use_type_invariant(&f);
            }
            r.push(f);
            k = k + 1;
        }
        proof {
            let fs = self.data().fields@;
            let idx = r@.map_values(|f: FieldEnv<'env>| f.index() as int);
            assert forall|a: int| 0 <= a < fs.len() implies #[trigger] field_listed(r@, a) by {
                assert forall|k: int| 0 <= k < idx.len() implies 0 <= #[trigger] idx[k] < fs.len()
                    && fs[idx[k]].offset == k by {
                    assert(r@[k].data() == r@[k].parent().fields()[r@[k].index() as int]);
                }
                lemma_listed_by_offset(fs, idx, a);
                let k = choose|k: int| 0 <= k < idx.len() && idx[k] == a;
                assert(r@[k].index() == a);
            }
        }
        r
    }

    /// A copy of this reference.
    pub fn duplicate(&self) -> (r: VariantEnv<'env>)
        ensures
            r == *self,
    {
        proof {
            use_type_invariant(self);
        }
        VariantEnv { enum_env: self.enum_env.duplicate(), idx: self.idx }
    }
}

} // verus!
