//! Identifiers of the entities of the model, identifiers qualified by a module (and a type
//! instantiation), and the scope of verification.

use vstd::prelude::*;

use crate::symbol::Symbol;
use crate::ty::{
    Type, TypeView, can_instantiate_seq, duplicate_types, instantiate_seq, instantiate_view,
    view_types,
};

verus! {

/// Raw index type used in ids. 16 bits are sufficient currently.
pub type RawIndex = u16;

/// Identifier for a module.
#[derive(Debug, PartialEq, Eq, Structural, Ord, Hash, Clone, Copy)]
pub struct ModuleId(RawIndex);

/// Identifier for a named constant, relative to module.
#[derive(Debug, PartialEq, Eq, Structural, Ord, Hash, Clone, Copy)]
pub struct NamedConstantId(Symbol);

/// Identifier for a datatype, relative to module.
#[derive(Debug, PartialEq, Eq, Structural, Ord, Hash, Clone, Copy)]
pub struct DatatypeId(Symbol);

/// Identifier for an enum variant, relative to an enum.
#[derive(Debug, PartialEq, Eq, Structural, Ord, Hash, Clone, Copy)]
pub struct VariantId(Symbol);

/// Identifier for a field of a structure, relative to struct.
#[derive(Debug, PartialEq, Eq, Structural, Ord, Hash, Clone, Copy)]
pub struct FieldId(Symbol);

/// Identifier for a Move function, relative to module.
#[derive(Debug, PartialEq, Eq, Structural, Ord, Hash, Clone, Copy)]
pub struct FunId(Symbol);

/// Identifier for a node in the AST, relative to a module.
#[derive(Debug, PartialEq, Eq, Structural, Ord, Hash, Clone, Copy)]
pub struct NodeId(usize);

/// A global id, unique relative to the global environment.
#[derive(Debug, PartialEq, Eq, Structural, Ord, Hash, Clone, Copy)]
pub struct GlobalId(usize);

/// Identifier for an intrinsic declaration, relative globally to the environment.
#[derive(Debug, PartialEq, Eq, Structural, Ord, Hash, Clone, Copy)]
pub struct IntrinsicId(usize);

/// Some identifier qualified by a module.
#[derive(Debug, PartialEq, Eq, Ord, Hash, Clone, Copy)]
pub struct QualifiedId<Id> {
    pub module_id: ModuleId,
    pub id: Id,
}

/// Reference type when unpacking an enum variant.
#[derive(Debug, PartialEq, Eq, Structural, PartialOrd, Ord, Hash, Clone, Copy)]
pub enum RefType {
    ByValue,
    ByImmRef,
    ByMutRef,
}

/// Some identifier qualified by a module and a type instantiation.
#[derive(Debug, PartialEq, Eq, PartialOrd, Ord, Hash, Clone)]
pub struct QualifiedInstId<Id> {
    pub module_id: ModuleId,
    pub inst: Vec<Type>,
    pub id: Id,
}

impl View for ModuleId {
    type V = nat;

    closed spec fn view(&self) -> nat {
        self.0 as nat
    }
}

impl View for NamedConstantId {
    type V = Symbol;

    closed spec fn view(&self) -> Symbol {
        self.0
    }
}

impl View for DatatypeId {
    type V = Symbol;

    closed spec fn view(&self) -> Symbol {
        self.0
    }
}

impl View for VariantId {
    type V = Symbol;

    closed spec fn view(&self) -> Symbol {
        self.0
    }
}

impl View for FieldId {
    type V = Symbol;

    closed spec fn view(&self) -> Symbol {
        self.0
    }
}

impl View for FunId {
    type V = Symbol;

    closed spec fn view(&self) -> Symbol {
        self.0
    }
}

impl FunId {
    /// Two function ids with the same symbol are the same id.
    pub proof fn lemma_view_injective(a: FunId, b: FunId)
        ensures
            a@ == b@ <==> a == b,
    {
    }
}

impl View for NodeId {
    type V = nat;

    closed spec fn view(&self) -> nat {
        self.0 as nat
    }
}

impl View for GlobalId {
    type V = nat;

    closed spec fn view(&self) -> nat {
        self.0 as nat
    }
}

impl View for IntrinsicId {
    type V = nat;

    closed spec fn view(&self) -> nat {
        self.0 as nat
    }
}

impl NamedConstantId {
    /// Two named constant ids with the same symbol are the same id.
    pub proof fn lemma_view_injective(a: NamedConstantId, b: NamedConstantId)
        ensures
            a@ == b@ <==> a == b,
    {
    }

    pub fn new(sym: Symbol) -> (r: Self)
        ensures
            r@ == sym,
    {
        Self(sym)
    }

    pub fn symbol(self) -> (r: Symbol)
        ensures
            r == self@,
    {
        self.0
    }
}

impl FunId {
    pub fn new(sym: Symbol) -> (r: Self)
        ensures
            r@ == sym,
    {
        Self(sym)
    }

    pub fn symbol(self) -> (r: Symbol)
        ensures
            r == self@,
    {
        self.0
    }
}

impl DatatypeId {
    /// Two ids with the same symbol are the same id.
    pub proof fn lemma_view_injective(a: DatatypeId, b: DatatypeId)
        ensures
            a@ == b@ <==> a == b,
    {
    }

    pub fn new(sym: Symbol) -> (r: Self)
        ensures
            r@ == sym,
    {
        Self(sym)
    }

    pub fn symbol(self) -> (r: Symbol)
        ensures
            r == self@,
    {
        self.0
    }
}

impl VariantId {
    /// Two variant ids with the same symbol are the same id.
    pub proof fn lemma_view_injective(a: VariantId, b: VariantId)
        ensures
            a@ == b@ <==> a == b,
    {
    }

    pub fn new(sym: Symbol) -> (r: Self)
        ensures
            r@ == sym,
    {
        Self(sym)
    }

    pub fn symbol(self) -> (r: Symbol)
        ensures
            r == self@,
    {
        self.0
    }
}

impl FieldId {
    /// Two ids with the same symbol are the same id.
    pub proof fn lemma_view_injective(a: FieldId, b: FieldId)
        ensures
            a@ == b@ <==> a == b,
    {
    }

    pub fn new(sym: Symbol) -> (r: Self)
        ensures
            r@ == sym,
    {
        Self(sym)
    }

    pub fn symbol(self) -> (r: Symbol)
        ensures
            r == self@,
    {
        self.0
    }
}

impl NodeId {
    /// Two node ids with the same number are the same id.
    pub proof fn lemma_view_injective(a: NodeId, b: NodeId)
        ensures
            a@ == b@ <==> a == b,
    {
    }

    pub fn new(idx: usize) -> (r: Self)
        ensures
            r@ == idx,
    {
        Self(idx)
    }

    pub fn as_usize(self) -> (r: usize)
        ensures
            r == self@,
    {
        self.0
    }
}

impl ModuleId {
    /// The module with the given index; the index is kept modulo 2^16, as a `RawIndex`
    /// holds 16 bits.
    pub fn new(idx: usize) -> (r: Self)
        ensures
            r@ == idx % 0x10000,
    {
        let raw = idx as RawIndex;
        assert(raw == idx % 0x10000) by (bit_vector)
            requires
                raw == idx as u16,
        ;
        Self(raw)
    }

    pub fn to_usize(self) -> (r: usize)
        ensures
            r == self@,
            r < 0x10000,
    {
        self.0 as usize
    }

    pub fn qualified<Id>(self, id: Id) -> (r: QualifiedId<Id>)
        ensures
            r.module_id == self,
            r.id == id,
    {
        QualifiedId { module_id: self, id }
    }

    pub fn qualified_inst<Id>(self, id: Id, inst: Vec<Type>) -> (r: QualifiedInstId<Id>)
        ensures
            r.module_id == self,
            r.id == id,
            r.inst == inst,
    {
        QualifiedInstId { module_id: self, inst, id }
    }

    /// Two module ids with the same index are the same id.
    pub proof fn lemma_view_injective(a: ModuleId, b: ModuleId)
        ensures
            a@ == b@ <==> a == b,
    {
    }
}

impl GlobalId {
    /// Two global ids with the same number are the same id.
    pub proof fn lemma_view_injective(a: GlobalId, b: GlobalId)
        ensures
            a@ == b@ <==> a == b,
    {
    }

    pub fn new(idx: usize) -> (r: Self)
        ensures
            r@ == idx,
    {
        Self(idx)
    }

    pub fn as_usize(self) -> (r: usize)
        ensures
            r == self@,
    {
        self.0
    }
}

impl IntrinsicId {
    /// Two intrinsic ids with the same number are the same id.
    pub proof fn lemma_view_injective(a: IntrinsicId, b: IntrinsicId)
        ensures
            a@ == b@ <==> a == b,
    {
    }

    pub fn new(idx: usize) -> (r: Self)
        ensures
            r@ == idx,
    {
        Self(idx)
    }

    pub fn as_usize(self) -> (r: usize)
        ensures
            r == self@,
    {
        self.0
    }
}

impl<Id: Clone> QualifiedId<Id> {
    /// This identifier with the type instantiation `inst`.
    pub fn instantiate(self, inst: Vec<Type>) -> (r: QualifiedInstId<Id>)
        ensures
            r.module_id == self.module_id,
            r.id == self.id,
            r.inst == inst,
    {
        let QualifiedId { module_id, id } = self;
        QualifiedInstId { module_id, inst, id }
    }
}

impl<Id: Clone> QualifiedInstId<Id> {
    /// The views of the types of the instantiation.
    pub open spec fn inst_view(&self) -> Seq<TypeView> {
        view_types(self.inst@)
    }

    /// `r` is this id with its instantiation instantiated with `params`.
    pub open spec fn instantiates(&self, params: Seq<TypeView>, r: Self) -> bool {
        &&& r.module_id == self.module_id
        &&& r.id == self.id
        &&& r.inst_view() == instantiate_seq(self.inst_view(), params)
    }

    /// `r` is a copy of this id, its id a clone of this one's, with its instantiation
    /// instantiated with `params`.
    pub open spec fn instantiates_copy(&self, params: Seq<TypeView>, r: Self) -> bool {
        &&& r.module_id == self.module_id
        &&& cloned(self.id, r.id)
        &&& r.inst_view() == instantiate_seq(self.inst_view(), params)
    }

    /// `r` is this id without its instantiation, its id a clone of this one's.
    pub open spec fn drops_inst(&self, r: QualifiedId<Id>) -> bool {
        r.module_id == self.module_id && cloned(self.id, r.id)
    }

    /// Instantiates the type instantiation of this id with `params`.
    pub fn instantiate(self, params: &[Type]) -> (r: Self)
        requires
            can_instantiate_seq(self.inst_view(), view_types(params@)),
        ensures
            self.instantiates(view_types(params@), r),
    {
        if params.len() == 0 {
            self
        } else {
            let Self { module_id, inst, id } = self;
            Self { module_id, inst: Type::instantiate_vec(inst, params), id }
        }
    }

    /// Like `instantiate`, on a copy of this id.
    pub fn instantiate_ref(&self, params: &[Type]) -> (r: Self)
        requires
            can_instantiate_seq(self.inst_view(), view_types(params@)),
        ensures
            self.instantiates_copy(view_types(params@), r),
    {
        let res = Self {
            module_id: self.module_id,
            inst: duplicate_types(&self.inst),
            id: self.id.clone(),
        };
        res.instantiate(params)
    }

    /// This id without its type instantiation.
    pub fn to_qualified_id(&self) -> (r: QualifiedId<Id>)
        ensures
            self.drops_inst(r),
    {
        let Self { module_id, id, .. } = self;
        module_id.qualified(id.clone())
    }
}

impl QualifiedInstId<DatatypeId> {
    /// The datatype denoted by this id, as a type.
    pub fn to_type(&self) -> (r: Type)
        ensures
            r@ == TypeView::Datatype(self.module_id, self.id, self.inst_view()),
    {
        Type::Datatype(self.module_id, self.id, duplicate_types(&self.inst))
    }
}

/// For an id type whose clones are the ids they clone, instantiating a copy of an id gives
/// what instantiating the id itself gives, and instantiating never changes the module or the
/// id: the qualified id that is left when the instantiation is dropped, before or after, is
/// the module and id the qualified id was made of. Every id type of the model is such a type
/// (`lemma_id_clones_exact`).
pub proof fn lemma_inst_id_keeps_id<Id: Clone>(
    q: QualifiedInstId<Id>,
    params: Seq<TypeView>,
    copy: QualifiedInstId<Id>,
    before: QualifiedId<Id>,
    after: QualifiedId<Id>,
)
    requires
        forall|a: Id, b: Id| #[trigger] cloned(a, b) ==> a == b,
        q.instantiates_copy(params, copy),
        q.drops_inst(before),
        copy.drops_inst(after),
    ensures
        q.instantiates(params, copy),
        before == (QualifiedId { module_id: q.module_id, id: q.id }),
        after == before,
{
    assert(cloned(q.id, copy.id));
    assert(cloned(q.id, before.id));
    assert(cloned(copy.id, after.id));
}

/// A clone of an id of the model is the id it clones, for every id type of the model.
pub proof fn lemma_id_clones_exact()
    ensures
        forall|a: ModuleId, b: ModuleId| #[trigger] cloned(a, b) ==> a == b,
        forall|a: FunId, b: FunId| #[trigger] cloned(a, b) ==> a == b,
        forall|a: DatatypeId, b: DatatypeId| #[trigger] cloned(a, b) ==> a == b,
        forall|a: NamedConstantId, b: NamedConstantId| #[trigger] cloned(a, b) ==> a == b,
        forall|a: VariantId, b: VariantId| #[trigger] cloned(a, b) ==> a == b,
        forall|a: FieldId, b: FieldId| #[trigger] cloned(a, b) ==> a == b,
        forall|a: NodeId, b: NodeId| #[trigger] cloned(a, b) ==> a == b,
        forall|a: GlobalId, b: GlobalId| #[trigger] cloned(a, b) ==> a == b,
        forall|a: IntrinsicId, b: IntrinsicId| #[trigger] cloned(a, b) ==> a == b,
{
}

/// Taking a datatype id as a type commutes with instantiation: the type of the id
/// instantiated with `params` is the type of the id, instantiated with `params`.
pub proof fn lemma_to_type_commutes_with_instantiate(
    q: QualifiedInstId<DatatypeId>,
    params: Seq<TypeView>,
    r: QualifiedInstId<DatatypeId>,
)
    requires
        q.instantiates(params, r),
    ensures
        TypeView::Datatype(r.module_id, r.id, r.inst_view()) == instantiate_view(
            TypeView::Datatype(q.module_id, q.id, q.inst_view()),
            params,
        ),
{
}

/// A parameter of a function: its name and its type.
#[derive(Debug, Clone)]
pub struct Parameter(pub Symbol, pub Type);

// =================================================================================================
// # Verification Scope

/// Defines what functions to verify.
#[derive(Debug, Clone, PartialEq, Eq, PartialOrd)]
pub enum VerificationScope {
    /// Verify only public functions.
    Public,
    /// Verify all functions.
    All,
    /// Verify only one function.
    Only(String),
    /// Verify only functions from the given module.
    OnlyModule(String),
    /// Verify no functions.
    Nothing,
}

impl Default for VerificationScope {
    fn default() -> (r: Self)
        ensures
            r == VerificationScope::Public,
    {
        Self::Public
    }
}

impl VerificationScope {
    /// Whether verification is exclusive to only one function or module. If set, this overrides
    /// all implicitly included verification targets via invariants and friends.
    pub fn is_exclusive(&self) -> (r: bool)
        ensures
            r == (self is Only || self is OnlyModule),
    {
        match self {
            VerificationScope::Only(_) | VerificationScope::OnlyModule(_) => true,
            _ => false,
        }
    }

    /// Returns the target function if verification is exclusive to one function.
    pub fn get_exclusive_verify_function_name(&self) -> (r: Option<&String>)
        ensures
            self is Only ==> r == Some(&self->Only_0),
            !(self is Only) ==> r is None,
    {
        match self {
            VerificationScope::Only(s) => Some(s),
            _ => None,
        }
    }
}

} // verus!
