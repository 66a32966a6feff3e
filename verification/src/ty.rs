//! Types of the Move model and their instantiation with type arguments.

use vstd::prelude::*;

use crate::model::{DatatypeId, ModuleId};

verus! {

/// The primitive types of Move and of its specification language.
#[derive(Debug, Clone, Copy, PartialEq, Eq, Structural, PartialOrd, Ord, Hash)]
pub enum PrimitiveType {
    Bool,
    U8,
    U16,
    U32,
    U64,
    U128,
    U256,
    Address,
    Signer,
    Num,
    Range,
    EventStore,
}

/// A type as it appears in the model.
#[derive(Debug, PartialEq, Eq, PartialOrd, Ord, Hash)]
pub enum Type {
    Primitive(PrimitiveType),
    Tuple(Vec<Type>),
    Vector(Box<Type>),
    Datatype(ModuleId, DatatypeId, Vec<Type>),
    TypeParameter(u16),
    Reference(bool, Box<Type>),
    Fun(Vec<Type>, Box<Type>),
    TypeDomain(Box<Type>),
    Error,
    Var(u16),
}

/// The mathematical value of a `Type`: the same tree, with sequences for vectors.
pub enum TypeView {
    Primitive(PrimitiveType),
    Tuple(Seq<TypeView>),
    Vector(Box<TypeView>),
    Datatype(ModuleId, DatatypeId, Seq<TypeView>),
    TypeParameter(u16),
    Reference(bool, Box<TypeView>),
    Fun(Seq<TypeView>, Box<TypeView>),
    TypeDomain(Box<TypeView>),
    Error,
    Var(u16),
}

pub open spec fn view_type(t: Type) -> TypeView
    decreases t,
{
    match t {
        Type::Primitive(p) => TypeView::Primitive(p),
        Type::Tuple(ts) => TypeView::Tuple(view_types(ts@)),
        Type::Vector(e) => TypeView::Vector(Box::new(view_type(*e))),
        Type::Datatype(m, d, ts) => TypeView::Datatype(m, d, view_types(ts@)),
        Type::TypeParameter(i) => TypeView::TypeParameter(i),
        Type::Reference(is_mut, e) => TypeView::Reference(is_mut, Box::new(view_type(*e))),
        Type::Fun(args, res) => TypeView::Fun(view_types(args@), Box::new(view_type(*res))),
        Type::TypeDomain(e) => TypeView::TypeDomain(Box::new(view_type(*e))),
        Type::Error => TypeView::Error,
        Type::Var(i) => TypeView::Var(i),
    }
}

/// The views of a sequence of types, element by element.
pub open spec fn view_types(s: Seq<Type>) -> Seq<TypeView>
    decreases s,
{
    if s.len() == 0 {
        Seq::empty()
    } else {
        view_types(s.drop_last()).push(view_type(s.last()))
    }
}

impl View for Type {
    type V = TypeView;

    open spec fn view(&self) -> TypeView {
        view_type(*self)
    }
}

/// Whether `t` is a mutable reference.
pub open spec fn is_mut_ref(t: TypeView) -> bool {
    match t {
        TypeView::Reference(is_mut, _) => is_mut,
        _ => false,
    }
}

/// Replaces every type parameter `i` in `t` by `ps[i]`.
pub open spec fn subst(t: TypeView, ps: Seq<TypeView>) -> TypeView
    decreases t,
{
    match t {
        TypeView::Primitive(p) => TypeView::Primitive(p),
        TypeView::Tuple(ts) => TypeView::Tuple(subst_seq(ts, ps)),
        TypeView::Vector(e) => TypeView::Vector(Box::new(subst(*e, ps))),
        TypeView::Datatype(m, d, ts) => TypeView::Datatype(m, d, subst_seq(ts, ps)),
        TypeView::TypeParameter(i) => ps[i as int],
        TypeView::Reference(is_mut, e) => TypeView::Reference(is_mut, Box::new(subst(*e, ps))),
        TypeView::Fun(args, res) => TypeView::Fun(subst_seq(args, ps), Box::new(subst(*res, ps))),
        TypeView::TypeDomain(e) => TypeView::TypeDomain(Box::new(subst(*e, ps))),
        TypeView::Error => TypeView::Error,
        TypeView::Var(i) => TypeView::Var(i),
    }
}

/// `subst` applied to each element of a sequence.
pub open spec fn subst_seq(s: Seq<TypeView>, ps: Seq<TypeView>) -> Seq<TypeView>
    decreases s,
{
    if s.len() == 0 {
        Seq::empty()
    } else {
        subst_seq(s.drop_last(), ps).push(subst(s.last(), ps))
    }
}

/// Every type parameter that occurs in `t` is below `n`.
pub open spec fn params_below(t: TypeView, n: nat) -> bool
    decreases t,
{
    match t {
        TypeView::Tuple(ts) => params_below_seq(ts, n),
        TypeView::Vector(e) => params_below(*e, n),
        TypeView::Datatype(_, _, ts) => params_below_seq(ts, n),
        TypeView::TypeParameter(i) => i < n,
        TypeView::Reference(_, e) => params_below(*e, n),
        TypeView::Fun(args, res) => params_below_seq(args, n) && params_below(*res, n),
        TypeView::TypeDomain(e) => params_below(*e, n),
        _ => true,
    }
}

/// Every type parameter that occurs in an element of `s` is below `n`.
pub open spec fn params_below_seq(s: Seq<TypeView>, n: nat) -> bool
    decreases s,
{
    if s.len() == 0 {
        true
    } else {
        params_below_seq(s.drop_last(), n) && params_below(s.last(), n)
    }
}

/// What `Type::instantiate` gives: the type unchanged for no parameters, else the
/// substitution.
pub open spec fn instantiate_view(t: TypeView, ps: Seq<TypeView>) -> TypeView {
    if ps.len() == 0 {
        t
    } else {
        subst(t, ps)
    }
}

/// What `Type::instantiate_vec` gives.
pub open spec fn instantiate_seq(s: Seq<TypeView>, ps: Seq<TypeView>) -> Seq<TypeView> {
    if ps.len() == 0 {
        s
    } else {
        subst_seq(s, ps)
    }
}

/// `instantiate` can be applied to `t` with `ps`: it indexes `ps` by every parameter of
/// `t` when `ps` is not empty.
pub open spec fn can_instantiate(t: TypeView, ps: Seq<TypeView>) -> bool {
    ps.len() > 0 ==> params_below(t, ps.len())
}

/// `instantiate_vec` can be applied to `s` with `ps`.
pub open spec fn can_instantiate_seq(s: Seq<TypeView>, ps: Seq<TypeView>) -> bool {
    ps.len() > 0 ==> params_below_seq(s, ps.len())
}

pub proof fn lemma_view_types_len(s: Seq<Type>)
    ensures
        view_types(s).len() == s.len(),
    decreases s.len(),
{
    if s.len() > 0 {
        lemma_view_types_len(s.drop_last());
    }
}

pub proof fn lemma_view_types_index(s: Seq<Type>, i: int)
    requires
        0 <= i < s.len(),
    ensures
        view_types(s).len() == s.len(),
        view_types(s)[i] == view_type(s[i]),
    decreases s.len(),
{
    lemma_view_types_len(s);
    if i < s.len() - 1 {
        lemma_view_types_index(s.drop_last(), i);
    }
}

pub proof fn lemma_view_types_push(s: Seq<Type>, t: Type)
    ensures
        view_types(s.push(t)) == view_types(s).push(view_type(t)),
{
    assert(s.push(t).drop_last() =~= s);
}

pub proof fn lemma_subst_seq_push(s: Seq<TypeView>, t: TypeView, ps: Seq<TypeView>)
    ensures
        subst_seq(s.push(t), ps) == subst_seq(s, ps).push(subst(t, ps)),
{
    assert(s.push(t).drop_last() =~= s);
}

pub proof fn lemma_params_below_seq_index(s: Seq<TypeView>, n: nat, i: int)
    requires
        params_below_seq(s, n),
        0 <= i < s.len(),
    ensures
        params_below(s[i], n),
    decreases s.len(),
{
    if i < s.len() - 1 {
        lemma_params_below_seq_index(s.drop_last(), n, i);
    }
}

pub proof fn lemma_view_types_take(s: Seq<Type>, i: int)
    requires
        0 <= i < s.len(),
    ensures
        view_types(s.take(i + 1)) == view_types(s.take(i)).push(view_type(s[i])),
{
    assert(s.take(i + 1).drop_last() =~= s.take(i));
}

pub proof fn lemma_subst_seq_len_index(s: Seq<TypeView>, ps: Seq<TypeView>)
    ensures
        subst_seq(s, ps).len() == s.len(),
        forall|i: int| 0 <= i < s.len() ==> #[trigger] subst_seq(s, ps)[i] == subst(s[i], ps),
    decreases s.len(),
{
    if s.len() > 0 {
        lemma_subst_seq_len_index(s.drop_last(), ps);
        assert forall|i: int| 0 <= i < s.len() implies #[trigger] subst_seq(s, ps)[i] == subst(
            s[i],
            ps,
        ) by {
            if i < s.len() - 1 {
                assert(subst_seq(s.drop_last(), ps)[i] == subst(s.drop_last()[i], ps));
            }
        }
    }
}

/// Substituting `ps` and then `qs` is substituting `ps` with `qs` substituted in it, for a
/// type whose parameters are all below the length of `ps`.
pub proof fn lemma_subst_compose(t: TypeView, ps: Seq<TypeView>, qs: Seq<TypeView>)
    requires
        params_below(t, ps.len()),
    ensures
        subst(subst(t, ps), qs) == subst(t, subst_seq(ps, qs)),
    decreases t, 0nat,
{
    lemma_subst_seq_len_index(ps, qs);
    match t {
        TypeView::Tuple(ts) => {
            lemma_subst_seq_compose(ts, ps, qs);
        },
        TypeView::Vector(e) => {
            lemma_subst_compose(*e, ps, qs);
        },
        TypeView::Datatype(_, _, ts) => {
            lemma_subst_seq_compose(ts, ps, qs);
        },
        TypeView::Reference(_, e) => {
            lemma_subst_compose(*e, ps, qs);
        },
        TypeView::Fun(args, res) => {
            lemma_subst_seq_compose(args, ps, qs);
            lemma_subst_compose(*res, ps, qs);
        },
        TypeView::TypeDomain(e) => {
            lemma_subst_compose(*e, ps, qs);
        },
        _ => {},
    }
}

/// `lemma_subst_compose` for each element of a sequence.
pub proof fn lemma_subst_seq_compose(s: Seq<TypeView>, ps: Seq<TypeView>, qs: Seq<TypeView>)
    requires
        params_below_seq(s, ps.len()),
    ensures
        subst_seq(subst_seq(s, ps), qs) == subst_seq(s, subst_seq(ps, qs)),
    decreases s, 1nat,
{
    if s.len() > 0 {
        lemma_subst_seq_compose(s.drop_last(), ps, qs);
        lemma_subst_compose(s.last(), ps, qs);
        let a = subst_seq(s.drop_last(), ps);
        lemma_subst_seq_push(a, subst(s.last(), ps), qs);
        lemma_subst_seq_len_index(ps, qs);
    }
}

/// Instantiating a type with `ps` and then with `qs` is instantiating it once, with `ps`
/// instantiated with `qs`, when `ps` is not empty.
pub proof fn lemma_instantiate_compose(t: TypeView, ps: Seq<TypeView>, qs: Seq<TypeView>)
    requires
        ps.len() > 0,
        can_instantiate(t, ps),
    ensures
        instantiate_view(instantiate_view(t, ps), qs) == instantiate_view(
            t,
            instantiate_seq(ps, qs),
        ),
{
    lemma_subst_seq_len_index(ps, qs);
    if qs.len() > 0 {
        lemma_subst_compose(t, ps, qs);
    }
}

/// Instantiating a sequence of types with `ps` and then with `qs` is instantiating it once,
/// with `ps` instantiated with `qs`, when `ps` is not empty.
pub proof fn lemma_instantiate_seq_compose(s: Seq<TypeView>, ps: Seq<TypeView>, qs: Seq<TypeView>)
    requires
        ps.len() > 0,
        can_instantiate_seq(s, ps),
    ensures
        instantiate_seq(instantiate_seq(s, ps), qs) == instantiate_seq(
            s,
            instantiate_seq(ps, qs),
        ),
{
    lemma_subst_seq_len_index(ps, qs);
    if qs.len() > 0 {
        lemma_subst_seq_compose(s, ps, qs);
    }
}

impl Clone for Type {
    fn clone(&self) -> (r: Type)
        ensures
            r@ == self@,
    {
        self.duplicate()
    }
}

impl Type {
    /// A copy of this type with the same view.
    pub fn duplicate(&self) -> (r: Type)
        ensures
            r@ == self@,
        decreases self,
    {
        match self {
            Type::Primitive(p) => Type::Primitive(*p),
            Type::Tuple(ts) => Type::Tuple(duplicate_types(ts)),
            Type::Vector(e) => Type::Vector(Box::new((**e).duplicate())),
            Type::Datatype(m, d, ts) => Type::Datatype(*m, *d, duplicate_types(ts)),
            Type::TypeParameter(i) => Type::TypeParameter(*i),
            Type::Reference(is_mut, e) => Type::Reference(*is_mut, Box::new((**e).duplicate())),
            Type::Fun(args, res) => Type::Fun(
                duplicate_types(args),
                Box::new((**res).duplicate()),
            ),
            Type::TypeDomain(e) => Type::TypeDomain(Box::new((**e).duplicate())),
            Type::Error => Type::Error,
            Type::Var(i) => Type::Var(*i),
        }
    }

    /// Replaces each type parameter `i` by `params[i]`.
    fn subst_params(&self, params: &[Type]) -> (r: Type)
        requires
            params_below(self@, params@.len()),
        ensures
            r@ == subst(self@, view_types(params@)),
        decreases self,
    {
        match self {
            Type::Primitive(p) => Type::Primitive(*p),
            Type::Tuple(ts) => Type::Tuple(subst_params_types(ts, params)),
            Type::Vector(e) => Type::Vector(Box::new((**e).subst_params(params))),
            Type::Datatype(m, d, ts) => Type::Datatype(*m, *d, subst_params_types(ts, params)),
            Type::TypeParameter(i) => {
                proof {
                    lemma_view_types_index(params@, *i as int);
                }
                params[*i as usize].duplicate()
            },
            Type::Reference(is_mut, e) => Type::Reference(
                *is_mut,
                Box::new((**e).subst_params(params)),
            ),
            Type::Fun(args, res) => Type::Fun(
                subst_params_types(args, params),
                Box::new((**res).subst_params(params)),
            ),
            Type::TypeDomain(e) => Type::TypeDomain(Box::new((**e).subst_params(params))),
            Type::Error => Type::Error,
            Type::Var(i) => Type::Var(*i),
        }
    }

    /// Instantiates the type parameters of this type with `params`. With no parameters
    /// the type stays as it is.
    pub fn instantiate(&self, params: &[Type]) -> (r: Type)
        requires
            can_instantiate(self@, view_types(params@)),
        ensures
            r@ == instantiate_view(self@, view_types(params@)),
    {
        proof {
            lemma_view_types_len(params@);
        }
        if params.len() == 0 {
            self.duplicate()
        } else {
            self.subst_params(params)
        }
    }

    /// Instantiates each type of `vec` with `params`.
    pub fn instantiate_vec(vec: Vec<Type>, params: &[Type]) -> (r: Vec<Type>)
        requires
            can_instantiate_seq(view_types(vec@), view_types(params@)),
        ensures
            view_types(r@) == instantiate_seq(view_types(vec@), view_types(params@)),
    {
        proof {
            lemma_view_types_len(params@);
        }
        if params.len() == 0 {
            vec
        } else {
            subst_params_types(&vec, params)
        }
    }

    /// Whether this is a mutable reference.
    pub fn is_mutable_reference(&self) -> (r: bool)
        ensures
            r == is_mut_ref(self@),
    {
        match self {
            Type::Reference(is_mut, _) => *is_mut,
            _ => false,
        }
    }
}

/// A copy of each type of `ts`.
pub fn duplicate_types(ts: &Vec<Type>) -> (r: Vec<Type>)
    ensures
        view_types(r@) == view_types(ts@),
    decreases ts,
{
    let mut r: Vec<Type> = Vec::new();
    let n = ts.len();
    let mut i: usize = 0;
    while i < n
        invariant
            n == ts@.len(),
            i <= n,
            view_types(r@) == view_types(ts@.take(i as int)),
        decreases n - i,
    {
        proof {
            lemma_view_types_take(ts@, i as int);
            lemma_view_types_push(r@, ts@[i as int]);
            assert(decreases_to!(ts => ts@[i as int]));
        }
        let t = ts[i].duplicate();
        proof {
            lemma_view_types_push(r@, t);
        }
        r.push(t);
        i = i + 1;
    }
    proof {
        assert(ts@.take(n as int) =~= ts@);
    }
    r
}

/// Each type of `ts` with its type parameters replaced by `params`.
fn subst_params_types(ts: &Vec<Type>, params: &[Type]) -> (r: Vec<Type>)
    requires
        params_below_seq(view_types(ts@), params@.len()),
    ensures
        view_types(r@) == subst_seq(view_types(ts@), view_types(params@)),
    decreases ts,
{
    let mut r: Vec<Type> = Vec::new();
    let n = ts.len();
    let mut i: usize = 0;
    let ghost ps = view_types(params@);
    while i < n
        invariant
            n == ts@.len(),
            i <= n,
            ps == view_types(params@),
            params_below_seq(view_types(ts@), params@.len()),
            view_types(r@) == subst_seq(view_types(ts@.take(i as int)), ps),
        decreases n - i,
    {
        proof {
            lemma_view_types_take(ts@, i as int);
            lemma_view_types_index(ts@, i as int);
            lemma_params_below_seq_index(view_types(ts@), params@.len(), i as int);
            lemma_subst_seq_push(view_types(ts@.take(i as int)), view_type(ts@[i as int]), ps);
            assert(decreases_to!(ts => ts@[i as int]));
        }
        let t = ts[i].subst_params(params);
        proof {
            lemma_view_types_push(r@, t);
        }
        r.push(t);
        i = i + 1;
    }
    proof {
        assert(ts@.take(n as int) =~= ts@);
    }
    r
}

} // verus!
