//! Native equality in the Boogie backend: which types can be compared with the equality of
//! Boogie rather than with a generated equality function.

use vstd::prelude::*;

use crate::enums::{EnumEnv, VariantData, VariantEnv, is_enum_key};
use crate::env::GlobalEnv;
use crate::model::{DatatypeId, ModuleId, QualifiedId};
use crate::structs::{FieldData, StructEnv, is_struct_key};
use crate::ty::{Type, TypeView, can_instantiate, instantiate_view, view_types, lemma_view_types_len, lemma_view_types_push, lemma_view_types_take};

verus! {

/// The options of the Boogie backend that decide native equality.
pub struct BoogieOptions {
    /// Whether every type is compared with the equality of Boogie.
    pub native_equality: bool,
}

/// The position of the struct `q` in the environment.
pub open spec fn struct_position(env: &GlobalEnv, q: QualifiedId<DatatypeId>) -> int {
    choose|i: int| 0 <= i < env.struct_data@.len() && is_struct_key(#[trigger] env.struct_data@[i], q)
}

/// The position of the enum `q` in the environment.
pub open spec fn enum_position(env: &GlobalEnv, q: QualifiedId<DatatypeId>) -> int {
    choose|i: int| 0 <= i < env.enum_data@.len() && is_enum_key(#[trigger] env.enum_data@[i], q)
}

/// The type `ty` has native equality, looking into at most `fuel` nested datatypes: a vector
/// has none; a struct or an enum has it where the type of each of its fields, instantiated
/// with the type arguments, has it; every other type has it. The struct of a qualified id
/// is taken where there is one, else the enum.
pub open spec fn native_eq(env: &GlobalEnv, ty: TypeView, fuel: nat) -> bool
    decreases fuel,
{
    match ty {
        TypeView::Vector(_) => false,
        TypeView::Datatype(m, d, inst) => {
            let q = QualifiedId { module_id: m, id: d };
            &&& fuel > 0
            &&& if env.has_struct(q) {
                forall|a: int|
                    0 <= a < env.struct_data@[struct_position(env, q)].fields@.len() ==> native_eq(
                        env,
                        instantiate_view(
                            (#[trigger] env.struct_data@[struct_position(env, q)].fields@[a]).ty@,
                            inst,
                        ),
                        (fuel - 1) as nat,
                    )
            } else {
                forall|v: int, a: int|
                    0 <= v < env.enum_data@[enum_position(env, q)].variants@.len() && 0 <= a
                        < env.enum_data@[enum_position(env, q)].variants@[v].fields@.len()
                        ==> native_eq(
                        env,
                        instantiate_view(
                            (#[trigger] env.enum_data@[enum_position(
                                env,
                                q,
                            )].variants@[v].fields@[a]).ty@,
                            inst,
                        ),
                        (fuel - 1) as nat,
                    )
            }
        },
        _ => true,
    }
}

/// The search for native equality of `ty` ends within `fuel` nested datatypes: every
/// datatype that it meets is a struct or an enum of the environment, whose field types can
/// be instantiated with the type arguments, and the datatypes nest less than `fuel` deep.
pub open spec fn eq_defined(env: &GlobalEnv, ty: TypeView, fuel: nat) -> bool
    decreases fuel,
{
    match ty {
        TypeView::Datatype(m, d, inst) => {
            let q = QualifiedId { module_id: m, id: d };
            &&& fuel > 0
            &&& env.has_struct(q) || env.has_enum(q)
            &&& if env.has_struct(q) {
                forall|a: int|
                    0 <= a < env.struct_data@[struct_position(env, q)].fields@.len() ==> {
                        let t = (#[trigger] env.struct_data@[struct_position(env, q)].fields@[a]).ty@;
                        can_instantiate(t, inst) && eq_defined(
                            env,
                            instantiate_view(t, inst),
                            (fuel - 1) as nat,
                        )
                    }
            } else {
                forall|v: int, a: int|
                    0 <= v < env.enum_data@[enum_position(env, q)].variants@.len() && 0 <= a
                        < env.enum_data@[enum_position(env, q)].variants@[v].fields@.len() ==> {
                        let t = (#[trigger] env.enum_data@[enum_position(
                            env,
                            q,
                        )].variants@[v].fields@[a]).ty@;
                        can_instantiate(t, inst) && eq_defined(
                            env,
                            instantiate_view(t, inst),
                            (fuel - 1) as nat,
                        )
                    }
            }
        },
        _ => true,
    }
}

/// The number of nested datatypes within which the search for native equality of `ty` ends,
/// where it ends.
pub open spec fn eq_fuel(env: &GlobalEnv, ty: TypeView) -> nat {
    choose|f: nat| eq_defined(env, ty, f)
}

/// Native equality does not depend on how far the search may look: where it ends within
/// `f` nested datatypes, it ends within any `g` more, with the same answer.
pub proof fn lemma_native_eq_fuel(env: &GlobalEnv, ty: TypeView, f: nat, g: nat)
    requires
        eq_defined(env, ty, f),
        f <= g,
    ensures
        eq_defined(env, ty, g),
        native_eq(env, ty, f) == native_eq(env, ty, g),
    decreases f,
{
    match ty {
        TypeView::Datatype(m, d, inst) => {
            let q = QualifiedId { module_id: m, id: d };
            let f1 = (f - 1) as nat;
            let g1 = (g - 1) as nat;
            if env.has_struct(q) {
                let fs = env.struct_data@[struct_position(env, q)].fields@;
                assert forall|a: int| 0 <= a < fs.len() implies eq_defined(
                    env,
                    instantiate_view((#[trigger] fs[a]).ty@, inst),
                    g1,
                ) && native_eq(env, instantiate_view(fs[a].ty@, inst), f1) == native_eq(
                    env,
                    instantiate_view(fs[a].ty@, inst),
                    g1,
                ) by {
                    lemma_native_eq_fuel(env, instantiate_view(fs[a].ty@, inst), f1, g1);
                }
                if native_eq(env, ty, f) {
                    assert forall|a: int| 0 <= a < fs.len() implies native_eq(
                        env,
                        instantiate_view((#[trigger] fs[a]).ty@, inst),
                        g1,
                    ) by {
                        assert(native_eq(env, instantiate_view(fs[a].ty@, inst), f1));
                    }
                }
                if native_eq(env, ty, g) {
                    assert forall|a: int| 0 <= a < fs.len() implies native_eq(
                        env,
                        instantiate_view((#[trigger] fs[a]).ty@, inst),
                        f1,
                    ) by {
                        assert(native_eq(env, instantiate_view(fs[a].ty@, inst), g1));
                    }
                }
            } else {
                let vs = env.enum_data@[enum_position(env, q)].variants@;
                assert forall|v: int, a: int| 0 <= v < vs.len() && 0 <= a < vs[v].fields@.len() implies eq_defined(
                    env,
                    instantiate_view((#[trigger] vs[v].fields@[a]).ty@, inst),
                    g1,
                ) && native_eq(env, instantiate_view(vs[v].fields@[a].ty@, inst), f1) == native_eq(
                    env,
                    instantiate_view(vs[v].fields@[a].ty@, inst),
                    g1,
                ) by {
                    lemma_native_eq_fuel(env, instantiate_view(vs[v].fields@[a].ty@, inst), f1, g1);
                }
                if native_eq(env, ty, f) {
                    assert forall|v: int, a: int| 0 <= v < vs.len() && 0 <= a < vs[v].fields@.len() implies native_eq(
                        env,
                        instantiate_view((#[trigger] vs[v].fields@[a]).ty@, inst),
                        g1,
                    ) by {
                        assert(native_eq(env, instantiate_view(vs[v].fields@[a].ty@, inst), f1));
                    }
                }
                if native_eq(env, ty, g) {
                    assert forall|v: int, a: int| 0 <= v < vs.len() && 0 <= a < vs[v].fields@.len() implies native_eq(
                        env,
                        instantiate_view((#[trigger] vs[v].fields@[a]).ty@, inst),
                        f1,
                    ) by {
                        assert(native_eq(env, instantiate_view(vs[v].fields@[a].ty@, inst), g1));
                    }
                }
            }
        },
        _ => {},
    }
}

/// The fields of the struct `q`.
pub open spec fn struct_fields_of(env: &GlobalEnv, q: QualifiedId<DatatypeId>) -> Seq<FieldData> {
    env.struct_data@[struct_position(env, q)].fields@
}

/// The variants of the enum `q`.
pub open spec fn enum_variants_of(env: &GlobalEnv, q: QualifiedId<DatatypeId>) -> Seq<VariantData> {
    env.enum_data@[enum_position(env, q)].variants@
}

/// A vector never has native equality. A struct has native equality exactly when the type of
/// every one of its fields, at every position, instantiated with the type arguments, has it;
/// an enum, when the type of every field of every variant does. So a struct or an enum with a
/// field of vector type, at any position, has no native equality.
pub proof fn lemma_native_eq_fields(
    env: &GlobalEnv,
    q: QualifiedId<DatatypeId>,
    inst: Seq<TypeView>,
    fuel: nat,
)
    requires
        fuel > 0,
    ensures
        forall|e: Box<TypeView>| !native_eq(env, TypeView::Vector(e), fuel),
        env.has_struct(q) ==> (native_eq(env, datatype_view(q, inst), fuel) <==> forall|a: int|
            0 <= a < struct_fields_of(env, q).len() ==> native_eq(
                env,
                instantiate_view((#[trigger] struct_fields_of(env, q)[a]).ty@, inst),
                (fuel - 1) as nat,
            )),
        env.has_struct(q) && (exists|a: int|
            0 <= a < struct_fields_of(env, q).len() && instantiate_view(
                (#[trigger] struct_fields_of(env, q)[a]).ty@,
                inst,
            ) is Vector) ==> !native_eq(env, datatype_view(q, inst), fuel),
        !env.has_struct(q) ==> (native_eq(env, datatype_view(q, inst), fuel) <==> forall|
            v: int,
            a: int,
        |
            0 <= v < enum_variants_of(env, q).len() && 0 <= a < enum_variants_of(
                env,
                q,
            )[v].fields@.len() ==> native_eq(
                env,
                instantiate_view((#[trigger] enum_variants_of(env, q)[v].fields@[a]).ty@, inst),
                (fuel - 1) as nat,
            )),
        !env.has_struct(q) && (exists|v: int, a: int|
            0 <= v < enum_variants_of(env, q).len() && 0 <= a < enum_variants_of(
                env,
                q,
            )[v].fields@.len() && instantiate_view(
                (#[trigger] enum_variants_of(env, q)[v].fields@[a]).ty@,
                inst,
            ) is Vector) ==> !native_eq(env, datatype_view(q, inst), fuel),
{
    let t = datatype_view(q, inst);
    if env.has_struct(q) {
        if exists|a: int|
            0 <= a < struct_fields_of(env, q).len() && instantiate_view(
                (#[trigger] struct_fields_of(env, q)[a]).ty@,
                inst,
            ) is Vector {
            let a = choose|a: int|
                0 <= a < struct_fields_of(env, q).len() && instantiate_view(
                    (#[trigger] struct_fields_of(env, q)[a]).ty@,
                    inst,
                ) is Vector;
            assert(!native_eq(
                env,
                instantiate_view(struct_fields_of(env, q)[a].ty@, inst),
                (fuel - 1) as nat,
            ));
        }
    } else {
        if exists|v: int, a: int|
            0 <= v < enum_variants_of(env, q).len() && 0 <= a < enum_variants_of(
                env,
                q,
            )[v].fields@.len() && instantiate_view(
                (#[trigger] enum_variants_of(env, q)[v].fields@[a]).ty@,
                inst,
            ) is Vector {
            let (v, a) = choose|v: int, a: int|
                0 <= v < enum_variants_of(env, q).len() && 0 <= a < enum_variants_of(
                    env,
                    q,
                )[v].fields@.len() && instantiate_view(
                    (#[trigger] enum_variants_of(env, q)[v].fields@[a]).ty@,
                    inst,
                ) is Vector;
            assert(!native_eq(
                env,
                instantiate_view(enum_variants_of(env, q)[v].fields@[a].ty@, inst),
                (fuel - 1) as nat,
            ));
        }
    }
}

/// A copy of each type of `ts`.
fn duplicate_slice(ts: &[Type]) -> (r: Vec<Type>)
    ensures
        view_types(r@) == view_types(ts@),
{
    let mut r: Vec<Type> = Vec::new();
    let n = ts.len();
    let mut i: usize = 0;
    while i < n
        invariant
            n == ts@.len(),
            i <= n,
            view_types(r@) == view_types(ts@.take(i as int)),
        decreases n - i,
    {
        proof {
            lemma_view_types_take(ts@, i as int);
        }
        let t = ts[i].duplicate();
        proof {
            lemma_view_types_push(r@, t);
        }
        r.push(t);
        i = i + 1;
    }
    proof {
        assert(ts@.take(n as int) =~= ts@);
    }
    r
}

/// Whether `ty` has native equality, looking into at most `fuel` nested datatypes.
fn native_eq_rec(env: &GlobalEnv, ty: &Type, Ghost(fuel): Ghost<nat>) -> (r: bool)
    requires
        env.wf(),
        eq_defined(env, ty@, fuel),
    ensures
        r == native_eq(env, ty@, fuel),
    decreases fuel,
{
    match ty {
        Type::Vector(_) => false,
        Type::Datatype(m, d, inst) => {
            let q = m.qualified(*d);
            let ghost iv = view_types(inst@);
            proof {
                lemma_view_types_len(inst@);
            }
            match env.find_struct_position(&q) {
                Some(i) => {
                    proof {
                        let c = struct_position(env, q);
                        crate::structs::lemma_struct_key_identifies(*env, i as int, c, q);
                    }
                    let fs = &env.struct_data[i].fields;
                    let n = fs.len();
                    let mut a: usize = 0;
                    while a < n
                        invariant
                            env.wf(),
                            i == struct_position(env, q),
                            env.has_struct(q),
                            *fs == env.struct_data@[i as int].fields,
                            n == fs@.len(),
                            a <= n,
                            fuel > 0,
                            iv == view_types(inst@),
                            eq_defined(env, ty@, fuel),
                            ty@ == TypeView::Datatype(q.module_id, q.id, iv),
                            forall|b: int|
                                0 <= b < a ==> native_eq(
                                    env,
                                    instantiate_view((#[trigger] fs@[b]).ty@, iv),
                                    (fuel - 1) as nat,
                                ),
                        decreases n - a,
                    {
                        proof {
                            assert(env.struct_data@[struct_position(env, q)].fields@[a as int] == fs@[a as int]);
                        }
                        let t = fs[a].ty.instantiate(inst.as_slice());
                        if !native_eq_rec(env, &t, Ghost((fuel - 1) as nat)) {
                            proof {
                                assert(env.struct_data@[struct_position(env, q)].fields@[a as int] == fs@[a as int]);
                            }
                            return false;
                        }
                        a = a + 1;
                    }
                    proof {
                        assert forall|b: int|
                            0 <= b < env.struct_data@[struct_position(env, q)].fields@.len() implies native_eq(
                            env,
                            instantiate_view(
                                (#[trigger] env.struct_data@[struct_position(env, q)].fields@[b]).ty@,
                                iv,
                            ),
                            (fuel - 1) as nat,
                        ) by {
                            assert(env.struct_data@[struct_position(env, q)].fields@[b] == fs@[b]);
                        }
                    }
                    true
                },
                None => {
                    let j = match env.find_enum_position(&q) {
                        Some(j) => j,
                        None => {
                            proof {
                                assert(false);
                            }
                            return false;
                        },
                    };
                    proof {
                        let c = enum_position(env, q);
                        crate::enums::lemma_enum_key_identifies(*env, j as int, c, q);
                    }
                    let vs = &env.enum_data[j].variants;
                    let nv = vs.len();
                    let mut v: usize = 0;
                    while v < nv
                        invariant
                            env.wf(),
                            j == enum_position(env, q),
                            !env.has_struct(q),
                            *vs == env.enum_data@[j as int].variants,
                            nv == vs@.len(),
                            v <= nv,
                            fuel > 0,
                            iv == view_types(inst@),
                            eq_defined(env, ty@, fuel),
                            ty@ == TypeView::Datatype(q.module_id, q.id, iv),
                            forall|w: int, b: int|
                                0 <= w < v && 0 <= b < vs@[w].fields@.len() ==> native_eq(
                                    env,
                                    instantiate_view((#[trigger] vs@[w].fields@[b]).ty@, iv),
                                    (fuel - 1) as nat,
                                ),
                        decreases nv - v,
                    {
                        let fs = &vs[v].fields;
                        let n = fs.len();
                        let mut a: usize = 0;
                        while a < n
                            invariant
                                env.wf(),
                                j == enum_position(env, q),
                                !env.has_struct(q),
                                *vs == env.enum_data@[j as int].variants,
                                nv == vs@.len(),
                                v < nv,
                                *fs == vs@[v as int].fields,
                                n == fs@.len(),
                                a <= n,
                                fuel > 0,
                                iv == view_types(inst@),
                                eq_defined(env, ty@, fuel),
                                ty@ == TypeView::Datatype(q.module_id, q.id, iv),
                                forall|w: int, b: int|
                                    0 <= w < v && 0 <= b < vs@[w].fields@.len() ==> native_eq(
                                        env,
                                        instantiate_view((#[trigger] vs@[w].fields@[b]).ty@, iv),
                                        (fuel - 1) as nat,
                                    ),
                                forall|b: int|
                                    0 <= b < a ==> native_eq(
                                        env,
                                        instantiate_view((#[trigger] fs@[b]).ty@, iv),
                                        (fuel - 1) as nat,
                                    ),
                            decreases n - a,
                        {
                            proof {
                                assert(env.enum_data@[enum_position(env, q)].variants@[v as int].fields@[a as int]
                                    == fs@[a as int]);
                            }
                            let t = fs[a].ty.instantiate(inst.as_slice());
                            if !native_eq_rec(env, &t, Ghost((fuel - 1) as nat)) {
                                proof {
                                    assert(env.enum_data@[enum_position(env, q)].variants@[v as int].fields@[a as int]
                                        == fs@[a as int]);
                                }
                                return false;
                            }
                            a = a + 1;
                        }
                        proof {
                            assert forall|w: int, b: int|
                                0 <= w < v + 1 && 0 <= b < vs@[w].fields@.len() implies native_eq(
                                env,
                                instantiate_view((#[trigger] vs@[w].fields@[b]).ty@, iv),
                                (fuel - 1) as nat,
                            ) by {
                                if w == v {
                                    assert(vs@[w].fields@[b] == fs@[b]);
                                }
                            }
                        }
                        v = v + 1;
                    }
                    true
                },
            }
        },
        _ => true,
    }
}

/// Whether `ty` has native equality: every type where the options say so, else as
/// `native_eq` says. The search must end: every datatype that it meets is a struct or an
/// enum of the environment whose field types can be instantiated with its type arguments,
/// and datatypes do not nest without end.
pub fn has_native_equality(env: &GlobalEnv, options: &BoogieOptions, ty: &Type) -> (r: bool)
    requires
        env.wf(),
        options.native_equality || exists|f: nat| eq_defined(env, ty@, f),
    ensures
        r == (options.native_equality || native_eq(env, ty@, eq_fuel(env, ty@))),
{
    if options.native_equality {
        return true;
    }
    native_eq_rec(env, ty, Ghost(eq_fuel(env, ty@)))
}

/// The type of the datatype `q` with the type arguments `inst`.
pub open spec fn datatype_view(q: QualifiedId<DatatypeId>, inst: Seq<TypeView>) -> TypeView {
    TypeView::Datatype(q.module_id, q.id, inst)
}

/// Whether the struct `struct_env`, instantiated with `inst`, has native equality: every type
/// where the options say so, else where the type of each of its fields has it.
pub fn struct_has_native_equality(struct_env: &StructEnv, inst: &[Type], options: &BoogieOptions) -> (r: bool)
    requires
        forall|q: QualifiedId<DatatypeId>|
            is_struct_key(struct_env.data(), q) ==> options.native_equality || exists|f: nat|
                eq_defined(struct_env.env(), datatype_view(q, view_types(inst@)), f),
    ensures
        forall|q: QualifiedId<DatatypeId>|
            is_struct_key(struct_env.data(), q) ==> r == (options.native_equality || native_eq(
                struct_env.env(),
                datatype_view(q, view_types(inst@)),
                eq_fuel(struct_env.env(), datatype_view(q, view_types(inst@))),
            )),
{
    let q = struct_env.get_qualified_id();
    proof {
        assert forall|p: QualifiedId<DatatypeId>| is_struct_key(struct_env.data(), p) implies p == q by {
            ModuleId::lemma_view_injective(p.module_id, q.module_id);
            DatatypeId::lemma_view_injective(p.id, q.id);
        }
    }
    if options.native_equality {
        return true;
    }
    let ty = Type::Datatype(q.module_id, q.id, duplicate_slice(inst));
    proof {
        assert(is_struct_key(struct_env.data(), q));
        assert(ty@ == datatype_view(q, view_types(inst@)));
    }
    has_native_equality(struct_env.global_env(), options, &ty)
}

/// Whether the enum `enum_env`, instantiated with `inst`, has native equality: every type
/// where the options say so, else where the type of each field of each of its variants has
/// it.
pub fn enum_has_native_equality(enum_env: &EnumEnv, inst: &[Type], options: &BoogieOptions) -> (r: bool)
    requires
        forall|q: QualifiedId<DatatypeId>|
            is_enum_key(enum_env.data(), q) ==> options.native_equality || exists|f: nat|
                eq_defined(enum_env.env(), datatype_view(q, view_types(inst@)), f),
        forall|q: QualifiedId<DatatypeId>|
            is_enum_key(enum_env.data(), q) ==> !enum_env.env().has_struct(q),
    ensures
        forall|q: QualifiedId<DatatypeId>|
            is_enum_key(enum_env.data(), q) ==> r == (options.native_equality || native_eq(
                enum_env.env(),
                datatype_view(q, view_types(inst@)),
                eq_fuel(enum_env.env(), datatype_view(q, view_types(inst@))),
            )),
{
    let q = enum_env.get_qualified_id();
    proof {
        assert forall|p: QualifiedId<DatatypeId>| is_enum_key(enum_env.data(), p) implies p == q by {
            ModuleId::lemma_view_injective(p.module_id, q.module_id);
            DatatypeId::lemma_view_injective(p.id, q.id);
        }
    }
    if options.native_equality {
        return true;
    }
    let ty = Type::Datatype(q.module_id, q.id, duplicate_slice(inst));
    proof {
        assert(is_enum_key(enum_env.data(), q));
        assert(ty@ == datatype_view(q, view_types(inst@)));
    }
    has_native_equality(enum_env.global_env(), options, &ty)
}

/// A unique number for the field at `offset` of the variant `variant_env`: the tag of the
/// variant in the bits from 32 up, the offset in the bits below.
pub fn variant_field_offset(variant_env: &VariantEnv, offset: usize) -> (r: usize)
    requires
        usize::BITS == 64,
    ensures
        r == (variant_env.data().tag << 32usize) | offset,
{
    (variant_env.get_tag() << 32usize) | offset
}

} // verus!
