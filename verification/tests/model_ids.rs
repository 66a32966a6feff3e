use move_model::model::{
    DatatypeId, FieldId, FunId, GlobalId, IntrinsicId, ModuleId, NamedConstantId, NodeId,
    QualifiedId, RefType, VariantId, VerificationScope,
};
use move_model::symbol::Symbol;
use move_model::ty::{PrimitiveType, Type};

#[test]
fn module_id_round_trips_small_index() {
    assert_eq!(ModuleId::new(5).to_usize(), 5);
    assert_eq!(ModuleId::new(0xffff).to_usize(), 0xffff);
}

#[test]
fn module_id_keeps_index_modulo_raw_width() {
    assert_eq!(ModuleId::new(0x10000 + 3).to_usize(), 3);
    assert_eq!(ModuleId::new(0x10000), ModuleId::new(0));
}

#[test]
fn symbol_ids_give_back_their_symbol() {
    let s = Symbol::new(7);
    assert_eq!(FunId::new(s).symbol(), s);
    assert_eq!(DatatypeId::new(s).symbol(), s);
    assert_eq!(FieldId::new(s).symbol(), s);
    assert_eq!(NamedConstantId::new(s).symbol(), s);
    assert_eq!(VariantId::new(s).symbol(), s);
    assert_eq!(s.index(), 7);
}

#[test]
fn index_ids_give_back_their_index() {
    assert_eq!(NodeId::new(42).as_usize(), 42);
    assert_eq!(GlobalId::new(9).as_usize(), 9);
    assert_eq!(IntrinsicId::new(11).as_usize(), 11);
}

#[test]
fn qualified_keeps_module_and_id() {
    let m = ModuleId::new(2);
    let f = FunId::new(Symbol::new(3));
    let q = m.qualified(f);
    assert_eq!(q, QualifiedId { module_id: m, id: f });
}

#[test]
fn qualified_inst_keeps_instantiation() {
    let m = ModuleId::new(1);
    let d = DatatypeId::new(Symbol::new(4));
    let q = m.qualified_inst(d, vec![Type::Primitive(PrimitiveType::U64)]);
    assert_eq!(q.module_id, m);
    assert_eq!(q.id, d);
    assert_eq!(q.inst, vec![Type::Primitive(PrimitiveType::U64)]);
}

#[test]
fn qualified_id_instantiate_adds_types() {
    let m = ModuleId::new(1);
    let d = DatatypeId::new(Symbol::new(4));
    let qi = m.qualified(d).instantiate(vec![Type::Primitive(PrimitiveType::Bool)]);
    assert_eq!(qi.module_id, m);
    assert_eq!(qi.id, d);
    assert_eq!(qi.inst, vec![Type::Primitive(PrimitiveType::Bool)]);
}

#[test]
fn qualified_inst_id_instantiate_substitutes_parameters() {
    let m = ModuleId::new(1);
    let d = DatatypeId::new(Symbol::new(4));
    let qi = m.qualified_inst(
        d,
        vec![Type::TypeParameter(1), Type::Vector(Box::new(Type::TypeParameter(0)))],
    );
    let params = [Type::Primitive(PrimitiveType::U8), Type::Primitive(PrimitiveType::Address)];
    let r = qi.instantiate(&params);
    assert_eq!(r.module_id, m);
    assert_eq!(r.id, d);
    assert_eq!(
        r.inst,
        vec![
            Type::Primitive(PrimitiveType::Address),
            Type::Vector(Box::new(Type::Primitive(PrimitiveType::U8))),
        ]
    );
}

#[test]
fn qualified_inst_id_instantiate_without_params_is_identity() {
    let m = ModuleId::new(1);
    let d = DatatypeId::new(Symbol::new(4));
    let qi = m.qualified_inst(d, vec![Type::TypeParameter(3)]);
    let r = qi.instantiate(&[]);
    assert_eq!(r.inst, vec![Type::TypeParameter(3)]);
}

#[test]
fn instantiate_ref_leaves_original() {
    let m = ModuleId::new(1);
    let d = DatatypeId::new(Symbol::new(4));
    let qi = m.qualified_inst(d, vec![Type::TypeParameter(0)]);
    let r = qi.instantiate_ref(&[Type::Primitive(PrimitiveType::U128)]);
    assert_eq!(r.inst, vec![Type::Primitive(PrimitiveType::U128)]);
    assert_eq!(qi.inst, vec![Type::TypeParameter(0)]);
    assert_eq!(r.id, d);
}

#[test]
fn to_qualified_id_drops_instantiation() {
    let m = ModuleId::new(6);
    let f = FunId::new(Symbol::new(1));
    let qi = m.qualified_inst(f, vec![Type::Primitive(PrimitiveType::U8)]);
    assert_eq!(qi.to_qualified_id(), QualifiedId { module_id: m, id: f });
}

#[test]
fn to_type_builds_datatype() {
    let m = ModuleId::new(6);
    let d = DatatypeId::new(Symbol::new(2));
    let qi = m.qualified_inst(d, vec![Type::Primitive(PrimitiveType::Signer)]);
    assert_eq!(
        qi.to_type(),
        Type::Datatype(m, d, vec![Type::Primitive(PrimitiveType::Signer)])
    );
}

#[test]
fn ref_types_differ() {
    assert_ne!(RefType::ByValue, RefType::ByImmRef);
    assert_ne!(RefType::ByImmRef, RefType::ByMutRef);
}

#[test]
fn verification_scope_default_is_public() {
    assert_eq!(VerificationScope::default(), VerificationScope::Public);
}

#[test]
fn verification_scope_exclusive() {
    assert!(VerificationScope::Only("f".to_string()).is_exclusive());
    assert!(VerificationScope::OnlyModule("m".to_string()).is_exclusive());
    assert!(!VerificationScope::Public.is_exclusive());
    assert!(!VerificationScope::All.is_exclusive());
    assert!(!VerificationScope::Nothing.is_exclusive());
}

#[test]
fn verification_scope_exclusive_function_name() {
    let s = VerificationScope::Only("m::f".to_string());
    assert_eq!(s.get_exclusive_verify_function_name(), Some(&"m::f".to_string()));
    assert_eq!(
        VerificationScope::OnlyModule("m".to_string()).get_exclusive_verify_function_name(),
        None
    );
    assert_eq!(VerificationScope::All.get_exclusive_verify_function_name(), None);
}

#[test]
fn dropping_the_instantiation_gives_the_qualified_id() {
    let m = ModuleId::new(3);
    let f = FunId::new(Symbol::new(8));
    let q = m.qualified_inst(f, vec![Type::TypeParameter(0)]);
    assert_eq!(q.to_qualified_id(), m.qualified(f));
    let r = q.instantiate_ref(&[Type::Primitive(PrimitiveType::Bool)]);
    assert_eq!(r.to_qualified_id(), q.to_qualified_id());
    assert_eq!(r.inst, vec![Type::Primitive(PrimitiveType::Bool)]);
}

#[test]
fn to_type_commutes_with_instantiation() {
    let m = ModuleId::new(1);
    let d = DatatypeId::new(Symbol::new(2));
    let q = m.qualified_inst(d, vec![Type::TypeParameter(1), Type::TypeParameter(0)]);
    let params = [Type::Primitive(PrimitiveType::U8), Type::Primitive(PrimitiveType::Address)];
    let via_id = q.instantiate_ref(&params).to_type();
    let via_type = q.to_type().instantiate(&params);
    assert_eq!(via_id, via_type);
    assert_eq!(
        via_id,
        Type::Datatype(
            m,
            d,
            vec![Type::Primitive(PrimitiveType::Address), Type::Primitive(PrimitiveType::U8)]
        )
    );
}
