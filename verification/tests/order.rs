use move_model::model::{
    DatatypeId, FieldId, FunId, GlobalId, IntrinsicId, ModuleId, NamedConstantId, NodeId,
    QualifiedId, VariantId,
};
use move_model::symbol::Symbol;

#[test]
fn symbols_are_ordered_by_index() {
    assert!(Symbol::new(1) < Symbol::new(2));
    assert!(Symbol::new(2) <= Symbol::new(2));
    assert!(Symbol::new(3) > Symbol::new(2));
}

#[test]
fn symbol_ids_are_ordered_as_their_symbols() {
    let (a, b) = (Symbol::new(4), Symbol::new(9));
    assert!(FunId::new(a) < FunId::new(b));
    assert!(DatatypeId::new(a) < DatatypeId::new(b));
    assert!(FieldId::new(b) > FieldId::new(a));
    assert!(NamedConstantId::new(a) < NamedConstantId::new(b));
    assert!(VariantId::new(a) <= VariantId::new(a));
    assert_eq!(FunId::new(a), FunId::new(Symbol::new(4)));
    assert_ne!(FunId::new(a), FunId::new(b));
}

#[test]
fn index_ids_are_ordered_as_their_indices() {
    assert!(ModuleId::new(1) < ModuleId::new(2));
    assert!(NodeId::new(10) > NodeId::new(9));
    assert!(GlobalId::new(0) < GlobalId::new(1));
    assert!(IntrinsicId::new(5) >= IntrinsicId::new(5));
    assert_eq!(NodeId::new(7), NodeId::new(7));
}

#[test]
fn qualified_ids_are_ordered_by_module_then_id() {
    let f = FunId::new(Symbol::new(1));
    let g = FunId::new(Symbol::new(2));
    let m0 = ModuleId::new(0);
    let m1 = ModuleId::new(1);
    assert!(m0.qualified(g) < m1.qualified(f));
    assert!(m1.qualified(f) < m1.qualified(g));
    assert!(m1.qualified(f) <= m1.qualified(f));
    assert_eq!(m1.qualified(f), QualifiedId { module_id: m1, id: f });
    let mut v = vec![m1.qualified(g), m0.qualified(g), m1.qualified(f), m0.qualified(f)];
    v.sort();
    assert_eq!(
        v,
        vec![m0.qualified(f), m0.qualified(g), m1.qualified(f), m1.qualified(g)]
    );
}
