use move_model::model::{DatatypeId, ModuleId};
use move_model::symbol::Symbol;
use move_model::ty::{PrimitiveType, Type};

fn u64_ty() -> Type {
    Type::Primitive(PrimitiveType::U64)
}

#[test]
fn instantiate_replaces_parameters_everywhere() {
    let m = ModuleId::new(0);
    let d = DatatypeId::new(Symbol::new(1));
    let t = Type::Fun(
        vec![Type::Reference(true, Box::new(Type::TypeParameter(0)))],
        Box::new(Type::Datatype(m, d, vec![Type::Tuple(vec![Type::TypeParameter(1), u64_ty()])])),
    );
    let params = [Type::Primitive(PrimitiveType::Bool), Type::Vector(Box::new(u64_ty()))];
    let r = t.instantiate(&params);
    assert_eq!(
        r,
        Type::Fun(
            vec![Type::Reference(true, Box::new(Type::Primitive(PrimitiveType::Bool)))],
            Box::new(Type::Datatype(
                m,
                d,
                vec![Type::Tuple(vec![Type::Vector(Box::new(u64_ty())), u64_ty()])]
            )),
        )
    );
}

#[test]
fn instantiate_with_no_params_keeps_type() {
    let t = Type::Vector(Box::new(Type::TypeParameter(5)));
    assert_eq!(t.instantiate(&[]), t);
}

#[test]
fn instantiate_keeps_vars_and_errors() {
    let t = Type::Tuple(vec![Type::Var(3), Type::Error, Type::TypeDomain(Box::new(Type::TypeParameter(0)))]);
    assert_eq!(
        t.instantiate(&[u64_ty()]),
        Type::Tuple(vec![Type::Var(3), Type::Error, Type::TypeDomain(Box::new(u64_ty()))])
    );
}

#[test]
fn instantiate_vec_maps_each_type() {
    let v = vec![Type::TypeParameter(0), Type::Reference(false, Box::new(Type::TypeParameter(0)))];
    let r = Type::instantiate_vec(v, &[u64_ty()]);
    assert_eq!(r, vec![u64_ty(), Type::Reference(false, Box::new(u64_ty()))]);
    let w = vec![Type::TypeParameter(2)];
    assert_eq!(Type::instantiate_vec(w, &[]), vec![Type::TypeParameter(2)]);
}

#[test]
fn mutable_reference_detection() {
    assert!(Type::Reference(true, Box::new(u64_ty())).is_mutable_reference());
    assert!(!Type::Reference(false, Box::new(u64_ty())).is_mutable_reference());
    assert!(!u64_ty().is_mutable_reference());
}

#[test]
fn clone_is_equal() {
    let t = Type::Tuple(vec![Type::Vector(Box::new(Type::TypeParameter(1))), u64_ty()]);
    assert_eq!(t.clone(), t);
    assert_eq!(t.duplicate(), t);
}
