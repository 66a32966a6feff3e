use move_model::address::Address;
use move_model::enums::{EnumData, VariantData};
use move_model::env::{GlobalEnv, ModuleData};
use move_model::equality::{
    enum_has_native_equality, has_native_equality, struct_has_native_equality,
    variant_field_offset, BoogieOptions,
};
use move_model::loc::{FileId, Loc, Span};
use move_model::model::{DatatypeId, ModuleId};
use move_model::structs::{FieldData, StructData};
use move_model::symbol::{Symbol, SymbolPool};
use move_model::ty::{PrimitiveType, Type};

fn loc() -> Loc {
    Loc::new(FileId::new(0), Span::new(0, 1))
}

fn field(name: Symbol, offset: usize, ty: Type) -> FieldData {
    FieldData { name, offset, ty }
}

/// Module `m` with the structs `Num { a: u64 }`, `Bytes { v: vector<u8> }` and
/// `Box<T> { x: T }`, and the enum `E { A { x: u64 }, B { b: Bytes } }`.
fn equality_env() -> GlobalEnv {
    let mut pool = SymbolPool::new();
    let m = pool.make("m");
    let (a, v, x, b) = (pool.make("a"), pool.make("v"), pool.make("x"), pool.make("b"));
    let (num, bytes, boxed, e) =
        (pool.make("Num"), pool.make("Bytes"), pool.make("Box"), pool.make("E"));
    let (va, vb) = (pool.make("A"), pool.make("B"));
    let u64_ty = Type::Primitive(PrimitiveType::U64);
    let bytes_ty = Type::Datatype(ModuleId::new(0), DatatypeId::new(bytes), vec![]);
    let strukt = |name, fields| StructData {
        module_id: ModuleId::new(0),
        name,
        loc: loc(),
        is_native: false,
        has_key: false,
        fields,
    };
    let mut env = GlobalEnv::new();
    env.module_data = vec![ModuleData {
        id: ModuleId::new(0),
        name: m,
        address: Address::from_u16(1),
        full_name: "0x1::m".to_string(),
        is_script: false,
        used_modules: vec![],
        friend_modules: vec![],
        loc: loc(),
    }];
    env.struct_data = vec![
        strukt(num, vec![field(a, 0, u64_ty.clone())]),
        strukt(
            bytes,
            vec![field(v, 0, Type::Vector(Box::new(Type::Primitive(PrimitiveType::U8))))],
        ),
        strukt(boxed, vec![field(x, 0, Type::TypeParameter(0))]),
    ];
    env.enum_data = vec![EnumData {
        module_id: ModuleId::new(0),
        name: e,
        loc: loc(),
        has_key: false,
        variants: vec![
            VariantData { name: va, loc: loc(), tag: 0, fields: vec![field(x, 0, u64_ty)] },
            VariantData { name: vb, loc: loc(), tag: 1, fields: vec![field(b, 0, bytes_ty)] },
        ],
    }];
    env.symbol_pool = pool;
    env
}

fn datatype(env: &GlobalEnv, name: &str, inst: Vec<Type>) -> Type {
    Type::Datatype(ModuleId::new(0), DatatypeId::new(env.symbol_pool.find(name).unwrap()), inst)
}

#[test]
fn native_equality_of_types() {
    let env = equality_env();
    let no = BoogieOptions { native_equality: false };
    let all = BoogieOptions { native_equality: true };
    let u8_ty = Type::Primitive(PrimitiveType::U8);
    let vector = Type::Vector(Box::new(u8_ty.clone()));
    assert!(has_native_equality(&env, &no, &u8_ty));
    assert!(!has_native_equality(&env, &no, &vector));
    assert!(has_native_equality(&env, &all, &vector));
    assert!(has_native_equality(&env, &no, &datatype(&env, "Num", vec![])));
    assert!(!has_native_equality(&env, &no, &datatype(&env, "Bytes", vec![])));
    assert!(has_native_equality(&env, &no, &datatype(&env, "Box", vec![u8_ty.clone()])));
    assert!(!has_native_equality(&env, &no, &datatype(&env, "Box", vec![vector.clone()])));
    assert!(!has_native_equality(&env, &no, &datatype(&env, "E", vec![])));
    assert!(has_native_equality(&env, &no, &Type::Reference(false, Box::new(vector))));
}

#[test]
fn native_equality_of_structs_and_enums() {
    let env = equality_env();
    let no = BoogieOptions { native_equality: false };
    let m = env.get_module(ModuleId::new(0));
    let boxed = m.get_struct(DatatypeId::new(env.symbol_pool.find("Box").unwrap()));
    let u64_ty = Type::Primitive(PrimitiveType::U64);
    let vector = Type::Vector(Box::new(u64_ty.clone()));
    assert!(struct_has_native_equality(&boxed, &[u64_ty], &no));
    assert!(!struct_has_native_equality(&boxed, &[vector], &no));
    let e = m.get_enum(DatatypeId::new(env.symbol_pool.find("E").unwrap()));
    assert!(!enum_has_native_equality(&e, &[], &no));
    assert!(enum_has_native_equality(&e, &[], &BoogieOptions { native_equality: true }));
}

#[test]
fn variant_field_offsets() {
    let env = equality_env();
    let m = env.get_module(ModuleId::new(0));
    let e = m.get_enum(DatatypeId::new(env.symbol_pool.find("E").unwrap()));
    assert_eq!(variant_field_offset(&e.get_variant_by_tag(0), 3), 3);
    assert_eq!(variant_field_offset(&e.get_variant_by_tag(1), 2), (1 << 32) | 2);
}
