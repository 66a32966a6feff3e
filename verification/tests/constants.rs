use move_model::address::Address;
use move_model::constants::NamedConstantData;
use move_model::env::{GlobalEnv, ModuleData};
use move_model::loc::{FileId, Loc, Span};
use move_model::model::{ModuleId, NamedConstantId};
use move_model::symbol::SymbolPool;
use move_model::ty::{PrimitiveType, Type};

fn loc(start: u32, end: u32) -> Loc {
    Loc::new(FileId::new(0), Span::new(start, end))
}

/// Modules `a` (constants `E_FULL: u64` and `MAX: u8`) and `b` (constant `E_FULL: bool`).
fn constants_env() -> GlobalEnv {
    let mut pool = SymbolPool::new();
    let a = pool.make("a");
    let b = pool.make("b");
    let e_full = pool.make("E_FULL");
    let max = pool.make("MAX");
    let module = |id: usize, name, full: &str| ModuleData {
        id: ModuleId::new(id),
        name,
        address: Address::from_u16(1),
        full_name: full.to_string(),
        is_script: false,
        used_modules: vec![],
        friend_modules: vec![],
        loc: loc(0, 100),
    };
    let mut env = GlobalEnv::new();
    env.module_data = vec![module(0, a, "0x1::a"), module(1, b, "0x1::b")];
    env.named_constants = vec![
        NamedConstantData {
            module_id: ModuleId::new(0),
            name: e_full,
            loc: loc(10, 20),
            typ: Type::Primitive(PrimitiveType::U64),
        },
        NamedConstantData {
            module_id: ModuleId::new(1),
            name: e_full,
            loc: loc(30, 40),
            typ: Type::Primitive(PrimitiveType::Bool),
        },
        NamedConstantData {
            module_id: ModuleId::new(0),
            name: max,
            loc: loc(50, 60),
            typ: Type::Primitive(PrimitiveType::U8),
        },
    ];
    env.symbol_pool = pool;
    env
}

#[test]
fn constants_of_modules() {
    let env = constants_env();
    let a = env.get_module(ModuleId::new(0));
    let b = env.get_module(ModuleId::new(1));
    assert_eq!(a.get_named_constant_count(), 2);
    assert_eq!(b.get_named_constant_count(), 1);
    let names: Vec<String> =
        a.get_named_constants().iter().map(|c| env.symbol_pool.string(c.get_name())).collect();
    assert_eq!(names, vec!["E_FULL".to_string(), "MAX".to_string()]);
    let e_full = env.symbol_pool.find("E_FULL").unwrap();
    let c = b.find_named_constant(e_full).unwrap();
    assert_eq!(c.get_type(), Type::Primitive(PrimitiveType::Bool));
    assert_eq!(c.get_loc(), loc(30, 40));
    assert_eq!(c.get_id(), NamedConstantId::new(e_full));
    let max = env.symbol_pool.find("MAX").unwrap();
    assert!(b.find_named_constant(max).is_none());
    assert_eq!(a.get_named_constant(NamedConstantId::new(max)).get_type(), Type::Primitive(PrimitiveType::U8));
}
