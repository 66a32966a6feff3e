use move_model::address::Address;
use move_model::env::{FunctionData, GlobalEnv, ModuleData, Visibility};
use move_model::loc::{FileId, Loc, Span};
use move_model::text::{contains_str, decimal_string};
use move_model::model::{FunId, ModuleId, Parameter};
use move_model::symbol::SymbolPool;
use move_model::ty::{PrimitiveType, Type};

fn loc() -> Loc {
    Loc::new(FileId::new(0), Span::new(0, 10))
}

/// Module `m` with the function `f(a: u64, b: bool): (u8, address)`, whose code has three
/// locals of which the source map names `a`, `b`, `x` and `y%#12`.
fn locals_env() -> GlobalEnv {
    let mut pool = SymbolPool::new();
    let m = pool.make("m");
    let f = pool.make("f");
    let a = pool.make("a");
    let b = pool.make("b");
    let mut env = GlobalEnv::new();
    env.module_data = vec![ModuleData {
        id: ModuleId::new(0),
        name: m,
        address: Address::from_u16(1),
        full_name: "0x1::m".to_string(),
        is_script: false,
        used_modules: vec![],
        friend_modules: vec![],
        loc: loc(),
    }];
    env.function_data = vec![FunctionData {
        module_id: ModuleId::new(0),
        id: FunId::new(f),
        visibility: Visibility::Public,
        is_entry: false,
        is_native: false,
        parameters: vec![
            Parameter(a, Type::Primitive(PrimitiveType::U64)),
            Parameter(b, Type::Primitive(PrimitiveType::Bool)),
        ],
        called_funs: vec![],
        loc: loc(),
        return_types: vec![
            Type::Primitive(PrimitiveType::U8),
            Type::Primitive(PrimitiveType::Address),
        ],
        locals: vec![
            Type::Primitive(PrimitiveType::U128),
            Type::Primitive(PrimitiveType::U64),
            Type::Primitive(PrimitiveType::Bool),
        ],
        local_names: vec!["a".to_string(), "b".to_string(), "x".to_string(), "y%#12".to_string()],
    }];
    env.symbol_pool = pool;
    env
}

#[test]
fn decimal_notation() {
    assert_eq!(decimal_string(0), "0");
    assert_eq!(decimal_string(7), "7");
    assert_eq!(decimal_string(10), "10");
    assert_eq!(decimal_string(4096), "4096");
    assert_eq!(decimal_string(usize::MAX as u128), usize::MAX.to_string());
}

#[test]
fn substrings() {
    assert!(contains_str("y%#12", "%#"));
    assert!(!contains_str("y%12#", "%#"));
    assert!(contains_str("abc", ""));
    assert!(contains_str("tmp#$3", "tmp#$"));
    assert!(!contains_str("tm", "tmp#$"));
}

#[test]
fn return_types() {
    let env = locals_env();
    let f = env.get_module(ModuleId::new(0)).get_functions().remove(0);
    assert_eq!(f.get_return_count(), 2);
    assert_eq!(
        f.get_return_types(),
        vec![Type::Primitive(PrimitiveType::U8), Type::Primitive(PrimitiveType::Address)]
    );
    assert_eq!(f.get_return_type(1), Type::Primitive(PrimitiveType::Address));
    let params = f.get_parameters();
    assert_eq!(params.len(), 2);
    assert_eq!(env.symbol_pool.string(params[1].0), "b");
    assert_eq!(params[1].1, Type::Primitive(PrimitiveType::Bool));
}

#[test]
fn locals_of_functions() {
    let env = locals_env();
    let f = env.get_module(ModuleId::new(0)).get_functions().remove(0);
    assert_eq!(f.get_local_count(), 5);
    assert_eq!(f.get_local_type(1), Type::Primitive(PrimitiveType::Bool));
    assert_eq!(f.get_local_type(2), Type::Primitive(PrimitiveType::U128));
    assert_eq!(f.get_local_type(4), Type::Primitive(PrimitiveType::Bool));
    assert_eq!(f.get_local_name(0), "a");
    assert_eq!(f.get_local_name(2), "x");
    assert_eq!(f.get_local_name(3), "tmp#$3");
    assert_eq!(f.get_local_name(4), "$t4");
    assert_eq!(f.get_local_name(17), "$t17");
    assert!(!f.is_temporary(0));
    assert!(!f.is_temporary(2));
    assert!(f.is_temporary(3));
    assert!(!f.is_temporary(4));
    assert!(f.is_temporary(5));
}
