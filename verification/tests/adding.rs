use move_model::address::Address;
use move_model::env::{FunctionData, GlobalEnv, Visibility};
use move_model::files::{FileHash, MoveIrLoc};
use move_model::loc::{FileId, Loc, Span};
use move_model::model::{FunId, ModuleId};
use move_model::symbol::Symbol;
use move_model::ty::{PrimitiveType, Type};

fn function(module: usize, name: Symbol) -> FunctionData {
    FunctionData {
        module_id: ModuleId::new(module),
        id: FunId::new(name),
        visibility: Visibility::Public,
        is_entry: false,
        is_native: false,
        parameters: vec![],
        called_funs: vec![],
        loc: Loc::default(),
        return_types: vec![],
        locals: vec![],
        local_names: vec![],
    }
}

#[test]
fn add_numbers_and_names_a_module() {
    let mut env = GlobalEnv::new();
    let mint = env.symbol_pool.make("mint");
    let loc = Loc::new(FileId::new(2), Span::new(3, 40));
    env.add(loc.clone(), Address::from_u16(0x1f), "coin", vec![], vec![], vec![], vec![function(0, mint)]);
    assert_eq!(env.get_module_count(), 1);
    let m = env.get_module(ModuleId::new(0));
    assert_eq!(m.get_id(), ModuleId::new(0));
    assert_eq!(m.get_name_str(), "coin");
    assert_eq!(m.get_full_name_str(), "0x1f::coin");
    assert!(!m.is_script_module());
    assert_eq!(m.get_loc(), loc);
    assert_eq!(m.get_function_count(), 1);
    assert_eq!(m.get_functions()[0].get_name_str(), "mint");
}

#[test]
fn add_names_a_script_by_its_first_function() {
    let mut env = GlobalEnv::new();
    let zeta = env.symbol_pool.make("zeta");
    let alpha = env.symbol_pool.make("alpha");
    env.add(Loc::default(), Address::from_u16(1), "lib", vec![], vec![], vec![], vec![]);
    let pool_len = env.symbol_pool.len();
    env.add(
        Loc::default(),
        Address::from_u16(0),
        GlobalEnv::SCRIPT_MODULE_NAME,
        vec![],
        vec![],
        vec![],
        vec![function(1, alpha), function(1, zeta)],
    );
    assert_eq!(env.symbol_pool.len(), pool_len);
    assert_eq!(env.get_module_count(), 2);
    let m = env.get_module(ModuleId::new(1));
    assert_eq!(m.get_id(), ModuleId::new(1));
    assert!(m.is_script_module());
    assert_eq!(m.get_name_str(), "zeta");
    assert_eq!(m.get_full_name_str(), "0x0::zeta");
    assert_eq!(env.function_data.len(), 2);
    assert_eq!(m.get_function_count(), 2);
}

fn env_with_two_modules() -> GlobalEnv {
    let mut env = GlobalEnv::new();
    let f = env.symbol_pool.make("f");
    let g = env.symbol_pool.make("g");
    env.add(Loc::default(), Address::from_u16(1), "m", vec![], vec![], vec![], vec![function(0, f)]);
    env.add(Loc::default(), Address::from_u16(2), "m", vec![], vec![], vec![], vec![function(1, g)]);
    env
}

#[test]
fn module_found_by_bytecode_address_and_name() {
    let env = env_with_two_modules();
    let m = env.find_module_by_language_storage_id(&Address::from_u16(2), "m").unwrap();
    assert_eq!(m.get_id(), ModuleId::new(1));
    let m = env.find_module_by_language_storage_id(&Address::from_u16(1), "m").unwrap();
    assert_eq!(m.get_id(), ModuleId::new(0));
    assert!(env.find_module_by_language_storage_id(&Address::from_u16(3), "m").is_none());
    assert!(env.find_module_by_language_storage_id(&Address::from_u16(1), "unknown").is_none());
}

#[test]
fn function_found_by_bytecode_names() {
    let env = env_with_two_modules();
    let f = env.find_function_by_language_storage_id_name(&Address::from_u16(2), "m", "g").unwrap();
    assert_eq!(f.get_name_str(), "g");
    assert!(env.find_function_by_language_storage_id_name(&Address::from_u16(2), "m", "f").is_none());
    assert!(env.find_function_by_language_storage_id_name(&Address::from_u16(1), "m", "h").is_none());
    assert!(env.find_function_by_language_storage_id_name(&Address::from_u16(9), "m", "f").is_none());
}

#[test]
fn module_name_interns_its_name() {
    let mut env = GlobalEnv::new();
    let before = env.symbol_pool.len();
    let name = env.to_module_name(&Address::from_u16(7), "coin");
    assert_eq!(env.symbol_pool.len(), before + 1);
    assert_eq!(env.symbol_pool.string(name.name()), "coin");
    assert!(name.addr().same(&Address::from_u16(7)));
    let again = env.to_module_name(&Address::from_u16(8), "coin");
    assert_eq!(again.name(), name.name());
    assert_eq!(env.symbol_pool.len(), before + 1);
}

#[test]
fn struct_data_numbers_and_interns_fields() {
    let mut env = GlobalEnv::new();
    let s = env.symbol_pool.make("S");
    let existing = env.symbol_pool.make("b");
    let d = env.create_move_struct_data(
        ModuleId::new(0),
        s,
        Loc::default(),
        false,
        true,
        vec![
            ("a".to_string(), Type::Primitive(PrimitiveType::U8)),
            ("b".to_string(), Type::Primitive(PrimitiveType::Bool)),
        ],
    );
    assert_eq!(d.name, s);
    assert!(d.has_key && !d.is_native);
    assert_eq!(d.fields.len(), 2);
    assert_eq!(d.fields[0].offset, 0);
    assert_eq!(d.fields[1].offset, 1);
    assert_eq!(env.symbol_pool.string(d.fields[0].name), "a");
    assert_eq!(d.fields[1].name, existing);
    assert_eq!(d.fields[1].ty, Type::Primitive(PrimitiveType::Bool));
    assert_eq!(env.symbol_pool.len(), 3);
}

#[test]
fn enum_data_tags_locates_and_interns_variants() {
    let mut env = GlobalEnv::new();
    let e = env.symbol_pool.make("E");
    let d = env.create_move_enum_data(
        ModuleId::new(0),
        e,
        Loc::default(),
        false,
        vec![
            ("V0".to_string(), None, vec![("x".to_string(), Type::Primitive(PrimitiveType::U64))]),
            ("V1".to_string(), Some(MoveIrLoc::new(FileHash::new("nowhere"), 2, 5)), vec![]),
        ],
    );
    assert_eq!(d.variants.len(), 2);
    assert_eq!(d.variants[0].tag, 0);
    assert_eq!(d.variants[1].tag, 1);
    assert_eq!(d.variants[0].loc, Loc::default());
    assert_eq!(d.variants[1].loc, env.unknown_loc());
    assert_eq!(env.symbol_pool.string(d.variants[0].name), "V0");
    assert_eq!(env.symbol_pool.string(d.variants[1].name), "V1");
    assert_eq!(env.symbol_pool.string(d.variants[0].fields[0].name), "x");
    assert_eq!(env.symbol_pool.len(), 4);
    assert_eq!(env.symbol_pool.string(Symbol::new(1)), "x");
}

#[test]
fn named_constant_data_keeps_its_parts() {
    let mut env = GlobalEnv::new();
    let c = env.symbol_pool.make("MAX");
    let loc = Loc::new(FileId::new(0), Span::new(1, 2));
    let d = env.create_named_constant_data(ModuleId::new(0), c, loc.clone(), Type::Primitive(PrimitiveType::U64));
    assert_eq!(d.module_id, ModuleId::new(0));
    assert_eq!(d.name, c);
    assert_eq!(d.loc, loc);
    assert_eq!(d.typ, Type::Primitive(PrimitiveType::U64));
}
