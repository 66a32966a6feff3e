use move_model::address::Address;
use move_model::env::{FunctionData, GlobalEnv, ModuleData, Visibility};
use move_model::loc::{FileId, Loc, Span};
use move_model::model::{DatatypeId, FieldId, FunId, ModuleId};
use move_model::structs::{FieldData, StructData};
use move_model::symbol::SymbolPool;
use move_model::ty::{PrimitiveType, Type};

fn loc(file: u32, start: u32, end: u32) -> Loc {
    Loc::new(FileId::new(file), Span::new(start, end))
}

/// Module `table` (file 0) with struct `Table` (fields `id` at offset 0 and `size` at
/// offset 1) and native struct `Handle`; module `other` (file 1) with struct `Box`.
fn struct_env() -> GlobalEnv {
    let mut pool = SymbolPool::new();
    let table = pool.make("table");
    let other = pool.make("other");
    let new = pool.make("new");
    let modules = vec![
        ModuleData {
            id: ModuleId::new(0),
            name: table,
            address: Address::from_u16(2),
            full_name: "0x2::table".to_string(),
            is_script: false,
            used_modules: vec![],
            friend_modules: vec![],
            loc: loc(0, 0, 1000),
        },
        ModuleData {
            id: ModuleId::new(1),
            name: other,
            address: Address::from_u16(3),
            full_name: "0x3::other".to_string(),
            is_script: false,
            used_modules: vec![],
            friend_modules: vec![],
            loc: loc(1, 0, 1000),
        },
    ];
    let functions = vec![FunctionData {
        module_id: ModuleId::new(0),
        id: FunId::new(new),
        visibility: Visibility::Public,
        is_entry: false,
        is_native: false,
        parameters: vec![],
        called_funs: vec![],
        loc: loc(0, 500, 600),
        return_types: vec![],
        locals: vec![],
        local_names: vec![],
    }];
    let u64_ty = Type::Primitive(PrimitiveType::U64);
    let structs = vec![
        StructData {
            module_id: ModuleId::new(0),
            name: pool.make("Table"),
            loc: loc(0, 10, 100),
            is_native: false,
            has_key: true,
            fields: vec![
                FieldData { name: pool.make("size"), offset: 1, ty: u64_ty.clone() },
                FieldData {
                    name: pool.make("id"),
                    offset: 0,
                    ty: Type::Primitive(PrimitiveType::Address),
                },
            ],
        },
        StructData {
            module_id: ModuleId::new(0),
            name: pool.make("Handle"),
            loc: loc(0, 200, 300),
            is_native: true,
            has_key: false,
            fields: vec![],
        },
        StructData {
            module_id: ModuleId::new(1),
            name: pool.make("Box"),
            loc: loc(1, 10, 50),
            is_native: false,
            has_key: false,
            fields: vec![FieldData { name: pool.make("value"), offset: 0, ty: u64_ty }],
        },
    ];
    let mut env = GlobalEnv::new();
    env.symbol_pool = pool;
    env.module_data = modules;
    env.function_data = functions;
    env.struct_data = structs;
    env
}

#[test]
fn structs_of_modules() {
    let env = struct_env();
    assert_eq!(env.get_declared_struct_count(), 3);
    let table = env.get_module(ModuleId::new(0));
    assert_eq!(table.get_struct_count(), 2);
    let names: Vec<String> =
        table.get_structs().iter().map(|s| s.get_full_name_str()).collect();
    assert_eq!(names, vec!["table::Table".to_string(), "table::Handle".to_string()]);
    let handle = env.symbol_pool.find("Handle").unwrap();
    assert!(table.find_struct(handle).unwrap().is_native());
    assert!(env.get_module(ModuleId::new(1)).find_struct(handle).is_none());
    let b = table.get_struct(DatatypeId::new(env.symbol_pool.find("Table").unwrap()));
    assert!(b.has_memory());
    assert_eq!(b.get_full_name_with_address(), "0x2::table::Table");
    assert_eq!(b.get_loc(), loc(0, 10, 100));
    let q = b.get_qualified_id();
    assert_eq!(q.module_id, ModuleId::new(0));
    assert_eq!(env.get_struct(q).get_name(), b.get_name());
    assert_eq!(env.get_struct_qid(q).get_id(), b.get_id());
}

#[test]
fn fields_of_structs() {
    let env = struct_env();
    let table = env.get_module(ModuleId::new(0));
    let s = table.get_struct(DatatypeId::new(env.symbol_pool.find("Table").unwrap()));
    assert_eq!(s.get_field_count(), 2);
    let fields = s.get_fields();
    let names: Vec<String> =
        fields.iter().map(|f| env.symbol_pool.string(f.get_name())).collect();
    assert_eq!(names, vec!["id".to_string(), "size".to_string()]);
    assert_eq!(fields[1].get_offset(), 1);
    assert_eq!(fields[1].get_type(), Type::Primitive(PrimitiveType::U64));
    let size = env.symbol_pool.find("size").unwrap();
    assert_eq!(s.find_field(size).unwrap().get_offset(), 1);
    assert_eq!(s.get_field(FieldId::new(size)).get_id(), FieldId::new(size));
    assert!(s.find_field(env.symbol_pool.find("value").unwrap()).is_none());
    assert_eq!(s.get_field_by_offset(0).get_type(), Type::Primitive(PrimitiveType::Address));
}

#[test]
fn enclosing_structs() {
    let env = struct_env();
    let s = env.get_enclosing_struct(&loc(0, 20, 30)).unwrap();
    assert_eq!(s.get_full_name_str(), "table::Table");
    let h = env.get_enclosing_struct(&loc(0, 250, 260)).unwrap();
    assert_eq!(h.get_full_name_str(), "table::Handle");
    assert!(env.get_enclosing_struct(&loc(0, 400, 410)).is_none());
    let b = env.get_enclosing_struct(&loc(1, 20, 30)).unwrap();
    assert_eq!(b.get_full_name_str(), "other::Box");
    assert!(env.get_enclosing_struct(&loc(5, 20, 30)).is_none());
}

#[test]
fn intrinsic_structs() {
    let env = struct_env();
    let table_qid = env.table_qid().unwrap();
    assert_eq!(table_qid.module_id, ModuleId::new(0));
    assert_eq!(env.object_table_qid(), None);
    assert_eq!(env.vec_set_qid(), None);
    assert_eq!(env.intrinsic_datatype_ids(), vec![table_qid]);
    let table = env.get_module(ModuleId::new(0));
    let t = table.get_struct(DatatypeId::new(env.symbol_pool.find("Table").unwrap()));
    assert!(t.is_intrinsic());
    let h = table.get_struct(DatatypeId::new(env.symbol_pool.find("Handle").unwrap()));
    assert!(!h.is_intrinsic());
}
