use move_model::address::Address;
use move_model::env::{FunctionData, GlobalEnv, ModuleData, Visibility};
use move_model::loc::{FileId, Loc, Span};
use move_model::model::{FunId, ModuleId};

#[test]
fn stub_module_is_added_once() {
    let mut env = GlobalEnv::new();
    env.add_stub_prover_module();
    assert_eq!(env.get_module_count(), 1);
    let m = env.get_module(ModuleId::new(0));
    assert_eq!(m.get_full_name_str(), "0x0::prover");
    assert_eq!(m.get_name_str(), "prover");
    assert!(m.is_target());
    assert!(!m.is_script_module());
    assert_eq!(m.get_loc(), Loc::default());
    assert_eq!(m.get_function_count(), 1);
    let f = m.get_functions().remove(0);
    assert_eq!(f.get_name_str(), "__stub_placeholder");
    assert!(f.is_native());
    assert_eq!(f.visibility(), Visibility::Private);
    assert_eq!(f.get_parameter_count(), 0);
    assert_eq!(f.get_return_count(), 0);
    env.add_stub_prover_module();
    assert_eq!(env.get_module_count(), 1);
    assert_eq!(env.function_data.len(), 1);
}

#[test]
fn stub_modules_enable_native_functions() {
    let mut env = GlobalEnv::new();
    env.add_stub_prover_module();
    env.add_stub_spec_module();
    env.add_stub_log_module();
    assert_eq!(env.get_module_count(), 3);
    let names: Vec<String> = env.get_modules().iter().map(|m| m.get_full_name_str()).collect();
    assert_eq!(
        names,
        vec!["0x0::prover".to_string(), "0x0::ghost".to_string(), "0x0::log".to_string()]
    );
    let natives = env.deterministic_native_functions();
    assert!(!natives.is_empty());
    let ghost = env.get_module(ModuleId::new(1)).get_id();
    assert!(natives.iter().any(|q| q.module_id == ghost));
}

#[test]
fn existing_module_is_not_stubbed() {
    let mut env = GlobalEnv::new();
    let log = env.symbol_pool.make("log");
    let text = env.symbol_pool.make("text");
    let loc = Loc::new(FileId::new(1), Span::new(0, 4));
    env.module_data.push(ModuleData {
        id: ModuleId::new(0),
        name: log,
        address: Address::from_u16(10),
        full_name: "0xa::log".to_string(),
        is_script: false,
        used_modules: vec![],
        friend_modules: vec![],
        loc: loc.clone(),
    });
    env.function_data.push(FunctionData {
        module_id: ModuleId::new(0),
        id: FunId::new(text),
        visibility: Visibility::Public,
        is_entry: false,
        is_native: true,
        parameters: vec![],
        called_funs: vec![],
        loc,
        return_types: vec![],
        locals: vec![],
        local_names: vec![],
    });
    let pool_len = env.symbol_pool.len();
    env.add_stub_log_module();
    assert_eq!(env.get_module_count(), 1);
    assert_eq!(env.symbol_pool.len(), pool_len);
    env.add_stub_prover_module();
    assert_eq!(env.get_module_count(), 2);
    assert_eq!(env.get_module(ModuleId::new(1)).get_full_name_str(), "0x0::prover");
}

#[test]
fn stub_adds_next_module_with_only_the_placeholder() {
    let mut env = GlobalEnv::new();
    env.add_stub_log_module();
    let before = env.get_module_count();
    env.add_stub_spec_module();
    assert_eq!(env.get_module_count(), before + 1);
    let m = env.get_module(ModuleId::new(before));
    assert_eq!(m.get_id(), ModuleId::new(before));
    assert_eq!(m.get_name_str(), "ghost");
    assert_eq!(m.get_function_count(), 1);
    assert_eq!(m.get_functions()[0].get_name_str(), "__stub_placeholder");
    env.add_stub_spec_module();
    assert_eq!(env.get_module_count(), before + 1);
}
