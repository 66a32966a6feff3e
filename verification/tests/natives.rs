use move_model::address::Address;
use move_model::env::{FunctionData, GlobalEnv, ModuleData, Visibility};
use move_model::loc::{FileId, Loc, Span};
use move_model::model::{FunId, ModuleId, QualifiedId};
use move_model::symbol::SymbolPool;

fn loc() -> Loc {
    Loc::new(FileId::new(0), Span::new(0, 1))
}

fn module(pool: &mut SymbolPool, idx: usize, name: &str) -> ModuleData {
    ModuleData {
        id: ModuleId::new(idx),
        name: pool.make(name),
        address: Address::from_u16(1),
        full_name: format!("0x1::{}", name),
        is_script: false,
        used_modules: vec![],
        friend_modules: vec![],
        loc: loc(),
    }
}

fn function(pool: &mut SymbolPool, m: usize, name: &str, native: bool) -> FunctionData {
    FunctionData {
        module_id: ModuleId::new(m),
        id: FunId::new(pool.make(name)),
        visibility: Visibility::Public,
        is_entry: false,
        is_native: native,
        parameters: vec![],
        called_funs: vec![],
        loc: loc(),
        return_types: vec![],
        locals: vec![],
        local_names: vec![],
    }
}

/// Modules `prover`, `ghost`, `log`, `vector` and `integer`, with a few functions each.
fn natives_env(with_vector_iter: bool) -> GlobalEnv {
    let mut pool = SymbolPool::new();
    let mut modules = vec![
        module(&mut pool, 0, "prover"),
        module(&mut pool, 1, "ghost"),
        module(&mut pool, 2, "log"),
        module(&mut pool, 3, "vector"),
        module(&mut pool, 4, "integer"),
    ];
    let mut functions = vec![
        function(&mut pool, 0, "requires", true),
        function(&mut pool, 0, "ensures", true),
        function(&mut pool, 1, "global", true),
        function(&mut pool, 2, "text", true),
        function(&mut pool, 3, "reverse", false),
        function(&mut pool, 3, "empty", true),
        function(&mut pool, 3, "length", true),
        function(&mut pool, 4, "add", true),
        function(&mut pool, 4, "helper", false),
    ];
    if with_vector_iter {
        modules.push(module(&mut pool, 5, "vector_iter"));
        modules.push(module(&mut pool, 6, "vector_ext"));
        functions.push(function(&mut pool, 5, "begin_map_lambda", true));
        functions.push(function(&mut pool, 6, "push_back", true));
    }
    let mut env = GlobalEnv::new();
    env.symbol_pool = pool;
    env.module_data = modules;
    env.function_data = functions;
    env
}

fn qid(env: &GlobalEnv, m: usize, name: &str) -> QualifiedId<FunId> {
    ModuleId::new(m).qualified(FunId::new(env.symbol_pool.find(name).unwrap()))
}

fn has(v: &[QualifiedId<FunId>], q: QualifiedId<FunId>) -> bool {
    v.iter().any(|x| *x == q)
}

#[test]
fn module_ids_by_name() {
    let env = natives_env(false);
    assert_eq!(env.prover_module_id(), ModuleId::new(0));
    assert_eq!(env.ghost_module_id(), ModuleId::new(1));
    assert_eq!(env.log_module_id(), ModuleId::new(2));
    assert!(!env.has_prover_vector_module());
    assert!(natives_env(true).has_prover_vector_module());
}

#[test]
fn qualified_ids_by_name() {
    let mut env = natives_env(false);
    let req = env.requires_qid();
    assert_eq!(req, qid(&env, 0, "requires"));
    assert!(env.symbol_pool.find("boogie_split_here").is_none());
    let split = env.split_here_qid();
    // the name is interned even though the prover module does not declare it
    assert_eq!(split, qid(&env, 0, "boogie_split_here"));
    assert_eq!(env.split_here_qid(), split);
    assert_eq!(env.split_here_qid_opt(), None);
    assert_eq!(env.global_qid(), qid(&env, 1, "global"));
    assert_eq!(env.vector_reverse_qid(), Some(qid(&env, 3, "reverse")));
    assert_eq!(env.vector_append_qid(), None);
    assert_eq!(env.std_integer_add_qid(), Some(qid(&env, 4, "add")));
    assert_eq!(env.std_real_add_qid(), None);
}

#[test]
fn deterministic_functions() {
    let mut env = natives_env(false);
    let ids = env.deterministic_native_functions();
    // 11 prover, 6 ghost and 3 log names, and the declared vector::empty, vector::length
    // and integer::add
    assert_eq!(ids.len(), 23);
    assert!(has(&ids, qid(&env, 0, "requires")));
    assert!(has(&ids, qid(&env, 0, "invariant_begin")));
    assert!(has(&ids, qid(&env, 1, "havoc_global")));
    assert!(has(&ids, qid(&env, 2, "ghost")));
    assert!(has(&ids, qid(&env, 3, "empty")));
    assert!(has(&ids, qid(&env, 3, "length")));
    assert!(has(&ids, qid(&env, 4, "add")));
    assert!(!has(&ids, qid(&env, 3, "reverse")));
    assert!(!has(&ids, qid(&env, 4, "helper")));
}

#[test]
fn deterministic_functions_with_vector_modules() {
    let mut env = natives_env(true);
    let ids = env.deterministic_native_functions();
    assert_eq!(ids.len(), 23 + 48);
    assert!(has(&ids, qid(&env, 0, "begin_forall_lambda")));
    assert!(has(&ids, qid(&env, 5, "begin_map_lambda")));
    assert!(has(&ids, qid(&env, 5, "range")));
    assert!(has(&ids, qid(&env, 6, "push_back_pure")));
}

#[test]
fn no_aborting_functions() {
    let mut env = natives_env(false);
    let ids = env.no_aborting_native_functions();
    // 4 prover, 6 ghost and 3 log names, and the declared vector::empty, vector::length
    // and integer::add
    assert_eq!(ids.len(), 16);
    assert!(has(&ids, qid(&env, 0, "asserts_of")));
    assert!(!has(&ids, qid(&env, 0, "requires")));
    assert!(has(&ids, qid(&env, 1, "declare_global_mut")));
    assert!(has(&ids, qid(&env, 4, "add")));
}

#[test]
fn intrinsic_and_native_functions() {
    let mut env = natives_env(false);
    let intrinsic = env.intrinsic_fun_ids();
    assert_eq!(intrinsic, vec![qid(&env, 3, "reverse")]);
    let natives = env.native_fn_ids();
    assert_eq!(natives.len(), 4);
    assert!(has(&natives, qid(&env, 3, "reverse")));
    assert!(has(&natives, qid(&env, 4, "add")));
    let add = qid(&env, 4, "add");
    assert!(env.should_be_used_as_func(&add));
    let helper = qid(&env, 4, "helper");
    assert!(!env.should_be_used_as_func(&helper));
    let mut with_vec = natives_env(true);
    let natives = with_vec.native_fn_ids();
    assert_eq!(natives.len(), 4 + 6);
    assert!(has(&natives, qid(&with_vec, 6, "remove_pure")));
}

#[test]
fn determinism_and_aborts_of_functions() {
    let mut env = natives_env(false);
    let add = qid(&env, 4, "add");
    assert_eq!(env.is_deterministic(add), Ok(true));
    assert_eq!(env.func_not_aborts(add), Ok(true));
    let reverse = qid(&env, 3, "reverse");
    assert_eq!(
        env.is_deterministic(reverse),
        Err("Function vector::reverse is not native".to_string())
    );
    // intrinsic, but not among the functions that never abort
    assert_eq!(env.func_not_aborts(reverse), Ok(false));
    let helper = qid(&env, 4, "helper");
    assert_eq!(
        env.func_not_aborts(helper),
        Err("Function integer::helper is not native or intrinsic".to_string())
    );
    let env2 = natives_env(false);
    assert!(env2.get_function(reverse).is_intrinsic());
    assert!(!env2.get_function(add).is_intrinsic());
}

#[test]
fn well_known_functions() {
    let mut env = natives_env(false);
    let vector = env.get_module(ModuleId::new(3));
    assert!(vector.is_std_vector());
    assert!(!vector.is_table());
    let reverse = qid(&env, 3, "reverse");
    let add = qid(&env, 4, "add");
    let helper = qid(&env, 4, "helper");
    assert!(env.get_function(reverse).is_well_known("vector::reverse"));
    assert!(!env.get_function(reverse).is_well_known("vector::append"));
    assert!(env.get_function(add).is_well_known("integer::add"));
    assert!(!env.get_function(helper).is_well_known("integer::helper"));
    env.stdlib_address = Some(Address::from_u16(7));
    assert!(!env.get_module(ModuleId::new(3)).is_std_vector());
    assert!(!env.get_function(add).is_well_known("integer::add"));
}

#[test]
fn native_function_sets_come_in_increasing_order() {
    let mut env = natives_env(true);
    let det = env.deterministic_native_functions();
    assert!(det.windows(2).all(|w| w[0] < w[1]));
    let no_abort = env.no_aborting_native_functions();
    assert!(no_abort.windows(2).all(|w| w[0] < w[1]));
    let natives = env.native_fn_ids();
    assert!(natives.windows(2).all(|w| w[0] < w[1]));
    let intrinsics = env.intrinsic_fun_ids();
    assert!(intrinsics.windows(2).all(|w| w[0] < w[1]));
}
