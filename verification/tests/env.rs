use move_model::names::GetNameString;
use move_model::address::{Address, ModuleName};
use move_model::env::{contains_double_colon, FunctionData, GlobalEnv, ModuleData, Visibility};
use move_model::files::FileHash;
use move_model::loc::{FileId, Loc, Span};
use move_model::model::{FunId, ModuleId, Parameter, QualifiedId, VerificationScope};
use move_model::symbol::SymbolPool;
use move_model::ty::{PrimitiveType, Type};

fn qid(m: usize, f: FunId) -> QualifiedId<FunId> {
    ModuleId::new(m).qualified(f)
}

/// Two modules: `0x1::a` (a target) with `f`, `g`, `h`, and `0x1::b` (a dependency)
/// with `k`. Calls: f -> g, g -> h, h -> g, g -> k; k calls nothing.
fn sample_env() -> (GlobalEnv, [FunId; 4]) {
    let mut pool = SymbolPool::new();
    let f = FunId::new(pool.make("f"));
    let g = FunId::new(pool.make("g"));
    let h = FunId::new(pool.make("h"));
    let k = FunId::new(pool.make("k"));
    let x = pool.make("x");
    let y = pool.make("y");
    let a = pool.make("a");
    let b = pool.make("b");
    let modules = vec![
        ModuleData {
            id: ModuleId::new(0),
            name: a,
            address: Address::from_u16(1),
            full_name: "0x1::a".to_string(),
            is_script: false,
            used_modules: vec![ModuleId::new(1)],
            friend_modules: vec![],
            loc: loc(2, 0, 1000),
        },
        ModuleData {
            id: ModuleId::new(1),
            name: b,
            address: Address::from_u16(1),
            full_name: "0x1::b".to_string(),
            is_script: false,
            used_modules: vec![],
            friend_modules: vec![],
            loc: loc(3, 0, 500),
        },
    ];
    let u64_ty = Type::Primitive(PrimitiveType::U64);
    let functions = vec![
        FunctionData {
            module_id: ModuleId::new(0),
            id: f,
            visibility: Visibility::Public,
            is_entry: false,
            is_native: false,
            parameters: vec![
                Parameter(x, u64_ty.clone()),
                Parameter(y, Type::Reference(true, Box::new(u64_ty.clone()))),
            ],
            called_funs: vec![qid(0, g)],
            loc: loc(2, 10, 100),
            return_types: vec![],
            locals: vec![],
            local_names: vec![],
        },
        FunctionData {
            module_id: ModuleId::new(0),
            id: g,
            visibility: Visibility::Private,
            is_entry: false,
            is_native: false,
            parameters: vec![Parameter(x, Type::Reference(false, Box::new(u64_ty.clone())))],
            called_funs: vec![qid(0, h), qid(1, k)],
            loc: loc(2, 100, 200),
            return_types: vec![],
            locals: vec![],
            local_names: vec![],
        },
        FunctionData {
            module_id: ModuleId::new(0),
            id: h,
            visibility: Visibility::Friend,
            is_entry: false,
            is_native: false,
            parameters: vec![],
            called_funs: vec![qid(0, g)],
            loc: loc(2, 200, 300),
            return_types: vec![],
            locals: vec![],
            local_names: vec![],
        },
        FunctionData {
            module_id: ModuleId::new(1),
            id: k,
            visibility: Visibility::Public,
            is_entry: false,
            is_native: true,
            parameters: vec![],
            called_funs: vec![],
            loc: loc(3, 20, 80),
            return_types: vec![],
            locals: vec![],
            local_names: vec![],
        },
    ];
    let mut env = GlobalEnv::new();
    env.symbol_pool = pool;
    env.add_source(FileHash::new("module a"), vec![], "a.move", "module a", false);
    env.add_source(FileHash::new("module b"), vec![], "b.move", "module b", true);
    env.module_data = modules;
    env.function_data = functions;
    (env, [f, g, h, k])
}

fn loc(file: u32, start: u32, end: u32) -> Loc {
    Loc::new(FileId::new(file), Span::new(start, end))
}

#[test]
fn symbol_pool_interns_strings() {
    let mut pool = SymbolPool::new();
    let a = pool.make("a");
    let b = pool.make("b");
    let a2 = pool.make("a");
    assert_eq!(a, a2);
    assert_ne!(a, b);
    assert_eq!(pool.len(), 2);
    assert_eq!(pool.string(b), "b");
}

#[test]
fn function_names() {
    let (env, [f, ..]) = sample_env();
    let fe = env.get_function(qid(0, f));
    assert_eq!(fe.get_name_str(), "f");
    assert_eq!(fe.get_full_name_str(), "a::f");
    assert_eq!(fe.get_name_string(), "a::f");
    assert!(fe.matches_name("f"));
    assert!(fe.matches_name("a::f"));
    assert!(!fe.matches_name("0x1::a::f"));
    assert_eq!(fe.get_id(), f);
    assert_eq!(fe.get_qualified_id(), qid(0, f));
    assert_eq!(fe.module_env().get_id(), ModuleId::new(0));
}

#[test]
fn script_function_names() {
    let (mut env, [f, ..]) = sample_env();
    env.module_data[0].is_script = true;
    let fe = env.get_function(qid(0, f));
    assert_eq!(fe.get_name_string(), "Script::f");
    assert!(fe.is_script());
    assert!(fe.is_exposed());
}

#[test]
fn module_names() {
    let (env, _) = sample_env();
    let m = env.get_module(ModuleId::new(0));
    assert!(m.matches_name("a"));
    assert!(m.matches_name("0x1::a"));
    assert!(!m.matches_name("b"));
    assert_eq!(m.get_full_name_str(), "0x1::a");
    assert!(m.is_target());
    assert!(!m.is_script_module());
    assert_eq!(env.get_module_count(), 2);
    assert_eq!(env.get_modules().len(), 2);
}

#[test]
fn visibility_queries() {
    let (env, [f, g, h, k]) = sample_env();
    let fe = env.get_function(qid(0, f));
    let ge = env.get_function(qid(0, g));
    let he = env.get_function(qid(0, h));
    let ke = env.get_function(qid(1, k));
    assert_eq!(fe.visibility_str(), "public ");
    assert_eq!(ge.visibility_str(), "");
    assert_eq!(he.visibility_str(), "public(friend) ");
    assert!(fe.is_exposed() && fe.has_unknown_callers());
    assert!(!ge.is_exposed() && !ge.has_unknown_callers());
    assert!(he.is_exposed() && !he.has_unknown_callers());
    assert!(he.is_friend() && !fe.is_friend());
    assert!(ke.is_native() && !fe.is_native());
    assert!(!fe.is_entry() && !fe.is_script());
    assert_eq!(fe.visibility(), Visibility::Public);
}

#[test]
fn parameter_queries() {
    let (env, [f, g, h, _]) = sample_env();
    let fe = env.get_function(qid(0, f));
    assert_eq!(fe.get_parameter_count(), 2);
    assert!(fe.is_parameter(1));
    assert!(!fe.is_parameter(2));
    assert!(fe.is_named_parameter("y"));
    assert!(!fe.is_named_parameter("z"));
    assert!(fe.is_mutating());
    assert!(!env.get_function(qid(0, g)).is_mutating());
    assert!(!env.get_function(qid(0, h)).is_mutating());
    let u64_ty = Type::Primitive(PrimitiveType::U64);
    assert_eq!(
        fe.get_parameter_types(),
        vec![u64_ty.clone(), Type::Reference(true, Box::new(u64_ty))]
    );
}

#[test]
fn should_verify_by_scope() {
    let (env, [f, g, _, k]) = sample_env();
    let fe = env.get_function(qid(0, f));
    let ge = env.get_function(qid(0, g));
    let ke = env.get_function(qid(1, k));
    assert!(fe.should_verify(&VerificationScope::Public));
    assert!(!ge.should_verify(&VerificationScope::Public));
    assert!(ge.should_verify(&VerificationScope::All));
    assert!(!ke.should_verify(&VerificationScope::All));
    assert!(!fe.should_verify(&VerificationScope::Nothing));
    assert!(ge.should_verify(&VerificationScope::OnlyModule("0x1::a".to_string())));
    assert!(!ge.should_verify(&VerificationScope::OnlyModule("b".to_string())));
    assert!(ke.should_verify(&VerificationScope::Only("b::k".to_string())));
    assert!(!fe.should_verify(&VerificationScope::Only("g".to_string())));
}

#[test]
fn explicitly_not_verified() {
    let (env, [f, ..]) = sample_env();
    let fe = env.get_function(qid(0, f));
    assert!(fe.is_explicitly_not_verified(&VerificationScope::Only("g".to_string())));
    assert!(!fe.is_explicitly_not_verified(&VerificationScope::Only("f".to_string())));
    assert!(!fe.is_explicitly_not_verified(&VerificationScope::Nothing));
}

#[test]
fn called_and_calling_functions() {
    let (env, [f, g, h, k]) = sample_env();
    let ge = env.get_function(qid(0, g));
    assert_eq!(ge.get_called_functions(), vec![qid(0, h), qid(1, k)]);
    assert_eq!(ge.get_calling_functions(), vec![qid(0, f), qid(0, h)]);
    assert!(env.get_function(qid(0, f)).get_calling_functions().is_empty());
}

#[test]
fn transitive_closure_follows_cycles() {
    let (env, [f, g, h, k]) = sample_env();
    let fe = env.get_function(qid(0, f));
    assert_eq!(
        fe.get_transitive_closure_of_called_functions(),
        vec![qid(0, g), qid(0, h), qid(1, k)]
    );
    let ge = env.get_function(qid(0, g));
    assert_eq!(
        ge.get_transitive_closure_of_called_functions(),
        vec![qid(0, g), qid(0, h), qid(1, k)]
    );
    let ke = env.get_function(qid(1, k));
    assert!(ke.get_transitive_closure_of_called_functions().is_empty());
}

#[test]
fn counters_allocate_fresh_ids() {
    let (mut env, _) = sample_env();
    assert_eq!(env.next_free_node_number(), 0);
    assert_eq!(env.new_node_id().as_usize(), 0);
    assert_eq!(env.new_node_id().as_usize(), 1);
    assert_eq!(env.next_free_node_number(), 2);
    assert_eq!(env.new_global_id().as_usize(), 0);
    assert_eq!(env.new_global_id().as_usize(), 1);
    assert_eq!(env.get_declared_function_count(), 4);
}

#[test]
fn enclosing_module_and_function() {
    let (env, [_, g, _, k]) = sample_env();
    let m = env.get_enclosing_module(&loc(3, 30, 40)).unwrap();
    assert_eq!(m.get_id(), ModuleId::new(1));
    assert!(env.get_enclosing_module(&loc(3, 400, 600)).is_none());
    assert!(env.get_enclosing_module(&loc(7, 0, 1)).is_none());
    assert_eq!(
        env.get_enclosing_function(&loc(2, 120, 130)).unwrap().get_qualified_id(),
        qid(0, g)
    );
    assert_eq!(
        env.get_enclosing_function(&loc(3, 25, 30)).unwrap().get_qualified_id(),
        qid(1, k)
    );
    assert!(env.get_enclosing_function(&loc(2, 500, 501)).is_none());
}

#[test]
fn module_functions_and_lookup() {
    let (env, [f, g, h, k]) = sample_env();
    let a = env.get_module(ModuleId::new(0));
    assert_eq!(a.get_function_count(), 3);
    let ids: Vec<_> = a.get_functions().iter().map(|fe| fe.get_qualified_id()).collect();
    assert_eq!(ids, vec![qid(0, f), qid(0, g), qid(0, h)]);
    assert_eq!(a.find_function(g.symbol()).unwrap().get_qualified_id(), qid(0, g));
    assert!(a.find_function(k.symbol()).is_none());
    assert_eq!(
        env.find_function_by_name(ModuleId::new(1), k.symbol()).unwrap().get_qualified_id(),
        qid(1, k)
    );
    assert_eq!(a.get_loc().span().end(), 1000);
    assert_eq!(env.get_function(qid(0, f)).get_loc().span().start(), 10);
}

#[test]
fn module_lookup_by_name() {
    let (env, [_, g, _, k]) = sample_env();
    let a = env.get_module(ModuleId::new(0)).get_name();
    assert_eq!(env.find_module_by_name(a).unwrap().get_id(), ModuleId::new(0));
    assert!(env.find_module_by_name(g.symbol()).is_none());
    assert_eq!(env.get_fun_qid_opt("b", "k"), Some(qid(1, k)));
    assert_eq!(env.get_fun_qid_opt("a", "g"), Some(qid(0, g)));
    assert_eq!(env.get_fun_qid_opt("a", "k"), None);
    assert_eq!(env.get_fun_qid_opt("c", "k"), None);
    assert_eq!(env.get_fun_qid_opt("b", "nope"), None);
}

#[test]
fn resolve_function_names() {
    let (mut env, [f, g, _, k]) = sample_env();
    let a = ModuleId::new(0);
    assert_eq!(env.resolve_function("g", a), Some(qid(0, g)));
    assert_eq!(env.resolve_function("k", a), None);
    assert_eq!(env.resolve_function("b::k", a), Some(qid(1, k)));
    assert_eq!(env.resolve_function("0x1::a::f", a), Some(qid(0, f)));
    assert_eq!(env.resolve_function("a::k", a), None);
    let before = env.symbol_pool.len();
    assert_eq!(env.resolve_function("zzz", a), None);
    assert_eq!(env.symbol_pool.len(), before + 1);
    assert_eq!(env.symbol_pool.find("zzz").is_some(), true);
    assert_eq!(env.resolve_function("b::zzz", a), None);
    assert_eq!(env.symbol_pool.len(), before + 1);
}

#[test]
fn double_colon_detection() {
    assert!(contains_double_colon("a::b"));
    assert!(contains_double_colon("::"));
    assert!(!contains_double_colon("a:b"));
    assert!(!contains_double_colon(""));
    assert!(!contains_double_colon(":"));
}

#[test]
fn module_dependencies() {
    let (mut env, _) = sample_env();
    env.module_data[0].used_modules = vec![ModuleId::new(1), ModuleId::new(0), ModuleId::new(1)];
    let a = env.get_module(ModuleId::new(0));
    let b = env.get_module(ModuleId::new(1));
    assert_eq!(a.get_used_modules(), vec![ModuleId::new(1)]);
    assert!(b.get_used_modules().is_empty());
    assert_eq!(b.get_using_modules(), vec![ModuleId::new(0)]);
    assert!(a.get_using_modules().is_empty());
    assert!(a.is_transitive_dependency(ModuleId::new(0)));
    assert!(a.is_transitive_dependency(ModuleId::new(1)));
    assert!(!b.is_transitive_dependency(ModuleId::new(0)));
    assert!(b.is_transitive_dependency(ModuleId::new(1)));
}

#[test]
fn transitive_dependency_through_chain() {
    let (mut env, _) = sample_env();
    let mut pool = SymbolPool::new();
    std::mem::swap(&mut pool, &mut env.symbol_pool);
    let c = pool.make("c");
    env.symbol_pool = pool;
    env.module_data[1].used_modules = vec![ModuleId::new(2)];
    env.module_data.push(ModuleData {
        id: ModuleId::new(2),
        name: c,
        address: Address::from_u16(1),
        full_name: "0x1::c".to_string(),
        is_script: false,
        used_modules: vec![ModuleId::new(1)],
        friend_modules: vec![],
        loc: loc(4, 0, 10),
    });
    let a = env.get_module(ModuleId::new(0));
    assert!(a.is_transitive_dependency(ModuleId::new(2)));
    let c_env = env.get_module(ModuleId::new(2));
    assert!(!c_env.is_transitive_dependency(ModuleId::new(0)));
    assert!(c_env.is_transitive_dependency(ModuleId::new(1)));
}

#[test]
fn target_modules() {
    let (env, _) = sample_env();
    let targets = env.get_target_modules();
    assert_eq!(targets.len(), 1);
    assert_eq!(targets[0].get_id(), ModuleId::new(0));
}

#[test]
fn modules_by_address_and_name() {
    let (env, _) = sample_env();
    let b = env.symbol_pool.find("b").unwrap();
    let found = env.find_module(&ModuleName::new(Address::from_u16(1), b)).unwrap();
    assert_eq!(found.get_id(), ModuleId::new(1));
    assert!(env.find_module(&ModuleName::new(Address::from_u16(2), b)).is_none());
    assert!(env.get_stdlib_address().same(&Address::from_u16(1)));
    assert!(env.get_extlib_address().same(&Address::from_bytes_be(&[0, 0, 2])));
    let a = env.get_module(ModuleId::new(0));
    assert!(!a.is_std_vector());
    assert!(!a.is_table());
}

#[test]
fn friend_modules_each_once() {
    let (mut env, _) = sample_env();
    env.module_data[1].friend_modules = vec![ModuleId::new(0), ModuleId::new(1), ModuleId::new(0)];
    let b = env.get_module(ModuleId::new(1));
    assert_eq!(b.get_friend_modules(), vec![ModuleId::new(0), ModuleId::new(1)]);
    assert!(env.get_module(ModuleId::new(0)).get_friend_modules().is_empty());
}

#[test]
fn function_names_for_display() {
    let (env, [_, g, _, k]) = sample_env();
    assert_eq!(qid(0, g).get_name_for_display(&env), "a::g");
    assert_eq!(qid(1, k).get_name_for_display(&env), "b::k");
}

#[test]
fn called_functions_come_sorted_once_each() {
    let (mut env, [f, g, h, k]) = sample_env();
    env.function_data[0].called_funs = vec![qid(1, k), qid(0, h), qid(0, g), qid(1, k), qid(0, g)];
    let fe = env.get_function(qid(0, f));
    assert_eq!(fe.get_called_functions(), vec![qid(0, g), qid(0, h), qid(1, k)]);
}

#[test]
fn module_sets_come_sorted_once_each() {
    let (mut env, _) = sample_env();
    env.module_data[1].friend_modules = vec![ModuleId::new(1), ModuleId::new(0), ModuleId::new(1)];
    let b = env.get_module(ModuleId::new(1));
    assert_eq!(b.get_friend_modules(), vec![ModuleId::new(0), ModuleId::new(1)]);
}
