use move_model::address::Address;
use move_model::boogie::{
    bv_helper, distinct_extra_bpl, get_quantifier_helper_name, triple_opt_to_name, AssertsMode,
    QuantifierHelperType,
};
use move_model::env::{FunctionData, GlobalEnv, ModuleData, Visibility};
use move_model::loc::Loc;
use move_model::model::{FunId, ModuleId};
use move_model::text::{decimal_string, same_text};

#[test]
fn bv_helper_lists_widths_and_maxima() {
    let r = bv_helper();
    let got: Vec<(usize, String)> = r.into_iter().map(|b| (b.base, b.max)).collect();
    assert_eq!(
        got,
        vec![
            (8, "255".to_string()),
            (16, "65535".to_string()),
            (32, "4294967295".to_string()),
            (64, "18446744073709551615".to_string()),
            (128, "340282366920938463463374607431768211455".to_string()),
            (
                256,
                "115792089237316195423570985008687907853269984665640564039457584007913129639935"
                    .to_string()
            ),
        ]
    );
}

#[test]
fn decimal_strings() {
    assert_eq!(decimal_string(0), "0");
    assert_eq!(decimal_string(9), "9");
    assert_eq!(decimal_string(10), "10");
    assert_eq!(decimal_string(1234567890), "1234567890");
    assert_eq!(decimal_string(u128::MAX), u128::MAX.to_string());
}

#[test]
fn quantifier_helper_names() {
    assert_eq!(
        get_quantifier_helper_name(QuantifierHelperType::Mapping, "f"),
        "$MapQuantifierHelper_f"
    );
    assert_eq!(
        get_quantifier_helper_name(QuantifierHelperType::RangeSumMap, "m_g"),
        "$RangeSumMapQuantifierHelper_m_g"
    );
    assert_eq!(
        get_quantifier_helper_name(QuantifierHelperType::FindIndices, ""),
        "$FindIndicesQuantifierHelper_"
    );
    assert_eq!(
        get_quantifier_helper_name(QuantifierHelperType::SumMap, "h"),
        "$SumMapQuantifierHelper_h"
    );
}

#[test]
fn asserts_modes_differ() {
    assert_ne!(AssertsMode::Check, AssertsMode::Assume);
    assert_ne!(AssertsMode::Assume, AssertsMode::SpecNoAbortCheck);
}

#[test]
fn triple_names() {
    let mut env = GlobalEnv::new();
    let m = env.symbol_pool.make("vector_iter");
    let f = env.symbol_pool.make("sum");
    env.module_data.push(ModuleData {
        id: ModuleId::new(0),
        name: m,
        address: Address::from_u16(0xab),
        full_name: "0xab::vector_iter".to_string(),
        is_script: false,
        used_modules: vec![],
        friend_modules: vec![],
        loc: Loc::default(),
    });
    env.function_data.push(FunctionData {
        module_id: ModuleId::new(0),
        id: FunId::new(f),
        visibility: Visibility::Public,
        is_entry: false,
        is_native: false,
        parameters: vec![],
        called_funs: vec![],
        loc: Loc::default(),
        return_types: vec![],
        locals: vec![],
        local_names: vec![],
    });
    let q = ModuleId::new(0).qualified(FunId::new(f));
    assert_eq!(triple_opt_to_name(&env, Some(q)), "$ab_vector_iter_sum");
    assert_eq!(triple_opt_to_name(&env, None), "");
    assert_eq!(Address::from_u16(0).to_hex_string(), "0");
    assert_eq!(Address::from_u16(0xbeef).to_hex_string(), "beef");
}

#[test]
fn extra_bpl_is_emitted_once_in_first_order() {
    let contents = ["axiom a;", "axiom b;", "axiom a;", "axiom c;", "axiom b;"];
    assert_eq!(distinct_extra_bpl(&contents), vec!["axiom a;", "axiom b;", "axiom c;"]);
    let none: [&str; 0] = [];
    assert!(distinct_extra_bpl(&none).is_empty());
    assert_eq!(distinct_extra_bpl(&["x", "x", "x"]), vec!["x"]);
}

#[test]
fn same_text_compares_whole_texts() {
    assert!(same_text("abc", "abc"));
    assert!(!same_text("abc", "abd"));
    assert!(!same_text("ab", "abc"));
    assert!(same_text("", ""));
}
