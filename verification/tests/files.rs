use move_model::address::Address;
use move_model::diag::Severity;
use move_model::env::{GlobalEnv, ModuleData};
use move_model::files::{FileHash, MoveIrLoc};
use move_model::loc::{FileId, Loc, Span};
use move_model::model::ModuleId;

#[test]
fn pseudo_files_of_a_new_environment() {
    let env = GlobalEnv::new();
    assert_eq!(env.get_file_count(), 2);
    assert!(env.get_source_file_names().is_empty());
    assert!(env.get_source_file_ids().is_empty());
    assert_eq!(env.get_file(FileId::new(0)), "<unknown>");
    assert_eq!(env.get_file(FileId::new(1)), "<internal>");
    let ir = env.unknown_move_ir_loc();
    assert_eq!(env.to_loc(&ir), env.unknown_loc());
}

#[test]
fn files_by_hash_and_index() {
    let mut env = GlobalEnv::new();
    let a = env.add_source(FileHash::new("module a {}"), vec![], "a.move", "module a {}", false);
    let b = env.add_source(FileHash::new("module b {}"), vec![], "b.move", "module b {}", true);
    assert_eq!(a, FileId::new(2));
    assert_eq!(b, FileId::new(3));
    assert_eq!(env.get_file_id(&FileHash::new("module b {}")), Some(b));
    assert_eq!(env.get_file_id(&FileHash::new("module c {}")), None);
    assert_eq!(env.file_id_to_idx(b), 3);
    assert_eq!(env.file_idx_to_id(env.file_id_to_idx(a)), a);
    assert_eq!(env.get_file(b), "b.move");
    assert_eq!(env.get_file_count(), 4);
    assert_eq!(env.get_source_file_names(), vec!["b.move".to_string(), "a.move".to_string()]);
    assert_eq!(env.get_source_file_ids(), vec![b, a]);
    let ir = MoveIrLoc::new(FileHash::new("module b {}"), 3, 7);
    assert_eq!(env.to_loc(&ir), Loc::new(b, Span::new(3, 7)));
    let lost = MoveIrLoc::new(FileHash::new("module z {}"), 3, 7);
    assert_eq!(env.to_loc(&lost), env.unknown_loc());
    assert!(!env.file_is_dep(a));
    assert!(env.file_is_dep(b));
    assert!(!env.file_is_dep(FileId::new(9)));
}

#[test]
fn same_hash_keeps_the_last_file() {
    let mut env = GlobalEnv::new();
    env.add_source(FileHash::new("x"), vec![], "first.move", "x", false);
    let second = env.add_source(FileHash::new("x"), vec![], "second.move", "x", false);
    assert_eq!(env.get_file_id(&FileHash::new("x")), Some(second));
    assert_eq!(env.get_file_count(), 3);
    assert_eq!(env.get_source_file_names(), vec!["second.move".to_string()]);
}

#[test]
fn standard_aliases_resolve_addresses() {
    let mut env = GlobalEnv::new();
    let std = env.symbol_pool.make("std");
    let ext = env.symbol_pool.make("Extensions");
    let other = env.symbol_pool.make("other");
    env.add_source(
        FileHash::new("p1"),
        vec![(std, Address::from_u16(5)), (other, Address::from_u16(9))],
        "p1.move",
        "p1",
        false,
    );
    assert!(env.get_stdlib_address().same(&Address::from_u16(5)));
    assert!(env.get_extlib_address().same(&Address::from_u16(2)));
    assert_eq!(env.diag_count(Severity::Note), 0);
    env.add_source(FileHash::new("p2"), vec![(std, Address::from_u16(5))], "p2.move", "p2", false);
    assert_eq!(env.diag_count(Severity::Note), 0);
    env.add_source(
        FileHash::new("p3"),
        vec![(ext, Address::from_u16(7)), (std, Address::from_u16(300))],
        "p3.move",
        "p3",
        false,
    );
    assert!(env.get_stdlib_address().same(&Address::from_u16(300)));
    assert!(env.get_extlib_address().same(&Address::from_u16(7)));
    assert_eq!(env.error_count(), 1);
    assert_eq!(
        env.diags[0].0.message,
        "Ambiguous definition of standard address alias `std` (`0x300 != 0x5`).This alias currently must be unique across all packages."
    );
    assert_eq!(env.diags[0].0.labels[0].file_id, env.unknown_loc().file_id());
}

#[test]
fn targets_are_modules_outside_dependencies() {
    let mut env = GlobalEnv::new();
    let a = env.add_source(FileHash::new("a"), vec![], "a.move", "a", false);
    let b = env.add_source(FileHash::new("b"), vec![], "b.move", "b", true);
    let ma = env.symbol_pool.make("a");
    let mb = env.symbol_pool.make("b");
    for (i, (name, file)) in [(ma, a), (mb, b)].into_iter().enumerate() {
        env.module_data.push(ModuleData {
            id: ModuleId::new(i),
            name,
            address: Address::from_u16(1),
            full_name: format!("0x1::{}", env.symbol_pool.string(name)),
            is_script: false,
            used_modules: vec![],
            friend_modules: vec![],
            loc: Loc::new(file, Span::new(0, 1)),
        });
    }
    assert!(env.get_module(ModuleId::new(0)).is_target());
    assert!(!env.get_module(ModuleId::new(1)).is_target());
    assert_eq!(env.get_module(ModuleId::new(1)).get_source_path(), "b.move");
    let targets = env.get_target_modules();
    assert_eq!(targets.len(), 1);
    assert_eq!(targets[0].get_id(), ModuleId::new(0));
}

#[test]
fn addresses_in_decimal() {
    assert_eq!(Address::from_u16(0).to_decimal_string(), "0");
    assert_eq!(Address::from_u16(300).to_decimal_string(), "300");
    assert_eq!(Address::from_bytes_be(&[1, 0, 0, 0, 0, 0, 0, 0, 0]).to_decimal_string(), "18446744073709551616");
}

#[test]
fn lines_columns_and_text_of_locations() {
    let mut env = GlobalEnv::new();
    let f = env.add_source(FileHash::new("t"), vec![], "t.move", "ab\ncdé\nx", false);
    let at = |start: u32, end: u32| Loc::new(f, Span::new(start, end));
    let l = env.get_location(&at(4, 5)).unwrap();
    assert_eq!((l.line, l.column), (1, 1));
    let l = env.get_location(&at(0, 0)).unwrap();
    assert_eq!((l.line, l.column), (0, 0));
    let (name, l) = env.get_file_and_location(&at(8, 9)).unwrap();
    assert_eq!(name, "t.move");
    assert_eq!((l.line, l.column), (2, 0));
    assert!(env.get_location(&at(6, 6)).is_none());
    assert!(env.get_location(&at(40, 40)).is_none());
    assert_eq!(env.get_source(&at(3, 7)).unwrap(), "cdé");
    assert!(env.get_source(&at(3, 6)).is_err());
    assert!(env.get_source(&at(3, 40)).is_err());
    let unknown = env.unknown_loc();
    assert_eq!(env.get_source(&unknown).unwrap(), "<unknown>");
}

#[test]
fn locations_shown() {
    let mut env = GlobalEnv::new();
    let f = env.add_source(FileHash::new("t"), vec![], "t.move", "ab\ncdé\nx", false);
    let loc = Loc::new(f, Span::new(4, 8));
    assert_eq!(loc.display(&env), "at t.move:2:2+4");
    assert_eq!(loc.display_line_only(&env), "at t.move:2");
    let inside = Loc::new(f, Span::new(6, 6));
    assert_eq!(
        inside.display(&env),
        "Loc { file_id: FileId(3), span: Span { start: ByteIndex(6), end: ByteIndex(6) } }"
    );
    assert_eq!(env.unknown_loc().display(&env), "at <unknown>:1:1+9");
}

#[test]
fn source_files_come_in_the_order_of_their_hashes() {
    let mut env = GlobalEnv::new();
    let fa = env.add_source(FileHash::new("a"), vec![], "a.move", "a", false);
    let fb = env.add_source(FileHash::new("b"), vec![], "b.move", "b", false);
    assert!(FileHash::new("b").before(&FileHash::new("a")));
    assert!(!FileHash::new("a").before(&FileHash::new("b")));
    assert!(!FileHash::new("a").before(&FileHash::new("a")));
    assert_eq!(env.get_source_file_names(), vec!["b.move".to_string(), "a.move".to_string()]);
    assert_eq!(env.get_source_file_ids(), vec![fb, fa]);
}

#[test]
fn file_hashes_are_sha256_digests() {
    assert!(FileHash::new("a").same(&FileHash::new("a")));
    assert!(!FileHash::new("a").same(&FileHash::new("b")));
    assert!(FileHash::empty().before(&FileHash::new("a")));
    assert!(FileHash::empty().same(&FileHash::empty()));
}
