use move_model::env::GlobalEnv;
use move_model::loc::{FileId, Loc, Span};
use move_model::model::NodeId;
use move_model::ty::{PrimitiveType, Type};

fn loc(file: u32, start: u32, end: u32) -> Loc {
    Loc::new(FileId::new(file), Span::new(start, end))
}

fn u64_ty() -> Type {
    Type::Primitive(PrimitiveType::U64)
}

#[test]
fn new_env_locations() {
    let env = GlobalEnv::new();
    assert_eq!(env.unknown_loc(), loc(0, 0, 9));
    assert_eq!(env.internal_loc(), loc(1, 0, 10));
    assert!(env.get_nodes().is_empty());
    assert_eq!(env.next_free_node_number(), 0);
}

#[test]
fn nodes_give_back_what_was_written() {
    let mut env = GlobalEnv::new();
    let a = env.new_node(loc(3, 1, 2), u64_ty());
    let b = env.new_node(loc(3, 5, 9), Type::Primitive(PrimitiveType::Bool));
    assert_eq!(a.as_usize(), 0);
    assert_eq!(b.as_usize(), 1);
    assert_eq!(env.next_free_node_number(), 2);
    assert_eq!(env.get_node_loc(a), loc(3, 1, 2));
    assert_eq!(env.get_node_type(b), Type::Primitive(PrimitiveType::Bool));
    assert_eq!(env.get_node_type_opt(a), Some(u64_ty()));
    assert_eq!(env.get_node_instantiation_opt(a), None);
    assert!(env.get_node_instantiation(a).is_empty());
    env.update_node_type(a, Type::Primitive(PrimitiveType::U8));
    assert_eq!(env.get_node_type(a), Type::Primitive(PrimitiveType::U8));
    assert_eq!(env.get_node_loc(a), loc(3, 1, 2));
    env.set_node_instantiation(b, vec![u64_ty()]);
    assert_eq!(env.get_node_instantiation(b), vec![u64_ty()]);
    env.update_node_instantiation(b, vec![u64_ty(), u64_ty()]);
    assert_eq!(env.get_node_instantiation_opt(b), Some(vec![u64_ty(), u64_ty()]));
    assert_eq!(env.get_node_instantiation_opt(a), None);
}

#[test]
fn nodes_without_information() {
    let mut env = GlobalEnv::new();
    let a = env.new_node_id();
    let b = env.new_node(loc(0, 0, 1), u64_ty());
    assert_eq!(env.get_node_loc(a), env.unknown_loc());
    assert_eq!(env.get_node_type_opt(a), None);
    assert_eq!(env.index_to_node_id(0), None);
    assert_eq!(env.index_to_node_id(1), Some(b));
    assert_eq!(env.get_nodes(), vec![b]);
}

#[test]
fn nodes_in_order_and_cleanup() {
    let mut env = GlobalEnv::new();
    let ids: Vec<NodeId> = (0..5).map(|i| env.new_node(loc(0, i, i + 1), u64_ty())).collect();
    assert_eq!(env.get_nodes(), ids);
    let g = env.new_global_id();
    assert_eq!(g.as_usize(), 0);
    env.cleanup();
    assert!(env.get_nodes().is_empty());
    assert_eq!(env.next_free_node_number(), 0);
    assert_eq!(env.new_global_id().as_usize(), 0);
}
