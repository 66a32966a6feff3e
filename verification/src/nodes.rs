//! The information that the environment keeps on the nodes of expressions: the location and
//! the type of each node, and the instantiation of type parameters where it has one.

use std::collections::BTreeMap;
use vstd::prelude::*;

use crate::env::GlobalEnv;
use crate::loc::{Loc, LocView};
use crate::model::NodeId;
use crate::ty::{Type, TypeView, duplicate_types, view_types};

verus! {

broadcast use vstd::laws_cmp::group_laws_cmp;

/// The information on a node: its location, its type, and the instantiation of type
/// parameters where it has one.
pub struct ExpInfo {
    pub loc: Loc,
    pub ty: Type,
    pub instantiation: Option<Vec<Type>>,
}

/// The mathematical value of the information on a node.
pub struct ExpInfoView {
    pub loc: LocView,
    pub ty: TypeView,
    pub instantiation: Option<Seq<TypeView>>,
}

impl View for ExpInfo {
    type V = ExpInfoView;

    open spec fn view(&self) -> ExpInfoView {
        ExpInfoView {
            loc: self.loc@,
            ty: self.ty@,
            instantiation: match self.instantiation {
                Some(ts) => Some(view_types(ts@)),
                None => None,
            },
        }
    }
}

impl ExpInfo {
    /// The information on a node of the given location and type, without instantiation.
    pub fn new(loc: Loc, ty: Type) -> (r: ExpInfo)
        ensures
            r@ == (ExpInfoView { loc: loc@, ty: ty@, instantiation: None }),
    {
        ExpInfo { loc, ty, instantiation: None }
    }
}

/// The keys of a map in increasing order are increasing numbers.
proof fn lemma_increasing_keys(keys: Seq<&usize>)
    requires
        vstd::std_specs::btree::increasing_seq(keys),
    ensures
        forall|i: int, j: int| 0 <= i < j < keys.len() ==> *keys[i] < *keys[j],
{
    broadcast use vstd::laws_cmp::lemma_ref_obeys_cmp_spec;

    assert(vstd::laws_cmp::obeys_cmp::<&usize>());
    vstd::std_specs::btree::axiom_increasing_seq_meaning(keys);
    assert forall|i: int, j: int| 0 <= i < j < keys.len() implies *keys[i] < *keys[j] by {
        assert(vstd::std_specs::cmp::OrdSpec::cmp_spec(&keys[i], &keys[j]) is Less);
    }
}

/// What a read of a node gives back of a write: where the information on node `n` was
/// replaced by `v` (as `new_node`, `update_node_type`, `set_node_instantiation` and
/// `update_node_instantiation` do), reading `n` gives `v`, and every other node keeps its
/// information and instantiation.
pub proof fn lemma_node_read_after_write(a: GlobalEnv, b: GlobalEnv, n: nat, v: ExpInfoView, m: nat)
    requires
        b.node_infos() == a.node_infos().insert(n, v),
    ensures
        b.node_infos().contains_key(n),
        b.node_infos()[n] == v,
        b.node_instantiation(n) == v.instantiation,
        m != n ==> b.node_infos().contains_key(m) == a.node_infos().contains_key(m),
        m != n && a.node_infos().contains_key(m) ==> b.node_infos()[m] == a.node_infos()[m],
        m != n ==> b.node_instantiation(m) == a.node_instantiation(m),
{
}

/// Allocating a node keeps every node with information below the counter of node ids, and
/// the node it allocates had no information before.
pub proof fn lemma_new_node_fresh(a: GlobalEnv, b: GlobalEnv, r: nat, v: ExpInfoView)
    requires
        a.nodes_below_counter(),
        r == a.next_free_node_id,
        b.next_free_node_id == a.next_free_node_id + 1,
        b.node_infos() == a.node_infos().insert(r, v),
    ensures
        !a.node_infos().contains_key(r),
        b.nodes_below_counter(),
{
}

/// Changing the information on a node that has some keeps every node with information below
/// the counter of node ids.
pub proof fn lemma_update_node_keeps_counter(a: GlobalEnv, b: GlobalEnv, n: nat, v: ExpInfoView)
    requires
        a.nodes_below_counter(),
        a.node_infos().contains_key(n),
        b.next_free_node_id == a.next_free_node_id,
        b.node_infos() == a.node_infos().insert(n, v),
    ensures
        b.nodes_below_counter(),
{
}

impl GlobalEnv {
    /// The information on each node that has some, by the index of the node.
    pub open spec fn node_infos(&self) -> Map<nat, ExpInfoView> {
        Map::new(
            |k: nat| k <= usize::MAX && self.exp_info@.contains_key(k as usize),
            |k: nat| self.exp_info@[k as usize]@,
        )
    }

    /// Gets the location of the given node, or the unknown location where the node has no
    /// information.
    pub fn get_node_loc(&self, node_id: NodeId) -> (r: Loc)
        ensures
            r@ == if self.node_infos().contains_key(node_id@) {
                self.node_infos()[node_id@].loc
            } else {
                self.unknown_loc@
            },
    {
        match self.exp_info.get(&node_id.as_usize()) {
            Some(info) => info.loc.duplicate(),
            None => self.unknown_loc(),
        }
    }

    /// Gets the type of the given node, which must have information.
    pub fn get_node_type(&self, node_id: NodeId) -> (r: Type)
        requires
            self.node_infos().contains_key(node_id@),
        ensures
            r@ == self.node_infos()[node_id@].ty,
    {
        match self.get_node_type_opt(node_id) {
            Some(t) => t,
            None => {
                proof {
                    assert(false);
                }
                Type::Error
            },
        }
    }

    /// Gets the type of the given node, if it has information.
    pub fn get_node_type_opt(&self, node_id: NodeId) -> (r: Option<Type>)
        ensures
            r matches Some(t) ==> self.node_infos().contains_key(node_id@) && t@
                == self.node_infos()[node_id@].ty,
            r is None ==> !self.node_infos().contains_key(node_id@),
    {
        match self.exp_info.get(&node_id.as_usize()) {
            Some(info) => Some(info.ty.duplicate()),
            None => None,
        }
    }

    /// The node of the given index, if it has information.
    pub fn index_to_node_id(&self, index: usize) -> (r: Option<NodeId>)
        ensures
            r matches Some(id) ==> id@ == index && self.node_infos().contains_key(index as nat),
            r is None ==> !self.node_infos().contains_key(index as nat),
    {
        let id = NodeId::new(index);
        if self.exp_info.get(&index).is_some() {
            Some(id)
        } else {
            None
        }
    }

    /// Allocates a new node id and gives it the location and the type, without
    /// instantiation.
    pub fn new_node(&mut self, loc: Loc, ty: Type) -> (r: NodeId)
        requires
            old(self).next_free_node_id < usize::MAX,
        ensures
            r@ == old(self).next_free_node_id,
            final(self).next_free_node_id == old(self).next_free_node_id + 1,
            final(self).node_infos() == old(self).node_infos().insert(
                r@,
                ExpInfoView { loc: loc@, ty: ty@, instantiation: None },
            ),
            final(self).same_but_nodes(&*old(self)),
    {
        let id = self.new_node_id();
        let info = ExpInfo::new(loc, ty);
        let ghost v = info@;
        self.exp_info.insert(id.as_usize(), info);
        proof {
            assert(self.node_infos() =~= old(self).node_infos().insert(id@, v));
        }
        id
    }

    /// Gives the node, which must have information, the type `ty`.
    pub fn update_node_type(&mut self, node_id: NodeId, ty: Type)
        requires
            old(self).node_infos().contains_key(node_id@),
        ensures
            final(self).node_infos() == old(self).node_infos().insert(
                node_id@,
                ExpInfoView { ty: ty@, ..old(self).node_infos()[node_id@] },
            ),
            final(self).next_free_node_id == old(self).next_free_node_id,
            final(self).same_but_nodes(&*old(self)),
    {
        let k = node_id.as_usize();
        match self.exp_info.remove(&k) {
            Some(info) => {
                let new_info = ExpInfo { ty, ..info };
                let ghost v = new_info@;
                self.exp_info.insert(k, new_info);
                proof {
                    assert(self.node_infos() =~= old(self).node_infos().insert(k as nat, v));
                }
            },
            None => {
                proof {
                    assert(false);
                }
            },
        }
    }

    /// Gives the node, which must have information but no instantiation yet, the
    /// instantiation `instantiation`.
    pub fn set_node_instantiation(&mut self, node_id: NodeId, instantiation: Vec<Type>)
        requires
            old(self).node_infos().contains_key(node_id@),
            old(self).node_infos()[node_id@].instantiation is None,
        ensures
            final(self).node_infos() == old(self).node_infos().insert(
                node_id@,
                ExpInfoView {
                    instantiation: Some(view_types(instantiation@)),
                    ..old(self).node_infos()[node_id@]
                },
            ),
            final(self).next_free_node_id == old(self).next_free_node_id,
            final(self).same_but_nodes(&*old(self)),
    {
        self.replace_node_instantiation(node_id, instantiation)
    }

    /// Gives the node, which must have an instantiation, the instantiation `instantiation`.
    pub fn update_node_instantiation(&mut self, node_id: NodeId, instantiation: Vec<Type>)
        requires
            old(self).node_infos().contains_key(node_id@),
            old(self).node_infos()[node_id@].instantiation is Some,
        ensures
            final(self).node_infos() == old(self).node_infos().insert(
                node_id@,
                ExpInfoView {
                    instantiation: Some(view_types(instantiation@)),
                    ..old(self).node_infos()[node_id@]
                },
            ),
            final(self).next_free_node_id == old(self).next_free_node_id,
            final(self).same_but_nodes(&*old(self)),
    {
        self.replace_node_instantiation(node_id, instantiation)
    }

    /// Gives the node, which must have information, the instantiation `instantiation`.
    fn replace_node_instantiation(&mut self, node_id: NodeId, instantiation: Vec<Type>)
        requires
            old(self).node_infos().contains_key(node_id@),
        ensures
            final(self).node_infos() == old(self).node_infos().insert(
                node_id@,
                ExpInfoView {
                    instantiation: Some(view_types(instantiation@)),
                    ..old(self).node_infos()[node_id@]
                },
            ),
            final(self).next_free_node_id == old(self).next_free_node_id,
            final(self).same_but_nodes(&*old(self)),
    {
        let k = node_id.as_usize();
        match self.exp_info.remove(&k) {
            Some(info) => {
                let new_info = ExpInfo { instantiation: Some(instantiation), ..info };
                let ghost v = new_info@;
                self.exp_info.insert(k, new_info);
                proof {
                    assert(self.node_infos() =~= old(self).node_infos().insert(k as nat, v));
                }
            },
            None => {
                proof {
                    assert(false);
                }
            },
        }
    }

    /// Gets the instantiation of the given node, or no types where it has none.
    pub fn get_node_instantiation(&self, node_id: NodeId) -> (r: Vec<Type>)
        ensures
            view_types(r@) == match self.node_instantiation(node_id@) {
                Some(ts) => ts,
                None => Seq::empty(),
            },
    {
        match self.get_node_instantiation_opt(node_id) {
            Some(ts) => ts,
            None => {
                let r: Vec<Type> = Vec::new();
                assert(view_types(r@) =~= Seq::empty());
                r
            },
        }
    }

    /// The instantiation of the node of the given index, if it has information and an
    /// instantiation.
    pub open spec fn node_instantiation(&self, index: nat) -> Option<Seq<TypeView>> {
        if self.node_infos().contains_key(index) {
            self.node_infos()[index].instantiation
        } else {
            None
        }
    }

    /// Gets the instantiation of the given node, if it has one.
    pub fn get_node_instantiation_opt(&self, node_id: NodeId) -> (r: Option<Vec<Type>>)
        ensures
            r matches Some(ts) ==> self.node_instantiation(node_id@) == Some(view_types(ts@)),
            r is None ==> self.node_instantiation(node_id@) is None,
    {
        match self.exp_info.get(&node_id.as_usize()) {
            Some(info) => match &info.instantiation {
                Some(ts) => Some(duplicate_types(ts)),
                None => None,
            },
            None => None,
        }
    }

    /// The ids of the nodes that have information, in increasing order.
    pub fn get_nodes(&self) -> (r: Vec<NodeId>)
        ensures
            forall|i: int| 0 <= i < r@.len() ==> self.node_infos().contains_key(#[trigger] r@[i]@),
            forall|n: nat| #[trigger] self.node_infos().contains_key(n) ==> exists|i: int|
                0 <= i < r@.len() && r@[i]@ == n,
            forall|i: int, j: int| 0 <= i < j < r@.len() ==> r@[i]@ < r@[j]@,
    {
        let ghost keys = vstd::std_specs::iter::IteratorSpec::remaining(&vstd::std_specs::btree::spec_keys_iter(&self.exp_info));
        let mut r: Vec<NodeId> = Vec::new();
        for k in it: self.exp_info.keys()
            invariant
                it.seq() == keys,
                r@.len() == it.index(),
                forall|i: int| 0 <= i < r@.len() ==> (#[trigger] r@[i])@ == *keys[i],
        {
            r.push(NodeId::new(*k));
        }
        proof {
            assert(keys.len() == r@.len());
            vstd::std_specs::btree::axiom_spec_keys_iter(&self.exp_info);
            let dom = self.exp_info@.dom();
            lemma_increasing_keys(keys);
            assert(keys.unref().to_set() == dom);
            assert forall|i: int| 0 <= i < r@.len() implies self.node_infos().contains_key(
                #[trigger] r@[i]@,
            ) by {
                assert(keys.unref()[i] == *keys[i]);
                assert(keys.unref().to_set().contains(*keys[i]));
            }
            assert forall|n: nat| #[trigger] self.node_infos().contains_key(n) implies exists|i: int|
                0 <= i < r@.len() && r@[i]@ == n by {
                let k = n as usize;
                assert(dom.contains(k));
                assert(keys.unref().to_set().contains(k));
                let i = choose|i: int| 0 <= i < keys.unref().len() && keys.unref()[i] == k;
                assert(keys.unref()[i] == *keys[i]);
                assert(r@[i]@ == n);
            }
        }
        r
    }

    /// Every node that has information lies below the counter of node ids.
    pub open spec fn nodes_below_counter(&self) -> bool {
        forall|n: nat| #[trigger] self.node_infos().contains_key(n) ==> n < self.next_free_node_id
    }

    /// `self` and `other` agree on everything but the information on nodes and the counter
    /// of node ids.
    pub open spec fn same_but_nodes(&self, other: &GlobalEnv) -> bool {
        &&& self.symbol_pool == other.symbol_pool
        &&& self.global_id_counter == other.global_id_counter
        &&& self.diags == other.diags
        &&& self.same_declarations(other)
    }
}

} // verus!
