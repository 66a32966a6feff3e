//! The order of symbols and identifiers: a symbol is ordered by its index in the pool, an
//! identifier named by a symbol as that symbol, an identifier made of an index by that
//! index, and a qualified identifier by its module first and then by its identifier. Maps
//! keyed by identifiers therefore walk them in this order.

use std::cmp::Ordering;
use vstd::prelude::*;
use vstd::std_specs::cmp::PartialOrdIs;
use vstd::std_specs::cmp::PartialOrdSpec;

use crate::model::{
    DatatypeId, FieldId, FunId, GlobalId, IntrinsicId, ModuleId, NamedConstantId, NodeId,
    QualifiedId, VariantId,
};
use crate::symbol::Symbol;

verus! {

/// How two numbers compare.
pub open spec fn order_of_numbers(a: nat, b: nat) -> Option<Ordering> {
    if a < b {
        Some(Ordering::Less)
    } else if a == b {
        Some(Ordering::Equal)
    } else {
        Some(Ordering::Greater)
    }
}

/// How two indices compare.
fn order_of_indices(a: usize, b: usize) -> (r: Option<Ordering>)
    ensures
        a < b ==> r == Some(Ordering::Less),
        a == b ==> r == Some(Ordering::Equal),
        a > b ==> r == Some(Ordering::Greater),
{
    if a < b {
        Some(Ordering::Less)
    } else if a == b {
        Some(Ordering::Equal)
    } else {
        Some(Ordering::Greater)
    }
}

impl PartialOrd for Symbol {
    fn partial_cmp(&self, other: &Symbol) -> (r: Option<Ordering>) {
        order_of_indices(self.index(), other.index())
    }
}

impl vstd::std_specs::cmp::PartialOrdSpecImpl for Symbol {
    open spec fn obeys_partial_cmp_spec() -> bool {
        true
    }

    open spec fn partial_cmp_spec(&self, other: &Symbol) -> Option<Ordering> {
        order_of_numbers(self@, other@)
    }
}

impl PartialOrd for ModuleId {
    fn partial_cmp(&self, other: &ModuleId) -> (r: Option<Ordering>) {
        order_of_indices(self.to_usize(), other.to_usize())
    }
}

impl vstd::std_specs::cmp::PartialOrdSpecImpl for ModuleId {
    open spec fn obeys_partial_cmp_spec() -> bool {
        true
    }

    open spec fn partial_cmp_spec(&self, other: &ModuleId) -> Option<Ordering> {
        order_of_numbers(self@, other@)
    }
}

impl PartialOrd for NodeId {
    fn partial_cmp(&self, other: &NodeId) -> (r: Option<Ordering>) {
        order_of_indices(self.as_usize(), other.as_usize())
    }
}

impl vstd::std_specs::cmp::PartialOrdSpecImpl for NodeId {
    open spec fn obeys_partial_cmp_spec() -> bool {
        true
    }

    open spec fn partial_cmp_spec(&self, other: &NodeId) -> Option<Ordering> {
        order_of_numbers(self@, other@)
    }
}

impl PartialOrd for GlobalId {
    fn partial_cmp(&self, other: &GlobalId) -> (r: Option<Ordering>) {
        order_of_indices(self.as_usize(), other.as_usize())
    }
}

impl vstd::std_specs::cmp::PartialOrdSpecImpl for GlobalId {
    open spec fn obeys_partial_cmp_spec() -> bool {
        true
    }

    open spec fn partial_cmp_spec(&self, other: &GlobalId) -> Option<Ordering> {
        order_of_numbers(self@, other@)
    }
}

impl PartialOrd for IntrinsicId {
    fn partial_cmp(&self, other: &IntrinsicId) -> (r: Option<Ordering>) {
        order_of_indices(self.as_usize(), other.as_usize())
    }
}

impl vstd::std_specs::cmp::PartialOrdSpecImpl for IntrinsicId {
    open spec fn obeys_partial_cmp_spec() -> bool {
        true
    }

    open spec fn partial_cmp_spec(&self, other: &IntrinsicId) -> Option<Ordering> {
        order_of_numbers(self@, other@)
    }
}

impl PartialOrd for NamedConstantId {
    fn partial_cmp(&self, other: &NamedConstantId) -> (r: Option<Ordering>) {
        order_of_indices(self.symbol().index(), other.symbol().index())
    }
}

impl vstd::std_specs::cmp::PartialOrdSpecImpl for NamedConstantId {
    open spec fn obeys_partial_cmp_spec() -> bool {
        true
    }

    open spec fn partial_cmp_spec(&self, other: &NamedConstantId) -> Option<Ordering> {
        PartialOrdSpec::partial_cmp_spec(&self@, &other@)
    }
}

impl PartialOrd for DatatypeId {
    fn partial_cmp(&self, other: &DatatypeId) -> (r: Option<Ordering>) {
        order_of_indices(self.symbol().index(), other.symbol().index())
    }
}

impl vstd::std_specs::cmp::PartialOrdSpecImpl for DatatypeId {
    open spec fn obeys_partial_cmp_spec() -> bool {
        true
    }

    open spec fn partial_cmp_spec(&self, other: &DatatypeId) -> Option<Ordering> {
        PartialOrdSpec::partial_cmp_spec(&self@, &other@)
    }
}

impl PartialOrd for VariantId {
    fn partial_cmp(&self, other: &VariantId) -> (r: Option<Ordering>) {
        order_of_indices(self.symbol().index(), other.symbol().index())
    }
}

impl vstd::std_specs::cmp::PartialOrdSpecImpl for VariantId {
    open spec fn obeys_partial_cmp_spec() -> bool {
        true
    }

    open spec fn partial_cmp_spec(&self, other: &VariantId) -> Option<Ordering> {
        PartialOrdSpec::partial_cmp_spec(&self@, &other@)
    }
}

impl PartialOrd for FieldId {
    fn partial_cmp(&self, other: &FieldId) -> (r: Option<Ordering>) {
        order_of_indices(self.symbol().index(), other.symbol().index())
    }
}

impl vstd::std_specs::cmp::PartialOrdSpecImpl for FieldId {
    open spec fn obeys_partial_cmp_spec() -> bool {
        true
    }

    open spec fn partial_cmp_spec(&self, other: &FieldId) -> Option<Ordering> {
        PartialOrdSpec::partial_cmp_spec(&self@, &other@)
    }
}

impl PartialOrd for FunId {
    fn partial_cmp(&self, other: &FunId) -> (r: Option<Ordering>) {
        order_of_indices(self.symbol().index(), other.symbol().index())
    }
}

impl vstd::std_specs::cmp::PartialOrdSpecImpl for FunId {
    open spec fn obeys_partial_cmp_spec() -> bool {
        true
    }

    open spec fn partial_cmp_spec(&self, other: &FunId) -> Option<Ordering> {
        PartialOrdSpec::partial_cmp_spec(&self@, &other@)
    }
}

impl<Id: PartialOrd> PartialOrd for QualifiedId<Id> {
    fn partial_cmp(&self, other: &QualifiedId<Id>) -> (r: Option<Ordering>) {
        let by_module = self.module_id.partial_cmp(&other.module_id);
        match by_module {
            Some(Ordering::Equal) => self.id.partial_cmp(&other.id),
            _ => by_module,
        }
    }
}

impl<Id: PartialOrd> vstd::std_specs::cmp::PartialOrdSpecImpl for QualifiedId<Id> {
    open spec fn obeys_partial_cmp_spec() -> bool {
        Id::obeys_partial_cmp_spec()
    }

    open spec fn partial_cmp_spec(&self, other: &QualifiedId<Id>) -> Option<Ordering> {
        match PartialOrdSpec::partial_cmp_spec(&self.module_id, &other.module_id) {
            Some(Ordering::Equal) => PartialOrdSpec::partial_cmp_spec(&self.id, &other.id),
            by_module => by_module,
        }
    }
}

/// Symbols are ordered by their index in the pool.
pub proof fn lemma_symbol_order(a: Symbol, b: Symbol)
    ensures
        a.is_lt(&b) <==> a@ < b@,
        a.is_le(&b) <==> a@ <= b@,
        a == b <==> a@ == b@,
{
    Symbol::lemma_view_injective(a, b);
}

/// Module ids are ordered by their index, and two of them are equal exactly when their
/// indices are.
pub proof fn lemma_module_id_order(a: ModuleId, b: ModuleId)
    ensures
        a.is_lt(&b) <==> a@ < b@,
        a.is_le(&b) <==> a@ <= b@,
        a == b <==> a@ == b@,
{
    ModuleId::lemma_view_injective(a, b);
}

/// Node ids are ordered by their number, and two of them are equal exactly when their
/// numbers are.
pub proof fn lemma_node_id_order(a: NodeId, b: NodeId)
    ensures
        a.is_lt(&b) <==> a@ < b@,
        a.is_le(&b) <==> a@ <= b@,
        a == b <==> a@ == b@,
{
    NodeId::lemma_view_injective(a, b);
}

/// Global ids are ordered by their number, and two of them are equal exactly when their
/// numbers are.
pub proof fn lemma_global_id_order(a: GlobalId, b: GlobalId)
    ensures
        a.is_lt(&b) <==> a@ < b@,
        a.is_le(&b) <==> a@ <= b@,
        a == b <==> a@ == b@,
{
    GlobalId::lemma_view_injective(a, b);
}

/// Intrinsic ids are ordered by their number, and two of them are equal exactly when their
/// numbers are.
pub proof fn lemma_intrinsic_id_order(a: IntrinsicId, b: IntrinsicId)
    ensures
        a.is_lt(&b) <==> a@ < b@,
        a.is_le(&b) <==> a@ <= b@,
        a == b <==> a@ == b@,
{
    IntrinsicId::lemma_view_injective(a, b);
}

/// Named constant ids are ordered as their symbols, and two of them are equal exactly when
/// their symbols are.
pub proof fn lemma_named_constant_id_order(a: NamedConstantId, b: NamedConstantId)
    ensures
        a.is_lt(&b) <==> a@.is_lt(&b@),
        a.is_le(&b) <==> a@.is_le(&b@),
        a == b <==> a@ == b@,
{
    NamedConstantId::lemma_view_injective(a, b);
}

/// Datatype ids are ordered as their symbols, and two of them are equal exactly when their
/// symbols are.
pub proof fn lemma_datatype_id_order(a: DatatypeId, b: DatatypeId)
    ensures
        a.is_lt(&b) <==> a@.is_lt(&b@),
        a.is_le(&b) <==> a@.is_le(&b@),
        a == b <==> a@ == b@,
{
    DatatypeId::lemma_view_injective(a, b);
}

/// Variant ids are ordered as their symbols, and two of them are equal exactly when their
/// symbols are.
pub proof fn lemma_variant_id_order(a: VariantId, b: VariantId)
    ensures
        a.is_lt(&b) <==> a@.is_lt(&b@),
        a.is_le(&b) <==> a@.is_le(&b@),
        a == b <==> a@ == b@,
{
    VariantId::lemma_view_injective(a, b);
}

/// Field ids are ordered as their symbols, and two of them are equal exactly when their
/// symbols are.
pub proof fn lemma_field_id_order(a: FieldId, b: FieldId)
    ensures
        a.is_lt(&b) <==> a@.is_lt(&b@),
        a.is_le(&b) <==> a@.is_le(&b@),
        a == b <==> a@ == b@,
{
    FieldId::lemma_view_injective(a, b);
}

/// Function ids are ordered as their symbols, and two of them are equal exactly when their
/// symbols are.
pub proof fn lemma_fun_id_order(a: FunId, b: FunId)
    ensures
        a.is_lt(&b) <==> a@.is_lt(&b@),
        a.is_le(&b) <==> a@.is_le(&b@),
        a == b <==> a@ == b@,
{
    FunId::lemma_view_injective(a, b);
}

/// Qualified ids are ordered by their module first and then by their id, and two of them
/// are equal exactly when both parts are.
pub proof fn lemma_qualified_id_order<Id: PartialOrd>(a: QualifiedId<Id>, b: QualifiedId<Id>)
    ensures
        a.is_lt(&b) <==> a.module_id@ < b.module_id@ || (a.module_id == b.module_id
            && a.id.is_lt(&b.id)),
        a.is_le(&b) <==> a.module_id@ < b.module_id@ || (a.module_id == b.module_id
            && a.id.is_le(&b.id)),
        a == b <==> a.module_id == b.module_id && a.id == b.id,
{
    ModuleId::lemma_view_injective(a.module_id, b.module_id);
}

} // verus!
