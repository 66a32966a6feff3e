//! The names by which qualified ids of datatypes and functions are shown.

use vstd::prelude::*;

use crate::enums::StructOrEnumEnv;
use crate::env::{GlobalEnv, fun_key};
use crate::model::{DatatypeId, FunId, QualifiedId};

verus! {

/// The name of the item of module `module_id` named `name`, as shown: the name of the module,
/// without its address, and the name of the item.
pub open spec fn qualified_name(env: &GlobalEnv, module_id: nat, name: nat) -> Seq<char> {
    env.symbol_pool@[env.module_data@[module_id as int].name@ as int] + "::"@ + env.symbol_pool@[name as int]
}

/// Qualified ids that have a name to show.
pub trait GetNameString {
    /// `self` is the qualified id of an item of `env`.
    spec fn names_item_of(&self, env: &GlobalEnv) -> bool;

    /// The full name of the item of `env` that this qualified id stands for.
    fn get_name_for_display(&self, env: &GlobalEnv) -> (r: String)
        requires
            env.wf(),
            self.names_item_of(env),
    ;
}

impl GetNameString for QualifiedId<DatatypeId> {
    open spec fn names_item_of(&self, env: &GlobalEnv) -> bool {
        env.has_struct(*self) || env.has_enum(*self)
    }

    /// The full name of the struct or enum of this qualified id: the names of its module and
    /// of itself.
    fn get_name_for_display(&self, env: &GlobalEnv) -> (r: String)
        ensures
            r@ == qualified_name(env, self.module_id@, self.id@@),
    {
        match env.get_struct_or_enum_qid(*self) {
            StructOrEnumEnv::Struct(s) => s.get_full_name_str(),
            StructOrEnumEnv::Enum(e) => e.get_full_name_str(),
        }
    }
}

impl GetNameString for QualifiedId<FunId> {
    open spec fn names_item_of(&self, env: &GlobalEnv) -> bool {
        env.has_function(*self)
    }

    /// The full name of the function of this qualified id: the names of its module and of
    /// itself.
    fn get_name_for_display(&self, env: &GlobalEnv) -> (r: String)
        ensures
            r@ == qualified_name(env, self.module_id@, self.id@@),
    {
        let f = env.get_function_qid(*self);
        proof {
            assert(fun_key(f.data()) == *self);
        }
        f.get_full_name_str()
    }
}

} // verus!
