//! Adding a module to the environment: the module is numbered by its position, named by its
//! own name or, for a script, by the first of its functions, and its named constants, structs,
//! enums and functions join those of the environment. Also the data of structs, enums and
//! named constants as a module declares them.

use vstd::prelude::*;

use crate::address::Address;
use crate::constants::{NamedConstantData, constant_positions};
use crate::enums::{EnumData, VariantData, enum_positions};
use crate::env::{FunctionData, GlobalEnv, ModuleData, count_in_module, fun_key};
use crate::files::MoveIrLoc;
use crate::loc::{Loc, LocView, default_loc_view};
use crate::model::{FunId, ModuleId, QualifiedId};
use crate::structs::{FieldData, StructData, struct_positions};
use crate::ty::Type;
use crate::symbol::{Symbol, made};
use crate::text::{hexadecimal, same_text};

verus! {

/// `j` is the position in `fs` of a function whose id comes first in the order of ids.
pub open spec fn is_first_function(fs: Seq<FunctionData>, j: int) -> bool {
    &&& 0 <= j < fs.len()
    &&& forall|k: int| 0 <= k < fs.len() ==> fs[j].id@@ <= (#[trigger] fs[k]).id@@
}

/// The position of a function of `fs`, which is not empty, whose id comes first in the order
/// of ids.
fn first_function(fs: &Vec<FunctionData>) -> (r: usize)
    requires
        fs@.len() > 0,
    ensures
        is_first_function(fs@, r as int),
{
    let n = fs.len();
    let mut best: usize = 0;
    let mut i: usize = 1;
    while i < n
        invariant
            n == fs@.len(),
            1 <= i <= n,
            best < i,
            forall|k: int| 0 <= k < i ==> fs@[best as int].id@@ <= (#[trigger] fs@[k]).id@@,
        decreases n - i,
    {
        if fs[i].id.symbol().index() < fs[best].id.symbol().index() {
            best = i;
        }
        i = i + 1;
    }
    best
}

impl GlobalEnv {
    /// `q` is the qualified id of a function of the environment or of `functions`.
    pub open spec fn has_function_with(&self, functions: Seq<FunctionData>, q: QualifiedId<FunId>) -> bool {
        self.has_function(q) || exists|j: int|
            0 <= j < functions.len() && fun_key(#[trigger] functions[j]) == q
    }

    /// The data fits a new module numbered `n`: every item belongs to it, the names are
    /// symbols of the pool, no two constants, structs, enums or functions have the same name,
    /// the fields and variants are consistent, and every function that a function calls is
    /// one of the environment or of `functions`.
    pub open spec fn fits_new_module(
        &self,
        n: nat,
        constants: Seq<NamedConstantData>,
        structs: Seq<StructData>,
        enums: Seq<EnumData>,
        functions: Seq<FunctionData>,
    ) -> bool {
        &&& forall|i: int| 0 <= i < constants.len() ==> (#[trigger] constants[i]).module_id@ == n
        &&& forall|i: int|
            0 <= i < constants.len() ==> self.symbol_pool.has((#[trigger] constants[i]).name)
        &&& forall|i: int, j: int|
            0 <= i < constants.len() && 0 <= j < constants.len() && i != j ==> (
            #[trigger] constants[i]).name != (#[trigger] constants[j]).name
        &&& forall|i: int| 0 <= i < structs.len() ==> (#[trigger] structs[i]).module_id@ == n
        &&& forall|i: int|
            0 <= i < structs.len() ==> self.symbol_pool.has((#[trigger] structs[i]).name)
        &&& forall|i: int, j: int|
            0 <= i < structs.len() && 0 <= j < structs.len() && i != j ==> (
            #[trigger] structs[i]).name != (#[trigger] structs[j]).name
        &&& forall|i: int| 0 <= i < structs.len() ==> self.fields_wf((#[trigger] structs[i]).fields@)
        &&& forall|i: int| 0 <= i < enums.len() ==> (#[trigger] enums[i]).module_id@ == n
        &&& forall|i: int| 0 <= i < enums.len() ==> self.symbol_pool.has((#[trigger] enums[i]).name)
        &&& forall|i: int, j: int|
            0 <= i < enums.len() && 0 <= j < enums.len() && i != j ==> (#[trigger] enums[i]).name
                != (#[trigger] enums[j]).name
        &&& forall|i: int| 0 <= i < enums.len() ==> self.variants_wf((#[trigger] enums[i]).variants@)
        &&& forall|i: int| 0 <= i < functions.len() ==> (#[trigger] functions[i]).module_id@ == n
        &&& forall|i: int|
            0 <= i < functions.len() ==> self.symbol_pool.has((#[trigger] functions[i]).id@)
        &&& forall|i: int, j: int|
            0 <= i < functions.len() && 0 <= j < functions.len() && i != j ==> (
            #[trigger] functions[i]).id != (#[trigger] functions[j]).id
        &&& forall|i: int, k: int|
            0 <= i < functions.len() && 0 <= k < functions[i].parameters@.len()
                ==> self.symbol_pool.has((#[trigger] functions[i].parameters@[k]).0)
        &&& forall|i: int, k: int|
            0 <= i < functions.len() && 0 <= k < functions[i].called_funs@.len()
                ==> self.has_function_with(functions, #[trigger] functions[i].called_funs@[k])
    }
}

/// Fields stay consistent as the pool grows.
proof fn lemma_fields_wf_grows(e0: GlobalEnv, e1: GlobalEnv, fs: Seq<FieldData>)
    requires
        e0.fields_wf(fs),
        e0.symbol_pool@.len() <= e1.symbol_pool@.len(),
    ensures
        e1.fields_wf(fs),
{
    assert forall|a: int| 0 <= a < fs.len() implies e1.symbol_pool.has((#[trigger] fs[a]).name) by {
        assert(e0.symbol_pool.has(fs[a].name));
    }
}

/// Variants stay consistent as the pool grows.
proof fn lemma_variants_wf_grows(e0: GlobalEnv, e1: GlobalEnv, vs: Seq<VariantData>)
    requires
        e0.variants_wf(vs),
        e0.symbol_pool@.len() <= e1.symbol_pool@.len(),
    ensures
        e1.variants_wf(vs),
{
    assert forall|a: int| 0 <= a < vs.len() implies e1.symbol_pool.has((#[trigger] vs[a]).name) by {
        assert(e0.symbol_pool.has(vs[a].name));
    }
    assert forall|a: int| 0 <= a < vs.len() implies e1.fields_wf((#[trigger] vs[a]).fields@) by {
        lemma_fields_wf_grows(e0, e1, vs[a].fields@);
    }
}

/// Appending the constants of a new module keeps the constants consistent.
proof fn lemma_add_keeps_constants_wf(
    e0: GlobalEnv,
    e1: GlobalEnv,
    constants: Seq<NamedConstantData>,
    structs: Seq<StructData>,
    enums: Seq<EnumData>,
    functions: Seq<FunctionData>,
)
    requires
        e0.wf(),
        e0.fits_new_module(e0.module_data@.len(), constants, structs, enums, functions),
        e1.module_data@.len() == e0.module_data@.len() + 1,
        e0.symbol_pool@.len() <= e1.symbol_pool@.len(),
        e1.named_constants@ == e0.named_constants@ + constants,
    ensures
        e1.constants_wf(),
{
    let n = e0.module_data@.len();
    let c0 = e0.named_constants@;
    let c1 = e1.named_constants@;
    assert forall|i: int| 0 <= i < c1.len() implies (#[trigger] c1[i]).module_id@ < n + 1
        && e1.symbol_pool.has(c1[i].name) by {
        if i < c0.len() {
            assert(c1[i] == c0[i]);
            assert(e0.symbol_pool.has(c0[i].name));
        } else {
            assert(c1[i] == constants[i - c0.len()]);
            assert(e0.symbol_pool.has(constants[i - c0.len()].name));
        }
    }
    assert forall|i: int, j: int|
        0 <= i < c1.len() && 0 <= j < c1.len() && i != j implies !((#[trigger] c1[i]).module_id
        == (#[trigger] c1[j]).module_id && c1[i].name == c1[j].name) by {
        if i < c0.len() && j < c0.len() {
            assert(c1[i] == c0[i] && c1[j] == c0[j]);
        } else if i < c0.len() {
            assert(c1[i] == c0[i] && c1[j] == constants[j - c0.len()]);
            assert(c0[i].module_id@ < n);
        } else if j < c0.len() {
            assert(c1[j] == c0[j] && c1[i] == constants[i - c0.len()]);
            assert(c0[j].module_id@ < n);
        } else {
            assert(c1[i] == constants[i - c0.len()] && c1[j] == constants[j - c0.len()]);
        }
    }
}

/// Appending the structs of a new module keeps the structs consistent.
proof fn lemma_add_keeps_structs_wf(
    e0: GlobalEnv,
    e1: GlobalEnv,
    constants: Seq<NamedConstantData>,
    structs: Seq<StructData>,
    enums: Seq<EnumData>,
    functions: Seq<FunctionData>,
)
    requires
        e0.wf(),
        e0.fits_new_module(e0.module_data@.len(), constants, structs, enums, functions),
        e1.module_data@.len() == e0.module_data@.len() + 1,
        e0.symbol_pool@.len() <= e1.symbol_pool@.len(),
        e1.struct_data@ == e0.struct_data@ + structs,
    ensures
        e1.structs_wf(),
{
    let n = e0.module_data@.len();
    let c0 = e0.struct_data@;
    let c1 = e1.struct_data@;
    assert forall|i: int| 0 <= i < c1.len() implies (#[trigger] c1[i]).module_id@ < n + 1
        && e1.symbol_pool.has(c1[i].name) && e1.fields_wf(c1[i].fields@) by {
        if i < c0.len() {
            assert(c1[i] == c0[i]);
            assert(e0.symbol_pool.has(c0[i].name));
            lemma_fields_wf_grows(e0, e1, c0[i].fields@);
        } else {
            assert(c1[i] == structs[i - c0.len()]);
            assert(e0.symbol_pool.has(structs[i - c0.len()].name));
            lemma_fields_wf_grows(e0, e1, structs[i - c0.len()].fields@);
        }
    }
    assert forall|i: int, j: int|
        0 <= i < c1.len() && 0 <= j < c1.len() && i != j implies !((#[trigger] c1[i]).module_id
        == (#[trigger] c1[j]).module_id && c1[i].name == c1[j].name) by {
        if i < c0.len() && j < c0.len() {
            assert(c1[i] == c0[i] && c1[j] == c0[j]);
        } else if i < c0.len() {
            assert(c1[i] == c0[i] && c1[j] == structs[j - c0.len()]);
            assert(c0[i].module_id@ < n);
        } else if j < c0.len() {
            assert(c1[j] == c0[j] && c1[i] == structs[i - c0.len()]);
            assert(c0[j].module_id@ < n);
        } else {
            assert(c1[i] == structs[i - c0.len()] && c1[j] == structs[j - c0.len()]);
        }
    }
}

/// Appending the enums of a new module keeps the enums consistent.
proof fn lemma_add_keeps_enums_wf(
    e0: GlobalEnv,
    e1: GlobalEnv,
    constants: Seq<NamedConstantData>,
    structs: Seq<StructData>,
    enums: Seq<EnumData>,
    functions: Seq<FunctionData>,
)
    requires
        e0.wf(),
        e0.fits_new_module(e0.module_data@.len(), constants, structs, enums, functions),
        e1.module_data@.len() == e0.module_data@.len() + 1,
        e0.symbol_pool@.len() <= e1.symbol_pool@.len(),
        e1.enum_data@ == e0.enum_data@ + enums,
    ensures
        e1.enums_wf(),
{
    let n = e0.module_data@.len();
    let c0 = e0.enum_data@;
    let c1 = e1.enum_data@;
    assert forall|i: int| 0 <= i < c1.len() implies (#[trigger] c1[i]).module_id@ < n + 1
        && e1.symbol_pool.has(c1[i].name) && e1.variants_wf(c1[i].variants@) by {
        if i < c0.len() {
            assert(c1[i] == c0[i]);
            assert(e0.symbol_pool.has(c0[i].name));
            lemma_variants_wf_grows(e0, e1, c0[i].variants@);
        } else {
            assert(c1[i] == enums[i - c0.len()]);
            assert(e0.symbol_pool.has(enums[i - c0.len()].name));
            lemma_variants_wf_grows(e0, e1, enums[i - c0.len()].variants@);
        }
    }
    assert forall|i: int, j: int|
        0 <= i < c1.len() && 0 <= j < c1.len() && i != j implies !((#[trigger] c1[i]).module_id
        == (#[trigger] c1[j]).module_id && c1[i].name == c1[j].name) by {
        if i < c0.len() && j < c0.len() {
            assert(c1[i] == c0[i] && c1[j] == c0[j]);
        } else if i < c0.len() {
            assert(c1[i] == c0[i] && c1[j] == enums[j - c0.len()]);
            assert(c0[i].module_id@ < n);
        } else if j < c0.len() {
            assert(c1[j] == c0[j] && c1[i] == enums[i - c0.len()]);
            assert(c0[j].module_id@ < n);
        } else {
            assert(c1[i] == enums[i - c0.len()] && c1[j] == enums[j - c0.len()]);
        }
    }
}

/// Adding a module with no used or friend modules, numbered by its position and named by a
/// symbol of the pool, keeps the modules consistent.
proof fn lemma_add_keeps_modules_wf(e0: GlobalEnv, e1: GlobalEnv)
    requires
        e0.wf(),
        e0.module_data@.len() < 0x10000,
        e1.module_data@.len() == e0.module_data@.len() + 1,
        e1.module_data@.take(e0.module_data@.len() as int) == e0.module_data@,
        e1.module_data@[e0.module_data@.len() as int].id@ == e0.module_data@.len(),
        e1.symbol_pool.has(e1.module_data@[e0.module_data@.len() as int].name),
        e1.module_data@[e0.module_data@.len() as int].used_modules@.len() == 0,
        e1.module_data@[e0.module_data@.len() as int].friend_modules@.len() == 0,
        e0.symbol_pool@.len() <= e1.symbol_pool@.len(),
    ensures
        e1.module_data@.len() <= 0x10000,
        forall|i: int|
            0 <= i < e1.module_data@.len() ==> (#[trigger] e1.module_data@[i]).id@ == i,
        forall|i: int|
            0 <= i < e1.module_data@.len() ==> e1.symbol_pool.has(
                (#[trigger] e1.module_data@[i]).name,
            ),
        forall|i: int, k: int|
            0 <= i < e1.module_data@.len() && 0 <= k < e1.module_data@[i].used_modules@.len()
                ==> (#[trigger] e1.module_data@[i].used_modules@[k])@
                < e1.module_data@.len(),
        forall|i: int, k: int|
            0 <= i < e1.module_data@.len() && 0 <= k < e1.module_data@[i].friend_modules@.len()
                ==> (#[trigger] e1.module_data@[i].friend_modules@[k])@
                < e1.module_data@.len(),
{
    let n = e0.module_data@.len() as int;
    assert forall|i: int| 0 <= i < n implies #[trigger] e1.module_data@[i] == e0.module_data@[i] by {
        assert(e1.module_data@.take(n)[i] == e1.module_data@[i]);
    }
    assert forall|i: int|
        0 <= i < e1.module_data@.len() implies e1.symbol_pool.has(
        (#[trigger] e1.module_data@[i]).name) by {
        if i < n {
            assert(e0.symbol_pool.has(e0.module_data@[i].name));
        }
    }
    assert forall|i: int, k: int|
        0 <= i < e1.module_data@.len() && 0 <= k < e1.module_data@[i].used_modules@.len()
        implies (#[trigger] e1.module_data@[i].used_modules@[k])@ < e1.module_data@.len() by {
        assert(e0.module_data@[i].used_modules@[k]@ < n);
    }
    assert forall|i: int, k: int|
        0 <= i < e1.module_data@.len() && 0 <= k < e1.module_data@[i].friend_modules@.len()
        implies (#[trigger] e1.module_data@[i].friend_modules@[k])@ < e1.module_data@.len() by {
        assert(e0.module_data@[i].friend_modules@[k]@ < n);
    }
}

/// Appending the functions of a new module keeps the functions consistent.
proof fn lemma_add_keeps_functions_wf(
    e0: GlobalEnv,
    e1: GlobalEnv,
    constants: Seq<NamedConstantData>,
    structs: Seq<StructData>,
    enums: Seq<EnumData>,
    functions: Seq<FunctionData>,
)
    requires
        e0.wf(),
        e0.fits_new_module(e0.module_data@.len(), constants, structs, enums, functions),
        e1.module_data@.len() == e0.module_data@.len() + 1,
        e0.symbol_pool@.len() <= e1.symbol_pool@.len(),
        e1.function_data@ == e0.function_data@ + functions,
    ensures
        forall|i: int|
            0 <= i < e1.function_data@.len() ==> (#[trigger] e1.function_data@[i]).module_id@
                < e1.module_data@.len(),
        forall|i: int|
            0 <= i < e1.function_data@.len() ==> e1.symbol_pool.has(
                (#[trigger] e1.function_data@[i]).id@,
            ),
        forall|i: int, j: int|
            0 <= i < e1.function_data@.len() && 0 <= j < e1.function_data@.len() && i != j
                ==> fun_key(#[trigger] e1.function_data@[i]) != fun_key(
                #[trigger] e1.function_data@[j],
            ),
        forall|i: int, k: int|
            0 <= i < e1.function_data@.len() && 0 <= k
                < e1.function_data@[i].called_funs@.len() ==> e1.has_function(
                #[trigger] e1.function_data@[i].called_funs@[k],
            ),
        forall|i: int, k: int|
            0 <= i < e1.function_data@.len() && 0 <= k
                < e1.function_data@[i].parameters@.len() ==> e1.symbol_pool.has(
                (#[trigger] e1.function_data@[i].parameters@[k]).0,
            ),
{
    let n = e0.module_data@.len();
    let f0 = e0.function_data@;
    let f1 = e1.function_data@;
    assert forall|i: int| 0 <= i < f1.len() implies (#[trigger] f1[i]).module_id@ < n + 1
        && e1.symbol_pool.has(f1[i].id@) by {
        if i < f0.len() {
            assert(f1[i] == f0[i]);
            assert(e0.symbol_pool.has(f0[i].id@));
        } else {
            assert(f1[i] == functions[i - f0.len()]);
            assert(e0.symbol_pool.has(functions[i - f0.len()].id@));
        }
    }
    assert forall|i: int, j: int|
        0 <= i < f1.len() && 0 <= j < f1.len() && i != j implies fun_key(#[trigger] f1[i])
        != fun_key(#[trigger] f1[j]) by {
        if i < f0.len() && j < f0.len() {
            assert(f1[i] == f0[i] && f1[j] == f0[j]);
        } else if i < f0.len() {
            assert(f1[i] == f0[i] && f1[j] == functions[j - f0.len()]);
            assert(f0[i].module_id@ < n);
        } else if j < f0.len() {
            assert(f1[j] == f0[j] && f1[i] == functions[i - f0.len()]);
            assert(f0[j].module_id@ < n);
        } else {
            assert(f1[i] == functions[i - f0.len()] && f1[j] == functions[j - f0.len()]);
        }
    }
    assert forall|q: QualifiedId<FunId>| e0.has_function_with(functions, q) implies e1.has_function(
        q,
    ) by {
        if e0.has_function(q) {
            let j = choose|j: int| 0 <= j < f0.len() && fun_key(#[trigger] f0[j]) == q;
            assert(f1[j] == f0[j]);
        } else {
            let j = choose|j: int| 0 <= j < functions.len() && fun_key(#[trigger] functions[j]) == q;
            assert(f1[f0.len() + j] == functions[j]);
        }
    }
    assert forall|i: int, k: int|
        0 <= i < f1.len() && 0 <= k < f1[i].called_funs@.len() implies e1.has_function(
        #[trigger] f1[i].called_funs@[k],
    ) by {
        if i < f0.len() {
            assert(f1[i] == f0[i]);
            assert(e0.has_function(f0[i].called_funs@[k]));
            assert(e0.has_function_with(functions, f0[i].called_funs@[k]));
        } else {
            assert(f1[i] == functions[i - f0.len()]);
            assert(e0.has_function_with(functions, functions[i - f0.len()].called_funs@[k]));
        }
    }
    assert forall|i: int, k: int|
        0 <= i < f1.len() && 0 <= k < f1[i].parameters@.len() implies e1.symbol_pool.has(
        (#[trigger] f1[i].parameters@[k]).0,
    ) by {
        if i < f0.len() {
            assert(f1[i] == f0[i]);
            assert(e0.symbol_pool.has(f0[i].parameters@[k].0));
        } else {
            assert(f1[i] == functions[i - f0.len()]);
            assert(e0.symbol_pool.has(functions[i - f0.len()].parameters@[k].0));
        }
    }
}

/// Adding a module keeps the environment consistent where the data fits the new module: the
/// module is numbered by its position, is named by a symbol of the pool, uses and befriends
/// no module, and the pool keeps its symbols.
proof fn lemma_add_keeps_wf(
    e0: GlobalEnv,
    e1: GlobalEnv,
    constants: Seq<NamedConstantData>,
    structs: Seq<StructData>,
    enums: Seq<EnumData>,
    functions: Seq<FunctionData>,
)
    requires
        e0.wf(),
        e0.module_data@.len() < 0x10000,
        e0.fits_new_module(e0.module_data@.len(), constants, structs, enums, functions),
        e1.module_data@.len() == e0.module_data@.len() + 1,
        e1.module_data@.take(e0.module_data@.len() as int) == e0.module_data@,
        e1.module_data@[e0.module_data@.len() as int].id@ == e0.module_data@.len(),
        e1.symbol_pool.has(e1.module_data@[e0.module_data@.len() as int].name),
        e1.module_data@[e0.module_data@.len() as int].used_modules@.len() == 0,
        e1.module_data@[e0.module_data@.len() as int].friend_modules@.len() == 0,
        e0.symbol_pool@.len() <= e1.symbol_pool@.len(),
        e1.named_constants@ == e0.named_constants@ + constants,
        e1.struct_data@ == e0.struct_data@ + structs,
        e1.enum_data@ == e0.enum_data@ + enums,
        e1.function_data@ == e0.function_data@ + functions,
        e1.files == e0.files,
    ensures
        e1.wf(),
{
    lemma_add_keeps_constants_wf(e0, e1, constants, structs, enums, functions);
    lemma_add_keeps_structs_wf(e0, e1, constants, structs, enums, functions);
    lemma_add_keeps_enums_wf(e0, e1, constants, structs, enums, functions);
    lemma_add_keeps_modules_wf(e0, e1);
    lemma_add_keeps_functions_wf(e0, e1, constants, structs, enums, functions);
}

/// Functions of other modules count none for the module `m`.
proof fn lemma_functions_none(s: Seq<FunctionData>, m: nat)
    requires
        forall|i: int| 0 <= i < s.len() ==> (#[trigger] s[i]).module_id@ != m,
    ensures
        count_in_module(s, m) == 0,
    decreases s.len(),
{
    if s.len() > 0 {
        lemma_functions_none(s.drop_last(), m);
    }
}

/// Appending functions of the module `m` to functions of other modules counts the appended ones
/// for `m`.
proof fn lemma_functions_appended(s0: Seq<FunctionData>, t: Seq<FunctionData>, m: nat)
    requires
        forall|i: int| 0 <= i < s0.len() ==> (#[trigger] s0[i]).module_id@ != m,
        forall|i: int| 0 <= i < t.len() ==> (#[trigger] t[i]).module_id@ == m,
    ensures
        count_in_module(s0 + t, m) == t.len(),
    decreases t.len(),
{
    if t.len() == 0 {
        assert(s0 + t =~= s0);
        lemma_functions_none(s0, m);
    } else {
        assert((s0 + t).drop_last() =~= s0 + t.drop_last());
        lemma_functions_appended(s0, t.drop_last(), m);
    }
}

/// Structs of other modules count none for the module `m`.
proof fn lemma_structs_none(s: Seq<StructData>, m: nat)
    requires
        forall|i: int| 0 <= i < s.len() ==> (#[trigger] s[i]).module_id@ != m,
    ensures
        struct_positions(s, m).len() == 0,
    decreases s.len(),
{
    if s.len() > 0 {
        lemma_structs_none(s.drop_last(), m);
    }
}

/// Appending structs of the module `m` to structs of other modules counts the appended ones
/// for `m`.
proof fn lemma_structs_appended(s0: Seq<StructData>, t: Seq<StructData>, m: nat)
    requires
        forall|i: int| 0 <= i < s0.len() ==> (#[trigger] s0[i]).module_id@ != m,
        forall|i: int| 0 <= i < t.len() ==> (#[trigger] t[i]).module_id@ == m,
    ensures
        struct_positions(s0 + t, m).len() == t.len(),
    decreases t.len(),
{
    if t.len() == 0 {
        assert(s0 + t =~= s0);
        lemma_structs_none(s0, m);
    } else {
        assert((s0 + t).drop_last() =~= s0 + t.drop_last());
        lemma_structs_appended(s0, t.drop_last(), m);
    }
}

/// Enums of other modules count none for the module `m`.
proof fn lemma_enums_none(s: Seq<EnumData>, m: nat)
    requires
        forall|i: int| 0 <= i < s.len() ==> (#[trigger] s[i]).module_id@ != m,
    ensures
        enum_positions(s, m).len() == 0,
    decreases s.len(),
{
    if s.len() > 0 {
        lemma_enums_none(s.drop_last(), m);
    }
}

/// Appending enums of the module `m` to enums of other modules counts the appended ones
/// for `m`.
proof fn lemma_enums_appended(s0: Seq<EnumData>, t: Seq<EnumData>, m: nat)
    requires
        forall|i: int| 0 <= i < s0.len() ==> (#[trigger] s0[i]).module_id@ != m,
        forall|i: int| 0 <= i < t.len() ==> (#[trigger] t[i]).module_id@ == m,
    ensures
        enum_positions(s0 + t, m).len() == t.len(),
    decreases t.len(),
{
    if t.len() == 0 {
        assert(s0 + t =~= s0);
        lemma_enums_none(s0, m);
    } else {
        assert((s0 + t).drop_last() =~= s0 + t.drop_last());
        lemma_enums_appended(s0, t.drop_last(), m);
    }
}

/// Constants of other modules count none for the module `m`.
proof fn lemma_constants_none(s: Seq<NamedConstantData>, m: nat)
    requires
        forall|i: int| 0 <= i < s.len() ==> (#[trigger] s[i]).module_id@ != m,
    ensures
        constant_positions(s, m).len() == 0,
    decreases s.len(),
{
    if s.len() > 0 {
        lemma_constants_none(s.drop_last(), m);
    }
}

/// Appending constants of the module `m` to constants of other modules counts the appended ones
/// for `m`.
proof fn lemma_constants_appended(s0: Seq<NamedConstantData>, t: Seq<NamedConstantData>, m: nat)
    requires
        forall|i: int| 0 <= i < s0.len() ==> (#[trigger] s0[i]).module_id@ != m,
        forall|i: int| 0 <= i < t.len() ==> (#[trigger] t[i]).module_id@ == m,
    ensures
        constant_positions(s0 + t, m).len() == t.len(),
    decreases t.len(),
{
    if t.len() == 0 {
        assert(s0 + t =~= s0);
        lemma_constants_none(s0, m);
    } else {
        assert((s0 + t).drop_last() =~= s0 + t.drop_last());
        lemma_constants_appended(s0, t.drop_last(), m);
    }
}

impl GlobalEnv {
    /// The name of the module that a script is compiled into.
    pub const SCRIPT_MODULE_NAME: &'static str = "<SELF>";

    /// `m` is the module that `add` makes at position `n` of `after`: numbered by its
    /// position, at `address`, with location `loc`, using and befriending no module, a script
    /// exactly when its name is that of a script's module, and named, with its address in
    /// hexadecimal before it, by `module_name` or, for a script, by a function of `functions`
    /// whose id comes first.
    pub open spec fn added_module(
        &self,
        after: GlobalEnv,
        m: ModuleData,
        n: nat,
        loc: Loc,
        address: nat,
        module_name: Seq<char>,
        functions: Seq<FunctionData>,
    ) -> bool {
        let is_script = module_name == GlobalEnv::SCRIPT_MODULE_NAME@;
        &&& m.id@ == n % 0x10000
        &&& m.address@ == address
        &&& m.loc@ == loc@
        &&& m.used_modules@.len() == 0
        &&& m.friend_modules@.len() == 0
        &&& m.is_script == is_script
        &&& !is_script ==> made(self.symbol_pool@, module_name, after.symbol_pool@, m.name)
        &&& is_script ==> after.symbol_pool == self.symbol_pool && exists|j: int|
            is_first_function(functions, j) && m.name == functions[j].id@
        &&& m.full_name@ == "0x"@ + hexadecimal(address) + "::"@ + after.symbol_pool@[m.name@ as int]
    }

    /// Adds a module named `module_name` at `address`, located at `loc`, that declares
    /// `named_constants`, `struct_data`, `enum_data` and `function_data`, made for this module
    /// (their module id is the number of modules there are now). A module with the name of a
    /// script's module is named by the function whose id comes first; it declares one at
    /// least, named by symbols of the pool.
    pub fn add(
        &mut self,
        loc: Loc,
        address: Address,
        module_name: &str,
        named_constants: Vec<NamedConstantData>,
        struct_data: Vec<StructData>,
        enum_data: Vec<EnumData>,
        function_data: Vec<FunctionData>,
    )
        requires
            module_name@ == GlobalEnv::SCRIPT_MODULE_NAME@ ==> function_data@.len() > 0
                && forall|i: int|
                0 <= i < function_data@.len() ==> old(self).symbol_pool.has(
                    (#[trigger] function_data@[i]).id@,
                ),
        ensures
            ({
                let n = old(self).module_data@.len();
                &&& final(self).module_data@.len() == n + 1
                &&& final(self).module_data@.take(n as int) == old(self).module_data@
                &&& old(self).added_module(
                    *final(self),
                    final(self).module_data@[n as int],
                    n,
                    loc,
                    address@,
                    module_name@,
                    function_data@,
                )
            }),
            final(self).named_constants@ == old(self).named_constants@ + named_constants@,
            final(self).struct_data@ == old(self).struct_data@ + struct_data@,
            final(self).enum_data@ == old(self).enum_data@ + enum_data@,
            final(self).function_data@ == old(self).function_data@ + function_data@,
            final(self).files == old(self).files,
            final(self).next_free_node_id == old(self).next_free_node_id,
            final(self).global_id_counter == old(self).global_id_counter,
            final(self).diags == old(self).diags,
            final(self).exp_info == old(self).exp_info,
            final(self).unknown_loc == old(self).unknown_loc,
            final(self).internal_loc == old(self).internal_loc,
            final(self).stdlib_address == old(self).stdlib_address,
            final(self).extlib_address == old(self).extlib_address,
            old(self).wf() && old(self).module_data@.len() < 0x10000 && old(self).fits_new_module(
                old(self).module_data@.len(),
                named_constants@,
                struct_data@,
                enum_data@,
                function_data@,
            ) ==> final(self).wf(),
            old(self).wf() && old(self).fits_new_module(
                old(self).module_data@.len(),
                named_constants@,
                struct_data@,
                enum_data@,
                function_data@,
            ) ==> {
                let n = old(self).module_data@.len();
                &&& count_in_module(final(self).function_data@, n) == function_data@.len()
                &&& struct_positions(final(self).struct_data@, n).len() == struct_data@.len()
                &&& enum_positions(final(self).enum_data@, n).len() == enum_data@.len()
                &&& constant_positions(final(self).named_constants@, n).len()
                    == named_constants@.len()
            },
    {
        let ghost e0 = *self;
        let ghost constants0 = named_constants@;
        let ghost structs0 = struct_data@;
        let ghost enums0 = enum_data@;
        let ghost functions0 = function_data@;
        let n = self.module_data.len();
        let is_script = same_text(module_name, Self::SCRIPT_MODULE_NAME);
        let name: Symbol = if is_script {
            let j = first_function(&function_data);
            function_data[j].id.symbol()
        } else {
            self.symbol_pool.make(module_name)
        };
        let name_str = self.symbol_pool.string(name);
        let full_name = String::from_str("0x").concat(address.to_hex_string().as_str()).concat(
            "::",
        ).concat(name_str.as_str());
        let ghost address_view = address@;
        let module = ModuleData {
            id: ModuleId::new(n),
            name,
            address,
            full_name,
            is_script,
            used_modules: Vec::new(),
            friend_modules: Vec::new(),
            loc,
        };
        let ghost added = module;
        self.module_data.push(module);
        let mut named_constants = named_constants;
        self.named_constants.append(&mut named_constants);
        let mut struct_data = struct_data;
        self.struct_data.append(&mut struct_data);
        let mut enum_data = enum_data;
        self.enum_data.append(&mut enum_data);
        let mut function_data = function_data;
        self.function_data.append(&mut function_data);
        proof {
            assert(self.module_data@[n as int] == added);
            assert(self.module_data@.take(n as int) =~= old(self).module_data@);
            if e0.wf() && n < 0x10000 && e0.fits_new_module(
                n as nat,
                constants0,
                structs0,
                enums0,
                functions0,
            ) {
                lemma_add_keeps_wf(e0, *self, constants0, structs0, enums0, functions0);
            }
            if e0.wf() && e0.fits_new_module(n as nat, constants0, structs0, enums0, functions0) {
                lemma_functions_appended(e0.function_data@, functions0, n as nat);
                lemma_structs_appended(e0.struct_data@, structs0, n as nat);
                lemma_enums_appended(e0.enum_data@, enums0, n as nat);
                lemma_constants_appended(e0.named_constants@, constants0, n as nat);
            }
        }
    }
}

/// `after` is the pool `before` with some of `names` added at its end.
pub open spec fn pool_grown_by(
    before: Seq<Seq<char>>,
    after: Seq<Seq<char>>,
    names: Seq<Seq<char>>,
) -> bool {
    &&& before.len() <= after.len()
    &&& forall|i: int| 0 <= i < before.len() ==> #[trigger] after[i] == before[i]
    &&& forall|i: int| before.len() <= i < after.len() ==> names.contains(#[trigger] after[i])
}

/// The names of the fields `fields`, given with their types.
pub open spec fn field_names(fields: Seq<(String, Type)>) -> Seq<Seq<char>> {
    fields.map_values(|f: (String, Type)| f.0@)
}

/// `r` are the fields `fields`, given by their names and types, in their order: each at its
/// position as offset, with its type, named by the symbol of its name in `pool`.
pub open spec fn fields_made(r: Seq<FieldData>, fields: Seq<(String, Type)>, pool: Seq<Seq<char>>) -> bool {
    &&& r.len() == fields.len()
    &&& forall|i: int|
        0 <= i < r.len() ==> {
            &&& (#[trigger] r[i]).offset == i
            &&& r[i].ty@ == fields[i].1@
            &&& r[i].name@ < pool.len()
            &&& pool[r[i].name@ as int] == fields[i].0@
        }
}

impl GlobalEnv {
    /// `after` is this environment where the pool gained some of `names` at its end and
    /// nothing else changed.
    pub open spec fn interned(&self, after: GlobalEnv, names: Seq<Seq<char>>) -> bool {
        &&& pool_grown_by(self.symbol_pool@, after.symbol_pool@, names)
        &&& after.same_declarations(self)
        &&& after.next_free_node_id == self.next_free_node_id
        &&& after.global_id_counter == self.global_id_counter
        &&& after.diags == self.diags
        &&& after.exp_info == self.exp_info
    }

    /// The fields `fields`, given by their names and types: each at its position as offset,
    /// its name interned in the pool.
    fn make_fields(&mut self, fields: &Vec<(String, Type)>) -> (r: Vec<FieldData>)
        ensures
            fields_made(r@, fields@, final(self).symbol_pool@),
            old(self).interned(*final(self), field_names(fields@)),
    {
        let ghost before = *self;
        let n = fields.len();
        let mut r: Vec<FieldData> = Vec::new();
        let mut i: usize = 0;
        while i < n
            invariant
                n == fields@.len(),
                i <= n,
                fields_made(r@, fields@.take(i as int), self.symbol_pool@),
                before.interned(*self, field_names(fields@.take(i as int))),
            decreases n - i,
        {
            let ghost pool0 = self.symbol_pool@;
            let name = self.symbol_pool.make(fields[i].0.as_str());
            let ty = fields[i].1.duplicate();
            r.push(FieldData { name, offset: i, ty });
            proof {
                let names0 = field_names(fields@.take(i as int));
                let names1 = field_names(fields@.take(i + 1));
                assert(names1 =~= names0.push(fields@[i as int].0@));
                assert forall|x: Seq<char>| names0.contains(x) implies names1.contains(x) by {
                    let j = choose|j: int| 0 <= j < names0.len() && names0[j] == x;
                    assert(names1[j] == x);
                }
                assert(names1[i as int] == fields@[i as int].0@);
                assert forall|k: int| 0 <= k < r@.len() implies {
                    &&& (#[trigger] r@[k]).offset == k
                    &&& r@[k].ty@ == fields@.take(i + 1)[k].1@
                    &&& r@[k].name@ < self.symbol_pool@.len()
                    &&& self.symbol_pool@[r@[k].name@ as int] == fields@.take(i + 1)[k].0@
                } by {
                    if k < i {
                        assert(fields@.take(i + 1)[k] == fields@.take(i as int)[k]);
                        assert(pool0[r@[k].name@ as int] == self.symbol_pool@[r@[k].name@ as int]);
                    }
                }
            }
            i = i + 1;
        }
        proof {
            assert(fields@.take(n as int) =~= fields@);
        }
        r
    }

    /// The data of a struct of the module `module_id` named `name`, at `loc`, with the given
    /// flags and the fields `fields`, given by their names and types in the order in which the
    /// struct declares them: each field is at its position as offset, its name interned in
    /// the pool.
    pub fn create_move_struct_data(
        &mut self,
        module_id: ModuleId,
        name: Symbol,
        loc: Loc,
        is_native: bool,
        has_key: bool,
        fields: Vec<(String, Type)>,
    ) -> (r: StructData)
        ensures
            r.module_id == module_id,
            r.name == name,
            r.loc@ == loc@,
            r.is_native == is_native,
            r.has_key == has_key,
            fields_made(r.fields@, fields@, final(self).symbol_pool@),
            old(self).interned(*final(self), field_names(fields@)),
    {
        let field_data = self.make_fields(&fields);
        StructData { module_id, name, loc, is_native, has_key, fields: field_data }
    }

    /// The data of a named constant of the module `module_id`.
    pub fn create_named_constant_data(
        &self,
        module_id: ModuleId,
        name: Symbol,
        loc: Loc,
        typ: Type,
    ) -> (r: NamedConstantData)
        ensures
            r.module_id == module_id,
            r.name == name,
            r.loc@ == loc@,
            r.typ@ == typ@,
    {
        NamedConstantData { module_id, name, loc, typ }
    }
}

/// A variant as a declaration gives it: its name, the location that a source map gives it if
/// there is one, and its fields by their names and types.
pub type VariantDecl = (String, Option<MoveIrLoc>, Vec<(String, Type)>);

/// A location, where there is one, starts no later than it ends.
pub open spec fn span_in_order(loc: Option<MoveIrLoc>) -> bool {
    match loc {
        Some(l) => l.spec_start() <= l.spec_end(),
        None => true,
    }
}

/// The names of the variants `vs` and of their fields.
pub open spec fn variant_names(vs: Seq<VariantDecl>) -> Seq<Seq<char>>
    decreases vs.len(),
{
    if vs.len() == 0 {
        Seq::empty()
    } else {
        variant_names(vs.drop_last()) + field_names(vs.last().2@) + seq![vs.last().0@]
    }
}

/// Fields made in a pool stay made as the pool grows at its end.
proof fn lemma_fields_made_grows(
    r: Seq<FieldData>,
    fields: Seq<(String, Type)>,
    p0: Seq<Seq<char>>,
    p1: Seq<Seq<char>>,
    names: Seq<Seq<char>>,
)
    requires
        fields_made(r, fields, p0),
        pool_grown_by(p0, p1, names),
    ensures
        fields_made(r, fields, p1),
{
    assert forall|i: int| 0 <= i < r.len() implies p1[(#[trigger] r[i]).name@ as int]
        == fields[i].0@ by {
        assert(p1[r[i].name@ as int] == p0[r[i].name@ as int]);
    }
}

/// Interning some of `a` and then some of `b` interns some of `a + b`.
proof fn lemma_interned_twice(
    e0: GlobalEnv,
    e1: GlobalEnv,
    e2: GlobalEnv,
    a: Seq<Seq<char>>,
    b: Seq<Seq<char>>,
)
    requires
        e0.interned(e1, a),
        e1.interned(e2, b),
    ensures
        e0.interned(e2, a + b),
{
    let p0 = e0.symbol_pool@;
    let p1 = e1.symbol_pool@;
    let p2 = e2.symbol_pool@;
    assert forall|i: int| p0.len() <= i < p2.len() implies (a + b).contains(#[trigger] p2[i]) by {
        if i < p1.len() {
            assert(p2[i] == p1[i]);
            assert(a.contains(p1[i]));
            let j = choose|j: int| 0 <= j < a.len() && a[j] == p1[i];
            assert((a + b)[j] == p2[i]);
        } else {
            assert(b.contains(p2[i]));
            let j = choose|j: int| 0 <= j < b.len() && b[j] == p2[i];
            assert((a + b)[a.len() + j] == p2[i]);
        }
    }
}

impl GlobalEnv {
    /// The location of a variant: where its declaration gives it one, that location as a
    /// location of the environment, else the default one.
    pub open spec fn variant_loc_view(&self, loc: Option<MoveIrLoc>) -> LocView {
        match loc {
            Some(l) => self.to_loc_view(l),
            None => default_loc_view(),
        }
    }

    /// The data of an enum of the module `module_id` named `name`, at `loc`, with the given
    /// flag and the variants `variants` in the order in which the enum declares them: each
    /// variant is tagged by its position and located as its declaration gives it, and its
    /// fields are at their positions as offsets. The names of the fields and then that of the
    /// variant are interned in the pool, variant by variant.
    pub fn create_move_enum_data(
        &mut self,
        module_id: ModuleId,
        name: Symbol,
        loc: Loc,
        has_key: bool,
        variants: Vec<VariantDecl>,
    ) -> (r: EnumData)
        requires
            old(self).wf(),
            forall|i: int|
                0 <= i < variants@.len() ==> span_in_order((#[trigger] variants@[i]).1),
        ensures
            r.module_id == module_id,
            r.name == name,
            r.loc@ == loc@,
            r.has_key == has_key,
            r.variants@.len() == variants@.len(),
            forall|i: int|
                0 <= i < variants@.len() ==> {
                    &&& (#[trigger] r.variants@[i]).tag == i
                    &&& r.variants@[i].loc@ == old(self).variant_loc_view(variants@[i].1)
                    &&& r.variants@[i].name@ < final(self).symbol_pool@.len()
                    &&& final(self).symbol_pool@[r.variants@[i].name@ as int] == variants@[i].0@
                    &&& fields_made(
                        r.variants@[i].fields@,
                        variants@[i].2@,
                        final(self).symbol_pool@,
                    )
                },
            old(self).interned(*final(self), variant_names(variants@)),
    {
        let n = variants.len();
        let mut locs: Vec<Loc> = Vec::new();
        let mut i: usize = 0;
        while i < n
            invariant
                n == variants@.len(),
                i <= n,
                self.wf(),
                forall|j: int|
                    0 <= j < variants@.len() ==> span_in_order((#[trigger] variants@[j]).1),
                locs@.len() == i,
                forall|j: int|
                    0 <= j < i ==> (#[trigger] locs@[j])@ == self.variant_loc_view(variants@[j].1),
            decreases n - i,
        {
            let l = match &variants[i].1 {
                Some(ir) => self.to_loc(ir),
                None => Loc::default(),
            };
            locs.push(l);
            i = i + 1;
        }
        let ghost before = *self;
        let mut vs: Vec<VariantData> = Vec::new();
        i = 0;
        while i < n
            invariant
                n == variants@.len(),
                n == locs@.len(),
                i <= n,
                forall|j: int|
                    0 <= j < n ==> (#[trigger] locs@[j])@ == before.variant_loc_view(variants@[j].1),
                vs@.len() == i,
                forall|j: int|
                    0 <= j < i ==> {
                        &&& (#[trigger] vs@[j]).tag == j
                        &&& vs@[j].loc@ == before.variant_loc_view(variants@[j].1)
                        &&& vs@[j].name@ < self.symbol_pool@.len()
                        &&& self.symbol_pool@[vs@[j].name@ as int] == variants@[j].0@
                        &&& fields_made(vs@[j].fields@, variants@[j].2@, self.symbol_pool@)
                    },
                before.interned(*self, variant_names(variants@.take(i as int))),
            decreases n - i,
        {
            let ghost e0 = *self;
            let fields = self.make_fields(&variants[i].2);
            let ghost e1 = *self;
            let ghost pool1 = self.symbol_pool@;
            let variant_name = self.symbol_pool.make(variants[i].0.as_str());
            let ghost e2 = *self;
            let l = locs[i].duplicate();
            vs.push(VariantData { name: variant_name, loc: l, tag: i, fields });
            proof {
                let fnames = field_names(variants@[i as int].2@);
                let vname = seq![variants@[i as int].0@];
                assert(e1.interned(e2, vname)) by {
                    assert forall|k: int| pool1.len() <= k < e2.symbol_pool@.len() implies vname.contains(
                        #[trigger] e2.symbol_pool@[k],
                    ) by {
                        assert(vname[0] == e2.symbol_pool@[k]);
                    }
                }
                lemma_interned_twice(e0, e1, e2, fnames, vname);
                lemma_interned_twice(before, e0, e2, variant_names(variants@.take(i as int)), fnames + vname);
                assert(variants@.take(i + 1).drop_last() =~= variants@.take(i as int));
                assert(variant_names(variants@.take(i + 1)) =~= variant_names(variants@.take(i as int))
                    + (fnames + vname));
                lemma_fields_made_grows(fields@, variants@[i as int].2@, pool1, e2.symbol_pool@, vname);
                assert forall|j: int| 0 <= j < i + 1 implies {
                    &&& (#[trigger] vs@[j]).tag == j
                    &&& vs@[j].loc@ == before.variant_loc_view(variants@[j].1)
                    &&& vs@[j].name@ < self.symbol_pool@.len()
                    &&& self.symbol_pool@[vs@[j].name@ as int] == variants@[j].0@
                    &&& fields_made(vs@[j].fields@, variants@[j].2@, self.symbol_pool@)
                } by {
                    if j < i {
                        assert(e2.symbol_pool@[vs@[j].name@ as int] == e0.symbol_pool@[vs@[j].name@ as int]);
                        lemma_fields_made_grows(
                            vs@[j].fields@,
                            variants@[j].2@,
                            e0.symbol_pool@,
                            e2.symbol_pool@,
                            fnames + vname,
                        );
                    }
                }
            }
            i = i + 1;
        }
        proof {
            assert(variants@.take(n as int) =~= variants@);
        }
        EnumData { module_id, name, loc, has_key, variants: vs }
    }
}

} // verus!
