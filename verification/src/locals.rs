//! The locals of a function, its parameters followed by the locals of its code, with the
//! names that the source gives them, and the types of the values it returns.

use vstd::prelude::*;

use crate::env::FunctionEnv;
use crate::text::{contains_str, decimal, decimal_string, has_substring};
use crate::ty::{Type, TypeView};

verus! {

impl<'env> FunctionEnv<'env> {
    /// The number of locals of this function: its parameters and the locals of its code.
    pub open spec fn local_count(self) -> nat {
        self.data().parameters@.len() + self.data().locals@.len()
    }

    /// The numbers of parameters and of locals of the code fit together in a `usize`.
    pub open spec fn locals_fit(self) -> bool {
        self.local_count() <= usize::MAX
    }

    /// The name of the local `idx`: the name of the parameter where it is one, else the name
    /// that the source map gives it, where one that the compiler made up (one that holds
    /// `%#`) becomes `tmp#$` followed by the index, else `$t` followed by the index.
    pub open spec fn local_name(self, idx: nat) -> Seq<char> {
        let d = self.data();
        if idx < d.parameters@.len() {
            self.env().symbol_pool@[d.parameters@[idx as int].0@ as int]
        } else if idx < d.local_names@.len() {
            if has_substring(d.local_names@[idx as int]@, "%#"@) {
                "tmp#$"@ + decimal(idx)
            } else {
                d.local_names@[idx as int]@
            }
        } else {
            "$t"@ + decimal(idx)
        }
    }

    /// Returns the types of the values that this function returns.
    pub fn get_return_types(&self) -> (r: Vec<Type>)
        ensures
            r@.len() == self.data().return_types@.len(),
            forall|i: int| 0 <= i < r@.len() ==> (#[trigger] r@[i])@ == self.data().return_types@[i]@,
    {
        let ts = &self.fun_data().return_types;
        let n = ts.len();
        let mut r: Vec<Type> = Vec::new();
        let mut i: usize = 0;
        while i < n
            invariant
                n == ts@.len(),
                *ts == self.data().return_types,
                i <= n,
                r@.len() == i,
                forall|j: int| 0 <= j < i ==> (#[trigger] r@[j])@ == ts@[j]@,
            decreases n - i,
        {
            r.push(ts[i].duplicate());
            i = i + 1;
        }
        r
    }

    /// Returns the type of the return value at position `idx`, which must be below the number
    /// of return values.
    pub fn get_return_type(&self, idx: usize) -> (r: Type)
        requires
            idx < self.data().return_types@.len(),
        ensures
            r@ == self.data().return_types@[idx as int]@,
    {
        self.fun_data().return_types[idx].duplicate()
    }

    /// Returns the number of return values of this function.
    pub fn get_return_count(&self) -> (r: usize)
        ensures
            r == self.data().return_types@.len(),
    {
        self.fun_data().return_types.len()
    }

    /// Gets the number of locals of this function: its parameters, then the locals of its
    /// code.
    pub fn get_local_count(&self) -> (r: usize)
        requires
            self.locals_fit(),
        ensures
            r == self.local_count(),
    {
        let d = self.fun_data();
        d.parameters.len() + d.locals.len()
    }

    /// Gets the type of the local `idx`, which must be below the number of locals: that of the
    /// parameter where it is one, else that of the local of the code.
    pub fn get_local_type(&self, idx: usize) -> (r: Type)
        requires
            idx < self.local_count(),
        ensures
            idx < self.data().parameters@.len() ==> r@ == self.data().parameters@[idx as int].1@,
            idx >= self.data().parameters@.len() ==> r@ == self.data().locals@[idx
                - self.data().parameters@.len()]@,
    {
        let d = self.fun_data();
        let n = d.parameters.len();
        if idx < n {
            d.parameters[idx].1.duplicate()
        } else {
            d.locals[idx - n].duplicate()
        }
    }

    /// Gets the name of the local `idx`: the name of the parameter where it is one, else the
    /// name that the source map gives it, where one that the compiler made up (one that holds
    /// `%#`) becomes `tmp#$` followed by the index, else `$t` followed by the index.
    pub fn get_local_name(&self, idx: usize) -> (r: String)
        ensures
            r@ == self.local_name(idx as nat),
    {
        proof {
            reveal_strlit("%#");
            reveal_strlit("tmp#$");
            reveal_strlit("$t");
        }
        let d = self.fun_data();
        if idx < d.parameters.len() {
            proof {
                assert(self.env().symbol_pool.has(
                    self.env().function_data@[self.index() as int].parameters@[idx as int].0,
                ));
            }
            self.symbol_pool().string(d.parameters[idx].0)
        } else if idx < d.local_names.len() {
            let ident = &d.local_names[idx];
            if contains_str(ident.as_str(), "%#") {
                String::from_str("tmp#$").concat(decimal_string(idx as u128).as_str())
            } else {
                ident.clone()
            }
        } else {
            String::from_str("$t").concat(decimal_string(idx as u128).as_str())
        }
    }

    /// Returns true if the index is for a temporary, not a user declared local: it is not
    /// below the number of locals, or its name holds `tmp#$`.
    pub fn is_temporary(&self, idx: usize) -> (r: bool)
        requires
            self.locals_fit(),
        ensures
            r == (idx >= self.local_count() || has_substring(self.local_name(idx as nat), "tmp#$"@)),
    {
        if idx >= self.get_local_count() {
            return true;
        }
        let name = self.get_local_name(idx);
        proof {
            reveal_strlit("tmp#$");
        }
        contains_str(name.as_str(), "tmp#$")
    }
}

} // verus!
