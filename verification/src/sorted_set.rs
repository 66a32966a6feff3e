//! Sets held as vectors in increasing order, each element once, as a `BTreeSet` walks them:
//! module ids by their index, and qualified ids by their module first and then by the symbol of
//! their id.

use vstd::prelude::*;

use crate::model::{DatatypeId, FunId, ModuleId, QualifiedId};
use crate::symbol::Symbol;

verus! {

/// A value ordered by a pair of numbers that tells it from every other value of its type.
pub trait Keyed: Sized + Copy {
    /// The pair by which the value is ordered.
    spec fn key(&self) -> (nat, nat);

    /// The pair by which the value is ordered.
    fn exec_key(&self) -> (r: (usize, usize))
        ensures
            r.0 == self.key().0,
            r.1 == self.key().1,
    ;

    /// Values with the same pair are the same.
    proof fn lemma_key_injective(a: Self, b: Self)
        ensures
            a.key() == b.key() ==> a == b,
    ;
}

impl Keyed for ModuleId {
    open spec fn key(&self) -> (nat, nat) {
        (self@, 0)
    }

    fn exec_key(&self) -> (r: (usize, usize)) {
        (self.to_usize(), 0)
    }

    proof fn lemma_key_injective(a: Self, b: Self) {
        ModuleId::lemma_view_injective(a, b);
    }
}

impl Keyed for QualifiedId<FunId> {
    open spec fn key(&self) -> (nat, nat) {
        (self.module_id@, self.id@@)
    }

    fn exec_key(&self) -> (r: (usize, usize)) {
        (self.module_id.to_usize(), self.id.symbol().index())
    }

    proof fn lemma_key_injective(a: Self, b: Self) {
        ModuleId::lemma_view_injective(a.module_id, b.module_id);
        FunId::lemma_view_injective(a.id, b.id);
        Symbol::lemma_view_injective(a.id@, b.id@);
    }
}

impl Keyed for QualifiedId<DatatypeId> {
    open spec fn key(&self) -> (nat, nat) {
        (self.module_id@, self.id@@)
    }

    fn exec_key(&self) -> (r: (usize, usize)) {
        (self.module_id.to_usize(), self.id.symbol().index())
    }

    proof fn lemma_key_injective(a: Self, b: Self) {
        ModuleId::lemma_view_injective(a.module_id, b.module_id);
        DatatypeId::lemma_view_injective(a.id, b.id);
        Symbol::lemma_view_injective(a.id@, b.id@);
    }
}

/// `a` comes before `b`: its first number is lower, or the first numbers are the same and its
/// second number is lower.
pub open spec fn key_lt<T: Keyed>(a: T, b: T) -> bool {
    a.key().0 < b.key().0 || (a.key().0 == b.key().0 && a.key().1 < b.key().1)
}

/// The elements of `s` are in strictly increasing order.
pub open spec fn strictly_increasing<T: Keyed>(s: Seq<T>) -> bool {
    forall|i: int, j: int| 0 <= i < j < s.len() ==> key_lt(#[trigger] s[i], #[trigger] s[j])
}

/// Two different values are ordered one way or the other.
pub proof fn lemma_key_lt_total<T: Keyed>(a: T, b: T)
    ensures
        a != b ==> key_lt(a, b) || key_lt(b, a),
        !(key_lt(a, b) && key_lt(b, a)),
        !key_lt(a, a),
{
    T::lemma_key_injective(a, b);
}

/// Values in strictly increasing order hold no value twice.
pub proof fn lemma_increasing_no_duplicates<T: Keyed>(s: Seq<T>)
    requires
        strictly_increasing(s),
    ensures
        s.no_duplicates(),
{
    assert forall|i: int, j: int| 0 <= i < s.len() && 0 <= j < s.len() && i != j implies s[i]
        != s[j] by {
        if i < j {
            assert(key_lt(s[i], s[j]));
        } else {
            assert(key_lt(s[j], s[i]));
        }
        lemma_key_lt_total(s[i], s[j]);
    }
}

/// Two sequences in strictly increasing order that hold the same values are the same: a set
/// has one such sequence.
pub proof fn lemma_increasing_unique<T: Keyed>(a: Seq<T>, b: Seq<T>)
    requires
        strictly_increasing(a),
        strictly_increasing(b),
        a.to_set() == b.to_set(),
    ensures
        a == b,
    decreases a.len(),
{
    lemma_increasing_no_duplicates(a);
    lemma_increasing_no_duplicates(b);
    a.unique_seq_to_set();
    b.unique_seq_to_set();
    if a.len() > 0 {
        let x = a[0];
        let y = b[0];
        assert(a.to_set().contains(x));
        assert(b.to_set().contains(y));
        assert(b.contains(x));
        assert(a.contains(y));
        let i = choose|i: int| 0 <= i < b.len() && b[i] == x;
        let j = choose|j: int| 0 <= j < a.len() && a[j] == y;
        if x != y {
            assert(i != 0);
            assert(j != 0);
            assert(key_lt(b[0], b[i]));
            assert(key_lt(a[0], a[j]));
            lemma_key_lt_total(x, y);
        }
        let a1 = a.drop_first();
        let b1 = b.drop_first();
        assert(strictly_increasing(a1)) by {
            assert forall|p: int, q: int| 0 <= p < q < a1.len() implies key_lt(
                #[trigger] a1[p],
                #[trigger] a1[q],
            ) by {
                assert(a1[p] == a[p + 1] && a1[q] == a[q + 1]);
            }
        }
        assert(strictly_increasing(b1)) by {
            assert forall|p: int, q: int| 0 <= p < q < b1.len() implies key_lt(
                #[trigger] b1[p],
                #[trigger] b1[q],
            ) by {
                assert(b1[p] == b[p + 1] && b1[q] == b[q + 1]);
            }
        }
        assert(a1.to_set() =~= b1.to_set()) by {
            assert forall|z: T| a1.to_set().contains(z) implies b1.to_set().contains(
                z,
            ) by {
                let p = choose|p: int| 0 <= p < a1.len() && a1[p] == z;
                assert(a[p + 1] == z);
                assert(key_lt(a[0], a[p + 1]));
                lemma_key_lt_total(z, x);
                assert(a.to_set().contains(z));
                assert(b.contains(z));
                let q = choose|q: int| 0 <= q < b.len() && b[q] == z;
                assert(q != 0);
                assert(b1[q - 1] == z);
            }
            assert forall|z: T| b1.to_set().contains(z) implies a1.to_set().contains(
                z,
            ) by {
                let p = choose|p: int| 0 <= p < b1.len() && b1[p] == z;
                assert(b[p + 1] == z);
                assert(key_lt(b[0], b[p + 1]));
                lemma_key_lt_total(z, y);
                assert(b.to_set().contains(z));
                assert(a.contains(z));
                let q = choose|q: int| 0 <= q < a.len() && a[q] == z;
                assert(q != 0);
                assert(a1[q - 1] == z);
            }
        }
        lemma_increasing_unique(a1, b1);
        assert(a =~= seq![x] + a1);
        assert(b =~= seq![y] + b1);
    } else {
        if b.len() > 0 {
            assert(b.to_set().contains(b[0]));
        }
    }
}

/// Whether `a` comes before `b`.
fn key_before<T: Keyed>(a: &T, b: &T) -> (r: bool)
    ensures
        r == key_lt(*a, *b),
{
    let (a0, a1) = a.exec_key();
    let (b0, b1) = b.exec_key();
    a0 < b0 || (a0 == b0 && a1 < b1)
}

/// Whether `a` and `b` are the same.
fn same_key<T: Keyed>(a: &T, b: &T) -> (r: bool)
    ensures
        r == (*a == *b),
{
    let (a0, a1) = a.exec_key();
    let (b0, b1) = b.exec_key();
    proof {
        T::lemma_key_injective(*a, *b);
    }
    a0 == b0 && a1 == b1
}

/// The values of `v`, each once, in increasing order: as a `BTreeSet` of them walks them.
pub fn sorted_set<T: Keyed>(v: &Vec<T>) -> (r: Vec<T>)
    ensures
        strictly_increasing(r@),
        r@.to_set() == v@.to_set(),
{
    let mut r: Vec<T> = Vec::new();
    let n = v.len();
    let mut i: usize = 0;
    while i < n
        invariant
            n == v@.len(),
            i <= n,
            strictly_increasing(r@),
            r@.to_set() == v@.take(i as int).to_set(),
        decreases n - i,
    {
        let x = v[i];
        let mut p: usize = 0;
        while p < r.len() && key_before(&r[p], &x)
            invariant
                p <= r@.len(),
                forall|k: int| 0 <= k < p ==> key_lt(#[trigger] r@[k], x),
            decreases r@.len() - p,
        {
            p = p + 1;
        }
        let ghost old_r = r@;
        proof {
            assert(v@.take(i + 1) =~= v@.take(i as int).push(x));
            v@.take(i as int).lemma_push_to_set_commute(x);
        }
        if p < r.len() && same_key(&r[p], &x) {
            proof {
                assert(old_r.to_set().contains(x));
                assert(old_r.to_set().insert(x) =~= old_r.to_set());
            }
        } else {
            proof {
                if p < old_r.len() {
                    lemma_key_lt_total(old_r[p as int], x);
                }
            }
            r.insert(p, x);
            proof {
                old_r.insert_ensures(p as int, x);
                assert forall|a: int, b: int| 0 <= a < b < r@.len() implies key_lt(
                    #[trigger] r@[a],
                    #[trigger] r@[b],
                ) by {
                    if b < p {
                    } else if b == p {
                    } else if a < p {
                        assert(r@[b] == old_r[b - 1]);
                        if a < p {
                            assert(key_lt(old_r[a], x));
                        }
                        assert(p < old_r.len());
                        if b - 1 > p {
                            assert(key_lt(old_r[p as int], old_r[b - 1]));
                        }
                    } else if a == p {
                        assert(r@[b] == old_r[b - 1]);
                        if b - 1 > p {
                            assert(key_lt(old_r[p as int], old_r[b - 1]));
                        }
                    } else {
                        assert(r@[a] == old_r[a - 1] && r@[b] == old_r[b - 1]);
                    }
                }
                assert(r@.to_set() =~= old_r.to_set().insert(x)) by {
                    assert forall|z: T| r@.to_set().contains(z) implies old_r.to_set().insert(
                        z,
                    ).contains(z) && old_r.to_set().insert(x).contains(z) by {
                        let k = choose|k: int| 0 <= k < r@.len() && r@[k] == z;
                        if k < p {
                            assert(old_r[k] == z);
                        } else if k > p {
                            assert(old_r[k - 1] == z);
                        }
                    }
                    assert forall|z: T| old_r.to_set().insert(x).contains(z) implies r@.to_set().contains(
                        z,
                    ) by {
                        if z == x {
                            assert(r@[p as int] == x);
                        } else {
                            let k = choose|k: int| 0 <= k < old_r.len() && old_r[k] == z;
                            if k < p {
                                assert(r@[k] == z);
                            } else {
                                assert(r@[k + 1] == z);
                            }
                        }
                    }
                }
            }
        }
        i = i + 1;
    }
    proof {
        assert(v@.take(n as int) =~= v@);
    }
    r
}

} // verus!
