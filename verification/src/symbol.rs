//! Symbols: names interned in a symbol pool, represented by their index there.

use vstd::prelude::*;

verus! {

/// A name, represented by its index in the symbol pool.
#[derive(Debug, Clone, Copy, PartialEq, Eq, Structural, Hash, Ord)]
pub struct Symbol(usize);

impl View for Symbol {
    type V = nat;

    closed spec fn view(&self) -> nat {
        self.0 as nat
    }
}

impl Symbol {
    /// The symbol with the given index in the pool.
    pub fn new(idx: usize) -> (r: Symbol)
        ensures
            r@ == idx,
    {
        Symbol(idx)
    }

    /// The index of this symbol in the pool.
    pub fn index(self) -> (r: usize)
        ensures
            r == self@,
    {
        self.0
    }

    /// Two symbols with the same index are the same symbol.
    pub proof fn lemma_view_injective(a: Symbol, b: Symbol)
        ensures
            a@ == b@ <==> a == b,
    {
    }
}

/// `after` and `r` are the pool and the symbol that interning `s` in `before` gives: `s`
/// stays where it is or is added at the end, and `r` is its only index.
pub open spec fn made(before: Seq<Seq<char>>, s: Seq<char>, after: Seq<Seq<char>>, r: Symbol) -> bool {
    &&& before.contains(s) ==> after == before
    &&& !before.contains(s) ==> after == before.push(s) && r@ == before.len()
    &&& r@ < after.len()
    &&& after[r@ as int] == s
    &&& forall|j: int| 0 <= j < after.len() && #[trigger] after[j] == s ==> j == r@
}

/// Interning a string twice gives the same symbol, and the second time leaves the pool as
/// it is.
pub proof fn lemma_make_idempotent(
    p0: Seq<Seq<char>>,
    s: Seq<char>,
    p1: Seq<Seq<char>>,
    r1: Symbol,
    p2: Seq<Seq<char>>,
    r2: Symbol,
)
    requires
        made(p0, s, p1, r1),
        made(p1, s, p2, r2),
    ensures
        r1 == r2,
        p2 == p1,
{
    assert(p1.contains(s)) by {
        assert(p1[r1@ as int] == s);
    }
    Symbol::lemma_view_injective(r1, r2);
}

/// Interning a string does not change the strings of the symbols made before.
pub proof fn lemma_make_keeps_symbols(
    p0: Seq<Seq<char>>,
    s: Seq<char>,
    p1: Seq<Seq<char>>,
    r: Symbol,
    j: int,
)
    requires
        made(p0, s, p1, r),
        0 <= j < p0.len(),
    ensures
        j < p1.len(),
        p1[j] == p0[j],
{
}

/// A pool of interned strings: a symbol is the index of its string in the pool.
pub struct SymbolPool {
    strings: Vec<String>,
}

impl View for SymbolPool {
    type V = Seq<Seq<char>>;

    closed spec fn view(&self) -> Seq<Seq<char>> {
        self.strings@.map_values(|s: String| s@)
    }
}

impl SymbolPool {
    /// Each string is in the pool once.
    #[verifier::type_invariant]
    pub open spec fn distinct(self) -> bool {
        forall|i: int, j: int|
            0 <= i < self@.len() && 0 <= j < self@.len() && i != j ==> #[trigger] self@[i]
                != #[trigger] self@[j]
    }

    /// An empty pool.
    pub fn new() -> (r: SymbolPool)
        ensures
            r@ == Seq::<Seq<char>>::empty(),
    {
        SymbolPool { strings: Vec::new() }
    }

    /// The number of strings in the pool.
    pub fn len(&self) -> (r: usize)
        ensures
            r == self@.len(),
    {
        self.strings.len()
    }

    /// Whether `sym` denotes a string of this pool.
    pub open spec fn has(&self, sym: Symbol) -> bool {
        sym@ < self@.len()
    }

    /// The symbol of `s`: the index of `s` in the pool, where `s` is added at the end if it is
    /// not there yet.
    pub fn make(&mut self, s: &str) -> (r: Symbol)
        ensures
            made(old(self)@, s@, final(self)@, r),
    {
        proof {
            use_type_invariant(&*self);
        }
        let key = String::from_str(s);
        let n = self.strings.len();
        let mut i: usize = 0;
        while i < n
            invariant
                n == self.strings@.len(),
                i <= n,
                key@ == s@,
                forall|j: int| 0 <= j < i ==> #[trigger] self@[j] != s@,
            decreases n - i,
        {
            if self.strings[i] == key {
                proof {
                    use_type_invariant(&*self);
                    assert forall|j: int| 0 <= j < self@.len() && #[trigger] self@[j] == s@ implies j == i by {
                        assert(self@[j] == self.strings@[j]@);
                        assert(self@[i as int] == self.strings@[i as int]@);
                    }
                    assert(self@[i as int] == s@);
                    assert(self@.contains(s@));
                }
                return Symbol::new(i);
            }
            i = i + 1;
        }
        proof {
            assert(!self@.contains(s@));
            assert forall|j: int| 0 <= j < n implies #[trigger] self.strings@[j]@ != s@ by {
                assert(self@[j] == self.strings@[j]@);
            }
        }
        let mut strings = Vec::new();
        std::mem::swap(&mut strings, &mut self.strings);
        strings.push(key);
        proof {
            assert forall|i: int, j: int|
                0 <= i < strings@.len() && 0 <= j < strings@.len() && i != j
                    implies #[trigger] strings@[i]@ != #[trigger] strings@[j]@ by {
                if i < n && j < n {
                    assert(old(self).strings@[i] == strings@[i]);
                    assert(old(self).strings@[j] == strings@[j]);
                    assert(old(self)@[i] == old(self).strings@[i]@);
                    assert(old(self)@[j] == old(self).strings@[j]@);
                }
            }
        }
        self.strings = strings;
        proof {
            assert(self@ =~= old(self)@.push(s@));
        }
        Symbol::new(n)
    }

    /// The symbol of `s` if it is in the pool.
    pub fn find(&self, s: &str) -> (r: Option<Symbol>)
        ensures
            r matches Some(sym) ==> sym@ < self@.len() && self@[sym@ as int] == s@ && forall|j: int|
                0 <= j < self@.len() && #[trigger] self@[j] == s@ ==> j == sym@,
            r is None ==> !self@.contains(s@),
    {
        proof {
            use_type_invariant(self);
        }
        let key = String::from_str(s);
        let n = self.strings.len();
        let mut i: usize = 0;
        while i < n
            invariant
                n == self.strings@.len(),
                i <= n,
                key@ == s@,
                forall|j: int| 0 <= j < i ==> #[trigger] self@[j] != s@,
            decreases n - i,
        {
            if self.strings[i] == key {
                proof {
                    use_type_invariant(self);
                    assert forall|j: int| 0 <= j < self@.len() && #[trigger] self@[j] == s@ implies j == i by {
                        assert(self@[j] == self.strings@[j]@);
                        assert(self@[i as int] == self.strings@[i as int]@);
                    }
                }
                return Some(Symbol::new(i));
            }
            i = i + 1;
        }
        None
    }

    /// The string of `sym`.
    pub fn string(&self, sym: Symbol) -> (r: String)
        requires
            self.has(sym),
        ensures
            r@ == self@[sym@ as int],
    {
        self.strings[sym.index()].clone()
    }
}

} // verus!
