//! Account addresses: numbers, held as their big-endian bytes without leading zeros.

use vstd::prelude::*;

use crate::text::{decimal, hexadecimal};

use crate::symbol::Symbol;

verus! {

/// `256` to the power `n`.
pub open spec fn pow256(n: nat) -> nat
    decreases n,
{
    if n == 0 {
        1
    } else {
        256 * pow256((n - 1) as nat)
    }
}

/// The number that the big-endian bytes `s` spell.
pub open spec fn be_value(s: Seq<u8>) -> nat
    decreases s.len(),
{
    if s.len() == 0 {
        0
    } else {
        (s[0] as nat) * pow256((s.len() - 1) as nat) + be_value(s.drop_first())
    }
}

/// `s` has no leading zero byte.
pub open spec fn no_leading_zero(s: Seq<u8>) -> bool {
    s.len() == 0 || s[0] != 0
}

/// A power of 256 is positive and grows with its exponent.
proof fn lemma_pow256_monotone(a: nat, b: nat)
    requires
        a <= b,
    ensures
        0 < pow256(a) <= pow256(b),
    decreases b,
{
    if b > 0 {
        if a < b {
            lemma_pow256_monotone(a, (b - 1) as nat);
        } else {
            lemma_pow256_monotone((a - 1) as nat, (b - 1) as nat);
        }
    }
}

/// `n` bytes spell a number below `256^n`.
proof fn lemma_be_value_below(s: Seq<u8>)
    ensures
        be_value(s) < pow256(s.len()),
    decreases s.len(),
{
    if s.len() > 0 {
        let p = pow256((s.len() - 1) as nat);
        lemma_be_value_below(s.drop_first());
        let x = s[0] as nat;
        let r = be_value(s.drop_first());
        assert(x * p + r < 256 * p) by (nonlinear_arith)
            requires
                x <= 255,
                r < p,
        ;
    }
}

/// `n` bytes that do not start with a zero spell a number of at least `256^(n-1)`.
proof fn lemma_be_value_above(s: Seq<u8>)
    requires
        s.len() > 0,
        s[0] != 0,
    ensures
        be_value(s) >= pow256((s.len() - 1) as nat),
{
    let p = pow256((s.len() - 1) as nat);
    let x = s[0] as nat;
    assert(x * p >= p) by (nonlinear_arith)
        requires
            x >= 1,
    ;
}

/// Two sequences of bytes of the same length that spell the same number are equal.
proof fn lemma_be_value_same_len(s: Seq<u8>, t: Seq<u8>)
    requires
        s.len() == t.len(),
        be_value(s) == be_value(t),
    ensures
        s == t,
    decreases s.len(),
{
    if s.len() > 0 {
        let p = pow256((s.len() - 1) as nat);
        let x = s[0] as nat;
        let y = t[0] as nat;
        let r1 = be_value(s.drop_first());
        let r2 = be_value(t.drop_first());
        lemma_be_value_below(s.drop_first());
        lemma_be_value_below(t.drop_first());
        assert(x == y) by (nonlinear_arith)
            requires
                x * p + r1 == y * p + r2,
                r1 < p,
                r2 < p,
        {
            if x < y {
                assert(x * p + r1 < (x + 1) * p);
                assert((x + 1) * p <= y * p);
            }
            if y < x {
                assert(y * p + r2 < (y + 1) * p);
                assert((y + 1) * p <= x * p);
            }
        }
        lemma_be_value_same_len(s.drop_first(), t.drop_first());
        assert(s =~= seq![s[0]] + s.drop_first());
        assert(t =~= seq![t[0]] + t.drop_first());
    }
}

/// Two sequences of bytes without leading zeros that spell the same number are equal.
pub proof fn lemma_be_value_injective(s: Seq<u8>, t: Seq<u8>)
    requires
        no_leading_zero(s),
        no_leading_zero(t),
        be_value(s) == be_value(t),
    ensures
        s == t,
{
    if s.len() < t.len() {
        lemma_be_value_below(s);
        lemma_be_value_above(t);
        lemma_pow256_monotone(s.len(), (t.len() - 1) as nat);
    } else if t.len() < s.len() {
        lemma_be_value_below(t);
        lemma_be_value_above(s);
        lemma_pow256_monotone(t.len(), (s.len() - 1) as nat);
    } else {
        lemma_be_value_same_len(s, t);
    }
}

/// The decimal notation of the number whose big-endian bytes are `bytes`, as the `Display`
/// of `num::BigUint` writes it: its digits, most significant first, without leading zeros,
/// and `0` for zero.
#[verifier::external_body]
fn biguint_decimal(bytes: &[u8]) -> (r: String)
    ensures
        r@ == decimal(be_value(bytes@)),
{
    num::BigUint::from_bytes_be(bytes).to_string()
}

/// The hexadecimal notation of the number whose big-endian bytes are `bytes`, as
/// `num::BigUint::to_str_radix` writes it in base 16: its digits in lower case, most
/// significant first, without leading zeros, and `0` for zero.
#[verifier::external_body]
fn biguint_hex(bytes: &[u8]) -> (r: String)
    ensures
        r@ == hexadecimal(be_value(bytes@)),
{
    num::BigUint::from_bytes_be(bytes).to_str_radix(16)
}

/// An account address.
pub struct Address {
    bytes: Vec<u8>,
}

impl View for Address {
    type V = nat;

    closed spec fn view(&self) -> nat {
        be_value(self.bytes@)
    }
}

impl Address {
    #[verifier::type_invariant]
    spec fn canonical(self) -> bool {
        no_leading_zero(self.bytes@)
    }

    /// The address that the big-endian bytes spell.
    pub fn from_bytes_be(bytes: &[u8]) -> (r: Address)
        ensures
            r@ == be_value(bytes@),
    {
        let n = bytes.len();
        let mut i: usize = 0;
        assert(bytes@.subrange(0, n as int) =~= bytes@);
        while i < n && bytes[i] == 0
            invariant
                n == bytes@.len(),
                i <= n,
                be_value(bytes@.subrange(i as int, n as int)) == be_value(bytes@),
            decreases n - i,
        {
            proof {
                let s = bytes@.subrange(i as int, n as int);
                assert(s.drop_first() =~= bytes@.subrange(i + 1, n as int));
                let x = s[0] as nat;
                let q = pow256((s.len() - 1) as nat);
                assert(x == 0);
                assert(x * q == 0) by (nonlinear_arith)
                    requires
                        x == 0,
                ;
                assert(be_value(s) == be_value(s.drop_first()));
            }
            i = i + 1;
        }
        let mut v: Vec<u8> = Vec::new();
        let mut j: usize = i;
        while j < n
            invariant
                n == bytes@.len(),
                i <= j <= n,
                v@ == bytes@.subrange(i as int, j as int),
            decreases n - j,
        {
            v.push(bytes[j]);
            proof {
                assert(v@ =~= bytes@.subrange(i as int, j + 1));
            }
            j = j + 1;
        }
        Address { bytes: v }
    }

    /// The address of the given number.
    pub fn from_u16(value: u16) -> (r: Address)
        ensures
            r@ == value,
    {
        let hi = (value / 256) as u8;
        let lo = (value % 256) as u8;
        let bytes: Vec<u8> = if hi != 0 {
            vec![hi, lo]
        } else if lo != 0 {
            vec![lo]
        } else {
            Vec::new()
        };
        proof {
            let s = bytes@;
            assert(hi == value / 256);
            assert(lo == value % 256);
            assert(value == hi * 256 + lo);
            let h = hi as nat;
            let l = lo as nat;
            assert(pow256(0) == 1);
            assert(pow256(1) == 256 * pow256(0));
            assert(l * pow256(0) == l) by (nonlinear_arith)
                requires
                    pow256(0) == 1,
            ;
            assert(h * pow256(1) == h * 256) by (nonlinear_arith)
                requires
                    pow256(1) == 256,
            ;
            let last = seq![lo];
            assert(last.drop_first() =~= Seq::<u8>::empty());
            assert(be_value(Seq::<u8>::empty()) == 0);
            assert(be_value(last) == l);
            if hi != 0 {
                assert(s.drop_first() =~= last);
                assert(be_value(s) == h * 256 + l);
            } else if lo != 0 {
                assert(s =~= last);
            } else {
                assert(s =~= Seq::<u8>::empty());
            }
        }
        Address { bytes }
    }

    /// A copy of this address.
    pub fn duplicate(&self) -> (r: Address)
        ensures
            r@ == self@,
    {
        proof {
            use_type_invariant(self);
        }
        Address { bytes: self.bytes.clone() }
    }

    /// The decimal notation of this address, as `num::BigUint` writes the number.
    pub fn to_decimal_string(&self) -> (r: String)
        ensures
            r@ == decimal(self@),
    {
        biguint_decimal(self.bytes.as_slice())
    }

    /// The hexadecimal notation of this address, in lower case, as `num::BigUint` writes the
    /// number in base 16.
    pub fn to_hex_string(&self) -> (r: String)
        ensures
            r@ == hexadecimal(self@),
    {
        biguint_hex(self.bytes.as_slice())
    }

    /// Whether two addresses are the same number.
    pub fn same(&self, other: &Address) -> (r: bool)
        ensures
            r == (self@ == other@),
    {
        proof {
            use_type_invariant(self);
            use_type_invariant(other);
            if self@ == other@ {
                lemma_be_value_injective(self.bytes@, other.bytes@);
            }
        }
        let n = self.bytes.len();
        if n != other.bytes.len() {
            return false;
        }
        let mut i: usize = 0;
        while i < n
            invariant
                n == self.bytes@.len(),
                n == other.bytes@.len(),
                i <= n,
                forall|j: int| 0 <= j < i ==> self.bytes@[j] == other.bytes@[j],
                self@ == other@ ==> self.bytes@ == other.bytes@,
            decreases n - i,
        {
            if self.bytes[i] != other.bytes[i] {
                return false;
            }
            i = i + 1;
        }
        proof {
            assert(self.bytes@ =~= other.bytes@);
        }
        true
    }
}

/// The name of a module: its address and its simple name.
pub struct ModuleName {
    addr: Address,
    name: Symbol,
}

impl ModuleName {
    /// The name of the module `name` at the address `addr`.
    pub fn new(addr: Address, name: Symbol) -> (r: ModuleName)
        ensures
            r.spec_addr() == addr@,
            r.spec_name() == name,
    {
        ModuleName { addr, name }
    }

    /// The number of the address of the module.
    pub closed spec fn spec_addr(&self) -> nat {
        self.addr@
    }

    /// The simple name of the module.
    pub closed spec fn spec_name(&self) -> Symbol {
        self.name
    }

    /// The address of the module.
    pub fn addr(&self) -> (r: &Address)
        ensures
            r@ == self.spec_addr(),
    {
        &self.addr
    }

    /// The simple name of the module.
    pub fn name(&self) -> (r: Symbol)
        ensures
            r == self.spec_name(),
    {
        self.name
    }
}

} // verus!
