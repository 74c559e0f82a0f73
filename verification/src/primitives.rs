//! Fixed-size EVM values held as plain bytes and limbs.

use vstd::prelude::*;

verus! {

/// Two to the power of sixty-four: the base of a 256-bit word's limbs.
pub open spec fn limb_base() -> int {
    0x1_0000_0000_0000_0000
}

/// The number that four little-endian 64-bit limbs stand for.
pub open spec fn limbs_value(l0: u64, l1: u64, l2: u64, l3: u64) -> nat {
    (l0 + limb_base() * (l1 + limb_base() * (l2 + limb_base() * l3))) as nat
}

/// An unsigned 256-bit integer, as four 64-bit limbs with the least
/// significant limb first.
#[derive(Clone, Copy, Debug)]
pub struct U256 {
    pub limbs: [u64; 4],
}

impl View for U256 {
    type V = nat;

    open spec fn view(&self) -> nat {
        limbs_value(self.limbs@[0], self.limbs@[1], self.limbs@[2], self.limbs@[3])
    }
}

/// Comparing `a + B * r` with `b + B * s` for digits `a`, `b` below the base `B`
/// is comparing `(r, a)` with `(s, b)` lexicographically.
proof fn lemma_digit_order(a: int, r: int, b: int, s: int)
    requires
        0 <= a < limb_base(),
        0 <= b < limb_base(),
        0 <= r,
        0 <= s,
    ensures
        (a + limb_base() * r < b + limb_base() * s) <==> (r < s || (r == s && a < b)),
        (a + limb_base() * r == b + limb_base() * s) <==> (r == s && a == b),
{
    assert((a + limb_base() * r < b + limb_base() * s) <==> (r < s || (r == s && a < b)))
        by (nonlinear_arith)
        requires
            0 <= a < limb_base(),
            0 <= b < limb_base(),
            0 <= r,
            0 <= s,
    ;
    assert((a + limb_base() * r == b + limb_base() * s) <==> (r == s && a == b))
        by (nonlinear_arith)
        requires
            0 <= a < limb_base(),
            0 <= b < limb_base(),
            0 <= r,
            0 <= s,
    ;
}

/// The value of limbs compared with another: lexicographic from the most
/// significant limb down.
proof fn lemma_limbs_order(x: [u64; 4], y: [u64; 4])
    ensures
        limbs_value(x@[0], x@[1], x@[2], x@[3]) < limbs_value(y@[0], y@[1], y@[2], y@[3]) <==> (
        x@[3] < y@[3] || (x@[3] == y@[3] && (x@[2] < y@[2] || (x@[2] == y@[2] && (x@[1]
            < y@[1] || (x@[1] == y@[1] && x@[0] < y@[0])))))),
        limbs_value(x@[0], x@[1], x@[2], x@[3]) == limbs_value(y@[0], y@[1], y@[2], y@[3]) <==> x@
            =~= y@,
{
    let (x0, x1, x2, x3) = (x@[0] as int, x@[1] as int, x@[2] as int, x@[3] as int);
    let (y0, y1, y2, y3) = (y@[0] as int, y@[1] as int, y@[2] as int, y@[3] as int);
    let xr2 = x2 + limb_base() * x3;
    let yr2 = y2 + limb_base() * y3;
    assert(0 <= xr2 && 0 <= yr2) by (nonlinear_arith)
        requires
            0 <= x2,
            0 <= x3,
            0 <= y2,
            0 <= y3,
            xr2 == x2 + limb_base() * x3,
            yr2 == y2 + limb_base() * y3,
    ;
    let xr1 = x1 + limb_base() * xr2;
    let yr1 = y1 + limb_base() * yr2;
    assert(0 <= xr1 && 0 <= yr1) by (nonlinear_arith)
        requires
            0 <= x1,
            0 <= xr2,
            0 <= y1,
            0 <= yr2,
            xr1 == x1 + limb_base() * xr2,
            yr1 == y1 + limb_base() * yr2,
    ;
    lemma_digit_order(x2, x3, y2, y3);
    lemma_digit_order(x1, xr2, y1, yr2);
    lemma_digit_order(x0, xr1, y0, yr1);
    assert(x@.len() == 4 && y@.len() == 4);
}

impl U256 {
    /// The 256-bit integer with the given limbs, least significant first.
    pub fn from_limbs(limbs: [u64; 4]) -> (r: U256)
        ensures
            r.limbs == limbs,
    {
        U256 { limbs }
    }

    /// The 256-bit integer equal to `value`.
    pub fn from_u64(value: u64) -> (r: U256)
        ensures
            r@ == value,
    {
        let r = U256 { limbs: [value, 0, 0, 0] };
        assert(r@ == value) by {
            assert(r.limbs@[0] == value && r.limbs@[1] == 0 && r.limbs@[2] == 0 && r.limbs@[3]
                == 0);
        }
        r
    }

    /// Whether `self` is less than `other`.
    pub fn lt(&self, other: &U256) -> (r: bool)
        ensures
            r == (self@ < other@),
    {
        proof {
            lemma_limbs_order(self.limbs, other.limbs);
        }
        if self.limbs[3] != other.limbs[3] {
            self.limbs[3] < other.limbs[3]
        } else if self.limbs[2] != other.limbs[2] {
            self.limbs[2] < other.limbs[2]
        } else if self.limbs[1] != other.limbs[1] {
            self.limbs[1] < other.limbs[1]
        } else {
            self.limbs[0] < other.limbs[0]
        }
    }
}

impl PartialEq for U256 {
    fn eq(&self, other: &U256) -> (r: bool) {
        proof {
            lemma_limbs_order(self.limbs, other.limbs);
        }
        self.limbs[0] == other.limbs[0] && self.limbs[1] == other.limbs[1] && self.limbs[2]
            == other.limbs[2] && self.limbs[3] == other.limbs[3]
    }
}

impl vstd::std_specs::cmp::PartialEqSpecImpl for U256 {
    open spec fn obeys_eq_spec() -> bool {
        true
    }

    open spec fn eq_spec(&self, other: &U256) -> bool {
        self@ == other@
    }
}


/// Whether two byte arrays of the same length hold the same bytes.
fn same_bytes<const N: usize>(a: &[u8; N], b: &[u8; N]) -> (r: bool)
    ensures
        r == (a@ == b@),
{
    let mut i: usize = 0;
    while i < N
        invariant
            0 <= i <= N,
            a@.len() == N,
            b@.len() == N,
            forall|j: int| 0 <= j < i ==> a@[j] == b@[j],
        decreases N - i,
    {
        if a[i] != b[i] {
            return false;
        }
        i += 1;
    }
    assert(a@ =~= b@);
    true
}

/// A 20-byte Ethereum account address.
#[derive(Clone, Copy, Debug)]
pub struct Address {
    pub bytes: [u8; 20],
}

impl View for Address {
    type V = Seq<u8>;

    open spec fn view(&self) -> Seq<u8> {
        self.bytes@
    }
}

impl Address {
    /// The address with the given bytes.
    pub fn new(bytes: [u8; 20]) -> (r: Address)
        ensures
            r@ == bytes@,
    {
        Address { bytes }
    }

    /// The address whose twenty bytes are all zero.
    pub fn zero() -> (r: Address)
        ensures
            r@ == Seq::new(20, |i: int| 0u8),
    {
        let r = Address { bytes: [0u8; 20] };
        assert(r@ =~= Seq::new(20, |i: int| 0u8));
        r
    }
}

impl PartialEq for Address {
    fn eq(&self, other: &Address) -> (r: bool) {
        same_bytes(&self.bytes, &other.bytes)
    }
}

impl vstd::std_specs::cmp::PartialEqSpecImpl for Address {
    open spec fn obeys_eq_spec() -> bool {
        true
    }

    open spec fn eq_spec(&self, other: &Address) -> bool {
        self@ == other@
    }
}

/// A 32-byte word, such as a transaction hash or a nonce.
#[derive(Clone, Copy, Debug)]
pub struct B256 {
    pub bytes: [u8; 32],
}

/// A transaction hash.
pub type TxHash = B256;

impl View for B256 {
    type V = Seq<u8>;

    open spec fn view(&self) -> Seq<u8> {
        self.bytes@
    }
}

impl B256 {
    /// The word with the given bytes.
    pub fn new(bytes: [u8; 32]) -> (r: B256)
        ensures
            r@ == bytes@,
    {
        B256 { bytes }
    }

    /// The word whose thirty-two bytes are all zero.
    pub fn zero() -> (r: B256)
        ensures
            r@ == Seq::new(32, |i: int| 0u8),
    {
        let r = B256 { bytes: [0u8; 32] };
        assert(r@ =~= Seq::new(32, |i: int| 0u8));
        r
    }
}

impl PartialEq for B256 {
    fn eq(&self, other: &B256) -> (r: bool) {
        same_bytes(&self.bytes, &other.bytes)
    }
}

impl vstd::std_specs::cmp::PartialEqSpecImpl for B256 {
    open spec fn obeys_eq_spec() -> bool {
        true
    }

    open spec fn eq_spec(&self, other: &B256) -> bool {
        self@ == other@
    }
}

} // verus!
