use vstd::prelude::*;

verus! {

/// An element of GF(2^8): a polynomial of degree below 8 over GF(2), one
/// coefficient per bit.
#[derive(Debug, Clone, Copy, PartialEq, Eq, Structural)]
pub struct FF {
    pub val: u8,
}

impl View for FF {
    type V = u8;

    open spec fn view(&self) -> u8 {
        self.val
    }
}

/// Addition in GF(2^8) is the bitwise exclusive or.
pub open spec fn gf_add(a: u8, b: u8) -> u8 {
    a ^ b
}

/// Multiplication by `x` in GF(2^8): a left shift, reduced by 0x11B when the
/// high bit falls out.
pub open spec fn xtime_spec(a: u8) -> u8 {
    if a < 0x80 {
        a << 1
    } else {
        (a << 1) ^ 0x1b
    }
}

/// Shift-and-add product over the low `n` bits of `b`: bit `i` of `b`
/// contributes `x^i * m`.
pub open spec fn mul_bits(m: u8, b: u8, n: nat) -> u8
    decreases n,
{
    if n == 0 {
        0
    } else {
        (if b & 1 == 1 { m } else { 0 }) ^ mul_bits(xtime_spec(m), b >> 1, (n - 1) as nat)
    }
}

/// The product of `a` and `b` in GF(2^8) modulo x^8 + x^4 + x^3 + x + 1.
pub open spec fn gf_mul(a: u8, b: u8) -> u8 {
    mul_bits(a, b, 8)
}

/// Multiplication is commutative.
#[verifier::rlimit(100)]
pub proof fn lemma_mul_commutative(a: u8, b: u8)
    ensures
        gf_mul(a, b) == gf_mul(b, a),
{
    assert(mul_bits(a, b, 8) == mul_bits(b, a, 8)) by (bit_vector);
}

proof fn lemma_xtime_xor(x: u8, y: u8)
    ensures
        xtime_spec(x ^ y) == xtime_spec(x) ^ xtime_spec(y),
{
    assert(xtime_spec(x ^ y) == xtime_spec(x) ^ xtime_spec(y)) by (bit_vector);
}

proof fn lemma_mul_bits_xor(x: u8, y: u8, b: u8, n: nat)
    ensures
        mul_bits(x ^ y, b, n) == mul_bits(x, b, n) ^ mul_bits(y, b, n),
    decreases n,
{
    if n > 0 {
        let m = (n - 1) as nat;
        lemma_xtime_xor(x, y);
        lemma_mul_bits_xor(xtime_spec(x), xtime_spec(y), b >> 1, m);
        let rx = mul_bits(xtime_spec(x), b >> 1, m);
        let ry = mul_bits(xtime_spec(y), b >> 1, m);
        let set = b & 1 == 1;
        assert(((if set { x ^ y } else { 0u8 }) ^ (rx ^ ry)) == (((if set { x } else { 0u8 }) ^ rx)
            ^ ((if set { y } else { 0u8 }) ^ ry))) by (bit_vector);
    } else {
        assert(0u8 ^ 0u8 == 0u8) by (bit_vector);
    }
}

/// Multiplication distributes over addition.
pub proof fn lemma_mul_distributes(x: u8, y: u8, k: u8)
    ensures
        gf_mul(x ^ y, k) == gf_mul(x, k) ^ gf_mul(y, k),
{
    lemma_mul_bits_xor(x, y, k, 8);
}

impl FF {
    pub fn new(val: u8) -> (r: FF)
        ensures
            r@ == val,
    {
        FF { val }
    }

    pub fn value(self) -> (r: u8)
        ensures
            r == self@,
    {
        self.val
    }

    /// Multiplies by `x`.
    pub fn xtime(&self) -> (r: FF)
        ensures
            r@ == xtime_spec(self@),
    {
        let val = self.val;
        let do_mod = val >= 0x80;
        let shifted: u8 = val << 1;
        FF::new(if do_mod { shifted ^ 0x1b } else { shifted })
    }
}

impl core::ops::Add for FF {
    type Output = FF;

    fn add(self, rhs: FF) -> (r: FF)
        ensures
            r@ == gf_add(self@, rhs@),
    {
        FF::new(self.val ^ rhs.val)
    }
}

impl vstd::std_specs::ops::AddSpecImpl for FF {
    open spec fn obeys_add_spec() -> bool {
        true
    }

    open spec fn add_req(self, rhs: FF) -> bool {
        true
    }

    open spec fn add_spec(self, rhs: FF) -> FF {
        FF { val: gf_add(self.val, rhs.val) }
    }
}

impl core::ops::Mul for FF {
    type Output = FF;

    /// Shift-and-add: for each bit of `rhs`, from the lowest, add the running
    /// multiple of `self` when the bit is set, then multiply that by `x`.
    fn mul(self, rhs: FF) -> (r: FF)
        ensures
            r@ == gf_mul(self@, rhs@),
    {
        let mut a = FF::new(self.val);
        let mut bits: u8 = rhs.val;
        let mut res = FF::new(0);
        let mut i: u8 = 0;
        let ghost g = gf_mul(self@, rhs@);
        assert(gf_add(0, g) == g) by (bit_vector);
        while i < 8
            invariant
                i <= 8,
                gf_add(res@, mul_bits(a@, bits, (8 - i) as nat)) == gf_mul(self@, rhs@),
            decreases 8 - i,
        {
            let ghost (r0, m0, b0) = (res@, a@, bits);
            let ghost rest = mul_bits(xtime_spec(m0), b0 >> 1, (7 - i) as nat);
            if bits & 1 == 1 {
                res = res + a;
            }
            let ghost r1 = res@;
            assert(gf_add(r1, rest) == gf_add(r0, gf_add(if b0 & 1 == 1 { m0 } else { 0u8 }, rest))) by (bit_vector)
                requires
                    r1 == if b0 & 1 == 1 { r0 ^ m0 } else { r0 },
            ;
            a = a.xtime();
            bits = bits >> 1;
            i = i + 1;
        }
        let ghost r = res@;
        assert(gf_add(r, 0) == r) by (bit_vector);
        res
    }
}

impl vstd::std_specs::ops::MulSpecImpl for FF {
    open spec fn obeys_mul_spec() -> bool {
        true
    }

    open spec fn mul_req(self, rhs: FF) -> bool {
        true
    }

    open spec fn mul_spec(self, rhs: FF) -> FF {
        FF { val: gf_mul(self.val, rhs.val) }
    }
}

/// Every element is its own additive inverse: `a + a == 0`.
pub proof fn lemma_add_self_inverse(a: u8)
    ensures
        gf_add(a, a) == 0,
{
    assert(a ^ a == 0) by (bit_vector);
}

/// One is the multiplicative identity and zero annihilates.
pub proof fn lemma_mul_one_zero(a: u8)
    ensures
        gf_mul(a, 1) == a,
        gf_mul(a, 0) == 0,
{
    assert(mul_bits(a, 1, 8) == a && mul_bits(a, 0, 8) == 0) by (bit_vector);
}

/// `xtime` is multiplication by the polynomial `x`, the element 0x02.
pub proof fn lemma_xtime_is_mul_two(a: u8)
    ensures
        xtime_spec(a) == gf_mul(a, 2),
{
    assert(xtime_spec(a) == mul_bits(a, 2, 8)) by (bit_vector);
}

} // verus!
