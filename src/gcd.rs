use vstd::arithmetic::div_mod::*;
use vstd::arithmetic::power2::*;
use vstd::bits::*;
use vstd::prelude::*;
use vstd::std_specs::bits::*;

verus! {

/// `d` is a positive divisor of `a`.
pub open spec fn divides(d: nat, a: nat) -> bool {
    d > 0 && a % d == 0
}

/// Greatest common divisor, by Euclid's recursion; `gcd(a, 0) == a`.
pub open spec fn gcd(a: nat, b: nat) -> nat
    decreases b,
{
    if b == 0 {
        a
    } else {
        gcd(b, a % b)
    }
}

proof fn lemma_divides_multiple(d: nat, k: int)
    requires
        d > 0,
        d * k >= 0,
    ensures
        divides(d, (d * k) as nat),
{
    lemma_mod_multiples_basic(k, d as int);
}

proof fn lemma_divides_elim(d: nat, a: nat)
    requires
        divides(d, a),
    ensures
        a == d * (a / d),
{
    lemma_fundamental_div_mod(a as int, d as int);
}

proof fn lemma_divides_scale(d: nat, a: nat, k: nat)
    requires
        divides(d, a),
    ensures
        divides(d, a * k),
{
    lemma_divides_elim(d, a);
    let i = a / d;
    assert(a * k == d * (i * k)) by (nonlinear_arith)
        requires
            a == d * i,
    ;
    lemma_divides_multiple(d, (i * k) as int);
}

proof fn lemma_divides_sum(d: nat, a: nat, b: nat)
    requires
        divides(d, a),
        divides(d, b),
    ensures
        divides(d, a + b),
        a >= b ==> divides(d, (a - b) as nat),
{
    lemma_divides_elim(d, a);
    lemma_divides_elim(d, b);
    let i = a / d;
    let j = b / d;
    assert(a + b == d * (i + j)) by (nonlinear_arith)
        requires
            a == d * i,
            b == d * j,
    ;
    assert(a - b == d * (i - j)) by (nonlinear_arith)
        requires
            a == d * i,
            b == d * j,
    ;
    lemma_divides_multiple(d, (i + j) as int);
    if a >= b {
        lemma_divides_multiple(d, i - j);
    }
}

proof fn lemma_divides_le(d: nat, a: nat)
    requires
        divides(d, a),
        a > 0,
    ensures
        d <= a,
{
    lemma_divides_elim(d, a);
    let k = a / d;
    assert(d <= a) by (nonlinear_arith)
        requires
            a == d * k,
            a > 0,
            d > 0,
    ;
}

/// `gcd(a, b)` divides both of its arguments.
pub proof fn lemma_gcd_divides(a: nat, b: nat)
    requires
        a > 0 || b > 0,
    ensures
        gcd(a, b) > 0,
        divides(gcd(a, b), a),
        divides(gcd(a, b), b),
    decreases b,
{
    if b == 0 {
        lemma_divides_multiple(a, 1);
        lemma_divides_multiple(a, 0);
    } else {
        lemma_gcd_divides(b, a % b);
        let g = gcd(b, a % b);
        lemma_fundamental_div_mod(a as int, b as int);
        lemma_divides_scale(g, b, a / b);
        lemma_divides_sum(g, b * (a / b), a % b);
    }
}

/// Every common divisor of `a` and `b` divides `gcd(a, b)`.
pub proof fn lemma_gcd_greatest(a: nat, b: nat, d: nat)
    requires
        divides(d, a),
        divides(d, b),
    ensures
        divides(d, gcd(a, b)),
    decreases b,
{
    if b != 0 {
        lemma_fundamental_div_mod(a as int, b as int);
        lemma_divides_scale(d, b, a / b);
        lemma_divides_sum(d, a, b * (a / b));
        assert((a - b * (a / b)) as nat == a % b);
        lemma_gcd_greatest(b, a % b, d);
    }
}

proof fn lemma_gcd_unique(a: nat, b: nat, g: nat)
    requires
        a > 0 || b > 0,
        divides(g, a),
        divides(g, b),
        forall|d: nat| divides(d, a) && divides(d, b) ==> #[trigger] divides(d, g),
    ensures
        g == gcd(a, b),
{
    lemma_gcd_divides(a, b);
    lemma_gcd_greatest(a, b, g);
    assert(divides(gcd(a, b), g));
    lemma_divides_le(g, gcd(a, b));
    lemma_divides_le(gcd(a, b), g);
}

proof fn lemma_gcd_comm(a: nat, b: nat)
    requires
        a > 0 || b > 0,
    ensures
        gcd(a, b) == gcd(b, a),
{
    lemma_gcd_divides(a, b);
    assert forall|d: nat| divides(d, b) && divides(d, a) implies #[trigger] divides(d, gcd(a, b)) by {
        lemma_gcd_greatest(a, b, d);
    }
    lemma_gcd_unique(b, a, gcd(a, b));
}

proof fn lemma_gcd_sub(a: nat, b: nat)
    requires
        a >= b,
        b > 0,
    ensures
        gcd((a - b) as nat, b) == gcd(a, b),
{
    let g = gcd(a, b);
    lemma_gcd_divides(a, b);
    lemma_divides_sum(g, a, b);
    assert forall|d: nat| divides(d, (a - b) as nat) && divides(d, b) implies #[trigger] divides(
        d,
        g,
    ) by {
        lemma_divides_sum(d, (a - b) as nat, b);
        lemma_gcd_greatest(a, b, d);
    }
    lemma_gcd_unique((a - b) as nat, b, g);
}

pub proof fn lemma_gcd_self(a: nat)
    ensures
        gcd(a, a) == a,
{
    if a > 0 {
        assert(a % a == 0) by {
            lemma_divides_multiple(a, 1);
        }
        assert(gcd(a, 0) == a);
    }
}

proof fn lemma_odd_divisor(d: nat, b: nat)
    requires
        divides(d, b),
        b % 2 == 1,
    ensures
        d % 2 == 1,
{
    lemma_divides_elim(d, b);
    let k = b / d;
    if d % 2 == 0 {
        let h = d / 2;
        assert(b == 2 * (h * k)) by (nonlinear_arith)
            requires
                b == d * k,
                d == 2 * h,
        ;
    }
}

proof fn lemma_odd_divides_half(d: nat, x: nat)
    requires
        d % 2 == 1,
        divides(d, 2 * x),
    ensures
        divides(d, x),
{
    lemma_divides_elim(d, 2 * x);
    let k = (2 * x) / d;
    let u = d / 2;
    let v = k / 2;
    if k % 2 == 1 {
        assert(2 * x == 2 * (2 * u * v + u + v) + 1) by (nonlinear_arith)
            requires
                2 * x == d * k,
                d == 2 * u + 1,
                k == 2 * v + 1,
        ;
    } else {
        assert(x == d * v) by (nonlinear_arith)
            requires
                2 * x == d * k,
                k == 2 * v,
        ;
        lemma_divides_multiple(d, v as int);
    }
}

proof fn lemma_gcd_double(x: nat, b: nat)
    requires
        b % 2 == 1,
    ensures
        gcd(2 * x, b) == gcd(x, b),
{
    let g = gcd(x, b);
    lemma_gcd_divides(x, b);
    lemma_divides_scale(g, x, 2);
    assert forall|d: nat| divides(d, 2 * x) && divides(d, b) implies #[trigger] divides(d, g) by {
        lemma_odd_divisor(d, b);
        lemma_odd_divides_half(d, x);
        lemma_gcd_greatest(x, b, d);
    }
    lemma_gcd_unique(2 * x, b, g);
}

/// Factors of two on one side do not change the gcd with an odd number.
pub proof fn lemma_gcd_pow2(c: nat, k: nat, b: nat)
    requires
        b % 2 == 1,
    ensures
        gcd(c * pow2(k), b) == gcd(c, b),
    decreases k,
{
    if k == 0 {
        lemma2_to64();
    } else {
        lemma_pow2_unfold(k);
        let y = c * pow2((k - 1) as nat);
        assert(c * pow2(k) == 2 * y) by (nonlinear_arith)
            requires
                pow2(k) == 2 * pow2((k - 1) as nat),
                y == c * pow2((k - 1) as nat),
        ;
        lemma_gcd_double(y, b);
        lemma_gcd_pow2(c, (k - 1) as nat, b);
    }
}

/// A common factor comes out of the gcd.
pub proof fn lemma_gcd_scale(a: nat, b: nat, p: nat)
    requires
        p > 0,
    ensures
        gcd(a * p, b * p) == gcd(a, b) * p,
    decreases b,
{
    if b == 0 {
        assert(b * p == 0);
    } else {
        assert(b * p > 0) by (nonlinear_arith)
            requires
                b > 0,
                p > 0,
        ;
        let q = a / b;
        let r = a % b;
        lemma_fundamental_div_mod(a as int, b as int);
        assert(a * p == q * (b * p) + r * p && r * p < b * p) by (nonlinear_arith)
            requires
                a == b * q + r,
                r < b,
                p > 0,
        ;
        lemma_fundamental_div_mod_converse((a * p) as int, (b * p) as int, q as int, (r * p) as int);
        assert((a * p) % (b * p) == r * p);
        lemma_gcd_scale(b, r, p);
    }
}

/// Shifting out the trailing zeros of a nonzero word leaves an odd number,
/// and multiplying back by that power of two gives the word again.
proof fn lemma_strip_twos(x: u64)
    requires
        x != 0,
    ensures
        u64_trailing_zeros(x) < 64,
        (x >> u64_trailing_zeros(x)) % 2 == 1,
        x == (x >> u64_trailing_zeros(x)) * pow2(u64_trailing_zeros(x) as nat),
        x >> u64_trailing_zeros(x) <= x,
{
    axiom_u64_trailing_zeros(x);
    let t = u64_trailing_zeros(x) as u64;
    assert(t < 64);
    assert((x >> t) & 1u64 == 1u64 ==> (x >> t) % 2 == 1) by (bit_vector);
    assert(t < 64 && x << vstd::prelude::sub(64, t) == 0 ==> (x >> t) << t == x) by (bit_vector);
    lemma_u64_shr_is_div(x, t);
    lemma_pow2_pos(t as nat);
    lemma_fundamental_div_mod(x as int, pow2(t as nat) as int);
    assert((x >> t) * pow2(t as nat) <= x) by (nonlinear_arith)
        requires
            x == pow2(t as nat) * (x as nat / pow2(t as nat)) + x as nat % pow2(t as nat),
            x as nat % pow2(t as nat) >= 0,
            (x >> t) == x as nat / pow2(t as nat),
    ;
    lemma_u64_shl_is_mul(x >> t, t);
    assert(x >> t <= x) by (bit_vector);
    assert(x >> u64_trailing_zeros(x) == x >> t);
}

/// The trailing zeros of `m | n` are the fewer of those of `m` and of `n`.
proof fn lemma_common_twos(m: u64, n: u64)
    requires
        m != 0,
        n != 0,
    ensures
        u64_trailing_zeros(m | n) <= u64_trailing_zeros(m),
        u64_trailing_zeros(m | n) <= u64_trailing_zeros(n),
        u64_trailing_zeros(m | n) == u64_trailing_zeros(m) || u64_trailing_zeros(m | n)
            == u64_trailing_zeros(n),
{
    assert(m | n != 0) by (bit_vector)
        requires
            m != 0,
    ;
    axiom_u64_trailing_zeros(m);
    axiom_u64_trailing_zeros(n);
    axiom_u64_trailing_zeros(m | n);
    let tm = u64_trailing_zeros(m) as u64;
    let tn = u64_trailing_zeros(n) as u64;
    let s = u64_trailing_zeros(m | n) as u64;
    assert(s <= tm && s <= tn && (s == tm || s == tn)) by (bit_vector)
        requires
            tm < 64,
            tn < 64,
            s < 64,
            m << vstd::prelude::sub(64, tm) == 0,
            (m >> tm) & 1u64 == 1u64,
            n << vstd::prelude::sub(64, tn) == 0,
            (n >> tn) & 1u64 == 1u64,
            (m | n) << vstd::prelude::sub(64, s) == 0,
            ((m | n) >> s) & 1u64 == 1u64,
    ;
}

/// Greatest common divisor by Stein's binary algorithm; `gcd_u64(0, n) == n`
/// and `gcd_u64(m, 0) == m`.
pub fn gcd_u64(m: u64, n: u64) -> (g: u64)
    ensures
        g == gcd(m as nat, n as nat),
{
    if m == 0 || n == 0 {
        proof {
            assert(m == 0 ==> m | n == n) by (bit_vector);
            assert(n == 0 ==> m | n == m) by (bit_vector);
            if m == 0 && n > 0 {
                assert(gcd(0, n as nat) == gcd(n as nat, 0));
            }
        }
        return m | n;
    }
    let shift = (m | n).trailing_zeros();
    proof {
        lemma_common_twos(m, n);
        lemma_strip_twos(m);
        lemma_strip_twos(n);
    }
    let ghost tm = u64_trailing_zeros(m) as nat;
    let ghost tn = u64_trailing_zeros(n) as nat;
    let mut a: u64 = m >> m.trailing_zeros();
    let mut b: u64 = n >> n.trailing_zeros();
    proof {
        let s = shift as nat;
        lemma_pow2_adds((tm - s) as nat, s);
        lemma_pow2_adds((tn - s) as nat, s);
        let ma = (a * pow2((tm - s) as nat)) as nat;
        let nb = (b * pow2((tn - s) as nat)) as nat;
        assert(m == ma * pow2(s)) by (nonlinear_arith)
            requires
                m == a * pow2(tm),
                pow2(tm) == pow2((tm - s) as nat) * pow2(s),
                ma == a * pow2((tm - s) as nat),
        ;
        assert(n == nb * pow2(s)) by (nonlinear_arith)
            requires
                n == b * pow2(tn),
                pow2(tn) == pow2((tn - s) as nat) * pow2(s),
                nb == b * pow2((tn - s) as nat),
        ;
        lemma_pow2_pos(s);
        lemma_gcd_scale(ma, nb, pow2(s));
        lemma2_to64();
        if s == tm {
            assert(ma == a);
            lemma_gcd_pow2(b as nat, (tn - s) as nat, a as nat);
            lemma_gcd_comm(a as nat, nb);
            lemma_gcd_comm(a as nat, b as nat);
        } else {
            assert(nb == b);
            lemma_gcd_pow2(a as nat, (tm - s) as nat, b as nat);
        }
        assert(gcd(m as nat, n as nat) == gcd(a as nat, b as nat) * pow2(s));
    }
    let ghost g0 = gcd(a as nat, b as nat);
    while a != b
        invariant
            a > 0,
            b > 0,
            a % 2 == 1,
            b % 2 == 1,
            gcd(a as nat, b as nat) == g0,
        decreases a + b,
    {
        if a > b {
            let c: u64 = a - b;
            proof {
                lemma_gcd_sub(a as nat, b as nat);
                lemma_strip_twos(c);
                lemma_gcd_pow2((c >> u64_trailing_zeros(c)) as nat, u64_trailing_zeros(c) as nat, b as nat);
            }
            a = c >> c.trailing_zeros();
        } else {
            let c: u64 = b - a;
            proof {
                lemma_gcd_comm(a as nat, b as nat);
                lemma_gcd_sub(b as nat, a as nat);
                lemma_strip_twos(c);
                lemma_gcd_pow2((c >> u64_trailing_zeros(c)) as nat, u64_trailing_zeros(c) as nat, a as nat);
                lemma_gcd_comm(a as nat, (c >> u64_trailing_zeros(c)) as nat);
            }
            b = c >> c.trailing_zeros();
        }
    }
    proof {
        lemma_gcd_self(a as nat);
        lemma_gcd_divides(m as nat, n as nat);
        lemma_divides_le(gcd(m as nat, n as nat), m as nat);
        lemma_u64_shl_is_mul(a, shift as u64);
    }
    a << shift
}

/// The gcd of two numbers, not both zero, divides each of them, and dividing
/// both by it leaves numbers whose gcd is one. A zero argument gives the
/// other argument back.
pub proof fn lemma_reduced_coprime(a: nat, b: nat)
    requires
        a > 0 || b > 0,
    ensures
        divides(gcd(a, b), a),
        divides(gcd(a, b), b),
        gcd(a / gcd(a, b), b / gcd(a, b)) == 1,
        gcd(0, b) == b,
        gcd(a, 0) == a,
{
    let g = gcd(a, b);
    lemma_gcd_divides(a, b);
    lemma_divides_elim(g, a);
    lemma_divides_elim(g, b);
    let x = a / g;
    let y = b / g;
    assert(a == x * g && b == y * g) by (nonlinear_arith)
        requires
            a == g * x,
            b == g * y,
    ;
    lemma_gcd_scale(x, y, g);
    assert(gcd(x, y) == 1) by (nonlinear_arith)
        requires
            g == gcd(x, y) * g,
            g > 0,
    ;
    if b > 0 {
        assert(gcd(0, b) == gcd(b, 0));
    }
}

} // verus!
