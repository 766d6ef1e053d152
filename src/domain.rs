//! Radix-2 evaluation domains over the scalar field: FFTs, their inverses and
//! coset variants, and the pointwise operations used to compute a quotient
//! polynomial.
use crate::field::{finv, vals, fadd, fmul, fpow, fsub, modulus, root_of_unity_value, generator_value, Fr, TWO_ADICITY};
use crate::SynthesisError;
use vstd::arithmetic::power2::{pow2, lemma_pow2_unfold, lemma_pow2_pos};
use vstd::prelude::*;

verus! {

/// `x` squared `k` times in the field.
pub open spec fn fsquares(x: int, k: nat) -> int
    decreases k,
{
    if k == 0 {
        x
    } else {
        let y = fsquares(x, (k - 1) as nat);
        fmul(y, y)
    }
}

/// Squaring `k` times in the field raises a canonical value to the `2^k`-th power.
pub proof fn lemma_fsquares(x: int, k: nat)
    requires
        0 <= x < modulus(),
    ensures
        fsquares(x, k) == fpow(x, pow2(k)),
    decreases k,
{
    if k == 0 {
        assert(pow2(0) == 1) by {
            vstd::arithmetic::power2::lemma2_to64();
        }
        reveal_with_fuel(fpow, 2);
        assert(fpow(x, 1) == fmul(1, x));
        vstd::arithmetic::div_mod::lemma_small_mod(x as nat, modulus() as nat);
    } else {
        lemma_fsquares(x, (k - 1) as nat);
        lemma_pow2_unfold(k);
        crate::field::lemma_fpow_double(x, pow2((k - 1) as nat));
    }
}

/// `e` is the base-2 logarithm of the smallest power of two that is at least `len`.
pub open spec fn is_domain_exp(len: nat, e: nat) -> bool {
    &&& pow2(e) >= len
    &&& (e == 0 || pow2((e - 1) as nat) < len)
}

/// The `l` low bits of `k` in reverse order: the last of `l` steps that
/// each shift the result left and bring in the next bit of `k`, lowest first.
pub open spec fn rev_bits(k: nat, l: nat) -> nat
    decreases l,
{
    if l == 0 {
        0
    } else {
        2 * rev_bits(k, (l - 1) as nat) + (k / pow2((l - 1) as nat)) % 2
    }
}

/// The bit-reversal pass over the first `k` positions: position `i` is
/// exchanged with position `rev_bits(i, l)` when `i` is the smaller of the two.
pub open spec fn swap_pass<A>(s: Seq<A>, l: nat, k: nat) -> Seq<A>
    decreases k,
{
    if k == 0 {
        s
    } else {
        let p = swap_pass(s, l, (k - 1) as nat);
        let i = k - 1;
        let ri = rev_bits(i as nat, l) as int;
        if i < ri && ri < p.len() {
            p.update(i, p[ri]).update(ri, p[i])
        } else {
            p
        }
    }
}

/// The value at `idx` after one radix-2 butterfly stage over blocks of `2m`:
/// the two halves of each block become `x + w^j y` and `x - w^j y`.
pub open spec fn butterfly_at(prev: Seq<int>, m: nat, wm: int, idx: int) -> int {
    let pos = idx % (2 * m as int);
    if pos < m {
        fadd(prev[idx], fmul(prev[idx + m], fpow(wm, pos as nat)))
    } else {
        fsub(prev[idx - m], fmul(prev[idx], fpow(wm, (pos - m) as nat)))
    }
}

/// One radix-2 butterfly stage over blocks of `2m` with twiddle base `wm`.
pub open spec fn butterfly(prev: Seq<int>, m: nat, wm: int) -> Seq<int> {
    Seq::new(prev.len(), |idx: int| butterfly_at(prev, m, wm, idx))
}

/// The first `r` butterfly stages of a radix-2 FFT of size `2^log_n` with
/// root `omega`; stage `r` has half-blocks of `2^(r-1)` and twiddle base
/// `omega^(2^log_n / 2^r)`.
pub open spec fn fft_rounds(s: Seq<int>, omega: int, log_n: nat, r: nat) -> Seq<int>
    decreases r,
{
    if r == 0 {
        s
    } else {
        let m = pow2((r - 1) as nat);
        butterfly(
            fft_rounds(s, omega, log_n, (r - 1) as nat),
            m,
            fpow(omega, (pow2(log_n) / (2 * m)) as nat),
        )
    }
}

/// The in-place radix-2 FFT of `s` (of size `2^log_n`) with root `omega`:
/// the bit-reversal pass followed by all `log_n` butterfly stages.
pub open spec fn fft_spec(s: Seq<int>, omega: int, log_n: nat) -> Seq<int> {
    fft_rounds(swap_pass(s, log_n, pow2(log_n)), omega, log_n, log_n)
}

/// The exponent of `omega` that weighs input `i + s * 2^lnn` in sub-FFT `j`
/// of the parallel FFT with `nc` sub-FFTs of size `2^lnn`.
pub open spec fn shuffle_exp(j: nat, i: nat, s: nat, lnn: nat, nc: nat) -> nat {
    j * i + j * pow2(lnn) * (i * nc + s)
}

/// Entry `i` of the input of sub-FFT `j`, summed over the first `s` cosets.
pub open spec fn shuffled(a: Seq<int>, omega: int, j: nat, i: nat, lnn: nat, nc: nat, s: nat) -> int
    decreases s,
{
    if s == 0 {
        0
    } else {
        let s1 = (s - 1) as nat;
        fadd(
            shuffled(a, omega, j, i, lnn, nc, s1),
            fmul(a[(i + s1 * pow2(lnn)) as int], fpow(omega, shuffle_exp(j, i, s1, lnn, nc))),
        )
    }
}

/// The input of sub-FFT `j`.
pub open spec fn sub_input(a: Seq<int>, omega: int, j: nat, lnn: nat, nc: nat) -> Seq<int> {
    Seq::new(pow2(lnn), |i: int| shuffled(a, omega, j, i as nat, lnn, nc, nc))
}

/// The FFT of `a` (of size `2^log_n`) computed as `2^log_cpus` sub-FFTs of
/// size `2^(log_n - log_cpus)` with root `omega^(2^log_cpus)`, whose results
/// are interleaved.
pub open spec fn parallel_fft_spec(a: Seq<int>, omega: int, log_n: nat, log_cpus: nat) -> Seq<int> {
    let nc = pow2(log_cpus);
    let lnn = (log_n - log_cpus) as nat;
    Seq::new(
        pow2(log_n),
        |idx: int| fft_spec(sub_input(a, omega, (idx % nc as int) as nat, lnn, nc), fpow(omega, nc), lnn)[idx / nc as int],
    )
}

proof fn lemma_rev_bits_bound(k: nat, l: nat)
    ensures
        rev_bits(k, l) < pow2(l),
    decreases l,
{
    if l == 0 {
        vstd::arithmetic::power2::lemma2_to64();
    } else {
        lemma_rev_bits_bound(k, (l - 1) as nat);
        lemma_pow2_unfold(l);
    }
}

/// Reverses the `l` low bits of `n`.
fn bitreverse(n: u32, l: u32) -> (r: u32)
    requires
        l <= 31,
    ensures
        r == rev_bits(n as nat, l as nat),
{
    let mut r: u32 = 0;
    let mut m: u32 = n;
    let mut i: u32 = 0;
    proof {
        vstd::arithmetic::power2::lemma2_to64();
    }
    while i < l
        invariant
            i <= l <= 31,
            r == rev_bits(n as nat, i as nat),
            m == n as nat / pow2(i as nat),
            pow2(31) == 0x8000_0000,
            pow2(0) == 1,
        decreases l - i,
    {
        proof {
            lemma_rev_bits_bound(n as nat, i as nat);
            if i < 31 {
                vstd::arithmetic::power2::lemma_pow2_strictly_increases(i as nat, 31);
            }
            assert(r < 0x8000_0000);
            assert((r << 1) | (m & 1) == 2 * r + m % 2) by (bit_vector)
                requires
                    r < 0x8000_0000u32,
            ;
            assert(m >> 1 == m / 2) by (bit_vector);
            vstd::arithmetic::div_mod::lemma_div_denominator(n as int, pow2(i as nat) as int, 2);
            lemma_pow2_unfold((i + 1) as nat);
            assert(pow2(i as nat) * 2 == pow2((i + 1) as nat));
        }
        r = (r << 1) | (m & 1);
        m = m >> 1;
        i = i + 1;
    }
    r
}

/// The in-place radix-2 FFT of `a`, of size `2^log_n`, with root `omega`:
/// the bit-reversal pass, then `log_n` butterfly stages.
pub fn serial_fft(a: &mut Vec<Fr>, omega: &Fr, log_n: u32)
    requires
        log_n <= 31,
        old(a).len() == pow2(log_n as nat),
    ensures
        final(a).len() == old(a).len(),
        vals(final(a)@) == fft_spec(vals(old(a)@), omega.val(), log_n as nat),
{
    proof {
        vstd::arithmetic::power2::lemma2_to64();
        if log_n < 31 {
            vstd::arithmetic::power2::lemma_pow2_strictly_increases(log_n as nat, 31);
        }
    }
    let n: u32 = a.len() as u32;
    let ghost orig = a@;
    let mut k: u32 = 0;
    while k < n
        invariant
            a.len() == n,
            n == pow2(log_n as nat),
            log_n <= 31,
            k <= n,
            vals(a@) == swap_pass(vals(orig), log_n as nat, k as nat),
        decreases n - k,
    {
        let rk = bitreverse(k, log_n);
        proof {
            lemma_rev_bits_bound(k as nat, log_n as nat);
        }
        let ghost p = vals(a@);
        if k < rk {
            let x = a[k as usize];
            let y = a[rk as usize];
            a.set(k as usize, y);
            a.set(rk as usize, x);
            assert(vals(a@) =~= p.update(k as int, p[rk as int]).update(rk as int, p[k as int]));
        }
        assert(swap_pass(vals(orig), log_n as nat, (k + 1) as nat) == (if (k as int) < (rk as int) && (rk as int) < p.len() {
            p.update(k as int, p[rk as int]).update(rk as int, p[k as int])
        } else {
            p
        }));
        k = k + 1;
    }
    // twiddles[k] = omega^(2^k)
    let mut twiddles: Vec<Fr> = Vec::new();
    let mut w = *omega;
    let mut k: u32 = 0;
    omega.note_canonical();
    while k < log_n
        invariant
            k <= log_n,
            twiddles@.len() == k,
            0 <= omega.val() < modulus(),
            w.val() == fsquares(omega.val(), k as nat),
            forall|t: int| 0 <= t < k ==> (#[trigger] twiddles@[t]).val() == fpow(omega.val(), pow2(t as nat)),
        decreases log_n - k,
    {
        proof {
            lemma_fsquares(omega.val(), k as nat);
        }
        twiddles.push(w);
        w = w.square();
        k = k + 1;
    }
    let ghost start = vals(a@);
    let mut m: u32 = 1;
    let mut s: u32 = 0;
    while s < log_n
        invariant
            a.len() == n,
            n == pow2(log_n as nat),
            s <= log_n <= 31,
            m == pow2(s as nat),
            vals(a@) == fft_rounds(start, omega.val(), log_n as nat, s as nat),
            twiddles@.len() == log_n,
            forall|t: int| 0 <= t < log_n ==> (#[trigger] twiddles@[t]).val() == fpow(omega.val(), pow2(t as nat)),
        decreases log_n - s,
    {
        let ghost nb: int = pow2((log_n - s - 1) as nat) as int;
        proof {
            vstd::arithmetic::power2::lemma_pow2_adds((log_n - s - 1) as nat, (s + 1) as nat);
            lemma_pow2_unfold((s + 1) as nat);
            vstd::arithmetic::power2::lemma_pow2_pos((log_n - s - 1) as nat);
            vstd::arithmetic::power2::lemma_pow2_pos(s as nat);
            assert((log_n - s - 1) as nat + (s + 1) as nat == log_n as nat);
            assert(n == nb * (2 * m));
            assert(2 * m <= n) by (nonlinear_arith)
                requires
                    n == nb * (2 * m),
                    nb >= 1,
                    m >= 1,
            ;
        }
        proof {
            assert(pow2(log_n as nat) / (2 * pow2(s as nat)) == pow2((log_n - s - 1) as nat)) by {
                vstd::arithmetic::power2::lemma_pow2_adds((log_n - s - 1) as nat, (s + 1) as nat);
                lemma_pow2_unfold((s + 1) as nat);
                vstd::arithmetic::div_mod::lemma_div_by_multiple(pow2((log_n - s - 1) as nat) as int, (2 * pow2(s as nat)) as int);
            }
        }
        let w_m = twiddles[(log_n - s - 1) as usize];
        let ghost prev = vals(a@);
        let ghost wm = w_m.val();
        let mut k: u32 = 0;
        let ghost mut b: int = 0;
        while k < n
            invariant
                a.len() == n,
                prev.len() == n,
                m >= 1,
                2 * m <= n,
                n == nb * (2 * m),
                k == b * (2 * m),
                0 <= b <= nb,
                wm == w_m.val(),
                forall|t: int| 0 <= t < k ==> #[trigger] a@[t].val() == butterfly_at(prev, m as nat, wm, t),
                forall|t: int| k <= t < n ==> #[trigger] a@[t].val() == prev[t],
            decreases n - k,
        {
            proof {
                assert(b < nb) by (nonlinear_arith)
                    requires
                        k == b * (2 * m),
                        n == nb * (2 * m),
                        k < n,
                        m >= 1,
                ;
                assert(k + 2 * m <= n) by (nonlinear_arith)
                    requires
                        k == b * (2 * m),
                        n == nb * (2 * m),
                        b < nb,
                ;
            }
            let mut w = Fr::one();
            let mut j: u32 = 0;
            while j < m
                invariant
                    a.len() == n,
                    prev.len() == n,
                    m >= 1,
                    k + 2 * m <= n,
                    k == b * (2 * m),
                    0 <= b,
                    j <= m,
                    wm == w_m.val(),
                    w.val() == fpow(wm, j as nat),
                    forall|t: int| 0 <= t < k ==> #[trigger] a@[t].val() == butterfly_at(prev, m as nat, wm, t),
                    forall|t: int| k <= t < k + j ==> #[trigger] a@[t].val() == butterfly_at(prev, m as nat, wm, t),
                    forall|t: int| k + m <= t < k + m + j ==> #[trigger] a@[t].val() == butterfly_at(prev, m as nat, wm, t),
                    forall|t: int| k + j <= t < k + m ==> #[trigger] a@[t].val() == prev[t],
                    forall|t: int| k + m + j <= t < n ==> #[trigger] a@[t].val() == prev[t],
                decreases m - j,
            {
                let lo = (k + j) as usize;
                let hi = (k + j + m) as usize;
                let t = a[hi].mul(&w);
                let diff = a[lo].sub(&t);
                let sum = a[lo].add(&t);
                a.set(hi, diff);
                a.set(lo, sum);
                proof {
                    vstd::arithmetic::div_mod::lemma_fundamental_div_mod_converse(
                        (k + j) as int, 2 * m as int, b, j as int);
                    vstd::arithmetic::div_mod::lemma_fundamental_div_mod_converse(
                        (k + j + m) as int, 2 * m as int, b, (j + m) as int);
                    assert(a@[lo as int].val() == butterfly_at(prev, m as nat, wm, lo as int));
                    assert(a@[hi as int].val() == butterfly_at(prev, m as nat, wm, hi as int));
                }
                w = w.mul(&w_m);
                j = j + 1;
            }
            k = k + 2 * m;
            proof {
                b = b + 1;
                assert(k == b * (2 * m)) by (nonlinear_arith)
                    requires
                        k == (b - 1) * (2 * m) + 2 * m,
                ;
            }
        }
        proof {
            assert(vals(a@) =~= butterfly(prev, m as nat, wm));
            assert(wm == fpow(omega.val(), (pow2(log_n as nat) / (2 * pow2(s as nat))) as nat));
        }
        m = m * 2;
        s = s + 1;
        proof {
            lemma_pow2_unfold(s as nat);
        }
    }
}

/// The radix-2 FFT of `a`, of size `2^log_n`, split into `2^log_cpus`
/// independent sub-FFTs over cosets whose results are interleaved.
pub fn parallel_fft(a: &mut Vec<Fr>, omega: &Fr, log_n: u32, log_cpus: u32)
    requires
        log_cpus <= log_n <= 31,
        old(a).len() == pow2(log_n as nat),
    ensures
        final(a).len() == old(a).len(),
        vals(final(a)@) == parallel_fft_spec(vals(old(a)@), omega.val(), log_n as nat, log_cpus as nat),
{
    let ghost orig = vals(a@);
    let ghost om = omega.val();
    let log_new_n: u32 = log_n - log_cpus;
    proof {
        vstd::arithmetic::power2::lemma2_to64();
        vstd::arithmetic::power2::lemma_pow2_adds(log_new_n as nat, log_cpus as nat);
        vstd::arithmetic::power2::lemma_pow2_pos(log_new_n as nat);
        vstd::arithmetic::power2::lemma_pow2_pos(log_cpus as nat);
        if log_n < 31 {
            vstd::arithmetic::power2::lemma_pow2_strictly_increases(log_n as nat, 31);
        }
        if log_cpus < log_n {
            vstd::arithmetic::power2::lemma_pow2_strictly_increases(log_cpus as nat, log_n as nat);
        }
        if log_new_n < log_n {
            vstd::arithmetic::power2::lemma_pow2_strictly_increases(log_new_n as nat, log_n as nat);
        }
    }
    let n: u32 = a.len() as u32;
    let num_cpus: u32 = (1u32 << log_cpus);
    let sub_n: u32 = (1u32 << log_new_n);
    proof {
        assert(num_cpus == pow2(log_cpus as nat)) by {
            vstd::arithmetic::power2::lemma_pow2(log_cpus as nat);
            vstd::bits::lemma_u32_shl_is_mul(1, log_cpus);
            vstd::arithmetic::power::lemma_pow1(2);
        }
        assert(sub_n == pow2(log_new_n as nat)) by {
            vstd::bits::lemma_u32_shl_is_mul(1, log_new_n);
        }
    }
    let new_omega = omega.pow_vartime(num_cpus as u64);
    let mut tmp: Vec<Vec<Fr>> = Vec::new();
    let mut j: u32 = 0;
    while j < num_cpus
        invariant
            a.len() == n,
            vals(a@) == orig,
            om == omega.val(),
            n == pow2(log_n as nat),
            num_cpus == pow2(log_cpus as nat),
            sub_n == pow2(log_new_n as nat),
            n == sub_n * num_cpus,
            sub_n >= 1,
            num_cpus >= 1,
            log_new_n == log_n - log_cpus,
            log_n <= 31,
            n <= 0x8000_0000,
            j <= num_cpus,
            new_omega.val() == fpow(om, num_cpus as nat),
            tmp@.len() == j,
            forall|jj: int| 0 <= jj < j ==> (#[trigger] tmp@[jj])@.len() == sub_n
                && vals(tmp@[jj]@) == fft_spec(sub_input(orig, om, jj as nat, log_new_n as nat, num_cpus as nat),
                    fpow(om, num_cpus as nat), log_new_n as nat),
        decreases num_cpus - j,
    {
        proof {
            assert(j * sub_n < n) by (nonlinear_arith)
                requires
                    j < num_cpus,
                    n == sub_n * num_cpus,
                    sub_n >= 1,
            ;
        }
        let omega_j = omega.pow_vartime(j as u64);
        let omega_step = omega.pow_vartime((j as u64) * (sub_n as u64));
        let mut elt = Fr::one();
        proof {
            let pw = pow2(log_new_n as nat);
            assert(j * 0 + j * pw * (0 * num_cpus + 0) == 0) by (nonlinear_arith);
        }
        let mut sub: Vec<Fr> = Vec::new();
        let mut i: u32 = 0;
        while i < sub_n
            invariant
                a.len() == n,
                vals(a@) == orig,
                om == omega.val(),
                orig.len() == n,
                n == sub_n * num_cpus,
                sub_n >= 1,
                n <= 0x8000_0000,
                i <= sub_n,
                j < num_cpus,
                omega_j.val() == fpow(om, j as nat),
                omega_step.val() == fpow(om, (j * sub_n) as nat),
                elt.val() == fpow(om, shuffle_exp(j as nat, i as nat, 0, log_new_n as nat, num_cpus as nat)),
                sub_n == pow2(log_new_n as nat),
                sub@.len() == i,
                forall|ii: int| 0 <= ii < i ==> (#[trigger] sub@[ii]).val()
                    == shuffled(orig, om, j as nat, ii as nat, log_new_n as nat, num_cpus as nat, num_cpus as nat),
            decreases sub_n - i,
        {
            let mut acc = Fr::zero();
            let mut s: u32 = 0;
            while s < num_cpus
                invariant
                    a.len() == n,
                    vals(a@) == orig,
                    om == omega.val(),
                    orig.len() == n,
                    n == sub_n * num_cpus,
                    n <= 0x8000_0000,
                    i < sub_n,
                    s <= num_cpus,
                    j < num_cpus,
                    omega_step.val() == fpow(om, (j * sub_n) as nat),
                    sub_n == pow2(log_new_n as nat),
                    elt.val() == fpow(om, shuffle_exp(j as nat, i as nat, s as nat, log_new_n as nat, num_cpus as nat)),
                    acc.val() == shuffled(orig, om, j as nat, i as nat, log_new_n as nat, num_cpus as nat, s as nat),
                decreases num_cpus - s,
            {
                proof {
                    assert(i + s * sub_n < n) by (nonlinear_arith)
                        requires
                            i < sub_n,
                            s < num_cpus,
                            n == sub_n * num_cpus,
                    ;
                }
                let idx = (i + s * sub_n) as usize;
                let t = a[idx].mul(&elt);
                acc = acc.add(&t);
                proof {
                    crate::field::lemma_fpow_add(om,
                        shuffle_exp(j as nat, i as nat, s as nat, log_new_n as nat, num_cpus as nat),
                        (j * sub_n) as nat);
                    assert(shuffle_exp(j as nat, i as nat, s as nat, log_new_n as nat, num_cpus as nat) + (j * sub_n) as nat
                        == shuffle_exp(j as nat, i as nat, (s + 1) as nat, log_new_n as nat, num_cpus as nat)) by (nonlinear_arith)
                        requires
                            sub_n == pow2(log_new_n as nat),
                    ;
                }
                elt = elt.mul(&omega_step);
                s = s + 1;
            }
            proof {
                crate::field::lemma_fpow_add(om,
                    shuffle_exp(j as nat, i as nat, num_cpus as nat, log_new_n as nat, num_cpus as nat),
                    j as nat);
                assert(shuffle_exp(j as nat, i as nat, num_cpus as nat, log_new_n as nat, num_cpus as nat) + j as nat
                    == shuffle_exp(j as nat, (i + 1) as nat, 0, log_new_n as nat, num_cpus as nat)) by (nonlinear_arith)
                    requires
                        sub_n == pow2(log_new_n as nat),
                ;
            }
            elt = elt.mul(&omega_j);
            sub.push(acc);
            i = i + 1;
        }
        proof {
            assert(vals(sub@) =~= sub_input(orig, om, j as nat, log_new_n as nat, num_cpus as nat));
        }
        serial_fft(&mut sub, &new_omega, log_new_n);
        tmp.push(sub);
        j = j + 1;
    }
    let mut idx: u32 = 0;
    while idx < n
        invariant
            a.len() == n,
            n == pow2(log_n as nat),
            num_cpus == pow2(log_cpus as nat),
            sub_n == pow2(log_new_n as nat),
            n == sub_n * num_cpus,
            sub_n >= 1,
            num_cpus >= 1,
            log_new_n == log_n - log_cpus,
            idx <= n,
            tmp@.len() == num_cpus,
            forall|jj: int| 0 <= jj < num_cpus ==> (#[trigger] tmp@[jj])@.len() == sub_n
                && vals(tmp@[jj]@) == fft_spec(sub_input(orig, om, jj as nat, log_new_n as nat, num_cpus as nat),
                    fpow(om, num_cpus as nat), log_new_n as nat),
            forall|t: int| 0 <= t < idx ==> (#[trigger] a@[t]).val()
                == parallel_fft_spec(orig, om, log_n as nat, log_cpus as nat)[t],
        decreases n - idx,
    {
        let q = idx / num_cpus;
        let r = idx % num_cpus;
        proof {
            assert(q < sub_n) by (nonlinear_arith)
                requires
                    q == idx / num_cpus,
                    idx < n,
                    n == sub_n * num_cpus,
                    num_cpus > 0,
            ;
        }
        let v = tmp[r as usize][q as usize];
        a.set(idx as usize, v);
        idx = idx + 1;
    }
    proof {
        assert(vals(a@) =~= parallel_fft_spec(orig, om, log_n as nat, log_cpus as nat));
    }
}

/// `sum_{j < n} a[j] * w^(j k)`, added left to right from zero.
pub open spec fn dft_sum(a: Seq<int>, w: int, k: nat, n: nat) -> int
    decreases n,
{
    if n == 0 {
        0
    } else {
        fadd(dft_sum(a, w, k, (n - 1) as nat), fmul(a[n - 1], fpow(w, ((n - 1) * k) as nat)))
    }
}

/// The discrete Fourier transform of `a` at the root `w`:
/// `out[k] = sum_j a[j] * w^(j k)`.
pub open spec fn dft(a: Seq<int>, w: int) -> Seq<int> {
    Seq::new(a.len(), |k: int| dft_sum(a, w, k as nat, a.len()))
}

/// With as many sub-FFTs as points (`log_cpus == log_n`), the parallel FFT
/// of `a` is exactly its discrete Fourier transform.
pub proof fn lemma_parallel_fft_is_dft(a: Seq<int>, omega: int, log_n: nat)
    requires
        a.len() == pow2(log_n),
    ensures
        parallel_fft_spec(a, omega, log_n, log_n) == dft(a, omega),
{
    let nc = pow2(log_n);
    vstd::arithmetic::power2::lemma2_to64();
    assert(pow2(0) == 1);
    assert forall|idx: int| 0 <= idx < nc implies #[trigger] parallel_fft_spec(a, omega, log_n, log_n)[idx]
        == dft(a, omega)[idx] by {
        vstd::arithmetic::div_mod::lemma_fundamental_div_mod_converse(idx, nc as int, 0, idx);
        let sub = sub_input(a, omega, idx as nat, 0, nc);
        assert(sub.len() == 1);
        assert(swap_pass(sub, 0, 1) == sub) by {
            reveal_with_fuel(swap_pass, 2);
            assert(rev_bits(0, 0) == 0);
        }
        assert(fft_spec(sub, fpow(omega, nc), 0) == sub);
        lemma_shuffled_is_dft_sum(a, omega, idx as nat, nc, nc);
    }
    assert(parallel_fft_spec(a, omega, log_n, log_n) =~= dft(a, omega));
}

/// With sub-FFTs of size one, the shuffle of sub-FFT `j` is the DFT sum at `j`.
proof fn lemma_shuffled_is_dft_sum(a: Seq<int>, omega: int, j: nat, nc: nat, s: nat)
    requires
        pow2(0) == 1,
    ensures
        shuffled(a, omega, j, 0, 0, nc, s) == dft_sum(a, omega, j, s),
    decreases s,
{
    if s > 0 {
        lemma_shuffled_is_dft_sum(a, omega, j, nc, (s - 1) as nat);
        let s1 = (s - 1) as nat;
        assert(shuffle_exp(j, 0, s1, 0, nc) == j * 0 + j * pow2(0) * (0 * nc + s1));
        assert(j * 0 + j * 1 * (0 * nc + s1) == s1 * j) by (nonlinear_arith);
        assert((0 + s1 * pow2(0)) as int == s - 1);
    }
}

/// Which FFT a worker with `2^log_cpus` threads runs on `2^log_n` values:
/// the serial one when the domain is no larger than the thread count.
pub open spec fn best_fft_spec(s: Seq<int>, omega: int, log_n: nat, log_cpus: nat) -> Seq<int> {
    if log_n <= log_cpus {
        fft_spec(s, omega, log_n)
    } else {
        parallel_fft_spec(s, omega, log_n, log_cpus)
    }
}

/// The FFT of `a` with root `omega`, split over the worker's threads when
/// the domain is larger than their number.
fn best_fft(a: &mut Vec<Fr>, worker: &Worker, omega: &Fr, log_n: u32)
    requires
        log_n <= 31,
        old(a).len() == pow2(log_n as nat),
    ensures
        final(a).len() == old(a).len(),
        vals(final(a)@) == best_fft_spec(vals(old(a)@), omega.val(), log_n as nat, worker.log_num_threads as nat),
{
    let log_cpus = worker.log_num_threads();
    if log_n <= log_cpus {
        serial_fft(a, omega, log_n);
    } else {
        parallel_fft(a, omega, log_n, log_cpus);
    }
}

/// The primitive `2^e`-th root of unity of the domain of size `2^e`.
pub open spec fn domain_omega(e: nat) -> int {
    fpow(root_of_unity_value(), pow2((TWO_ADICITY - e) as nat))
}

/// The `i`-th value multiplied by `g^i`.
pub open spec fn powers_scaled(v: Seq<int>, g: int) -> Seq<int> {
    Seq::new(v.len(), |i: int| fmul(v[i], fpow(g, i as nat)))
}

/// The FFT on the domain of size `2^e`, run by a worker with `2^lc` threads.
pub open spec fn fft_on(v: Seq<int>, e: nat, lc: nat) -> Seq<int> {
    best_fft_spec(v, domain_omega(e), e, lc)
}

/// The inverse FFT on the domain of size `2^e`: the FFT with the inverse
/// root, scaled by the inverse of the size.
pub open spec fn ifft_on(v: Seq<int>, e: nat, lc: nat) -> Seq<int> {
    scaled(best_fft_spec(v, finv(domain_omega(e)), e, lc), finv(pow2(e) as int))
}

/// The FFT over the coset shifted by the multiplicative generator.
pub open spec fn coset_fft_on(v: Seq<int>, e: nat, lc: nat) -> Seq<int> {
    fft_on(powers_scaled(v, generator_value()), e, lc)
}

/// The inverse of `coset_fft_on`.
pub open spec fn icoset_fft_on(v: Seq<int>, e: nat, lc: nat) -> Seq<int> {
    powers_scaled(ifft_on(v, e, lc), finv(generator_value()))
}

/// Every value multiplied by `c`.
pub open spec fn scaled(s: Seq<int>, c: int) -> Seq<int> {
    Seq::new(s.len(), |i: int| fmul(s[i], c))
}

/// The vanishing polynomial of the domain of size `2^exp`, evaluated at the
/// field's multiplicative generator.
pub open spec fn coset_vanishing(exp: nat) -> int {
    fsub(fpow(generator_value(), pow2(exp)), 1)
}

/// The base-2 logarithm of the size of the domain that holds `len` values.
pub open spec fn domain_exp(len: nat) -> nat {
    choose|e: nat| is_domain_exp(len, e)
}

/// A domain size fits `len` values in one way only.
pub proof fn lemma_domain_exp_unique(len: nat, e: nat)
    requires
        is_domain_exp(len, e),
    ensures
        domain_exp(len) == e,
{
    let e2 = domain_exp(len);
    assert(is_domain_exp(len, e2));
    if e2 < e {
        vstd::arithmetic::power2::lemma_pow2_strictly_increases(e2, (e - 1) as nat);
        if e2 == (e - 1) as nat {
        }
        assert(pow2(e2) <= pow2((e - 1) as nat)) by {
            if e2 < (e - 1) as nat {
                vstd::arithmetic::power2::lemma_pow2_strictly_increases(e2, (e - 1) as nat);
            }
        }
    } else if e < e2 {
        assert(pow2(e) <= pow2((e2 - 1) as nat)) by {
            if e < (e2 - 1) as nat {
                vstd::arithmetic::power2::lemma_pow2_strictly_increases(e, (e2 - 1) as nat);
            }
        }
    }
}

/// The scheduling capability that parallel sections run on; here it carries
/// the base-2 logarithm of its number of threads.
pub struct Worker {
    pub log_num_threads: u32,
}

impl Worker {
    /// A worker with `2^log_num_threads` threads.
    pub fn new(log_num_threads: u32) -> (w: Worker)
        ensures
            w.log_num_threads == log_num_threads,
    {
        Worker { log_num_threads }
    }

    /// The base-2 logarithm of the number of threads.
    pub fn log_num_threads(&self) -> (r: u32)
        ensures
            r == self.log_num_threads,
    {
        self.log_num_threads
    }
}

/// A radix-2 evaluation domain holding `2^exp` coefficients or evaluations.
pub struct EvaluationDomain {
    coeffs: Vec<Fr>,
    exp: u32,
    omega: Fr,
    omegainv: Fr,
    geninv: Fr,
    minv: Fr,
}

impl EvaluationDomain {
    /// The field values currently held.
    pub closed spec fn values(&self) -> Seq<int> {
        vals(self.coeffs@)
    }

    /// The base-2 logarithm of the domain size.
    pub closed spec fn exp(&self) -> nat {
        self.exp as nat
    }

    /// The primitive `2^exp`-th root of unity of this domain.
    pub closed spec fn omega(&self) -> int {
        self.omega.val()
    }

    /// The inverse of `omega`.
    pub closed spec fn omegainv(&self) -> int {
        self.omegainv.val()
    }

    /// The inverse of the field's multiplicative generator.
    pub closed spec fn geninv(&self) -> int {
        self.geninv.val()
    }

    /// The inverse of the domain size.
    pub closed spec fn minv(&self) -> int {
        self.minv.val()
    }

    /// The domain's invariant: its size is `2^exp` with `exp` below the
    /// 2-adicity, and its stored elements are what their names say.
    pub closed spec fn wf(&self) -> bool {
        &&& self.exp < TWO_ADICITY
        &&& self.coeffs@.len() == pow2(self.exp as nat)
        &&& self.omega.val() == domain_omega(self.exp as nat)
        &&& self.omegainv.val() == finv(self.omega.val())
        &&& self.geninv.val() == finv(generator_value())
        &&& self.minv.val() == finv(pow2(self.exp as nat) as int)
    }

    /// A well-formed domain holds `2^exp` values, with `exp` below the 2-adicity.
    pub proof fn lemma_wf_len(&self)
        requires
            self.wf(),
        ensures
            self.values().len() == pow2(self.exp()),
            self.exp() < TWO_ADICITY,
    {
    }

    /// Builds a domain over `coeffs`, padded with zeros to the next power of
    /// two. Fails when that size would reach `2^32`, the field's 2-adic limit.
    pub fn from_coeffs(coeffs: Vec<Fr>) -> (r: Result<EvaluationDomain, SynthesisError>)
        ensures
            (coeffs.len() > pow2(31)) == (r is Err),
            r is Err ==> r == Err::<EvaluationDomain, SynthesisError>(SynthesisError::PolynomialDegreeTooLarge),
            r matches Ok(d) ==> {
                &&& d.wf()
                &&& is_domain_exp(coeffs.len() as nat, d.exp())
                &&& d.exp() == domain_exp(coeffs.len() as nat)
                &&& fpow(d.omega(), pow2(d.exp())) == 1
                &&& (d.exp() > 0 ==> fpow(d.omega(), pow2((d.exp() - 1) as nat)) != 1)
                &&& d.omegainv() == finv(d.omega())
                &&& d.geninv() == finv(generator_value())
                &&& d.minv() == finv(pow2(d.exp()) as int)
                &&& d.values() == vals(coeffs@) + Seq::new(
                    (pow2(d.exp()) - coeffs.len()) as nat,
                    |i: int| 0int,
                )
            },
    {
        let len = coeffs.len();
        let mut padded = coeffs;
        let mut m: u64 = 1;
        let mut exp: u32 = 0;
        proof {
            vstd::arithmetic::power2::lemma2_to64();
        }
        while m < padded.len() as u64
            invariant
                padded.len() == len,
                len == coeffs.len(),
                exp < TWO_ADICITY,
                m == pow2(exp as nat),
                exp == 0 || pow2((exp - 1) as nat) < len,
                pow2(31) == 0x8000_0000,
                pow2(0) == 1,
            decreases TWO_ADICITY - exp,
        {
            proof {
                lemma_pow2_unfold((exp + 1) as nat);
                if exp < 31 {
                    vstd::arithmetic::power2::lemma_pow2_strictly_increases(exp as nat, 31);
                }
            }
            let ghost old_m = m;
            m = m * 2;
            exp = exp + 1;
            if exp >= TWO_ADICITY {
                assert(old_m == pow2(31));
                assert(old_m < len);
                assert(len > pow2(31));
                return Err(SynthesisError::PolynomialDegreeTooLarge);
            }
        }
        proof {
            if exp < 31 {
                vstd::arithmetic::power2::lemma_pow2_strictly_increases(exp as nat, 31);
            }
        }
        let root = Fr::root_of_unity();
        proof {
            crate::field::lemma_root_of_unity_value();
        }
        let mut omega = root;
        let mut i: u32 = exp;
        while i < TWO_ADICITY
            invariant
                exp <= i <= TWO_ADICITY,
                omega.val() == fsquares(root.val(), (i - exp) as nat),
            decreases TWO_ADICITY - i,
        {
            omega = omega.square();
            i = i + 1;
        }
        proof {
            lemma_fsquares(root.val(), (TWO_ADICITY - exp) as nat);
        }
        let ghost old_vals = vals(padded@);
        while (padded.len() as u64) < m
            invariant
                len <= padded.len() <= m,
                m == pow2(exp as nat),
                vals(padded@) == old_vals + Seq::new((padded.len() - len) as nat, |i: int| 0int),
                old_vals.len() == len,
            decreases m - padded.len(),
        {
            let ghost prev = padded@;
            let z = Fr::zero();
            padded.push(z);
            assert(padded@ == prev.push(z));
            assert(vals(padded@) =~= vals(prev).push(0int));
            assert(vals(padded@) =~= old_vals + Seq::new((padded.len() - len) as nat, |i: int| 0int));
        }
        proof {
            assert(is_domain_exp(len as nat, exp as nat));
            lemma_domain_exp_unique(len as nat, exp as nat);
        }
        proof {
            lemma_domain_omega(exp as nat);
        }
        let omegainv = omega.invert().unwrap();
        let geninv = Fr::multiplicative_generator().invert().unwrap();
        let minv = Fr::from_u64(m).invert().unwrap();
        Ok(EvaluationDomain { coeffs: padded, exp, omega, omegainv, geninv, minv })
    }

    /// The root of unity of this domain.
    pub fn root(&self) -> (r: Fr)
        ensures
            r.val() == self.omega(),
    {
        self.omega
    }

    /// The base-2 logarithm of the domain size.
    pub fn log_size(&self) -> (r: u32)
        ensures
            r == self.exp(),
    {
        self.exp
    }

    /// The coefficients (or evaluations), consuming the domain.
    pub fn into_coeffs(self) -> (r: Vec<Fr>)
        ensures
            vals(r@) == self.values(),
    {
        self.coeffs
    }

    /// The coefficients (or evaluations) held.
    pub fn as_ref(&self) -> (r: &Vec<Fr>)
        ensures
            vals(r@) == self.values(),
    {
        &self.coeffs
    }

    /// The number of points in the domain, `2^exp`.
    pub fn len(&self) -> (r: usize)
        requires
            self.wf(),
        ensures
            r == pow2(self.exp()),
    {
        self.coeffs.len()
    }

    /// The FFT of the held values with root `omega`.
    pub fn fft(&mut self, worker: &Worker)
        requires
            old(self).wf(),
        ensures
            final(self).wf(),
            final(self).exp() == old(self).exp(),
            final(self).omega() == old(self).omega(),
            final(self).omegainv() == old(self).omegainv(),
            final(self).geninv() == old(self).geninv(),
            final(self).minv() == old(self).minv(),
            final(self).values() == fft_on(old(self).values(), old(self).exp(), worker.log_num_threads as nat),
    {
        best_fft(&mut self.coeffs, worker, &self.omega, self.exp);
    }

    /// The inverse FFT: the FFT with root `omega^-1`, scaled by `1/m`.
    pub fn ifft(&mut self, worker: &Worker)
        requires
            old(self).wf(),
        ensures
            final(self).wf(),
            final(self).exp() == old(self).exp(),
            final(self).omega() == old(self).omega(),
            final(self).omegainv() == old(self).omegainv(),
            final(self).geninv() == old(self).geninv(),
            final(self).minv() == old(self).minv(),
            final(self).values() == ifft_on(old(self).values(), old(self).exp(), worker.log_num_threads as nat),
    {
        best_fft(&mut self.coeffs, worker, &self.omegainv, self.exp);
        let minv = self.minv;
        self.scale(&minv);
    }

    /// The FFT over the coset shifted by the field's multiplicative generator.
    pub fn coset_fft(&mut self, worker: &Worker)
        requires
            old(self).wf(),
        ensures
            final(self).wf(),
            final(self).exp() == old(self).exp(),
            final(self).omega() == old(self).omega(),
            final(self).omegainv() == old(self).omegainv(),
            final(self).geninv() == old(self).geninv(),
            final(self).minv() == old(self).minv(),
            final(self).values() == coset_fft_on(old(self).values(), old(self).exp(), worker.log_num_threads as nat),
    {
        self.distribute_powers(Fr::multiplicative_generator());
        self.fft(worker);
    }

    /// The inverse of `coset_fft`: the inverse FFT, then the `i`-th value
    /// multiplied by the generator's inverse to the `i`-th power.
    pub fn icoset_fft(&mut self, worker: &Worker)
        requires
            old(self).wf(),
        ensures
            final(self).wf(),
            final(self).exp() == old(self).exp(),
            final(self).omega() == old(self).omega(),
            final(self).omegainv() == old(self).omegainv(),
            final(self).geninv() == old(self).geninv(),
            final(self).minv() == old(self).minv(),
            final(self).values() == icoset_fft_on(old(self).values(), old(self).exp(), worker.log_num_threads as nat),
    {
        let geninv = self.geninv;
        self.ifft(worker);
        self.distribute_powers(geninv);
    }

    /// Multiplies the `i`-th element by `g^i`.
    pub fn distribute_powers(&mut self, g: Fr)
        requires
            old(self).wf(),
        ensures
            final(self).wf(),
            final(self).exp() == old(self).exp(),
            final(self).omega() == old(self).omega(),
            final(self).omegainv() == old(self).omegainv(),
            final(self).geninv() == old(self).geninv(),
            final(self).minv() == old(self).minv(),
            final(self).values() == powers_scaled(old(self).values(), g.val()),
    {
        let ghost before = vals(self.coeffs@);
        let n = self.coeffs.len();
        let mut u = Fr::one();
        let mut i: usize = 0;
        while i < n
            invariant
                self.wf(),
                self.exp == old(self).exp,
                self.omega == old(self).omega,
                self.omegainv == old(self).omegainv,
                self.geninv == old(self).geninv,
                self.minv == old(self).minv,
                self.coeffs.len() == n,
                before.len() == n,
                0 <= i <= n,
                u.val() == fpow(g.val(), i as nat),
                forall|t: int| 0 <= t < i ==> self.coeffs@[t].val() == fmul(before[t], fpow(g.val(), t as nat)),
                forall|t: int| i <= t < n ==> self.coeffs@[t].val() == before[t],
            decreases n - i,
        {
            let v = self.coeffs[i].mul(&u);
            self.coeffs.set(i, v);
            u = u.mul(&g);
            i = i + 1;
        }
        assert(vals(self.coeffs@) =~= powers_scaled(before, g.val()));
    }

    /// Multiplies every element by `c`.
    fn scale(&mut self, c: &Fr)
        requires
            old(self).wf(),
        ensures
            final(self).wf(),
            final(self).exp() == old(self).exp(),
            final(self).omega() == old(self).omega(),
            final(self).omegainv() == old(self).omegainv(),
            final(self).geninv() == old(self).geninv(),
            final(self).minv() == old(self).minv(),
            final(self).values() == scaled(old(self).values(), c.val()),
    {
        let ghost before = vals(self.coeffs@);
        let n = self.coeffs.len();
        let mut i: usize = 0;
        while i < n
            invariant
                self.wf(),
                self.exp == old(self).exp,
                self.omega == old(self).omega,
                self.omegainv == old(self).omegainv,
                self.geninv == old(self).geninv,
                self.minv == old(self).minv,
                self.coeffs.len() == n,
                before.len() == n,
                0 <= i <= n,
                forall|t: int| 0 <= t < i ==> self.coeffs@[t].val() == fmul(before[t], c.val()),
                forall|t: int| i <= t < n ==> self.coeffs@[t].val() == before[t],
            decreases n - i,
        {
            let v = self.coeffs[i].mul(c);
            self.coeffs.set(i, v);
            i = i + 1;
        }
        assert(vals(self.coeffs@) =~= scaled(before, c.val()));
    }

    /// Evaluates the vanishing polynomial of this domain, `tau^m - 1`, where
    /// `m` is the number of points.
    pub fn z(&self, tau: &Fr) -> (r: Fr)
        requires
            self.wf(),
        ensures
            r.val() == fsub(fpow(tau.val(), pow2(self.exp())), 1),
    {
        let t = tau.pow_vartime(self.coeffs.len() as u64);
        t.sub(&Fr::one())
    }

    /// Divides every element by the vanishing polynomial evaluated at the
    /// field's multiplicative generator: the division of a polynomial held in
    /// evaluations on the coset. Fails when that value is zero.
    pub fn divide_by_z_on_coset(&mut self) -> (r: Result<(), SynthesisError>)
        requires
            old(self).wf(),
        ensures
            final(self).wf(),
            final(self).exp() == old(self).exp(),
            final(self).omega() == old(self).omega(),
            final(self).omegainv() == old(self).omegainv(),
            final(self).geninv() == old(self).geninv(),
            final(self).minv() == old(self).minv(),
            (r is Err) == (coset_vanishing(old(self).exp()) == 0),
            r is Err ==> r == Err::<(), SynthesisError>(SynthesisError::DivisionByZero)
                && final(self).values() == old(self).values(),
            r is Ok ==> final(self).values() == scaled(old(self).values(), finv(coset_vanishing(old(self).exp()))),
    {
        let zg = self.z(&Fr::multiplicative_generator());
        match zg.invert() {
            Some(i) => {
                self.scale(&i);
                Ok(())
            },
            None => Err(SynthesisError::DivisionByZero),
        }
    }

    /// Multiplies pointwise by the elements of `other`, a domain of the same size.
    pub fn mul_assign(&mut self, other: &EvaluationDomain)
        requires
            old(self).wf(),
            other.wf(),
            old(self).exp() == other.exp(),
        ensures
            final(self).wf(),
            final(self).exp() == old(self).exp(),
            final(self).omega() == old(self).omega(),
            final(self).omegainv() == old(self).omegainv(),
            final(self).geninv() == old(self).geninv(),
            final(self).minv() == old(self).minv(),
            final(self).values() == Seq::new(
                old(self).values().len(),
                |i: int| fmul(old(self).values()[i], other.values()[i]),
            ),
    {
        let ghost before = vals(self.coeffs@);
        let n = self.coeffs.len();
        let mut i: usize = 0;
        while i < n
            invariant
                self.wf(),
                other.wf(),
                self.exp == old(self).exp,
                self.omega == old(self).omega,
                self.omegainv == old(self).omegainv,
                self.geninv == old(self).geninv,
                self.minv == old(self).minv,
                self.coeffs.len() == n,
                other.coeffs.len() == n,
                before.len() == n,
                0 <= i <= n,
                forall|t: int| 0 <= t < i ==> self.coeffs@[t].val() == fmul(before[t], other.coeffs@[t].val()),
                forall|t: int| i <= t < n ==> self.coeffs@[t].val() == before[t],
            decreases n - i,
        {
            let v = self.coeffs[i].mul(&other.coeffs[i]);
            self.coeffs.set(i, v);
            i = i + 1;
        }
        assert(vals(self.coeffs@) =~= Seq::new(n as nat, |t: int| fmul(before[t], other.coeffs@[t].val())));
    }

    /// Subtracts pointwise the elements of `other`, a domain of the same size.
    pub fn sub_assign(&mut self, other: &EvaluationDomain)
        requires
            old(self).wf(),
            other.wf(),
            old(self).exp() == other.exp(),
        ensures
            final(self).wf(),
            final(self).exp() == old(self).exp(),
            final(self).omega() == old(self).omega(),
            final(self).omegainv() == old(self).omegainv(),
            final(self).geninv() == old(self).geninv(),
            final(self).minv() == old(self).minv(),
            final(self).values() == Seq::new(
                old(self).values().len(),
                |i: int| fsub(old(self).values()[i], other.values()[i]),
            ),
    {
        let ghost before = vals(self.coeffs@);
        let n = self.coeffs.len();
        let mut i: usize = 0;
        while i < n
            invariant
                self.wf(),
                other.wf(),
                self.exp == old(self).exp,
                self.omega == old(self).omega,
                self.omegainv == old(self).omegainv,
                self.geninv == old(self).geninv,
                self.minv == old(self).minv,
                self.coeffs.len() == n,
                other.coeffs.len() == n,
                before.len() == n,
                0 <= i <= n,
                forall|t: int| 0 <= t < i ==> self.coeffs@[t].val() == fsub(before[t], other.coeffs@[t].val()),
                forall|t: int| i <= t < n ==> self.coeffs@[t].val() == before[t],
            decreases n - i,
        {
            let v = self.coeffs[i].sub(&other.coeffs[i]);
            self.coeffs.set(i, v);
            i = i + 1;
        }
        assert(vals(self.coeffs@) =~= Seq::new(n as nat, |t: int| fsub(before[t], other.coeffs@[t].val())));
    }
}

} // verus!

verus! {

/// The domain's root of unity is nonzero and of order exactly `2^e`.
pub proof fn lemma_domain_omega(e: nat)
    requires
        e < TWO_ADICITY,
    ensures
        domain_omega(e) != 0,
        fpow(domain_omega(e), pow2(e)) == 1,
        e > 0 ==> fpow(domain_omega(e), pow2((e - 1) as nat)) != 1,
{
    let r = root_of_unity_value();
    let k = (32 - e) as nat;
    lemma_constant_squares();
    assert(0 <= r < modulus());
    lemma_fsquares(r, k);
    let w = domain_omega(e);
    crate::field::lemma_fpow_bound(r, pow2(k));
    assert(w == fsquares(r, k));
    lemma_fsquares(w, e);
    lemma_fsquares_add(r, k, e);
    assert(k + e == 32);
    if e > 0 {
        lemma_fsquares(w, (e - 1) as nat);
        lemma_fsquares_add(r, k, (e - 1) as nat);
        assert(k + (e - 1) as nat == 31);
    }
}

/// The vanishing polynomial of a domain of size `2^e`, `e < 32`, is nonzero
/// at the multiplicative generator.
pub proof fn lemma_coset_vanishing(e: nat)
    requires
        e < TWO_ADICITY,
    ensures
        coset_vanishing(e) != 0,
{
    let g = generator_value();
    lemma_constant_squares();
    lemma_fsquares(g, e);
    let x = fpow(g, pow2(e));
    crate::field::lemma_fpow_bound(g, pow2(e));
    assert(x != 1);
    if x == 0 {
        vstd::arithmetic::div_mod::lemma_fundamental_div_mod_converse(-1, modulus(), -1, modulus() - 1);
    } else {
        vstd::arithmetic::div_mod::lemma_small_mod((x - 1) as nat, modulus() as nat);
    }
}

/// Squaring `a` times, then `b` times more, is squaring `a + b` times.
pub proof fn lemma_fsquares_add(x: int, a: nat, b: nat)
    ensures
        fsquares(fsquares(x, a), b) == fsquares(x, a + b),
    decreases b,
{
    if b > 0 {
        lemma_fsquares_add(x, a, (b - 1) as nat);
        assert((a + b - 1) as nat == a + (b - 1) as nat);
    }
}

/// The repeated squares of the root of unity and of the generator, by
/// computation: the root squared 32 times is one and never zero on the way,
/// squared 31 times it is not one, and the generator squared up to 31 times
/// is never one.
pub proof fn lemma_constant_squares()
    ensures
        forall|k: nat| k <= 32 ==> #[trigger] fsquares(root_of_unity_value(), k) != 0,
        fsquares(root_of_unity_value(), 32) == 1,
        fsquares(root_of_unity_value(), 31) != 1,
        forall|k: nat| k <= 31 ==> #[trigger] fsquares(generator_value(), k) != 1,
{
    let r = root_of_unity_value();
    let g = generator_value();
    assert(modulus() == 0x73eda753299d7d483339d80809a1d80553bda402fffe5bfeffffffff00000001int);
    assert(r == 0x16a2a19edfe81f20d09b681922c813b4b63683508c2280b93829971f439f0d2bint);
    assert(fsquares(r, 1) == fmul(fsquares(r, 0), fsquares(r, 0)));
    assert(fsquares(r, 0) == 0x16a2a19edfe81f20d09b681922c813b4b63683508c2280b93829971f439f0d2bint);
    vstd::arithmetic::div_mod::lemma_fundamental_div_mod_converse(0x16a2a19edfe81f20d09b681922c813b4b63683508c2280b93829971f439f0d2bint * 0x16a2a19edfe81f20d09b681922c813b4b63683508c2280b93829971f439f0d2bint, modulus(), 0x46b6a531156833f2ec469fcaf1ad016c0ac8ff8fe9b35ff8ee05ed0d7179bfaint, 0x4b5371495990693fad1715b02e5713b5f070bb00e28a193d63e7cb4906ffc93fint);
    assert(fmul(0x16a2a19edfe81f20d09b681922c813b4b63683508c2280b93829971f439f0d2bint, 0x16a2a19edfe81f20d09b681922c813b4b63683508c2280b93829971f439f0d2bint) == 0x4b5371495990693fad1715b02e5713b5f070bb00e28a193d63e7cb4906ffc93fint);
    assert(fsquares(r, 2) == fmul(fsquares(r, 1), fsquares(r, 1)));
    assert(fsquares(r, 1) == 0x4b5371495990693fad1715b02e5713b5f070bb00e28a193d63e7cb4906ffc93fint);
    vstd::arithmetic::div_mod::lemma_fundamental_div_mod_converse(0x4b5371495990693fad1715b02e5713b5f070bb00e28a193d63e7cb4906ffc93fint * 0x4b5371495990693fad1715b02e5713b5f070bb00e28a193d63e7cb4906ffc93fint, modulus(), 0x30f1ab1595c2d2f989fb50964a7330fca73e88614457bfab9c968b2474ec202bint, 0x2c6d4e4511657e1e1339a815da8b398fed3a181fabb30adc694341f608c9dd56int);
    assert(fmul(0x4b5371495990693fad1715b02e5713b5f070bb00e28a193d63e7cb4906ffc93fint, 0x4b5371495990693fad1715b02e5713b5f070bb00e28a193d63e7cb4906ffc93fint) == 0x2c6d4e4511657e1e1339a815da8b398fed3a181fabb30adc694341f608c9dd56int);
    assert(fsquares(r, 3) == fmul(fsquares(r, 2), fsquares(r, 2)));
    assert(fsquares(r, 2) == 0x2c6d4e4511657e1e1339a815da8b398fed3a181fabb30adc694341f608c9dd56int);
    vstd::arithmetic::div_mod::lemma_fundamental_div_mod_converse(0x2c6d4e4511657e1e1339a815da8b398fed3a181fabb30adc694341f608c9dd56int * 0x2c6d4e4511657e1e1339a815da8b398fed3a181fabb30adc694341f608c9dd56int, modulus(), 0x110691833f37afdebb20c8e046d2b3e6decaddee100e33d6994171de12db77c9int, 0xc83ea7744bf1bee8da40c1ef2bb459884d37b826214abc6474650359d8e211bint);
    assert(fmul(0x2c6d4e4511657e1e1339a815da8b398fed3a181fabb30adc694341f608c9dd56int, 0x2c6d4e4511657e1e1339a815da8b398fed3a181fabb30adc694341f608c9dd56int) == 0xc83ea7744bf1bee8da40c1ef2bb459884d37b826214abc6474650359d8e211bint);
    assert(fsquares(r, 4) == fmul(fsquares(r, 3), fsquares(r, 3)));
    assert(fsquares(r, 3) == 0xc83ea7744bf1bee8da40c1ef2bb459884d37b826214abc6474650359d8e211bint);
    vstd::arithmetic::div_mod::lemma_fundamental_div_mod_converse(0xc83ea7744bf1bee8da40c1ef2bb459884d37b826214abc6474650359d8e211bint * 0xc83ea7744bf1bee8da40c1ef2bb459884d37b826214abc6474650359d8e211bint, modulus(), 0x159e2bf6a5370d130211f45b03eac7387e0a96213c5fb1b817c887ed1ecd850int, 0x52dd465e2f09425699e276b571905a7d6558e9e3f6ac7b41d7b688830a4f2089int);
    assert(fmul(0xc83ea7744bf1bee8da40c1ef2bb459884d37b826214abc6474650359d8e211bint, 0xc83ea7744bf1bee8da40c1ef2bb459884d37b826214abc6474650359d8e211bint) == 0x52dd465e2f09425699e276b571905a7d6558e9e3f6ac7b41d7b688830a4f2089int);
    assert(fsquares(r, 5) == fmul(fsquares(r, 4), fsquares(r, 4)));
    assert(fsquares(r, 4) == 0x52dd465e2f09425699e276b571905a7d6558e9e3f6ac7b41d7b688830a4f2089int);
    vstd::arithmetic::div_mod::lemma_fundamental_div_mod_converse(0x52dd465e2f09425699e276b571905a7d6558e9e3f6ac7b41d7b688830a4f2089int * 0x52dd465e2f09425699e276b571905a7d6558e9e3f6ac7b41d7b688830a4f2089int, modulus(), 0x3b3b06a28b2a02bf5a5e6c922e12eda976394d9d1a2eff104b9feb132dad6f64int, 0x23397a9300f8f98bece8ea224f31d25db94f1101b1d7a628e2d0a7869f0319edint);
    assert(fmul(0x52dd465e2f09425699e276b571905a7d6558e9e3f6ac7b41d7b688830a4f2089int, 0x52dd465e2f09425699e276b571905a7d6558e9e3f6ac7b41d7b688830a4f2089int) == 0x23397a9300f8f98bece8ea224f31d25db94f1101b1d7a628e2d0a7869f0319edint);
    assert(fsquares(r, 6) == fmul(fsquares(r, 5), fsquares(r, 5)));
    assert(fsquares(r, 5) == 0x23397a9300f8f98bece8ea224f31d25db94f1101b1d7a628e2d0a7869f0319edint);
    vstd::arithmetic::div_mod::lemma_fundamental_div_mod_converse(0x23397a9300f8f98bece8ea224f31d25db94f1101b1d7a628e2d0a7869f0319edint * 0x23397a9300f8f98bece8ea224f31d25db94f1101b1d7a628e2d0a7869f0319edint, modulus(), 0xab3f0119626603c452151d90394c5fe5f63d733517d87cc5933f6a03156d3e7int, 0xa0a77a3b1980c0d116168bffbedc11d02c8118402867ddc531a11a0d2d75182int);
    assert(fmul(0x23397a9300f8f98bece8ea224f31d25db94f1101b1d7a628e2d0a7869f0319edint, 0x23397a9300f8f98bece8ea224f31d25db94f1101b1d7a628e2d0a7869f0319edint) == 0xa0a77a3b1980c0d116168bffbedc11d02c8118402867ddc531a11a0d2d75182int);
    assert(fsquares(r, 7) == fmul(fsquares(r, 6), fsquares(r, 6)));
    assert(fsquares(r, 6) == 0xa0a77a3b1980c0d116168bffbedc11d02c8118402867ddc531a11a0d2d75182int);
    vstd::arithmetic::div_mod::lemma_fundamental_div_mod_converse(0xa0a77a3b1980c0d116168bffbedc11d02c8118402867ddc531a11a0d2d75182int * 0xa0a77a3b1980c0d116168bffbedc11d02c8118402867ddc531a11a0d2d75182int, modulus(), 0xdea2b6fae4c13adeb5ceea0db4ad434f85d64802013a04dc120eb4fc3de0e6int, 0x19fe632fd3287390454dc1edc61a1a3c0ba12bb3da64ca5ce32ef844e11a51eint);
    assert(fmul(0xa0a77a3b1980c0d116168bffbedc11d02c8118402867ddc531a11a0d2d75182int, 0xa0a77a3b1980c0d116168bffbedc11d02c8118402867ddc531a11a0d2d75182int) == 0x19fe632fd3287390454dc1edc61a1a3c0ba12bb3da64ca5ce32ef844e11a51eint);
    assert(fsquares(r, 8) == fmul(fsquares(r, 7), fsquares(r, 7)));
    assert(fsquares(r, 7) == 0x19fe632fd3287390454dc1edc61a1a3c0ba12bb3da64ca5ce32ef844e11a51eint);
    vstd::arithmetic::div_mod::lemma_fundamental_div_mod_converse(0x19fe632fd3287390454dc1edc61a1a3c0ba12bb3da64ca5ce32ef844e11a51eint * 0x19fe632fd3287390454dc1edc61a1a3c0ba12bb3da64ca5ce32ef844e11a51eint, modulus(), 0x5d40fa3da1bdb3e982d8325993408e8d10daae5d0d25fe9f5f6c228be37e8int, 0x291cf6d68823e6876e0bcd91ee76273072cf6a8029b7d7bc92cf4deb77bd779cint);
    assert(fmul(0x19fe632fd3287390454dc1edc61a1a3c0ba12bb3da64ca5ce32ef844e11a51eint, 0x19fe632fd3287390454dc1edc61a1a3c0ba12bb3da64ca5ce32ef844e11a51eint) == 0x291cf6d68823e6876e0bcd91ee76273072cf6a8029b7d7bc92cf4deb77bd779cint);
    assert(fsquares(r, 9) == fmul(fsquares(r, 8), fsquares(r, 8)));
    assert(fsquares(r, 8) == 0x291cf6d68823e6876e0bcd91ee76273072cf6a8029b7d7bc92cf4deb77bd779cint);
    vstd::arithmetic::div_mod::lemma_fundamental_div_mod_converse(0x291cf6d68823e6876e0bcd91ee76273072cf6a8029b7d7bc92cf4deb77bd779cint * 0x291cf6d68823e6876e0bcd91ee76273072cf6a8029b7d7bc92cf4deb77bd779cint, modulus(), 0xe949a21ffecedd8a6ebeda0253d24770c6475e7105136d20b4e24b8fb4dc862int, 0x73560252aa0655b25121af06a3b51e3cc631ffb2585a72db5616c57de0ec9eaeint);
    assert(fmul(0x291cf6d68823e6876e0bcd91ee76273072cf6a8029b7d7bc92cf4deb77bd779cint, 0x291cf6d68823e6876e0bcd91ee76273072cf6a8029b7d7bc92cf4deb77bd779cint) == 0x73560252aa0655b25121af06a3b51e3cc631ffb2585a72db5616c57de0ec9eaeint);
    assert(fsquares(r, 10) == fmul(fsquares(r, 9), fsquares(r, 9)));
    assert(fsquares(r, 9) == 0x73560252aa0655b25121af06a3b51e3cc631ffb2585a72db5616c57de0ec9eaeint);
    vstd::arithmetic::div_mod::lemma_fundamental_div_mod_converse(0x73560252aa0655b25121af06a3b51e3cc631ffb2585a72db5616c57de0ec9eaeint * 0x73560252aa0655b25121af06a3b51e3cc631ffb2585a72db5616c57de0ec9eaeint, modulus(), 0x72bf23af7a589fbb742d2d81ca32150255935a678663bc32c2871632c29d0ae1int, 0xabe6a5e5abcaa32f2d38f10fbb8d1bbe08fec7c86389beec6e7a6ffb08e3363int);
    assert(fmul(0x73560252aa0655b25121af06a3b51e3cc631ffb2585a72db5616c57de0ec9eaeint, 0x73560252aa0655b25121af06a3b51e3cc631ffb2585a72db5616c57de0ec9eaeint) == 0xabe6a5e5abcaa32f2d38f10fbb8d1bbe08fec7c86389beec6e7a6ffb08e3363int);
    assert(fsquares(r, 11) == fmul(fsquares(r, 10), fsquares(r, 10)));
    assert(fsquares(r, 10) == 0xabe6a5e5abcaa32f2d38f10fbb8d1bbe08fec7c86389beec6e7a6ffb08e3363int);
    vstd::arithmetic::div_mod::lemma_fundamental_div_mod_converse(0xabe6a5e5abcaa32f2d38f10fbb8d1bbe08fec7c86389beec6e7a6ffb08e3363int * 0xabe6a5e5abcaa32f2d38f10fbb8d1bbe08fec7c86389beec6e7a6ffb08e3363int, modulus(), 0xfee5fb5d0ea236f1b501ec83e593c87e931ac7e47af231b20917dbfee5f80fint, 0x47c8b5817018af4fc70d0874b0691d4e46b3105f04db5844cd3979122d3ea03aint);
    assert(fmul(0xabe6a5e5abcaa32f2d38f10fbb8d1bbe08fec7c86389beec6e7a6ffb08e3363int, 0xabe6a5e5abcaa32f2d38f10fbb8d1bbe08fec7c86389beec6e7a6ffb08e3363int) == 0x47c8b5817018af4fc70d0874b0691d4e46b3105f04db5844cd3979122d3ea03aint);
    assert(fsquares(r, 12) == fmul(fsquares(r, 11), fsquares(r, 11)));
    assert(fsquares(r, 11) == 0x47c8b5817018af4fc70d0874b0691d4e46b3105f04db5844cd3979122d3ea03aint);
    vstd::arithmetic::div_mod::lemma_fundamental_div_mod_converse(0x47c8b5817018af4fc70d0874b0691d4e46b3105f04db5844cd3979122d3ea03aint * 0x47c8b5817018af4fc70d0874b0691d4e46b3105f04db5844cd3979122d3ea03aint, modulus(), 0x2c730c3140a37a7f3f53fcbdea18424e87b457e70cd38cf80220f1992ad6ffd9int, 0x3e1c54bcb947035a57a6e07cb98de4a2f69e02d265e09d9fece7e0e39898d4bint);
    assert(fmul(0x47c8b5817018af4fc70d0874b0691d4e46b3105f04db5844cd3979122d3ea03aint, 0x47c8b5817018af4fc70d0874b0691d4e46b3105f04db5844cd3979122d3ea03aint) == 0x3e1c54bcb947035a57a6e07cb98de4a2f69e02d265e09d9fece7e0e39898d4bint);
    assert(fsquares(r, 13) == fmul(fsquares(r, 12), fsquares(r, 12)));
    assert(fsquares(r, 12) == 0x3e1c54bcb947035a57a6e07cb98de4a2f69e02d265e09d9fece7e0e39898d4bint);
    vstd::arithmetic::div_mod::lemma_fundamental_div_mod_converse(0x3e1c54bcb947035a57a6e07cb98de4a2f69e02d265e09d9fece7e0e39898d4bint * 0x3e1c54bcb947035a57a6e07cb98de4a2f69e02d265e09d9fece7e0e39898d4bint, modulus(), 0x2146e2a0b8e0de7288868eee118eaaab19d42369bf1a60e0036d01018e265cint, 0x520e587a724a6955df625e80d0adef90ad8e16e84419c750194e8c62ecb38d9dint);
    assert(fmul(0x3e1c54bcb947035a57a6e07cb98de4a2f69e02d265e09d9fece7e0e39898d4bint, 0x3e1c54bcb947035a57a6e07cb98de4a2f69e02d265e09d9fece7e0e39898d4bint) == 0x520e587a724a6955df625e80d0adef90ad8e16e84419c750194e8c62ecb38d9dint);
    assert(fsquares(r, 14) == fmul(fsquares(r, 13), fsquares(r, 13)));
    assert(fsquares(r, 13) == 0x520e587a724a6955df625e80d0adef90ad8e16e84419c750194e8c62ecb38d9dint);
    vstd::arithmetic::div_mod::lemma_fundamental_div_mod_converse(0x520e587a724a6955df625e80d0adef90ad8e16e84419c750194e8c62ecb38d9dint * 0x520e587a724a6955df625e80d0adef90ad8e16e84419c750194e8c62ecb38d9dint, modulus(), 0x3a14a5a3be2166a2bb8b08bf05a97855021e83cee04f46af3e8f720d40eddd4eint, 0x2d3056a530794f01652f717ae1c34bb0bb97a3bf30ce40fd6f421a7d8ef674fbint);
    assert(fmul(0x520e587a724a6955df625e80d0adef90ad8e16e84419c750194e8c62ecb38d9dint, 0x520e587a724a6955df625e80d0adef90ad8e16e84419c750194e8c62ecb38d9dint) == 0x2d3056a530794f01652f717ae1c34bb0bb97a3bf30ce40fd6f421a7d8ef674fbint);
    assert(fsquares(r, 15) == fmul(fsquares(r, 14), fsquares(r, 14)));
    assert(fsquares(r, 14) == 0x2d3056a530794f01652f717ae1c34bb0bb97a3bf30ce40fd6f421a7d8ef674fbint);
    vstd::arithmetic::div_mod::lemma_fundamental_div_mod_converse(0x2d3056a530794f01652f717ae1c34bb0bb97a3bf30ce40fd6f421a7d8ef674fbint * 0x2d3056a530794f01652f717ae1c34bb0bb97a3bf30ce40fd6f421a7d8ef674fbint, modulus(), 0x119d5585e49aad5f9259d189b881bf07e02bc04bae10b9fb776bcb2c88215f09int, 0x224262332d8acbf4473a2eef772c33d6cd7f2bd6d0711b7d08692405f3b70f10int);
    assert(fmul(0x2d3056a530794f01652f717ae1c34bb0bb97a3bf30ce40fd6f421a7d8ef674fbint, 0x2d3056a530794f01652f717ae1c34bb0bb97a3bf30ce40fd6f421a7d8ef674fbint) == 0x224262332d8acbf4473a2eef772c33d6cd7f2bd6d0711b7d08692405f3b70f10int);
    assert(fsquares(r, 16) == fmul(fsquares(r, 15), fsquares(r, 15)));
    assert(fsquares(r, 15) == 0x224262332d8acbf4473a2eef772c33d6cd7f2bd6d0711b7d08692405f3b70f10int);
    vstd::arithmetic::div_mod::lemma_fundamental_div_mod_converse(0x224262332d8acbf4473a2eef772c33d6cd7f2bd6d0711b7d08692405f3b70f10int * 0x224262332d8acbf4473a2eef772c33d6cd7f2bd6d0711b7d08692405f3b70f10int, modulus(), 0xa1fd62a66e50b750997f40fc9e83eea0500b811d36d501789a2b8ec1c2c2853int, 0x2155379d12180caa88f39a78f1aeb57867a665ae1fcadc91d7118f85cd96b8adint);
    assert(fmul(0x224262332d8acbf4473a2eef772c33d6cd7f2bd6d0711b7d08692405f3b70f10int, 0x224262332d8acbf4473a2eef772c33d6cd7f2bd6d0711b7d08692405f3b70f10int) == 0x2155379d12180caa88f39a78f1aeb57867a665ae1fcadc91d7118f85cd96b8adint);
    assert(fsquares(r, 17) == fmul(fsquares(r, 16), fsquares(r, 16)));
    assert(fsquares(r, 16) == 0x2155379d12180caa88f39a78f1aeb57867a665ae1fcadc91d7118f85cd96b8adint);
    vstd::arithmetic::div_mod::lemma_fundamental_div_mod_converse(0x2155379d12180caa88f39a78f1aeb57867a665ae1fcadc91d7118f85cd96b8adint * 0x2155379d12180caa88f39a78f1aeb57867a665ae1fcadc91d7118f85cd96b8adint, modulus(), 0x9958e6f287860573c01eaa5568342998d1392b9d3fcdc8db6ad07ddef7b697bint, 0x3291357ee558b50d483405417a0cbe39c8d5f51db3f32699fbd047e11279bb6eint);
    assert(fmul(0x2155379d12180caa88f39a78f1aeb57867a665ae1fcadc91d7118f85cd96b8adint, 0x2155379d12180caa88f39a78f1aeb57867a665ae1fcadc91d7118f85cd96b8adint) == 0x3291357ee558b50d483405417a0cbe39c8d5f51db3f32699fbd047e11279bb6eint);
    assert(fsquares(r, 18) == fmul(fsquares(r, 17), fsquares(r, 17)));
    assert(fsquares(r, 17) == 0x3291357ee558b50d483405417a0cbe39c8d5f51db3f32699fbd047e11279bb6eint);
    vstd::arithmetic::div_mod::lemma_fundamental_div_mod_converse(0x3291357ee558b50d483405417a0cbe39c8d5f51db3f32699fbd047e11279bb6eint * 0x3291357ee558b50d483405417a0cbe39c8d5f51db3f32699fbd047e11279bb6eint, modulus(), 0x160e9ebe700aee0e8574c66da309cd89d6ed44211ce409304995ad0b04db0963int, 0x56624634b500a166dc86b01c0d477fa6ae4622f6a9152435034d2ff22a5ad9e1int);
    assert(fmul(0x3291357ee558b50d483405417a0cbe39c8d5f51db3f32699fbd047e11279bb6eint, 0x3291357ee558b50d483405417a0cbe39c8d5f51db3f32699fbd047e11279bb6eint) == 0x56624634b500a166dc86b01c0d477fa6ae4622f6a9152435034d2ff22a5ad9e1int);
    assert(fsquares(r, 19) == fmul(fsquares(r, 18), fsquares(r, 18)));
    assert(fsquares(r, 18) == 0x56624634b500a166dc86b01c0d477fa6ae4622f6a9152435034d2ff22a5ad9e1int);
    vstd::arithmetic::div_mod::lemma_fundamental_div_mod_converse(0x56624634b500a166dc86b01c0d477fa6ae4622f6a9152435034d2ff22a5ad9e1int * 0x56624634b500a166dc86b01c0d477fa6ae4622f6a9152435034d2ff22a5ad9e1int, modulus(), 0x405e6df92310b5afd19ea62edd2f1b3fc5abdf7db6a963f5565a28b9f816ae5aint, 0x485d512737b1da3d2ccddea2972e89ed146b58bc434906ac6fdd00bfc78c8967int);
    assert(fmul(0x56624634b500a166dc86b01c0d477fa6ae4622f6a9152435034d2ff22a5ad9e1int, 0x56624634b500a166dc86b01c0d477fa6ae4622f6a9152435034d2ff22a5ad9e1int) == 0x485d512737b1da3d2ccddea2972e89ed146b58bc434906ac6fdd00bfc78c8967int);
    assert(fsquares(r, 20) == fmul(fsquares(r, 19), fsquares(r, 19)));
    assert(fsquares(r, 19) == 0x485d512737b1da3d2ccddea2972e89ed146b58bc434906ac6fdd00bfc78c8967int);
    vstd::arithmetic::div_mod::lemma_fundamental_div_mod_converse(0x485d512737b1da3d2ccddea2972e89ed146b58bc434906ac6fdd00bfc78c8967int * 0x485d512737b1da3d2ccddea2972e89ed146b58bc434906ac6fdd00bfc78c8967int, modulus(), 0x2d2bd4bacd6e3f84defbd926f073f958e1d4245c641a3b8419a3fcd00e94046bint, 0x564c0a11a0f704f4fc3e8acfe0f8245f0ad1347b378fbf96e206da11a5d36306int);
    assert(fmul(0x485d512737b1da3d2ccddea2972e89ed146b58bc434906ac6fdd00bfc78c8967int, 0x485d512737b1da3d2ccddea2972e89ed146b58bc434906ac6fdd00bfc78c8967int) == 0x564c0a11a0f704f4fc3e8acfe0f8245f0ad1347b378fbf96e206da11a5d36306int);
    assert(fsquares(r, 21) == fmul(fsquares(r, 20), fsquares(r, 20)));
    assert(fsquares(r, 20) == 0x564c0a11a0f704f4fc3e8acfe0f8245f0ad1347b378fbf96e206da11a5d36306int);
    vstd::arithmetic::div_mod::lemma_fundamental_div_mod_converse(0x564c0a11a0f704f4fc3e8acfe0f8245f0ad1347b378fbf96e206da11a5d36306int * 0x564c0a11a0f704f4fc3e8acfe0f8245f0ad1347b378fbf96e206da11a5d36306int, modulus(), 0x403d4f41dc6a8cda3cf38f8e270787fdc5640c7098f15d5c2c4c29dfc4642a3fint, 0x6d031f1b5c49c83409f1ca610a08f16655ea6811be9c622d4a838b5d59cd79e5int);
    assert(fmul(0x564c0a11a0f704f4fc3e8acfe0f8245f0ad1347b378fbf96e206da11a5d36306int, 0x564c0a11a0f704f4fc3e8acfe0f8245f0ad1347b378fbf96e206da11a5d36306int) == 0x6d031f1b5c49c83409f1ca610a08f16655ea6811be9c622d4a838b5d59cd79e5int);
    assert(fsquares(r, 22) == fmul(fsquares(r, 21), fsquares(r, 21)));
    assert(fsquares(r, 21) == 0x6d031f1b5c49c83409f1ca610a08f16655ea6811be9c622d4a838b5d59cd79e5int);
    vstd::arithmetic::div_mod::lemma_fundamental_div_mod_converse(0x6d031f1b5c49c83409f1ca610a08f16655ea6811be9c622d4a838b5d59cd79e5int * 0x6d031f1b5c49c83409f1ca610a08f16655ea6811be9c622d4a838b5d59cd79e5int, modulus(), 0x668237981ad07340e3bec76b2e667c1f236eb1410dc3572970685a2e07096e85int, 0x325db5c3debf77a18f4de02c0f776af3ea437f9626fc085e3c28d666a5c2d854int);
    assert(fmul(0x6d031f1b5c49c83409f1ca610a08f16655ea6811be9c622d4a838b5d59cd79e5int, 0x6d031f1b5c49c83409f1ca610a08f16655ea6811be9c622d4a838b5d59cd79e5int) == 0x325db5c3debf77a18f4de02c0f776af3ea437f9626fc085e3c28d666a5c2d854int);
    assert(fsquares(r, 23) == fmul(fsquares(r, 22), fsquares(r, 22)));
    assert(fsquares(r, 22) == 0x325db5c3debf77a18f4de02c0f776af3ea437f9626fc085e3c28d666a5c2d854int);
    vstd::arithmetic::div_mod::lemma_fundamental_div_mod_converse(0x325db5c3debf77a18f4de02c0f776af3ea437f9626fc085e3c28d666a5c2d854int * 0x325db5c3debf77a18f4de02c0f776af3ea437f9626fc085e3c28d666a5c2d854int, modulus(), 0x15e1c84c3f26c9b1e00eae02d90a05e7542a1f75ba7e56e4a881715baf3d9842int, 0x95166525526a65439feec240d80689fd697168a3a6000fe4541b8ff2ee0434eint);
    assert(fmul(0x325db5c3debf77a18f4de02c0f776af3ea437f9626fc085e3c28d666a5c2d854int, 0x325db5c3debf77a18f4de02c0f776af3ea437f9626fc085e3c28d666a5c2d854int) == 0x95166525526a65439feec240d80689fd697168a3a6000fe4541b8ff2ee0434eint);
    assert(fsquares(r, 24) == fmul(fsquares(r, 23), fsquares(r, 23)));
    assert(fsquares(r, 23) == 0x95166525526a65439feec240d80689fd697168a3a6000fe4541b8ff2ee0434eint);
    vstd::arithmetic::div_mod::lemma_fundamental_div_mod_converse(0x95166525526a65439feec240d80689fd697168a3a6000fe4541b8ff2ee0434eint * 0x95166525526a65439feec240d80689fd697168a3a6000fe4541b8ff2ee0434eint, modulus(), 0xbfbb2ef2ee09fe34f8f27564be4b574bb19a28a01c91801d34575360b28279int, 0x4f9b4098e2e9f12e6b368121ac0cf4ad0a0865a899e8deff4935bd2f817f694bint);
    assert(fmul(0x95166525526a65439feec240d80689fd697168a3a6000fe4541b8ff2ee0434eint, 0x95166525526a65439feec240d80689fd697168a3a6000fe4541b8ff2ee0434eint) == 0x4f9b4098e2e9f12e6b368121ac0cf4ad0a0865a899e8deff4935bd2f817f694bint);
    assert(fsquares(r, 25) == fmul(fsquares(r, 24), fsquares(r, 24)));
    assert(fsquares(r, 24) == 0x4f9b4098e2e9f12e6b368121ac0cf4ad0a0865a899e8deff4935bd2f817f694bint);
    vstd::arithmetic::div_mod::lemma_fundamental_div_mod_converse(0x4f9b4098e2e9f12e6b368121ac0cf4ad0a0865a899e8deff4935bd2f817f694bint * 0x4f9b4098e2e9f12e6b368121ac0cf4ad0a0865a899e8deff4935bd2f817f694bint, modulus(), 0x36aa29c22b40321ba61b5f8d4f77795c110acbf388c9e1c8d157c28ad3b7763bint, 0x6898111413588742b7c68b4d7fdd60d098d0caac87f5713c5130c2c1660125beint);
    assert(fmul(0x4f9b4098e2e9f12e6b368121ac0cf4ad0a0865a899e8deff4935bd2f817f694bint, 0x4f9b4098e2e9f12e6b368121ac0cf4ad0a0865a899e8deff4935bd2f817f694bint) == 0x6898111413588742b7c68b4d7fdd60d098d0caac87f5713c5130c2c1660125beint);
    assert(fsquares(r, 26) == fmul(fsquares(r, 25), fsquares(r, 25)));
    assert(fsquares(r, 25) == 0x6898111413588742b7c68b4d7fdd60d098d0caac87f5713c5130c2c1660125beint);
    vstd::arithmetic::div_mod::lemma_fundamental_div_mod_converse(0x6898111413588742b7c68b4d7fdd60d098d0caac87f5713c5130c2c1660125beint * 0x6898111413588742b7c68b4d7fdd60d098d0caac87f5713c5130c2c1660125beint, modulus(), 0x5e5e2b110231c03083ccd5493c04a498ead16b7e63ad3a7f5df5850ec8628ab1int, 0x45af6345ec055e4d14a1e27164d8fdbd2d967f4be2f951558140d032f0a9ee53int);
    assert(fmul(0x6898111413588742b7c68b4d7fdd60d098d0caac87f5713c5130c2c1660125beint, 0x6898111413588742b7c68b4d7fdd60d098d0caac87f5713c5130c2c1660125beint) == 0x45af6345ec055e4d14a1e27164d8fdbd2d967f4be2f951558140d032f0a9ee53int);
    assert(fsquares(r, 27) == fmul(fsquares(r, 26), fsquares(r, 26)));
    assert(fsquares(r, 26) == 0x45af6345ec055e4d14a1e27164d8fdbd2d967f4be2f951558140d032f0a9ee53int);
    vstd::arithmetic::div_mod::lemma_fundamental_div_mod_converse(0x45af6345ec055e4d14a1e27164d8fdbd2d967f4be2f951558140d032f0a9ee53int * 0x45af6345ec055e4d14a1e27164d8fdbd2d967f4be2f951558140d032f0a9ee53int, modulus(), 0x29e358a60746b7fbcb35f71de474d1454e6ba9a6ad4648a255653715b40a8f9bint, 0x50e0903a157988bab4bcd40e22f55448bf6e88fb4c38fb8a360c60997369df4eint);
    assert(fmul(0x45af6345ec055e4d14a1e27164d8fdbd2d967f4be2f951558140d032f0a9ee53int, 0x45af6345ec055e4d14a1e27164d8fdbd2d967f4be2f951558140d032f0a9ee53int) == 0x50e0903a157988bab4bcd40e22f55448bf6e88fb4c38fb8a360c60997369df4eint);
    assert(fsquares(r, 28) == fmul(fsquares(r, 27), fsquares(r, 27)));
    assert(fsquares(r, 27) == 0x50e0903a157988bab4bcd40e22f55448bf6e88fb4c38fb8a360c60997369df4eint);
    vstd::arithmetic::div_mod::lemma_fundamental_div_mod_converse(0x50e0903a157988bab4bcd40e22f55448bf6e88fb4c38fb8a360c60997369df4eint * 0x50e0903a157988bab4bcd40e22f55448bf6e88fb4c38fb8a360c60997369df4eint, modulus(), 0x386c80aaeff17f5277bec07697315a9256acbcf5e7689d06a0f792c28d823ef6int, 0x20b1ce9140267af9dd1c0af834cec32c17beb312f20b6f7653ea61d87742bcceint);
    assert(fmul(0x50e0903a157988bab4bcd40e22f55448bf6e88fb4c38fb8a360c60997369df4eint, 0x50e0903a157988bab4bcd40e22f55448bf6e88fb4c38fb8a360c60997369df4eint) == 0x20b1ce9140267af9dd1c0af834cec32c17beb312f20b6f7653ea61d87742bcceint);
    assert(fsquares(r, 29) == fmul(fsquares(r, 28), fsquares(r, 28)));
    assert(fsquares(r, 28) == 0x20b1ce9140267af9dd1c0af834cec32c17beb312f20b6f7653ea61d87742bcceint);
    vstd::arithmetic::div_mod::lemma_fundamental_div_mod_converse(0x20b1ce9140267af9dd1c0af834cec32c17beb312f20b6f7653ea61d87742bcceint * 0x20b1ce9140267af9dd1c0af834cec32c17beb312f20b6f7653ea61d87742bcceint, modulus(), 0x9387c422d7cefe2c20eb21442545c8638ea24eb341e34ae27b3cda3d202f64aint, 0x345766f603fa66e78c0625cd70d77ce2b38b21c28713b7007228fd3397743f7aint);
    assert(fmul(0x20b1ce9140267af9dd1c0af834cec32c17beb312f20b6f7653ea61d87742bcceint, 0x20b1ce9140267af9dd1c0af834cec32c17beb312f20b6f7653ea61d87742bcceint) == 0x345766f603fa66e78c0625cd70d77ce2b38b21c28713b7007228fd3397743f7aint);
    assert(fsquares(r, 30) == fmul(fsquares(r, 29), fsquares(r, 29)));
    assert(fsquares(r, 29) == 0x345766f603fa66e78c0625cd70d77ce2b38b21c28713b7007228fd3397743f7aint);
    vstd::arithmetic::div_mod::lemma_fundamental_div_mod_converse(0x345766f603fa66e78c0625cd70d77ce2b38b21c28713b7007228fd3397743f7aint * 0x345766f603fa66e78c0625cd70d77ce2b38b21c28713b7007228fd3397743f7aint, modulus(), 0x17a1cdc048cdb1278454e23dc04aaf593e9344a7a37aaf2d77cf0c6b824d4624int, 0x8d51ccce760304d0ec030002760300000001000000000000int);
    assert(fmul(0x345766f603fa66e78c0625cd70d77ce2b38b21c28713b7007228fd3397743f7aint, 0x345766f603fa66e78c0625cd70d77ce2b38b21c28713b7007228fd3397743f7aint) == 0x8d51ccce760304d0ec030002760300000001000000000000int);
    assert(fsquares(r, 31) == fmul(fsquares(r, 30), fsquares(r, 30)));
    assert(fsquares(r, 30) == 0x8d51ccce760304d0ec030002760300000001000000000000int);
    vstd::arithmetic::div_mod::lemma_fundamental_div_mod_converse(0x8d51ccce760304d0ec030002760300000001000000000000int * 0x8d51ccce760304d0ec030002760300000001000000000000int, modulus(), 0xac45a4010001a4020000000100000000int, 0x73eda753299d7d483339d80809a1d80553bda402fffe5bfeffffffff00000000int);
    assert(fmul(0x8d51ccce760304d0ec030002760300000001000000000000int, 0x8d51ccce760304d0ec030002760300000001000000000000int) == 0x73eda753299d7d483339d80809a1d80553bda402fffe5bfeffffffff00000000int);
    assert(fsquares(r, 32) == fmul(fsquares(r, 31), fsquares(r, 31)));
    assert(fsquares(r, 31) == 0x73eda753299d7d483339d80809a1d80553bda402fffe5bfeffffffff00000000int);
    vstd::arithmetic::div_mod::lemma_fundamental_div_mod_converse(0x73eda753299d7d483339d80809a1d80553bda402fffe5bfeffffffff00000000int * 0x73eda753299d7d483339d80809a1d80553bda402fffe5bfeffffffff00000000int, modulus(), 0x73eda753299d7d483339d80809a1d80553bda402fffe5bfefffffffeffffffffint, 0x1int);
    assert(fmul(0x73eda753299d7d483339d80809a1d80553bda402fffe5bfeffffffff00000000int, 0x73eda753299d7d483339d80809a1d80553bda402fffe5bfeffffffff00000000int) == 0x1int);
    assert(fsquares(g, 1) == fmul(fsquares(g, 0), fsquares(g, 0)));
    assert(fsquares(g, 0) == 0x7int);
    vstd::arithmetic::div_mod::lemma_fundamental_div_mod_converse(0x7int * 0x7int, modulus(), 0x0int, 0x31int);
    assert(fmul(0x7int, 0x7int) == 0x31int);
    assert(fsquares(g, 2) == fmul(fsquares(g, 1), fsquares(g, 1)));
    assert(fsquares(g, 1) == 0x31int);
    vstd::arithmetic::div_mod::lemma_fundamental_div_mod_converse(0x31int * 0x31int, modulus(), 0x0int, 0x961int);
    assert(fmul(0x31int, 0x31int) == 0x961int);
    assert(fsquares(g, 3) == fmul(fsquares(g, 2), fsquares(g, 2)));
    assert(fsquares(g, 2) == 0x961int);
    vstd::arithmetic::div_mod::lemma_fundamental_div_mod_converse(0x961int * 0x961int, modulus(), 0x0int, 0x57f6c1int);
    assert(fmul(0x961int, 0x961int) == 0x57f6c1int);
    assert(fsquares(g, 4) == fmul(fsquares(g, 3), fsquares(g, 3)));
    assert(fsquares(g, 3) == 0x57f6c1int);
    vstd::arithmetic::div_mod::lemma_fundamental_div_mod_converse(0x57f6c1int * 0x57f6c1int, modulus(), 0x0int, 0x1e39a5057d81int);
    assert(fmul(0x57f6c1int, 0x57f6c1int) == 0x1e39a5057d81int);
    assert(fsquares(g, 5) == fmul(fsquares(g, 4), fsquares(g, 4)));
    assert(fsquares(g, 4) == 0x1e39a5057d81int);
    vstd::arithmetic::div_mod::lemma_fundamental_div_mod_converse(0x1e39a5057d81int * 0x1e39a5057d81int, modulus(), 0x0int, 0x3918fa8303c33586e913b01int);
    assert(fmul(0x1e39a5057d81int, 0x1e39a5057d81int) == 0x3918fa8303c33586e913b01int);
    assert(fsquares(g, 6) == fmul(fsquares(g, 5), fsquares(g, 5)));
    assert(fsquares(g, 5) == 0x3918fa8303c33586e913b01int);
    vstd::arithmetic::div_mod::lemma_fundamental_div_mod_converse(0x3918fa8303c33586e913b01int * 0x3918fa8303c33586e913b01int, modulus(), 0x0int, 0xcbc21fe4561c8d63b78e780e1341e199417c8c0bb7601int);
    assert(fmul(0x3918fa8303c33586e913b01int, 0x3918fa8303c33586e913b01int) == 0xcbc21fe4561c8d63b78e780e1341e199417c8c0bb7601int);
    assert(fsquares(g, 7) == fmul(fsquares(g, 6), fsquares(g, 6)));
    assert(fsquares(g, 6) == 0xcbc21fe4561c8d63b78e780e1341e199417c8c0bb7601int);
    vstd::arithmetic::div_mod::lemma_fundamental_div_mod_converse(0xcbc21fe4561c8d63b78e780e1341e199417c8c0bb7601int * 0xcbc21fe4561c8d63b78e780e1341e199417c8c0bb7601int, modulus(), 0x1662158ac1092af3aa3ecbc749cint, 0x3f658b7688becbdd628a4be1e35a32d3601910de06fe2947626b83cf2f1e7765int);
    assert(fmul(0xcbc21fe4561c8d63b78e780e1341e199417c8c0bb7601int, 0xcbc21fe4561c8d63b78e780e1341e199417c8c0bb7601int) == 0x3f658b7688becbdd628a4be1e35a32d3601910de06fe2947626b83cf2f1e7765int);
    assert(fsquares(g, 8) == fmul(fsquares(g, 7), fsquares(g, 7)));
    assert(fsquares(g, 7) == 0x3f658b7688becbdd628a4be1e35a32d3601910de06fe2947626b83cf2f1e7765int);
    vstd::arithmetic::div_mod::lemma_fundamental_div_mod_converse(0x3f658b7688becbdd628a4be1e35a32d3601910de06fe2947626b83cf2f1e7765int * 0x3f658b7688becbdd628a4be1e35a32d3601910de06fe2947626b83cf2f1e7765int, modulus(), 0x22ab4d2f3b201280b7f2c4a4c54f73b37dbbe8fb24292c2e8a0f356c154e7f6cint, 0x4a789ea4fdc7ccf2f98a0632d8c6ed8905fb69fe4f4b57717cff0cd340c8e6dint);
    assert(fmul(0x3f658b7688becbdd628a4be1e35a32d3601910de06fe2947626b83cf2f1e7765int, 0x3f658b7688becbdd628a4be1e35a32d3601910de06fe2947626b83cf2f1e7765int) == 0x4a789ea4fdc7ccf2f98a0632d8c6ed8905fb69fe4f4b57717cff0cd340c8e6dint);
    assert(fsquares(g, 9) == fmul(fsquares(g, 8), fsquares(g, 8)));
    assert(fsquares(g, 8) == 0x4a789ea4fdc7ccf2f98a0632d8c6ed8905fb69fe4f4b57717cff0cd340c8e6dint);
    vstd::arithmetic::div_mod::lemma_fundamental_div_mod_converse(0x4a789ea4fdc7ccf2f98a0632d8c6ed8905fb69fe4f4b57717cff0cd340c8e6dint * 0x4a789ea4fdc7ccf2f98a0632d8c6ed8905fb69fe4f4b57717cff0cd340c8e6dint, modulus(), 0x2fd6ea70e70d8debd6f5a64977a38f2370a0c65f8969a3c315b432777e5990int, 0x4d1e5e8c9348ebdf2c1e2a75d7f3456d069489ff208b436e906c3a6979f6c0d9int);
    assert(fmul(0x4a789ea4fdc7ccf2f98a0632d8c6ed8905fb69fe4f4b57717cff0cd340c8e6dint, 0x4a789ea4fdc7ccf2f98a0632d8c6ed8905fb69fe4f4b57717cff0cd340c8e6dint) == 0x4d1e5e8c9348ebdf2c1e2a75d7f3456d069489ff208b436e906c3a6979f6c0d9int);
    assert(fsquares(g, 10) == fmul(fsquares(g, 9), fsquares(g, 9)));
    assert(fsquares(g, 9) == 0x4d1e5e8c9348ebdf2c1e2a75d7f3456d069489ff208b436e906c3a6979f6c0d9int);
    vstd::arithmetic::div_mod::lemma_fundamental_div_mod_converse(0x4d1e5e8c9348ebdf2c1e2a75d7f3456d069489ff208b436e906c3a6979f6c0d9int * 0x4d1e5e8c9348ebdf2c1e2a75d7f3456d069489ff208b436e906c3a6979f6c0d9int, modulus(), 0x334d2701ade3afa3fc8fc919710dc26a8a7a3f7f913e4f436bee6777031600ecint, 0x45802caf41dbd58dd8be0b10e0eb662e5d5871f49b77117b84274f9b513c3705int);
    assert(fmul(0x4d1e5e8c9348ebdf2c1e2a75d7f3456d069489ff208b436e906c3a6979f6c0d9int, 0x4d1e5e8c9348ebdf2c1e2a75d7f3456d069489ff208b436e906c3a6979f6c0d9int) == 0x45802caf41dbd58dd8be0b10e0eb662e5d5871f49b77117b84274f9b513c3705int);
    assert(fsquares(g, 11) == fmul(fsquares(g, 10), fsquares(g, 10)));
    assert(fsquares(g, 10) == 0x45802caf41dbd58dd8be0b10e0eb662e5d5871f49b77117b84274f9b513c3705int);
    vstd::arithmetic::div_mod::lemma_fundamental_div_mod_converse(0x45802caf41dbd58dd8be0b10e0eb662e5d5871f49b77117b84274f9b513c3705int * 0x45802caf41dbd58dd8be0b10e0eb662e5d5871f49b77117b84274f9b513c3705int, modulus(), 0x29aaa941f4d27da9acd99e9794c9b45b2b429dcb8293184a43de863935610145int, 0x964c3466f7187215b5abad04922d8e2a5a210cae66d3f767faf5a14caca24d4int);
    assert(fmul(0x45802caf41dbd58dd8be0b10e0eb662e5d5871f49b77117b84274f9b513c3705int, 0x45802caf41dbd58dd8be0b10e0eb662e5d5871f49b77117b84274f9b513c3705int) == 0x964c3466f7187215b5abad04922d8e2a5a210cae66d3f767faf5a14caca24d4int);
    assert(fsquares(g, 12) == fmul(fsquares(g, 11), fsquares(g, 11)));
    assert(fsquares(g, 11) == 0x964c3466f7187215b5abad04922d8e2a5a210cae66d3f767faf5a14caca24d4int);
    vstd::arithmetic::div_mod::lemma_fundamental_div_mod_converse(0x964c3466f7187215b5abad04922d8e2a5a210cae66d3f767faf5a14caca24d4int * 0x964c3466f7187215b5abad04922d8e2a5a210cae66d3f767faf5a14caca24d4int, modulus(), 0xc2db446d5f34ba9cc12646784424e5c5ff0959712245c4620d322d749a9e1dint, 0x5238ba785063e217812b41448426fe8aabb0d6e6b743db253683decc3f41b173int);
    assert(fmul(0x964c3466f7187215b5abad04922d8e2a5a210cae66d3f767faf5a14caca24d4int, 0x964c3466f7187215b5abad04922d8e2a5a210cae66d3f767faf5a14caca24d4int) == 0x5238ba785063e217812b41448426fe8aabb0d6e6b743db253683decc3f41b173int);
    assert(fsquares(g, 13) == fmul(fsquares(g, 12), fsquares(g, 12)));
    assert(fsquares(g, 12) == 0x5238ba785063e217812b41448426fe8aabb0d6e6b743db253683decc3f41b173int);
    vstd::arithmetic::div_mod::lemma_fundamental_div_mod_converse(0x5238ba785063e217812b41448426fe8aabb0d6e6b743db253683decc3f41b173int * 0x5238ba785063e217812b41448426fe8aabb0d6e6b743db253683decc3f41b173int, modulus(), 0x3a50b4c005dca3c799871b291837ad55d09d53c0ed8b4c22e7596ebe65c39accint, 0x4a5cb61848084c353c2ea0463f78127afe022d9b35f1cf686e33d587cba29eddint);
    assert(fmul(0x5238ba785063e217812b41448426fe8aabb0d6e6b743db253683decc3f41b173int, 0x5238ba785063e217812b41448426fe8aabb0d6e6b743db253683decc3f41b173int) == 0x4a5cb61848084c353c2ea0463f78127afe022d9b35f1cf686e33d587cba29eddint);
    assert(fsquares(g, 14) == fmul(fsquares(g, 13), fsquares(g, 13)));
    assert(fsquares(g, 13) == 0x4a5cb61848084c353c2ea0463f78127afe022d9b35f1cf686e33d587cba29eddint);
    vstd::arithmetic::div_mod::lemma_fundamental_div_mod_converse(0x4a5cb61848084c353c2ea0463f78127afe022d9b35f1cf686e33d587cba29eddint * 0x4a5cb61848084c353c2ea0463f78127afe022d9b35f1cf686e33d587cba29eddint, modulus(), 0x2fb315fd35860d3791247ae34d7308766cad43f23169df705babbc7ddd37d48bint, 0x2aa2c6745539c412745d7b3384d57091254fcc8528885b5ebd74b6631311b63eint);
    assert(fmul(0x4a5cb61848084c353c2ea0463f78127afe022d9b35f1cf686e33d587cba29eddint, 0x4a5cb61848084c353c2ea0463f78127afe022d9b35f1cf686e33d587cba29eddint) == 0x2aa2c6745539c412745d7b3384d57091254fcc8528885b5ebd74b6631311b63eint);
    assert(fsquares(g, 15) == fmul(fsquares(g, 14), fsquares(g, 14)));
    assert(fsquares(g, 14) == 0x2aa2c6745539c412745d7b3384d57091254fcc8528885b5ebd74b6631311b63eint);
    vstd::arithmetic::div_mod::lemma_fundamental_div_mod_converse(0x2aa2c6745539c412745d7b3384d57091254fcc8528885b5ebd74b6631311b63eint * 0x2aa2c6745539c412745d7b3384d57091254fcc8528885b5ebd74b6631311b63eint, modulus(), 0xfae359f4cebc5fdbecf6c1a4c91da74162e97c78f653858b1fddd8e36c09ad6int, 0x6804d24ab62aa136ba6e492fb897934ec92eca7707b4b62d29317b82b3379c2eint);
    assert(fmul(0x2aa2c6745539c412745d7b3384d57091254fcc8528885b5ebd74b6631311b63eint, 0x2aa2c6745539c412745d7b3384d57091254fcc8528885b5ebd74b6631311b63eint) == 0x6804d24ab62aa136ba6e492fb897934ec92eca7707b4b62d29317b82b3379c2eint);
    assert(fsquares(g, 16) == fmul(fsquares(g, 15), fsquares(g, 15)));
    assert(fsquares(g, 15) == 0x6804d24ab62aa136ba6e492fb897934ec92eca7707b4b62d29317b82b3379c2eint);
    vstd::arithmetic::div_mod::lemma_fundamental_div_mod_converse(0x6804d24ab62aa136ba6e492fb897934ec92eca7707b4b62d29317b82b3379c2eint * 0x6804d24ab62aa136ba6e492fb897934ec92eca7707b4b62d29317b82b3379c2eint, modulus(), 0x5d55335c62875318412207d7f997025af5ab3e149da38cc40cbef29f501104f5int, 0xeda5c059add22bd06c653a3a30dc6c47b749f3444a3f53ebaf3b58a7efb134fint);
    assert(fmul(0x6804d24ab62aa136ba6e492fb897934ec92eca7707b4b62d29317b82b3379c2eint, 0x6804d24ab62aa136ba6e492fb897934ec92eca7707b4b62d29317b82b3379c2eint) == 0xeda5c059add22bd06c653a3a30dc6c47b749f3444a3f53ebaf3b58a7efb134fint);
    assert(fsquares(g, 17) == fmul(fsquares(g, 16), fsquares(g, 16)));
    assert(fsquares(g, 16) == 0xeda5c059add22bd06c653a3a30dc6c47b749f3444a3f53ebaf3b58a7efb134fint);
    vstd::arithmetic::div_mod::lemma_fundamental_div_mod_converse(0xeda5c059add22bd06c653a3a30dc6c47b749f3444a3f53ebaf3b58a7efb134fint * 0xeda5c059add22bd06c653a3a30dc6c47b749f3444a3f53ebaf3b58a7efb134fint, modulus(), 0x1e72a70fdcd8e2523f18535a989607e8a3839d141af4664a99b6a6c26d7a6f4int, 0x30d604f213d878f7d0706249706d95c79581c3e36607b6712030e0f47b872b6dint);
    assert(fmul(0xeda5c059add22bd06c653a3a30dc6c47b749f3444a3f53ebaf3b58a7efb134fint, 0xeda5c059add22bd06c653a3a30dc6c47b749f3444a3f53ebaf3b58a7efb134fint) == 0x30d604f213d878f7d0706249706d95c79581c3e36607b6712030e0f47b872b6dint);
    assert(fsquares(g, 18) == fmul(fsquares(g, 17), fsquares(g, 17)));
    assert(fsquares(g, 17) == 0x30d604f213d878f7d0706249706d95c79581c3e36607b6712030e0f47b872b6dint);
    vstd::arithmetic::div_mod::lemma_fundamental_div_mod_converse(0x30d604f213d878f7d0706249706d95c79581c3e36607b6712030e0f47b872b6dint * 0x30d604f213d878f7d0706249706d95c79581c3e36607b6712030e0f47b872b6dint, modulus(), 0x14929af342ff642ec9d565c83442738ee33111f9714d8f26102e63ad432dd28fint, 0x3eb4ec72f1eea6bd4c7c790f8374a0d9776911bccac77483fd2421c34f25f9daint);
    assert(fmul(0x30d604f213d878f7d0706249706d95c79581c3e36607b6712030e0f47b872b6dint, 0x30d604f213d878f7d0706249706d95c79581c3e36607b6712030e0f47b872b6dint) == 0x3eb4ec72f1eea6bd4c7c790f8374a0d9776911bccac77483fd2421c34f25f9daint);
    assert(fsquares(g, 19) == fmul(fsquares(g, 18), fsquares(g, 18)));
    assert(fsquares(g, 18) == 0x3eb4ec72f1eea6bd4c7c790f8374a0d9776911bccac77483fd2421c34f25f9daint);
    vstd::arithmetic::div_mod::lemma_fundamental_div_mod_converse(0x3eb4ec72f1eea6bd4c7c790f8374a0d9776911bccac77483fd2421c34f25f9daint * 0x3eb4ec72f1eea6bd4c7c790f8374a0d9776911bccac77483fd2421c34f25f9daint, modulus(), 0x21eb2da348645ae51ce1a30ccd0fa7ef478f0cde498d24df4e5f7b997377e652int, 0xc2a9a7faa1a1a2ed631f40acb99a21f9ae1ff0ea0334c18c525b6ab4565e752int);
    assert(fmul(0x3eb4ec72f1eea6bd4c7c790f8374a0d9776911bccac77483fd2421c34f25f9daint, 0x3eb4ec72f1eea6bd4c7c790f8374a0d9776911bccac77483fd2421c34f25f9daint) == 0xc2a9a7faa1a1a2ed631f40acb99a21f9ae1ff0ea0334c18c525b6ab4565e752int);
    assert(fsquares(g, 20) == fmul(fsquares(g, 19), fsquares(g, 19)));
    assert(fsquares(g, 19) == 0xc2a9a7faa1a1a2ed631f40acb99a21f9ae1ff0ea0334c18c525b6ab4565e752int);
    vstd::arithmetic::div_mod::lemma_fundamental_div_mod_converse(0xc2a9a7faa1a1a2ed631f40acb99a21f9ae1ff0ea0334c18c525b6ab4565e752int * 0xc2a9a7faa1a1a2ed631f40acb99a21f9ae1ff0ea0334c18c525b6ab4565e752int, modulus(), 0x146dee559671dd8a5a2f114f0039f503fae3b1bbdb07bfb1142d66d63ce7168int, 0x628fc184374a1219e85d9e943d57d0c20bad4d8f813859f6121b51c927eaa4dcint);
    assert(fmul(0xc2a9a7faa1a1a2ed631f40acb99a21f9ae1ff0ea0334c18c525b6ab4565e752int, 0xc2a9a7faa1a1a2ed631f40acb99a21f9ae1ff0ea0334c18c525b6ab4565e752int) == 0x628fc184374a1219e85d9e943d57d0c20bad4d8f813859f6121b51c927eaa4dcint);
    assert(fsquares(g, 21) == fmul(fsquares(g, 20), fsquares(g, 20)));
    assert(fsquares(g, 20) == 0x628fc184374a1219e85d9e943d57d0c20bad4d8f813859f6121b51c927eaa4dcint);
    vstd::arithmetic::div_mod::lemma_fundamental_div_mod_converse(0x628fc184374a1219e85d9e943d57d0c20bad4d8f813859f6121b51c927eaa4dcint * 0x628fc184374a1219e85d9e943d57d0c20bad4d8f813859f6121b51c927eaa4dcint, modulus(), 0x53cbe1a6a96b3ca5de7bc9c500a328242042ad743a347386c3c8075f47d29efdint, 0x1a35c7c215188748e7e542d149e563e7a4428baab83f69a56b7606628c87fe13int);
    assert(fmul(0x628fc184374a1219e85d9e943d57d0c20bad4d8f813859f6121b51c927eaa4dcint, 0x628fc184374a1219e85d9e943d57d0c20bad4d8f813859f6121b51c927eaa4dcint) == 0x1a35c7c215188748e7e542d149e563e7a4428baab83f69a56b7606628c87fe13int);
    assert(fsquares(g, 22) == fmul(fsquares(g, 21), fsquares(g, 21)));
    assert(fsquares(g, 21) == 0x1a35c7c215188748e7e542d149e563e7a4428baab83f69a56b7606628c87fe13int);
    vstd::arithmetic::div_mod::lemma_fundamental_div_mod_converse(0x1a35c7c215188748e7e542d149e563e7a4428baab83f69a56b7606628c87fe13int * 0x1a35c7c215188748e7e542d149e563e7a4428baab83f69a56b7606628c87fe13int, modulus(), 0x5ed014deb5be5d1cbf8d296ae59c793ed6f06a3bcaa385af197078ad23531d8int, 0x720ae8ff3738e762084a601dc0ff1294297fb210a4777bce414e9afbe9fe8391int);
    assert(fmul(0x1a35c7c215188748e7e542d149e563e7a4428baab83f69a56b7606628c87fe13int, 0x1a35c7c215188748e7e542d149e563e7a4428baab83f69a56b7606628c87fe13int) == 0x720ae8ff3738e762084a601dc0ff1294297fb210a4777bce414e9afbe9fe8391int);
    assert(fsquares(g, 23) == fmul(fsquares(g, 22), fsquares(g, 22)));
    assert(fsquares(g, 22) == 0x720ae8ff3738e762084a601dc0ff1294297fb210a4777bce414e9afbe9fe8391int);
    vstd::arithmetic::div_mod::lemma_fundamental_div_mod_converse(0x720ae8ff3738e762084a601dc0ff1294297fb210a4777bce414e9afbe9fe8391int * 0x720ae8ff3738e762084a601dc0ff1294297fb210a4777bce414e9afbe9fe8391int, modulus(), 0x703004e3259ea69e7200f1ccfba3b1a81e2dde7e41618e425338f15be7ec63eeint, 0x58335464ad9e9cae4e3c072e4a91613482a60243cab735b648512d6f616d5433int);
    assert(fmul(0x720ae8ff3738e762084a601dc0ff1294297fb210a4777bce414e9afbe9fe8391int, 0x720ae8ff3738e762084a601dc0ff1294297fb210a4777bce414e9afbe9fe8391int) == 0x58335464ad9e9cae4e3c072e4a91613482a60243cab735b648512d6f616d5433int);
    assert(fsquares(g, 24) == fmul(fsquares(g, 23), fsquares(g, 23)));
    assert(fsquares(g, 23) == 0x58335464ad9e9cae4e3c072e4a91613482a60243cab735b648512d6f616d5433int);
    vstd::arithmetic::div_mod::lemma_fundamental_div_mod_converse(0x58335464ad9e9cae4e3c072e4a91613482a60243cab735b648512d6f616d5433int * 0x58335464ad9e9cae4e3c072e4a91613482a60243cab735b648512d6f616d5433int, modulus(), 0x431ac9cc79e7f58753cbbcdf9fe86023eb9da6b4e4d3e44301344c0f691c2e93int, 0x429265f1d3e7fa86a1fadf67d487e6d964d94839da7a182571aadd3d0c035396int);
    assert(fmul(0x58335464ad9e9cae4e3c072e4a91613482a60243cab735b648512d6f616d5433int, 0x58335464ad9e9cae4e3c072e4a91613482a60243cab735b648512d6f616d5433int) == 0x429265f1d3e7fa86a1fadf67d487e6d964d94839da7a182571aadd3d0c035396int);
    assert(fsquares(g, 25) == fmul(fsquares(g, 24), fsquares(g, 24)));
    assert(fsquares(g, 24) == 0x429265f1d3e7fa86a1fadf67d487e6d964d94839da7a182571aadd3d0c035396int);
    vstd::arithmetic::div_mod::lemma_fundamental_div_mod_converse(0x429265f1d3e7fa86a1fadf67d487e6d964d94839da7a182571aadd3d0c035396int * 0x429265f1d3e7fa86a1fadf67d487e6d964d94839da7a182571aadd3d0c035396int, modulus(), 0x263a99b4bac2c4d47c1ba5c266f20b138a78f93652fa55a5b615e05edf34b70dint, 0x729ad34c57d4ef07d0322a356af7bf83aeffcf6d731d38a410cdf80b4199e4d7int);
    assert(fmul(0x429265f1d3e7fa86a1fadf67d487e6d964d94839da7a182571aadd3d0c035396int, 0x429265f1d3e7fa86a1fadf67d487e6d964d94839da7a182571aadd3d0c035396int) == 0x729ad34c57d4ef07d0322a356af7bf83aeffcf6d731d38a410cdf80b4199e4d7int);
    assert(fsquares(g, 26) == fmul(fsquares(g, 25), fsquares(g, 25)));
    assert(fsquares(g, 25) == 0x729ad34c57d4ef07d0322a356af7bf83aeffcf6d731d38a410cdf80b4199e4d7int);
    vstd::arithmetic::div_mod::lemma_fundamental_div_mod_converse(0x729ad34c57d4ef07d0322a356af7bf83aeffcf6d731d38a410cdf80b4199e4d7int * 0x729ad34c57d4ef07d0322a356af7bf83aeffcf6d731d38a410cdf80b4199e4d7int, modulus(), 0x714bdd93f4be417426a8a7e74514f8298dfb4acb5fd92e3bd4afafb96c2390b9int, 0x2be12a4eb7fdd2448fffef1afca5eaf4dc9863ce38faf65ad7339e32176a1bd8int);
    assert(fmul(0x729ad34c57d4ef07d0322a356af7bf83aeffcf6d731d38a410cdf80b4199e4d7int, 0x729ad34c57d4ef07d0322a356af7bf83aeffcf6d731d38a410cdf80b4199e4d7int) == 0x2be12a4eb7fdd2448fffef1afca5eaf4dc9863ce38faf65ad7339e32176a1bd8int);
    assert(fsquares(g, 27) == fmul(fsquares(g, 26), fsquares(g, 26)));
    assert(fsquares(g, 26) == 0x2be12a4eb7fdd2448fffef1afca5eaf4dc9863ce38faf65ad7339e32176a1bd8int);
    vstd::arithmetic::div_mod::lemma_fundamental_div_mod_converse(0x2be12a4eb7fdd2448fffef1afca5eaf4dc9863ce38faf65ad7339e32176a1bd8int * 0x2be12a4eb7fdd2448fffef1afca5eaf4dc9863ce38faf65ad7339e32176a1bd8int, modulus(), 0x109bd194a3e70b6680607fbd2c963b27320bdbe78784828ffe780bc2a25bd4edint, 0x2a98b3de1e8d05396c576a792ed0dd3cafe4f76895ae53bfade986863f8b7153int);
    assert(fmul(0x2be12a4eb7fdd2448fffef1afca5eaf4dc9863ce38faf65ad7339e32176a1bd8int, 0x2be12a4eb7fdd2448fffef1afca5eaf4dc9863ce38faf65ad7339e32176a1bd8int) == 0x2a98b3de1e8d05396c576a792ed0dd3cafe4f76895ae53bfade986863f8b7153int);
    assert(fsquares(g, 28) == fmul(fsquares(g, 27), fsquares(g, 27)));
    assert(fsquares(g, 27) == 0x2a98b3de1e8d05396c576a792ed0dd3cafe4f76895ae53bfade986863f8b7153int);
    vstd::arithmetic::div_mod::lemma_fundamental_div_mod_converse(0x2a98b3de1e8d05396c576a792ed0dd3cafe4f76895ae53bfade986863f8b7153int * 0x2a98b3de1e8d05396c576a792ed0dd3cafe4f76895ae53bfade986863f8b7153int, modulus(), 0xfa6cdce0145a8486ecde4d3f22a2ddb54171ffd7c9a9bbdf864075acddbf1ebint, 0x689f65808ca09717b3829a115bd0634cb70b4a5ea3e0c94cdcf15f2f4e706efeint);
    assert(fmul(0x2a98b3de1e8d05396c576a792ed0dd3cafe4f76895ae53bfade986863f8b7153int, 0x2a98b3de1e8d05396c576a792ed0dd3cafe4f76895ae53bfade986863f8b7153int) == 0x689f65808ca09717b3829a115bd0634cb70b4a5ea3e0c94cdcf15f2f4e706efeint);
    assert(fsquares(g, 29) == fmul(fsquares(g, 28), fsquares(g, 28)));
    assert(fsquares(g, 28) == 0x689f65808ca09717b3829a115bd0634cb70b4a5ea3e0c94cdcf15f2f4e706efeint);
    vstd::arithmetic::div_mod::lemma_fundamental_div_mod_converse(0x689f65808ca09717b3829a115bd0634cb70b4a5ea3e0c94cdcf15f2f4e706efeint * 0x689f65808ca09717b3829a115bd0634cb70b4a5ea3e0c94cdcf15f2f4e706efeint, modulus(), 0x5e6b65760a2206ce26af8f0311ff253d74db4beb9ab738240ac602a6c78976beint, 0x64261cc222fdf91936919a42327a03e770bccb15393bcf7b9eb16e5f4ed5cd46int);
    assert(fmul(0x689f65808ca09717b3829a115bd0634cb70b4a5ea3e0c94cdcf15f2f4e706efeint, 0x689f65808ca09717b3829a115bd0634cb70b4a5ea3e0c94cdcf15f2f4e706efeint) == 0x64261cc222fdf91936919a42327a03e770bccb15393bcf7b9eb16e5f4ed5cd46int);
    assert(fsquares(g, 30) == fmul(fsquares(g, 29), fsquares(g, 29)));
    assert(fsquares(g, 29) == 0x64261cc222fdf91936919a42327a03e770bccb15393bcf7b9eb16e5f4ed5cd46int);
    vstd::arithmetic::div_mod::lemma_fundamental_div_mod_converse(0x64261cc222fdf91936919a42327a03e770bccb15393bcf7b9eb16e5f4ed5cd46int * 0x64261cc222fdf91936919a42327a03e770bccb15393bcf7b9eb16e5f4ed5cd46int, modulus(), 0x568468a6a1c85ea5f559c7e77e48fa20538f7c0c2ca316ac44e6d279366cd8b6int, 0x27359bd349c3f009050fce0e2c4d5f1154a815fea49a9a0a8baf83d6aca8566eint);
    assert(fmul(0x64261cc222fdf91936919a42327a03e770bccb15393bcf7b9eb16e5f4ed5cd46int, 0x64261cc222fdf91936919a42327a03e770bccb15393bcf7b9eb16e5f4ed5cd46int) == 0x27359bd349c3f009050fce0e2c4d5f1154a815fea49a9a0a8baf83d6aca8566eint);
    assert(fsquares(g, 31) == fmul(fsquares(g, 30), fsquares(g, 30)));
    assert(fsquares(g, 30) == 0x27359bd349c3f009050fce0e2c4d5f1154a815fea49a9a0a8baf83d6aca8566eint);
    vstd::arithmetic::div_mod::lemma_fundamental_div_mod_converse(0x27359bd349c3f009050fce0e2c4d5f1154a815fea49a9a0a8baf83d6aca8566eint * 0x27359bd349c3f009050fce0e2c4d5f1154a815fea49a9a0a8baf83d6aca8566eint, modulus(), 0xd42ee5a755d686733796df701e2b1cfd267e2bb3ab8add0a1c16fd6581e466cint, 0x46e02401a9194f3106d1137895c1d407deff7dc6ff0f95c4bb188d53056fd0d8int);
    assert(fmul(0x27359bd349c3f009050fce0e2c4d5f1154a815fea49a9a0a8baf83d6aca8566eint, 0x27359bd349c3f009050fce0e2c4d5f1154a815fea49a9a0a8baf83d6aca8566eint) == 0x46e02401a9194f3106d1137895c1d407deff7dc6ff0f95c4bb188d53056fd0d8int);
    assert forall|k: nat| k <= 32 implies #[trigger] fsquares(r, k) != 0 by {
        if k == 0 { assert(fsquares(r, 0) == 0x16a2a19edfe81f20d09b681922c813b4b63683508c2280b93829971f439f0d2bint); } else if k == 1 { assert(fsquares(r, 1) == 0x4b5371495990693fad1715b02e5713b5f070bb00e28a193d63e7cb4906ffc93fint); } else if k == 2 { assert(fsquares(r, 2) == 0x2c6d4e4511657e1e1339a815da8b398fed3a181fabb30adc694341f608c9dd56int); } else if k == 3 { assert(fsquares(r, 3) == 0xc83ea7744bf1bee8da40c1ef2bb459884d37b826214abc6474650359d8e211bint); } else if k == 4 { assert(fsquares(r, 4) == 0x52dd465e2f09425699e276b571905a7d6558e9e3f6ac7b41d7b688830a4f2089int); } else if k == 5 { assert(fsquares(r, 5) == 0x23397a9300f8f98bece8ea224f31d25db94f1101b1d7a628e2d0a7869f0319edint); } else if k == 6 { assert(fsquares(r, 6) == 0xa0a77a3b1980c0d116168bffbedc11d02c8118402867ddc531a11a0d2d75182int); } else if k == 7 { assert(fsquares(r, 7) == 0x19fe632fd3287390454dc1edc61a1a3c0ba12bb3da64ca5ce32ef844e11a51eint); } else if k == 8 { assert(fsquares(r, 8) == 0x291cf6d68823e6876e0bcd91ee76273072cf6a8029b7d7bc92cf4deb77bd779cint); } else if k == 9 { assert(fsquares(r, 9) == 0x73560252aa0655b25121af06a3b51e3cc631ffb2585a72db5616c57de0ec9eaeint); } else if k == 10 { assert(fsquares(r, 10) == 0xabe6a5e5abcaa32f2d38f10fbb8d1bbe08fec7c86389beec6e7a6ffb08e3363int); } else if k == 11 { assert(fsquares(r, 11) == 0x47c8b5817018af4fc70d0874b0691d4e46b3105f04db5844cd3979122d3ea03aint); } else if k == 12 { assert(fsquares(r, 12) == 0x3e1c54bcb947035a57a6e07cb98de4a2f69e02d265e09d9fece7e0e39898d4bint); } else if k == 13 { assert(fsquares(r, 13) == 0x520e587a724a6955df625e80d0adef90ad8e16e84419c750194e8c62ecb38d9dint); } else if k == 14 { assert(fsquares(r, 14) == 0x2d3056a530794f01652f717ae1c34bb0bb97a3bf30ce40fd6f421a7d8ef674fbint); } else if k == 15 { assert(fsquares(r, 15) == 0x224262332d8acbf4473a2eef772c33d6cd7f2bd6d0711b7d08692405f3b70f10int); } else if k == 16 { assert(fsquares(r, 16) == 0x2155379d12180caa88f39a78f1aeb57867a665ae1fcadc91d7118f85cd96b8adint); } else if k == 17 { assert(fsquares(r, 17) == 0x3291357ee558b50d483405417a0cbe39c8d5f51db3f32699fbd047e11279bb6eint); } else if k == 18 { assert(fsquares(r, 18) == 0x56624634b500a166dc86b01c0d477fa6ae4622f6a9152435034d2ff22a5ad9e1int); } else if k == 19 { assert(fsquares(r, 19) == 0x485d512737b1da3d2ccddea2972e89ed146b58bc434906ac6fdd00bfc78c8967int); } else if k == 20 { assert(fsquares(r, 20) == 0x564c0a11a0f704f4fc3e8acfe0f8245f0ad1347b378fbf96e206da11a5d36306int); } else if k == 21 { assert(fsquares(r, 21) == 0x6d031f1b5c49c83409f1ca610a08f16655ea6811be9c622d4a838b5d59cd79e5int); } else if k == 22 { assert(fsquares(r, 22) == 0x325db5c3debf77a18f4de02c0f776af3ea437f9626fc085e3c28d666a5c2d854int); } else if k == 23 { assert(fsquares(r, 23) == 0x95166525526a65439feec240d80689fd697168a3a6000fe4541b8ff2ee0434eint); } else if k == 24 { assert(fsquares(r, 24) == 0x4f9b4098e2e9f12e6b368121ac0cf4ad0a0865a899e8deff4935bd2f817f694bint); } else if k == 25 { assert(fsquares(r, 25) == 0x6898111413588742b7c68b4d7fdd60d098d0caac87f5713c5130c2c1660125beint); } else if k == 26 { assert(fsquares(r, 26) == 0x45af6345ec055e4d14a1e27164d8fdbd2d967f4be2f951558140d032f0a9ee53int); } else if k == 27 { assert(fsquares(r, 27) == 0x50e0903a157988bab4bcd40e22f55448bf6e88fb4c38fb8a360c60997369df4eint); } else if k == 28 { assert(fsquares(r, 28) == 0x20b1ce9140267af9dd1c0af834cec32c17beb312f20b6f7653ea61d87742bcceint); } else if k == 29 { assert(fsquares(r, 29) == 0x345766f603fa66e78c0625cd70d77ce2b38b21c28713b7007228fd3397743f7aint); } else if k == 30 { assert(fsquares(r, 30) == 0x8d51ccce760304d0ec030002760300000001000000000000int); } else if k == 31 { assert(fsquares(r, 31) == 0x73eda753299d7d483339d80809a1d80553bda402fffe5bfeffffffff00000000int); } else if k == 32 { assert(fsquares(r, 32) == 0x1int); }
    }
    assert forall|k: nat| k <= 31 implies #[trigger] fsquares(g, k) != 1 by {
        if k == 0 { assert(fsquares(g, 0) == 0x7int); } else if k == 1 { assert(fsquares(g, 1) == 0x31int); } else if k == 2 { assert(fsquares(g, 2) == 0x961int); } else if k == 3 { assert(fsquares(g, 3) == 0x57f6c1int); } else if k == 4 { assert(fsquares(g, 4) == 0x1e39a5057d81int); } else if k == 5 { assert(fsquares(g, 5) == 0x3918fa8303c33586e913b01int); } else if k == 6 { assert(fsquares(g, 6) == 0xcbc21fe4561c8d63b78e780e1341e199417c8c0bb7601int); } else if k == 7 { assert(fsquares(g, 7) == 0x3f658b7688becbdd628a4be1e35a32d3601910de06fe2947626b83cf2f1e7765int); } else if k == 8 { assert(fsquares(g, 8) == 0x4a789ea4fdc7ccf2f98a0632d8c6ed8905fb69fe4f4b57717cff0cd340c8e6dint); } else if k == 9 { assert(fsquares(g, 9) == 0x4d1e5e8c9348ebdf2c1e2a75d7f3456d069489ff208b436e906c3a6979f6c0d9int); } else if k == 10 { assert(fsquares(g, 10) == 0x45802caf41dbd58dd8be0b10e0eb662e5d5871f49b77117b84274f9b513c3705int); } else if k == 11 { assert(fsquares(g, 11) == 0x964c3466f7187215b5abad04922d8e2a5a210cae66d3f767faf5a14caca24d4int); } else if k == 12 { assert(fsquares(g, 12) == 0x5238ba785063e217812b41448426fe8aabb0d6e6b743db253683decc3f41b173int); } else if k == 13 { assert(fsquares(g, 13) == 0x4a5cb61848084c353c2ea0463f78127afe022d9b35f1cf686e33d587cba29eddint); } else if k == 14 { assert(fsquares(g, 14) == 0x2aa2c6745539c412745d7b3384d57091254fcc8528885b5ebd74b6631311b63eint); } else if k == 15 { assert(fsquares(g, 15) == 0x6804d24ab62aa136ba6e492fb897934ec92eca7707b4b62d29317b82b3379c2eint); } else if k == 16 { assert(fsquares(g, 16) == 0xeda5c059add22bd06c653a3a30dc6c47b749f3444a3f53ebaf3b58a7efb134fint); } else if k == 17 { assert(fsquares(g, 17) == 0x30d604f213d878f7d0706249706d95c79581c3e36607b6712030e0f47b872b6dint); } else if k == 18 { assert(fsquares(g, 18) == 0x3eb4ec72f1eea6bd4c7c790f8374a0d9776911bccac77483fd2421c34f25f9daint); } else if k == 19 { assert(fsquares(g, 19) == 0xc2a9a7faa1a1a2ed631f40acb99a21f9ae1ff0ea0334c18c525b6ab4565e752int); } else if k == 20 { assert(fsquares(g, 20) == 0x628fc184374a1219e85d9e943d57d0c20bad4d8f813859f6121b51c927eaa4dcint); } else if k == 21 { assert(fsquares(g, 21) == 0x1a35c7c215188748e7e542d149e563e7a4428baab83f69a56b7606628c87fe13int); } else if k == 22 { assert(fsquares(g, 22) == 0x720ae8ff3738e762084a601dc0ff1294297fb210a4777bce414e9afbe9fe8391int); } else if k == 23 { assert(fsquares(g, 23) == 0x58335464ad9e9cae4e3c072e4a91613482a60243cab735b648512d6f616d5433int); } else if k == 24 { assert(fsquares(g, 24) == 0x429265f1d3e7fa86a1fadf67d487e6d964d94839da7a182571aadd3d0c035396int); } else if k == 25 { assert(fsquares(g, 25) == 0x729ad34c57d4ef07d0322a356af7bf83aeffcf6d731d38a410cdf80b4199e4d7int); } else if k == 26 { assert(fsquares(g, 26) == 0x2be12a4eb7fdd2448fffef1afca5eaf4dc9863ce38faf65ad7339e32176a1bd8int); } else if k == 27 { assert(fsquares(g, 27) == 0x2a98b3de1e8d05396c576a792ed0dd3cafe4f76895ae53bfade986863f8b7153int); } else if k == 28 { assert(fsquares(g, 28) == 0x689f65808ca09717b3829a115bd0634cb70b4a5ea3e0c94cdcf15f2f4e706efeint); } else if k == 29 { assert(fsquares(g, 29) == 0x64261cc222fdf91936919a42327a03e770bccb15393bcf7b9eb16e5f4ed5cd46int); } else if k == 30 { assert(fsquares(g, 30) == 0x27359bd349c3f009050fce0e2c4d5f1154a815fea49a9a0a8baf83d6aca8566eint); } else if k == 31 { assert(fsquares(g, 31) == 0x46e02401a9194f3106d1137895c1d407deff7dc6ff0f95c4bb188d53056fd0d8int); }
    }
}

} // verus!
