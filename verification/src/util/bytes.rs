//! Human-readable byte counts, such as `1.50 kb`.
use vstd::prelude::*;

use crate::text::push_char;

verus! {

/// `2^k`.
pub open spec fn pow2(k: nat) -> nat
    decreases k,
{
    if k == 0 {
        1
    } else {
        2 * pow2((k - 1) as nat)
    }
}

/// `1024^k`.
pub open spec fn pow1024(k: nat) -> nat
    decreases k,
{
    if k == 0 {
        1
    } else {
        1024 * pow1024((k - 1) as nat)
    }
}

/// Number of binary digits of `n` (0 for 0).
pub open spec fn bit_len(n: nat) -> nat
    decreases n,
{
    if n == 0 {
        0
    } else {
        1 + bit_len(n / 2)
    }
}

/// Number of low-order bits that a double cannot keep: it holds 53 significant bits.
pub open spec fn dropped_bits(n: nat) -> nat {
    if bit_len(n) > 53 {
        (bit_len(n) - 53) as nat
    } else {
        0
    }
}

/// `n / d`, rounded to the nearest integer, ties to the even one.
pub open spec fn div_round_even(n: nat, d: nat) -> nat
    recommends
        d > 0,
{
    let q = n / d;
    let r = n % d;
    if 2 * r > d || (2 * r == d && q % 2 == 1) {
        q + 1
    } else {
        q
    }
}

/// The value of `n as f64`: the nearest double to `n`, ties to the even significand.
pub open spec fn as_f64(n: nat) -> nat {
    div_round_even(n, pow2(dropped_bits(n))) * pow2(dropped_bits(n))
}

/// Index into `b, kb, mb, gb, tb`: the largest unit, at most `tb`, of which `v` holds one.
pub open spec fn unit_index(v: nat) -> nat {
    if v >= pow1024(4) {
        4
    } else if v >= pow1024(3) {
        3
    } else if v >= pow1024(2) {
        2
    } else if v >= pow1024(1) {
        1
    } else {
        0
    }
}

/// `v` counted in unit `u`, in hundredths, rounded half to even as `{:.2}` rounds.
pub open spec fn hundredths(v: nat, u: nat) -> nat {
    div_round_even(v * 100, pow1024(u))
}

/// The decimal digit for `d < 10`.
pub open spec fn digit_char(d: nat) -> char {
    if d == 0 {
        '0'
    } else if d == 1 {
        '1'
    } else if d == 2 {
        '2'
    } else if d == 3 {
        '3'
    } else if d == 4 {
        '4'
    } else if d == 5 {
        '5'
    } else if d == 6 {
        '6'
    } else if d == 7 {
        '7'
    } else if d == 8 {
        '8'
    } else {
        '9'
    }
}

/// `n` written in decimal, without leading zeros.
pub open spec fn decimal(n: nat) -> Seq<char>
    decreases n,
{
    if n < 10 {
        seq![digit_char(n)]
    } else {
        decimal(n / 10).push(digit_char(n % 10))
    }
}

/// The name of unit `u`.
pub open spec fn unit_name(u: nat) -> Seq<char> {
    if u == 0 {
        seq!['b']
    } else if u == 1 {
        seq!['k', 'b']
    } else if u == 2 {
        seq!['m', 'b']
    } else if u == 3 {
        seq!['g', 'b']
    } else {
        seq!['t', 'b']
    }
}

/// The text for a count of `bytes`: the count as a double, in the largest unit of which it
/// holds one (at most `tb`), with two decimals, a space and the unit's name.
pub open spec fn format_spec(bytes: u64) -> Seq<char> {
    let v = as_f64(bytes as nat);
    let u = unit_index(v);
    let h = hundredths(v, u);
    decimal(h / 100) + seq!['.', digit_char((h % 100) / 10), digit_char(h % 10)] + seq![' ']
        + unit_name(u)
}

proof fn lemma_bit_len_bound(n: nat, k: nat)
    requires
        n < pow2(k),
    ensures
        bit_len(n) <= k,
    decreases k,
{
    if n > 0 {
        assert(k > 0);
        lemma_bit_len_bound(n / 2, (k - 1) as nat);
    }
}

proof fn lemma_pow2_monotonic(a: nat, b: nat)
    requires
        a <= b,
    ensures
        1 <= pow2(a) <= pow2(b),
    decreases b,
{
    if b > a {
        lemma_pow2_monotonic(a, (b - 1) as nat);
    } else if a > 0 {
        lemma_pow2_monotonic((a - 1) as nat, (a - 1) as nat);
    }
}

proof fn lemma_pow2_small(k: nat)
    requires
        k <= 11,
    ensures
        1 <= pow2(k) <= 2048,
{
    lemma_pow2_monotonic(k, 11);
    reveal_with_fuel(pow2, 12);
}

/// Number of binary digits of `n`.
fn bit_length(n: u64) -> (len: u64)
    ensures
        len == bit_len(n as nat),
        len <= 64,
{
    proof {
        reveal_with_fuel(pow2, 65);
        assert(pow2(64) == 0x1_0000_0000_0000_0000);
        lemma_bit_len_bound(n as nat, 64);
    }
    let mut x = n;
    let mut len: u64 = 0;
    while x > 0
        invariant
            len + bit_len(x as nat) == bit_len(n as nat),
            bit_len(n as nat) <= 64,
        decreases x,
    {
        x = x / 2;
        len = len + 1;
    }
    len
}

/// `n / d` rounded to the nearest integer, ties to the even one.
fn div_round_even_exec(n: u128, d: u128) -> (q: u128)
    requires
        d > 0,
        d <= 0x1_0000_0000_0000_0000u128,
        n < 0x8000_0000_0000_0000_0000_0000_0000_0000u128,
    ensures
        q == div_round_even(n as nat, d as nat),
{
    let q = n / d;
    let r = n % d;
    if 2 * r > d || (2 * r == d && q % 2 == 1) {
        q + 1
    } else {
        q
    }
}

/// The value of `n as f64`, computed exactly on integers.
fn nearest_double(n: u64) -> (v: u128)
    ensures
        v == as_f64(n as nat),
        v <= 0x1_0000_0000_0000_0000 + 2048,
{
    let len = bit_length(n);
    if len <= 53 {
        proof {
            assert(dropped_bits(n as nat) == 0);
            assert(pow2(0) == 1);
        }
        return n as u128;
    }
    let s = len - 53;
    let mut m: u128 = 1;
    let mut i: u64 = 0;
    while i < s
        invariant
            i <= s,
            s <= 11,
            m == pow2(i as nat),
        decreases s - i,
    {
        proof {
            lemma_pow2_small(i as nat);
        }
        m = m * 2;
        i = i + 1;
    }
    proof {
        lemma_pow2_small(s as nat);
    }
    let wide = n as u128;
    let q = div_round_even_exec(wide, m);
    assert(q * m <= wide + m) by (nonlinear_arith)
        requires
            m > 0,
            q == div_round_even(wide as nat, m as nat),
    {
        assert(wide == (wide / m) * m + wide % m);
    }
    q * m
}

/// The decimal digit for `d < 10`.
fn digit(d: u64) -> (c: char)
    requires
        d < 10,
    ensures
        c == digit_char(d as nat),
{
    if d == 0 {
        '0'
    } else if d == 1 {
        '1'
    } else if d == 2 {
        '2'
    } else if d == 3 {
        '3'
    } else if d == 4 {
        '4'
    } else if d == 5 {
        '5'
    } else if d == 6 {
        '6'
    } else if d == 7 {
        '7'
    } else if d == 8 {
        '8'
    } else {
        '9'
    }
}

/// Appends `n` in decimal to `s`.
fn push_decimal(s: &mut String, n: u64)
    ensures
        final(s)@ == old(s)@ + decimal(n as nat),
    decreases n,
{
    if n >= 10 {
        push_decimal(s, n / 10);
    }
    push_char(s, digit(n % 10));
    proof {
        if n < 10 {
            assert(old(s)@ + decimal(n as nat) == old(s)@.push(digit_char(n as nat)));
        } else {
            assert(old(s)@ + decimal(n as nat) == (old(s)@ + decimal((n / 10) as nat)).push(
                digit_char((n % 10) as nat),
            ));
        }
    }
}

/// The unit index of `v` and `1024` raised to it.
fn unit_of(v: u128) -> (r: (u64, u128))
    ensures
        r.0 == unit_index(v as nat),
        r.1 == pow1024(r.0 as nat),
{
    proof {
        reveal_with_fuel(pow1024, 5);
    }
    if v >= 1099511627776 {
        (4, 1099511627776)
    } else if v >= 1073741824 {
        (3, 1073741824)
    } else if v >= 1048576 {
        (2, 1048576)
    } else if v >= 1024 {
        (1, 1024)
    } else {
        (0, 1)
    }
}

/// `v` counted in unit `u`, in hundredths.
fn hundredths_exec(v: u128, u: u64, scale: u128) -> (h: u64)
    requires
        v <= 0x1_0000_0000_0000_0000 + 2048,
        u == unit_index(v as nat),
        scale == pow1024(u as nat),
    ensures
        h == hundredths(v as nat, u as nat),
{
    proof {
        reveal_with_fuel(pow1024, 5);
    }
    let h = div_round_even_exec(v * 100, scale);
    let n = v * 100;
    assert(h <= n / scale + 1);
    assert(h <= u64::MAX) by {
        if u == 0 {
            assert(v < 1024 && scale == 1);
            assert(n / 1 == n);
        } else if u == 1 {
            assert(scale == 1024);
            assert(n / 1024 <= n);
        } else if u == 2 {
            assert(scale == 1048576);
            assert(n / 1048576 <= n / 1024);
        } else if u == 3 {
            assert(scale == 1073741824);
            assert(n / 1073741824 <= n / 1024);
        } else {
            assert(scale == 1099511627776);
            assert(n / 1099511627776 <= n / 1024);
        }
        assert(n / scale <= n / 1024 || u == 0);
    }
    h as u64
}

/// Appends the name of unit `u`.
fn push_unit(s: &mut String, u: u64)
    requires
        u <= 4,
    ensures
        final(s)@ == old(s)@ + unit_name(u as nat),
{
    if u == 1 {
        push_char(s, 'k');
    } else if u == 2 {
        push_char(s, 'm');
    } else if u == 3 {
        push_char(s, 'g');
    } else if u == 4 {
        push_char(s, 't');
    }
    push_char(s, 'b');
}

/// Formats a count of bytes as a short text: the count in the largest unit of
/// `b`, `kb`, `mb`, `gb`, `tb` (powers of 1024) of which it holds at least one,
/// with two decimals, e.g. `1.50 kb`. The count is taken as a double first, as
/// `bytes as f64` does, and the decimals are rounded half to even.
pub fn format(bytes: u64) -> (text: String)
    ensures
        text@ == format_spec(bytes),
{
    let v = nearest_double(bytes);
    let (u, scale) = unit_of(v);
    let h = hundredths_exec(v, u, scale);
    let mut text = String::new();
    push_decimal(&mut text, h / 100);
    push_char(&mut text, '.');
    push_char(&mut text, digit((h % 100) / 10));
    push_char(&mut text, digit(h % 10));
    push_char(&mut text, ' ');
    push_unit(&mut text, u);
    text
}

/// Counts below `2^53` are taken exactly: converting them to a double loses nothing.
pub proof fn lemma_small_counts_exact(bytes: u64)
    requires
        bytes < 0x20_0000_0000_0000,
    ensures
        as_f64(bytes as nat) == bytes,
{
    reveal_with_fuel(pow2, 54);
    assert(pow2(53) == 0x20_0000_0000_0000);
    lemma_bit_len_bound(bytes as nat, 53);
    assert(dropped_bits(bytes as nat) == 0);
    assert(pow2(0) == 1);
    let n = bytes as nat;
    assert(n / 1 == n && n % 1 == 0);
    assert(div_round_even(n, 1) == n);
}

/// The count is shown in the largest unit that it fills: at least `1.00` of it unless
/// the unit is `b`, and at most `1024.00` of it unless the unit is `tb`.
pub proof fn lemma_format_in_range(bytes: u64)
    ensures
        ({
            let v = as_f64(bytes as nat);
            let u = unit_index(v);
            let h = hundredths(v, u);
            &&& u <= 4
            &&& (u > 0 ==> h >= 100)
            &&& (u < 4 ==> h <= 102400)
        }),
{
    reveal_with_fuel(pow1024, 5);
    let v = as_f64(bytes as nat);
    let u = unit_index(v);
    let n = v * 100;
    let d = pow1024(u);
    let q = n / d;
    if u == 1 {
        assert(d == 1024 && 1024 <= v < 1048576);
    } else if u == 2 {
        assert(d == 1048576 && 1048576 <= v < 1073741824);
    } else if u == 3 {
        assert(d == 1073741824 && 1073741824 <= v < 1099511627776);
    } else if u == 4 {
        assert(d == 1099511627776 && 1099511627776 <= v);
    } else {
        assert(d == 1 && v < 1024);
    }
}

/// Large counts stay large as doubles: a count of at least `2^53` converts to at least `2^40`,
/// one `tb`.
proof fn lemma_large_counts_stay_large(bytes: u64)
    requires
        bytes >= 0x20_0000_0000_0000,
    ensures
        as_f64(bytes as nat) >= pow1024(4),
{
    reveal_with_fuel(pow1024, 5);
    reveal_with_fuel(pow2, 65);
    assert(pow2(64) == 0x1_0000_0000_0000_0000);
    lemma_bit_len_bound(bytes as nat, 64);
    let d = dropped_bits(bytes as nat);
    lemma_pow2_small(d);
    let m = pow2(d);
    let n = bytes as nat;
    let q = div_round_even(n, m);
    assert(q >= n / m);
    assert(q * m >= (n / m) * m) by (nonlinear_arith)
        requires
            q >= n / m,
            m >= 1,
    ;
    assert((n / m) * m + m > n) by (nonlinear_arith)
        requires
            m >= 1,
    {
        assert(n == (n / m) * m + n % m);
    }
}

/// A larger count never takes a smaller unit: the unit grows with the count.
pub proof fn lemma_unit_monotonic(a: u64, b: u64)
    requires
        a <= b,
    ensures
        unit_index(as_f64(a as nat)) <= unit_index(as_f64(b as nat)),
{
    reveal_with_fuel(pow1024, 5);
    if b < 0x20_0000_0000_0000 {
        lemma_small_counts_exact(a);
        lemma_small_counts_exact(b);
    } else {
        lemma_large_counts_stay_large(b);
    }
}

/// The number that a string of decimal digits stands for.
pub open spec fn digits_value(s: Seq<char>) -> int
    decreases s.len(),
{
    if s.len() == 0 {
        0
    } else {
        digits_value(s.drop_last()) * 10 + (s.last() as int - '0' as int)
    }
}

/// Writing `n` in decimal gives digits only, without a leading zero (but for 0 itself), that
/// stand for `n`.
pub proof fn lemma_decimal_reads_back(n: nat)
    ensures
        decimal(n).len() >= 1,
        forall|i: int| 0 <= i < decimal(n).len() ==> '0' <= #[trigger] decimal(n)[i] <= '9',
        digits_value(decimal(n)) == n,
        n > 0 ==> decimal(n)[0] != '0',
        n == 0 ==> decimal(n) == seq!['0'],
    decreases n,
{
    let d = digit_char(n % 10);
    assert(d as int == '0' as int + n % 10);
    if n >= 10 {
        lemma_decimal_reads_back(n / 10);
        let s = decimal(n / 10);
        assert(decimal(n) == s.push(d));
        assert(decimal(n).drop_last() == s);
        assert(decimal(n).last() == d);
        assert(digits_value(decimal(n)) == digits_value(s) * 10 + (d as int - '0' as int));
        assert(n == (n / 10) * 10 + n % 10);
        assert forall|i: int| 0 <= i < decimal(n).len() implies '0' <= #[trigger] decimal(n)[i]
            <= '9' by {
            if i < s.len() {
                assert(decimal(n)[i] == s[i]);
            }
        }
    } else {
        assert(decimal(n) == seq![d]);
        assert(decimal(n).drop_last() =~= Seq::<char>::empty());
        assert(decimal(n).last() == d);
        assert(digits_value(Seq::<char>::empty()) == 0);
        assert(digits_value(decimal(n)) == digits_value(Seq::<char>::empty()) * 10 + (d as int
            - '0' as int));
    }
}

/// Rounding a quotient lands within half a step of the exact value, and on a tie it lands on
/// the even integer.
pub proof fn lemma_div_round_even_nearest(n: nat, d: nat)
    requires
        d > 0,
    ensures
        2 * (div_round_even(n, d) * d - n) <= d,
        2 * (n - div_round_even(n, d) * d) <= d,
        2 * (div_round_even(n, d) * d - n) == d || 2 * (n - div_round_even(n, d) * d) == d
            ==> div_round_even(n, d) % 2 == 0,
{
    let q = n / d;
    let r = n % d;
    assert(n == q * d + r && 0 <= r < d) by (nonlinear_arith)
        requires
            d > 0,
            q == n / d,
            r == n % d,
    ;
    assert((q + 1) * d == q * d + d) by (nonlinear_arith);
}

/// A count becomes the double nearest to it: a multiple of the step that a double keeps at
/// its size, within half a step of the count, on the even multiple at a tie.
pub proof fn lemma_as_f64_nearest(n: nat)
    ensures
        as_f64(n) % pow2(dropped_bits(n)) == 0,
        2 * (as_f64(n) - n) <= pow2(dropped_bits(n)),
        2 * (n - as_f64(n)) <= pow2(dropped_bits(n)),
{
    let m = pow2(dropped_bits(n));
    lemma_pow2_monotonic(0, dropped_bits(n));
    lemma_div_round_even_nearest(n, m);
    let q = div_round_even(n, m);
    assert((q * m) % m == 0) by (nonlinear_arith)
        requires
            m > 0,
    ;
}

/// The bits of a positive count: `2^(len-1) <= n < 2^len`.
pub proof fn lemma_bit_len_bits(n: nat)
    requires
        n > 0,
    ensures
        pow2((bit_len(n) - 1) as nat) <= n < pow2(bit_len(n)),
    decreases n,
{
    let k = bit_len(n);
    assert(k == 1 + bit_len(n / 2));
    if n >= 2 {
        lemma_bit_len_bits(n / 2);
        let j = bit_len(n / 2);
        assert(j >= 1);
        assert(pow2(k) == 2 * pow2(j));
        assert(pow2(j) == 2 * pow2((j - 1) as nat));
    } else {
        assert(bit_len(0) == 0);
        assert(pow2(0) == 1);
        assert(pow2(1) == 2 * pow2(0));
    }
}

/// Counts under one kb are shown exactly with `.00 b`; counts of at least one kb, mb, gb or
/// tb (and under the next unit) are shown in that unit.
pub proof fn lemma_format_units(bytes: u64)
    ensures
        bytes < 1024 ==> format_spec(bytes) == decimal(bytes as nat) + seq!['.', '0', '0', ' ', 'b'],
        ({
            let t = format_spec(bytes);
            let n = t.len() as int;
            &&& 1024 <= bytes < 1048576 ==> n >= 3 && t.subrange(n - 3, n) == seq![' ', 'k', 'b']
            &&& 1048576 <= bytes < 1073741824 ==> n >= 3 && t.subrange(n - 3, n) == seq![' ', 'm', 'b']
            &&& 1073741824 <= bytes < 1099511627776 ==> n >= 3 && t.subrange(n - 3, n) == seq![
                ' ',
                'g',
                'b',
            ]
            &&& 1099511627776 <= bytes ==> n >= 3 && t.subrange(n - 3, n) == seq![' ', 't', 'b']
        }),
{
    reveal_with_fuel(pow1024, 5);
    if bytes < 0x20_0000_0000_0000 {
        lemma_small_counts_exact(bytes);
    } else {
        lemma_large_counts_stay_large(bytes);
    }
    let v = as_f64(bytes as nat);
    let u = unit_index(v);
    let h = hundredths(v, u);
    let head = decimal(h / 100) + seq!['.', digit_char((h % 100) / 10), digit_char(h % 10)] + seq![' '];
    assert(format_spec(bytes) == head + unit_name(u));
    if bytes < 1024 {
        assert(u == 0 && pow1024(0) == 1);
        assert(v * 100 / 1 == v * 100 && (v * 100) % 1 == 0);
        assert(h == v * 100);
        assert(h / 100 == bytes && h % 100 == 0);
        assert(format_spec(bytes) =~= decimal(bytes as nat) + seq!['.', '0', '0', ' ', 'b']);
    } else {
        let t = format_spec(bytes);
        assert(t.subrange(t.len() - 3, t.len() as int) =~= seq![' '] + unit_name(u));
    }
}

} // verus!
