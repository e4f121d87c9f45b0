//! Allocation-free decimal rendering of integers into ASCII byte buffers.
use vstd::prelude::*;

verus! {

/// The ASCII code of the decimal digit `d` (`0 <= d < 10`).
pub open spec fn digit_byte(d: nat) -> u8 {
    (48 + d) as u8
}

/// The decimal representation of `n`, most significant digit first,
/// without leading zeros (`0` is rendered as a single `'0'`).
pub open spec fn decimal_digits(n: nat) -> Seq<u8>
    decreases n,
{
    if n < 10 {
        seq![digit_byte(n)]
    } else {
        decimal_digits(n / 10).push(digit_byte(n % 10))
    }
}

/// The value denoted by a sequence of ASCII decimal digits.
pub open spec fn digits_value(s: Seq<u8>) -> nat
    decreases s.len(),
{
    if s.len() == 0 {
        0
    } else {
        digits_value(s.drop_last()) * 10 + (s.last() - 48) as nat
    }
}

/// The decimal digits of `n`, least significant digit first.
spec fn rev_digits(n: nat) -> Seq<u8>
    decreases n,
{
    if n < 10 {
        seq![digit_byte(n)]
    } else {
        seq![digit_byte(n % 10)] + rev_digits(n / 10)
    }
}

proof fn lemma_rev_digits_reverse(n: nat)
    ensures
        rev_digits(n).len() == decimal_digits(n).len(),
        forall|i: int|
            0 <= i < decimal_digits(n).len() ==> #[trigger] decimal_digits(n)[i] == rev_digits(n)[
                decimal_digits(n).len() - 1 - i
            ],
    decreases n,
{
    if n >= 10 {
        lemma_rev_digits_reverse(n / 10);
    }
}

/// Ten to the power `k`.
spec fn pow10(k: nat) -> nat
    decreases k,
{
    if k == 0 {
        1
    } else {
        10 * pow10((k - 1) as nat)
    }
}

proof fn lemma_digits_len_bound(n: nat, k: nat)
    requires
        k >= 1,
        n < pow10(k),
    ensures
        rev_digits(n).len() <= k,
        rev_digits(n).len() >= 1,
    decreases k,
{
    if n >= 10 {
        if k == 1 {
            assert(pow10(1) == 10) by {
                reveal_with_fuel(pow10, 2);
            }
        } else {
            let q = pow10((k - 1) as nat);
            assert(n / 10 < q);
            lemma_digits_len_bound(n / 10, (k - 1) as nat);
        }
    }
}

/// Every rendered byte is an ASCII decimal digit.
pub proof fn lemma_decimal_digits_are_digits(n: nat)
    ensures
        decimal_digits(n).len() >= 1,
        forall|i: int|
            0 <= i < decimal_digits(n).len() ==> 48 <= #[trigger] decimal_digits(n)[i] <= 57,
    decreases n,
{
    if n >= 10 {
        lemma_decimal_digits_are_digits(n / 10);
    }
}

/// Parsing the rendering back gives the number that was rendered.
pub proof fn lemma_decimal_digits_roundtrip(n: nat)
    ensures
        digits_value(decimal_digits(n)) == n,
    decreases n,
{
    if n >= 10 {
        lemma_decimal_digits_roundtrip(n / 10);
        let s = decimal_digits(n);
        assert(s.drop_last() =~= decimal_digits(n / 10));
        assert(n == (n / 10) * 10 + n % 10) by (nonlinear_arith);
        assert(n % 10 < 10);
        assert(s.last() == digit_byte(n % 10));
        assert(digit_byte(n % 10) == 48 + n % 10);
        assert(digits_value(s) == digits_value(s.drop_last()) * 10 + (s.last() - 48) as nat);
        assert(digits_value(s.drop_last()) == n / 10);
    } else {
        assert(digit_byte(n) == 48 + n);
        assert(decimal_digits(n).drop_last() =~= Seq::<u8>::empty());
        assert(digits_value(Seq::<u8>::empty()) == 0);
    }
}

/// Write `value` as ASCII decimal into `buf`, returning the number of bytes
/// written; the bytes beyond the returned length are left as they were.
pub fn u32_to_ascii_lib(value: u32, buf: &mut [u8; 10]) -> (len: usize)
    ensures
        1 <= len <= 10,
        len == decimal_digits(value as nat).len(),
        final(buf)@.subrange(0, len as int) == decimal_digits(value as nat),
        forall|i: int| len <= i < 10 ==> final(buf)@[i] == old(buf)@[i],
{
    if value == 0 {
        buf[0] = 48u8;
        assert(final(buf)@.subrange(0, 1) =~= decimal_digits(0));
        return 1;
    }
    proof {
        assert(pow10(10) == 10000000000) by {
            reveal_with_fuel(pow10, 11);
        }
        lemma_digits_len_bound(value as nat, 10);
        lemma_rev_digits_reverse(value as nat);
    }
    let ghost v0: nat = value as nat;
    let mut v: u32 = value;
    let mut tmp: [u8; 10] = [0u8; 10];
    let mut len: usize = 0;
    while v > 0
        invariant
            v0 == value,
            pow10(10) == 10000000000,
            rev_digits(v0).len() <= 10,
            len <= 10,
            v > 0 ==> rev_digits(v0) == tmp@.subrange(0, len as int) + rev_digits(v as nat),
            v == 0 ==> rev_digits(v0) == tmp@.subrange(0, len as int),
        decreases v,
    {
        proof {
            lemma_digits_len_bound(v as nat, 10);
        }
        let d: u8 = (v % 10) as u8;
        tmp[len] = 48u8 + d;
        let ghost old_tmp = tmp@;
        v = v / 10;
        len = len + 1;
        assert(tmp@.subrange(0, len as int) =~= tmp@.subrange(0, len - 1) + seq![digit_byte(
            d as nat,
        )]);
    }
    let mut i: usize = 0;
    while i < len
        invariant
            v0 == value,
            len == rev_digits(v0).len(),
            len == decimal_digits(v0).len(),
            len <= 10,
            rev_digits(v0) == tmp@.subrange(0, len as int),
            forall|j: int|
                0 <= j < decimal_digits(v0).len() ==> #[trigger] decimal_digits(v0)[j]
                    == rev_digits(v0)[decimal_digits(v0).len() - 1 - j],
            forall|j: int| 0 <= j < i ==> buf@[j] == decimal_digits(v0)[j],
            forall|j: int| len <= j < 10 ==> buf@[j] == old(buf)@[j],
        decreases len - i,
    {
        buf[i] = tmp[len - 1 - i];
        i = i + 1;
    }
    assert(buf@.subrange(0, len as int) =~= decimal_digits(v0));
    len
}

/// Write a `u64` as ASCII decimal into a 20-byte `buf`, returning the number of bytes
/// written; the bytes beyond the returned length are left as they were.
pub fn u64_to_ascii_20(value: u64, buf: &mut [u8; 20]) -> (len: usize)
    ensures
        1 <= len <= 20,
        len == decimal_digits(value as nat).len(),
        final(buf)@.subrange(0, len as int) == decimal_digits(value as nat),
        forall|i: int| len <= i < 20 ==> final(buf)@[i] == old(buf)@[i],
{
    if value == 0 {
        buf[0] = 48u8;
        assert(final(buf)@.subrange(0, 1) =~= decimal_digits(0));
        return 1;
    }
    proof {
        assert(pow10(20) == 100000000000000000000) by {
            reveal_with_fuel(pow10, 21);
        }
        lemma_digits_len_bound(value as nat, 20);
        lemma_rev_digits_reverse(value as nat);
    }
    let ghost v0: nat = value as nat;
    let mut v: u64 = value;
    let mut tmp: [u8; 20] = [0u8; 20];
    let mut len: usize = 0;
    while v > 0
        invariant
            v0 == value,
            pow10(20) == 100000000000000000000,
            rev_digits(v0).len() <= 20,
            len <= 20,
            v > 0 ==> rev_digits(v0) == tmp@.subrange(0, len as int) + rev_digits(v as nat),
            v == 0 ==> rev_digits(v0) == tmp@.subrange(0, len as int),
        decreases v,
    {
        proof {
            lemma_digits_len_bound(v as nat, 20);
        }
        let d: u8 = (v % 10) as u8;
        tmp[len] = 48u8 + d;
        let ghost old_tmp = tmp@;
        v = v / 10;
        len = len + 1;
        assert(tmp@.subrange(0, len as int) =~= tmp@.subrange(0, len - 1) + seq![digit_byte(
            d as nat,
        )]);
    }
    let mut i: usize = 0;
    while i < len
        invariant
            v0 == value,
            len == rev_digits(v0).len(),
            len == decimal_digits(v0).len(),
            len <= 20,
            rev_digits(v0) == tmp@.subrange(0, len as int),
            forall|j: int|
                0 <= j < decimal_digits(v0).len() ==> #[trigger] decimal_digits(v0)[j]
                    == rev_digits(v0)[decimal_digits(v0).len() - 1 - j],
            forall|j: int| 0 <= j < i ==> buf@[j] == decimal_digits(v0)[j],
            forall|j: int| len <= j < 20 ==> buf@[j] == old(buf)@[j],
        decreases len - i,
    {
        buf[i] = tmp[len - 1 - i];
        i = i + 1;
    }
    assert(buf@.subrange(0, len as int) =~= decimal_digits(v0));
    len
}

/// The decimal rendering of a `u32` as ASCII bytes.
pub fn u32_to_string_lib(value: u32) -> (s: Vec<u8>)
    ensures
        s@ == decimal_digits(value as nat),
{
    let mut buf: [u8; 10] = [0u8; 10];
    let n = u32_to_ascii_lib(value, &mut buf);
    let mut out: Vec<u8> = Vec::new();
    let mut i: usize = 0;
    while i < n
        invariant
            n <= 10,
            buf@.subrange(0, n as int) == decimal_digits(value as nat),
            out@ == buf@.subrange(0, i as int),
            i <= n,
        decreases n - i,
    {
        out.push(buf[i]);
        i = i + 1;
        assert(out@ =~= buf@.subrange(0, i as int));
    }
    out
}

/// The decimal rendering of an `i64`: a leading `'-'` for negative values,
/// then the digits of the magnitude.
pub open spec fn signed_decimal(v: int) -> Seq<u8> {
    if v < 0 {
        seq![45u8] + decimal_digits((-v) as nat)
    } else {
        decimal_digits(v as nat)
    }
}

/// The decimal rendering of an `i64` as ASCII bytes (`i64::MIN` included).
pub fn i64_to_string_lib(value: i64) -> (s: Vec<u8>)
    ensures
        s@ == signed_decimal(value as int),
{
    let negative = value < 0;
    let abs_val: u64 = if negative {
        let wide: i128 = value as i128;
        (0i128 - wide) as u64
    } else {
        value as u64
    };
    let mut tmp: [u8; 20] = [0u8; 20];
    let n = u64_to_ascii_20(abs_val, &mut tmp);
    let mut out: Vec<u8> = Vec::new();
    if negative {
        out.push(45u8);
    }
    let ghost prefix = out@;
    let mut i: usize = 0;
    while i < n
        invariant
            n <= 20,
            tmp@.subrange(0, n as int) == decimal_digits(abs_val as nat),
            out@ == prefix + tmp@.subrange(0, i as int),
            i <= n,
        decreases n - i,
    {
        out.push(tmp[i]);
        i = i + 1;
        assert(out@ =~= prefix + tmp@.subrange(0, i as int));
    }
    assert(out@ =~= prefix + decimal_digits(abs_val as nat));
    out
}

} // verus!
