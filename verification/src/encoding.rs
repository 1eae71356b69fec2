//! Reading the two header values of a delivery: the signature, written in
//! hexadecimal, and the timestamp, written in decimal.

use vstd::prelude::*;

verus! {

/// The value of a hexadecimal digit, in either case.
pub open spec fn hex_value(c: u8) -> Option<u8> {
    if 0x30 <= c <= 0x39 {
        Some((c - 0x30) as u8)
    } else if 0x61 <= c <= 0x66 {
        Some((c - 0x61 + 10) as u8)
    } else if 0x41 <= c <= 0x46 {
        Some((c - 0x41 + 10) as u8)
    } else {
        None
    }
}

/// Whether a text is hexadecimal digits, two for each byte.
pub open spec fn is_hex(s: Seq<u8>) -> bool {
    s.len() % 2 == 0 && forall|i: int| 0 <= i < s.len() ==> hex_value(#[trigger] s[i]) is Some
}

/// The byte that two hexadecimal digits stand for.
pub open spec fn hex_byte(high: u8, low: u8) -> u8
    recommends
        hex_value(high) is Some,
        hex_value(low) is Some,
{
    (hex_value(high)->0 * 16 + hex_value(low)->0) as u8
}

/// The bytes that a hexadecimal text stands for, if it is one.
pub open spec fn hex_decoded(s: Seq<u8>) -> Option<Seq<u8>> {
    if is_hex(s) {
        Some(Seq::new((s.len() / 2) as nat, |i: int| hex_byte(s[2 * i], s[2 * i + 1])))
    } else {
        None
    }
}

/// Reads one hexadecimal digit.
pub fn hex_digit(c: u8) -> (r: Option<u8>)
    ensures
        r == hex_value(c),
        r matches Some(v) ==> v < 16,
{
    if 0x30 <= c && c <= 0x39 {
        Some(c - 0x30)
    } else if 0x61 <= c && c <= 0x66 {
        Some(c - 0x61 + 10)
    } else if 0x41 <= c && c <= 0x46 {
        Some(c - 0x41 + 10)
    } else {
        None
    }
}

/// Reads a hexadecimal text, two digits for each byte.
pub fn decode_hex(s: &[u8]) -> (r: Option<Vec<u8>>)
    ensures
        match r {
            Some(bytes) => hex_decoded(s@) == Some(bytes@),
            None => hex_decoded(s@) is None,
        },
{
    if s.len() % 2 != 0 {
        return None;
    }
    let mut out: Vec<u8> = Vec::new();
    let mut i: usize = 0;
    while i < s.len()
        invariant
            s@.len() % 2 == 0,
            i % 2 == 0,
            i <= s@.len(),
            out@.len() == i / 2,
            forall|j: int| 0 <= j < i ==> hex_value(#[trigger] s@[j]) is Some,
            forall|k: int| 0 <= k < out@.len() ==> out@[k] == hex_byte(s@[2 * k], s@[2 * k + 1]),
        decreases s@.len() - i,
    {
        let high = match hex_digit(s[i]) {
            Some(v) => v,
            None => {
                return None;
            },
        };
        let low = match hex_digit(s[i + 1]) {
            Some(v) => v,
            None => {
                return None;
            },
        };
        out.push(high * 16 + low);
        i += 2;
    }
    assert(out@ =~= hex_decoded(s@)->0);
    Some(out)
}

/// Whether a text is decimal digits, at least one.
pub open spec fn is_decimal(s: Seq<u8>) -> bool {
    s.len() > 0 && forall|i: int| 0 <= i < s.len() ==> 0x30 <= #[trigger] s[i] <= 0x39
}

/// The number that decimal digits stand for.
pub open spec fn decimal_value(s: Seq<u8>) -> nat
    decreases s.len(),
{
    if s.len() == 0 {
        0
    } else {
        decimal_value(s.drop_last()) * 10 + (s.last() - 0x30) as nat
    }
}

/// The number that a decimal text stands for, if it is one and the number
/// fits in 64 bits.
pub open spec fn decimal_read(s: Seq<u8>) -> Option<u64> {
    if is_decimal(s) && decimal_value(s) <= u64::MAX {
        Some(decimal_value(s) as u64)
    } else {
        None
    }
}

/// Digits that begin a decimal text stand for no more than the whole text.
pub proof fn lemma_decimal_prefix(s: Seq<u8>, n: int)
    requires
        0 <= n <= s.len(),
        forall|i: int| 0 <= i < s.len() ==> 0x30 <= #[trigger] s[i] <= 0x39,
    ensures
        decimal_value(s.take(n)) <= decimal_value(s),
    decreases s.len() - n,
{
    if n == s.len() {
        assert(s.take(n) =~= s);
    } else {
        lemma_decimal_prefix(s, n + 1);
        assert(s.take(n + 1).drop_last() =~= s.take(n));
    }
}

/// Reads a decimal text into a number.
pub fn parse_decimal(s: &[u8]) -> (r: Option<u64>)
    ensures
        r == decimal_read(s@),
{
    if s.len() == 0 {
        return None;
    }
    let mut value: u64 = 0;
    let mut i: usize = 0;
    assert(s@.take(0) =~= Seq::<u8>::empty());
    while i < s.len()
        invariant
            i <= s@.len(),
            s@.len() > 0,
            forall|j: int| 0 <= j < i ==> 0x30 <= #[trigger] s@[j] <= 0x39,
            value == decimal_value(s@.take(i as int)),
        decreases s@.len() - i,
    {
        let c = s[i];
        if c < 0x30 || c > 0x39 {
            return None;
        }
        let digit: u64 = (c - 0x30) as u64;
        assert(s@.take(i as int + 1).drop_last() =~= s@.take(i as int));
        assert(s@.take(i as int + 1).last() == c);
        if value > (u64::MAX - digit) / 10 {
            proof {
                if is_decimal(s@) {
                    lemma_decimal_prefix(s@, i as int + 1);
                }
            }
            return None;
        }
        value = value * 10 + digit;
        i += 1;
    }
    assert(s@.take(s@.len() as int) =~= s@);
    Some(value)
}

/// Whether two byte strings are the same, found without stopping at the
/// first difference: strings of one length take the same time to compare
/// wherever they differ.
pub fn constant_time_eq(a: &[u8], b: &[u8]) -> (r: bool)
    ensures
        r == (a@ == b@),
{
    if a.len() != b.len() {
        return false;
    }
    let mut difference: u8 = 0;
    let mut i: usize = 0;
    assert(a@.take(0) =~= b@.take(0));
    while i < a.len()
        invariant
            i <= a@.len(),
            a@.len() == b@.len(),
            difference == 0 <==> a@.take(i as int) == b@.take(i as int),
        decreases a@.len() - i,
    {
        let x = a[i];
        let y = b[i];
        let d = x ^ y;
        let ghost before = difference;
        difference = difference | d;
        proof {
            assert((x ^ y) == 0 <==> x == y) by (bit_vector);
            assert((before | d) == 0 <==> (before == 0 && d == 0)) by (bit_vector);
            let a0 = a@.take(i as int);
            let b0 = b@.take(i as int);
            let a1 = a@.take(i as int + 1);
            let b1 = b@.take(i as int + 1);
            assert(a1 =~= a0.push(x));
            assert(b1 =~= b0.push(y));
            if a1 == b1 {
                assert(a1.drop_last() =~= a0);
                assert(b1.drop_last() =~= b0);
                assert(a1.last() == x && b1.last() == y);
            }
        }
        i += 1;
    }
    assert(a@.take(a@.len() as int) =~= a@);
    assert(b@.take(b@.len() as int) =~= b@);
    difference == 0
}

} // verus!
