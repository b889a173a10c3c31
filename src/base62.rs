//! Base62 encoding of 64-bit identifiers over the alphabet `0-9A-Za-z`.

use vstd::prelude::*;

verus! {

/// An error decoding a number from base62.
#[derive(Debug, Clone, Copy, PartialEq, Eq, Structural)]
pub enum DecodingError {
    /// Encountered a non-base62 character in a base62 string.
    InvalidBase62(char),
    /// Encountered integer overflow when decoding a base62 id.
    Overflow,
}

/// The value of a base62 digit, if `c` is one.
pub open spec fn digit_value(c: char) -> Option<nat> {
    if '0' <= c && c <= '9' {
        Some((c as nat - '0' as nat) as nat)
    } else if 'A' <= c && c <= 'Z' {
        Some((10 + (c as nat - 'A' as nat)) as nat)
    } else if 'a' <= c && c <= 'z' {
        Some((36 + (c as nat - 'a' as nat)) as nat)
    } else {
        None
    }
}

/// The character that writes digit `d` (for `d < 62`).
pub open spec fn digit_char(d: nat) -> char {
    if d < 10 {
        ('0' as nat + d) as char
    } else if d < 36 {
        ('A' as nat + (d - 10)) as char
    } else {
        ('a' as nat + (d - 36)) as char
    }
}

/// The number that a string of base62 digits writes, most significant first.
/// Characters outside the alphabet count as zero; `decode` rules them out.
pub open spec fn value_of(s: Seq<char>) -> nat
    decreases s.len(),
{
    if s.len() == 0 {
        0
    } else {
        value_of(s.drop_last()) * 62 + match digit_value(s.last()) {
            Some(d) => d,
            None => 0,
        }
    }
}

/// The shortest base62 numeral of `n`; zero is written as the empty string.
pub open spec fn encode(n: nat) -> Seq<char>
    decreases n,
{
    if n == 0 {
        Seq::empty()
    } else {
        encode(n / 62).push(digit_char(n % 62))
    }
}

/// The index of the first character outside the alphabet, or the length of `s`.
pub open spec fn first_invalid(s: Seq<char>) -> nat
    decreases s.len(),
{
    if s.len() == 0 {
        0
    } else if digit_value(s[0]) is None {
        0
    } else {
        1 + first_invalid(s.drop_first())
    }
}

/// Decoding fails on the first character outside the alphabet, naming it; a string
/// of digits only fails where its value exceeds `u64::MAX`.
pub open spec fn decode(s: Seq<char>) -> Result<u64, DecodingError> {
    let i = first_invalid(s) as int;
    if i < s.len() {
        Err(DecodingError::InvalidBase62(s[i]))
    } else if value_of(s) > u64::MAX {
        Err(DecodingError::Overflow)
    } else {
        Ok(value_of(s) as u64)
    }
}


/// `take(n + 1)` of a sequence is `take(n)` with one more element.
proof fn lemma_take_step(s: Seq<char>, n: int)
    requires
        0 <= n < s.len(),
    ensures
        s.take(n + 1).drop_last() == s.take(n),
        s.take(n + 1).last() == s[n],
{
    assert(s.take(n + 1).drop_last() =~= s.take(n));
}

/// A longer prefix never writes a smaller number.
proof fn lemma_value_prefix_mono(s: Seq<char>, j: int, k: int)
    requires
        0 <= j <= k <= s.len(),
    ensures
        value_of(s.take(j)) <= value_of(s.take(k)),
    decreases k - j,
{
    if j < k {
        lemma_take_step(s, k - 1);
        lemma_value_prefix_mono(s, j, k - 1);
    }
}

/// Where the first `i` characters are digits, the first invalid index is at least `i`,
/// and it is `i` exactly when the character at `i` is no digit.
proof fn lemma_first_invalid(s: Seq<char>, i: int)
    requires
        0 <= i <= s.len(),
        forall|j: int| 0 <= j < i ==> digit_value(#[trigger] s[j]) is Some,
    ensures
        i <= first_invalid(s) <= s.len(),
        i < s.len() && digit_value(s[i]) is None ==> first_invalid(s) == i,
    decreases i,
{
    if s.len() > 0 {
        if i > 0 {
            let t = s.drop_first();
            assert forall|j: int| 0 <= j < i - 1 implies digit_value(#[trigger] t[j]) is Some by {
                assert(t[j] == s[j + 1]);
            }
            lemma_first_invalid(t, i - 1);
        } else {
            lemma_first_invalid_bound(s);
        }
    }
}

proof fn lemma_first_invalid_bound(s: Seq<char>)
    ensures
        first_invalid(s) <= s.len(),
    decreases s.len(),
{
    if s.len() > 0 {
        lemma_first_invalid_bound(s.drop_first());
    }
}

/// Every character of an encoding is a digit.
proof fn lemma_encode_digits(n: nat)
    ensures
        forall|j: int| 0 <= j < encode(n).len() ==> digit_value(#[trigger] encode(n)[j]) is Some,
    decreases n,
{
    if n > 0 {
        lemma_encode_digits(n / 62);
        lemma_digit_round_trip(n % 62);
        let e = encode(n);
        assert forall|j: int| 0 <= j < e.len() implies digit_value(#[trigger] e[j]) is Some by {
            if j < e.len() - 1 {
                assert(e[j] == encode(n / 62)[j]);
            }
        }
    }
}

/// Digits and their characters are inverse to each other.
proof fn lemma_digit_round_trip(d: nat)
    requires
        d < 62,
    ensures
        digit_value(digit_char(d)) == Some(d),
{
}

/// The value of an encoding is the number encoded.
pub proof fn lemma_value_of_encode(n: nat)
    ensures
        value_of(encode(n)) == n,
    decreases n,
{
    if n > 0 {
        lemma_value_of_encode(n / 62);
        lemma_digit_round_trip(n % 62);
        let e = encode(n);
        assert(e.drop_last() =~= encode(n / 62));
    }
}

/// Decoding the encoding of any 64-bit number gives that number back.
pub proof fn lemma_decode_encode(n: u64)
    ensures
        decode(encode(n as nat)) == Ok::<u64, DecodingError>(n),
{
    let e = encode(n as nat);
    lemma_encode_digits(n as nat);
    lemma_first_invalid(e, e.len() as int);
    lemma_value_of_encode(n as nat);
    assert(e.take(e.len() as int) =~= e);
}

/// A string that holds a character outside the alphabet fails to decode with the
/// first such character, whatever the digits before it.
pub proof fn lemma_decode_invalid(s: Seq<char>, i: int)
    requires
        0 <= i < s.len(),
        digit_value(s[i]) is None,
        forall|j: int| 0 <= j < i ==> digit_value(#[trigger] s[j]) is Some,
    ensures
        decode(s) == Err::<u64, DecodingError>(DecodingError::InvalidBase62(s[i])),
{
    lemma_first_invalid(s, i);
}

/// A string of digits whose value exceeds `u64::MAX` fails to decode with an overflow.
pub proof fn lemma_decode_overflow(s: Seq<char>)
    requires
        forall|j: int| 0 <= j < s.len() ==> digit_value(#[trigger] s[j]) is Some,
        value_of(s) > u64::MAX,
    ensures
        decode(s) == Err::<u64, DecodingError>(DecodingError::Overflow),
{
    lemma_first_invalid(s, s.len() as int);
}

/// Relies on `String::push`: appends one character at the end.
#[verifier::external_body]
pub(crate) fn push_char(s: &mut String, c: char)
    ensures
        final(s)@ == old(s)@.push(c),
{
    s.push(c)
}

fn digit_char_exec(d: u64) -> (c: char)
    requires
        d < 62,
    ensures
        c == digit_char(d as nat),
{
    let b: u8 = if d < 10 {
        48u8 + d as u8
    } else if d < 36 {
        65u8 + (d - 10) as u8
    } else {
        97u8 + (d - 36) as u8
    };
    b as char
}

/// Writes `num` in base62, most significant digit first; zero gives the empty string.
pub fn to_base62(num: u64) -> (r: String)
    ensures
        r@ == encode(num as nat),
{
    let mut n = num;
    let mut digits: Vec<char> = Vec::new();
    while n > 0
        invariant
            encode(num as nat) == encode(n as nat) + digits@,
        decreases n,
    {
        let c = digit_char_exec(n % 62);
        let ghost before = digits@;
        digits.insert(0, c);
        proof {
            assert(encode(n as nat) + before =~= encode((n / 62) as nat) + digits@);
        }
        n = n / 62;
    }
    assert(encode(0) =~= Seq::<char>::empty());
    let mut output = String::new();
    let mut i: usize = 0;
    while i < digits.len()
        invariant
            i <= digits.len(),
            output@ == digits@.take(i as int),
            encode(num as nat) == digits@,
        decreases digits.len() - i,
    {
        push_char(&mut output, digits[i]);
        assert(digits@.take(i + 1) =~= digits@.take(i as int).push(digits@[i as int]));
        i = i + 1;
    }
    assert(digits@.take(i as int) =~= digits@);
    output
}

fn digit_of(c: char) -> (r: Option<u64>)
    ensures
        r matches Some(d) ==> digit_value(c) == Some(d as nat),
        r is None ==> digit_value(c) is None,
{
    if '0' <= c && c <= '9' {
        Some((c as u32 - '0' as u32) as u64)
    } else if 'A' <= c && c <= 'Z' {
        Some(10 + (c as u32 - 'A' as u32) as u64)
    } else if 'a' <= c && c <= 'z' {
        Some(36 + (c as u32 - 'a' as u32) as u64)
    } else {
        None
    }
}

/// Reads a base62 numeral: the first character outside the alphabet is reported,
/// else an overflow of `u64`, else the value.
pub fn parse_base62(string: &str) -> (r: Result<u64, DecodingError>)
    ensures
        r == decode(string@),
{
    let ghost s = string@;
    let mut num: u64 = 0;
    let mut overflowed = false;
    for c in it: string.chars()
        invariant
            it.seq() == s,
            s == string@,
            0 <= it.index() <= s.len(),
            overflowed <==> value_of(s.take(it.index() as int)) > u64::MAX,
            !overflowed ==> num as nat == value_of(s.take(it.index() as int)),
            forall|j: int| 0 <= j < it.index() ==> digit_value(#[trigger] s[j]) is Some,
    {
        let ghost i = it.index() as int;
        assert(c == s[i]);
        match digit_of(c) {
            None => {
                proof {
                    lemma_decode_invalid(s, i);
                }
                return Err(DecodingError::InvalidBase62(c));
            },
            Some(d) => {
                proof {
                    lemma_take_step(s, i);
                    lemma_value_prefix_mono(s, i, i + 1);
                }
                if !overflowed {
                    if num > (u64::MAX - d) / 62 {
                        proof {
                            assert(value_of(s.take(i + 1)) > u64::MAX) by (nonlinear_arith)
                                requires
                                    value_of(s.take(i + 1)) == num * 62 + d,
                                    num > (u64::MAX - d) / 62,
                                    d < 62;
                        }
                        overflowed = true;
                    } else {
                        proof {
                            assert(num * 62 + d <= u64::MAX) by (nonlinear_arith)
                                requires
                                    num <= (u64::MAX - d) / 62,
                                    d < 62;
                        }
                        num = num * 62 + d;
                    }
                }
            },
        }
    }
    proof {
        lemma_first_invalid(s, s.len() as int);
        assert(s.take(s.len() as int) =~= s);
    }
    if overflowed {
        Err(DecodingError::Overflow)
    } else {
        Ok(num)
    }
}

} // verus!
