//! Verified text helpers: decimal formatting, ASCII case folding,
//! byte-level substring search and digit parsing.

use vstd::prelude::*;
use vstd::string::StringSliceAdditionalSpecFns;

verus! {

/// The character for one decimal digit.
pub open spec fn spec_digit(d: int) -> char {
    if d == 0 { '0' }
    else if d == 1 { '1' }
    else if d == 2 { '2' }
    else if d == 3 { '3' }
    else if d == 4 { '4' }
    else if d == 5 { '5' }
    else if d == 6 { '6' }
    else if d == 7 { '7' }
    else if d == 8 { '8' }
    else { '9' }
}

/// The usual decimal rendering of a natural number, most significant
/// digit first, with no leading zeros (except for zero itself).
pub open spec fn spec_decimal(n: nat) -> Seq<char>
    decreases n,
{
    if n < 10 {
        seq![spec_digit(n as int)]
    } else {
        spec_decimal(n / 10) + seq![spec_digit((n % 10) as int)]
    }
}

fn digit_str(d: u64) -> (r: &'static str)
    requires
        d < 10,
    ensures
        r@ == seq![spec_digit(d as int)],
        r.is_ascii(),
{
    proof {
        reveal_strlit("0");
        reveal_strlit("1");
        reveal_strlit("2");
        reveal_strlit("3");
        reveal_strlit("4");
        reveal_strlit("5");
        reveal_strlit("6");
        reveal_strlit("7");
        reveal_strlit("8");
        reveal_strlit("9");
    }
    let r = if d == 0 { "0" }
    else if d == 1 { "1" }
    else if d == 2 { "2" }
    else if d == 3 { "3" }
    else if d == 4 { "4" }
    else if d == 5 { "5" }
    else if d == 6 { "6" }
    else if d == 7 { "7" }
    else if d == 8 { "8" }
    else { "9" };
    assert(r@ =~= seq![spec_digit(d as int)]);
    r
}

/// Render a number in decimal.
pub fn decimal_string(n: u64) -> (s: String)
    ensures
        s@ == spec_decimal(n as nat),
    decreases n,
{
    if n < 10 {
        String::from_str(digit_str(n))
    } else {
        let mut s = decimal_string(n / 10);
        s.append(digit_str(n % 10));
        s
    }
}

/// ASCII case folding of one byte: `A`..`Z` map to `a`..`z`, everything
/// else (including every byte of a multi-byte UTF-8 sequence) is unchanged.
pub open spec fn spec_lower_byte(b: u8) -> u8 {
    if 65 <= b <= 90 {
        (b + 32) as u8
    } else {
        b
    }
}

/// ASCII case folding of a byte string.
pub open spec fn spec_lower_bytes(s: Seq<u8>) -> Seq<u8> {
    s.map_values(|b: u8| spec_lower_byte(b))
}

/// Lower-case the ASCII letters of a string's UTF-8 bytes.
#[verifier::loop_isolation(false)]
pub fn to_lower_bytes(s: &str) -> (r: Vec<u8>)
    ensures
        r@ == spec_lower_bytes(s.spec_bytes()),
{
    let bytes = s.as_bytes();
    let mut r: Vec<u8> = Vec::new();
    let mut i: usize = 0;
    while i < bytes.len()
        invariant
            i <= bytes@.len(),
            r@ == spec_lower_bytes(bytes@.subrange(0, i as int)),
        decreases bytes@.len() - i,
    {
        let b = bytes[i];
        if 65 <= b && b <= 90 {
            r.push(b + 32);
        } else {
            r.push(b);
        }
        proof {
            assert(bytes@.subrange(0, i + 1 as int).drop_last() =~= bytes@.subrange(0, i as int));
            assert(r@ =~= spec_lower_bytes(bytes@.subrange(0, i + 1 as int)));
        }
        i = i + 1;
    }
    proof {
        assert(bytes@.subrange(0, bytes@.len() as int) =~= bytes@);
    }
    r
}

/// `needle` occurs as a contiguous run inside `haystack`.
pub open spec fn spec_contains(haystack: Seq<u8>, needle: Seq<u8>) -> bool {
    exists|i: int|
        0 <= i <= haystack.len() - needle.len() && #[trigger] haystack.subrange(
            i,
            i + needle.len(),
        ) =~= needle
}

/// The needle occurs at position `i` of the haystack.
#[verifier::loop_isolation(false)]
fn matches_at(haystack: &Vec<u8>, i: usize, n: &[u8]) -> (r: bool)
    requires
        i + n@.len() <= haystack@.len(),
    ensures
        r == (haystack@.subrange(i as int, i + n@.len()) =~= n@),
{
    let hay_len = haystack.len();
    let mut j: usize = 0;
    while j < n.len()
        invariant
            i + n@.len() <= haystack@.len(),
            j <= n@.len(),
            haystack@.subrange(i as int, i + j as int) =~= n@.subrange(0, j as int),
        decreases n@.len() - j,
    {
        proof {
            assert(i + j < hay_len);
        }
        if haystack[i + j] != n[j] {
            proof {
                assert(haystack@.subrange(i as int, i + n@.len())[j as int] != n@[j as int]);
            }
            return false;
        }
        proof {
            assert(haystack@.subrange(i as int, i + j + 1 as int).drop_last()
                =~= haystack@.subrange(i as int, i + j as int));
            assert(n@.subrange(0, j + 1 as int).drop_last() =~= n@.subrange(0, j as int));
            assert(haystack@.subrange(i as int, i + j + 1 as int).last() == n@.subrange(
                0,
                j + 1 as int,
            ).last());
            assert(haystack@.subrange(i as int, i + j + 1 as int) =~= n@.subrange(0, j + 1 as int));
        }
        j = j + 1;
    }
    proof {
        assert(n@.subrange(0, n@.len() as int) =~= n@);
    }
    true
}

/// Byte-level substring search. For an ASCII needle this agrees with
/// character-level search on any UTF-8 haystack.
#[verifier::loop_isolation(false)]
pub fn contains_bytes(haystack: &Vec<u8>, needle: &str) -> (r: bool)
    ensures
        r == spec_contains(haystack@, needle.spec_bytes()),
{
    let n = needle.as_bytes();
    if n.len() > haystack.len() {
        return false;
    }
    let mut i: usize = 0;
    while i <= haystack.len() - n.len()
        invariant
            n@.len() <= haystack@.len(),
            i <= haystack@.len() - n@.len() + 1,
            forall|k: int|
                0 <= k < i ==> !(#[trigger] haystack@.subrange(k, k + n@.len()) =~= n@),
        decreases haystack@.len() - n@.len() + 1 - i,
    {
        if matches_at(haystack, i, n) {
            proof {
                let nb = needle.spec_bytes();
                assert(n@ == nb);
                assert(haystack@.subrange(i as int, i + n@.len()) =~= n@);
                assert(i + nb.len() <= haystack@.len());
                assert(haystack@.subrange(i as int, i + nb.len()) =~= nb);
                assert(spec_contains(haystack@, nb));
            }
            return true;
        }
        i = i + 1;
    }
    false
}

/// `p` is a prefix of `s`.
pub open spec fn spec_starts_with(s: Seq<u8>, p: Seq<u8>) -> bool {
    s.len() >= p.len() && s.subrange(0, p.len() as int) =~= p
}

/// Whether the byte string starts with the given prefix.
pub fn starts_with_bytes(v: &Vec<u8>, prefix: &str) -> (r: bool)
    ensures
        r == spec_starts_with(v@, prefix.spec_bytes()),
{
    let p = prefix.as_bytes();
    if p.len() > v.len() {
        return false;
    }
    matches_at(v, 0, p)
}

/// Whether the byte string equals the given string's UTF-8 bytes.
pub fn equals_str_bytes(v: &Vec<u8>, s: &str) -> (r: bool)
    ensures
        r == (v@ =~= s.spec_bytes()),
{
    let b = s.as_bytes();
    if b.len() != v.len() {
        return false;
    }
    let m = matches_at(v, 0, b);
    proof {
        assert(v@.subrange(0, b@.len() as int) =~= v@);
    }
    m
}

/// The value of a run of decimal digit bytes, most significant first.
pub open spec fn spec_digits_value(s: Seq<u8>) -> int
    decreases s.len(),
{
    if s.len() == 0 {
        0
    } else {
        spec_digits_value(s.drop_last()) * 10 + (s.last() - 48)
    }
}

/// Every byte of `s` is an ASCII decimal digit.
pub open spec fn spec_all_digits(s: Seq<u8>) -> bool {
    forall|i: int| 0 <= i < s.len() ==> 48 <= #[trigger] s[i] <= 57
}

/// Parse a run of decimal digit bytes as a `u32`.
///
/// Returns `Some` exactly when the run is non-empty, all digits, and its
/// value fits in a `u32`.
#[verifier::loop_isolation(false)]
pub fn parse_u32_bytes(s: &[u8]) -> (r: Option<u32>)
    ensures
        match r {
            Some(v) => s@.len() > 0 && spec_all_digits(s@) && v as int == spec_digits_value(s@),
            None => s@.len() == 0 || !spec_all_digits(s@) || spec_digits_value(s@) > u32::MAX,
        },
{
    if s.len() == 0 {
        return None;
    }
    let mut acc: u32 = 0;
    let mut i: usize = 0;
    while i < s.len()
        invariant
            i <= s@.len(),
            spec_all_digits(s@.subrange(0, i as int)),
            acc as int == spec_digits_value(s@.subrange(0, i as int)),
        decreases s@.len() - i,
    {
        let b = s[i];
        if b < 48 || b > 57 {
            return None;
        }
        let d = (b - 48) as u32;
        if acc > (u32::MAX - d) / 10 {
            // The running value would exceed u32::MAX.
            proof {
                let prefix = s@.subrange(0, i + 1 as int);
                assert(prefix.drop_last() =~= s@.subrange(0, i as int));
                assert(spec_digits_value(prefix) == acc * 10 + d);
                assert(acc * 10 + d > u32::MAX);
                lemma_digits_value_grows(s@, i as int);
            }
            return None;
        }
        acc = acc * 10 + d;
        proof {
            assert(s@.subrange(0, i + 1 as int).drop_last() =~= s@.subrange(0, i as int));
        }
        i = i + 1;
    }
    proof {
        assert(s@.subrange(0, s@.len() as int) =~= s@);
    }
    Some(acc)
}

/// Once a digit prefix exceeds `u32::MAX`, every extension of it does too.
proof fn lemma_digits_value_grows(s: Seq<u8>, i: int)
    requires
        0 <= i < s.len(),
        spec_all_digits(s.subrange(0, i + 1)),
        spec_digits_value(s.subrange(0, i + 1)) > u32::MAX,
    ensures
        !spec_all_digits(s) || spec_digits_value(s) > u32::MAX,
    decreases s.len() - i,
{
    if i + 1 == s.len() {
        assert(s.subrange(0, i + 1) =~= s);
    } else {
        if spec_all_digits(s) {
            assert(spec_all_digits(s.subrange(0, i + 2))) by {
                assert(forall|k: int|
                    0 <= k < i + 2 ==> s.subrange(0, i + 2)[k] == #[trigger] s[k]);
            }
            assert(s.subrange(0, i + 2).drop_last() =~= s.subrange(0, i + 1));
            assert(spec_digits_value(s.subrange(0, i + 2)) > u32::MAX);
            lemma_digits_value_grows(s, i + 1);
        }
    }
}

} // verus!
