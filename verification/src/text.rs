//! Small helpers on strings and byte strings.

use vstd::prelude::*;
use vstd::string::*;

verus! {

/// The result of `str::to_lowercase` on the given characters: the lowercase
/// equivalent as Unicode defines it.
pub uninterp spec fn lowercase(s: Seq<char>) -> Seq<char>;

/// Calls `str::to_lowercase`. Its result is given the name [`lowercase`];
/// nothing more is claimed of it.
#[verifier::external_body]
pub(crate) fn to_lowercase(s: &str) -> (r: String)
    ensures
        r@ == lowercase(s@),
{
    s.to_lowercase()
}

/// The result of `str::trim` on the given characters: the text without its
/// leading and trailing whitespace, as Unicode defines whitespace.
pub uninterp spec fn trimmed(s: Seq<char>) -> Seq<char>;

/// Calls `str::trim`. Its result is given the name [`trimmed`]; nothing more
/// is claimed of it.
#[verifier::external_body]
pub(crate) fn trim(s: &str) -> (r: &str)
    ensures
        r@ == trimmed(s@),
{
    s.trim()
}

/// Whether two string slices hold the same characters.
pub fn str_eq(a: &str, b: &str) -> (r: bool)
    ensures
        r == (a@ == b@),
{
    let x = a.to_owned();
    let y = b.to_owned();
    x == y
}

/// The concatenation of two string slices as a new `String`.
pub fn concat(a: &str, b: &str) -> (r: String)
    ensures
        r@ == a@ + b@,
{
    let mut out = a.to_owned();
    out.append(b);
    out
}

/// The character of a digit below sixteen: `0` to `9`, then `a` to `f`.
pub open spec fn digit(d: int) -> char {
    if d == 0 {
        '0'
    } else if d == 1 {
        '1'
    } else if d == 2 {
        '2'
    } else if d == 3 {
        '3'
    } else if d == 4 {
        '4'
    } else if d == 5 {
        '5'
    } else if d == 6 {
        '6'
    } else if d == 7 {
        '7'
    } else if d == 8 {
        '8'
    } else if d == 9 {
        '9'
    } else if d == 10 {
        'a'
    } else if d == 11 {
        'b'
    } else if d == 12 {
        'c'
    } else if d == 13 {
        'd'
    } else if d == 14 {
        'e'
    } else {
        'f'
    }
}

/// A number in decimal digits, without leading zeros.
pub open spec fn decimal(n: nat) -> Seq<char>
    decreases n,
{
    if n < 10 {
        seq![digit(n as int)]
    } else {
        decimal(n / 10).push(digit((n % 10) as int))
    }
}

/// A number in decimal digits is at least one digit, each of them between
/// `0` and `9`.
pub proof fn lemma_decimal_digits(n: nat)
    ensures
        decimal(n).len() >= 1,
        forall|i: int| 0 <= i < decimal(n).len() ==> '0' <= #[trigger] decimal(n)[i] <= '9',
    decreases n,
{
    if n >= 10 {
        lemma_decimal_digits(n / 10);
    }
}

/// A number in decimal digits, behind a minus sign where it is negative.
pub open spec fn signed_decimal(n: int) -> Seq<char> {
    if n < 0 {
        seq!['-'] + decimal((-n) as nat)
    } else {
        decimal(n as nat)
    }
}

/// Bytes in lowercase hexadecimal digits, two for each byte.
pub open spec fn hex(bytes: Seq<u8>) -> Seq<char>
    decreases bytes.len(),
{
    if bytes.len() == 0 {
        Seq::empty()
    } else {
        hex(bytes.drop_last()).push(digit(bytes.last() as int / 16)).push(
            digit(bytes.last() as int % 16),
        )
    }
}

/// The text of one digit below sixteen.
fn digit_str(d: u8) -> (s: &'static str)
    requires
        d < 16,
    ensures
        s@ == seq![digit(d as int)],
{
    proof {
        reveal_strlit("0");
        reveal_strlit("1");
        reveal_strlit("2");
        reveal_strlit("3");
        reveal_strlit("4");
        reveal_strlit("5");
        reveal_strlit("6");
        reveal_strlit("7");
        reveal_strlit("8");
        reveal_strlit("9");
        reveal_strlit("a");
        reveal_strlit("b");
        reveal_strlit("c");
        reveal_strlit("d");
        reveal_strlit("e");
        reveal_strlit("f");
    }
    let s = match d {
        0 => "0",
        1 => "1",
        2 => "2",
        3 => "3",
        4 => "4",
        5 => "5",
        6 => "6",
        7 => "7",
        8 => "8",
        9 => "9",
        10 => "a",
        11 => "b",
        12 => "c",
        13 => "d",
        14 => "e",
        _ => "f",
    };
    s
}

/// Writes a number in decimal digits.
pub fn decimal_string(n: u64) -> (s: String)
    ensures
        s@ == decimal(n as nat),
    decreases n,
{
    if n < 10 {
        digit_str(n as u8).to_owned()
    } else {
        let mut s = decimal_string(n / 10);
        s.append(digit_str((n % 10) as u8));
        s
    }
}

/// Writes a number in decimal digits, behind a minus sign where it is
/// negative.
pub fn signed_decimal_string(n: i64) -> (s: String)
    ensures
        s@ == signed_decimal(n as int),
{
    if n < 0 {
        let magnitude: u64 = (-(n + 1)) as u64 + 1;
        proof {
            reveal_strlit("-");
        }
        let digits = decimal_string(magnitude);
        concat("-", digits.as_str())
    } else {
        decimal_string(n as u64)
    }
}

/// Writes bytes in lowercase hexadecimal digits, two for each byte.
pub fn hex_string(bytes: &[u8]) -> (s: String)
    ensures
        s@ == hex(bytes@),
{
    let mut s = String::new();
    let mut i: usize = 0;
    while i < bytes.len()
        invariant
            i <= bytes@.len(),
            s@ == hex(bytes@.take(i as int)),
        decreases bytes@.len() - i,
    {
        let b = bytes[i];
        s.append(digit_str(b / 16));
        s.append(digit_str(b % 16));
        proof {
            assert(bytes@.take(i + 1).drop_last() =~= bytes@.take(i as int));
        }
        i += 1;
    }
    proof {
        assert(bytes@.take(i as int) =~= bytes@);
    }
    s
}

/// Whether a text has another text in it at a given place.
pub open spec fn holds_at(s: Seq<char>, at: int, part: Seq<char>) -> bool {
    &&& 0 <= at
    &&& at + part.len() <= s.len()
    &&& s.subrange(at, at + part.len()) == part
}

/// Whether a text begins with another text.
pub open spec fn begins_with(s: Seq<char>, prefix: Seq<char>) -> bool {
    holds_at(s, 0, prefix)
}

/// A text without every copy of a prefix that it begins with: the prefix is
/// taken away as often as the text begins with it.
pub open spec fn without_prefixes(s: Seq<char>, prefix: Seq<char>) -> Seq<char>
    decreases s.len(),
{
    if prefix.len() > 0 && begins_with(s, prefix) {
        without_prefixes(s.skip(prefix.len() as int), prefix)
    } else {
        s
    }
}

/// Tells whether `s`, of `len` characters, has `part` at the place `at`.
fn has_at(s: &str, len: usize, at: usize, part: &str) -> (found: bool)
    requires
        len == s@.len(),
        at <= len,
    ensures
        found == holds_at(s@, at as int, part@),
{
    let n = part.unicode_len();
    if n > len - at {
        return false;
    }
    let mut j: usize = 0;
    while j < n
        invariant
            n == part@.len(),
            len == s@.len(),
            at + n <= len,
            j <= n,
            forall|k: int| 0 <= k < j ==> s@[at + k] == part@[k],
        decreases n - j,
    {
        if s.get_char(at + j) != part.get_char(j) {
            return false;
        }
        j += 1;
    }
    proof {
        assert(s@.subrange(at as int, at + n) =~= part@);
    }
    true
}

/// Tells whether a text begins with another text.
pub fn starts_with(s: &str, prefix: &str) -> (found: bool)
    ensures
        found == begins_with(s@, prefix@),
{
    has_at(s, s.unicode_len(), 0, prefix)
}

/// Takes a prefix away from the beginning of a text as often as the text
/// begins with it. An empty prefix takes nothing away.
pub fn strip_prefixes<'a>(s: &'a str, prefix: &str) -> (rest: &'a str)
    ensures
        rest@ == without_prefixes(s@, prefix@),
{
    let len = s.unicode_len();
    let n = prefix.unicode_len();
    if n == 0 {
        return s;
    }
    let mut at: usize = 0;
    proof {
        assert(s@.skip(0) =~= s@);
    }
    while has_at(s, len, at, prefix)
        invariant
            len == s@.len(),
            n == prefix@.len(),
            n > 0,
            at <= len,
            without_prefixes(s@, prefix@) == without_prefixes(s@.skip(at as int), prefix@),
        decreases len - at,
    {
        proof {
            let here = s@.skip(at as int);
            assert(here.subrange(0, n as int) =~= s@.subrange(at as int, at + n));
            assert(here.skip(n as int) =~= s@.skip(at + n));
        }
        at += n;
    }
    proof {
        let here = s@.skip(at as int);
        if at + n <= len {
            assert(here.subrange(0, n as int) =~= s@.subrange(at as int, at + n));
        }
    }
    s.substring_char(at, len)
}

} // verus!
