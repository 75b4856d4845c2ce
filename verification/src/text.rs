//! Small text utilities shared by the protocol parsers and formatters.
//!
//! Strings are modelled by their character sequences (`s@`).
use vstd::prelude::*;

verus! {

/// Is `c` an ASCII decimal digit?
pub open spec fn is_digit(c: char) -> bool {
    '0' <= c && c <= '9'
}

/// The value of an ASCII decimal digit.
pub open spec fn digit_value(c: char) -> int {
    (c as int) - ('0' as int)
}

/// Are all characters of `d` ASCII decimal digits?
pub open spec fn all_digits(d: Seq<char>) -> bool {
    forall|i: int| 0 <= i < d.len() ==> is_digit(#[trigger] d[i])
}

/// The value of a (possibly empty) run of decimal digits, most significant first.
pub open spec fn digits_value(d: Seq<char>) -> int
    decreases d.len(),
{
    if d.len() == 0 {
        0
    } else {
        digits_value(d.drop_last()) * 10 + digit_value(d.last())
    }
}

/// What `str::parse` gives for an integer type whose range is `min..=max`:
/// an optional `+` (or, for signed types, `-`) followed by at least one decimal
/// digit, whose value lies in the range.
pub open spec fn parse_integer(s: Seq<char>, signed: bool, min: int, max: int) -> Option<int> {
    let negative = signed && s.len() > 0 && s[0] == '-';
    let has_sign = s.len() > 0 && (s[0] == '+' || negative);
    let digits = if has_sign { s.drop_first() } else { s };
    let magnitude = digits_value(digits);
    let value = if negative { -magnitude } else { magnitude };
    if digits.len() > 0 && all_digits(digits) && min <= value && value <= max {
        Some(value)
    } else {
        None
    }
}

/// `str::parse::<u8>`, as an option.
pub open spec fn parse_u8_spec(s: Seq<char>) -> Option<int> {
    parse_integer(s, false, 0, 255)
}

/// `str::parse::<i32>`, as an option.
pub open spec fn parse_i32_spec(s: Seq<char>) -> Option<int> {
    parse_integer(s, true, i32::MIN as int, i32::MAX as int)
}

/// `str::parse::<u8>`. The standard library documents the accepted grammar:
/// an optional `+` sign followed by decimal digits, with the value in `0..=255`.
#[verifier::external_body]
pub(crate) fn parse_u8(s: &str) -> (r: Option<u8>)
    ensures
        match r {
            Some(v) => parse_u8_spec(s@) == Some(v as int),
            None => parse_u8_spec(s@) is None,
        },
{
    s.parse::<u8>().ok()
}

/// `str::parse::<i32>`. The standard library documents the accepted grammar:
/// an optional `+` or `-` sign followed by decimal digits, with the value in range.
#[verifier::external_body]
pub(crate) fn parse_i32(s: &str) -> (r: Option<i32>)
    ensures
        match r {
            Some(v) => parse_i32_spec(s@) == Some(v as int),
            None => parse_i32_spec(s@) is None,
        },
{
    s.parse::<i32>().ok()
}

/// The pieces that `str::split_whitespace` yields for `s`, in order.
pub uninterp spec fn std_split_whitespace(s: Seq<char>) -> Seq<Seq<char>>;

/// `str::split_whitespace`, collected into owned strings. What the split yields
/// (the Unicode `White_Space` property decides the separators) is named, not written out.
#[verifier::external_body]
pub(crate) fn split_whitespace(s: &str) -> (parts: Vec<String>)
    ensures
        parts@.len() == std_split_whitespace(s@).len(),
        forall|i: int| 0 <= i < parts@.len() ==> #[trigger] parts@[i]@ == std_split_whitespace(s@)[i],
{
    s.split_whitespace().map(|p| p.to_string()).collect()
}

/// The string that `str::to_lowercase` returns for `s`.
pub uninterp spec fn std_to_lowercase(s: Seq<char>) -> Seq<char>;

/// ASCII lower-casing of one character.
pub open spec fn ascii_lower(c: char) -> char {
    if 'A' <= c && c <= 'Z' {
        ((c as int) + 32) as char
    } else {
        c
    }
}

/// Are all characters of `s` ASCII?
pub open spec fn is_ascii_text(s: Seq<char>) -> bool {
    forall|i: int| 0 <= i < s.len() ==> (#[trigger] s[i] as int) < 128
}

/// `str::to_lowercase`. Its result is named; for a string of ASCII characters the
/// Unicode lowercase mapping is the ASCII one, character by character.
#[verifier::external_body]
pub(crate) fn to_lowercase(s: &str) -> (r: String)
    ensures
        r@ == std_to_lowercase(s@),
        is_ascii_text(s@) ==> r@ == s@.map_values(
            |c: char| ascii_lower(c),
        ),
{
    s.to_lowercase()
}

/// `String::push`: appends one character.
#[verifier::external_body]
pub(crate) fn push_char(s: &mut String, c: char)
    ensures
        final(s)@ == old(s)@.push(c),
{
    s.push(c);
}

/// Does `s` begin with `prefix`?
pub open spec fn has_prefix(s: Seq<char>, prefix: Seq<char>) -> bool {
    prefix.len() <= s.len() && s.subrange(0, prefix.len() as int) == prefix
}

/// Character-wise equality of two string slices.
pub fn str_eq(a: &str, b: &str) -> (r: bool)
    ensures
        r == (a@ == b@),
{
    let x = chars_of(a);
    let y = chars_of(b);
    if x.len() != y.len() {
        return false;
    }
    let mut i: usize = 0;
    while i < x.len()
        invariant
            x@ == a@,
            y@ == b@,
            x.len() == y.len(),
            i <= x.len(),
            forall|j: int| 0 <= j < i ==> x@[j] == y@[j],
        decreases x.len() - i,
    {
        if x[i] != y[i] {
            return false;
        }
        i = i + 1;
    }
    assert(x@ =~= y@);
    true
}

/// Does `s` begin with `prefix`? (`str::starts_with` for a string prefix.)
pub fn starts_with(s: &str, prefix: &str) -> (r: bool)
    ensures
        r == has_prefix(s@, prefix@),
{
    let x = chars_of(s);
    let p = chars_of(prefix);
    if p.len() > x.len() {
        return false;
    }
    let mut i: usize = 0;
    while i < p.len()
        invariant
            x@ == s@,
            p@ == prefix@,
            p.len() <= x.len(),
            i <= p.len(),
            forall|j: int| 0 <= j < i ==> x@[j] == p@[j],
        decreases p.len() - i,
    {
        if x[i] != p[i] {
            assert(s@.subrange(0, prefix@.len() as int)[i as int] != prefix@[i as int]);
            return false;
        }
        i = i + 1;
    }
    assert(s@.subrange(0, prefix@.len() as int) =~= prefix@);
    true
}

/// Copies the characters of a string slice into a vector.
pub fn chars_of(s: &str) -> (out: Vec<char>)
    ensures
        out@ == s@,
{
    let mut out: Vec<char> = Vec::new();
    for c in it: s.chars()
        invariant
            out@ == it.seq().take(it.index() as int),
            it.seq() == s@,
    {
        out.push(c);
    }
    out
}

/// The decimal digit character for `d < 10`.
pub open spec fn digit_char(d: int) -> char {
    ((d + ('0' as int)) as char)
}

/// The decimal representation of `n`, without leading zeros.
pub open spec fn decimal(n: nat) -> Seq<char>
    decreases n,
{
    if n < 10 {
        seq![digit_char(n as int)]
    } else {
        decimal(n / 10).push(digit_char((n % 10) as int))
    }
}

/// The decimal representation of `n` (what `format!("{}", n)` prints).
pub fn decimal_string(n: u64) -> (s: String)
    ensures
        s@ == decimal(n as nat),
{
    // collect the digits least significant first
    let mut digits: Vec<char> = Vec::new();
    let mut m: u64 = n;
    let ghost mut rest: Seq<char> = Seq::empty();
    loop
        invariant_except_break
            decimal(n as nat) == decimal(m as nat) + rest,
        invariant
            digits@.len() == rest.len(),
            forall|i: int| 0 <= i < rest.len() ==> #[trigger] rest[i] == digits@[rest.len() - 1 - i],
        ensures
            decimal(n as nat) == rest,
        decreases m,
    {
        let d: u64 = m % 10;
        let c = char_of_digit(d);
        if m < 10 {
            digits.push(c);
            proof {
                let old_rest = rest;
                rest = seq![c] + rest;
                assert(decimal(m as nat) =~= seq![c]);
                assert(decimal(n as nat) =~= rest);
                assert forall|i: int| 0 <= i < rest.len() implies #[trigger] rest[i] == digits@[rest.len() - 1 - i] by {
                    if i > 0 {
                        assert(rest[i] == old_rest[i - 1]);
                    }
                }
            }
            break;
        }
        digits.push(c);
        proof {
            let old_rest = rest;
            rest = seq![c] + rest;
            assert(decimal(m as nat) =~= decimal((m / 10) as nat).push(c));
            assert(decimal((m / 10) as nat) + rest =~= decimal(m as nat) + old_rest);
            assert forall|i: int| 0 <= i < rest.len() implies #[trigger] rest[i] == digits@[rest.len() - 1 - i] by {
                if i > 0 {
                    assert(rest[i] == old_rest[i - 1]);
                }
            }
        }
        m = m / 10;
    }
    let mut s = String::new();
    let mut k: usize = digits.len();
    while k > 0
        invariant
            k <= digits@.len(),
            digits@.len() == rest.len(),
            decimal(n as nat) == rest,
            forall|i: int| 0 <= i < rest.len() ==> #[trigger] rest[i] == digits@[rest.len() - 1 - i],
            s@ == rest.subrange(0, (rest.len() - k) as int),
        decreases k,
    {
        k = k - 1;
        let c = digits[k];
        push_char(&mut s, c);
        proof {
            assert(rest[(rest.len() - 1 - k) as int] == c);
            assert(s@ =~= rest.subrange(0, (rest.len() - k) as int));
        }
    }
    assert(s@ =~= rest);
    s
}

/// The digit character for `d < 10`.
pub fn char_of_digit(d: u64) -> (c: char)
    requires
        d < 10,
    ensures
        c == digit_char(d as int),
{
    match d {
        0 => '0',
        1 => '1',
        2 => '2',
        3 => '3',
        4 => '4',
        5 => '5',
        6 => '6',
        7 => '7',
        8 => '8',
        _ => '9',
    }
}

/// Appends a string slice to an owned string.
pub fn append_str(s: &mut String, t: &str)
    ensures
        final(s)@ == old(s)@ + t@,
{
    s.append(t);
}


proof fn lemma_decimal_digits(n: nat)
    ensures
        decimal(n).len() > 0,
        all_digits(decimal(n)),
        digits_value(decimal(n)) == n,
    decreases n,
{
    let last = digit_char((n % 10) as int);
    assert(digit_value(last) == n % 10);
    if n >= 10 {
        lemma_decimal_digits(n / 10);
        let d = decimal(n / 10);
        let full = d.push(digit_char((n % 10) as int));
        assert(full.drop_last() =~= d);
        assert forall|i: int| 0 <= i < full.len() implies is_digit(#[trigger] full[i]) by {
            if i < d.len() {
                assert(full[i] == d[i]);
            }
        }
        assert(digits_value(full) == digits_value(d) * 10 + digit_value(last));
        assert(n == (n / 10) * 10 + n % 10);
    } else {
        let one = seq![digit_char(n as int)];
        assert(one.drop_last() =~= Seq::<char>::empty());
        assert(digits_value(Seq::<char>::empty()) == 0);
        assert(digits_value(one) == digits_value(one.drop_last()) * 10 + digit_value(one.last()));
    }
}

/// Reading back the decimal text of a number gives the number.
pub proof fn lemma_decimal_parses(n: nat)
    ensures
        parse_integer(decimal(n), false, 0, n as int) == Some(n as int),
        n <= 255 ==> parse_u8_spec(decimal(n)) == Some(n as int),
{
    lemma_decimal_digits(n);
    let d = decimal(n);
    assert(d[0] != '+');
    assert(is_digit(d[0]));
}


/// Does `pattern` occur in `s` starting at position `i`?
pub open spec fn occurs_at(s: Seq<char>, pattern: Seq<char>, i: int) -> bool {
    0 <= i && i + pattern.len() <= s.len() && s.subrange(i, i + pattern.len()) == pattern
}

/// Does `pattern` occur in `s`? (`str::contains` for a string pattern.)
pub open spec fn occurs_in(s: Seq<char>, pattern: Seq<char>) -> bool {
    exists|i: int| occurs_at(s, pattern, i)
}

/// Does `pattern` occur in `s`?
pub fn contains(s: &str, pattern: &str) -> (r: bool)
    ensures
        r == occurs_in(s@, pattern@),
{
    let x = chars_of(s);
    let p = chars_of(pattern);
    if p.len() > x.len() {
        assert forall|i: int| !occurs_at(s@, pattern@, i) by {}
        return false;
    }
    let n: usize = x.len();
    let last = n - p.len();
    let mut i: usize = 0;
    while i <= last
        invariant
            x@ == s@,
            p@ == pattern@,
            n == x@.len(),
            last == x@.len() - p@.len(),
            i <= last + 1,
            forall|k: int| 0 <= k < i ==> !occurs_at(s@, pattern@, k),
        decreases last + 1 - i,
    {
        let mut j: usize = 0;
        let mut same = true;
        while j < p.len()
            invariant
                x@ == s@,
                p@ == pattern@,
                i <= last,
                n == x@.len(),
                last == x@.len() - p@.len(),
                j <= p@.len(),
                same == (forall|q: int| 0 <= q < j ==> x@[i + q] == p@[q]),
            decreases p@.len() - j,
        {
            if x[i + j] != p[j] {
                same = false;
            }
            j = j + 1;
        }
        if same {
            assert(s@.subrange(i as int, i + pattern@.len()) =~= pattern@);
            assert(occurs_at(s@, pattern@, i as int));
            return true;
        }
        proof {
            let q = choose|q: int| 0 <= q < p@.len() && x@[i + q] != p@[q];
            assert(s@.subrange(i as int, i + pattern@.len())[q] != pattern@[q]);
        }
        if i == last {
            assert forall|k: int| !occurs_at(s@, pattern@, k) by {
                if 0 <= k && k + pattern@.len() <= s@.len() {
                    assert(k <= i);
                }
            }
            return false;
        }
        i = i + 1;
    }
    assert forall|k: int| !occurs_at(s@, pattern@, k) by {
        if 0 <= k && k + pattern@.len() <= s@.len() {
            assert(k < i);
        }
    }
    false
}

} // verus!
