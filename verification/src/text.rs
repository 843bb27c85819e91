//! Character-level helpers on which the request handling is built.
use vstd::prelude::*;

verus! {

/// Appends one character to a string.
///
/// Trusted: `String::push` appends the character at the end and changes
/// nothing else, as its documentation states.
#[verifier::external_body]
pub(crate) fn push_char(s: &mut String, c: char)
    ensures
        final(s)@ == old(s)@.push(c),
{
    s.push(c);
}

/// The characters of a string, in order.
pub fn chars_of(s: &str) -> (res: Vec<char>)
    ensures
        res@ == s@,
{
    let mut res: Vec<char> = Vec::new();
    for c in it: s.chars()
        invariant
            res@ == it.seq().take(it.index() as int),
    {
        res.push(c);
    }
    res
}

/// The string made of the given characters, in order.
pub fn string_from_chars(cs: &[char]) -> (res: String)
    ensures
        res@ == cs@,
{
    let mut res = String::new();
    let mut i: usize = 0;
    while i < cs.len()
        invariant
            i <= cs@.len(),
            res@ == cs@.take(i as int),
        decreases cs@.len() - i,
    {
        push_char(&mut res, cs[i]);
        assert(cs@.take(i + 1) == cs@.take(i as int).push(cs@[i as int]));
        i = i + 1;
    }
    assert(cs@.take(cs@.len() as int) == cs@);
    res
}

} // verus!

verus! {

/// The ten decimal digits, in order of value.
pub open spec fn digit_chars() -> Seq<char> {
    seq!['0', '1', '2', '3', '4', '5', '6', '7', '8', '9']
}

/// Whether `c` is one of the ten decimal digits.
pub open spec fn is_digit(c: char) -> bool {
    '0' <= c && c <= '9'
}

/// The value of the decimal digit `c`.
pub open spec fn digit_value(c: char) -> nat {
    (c as int - '0' as int) as nat
}

/// The decimal digits of `n`, most significant first, without leading zeros.
pub open spec fn nat_digits(n: nat) -> Seq<char>
    decreases n,
{
    if n < 10 {
        seq![digit_chars()[n as int]]
    } else {
        nat_digits(n / 10).push(digit_chars()[(n % 10) as int])
    }
}

/// The decimal text of an integer, with a leading `-` when it is negative.
pub open spec fn decimal(n: int) -> Seq<char> {
    if n < 0 {
        seq!['-'] + nat_digits((-n) as nat)
    } else {
        nat_digits(n as nat)
    }
}

fn digit_char(d: u32) -> (c: char)
    requires
        d < 10,
    ensures
        c == digit_chars()[d as int],
{
    match d {
        0 => '0',
        1 => '1',
        2 => '2',
        3 => '3',
        4 => '4',
        5 => '5',
        6 => '6',
        7 => '7',
        8 => '8',
        _ => '9',
    }
}

fn push_digits(out: &mut Vec<char>, n: u32)
    ensures
        final(out)@ == old(out)@ + nat_digits(n as nat),
    decreases n,
{
    if n < 10 {
        out.push(digit_char(n));
    } else {
        push_digits(out, n / 10);
        out.push(digit_char(n % 10));
    }
}

/// The decimal text of `n`, as `i32`'s `Display` and `Debug` write it.
pub fn decimal_i32(n: i32) -> (res: String)
    ensures
        res@ == decimal(n as int),
{
    let mut out: Vec<char> = Vec::new();
    let magnitude: u32;
    if n < 0 {
        out.push('-');
        let wide: i64 = n as i64;
        magnitude = (0 - wide) as u32;
    } else {
        magnitude = n as u32;
    }
    push_digits(&mut out, magnitude);
    string_from_chars(out.as_slice())
}

} // verus!

verus! {

/// Whether every character of `s` is a decimal digit.
pub open spec fn all_digits(s: Seq<char>) -> bool {
    forall|i: int| 0 <= i < s.len() ==> is_digit(#[trigger] s[i])
}

/// The value of a string of decimal digits.
pub open spec fn digits_value(s: Seq<char>) -> nat
    decreases s.len(),
{
    if s.len() == 0 {
        0
    } else {
        digits_value(s.drop_last()) * 10 + digit_value(s.last())
    }
}

/// What `str::parse::<i32>` gives for `s`: an optional `+` or `-`, then at
/// least one decimal digit and nothing else, of a value that fits in `i32`.
pub open spec fn parse_i32_spec(s: Seq<char>) -> Option<i32> {
    if s.len() == 0 {
        None
    } else {
        let negative = s[0] == '-';
        let body = if s[0] == '-' || s[0] == '+' { s.drop_first() } else { s };
        let magnitude = digits_value(body) as int;
        let value = if negative { -magnitude } else { magnitude };
        if body.len() == 0 || !all_digits(body) || value < i32::MIN || value > i32::MAX {
            None
        } else {
            Some(value as i32)
        }
    }
}

proof fn lemma_digits_value_prefix(s: Seq<char>, i: int)
    requires
        0 <= i <= s.len(),
        all_digits(s),
    ensures
        digits_value(s.take(i)) <= digits_value(s),
    decreases s.len() - i,
{
    if i < s.len() {
        lemma_digits_value_prefix(s, i + 1);
        assert(s.take(i + 1).drop_last() == s.take(i));
    }
    assert(s.take(s.len() as int) == s);
}

/// Parses a decimal `i32` as `str::parse::<i32>` does.
pub fn parse_i32(s: &str) -> (res: Option<i32>)
    ensures
        res == parse_i32_spec(s@),
{
    let cs = chars_of(s);
    let n = cs.len();
    if n == 0 {
        return None;
    }
    let negative = cs[0] == '-';
    let start: usize = if cs[0] == '-' || cs[0] == '+' { 1 } else { 0 };
    let ghost body = if cs@[0] == '-' || cs@[0] == '+' { cs@.drop_first() } else { cs@ };
    assert(body == cs@.subrange(start as int, n as int));
    if start == n {
        return None;
    }
    let mut acc: i64 = 0;
    let mut i: usize = start;
    while i < n
        invariant
            start <= i <= n,
            0 < n,
            n == cs@.len(),
            cs@ == s@,
            body == (if cs@[0] == '-' || cs@[0] == '+' { cs@.drop_first() } else { cs@ }),
            body == cs@.subrange(start as int, n as int),
            acc == digits_value(body.take(i - start)),
            acc <= 2147483648,
            all_digits(body.take(i - start)),
        decreases n - i,
    {
        let c = cs[i];
        if !('0' <= c && c <= '9') {
            assert(body[i - start] == c);
            assert(!all_digits(body));
            return None;
        }
        let d: i64 = (c as u32 - '0' as u32) as i64;
        acc = acc * 10 + d;
        proof {
            let k = (i - start) as int;
            assert(body.take(k + 1).drop_last() == body.take(k));
            assert(body.take(k + 1).last() == c);
            assert forall|j: int| 0 <= j < body.take(k + 1).len() implies is_digit(
                #[trigger] body.take(k + 1)[j],
            ) by {
                if j < k {
                    assert(body.take(k + 1)[j] == body.take(k)[j]);
                }
            }
        }
        if acc > 2147483648 {
            proof {
                let k = (i - start + 1) as int;
                if all_digits(body) {
                    lemma_digits_value_prefix(body, k);
                }
            }
            return None;
        }
        i = i + 1;
    }
    assert(body.take(body.len() as int) == body);
    if negative {
        Some((0 - acc) as i32)
    } else if acc <= 2147483647 {
        Some(acc as i32)
    } else {
        None
    }
}

} // verus!

verus! {

proof fn lemma_digit_chars(d: int)
    requires
        0 <= d < 10,
    ensures
        is_digit(digit_chars()[d]),
        digit_value(digit_chars()[d]) == d,
{
    if d == 0 {
    } else if d == 1 {
    } else if d == 2 {
    } else if d == 3 {
    } else if d == 4 {
    } else if d == 5 {
    } else if d == 6 {
    } else if d == 7 {
    } else if d == 8 {
    } else {
    }
}

proof fn lemma_nat_digits(m: nat)
    ensures
        nat_digits(m).len() >= 1,
        all_digits(nat_digits(m)),
        digits_value(nat_digits(m)) == m,
    decreases m,
{
    if m < 10 {
        lemma_digit_chars(m as int);
        let one = seq![digit_chars()[m as int]];
        assert(one.drop_last() =~= Seq::<char>::empty());
        assert(digits_value(one) == digits_value(one.drop_last()) * 10 + digit_value(one.last()));
    } else {
        lemma_nat_digits(m / 10);
        lemma_digit_chars((m % 10) as int);
        let prefix = nat_digits(m / 10);
        let c = digit_chars()[(m % 10) as int];
        assert(prefix.push(c).drop_last() == prefix);
        assert(nat_digits(m) == prefix.push(c));
        assert(digits_value(prefix.push(c)) == digits_value(prefix) * 10 + digit_value(c));
        assert(m == (m / 10) * 10 + m % 10) by (nonlinear_arith);
        assert forall|i: int| 0 <= i < prefix.push(c).len() implies is_digit(
            #[trigger] prefix.push(c)[i],
        ) by {
            if i < prefix.len() {
                assert(prefix.push(c)[i] == prefix[i]);
            }
        }
    }
}

/// Reading back the decimal text of an `i32` gives the same number: the
/// text that `decimal_i32` writes is what `parse_i32` accepts.
pub proof fn lemma_parse_decimal_roundtrip(n: i32)
    ensures
        parse_i32_spec(decimal(n as int)) == Some(n),
{
    if n < 0 {
        let m = (-(n as int)) as nat;
        lemma_nat_digits(m);
        let s = decimal(n as int);
        assert(s[0] == '-');
        assert(s.drop_first() == nat_digits(m));
    } else {
        lemma_nat_digits(n as nat);
        let s = decimal(n as int);
        assert(is_digit(s[0]));
    }
}

} // verus!

verus! {

/// Whether `s` begins with `p`.
pub open spec fn starts_with(s: Seq<char>, p: Seq<char>) -> bool {
    p.len() <= s.len() && s.take(p.len() as int) == p
}

/// `s` with every leading copy of `p` removed, as `str::trim_start_matches`
/// does with a string pattern.
pub open spec fn strip_leading(s: Seq<char>, p: Seq<char>) -> Seq<char>
    decreases s.len(),
{
    if p.len() > 0 && starts_with(s, p) {
        strip_leading(s.skip(p.len() as int), p)
    } else {
        s
    }
}

/// Whether `p` occurs in `s` as a run of consecutive characters.
pub open spec fn contains(s: Seq<char>, p: Seq<char>) -> bool {
    exists|i: int| 0 <= i && i + p.len() <= s.len() && #[trigger] s.subrange(i, i + p.len()) == p
}

/// Whether `s` holds `p` starting at position `at`.
pub fn matches_at(s: &[char], at: usize, p: &[char]) -> (res: bool)
    requires
        at <= s@.len(),
    ensures
        res == (at + p@.len() <= s@.len() && s@.subrange(at as int, at + p@.len()) == p@),
{
    if p.len() > s.len() - at {
        return false;
    }
    let n = s.len();
    let mut j: usize = 0;
    while j < p.len()
        invariant
            j <= p@.len(),
            n == s@.len(),
            at + p@.len() <= s@.len(),
            forall|k: int| 0 <= k < j ==> s@[at + k] == p@[k],
        decreases p@.len() - j,
    {
        if s[at + j] != p[j] {
            assert(s@.subrange(at as int, at + p@.len())[j as int] != p@[j as int]);
            return false;
        }
        j = j + 1;
    }
    assert(s@.subrange(at as int, at + p@.len()) =~= p@);
    true
}

/// Whether `s` begins with `p`.
pub fn has_prefix(s: &[char], p: &[char]) -> (res: bool)
    ensures
        res == starts_with(s@, p@),
{
    let res = matches_at(s, 0, p);
    assert(s@.take(p@.len() as int) == s@.subrange(0, p@.len() as int));
    res
}

proof fn lemma_strip_leading_skip(s: Seq<char>, p: Seq<char>, k: int)
    requires
        p.len() > 0,
        0 <= k <= s.len(),
        starts_with(s.skip(k), p),
    ensures
        strip_leading(s.skip(k), p) == strip_leading(s.skip(k + p.len()), p),
{
    assert(s.skip(k).skip(p.len() as int) == s.skip(k + p.len()));
}

/// `s` with every leading copy of `p` removed.
pub fn strip_leading_copies(s: &[char], p: &[char]) -> (res: Vec<char>)
    ensures
        res@ == strip_leading(s@, p@),
{
    let n = s.len();
    let mut at: usize = 0;
    assert(s@.skip(0) == s@);
    if p.len() > 0 {
        while matches_at(s, at, p)
            invariant
                n == s@.len(),
                at <= s@.len(),
                p@.len() > 0,
                strip_leading(s@, p@) == strip_leading(s@.skip(at as int), p@),
            decreases s@.len() - at,
        {
            proof {
                assert(s@.skip(at as int).take(p@.len() as int) == s@.subrange(at as int, at + p@.len()));
                lemma_strip_leading_skip(s@, p@, at as int);
            }
            at = at + p.len();
        }
        proof {
            if starts_with(s@.skip(at as int), p@) {
                assert(s@.skip(at as int).take(p@.len() as int) == s@.subrange(at as int, at + p@.len()));
            }
        }
    } else {
        assert(s@.skip(0) == s@);
    }
    let mut res: Vec<char> = Vec::new();
    let mut i: usize = at;
    while i < s.len()
        invariant
            at <= i <= s@.len(),
            res@ == s@.subrange(at as int, i as int),
        decreases s@.len() - i,
    {
        res.push(s[i]);
        assert(s@.subrange(at as int, i + 1) == s@.subrange(at as int, i as int).push(s@[i as int]));
        i = i + 1;
    }
    assert(s@.subrange(at as int, s@.len() as int) == s@.skip(at as int));
    res
}

/// Whether `p` occurs in `s`.
pub fn contains_chars(s: &[char], p: &[char]) -> (res: bool)
    ensures
        res == contains(s@, p@),
{
    if p.len() > s.len() {
        return false;
    }
    let last = s.len() - p.len();
    let mut at: usize = 0;
    loop
        invariant
            last == s@.len() - p@.len(),
            at <= last,
            forall|i: int| 0 <= i < at ==> #[trigger] s@.subrange(i, i + p@.len()) != p@,
        decreases last - at,
    {
        if matches_at(s, at, p) {
            return true;
        }
        if at == last {
            return false;
        }
        at = at + 1;
    }
}

/// Whether a header byte is a visible ASCII character or a tab, the bytes
/// that a header value may hold to be read as text.
pub open spec fn is_visible_ascii(b: u8) -> bool {
    (32 <= b && b < 127) || b == 9
}

/// The text of a header value: its bytes read as ASCII characters, when
/// each of them is visible ASCII or a tab, as `HeaderValue::to_str` reads it.
pub open spec fn header_text(bytes: Seq<u8>) -> Option<Seq<char>> {
    if forall|i: int| 0 <= i < bytes.len() ==> is_visible_ascii(#[trigger] bytes[i]) {
        Some(bytes.map_values(|b: u8| b as char))
    } else {
        None
    }
}

/// The characters of a header value, or `None` when it holds a byte that is
/// neither visible ASCII nor a tab.
pub fn header_chars(bytes: &[u8]) -> (res: Option<Vec<char>>)
    ensures
        res matches Some(cs) ==> header_text(bytes@) == Some(cs@),
        res is None ==> header_text(bytes@) is None,
{
    let mut out: Vec<char> = Vec::new();
    let mut i: usize = 0;
    while i < bytes.len()
        invariant
            i <= bytes@.len(),
            out@ == bytes@.take(i as int).map_values(|b: u8| b as char),
            forall|k: int| 0 <= k < i ==> is_visible_ascii(#[trigger] bytes@[k]),
        decreases bytes@.len() - i,
    {
        let b = bytes[i];
        if !((32 <= b && b < 127) || b == 9) {
            return None;
        }
        out.push(b as char);
        assert(bytes@.take(i + 1).map_values(|b: u8| b as char) =~= bytes@.take(i as int).map_values(
            |b: u8| b as char,
        ).push(b as char));
        i = i + 1;
    }
    assert(bytes@.take(bytes@.len() as int) == bytes@);
    Some(out)
}

} // verus!

verus! {

/// Once every leading copy of a nonempty `p` is removed, what is left does
/// not begin with `p`.
pub proof fn lemma_strip_leading_done(s: Seq<char>, p: Seq<char>)
    requires
        p.len() > 0,
    ensures
        !starts_with(strip_leading(s, p), p),
    decreases s.len(),
{
    if starts_with(s, p) {
        lemma_strip_leading_done(s.skip(p.len() as int), p);
    }
}

} // verus!

verus! {

/// A header value reads as text exactly when each of its bytes is a tab or
/// lies between the space (32) and `~` (126); it then reads as those bytes
/// taken as characters, one for one.
pub proof fn lemma_header_text(bytes: Seq<u8>)
    ensures
        (forall|i: int| 0 <= i < bytes.len() ==> 32 <= #[trigger] bytes[i] <= 126 || bytes[i] == 9)
            ==> header_text(bytes) == Some(bytes.map_values(|b: u8| b as char)),
        (exists|i: int| 0 <= i < bytes.len() && !(32 <= #[trigger] bytes[i] <= 126 || bytes[i] == 9))
            ==> header_text(bytes) is None,
        forall|i: int|
            0 <= i < bytes.len() ==> (bytes.map_values(|b: u8| b as char)[i]) as int
                == #[trigger] bytes[i] as int,
{
    if exists|i: int| 0 <= i < bytes.len() && !(32 <= #[trigger] bytes[i] <= 126 || bytes[i] == 9) {
        let i = choose|i: int| 0 <= i < bytes.len() && !(32 <= #[trigger] bytes[i] <= 126 || bytes[i] == 9);
        assert(!is_visible_ascii(bytes[i]));
    }
}

} // verus!
