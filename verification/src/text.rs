//! Character-level text utilities with their specifications.
//!
//! Strings are specified by their views, sequences of `char`.
use vstd::prelude::*;
use vstd::utf8::*;

verus! {

// ---------------------------------------------------------------------------
// Building strings
// ---------------------------------------------------------------------------

/// Appends one character to a string (`String::push`).
#[verifier::external_body]
pub(crate) fn push_char(s: &mut String, c: char)
    ensures
        final(s)@ == old(s)@.push(c),
{
    s.push(c);
}

/// The characters of a string slice, in order.
pub fn chars_of(s: &str) -> (r: Vec<char>)
    ensures
        r@ == s@,
{
    broadcast use vstd::string::group_string_axioms;

    let mut r: Vec<char> = Vec::new();
    for c in it: s.chars()
        invariant
            r@ == it.seq().take(it.index() as int),
    {
        r.push(c);
    }
    r
}

/// Appends the characters `v[lo..hi]` to `out`.
pub fn push_chars(out: &mut String, v: &Vec<char>, lo: usize, hi: usize)
    requires
        lo <= hi <= v@.len(),
    ensures
        final(out)@ == old(out)@ + v@.subrange(lo as int, hi as int),
{
    let mut i = lo;
    while i < hi
        invariant
            lo <= i <= hi <= v@.len(),
            out@ == old(out)@ + v@.subrange(lo as int, i as int),
        decreases hi - i,
    {
        push_char(out, v[i]);
        i = i + 1;
        assert(v@.subrange(lo as int, i as int) == v@.subrange(lo as int, i - 1).push(v@[i - 1]));
    }
}

// ---------------------------------------------------------------------------
// White space (the Unicode `White_Space` property, as `char::is_whitespace`)
// ---------------------------------------------------------------------------

/// `c` has the Unicode `White_Space` property.
pub open spec fn is_ws(c: char) -> bool {
    let v = c as u32;
    ||| 0x9 <= v <= 0xd
    ||| v == 0x20
    ||| v == 0x85
    ||| v == 0xa0
    ||| v == 0x1680
    ||| 0x2000 <= v <= 0x200a
    ||| v == 0x2028
    ||| v == 0x2029
    ||| v == 0x202f
    ||| v == 0x205f
    ||| v == 0x3000
}

/// Whether `c` is white space.
pub fn is_whitespace(c: char) -> (b: bool)
    ensures
        b == is_ws(c),
{
    let v = c as u32;
    (0x9 <= v && v <= 0xd) || v == 0x20 || v == 0x85 || v == 0xa0 || v == 0x1680 || (0x2000 <= v
        && v <= 0x200a) || v == 0x2028 || v == 0x2029 || v == 0x202f || v == 0x205f || v == 0x3000
}

/// `s` without its leading white space.
pub open spec fn trim_start_spec(s: Seq<char>) -> Seq<char>
    decreases s.len(),
{
    if s.len() > 0 && is_ws(s[0]) {
        trim_start_spec(s.drop_first())
    } else {
        s
    }
}

/// `s` without its trailing white space.
pub open spec fn trim_end_spec(s: Seq<char>) -> Seq<char>
    decreases s.len(),
{
    if s.len() > 0 && is_ws(s.last()) {
        trim_end_spec(s.drop_last())
    } else {
        s
    }
}

/// `s` without leading and trailing white space (`str::trim`).
pub open spec fn trim_spec(s: Seq<char>) -> Seq<char> {
    trim_end_spec(trim_start_spec(s))
}

proof fn lemma_trim_start_skip(s: Seq<char>, i: int)
    requires
        0 <= i <= s.len(),
        forall|k: int| 0 <= k < i ==> is_ws(#[trigger] s[k]),
    ensures
        trim_start_spec(s) == trim_start_spec(s.subrange(i, s.len() as int)),
    decreases i,
{
    if i > 0 {
        lemma_trim_start_skip(s.drop_first(), i - 1);
        assert(s.drop_first().subrange(i - 1, s.drop_first().len() as int) == s.subrange(
            i,
            s.len() as int,
        ));
    } else {
        assert(s.subrange(0, s.len() as int) == s);
    }
}

proof fn lemma_trim_end_skip(s: Seq<char>, j: int)
    requires
        0 <= j <= s.len(),
        forall|k: int| j <= k < s.len() ==> is_ws(#[trigger] s[k]),
    ensures
        trim_end_spec(s) == trim_end_spec(s.subrange(0, j)),
    decreases s.len() - j,
{
    if j < s.len() {
        lemma_trim_end_skip(s.drop_last(), j);
        assert(s.drop_last().subrange(0, j) == s.subrange(0, j));
    } else {
        assert(s.subrange(0, j) == s);
    }
}

/// `s` with leading and trailing white space removed.
pub fn trim(s: &str) -> (r: String)
    ensures
        r@ == trim_spec(s@),
{
    let v = chars_of(s);
    let mut i: usize = 0;
    while i < v.len() && is_whitespace(v[i])
        invariant
            i <= v@.len(),
            forall|k: int| 0 <= k < i ==> is_ws(#[trigger] v@[k]),
        decreases v.len() - i,
    {
        i = i + 1;
    }
    let mut j: usize = v.len();
    while j > i && is_whitespace(v[j - 1])
        invariant
            i <= j <= v@.len(),
            forall|k: int| j <= k < v@.len() ==> is_ws(#[trigger] v@[k]),
        decreases j,
    {
        j = j - 1;
    }
    proof {
        lemma_trim_start_skip(v@, i as int);
        let rest = v@.subrange(i as int, v@.len() as int);
        assert(i == v@.len() || !is_ws(rest[0]));
        assert(trim_start_spec(rest) == rest);
        lemma_trim_end_skip(rest, j - i);
        assert(rest.subrange(0, j - i) == v@.subrange(i as int, j as int));
        let mid = v@.subrange(i as int, j as int);
        assert(j == i || !is_ws(mid.last()));
        assert(trim_end_spec(mid) == mid);
    }
    let mut r = String::new();
    push_chars(&mut r, &v, i, j);
    r
}

} // verus!
verus! {

// ---------------------------------------------------------------------------
// Prefixes, substrings, joining
// ---------------------------------------------------------------------------

/// The first `n` characters of `s` (all of `s` when it is shorter):
/// what `s.chars().take(n).collect::<String>()` gives.
pub open spec fn prefix_spec(s: Seq<char>, n: nat) -> Seq<char> {
    if n <= s.len() {
        s.take(n as int)
    } else {
        s
    }
}

/// The first `n` characters of `s`.
pub fn take_chars(s: &str, n: usize) -> (r: String)
    ensures
        r@ == prefix_spec(s@, n as nat),
{
    let v = chars_of(s);
    let k = if n <= v.len() {
        n
    } else {
        v.len()
    };
    let mut r = String::new();
    push_chars(&mut r, &v, 0, k);
    proof {
        if n > v@.len() {
            assert(v@.subrange(0, k as int) == v@);
        }
    }
    r
}

/// `needle` occurs in `hay` at position `i`.
pub open spec fn occurs_at(hay: Seq<char>, needle: Seq<char>, i: int) -> bool {
    &&& 0 <= i
    &&& i + needle.len() <= hay.len()
    &&& hay.subrange(i, i + needle.len()) == needle
}

/// `needle` is a substring of `hay` (`str::contains`).
pub open spec fn contains_spec(hay: Seq<char>, needle: Seq<char>) -> bool {
    exists|i: int| occurs_at(hay, needle, i)
}

/// Whether `hay[i..]` starts with `needle[lo..hi]`.
fn matches_at(hay: &Vec<char>, i: usize, needle: &Vec<char>, lo: usize, hi: usize) -> (b: bool)
    requires
        lo <= hi <= needle@.len(),
        i <= hay@.len(),
    ensures
        b == occurs_at(hay@, needle@.subrange(lo as int, hi as int), i as int),
{
    let len = hi - lo;
    if len > hay.len() - i {
        return false;
    }
    let ghost hs = hay@.subrange(i as int, i + len);
    let ghost ns = needle@.subrange(lo as int, hi as int);
    let mut k: usize = 0;
    while k < len
        invariant
            lo <= hi <= needle@.len(),
            len == hi - lo,
            i + len <= hay.len(),
            k <= len,
            hs == hay@.subrange(i as int, i + len),
            ns == needle@.subrange(lo as int, hi as int),
            forall|t: int| 0 <= t < k ==> #[trigger] hs[t] == ns[t],
        decreases len - k,
    {
        assert(i + k < hay@.len() && lo + k < hi);
        if hay[i + k] != needle[lo + k] {
            assert(hs[k as int] != ns[k as int]);
            return false;
        }
        k = k + 1;
    }
    assert(hs == ns);
    true
}

/// Whether `needle[lo..hi]` is a substring of `hay`.
pub fn contains_range(hay: &Vec<char>, needle: &Vec<char>, lo: usize, hi: usize) -> (b: bool)
    requires
        lo <= hi <= needle@.len(),
    ensures
        b == contains_spec(hay@, needle@.subrange(lo as int, hi as int)),
{
    let ghost sub = needle@.subrange(lo as int, hi as int);
    let mut i: usize = 0;
    loop
        invariant
            lo <= hi <= needle@.len(),
            i <= hay@.len(),
            sub == needle@.subrange(lo as int, hi as int),
            forall|t: int| 0 <= t < i ==> !occurs_at(hay@, sub, t),
        decreases hay.len() - i,
    {
        if matches_at(hay, i, needle, lo, hi) {
            return true;
        }
        if i == hay.len() {
            assert forall|t: int| !occurs_at(hay@, sub, t) by {
                if 0 <= t && t < i {
                }
            }
            return false;
        }
        i = i + 1;
    }
}

/// Whether `needle` is a substring of `hay`.
pub fn contains(hay: &str, needle: &str) -> (b: bool)
    ensures
        b == contains_spec(hay@, needle@),
{
    let h = chars_of(hay);
    let n = chars_of(needle);
    let b = contains_range(&h, &n, 0, n.len());
    assert(n@.subrange(0, n@.len() as int) == n@);
    b
}

/// The parts joined with `sep` between consecutive parts (`[..].join(sep)`).
pub open spec fn join_spec(parts: Seq<Seq<char>>, sep: Seq<char>) -> Seq<char>
    decreases parts.len(),
{
    if parts.len() == 0 {
        Seq::empty()
    } else if parts.len() == 1 {
        parts[0]
    } else {
        join_spec(parts.drop_last(), sep) + sep + parts.last()
    }
}

/// The views of a sequence of strings.
pub open spec fn views(v: Seq<String>) -> Seq<Seq<char>> {
    v.map_values(|s: String| s@)
}

/// Joins the strings with `sep` between consecutive ones.
pub fn join(parts: &Vec<String>, sep: &str) -> (r: String)
    ensures
        r@ == join_spec(views(parts@), sep@),
{
    let mut r = String::new();
    let mut i: usize = 0;
    while i < parts.len()
        invariant
            i <= parts@.len(),
            r@ == join_spec(views(parts@.take(i as int)), sep@),
        decreases parts.len() - i,
    {
        let ghost before = views(parts@.take(i as int));
        if i > 0 {
            r.append(sep);
        }
        r.append(parts[i].as_str());
        proof {
            let after = views(parts@.take(i + 1));
            assert(after.drop_last() == before);
            assert(after.last() == parts@[i as int]@);
            if i == 0 {
                assert(after.len() == 1);
            }
        }
        i = i + 1;
    }
    assert(parts@.take(parts@.len() as int) == parts@);
    r
}

// ---------------------------------------------------------------------------
// UTF-8 byte lengths
// ---------------------------------------------------------------------------

/// The number of bytes of the UTF-8 encoding of `s` (what `str::len` gives).
pub open spec fn byte_len(s: Seq<char>) -> nat {
    encode_utf8(s).len()
}

/// The number of bytes of the UTF-8 encoding of `c`.
pub open spec fn char_width(c: char) -> nat {
    let v = c as u32;
    if v <= 0x7f {
        1
    } else if v <= 0x7ff {
        2
    } else if v <= 0xffff {
        3
    } else {
        4
    }
}

proof fn lemma_encode_scalar_len(c: char)
    ensures
        encode_scalar(c as u32).len() == char_width(c),
{
    char_is_scalar(c);
}

/// The encoding of a concatenation is the concatenation of the encodings.
pub proof fn lemma_encode_utf8_concat(a: Seq<char>, b: Seq<char>)
    ensures
        encode_utf8(a + b) == encode_utf8(a) + encode_utf8(b),
    decreases a.len(),
{
    if a.len() == 0 {
        assert(a + b == b);
    } else {
        lemma_encode_utf8_concat(a.drop_first(), b);
        assert((a + b).drop_first() == a.drop_first() + b);
        assert((a + b)[0] == a[0]);
    }
}

/// Appending a character adds its width to the byte length.
pub proof fn lemma_byte_len_push(s: Seq<char>, c: char)
    ensures
        byte_len(s.push(c)) == byte_len(s) + char_width(c),
{
    lemma_encode_utf8_concat(s, seq![c]);
    assert(s.push(c) == s + seq![c]);
    assert(seq![c].drop_first() == Seq::<char>::empty());
    assert(encode_utf8(Seq::<char>::empty()) == Seq::<u8>::empty());
    assert(encode_utf8(seq![c]) == encode_scalar(seq![c][0] as u32) + encode_utf8(
        seq![c].drop_first(),
    ));
    assert(encode_utf8(seq![c]) =~= encode_scalar(c as u32));
    lemma_encode_scalar_len(c);
}

/// The width of one character.
fn width_of(c: char) -> (w: usize)
    ensures
        w == char_width(c),
{
    let v = c as u32;
    if v <= 0x7f {
        1
    } else if v <= 0x7ff {
        2
    } else if v <= 0xffff {
        3
    } else {
        4
    }
}

/// Whether the UTF-8 encoding of `v[lo..hi]` is longer than `k` bytes.
pub fn byte_len_exceeds(v: &Vec<char>, lo: usize, hi: usize, k: usize) -> (b: bool)
    requires
        lo <= hi <= v@.len(),
        k < usize::MAX - 4,
    ensures
        b == (byte_len(v@.subrange(lo as int, hi as int)) > k),
{
    let mut sum: usize = 0;
    let mut i = lo;
    while i < hi
        invariant
            lo <= i <= hi <= v@.len(),
            k < usize::MAX - 4,
            sum <= k,
            sum == byte_len(v@.subrange(lo as int, i as int)),
        decreases hi - i,
    {
        proof {
            lemma_byte_len_push(v@.subrange(lo as int, i as int), v@[i as int]);
            assert(v@.subrange(lo as int, i + 1) == v@.subrange(lo as int, i as int).push(
                v@[i as int],
            ));
        }
        sum = sum + width_of(v[i]);
        i = i + 1;
        if sum > k {
            proof {
                lemma_byte_len_monotone(v@, lo as int, i as int, hi as int);
            }
            return true;
        }
    }
    false
}

/// Byte length grows with the end of a range.
pub proof fn lemma_byte_len_monotone(v: Seq<char>, lo: int, i: int, hi: int)
    requires
        0 <= lo <= i <= hi <= v.len(),
    ensures
        byte_len(v.subrange(lo, i)) <= byte_len(v.subrange(lo, hi)),
    decreases hi - i,
{
    if i < hi {
        lemma_byte_len_monotone(v, lo, i, hi - 1);
        lemma_byte_len_push(v.subrange(lo, hi - 1), v[hi - 1]);
        assert(v.subrange(lo, hi) == v.subrange(lo, hi - 1).push(v[hi - 1]));
    }
}

} // verus!
verus! {

// ---------------------------------------------------------------------------
// Decimal numbers
// ---------------------------------------------------------------------------

/// The decimal digit character for `d < 10`.
pub open spec fn digit_char(d: nat) -> char {
    if d == 0 {
        '0'
    } else if d == 1 {
        '1'
    } else if d == 2 {
        '2'
    } else if d == 3 {
        '3'
    } else if d == 4 {
        '4'
    } else if d == 5 {
        '5'
    } else if d == 6 {
        '6'
    } else if d == 7 {
        '7'
    } else if d == 8 {
        '8'
    } else {
        '9'
    }
}

/// The decimal representation of `n`, without sign or leading zeros
/// (what `Display` prints for an unsigned integer).
pub open spec fn decimal(n: nat) -> Seq<char>
    decreases n,
{
    if n < 10 {
        seq![digit_char(n)]
    } else {
        decimal(n / 10).push(digit_char(n % 10))
    }
}

fn digit_of(d: u64) -> (c: char)
    requires
        d < 10,
    ensures
        c == digit_char(d as nat),
{
    if d == 0 {
        '0'
    } else if d == 1 {
        '1'
    } else if d == 2 {
        '2'
    } else if d == 3 {
        '3'
    } else if d == 4 {
        '4'
    } else if d == 5 {
        '5'
    } else if d == 6 {
        '6'
    } else if d == 7 {
        '7'
    } else if d == 8 {
        '8'
    } else {
        '9'
    }
}

/// Appends the decimal representation of `n`.
pub fn push_decimal(out: &mut String, n: u64)
    ensures
        final(out)@ == old(out)@ + decimal(n as nat),
    decreases n,
{
    if n >= 10 {
        push_decimal(out, n / 10);
    }
    push_char(out, digit_of(n % 10));
    proof {
        if n >= 10 {
            assert(old(out)@ + decimal(n as nat) == (old(out)@ + decimal((n / 10) as nat)).push(
                digit_char((n % 10) as nat),
            ));
        } else {
            assert(old(out)@ + decimal(n as nat) == old(out)@.push(digit_char(n as nat)));
        }
    }
}

/// The decimal representation of `n`.
pub fn decimal_string(n: u64) -> (r: String)
    ensures
        r@ == decimal(n as nat),
{
    let mut r = String::new();
    push_decimal(&mut r, n);
    assert(Seq::<char>::empty() + decimal(n as nat) == decimal(n as nat));
    r
}

// ---------------------------------------------------------------------------
// Parsing integers (`str::parse` for integer types)
// ---------------------------------------------------------------------------

/// `c` is one of the ASCII digits `0` to `9`.
pub open spec fn is_digit(c: char) -> bool {
    48 <= (c as u32) <= 57
}

/// The value of the digit `c`.
pub open spec fn digit_value(c: char) -> nat {
    ((c as u32) - 48) as nat
}

/// The value of a sequence of decimal digits.
pub open spec fn digits_value(s: Seq<char>) -> nat
    decreases s.len(),
{
    if s.len() == 0 {
        0
    } else {
        digits_value(s.drop_last()) * 10 + digit_value(s.last())
    }
}

/// Every character of `s` is a digit.
pub open spec fn all_digits(s: Seq<char>) -> bool {
    forall|i: int| 0 <= i < s.len() ==> is_digit(#[trigger] s[i])
}

/// What `s.parse()` gives for an unsigned integer type whose largest value is `max`:
/// an optional `+` followed by at least one digit, of value at most `max`.
pub open spec fn parse_unsigned_spec(s: Seq<char>, max: nat) -> Option<nat> {
    let body = if s.len() > 0 && s[0] == '+' {
        s.drop_first()
    } else {
        s
    };
    if body.len() > 0 && all_digits(body) && digits_value(body) <= max {
        Some(digits_value(body))
    } else {
        None
    }
}

/// What `s.parse()` gives for a signed integer type with range `min..=max`:
/// an optional `+` or `-` followed by at least one digit, in range.
pub open spec fn parse_signed_spec(s: Seq<char>, min: int, max: int) -> Option<int> {
    if s.len() > 0 && s[0] == '-' {
        let body = s.drop_first();
        if body.len() > 0 && all_digits(body) && -digits_value(body) >= min {
            Some(-digits_value(body))
        } else {
            None
        }
    } else {
        match parse_unsigned_spec(s, max as nat) {
            Some(v) => Some(v as int),
            None => None,
        }
    }
}

proof fn lemma_digits_value_prefix(s: Seq<char>, i: int)
    requires
        0 <= i <= s.len(),
        all_digits(s),
    ensures
        digits_value(s.take(i)) <= digits_value(s),
    decreases s.len() - i,
{
    if i < s.len() {
        lemma_digits_value_prefix(s.drop_last(), i);
        assert(s.drop_last().take(i) == s.take(i));
        assert(is_digit(s[s.len() - 1]));
    } else {
        assert(s.take(i) == s);
    }
}

/// The value of the digits `v[lo..]` when they are all digits, there is at
/// least one, and the value is at most `limit`.
fn digits_at_most(v: &Vec<char>, lo: usize, limit: u64) -> (r: Option<u64>)
    requires
        lo <= v@.len(),
    ensures
        ({
            let body = v@.subrange(lo as int, v@.len() as int);
            r == if body.len() > 0 && all_digits(body) && digits_value(body) <= limit {
                Some(digits_value(body) as u64)
            } else {
                None
            }
        }),
{
    let ghost body = v@.subrange(lo as int, v@.len() as int);
    if lo == v.len() {
        return None;
    }
    let mut acc: u128 = 0;
    let mut fits = true;
    let mut i = lo;
    while i < v.len()
        invariant
            lo <= i <= v@.len(),
            body == v@.subrange(lo as int, v@.len() as int),
            forall|k: int| lo <= k < i ==> is_digit(#[trigger] v@[k]),
            fits ==> acc == digits_value(body.take(i - lo)) && acc <= limit,
            !fits ==> digits_value(body.take(i - lo)) > limit,
        decreases v.len() - i,
    {
        let c = v[i];
        let d = c as u32;
        if d < 48 || d > 57 {
            assert(!is_digit(body[i - lo]));
            return None;
        }
        proof {
            let t = body.take(i - lo + 1);
            assert(t.drop_last() == body.take(i - lo));
            assert(t.last() == c);
        }
        if fits {
            acc = acc * 10 + ((d - 48) as u128);
            if acc > limit as u128 {
                fits = false;
            }
        } else {
            proof {
                let t = body.take(i - lo + 1);
                assert(digits_value(t) >= digits_value(t.drop_last()));
            }
        }
        i = i + 1;
    }
    assert(body.take(body.len() as int) == body);
    assert(all_digits(body));
    if fits {
        Some(acc as u64)
    } else {
        None
    }
}

/// `s.parse::<u64>()` restricted to values at most `limit`.
fn parse_unsigned_at_most(s: &str, limit: u64) -> (r: Option<u64>)
    ensures
        r == match parse_unsigned_spec(s@, limit as nat) {
            Some(v) => Some(v as u64),
            None => None::<u64>,
        },
{
    let v = chars_of(s);
    let lo: usize = if v.len() > 0 && v[0] == '+' {
        1
    } else {
        0
    };
    let r = digits_at_most(&v, lo, limit);
    proof {
        if lo == 1 {
            assert(v@.subrange(1, v@.len() as int) == v@.drop_first());
        } else {
            assert(v@.subrange(0, v@.len() as int) == v@);
        }
    }
    r
}

/// `s.parse::<usize>().ok()`.
pub fn parse_usize(s: &str) -> (r: Option<usize>)
    ensures
        r == match parse_unsigned_spec(s@, usize::MAX as nat) {
            Some(v) => Some(v as usize),
            None => None::<usize>,
        },
{
    match parse_unsigned_at_most(s, usize::MAX as u64) {
        Some(v) => Some(v as usize),
        None => None,
    }
}

/// `s.parse::<i64>().ok()`.
pub fn parse_i64(s: &str) -> (r: Option<i64>)
    ensures
        r == match parse_signed_spec(s@, i64::MIN as int, i64::MAX as int) {
            Some(v) => Some(v as i64),
            None => None::<i64>,
        },
{
    let v = chars_of(s);
    if v.len() > 0 && v[0] == '-' {
        let r = digits_at_most(&v, 1, 0x8000_0000_0000_0000u64);
        assert(v@.subrange(1, v@.len() as int) == v@.drop_first());
        match r {
            Some(m) => {
                if m == 0x8000_0000_0000_0000u64 {
                    Some(i64::MIN)
                } else {
                    Some(-(m as i64))
                }
            },
            None => None,
        }
    } else {
        match parse_unsigned_at_most(s, i64::MAX as u64) {
            Some(m) => Some(m as i64),
            None => None,
        }
    }
}

// ---------------------------------------------------------------------------
// Lower case
// ---------------------------------------------------------------------------

/// What `str::to_lowercase` returns for `s` (the Unicode lower-case mapping).
pub uninterp spec fn lowercase(s: Seq<char>) -> Seq<char>;

/// `str::to_lowercase`: the result is named `lowercase` of the argument.
#[verifier::external_body]
pub(crate) fn to_lowercase(s: &str) -> (r: String)
    ensures
        r@ == lowercase(s@),
{
    s.to_lowercase()
}

} // verus!
verus! {

// ---------------------------------------------------------------------------
// Words (`str::split_whitespace`)
// ---------------------------------------------------------------------------

/// `s[i..j]` is one of the words of `s`: a maximal run of characters that
/// are not white space.
pub open spec fn is_word(s: Seq<char>, i: int, j: int) -> bool {
    &&& 0 <= i < j <= s.len()
    &&& forall|k: int| i <= k < j ==> !is_ws(#[trigger] s[k])
    &&& (i == 0 || is_ws(s[i - 1]))
    &&& (j == s.len() || is_ws(s[j]))
}

/// Some word of `a` longer than three bytes occurs in `b`.
pub open spec fn shares_long_word(a: Seq<char>, b: Seq<char>) -> bool {
    exists|i: int, j: int|
        #[trigger] is_word(a, i, j) && byte_len(a.subrange(i, j)) > 3 && contains_spec(
            b,
            a.subrange(i, j),
        )
}

/// Whether some word of `a` longer than three bytes is a substring of `b`.
pub fn has_long_shared_word(a: &Vec<char>, b: &Vec<char>) -> (r: bool)
    ensures
        r == shares_long_word(a@, b@),
{
    let mut i: usize = 0;
    loop
        invariant
            i <= a@.len(),
            i == 0 || i == a@.len() || is_ws(a@[i as int]),
            forall|p: int, q: int|
                #[trigger] is_word(a@, p, q) && p < i ==> !(byte_len(a@.subrange(p, q)) > 3
                    && contains_spec(b@, a@.subrange(p, q))),
        decreases a.len() - i,
    {
        let start0 = i;
        let mut s = i;
        while s < a.len() && is_whitespace(a[s])
            invariant
                start0 <= s <= a@.len(),
                forall|k: int| start0 <= k < s ==> is_ws(#[trigger] a@[k]),
            decreases a.len() - s,
        {
            s = s + 1;
        }
        if s == a.len() {
            assert forall|p: int, q: int| #[trigger] is_word(a@, p, q) implies !(byte_len(
                a@.subrange(p, q),
            ) > 3 && contains_spec(b@, a@.subrange(p, q))) by {
                if p >= start0 {
                    assert(is_ws(a@[p]));
                }
            }
            return false;
        }
        let mut e = s + 1;
        while e < a.len() && !is_whitespace(a[e])
            invariant
                s < e <= a@.len(),
                !is_ws(a@[s as int]),
                forall|k: int| s <= k < e ==> !is_ws(#[trigger] a@[k]),
            decreases a.len() - e,
        {
            e = e + 1;
        }
        assert(s == 0 || is_ws(a@[s - 1])) by {
            if s > start0 {
                assert(is_ws(a@[s - 1]));
            }
        }
        assert(is_word(a@, s as int, e as int));
        let good = byte_len_exceeds(a, s, e, 3) && contains_range(b, a, s, e);
        if good {
            return true;
        }
        assert forall|p: int, q: int| #[trigger] is_word(a@, p, q) && p < e implies !(byte_len(
            a@.subrange(p, q),
        ) > 3 && contains_spec(b@, a@.subrange(p, q))) by {
            if p < start0 {
            } else if p < s {
                assert(is_ws(a@[p]));
            } else if p == s {
                if q < e {
                    assert(!is_ws(a@[q]));
                } else if q > e {
                    assert(!is_ws(a@[e as int]));
                }
            } else {
                assert(!is_ws(a@[p - 1]));
            }
        }
        i = e;
    }
}

} // verus!

verus! {

/// `s` starts with `prefix`.
pub open spec fn has_prefix(s: Seq<char>, prefix: Seq<char>) -> bool {
    prefix.len() <= s.len() && s.take(prefix.len() as int) == prefix
}

/// `s` without `prefix`, where `s` starts with it.
pub fn strip_prefix(s: &str, prefix: &str) -> (r: Option<String>)
    ensures
        r is Some <==> has_prefix(s@, prefix@),
        r matches Some(rest) ==> rest@ == s@.skip(prefix@.len() as int),
{
    let v = chars_of(s);
    let p = chars_of(prefix);
    if p.len() > v.len() {
        return None;
    }
    let mut i: usize = 0;
    while i < p.len()
        invariant
            v@ == s@,
            p@ == prefix@,
            p@.len() <= v@.len(),
            i <= p@.len(),
            forall|k: int| 0 <= k < i ==> v@[k] == p@[k],
        decreases p.len() - i,
    {
        if v[i] != p[i] {
            assert(v@.take(p@.len() as int)[i as int] != p@[i as int]);
            assert(v@.take(p@.len() as int) != p@);
            return None;
        }
        i = i + 1;
    }
    assert(v@.take(p@.len() as int) =~= p@);
    let mut r = String::new();
    push_chars(&mut r, &v, p.len(), v.len());
    assert(v@.subrange(p@.len() as int, v@.len() as int) =~= v@.skip(p@.len() as int));
    Some(r)
}

} // verus!
