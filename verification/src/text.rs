//! Character-level text handling shared by the configuration, the UPS value
//! parsers and the renderers: whitespace trimming, decimal parsing and
//! printing, and the normalisation used to compare SNMP values.
use vstd::prelude::*;
use vstd::string::*;

verus! {

/// `String::push` appends one character.
pub assume_specification[ String::push ](s: &mut String, ch: char)
    ensures
        final(s)@ == old(s)@.push(ch),
;

/// Unicode `White_Space`, the set that `char::is_whitespace` accepts.
pub open spec fn is_whitespace(c: char) -> bool {
    let u = c as u32;
    ||| 0x09 <= u <= 0x0d
    ||| u == 0x20
    ||| u == 0x85
    ||| u == 0xa0
    ||| u == 0x1680
    ||| 0x2000 <= u <= 0x200a
    ||| u == 0x2028
    ||| u == 0x2029
    ||| u == 0x202f
    ||| u == 0x205f
    ||| u == 0x3000
}

/// The sequence without its leading whitespace.
pub open spec fn trim_start(s: Seq<char>) -> Seq<char>
    decreases s.len(),
{
    if s.len() > 0 && is_whitespace(s[0]) {
        trim_start(s.drop_first())
    } else {
        s
    }
}

/// The sequence without its trailing whitespace.
pub open spec fn trim_end(s: Seq<char>) -> Seq<char>
    decreases s.len(),
{
    if s.len() > 0 && is_whitespace(s.last()) {
        trim_end(s.drop_last())
    } else {
        s
    }
}

/// What `str::trim` leaves of a string.
pub open spec fn trim(s: Seq<char>) -> Seq<char> {
    trim_end(trim_start(s))
}

/// True when nothing but whitespace remains after trimming.
pub open spec fn is_blank(s: Seq<char>) -> bool {
    forall|i: int| 0 <= i < s.len() ==> is_whitespace(#[trigger] s[i])
}

pub open spec fn is_ascii_digit(c: char) -> bool {
    '0' <= c <= '9'
}

pub open spec fn digit_value(c: char) -> nat {
    (c as u32 - '0' as u32) as nat
}

pub open spec fn all_digits(s: Seq<char>) -> bool {
    forall|i: int| 0 <= i < s.len() ==> is_ascii_digit(#[trigger] s[i])
}

/// The number that a sequence of decimal digits denotes.
pub open spec fn digits_value(s: Seq<char>) -> nat
    decreases s.len(),
{
    if s.len() == 0 {
        0
    } else {
        digits_value(s.drop_last()) * 10 + digit_value(s.last())
    }
}

/// What `str::parse::<u32>` accepts: an optional `+`, then one or more ASCII
/// digits whose value fits in a `u32`.
pub open spec fn parse_decimal(s: Seq<char>) -> Option<u32> {
    let d = if s.len() > 0 && s[0] == '+' {
        s.drop_first()
    } else {
        s
    };
    if d.len() > 0 && all_digits(d) && digits_value(d) <= u32::MAX {
        Some(digits_value(d) as u32)
    } else {
        None
    }
}

/// Index of the last occurrence of `c`.
pub open spec fn rfind(s: Seq<char>, c: char) -> Option<int>
    decreases s.len(),
{
    if s.len() == 0 {
        None
    } else if s.last() == c {
        Some(s.len() - 1)
    } else {
        rfind(s.drop_last(), c)
    }
}

/// Index of the first occurrence of `c`.
pub open spec fn find(s: Seq<char>, c: char) -> Option<int>
    decreases s.len(),
{
    if s.len() == 0 {
        None
    } else if s[0] == c {
        Some(0)
    } else {
        match find(s.drop_first(), c) {
            Some(i) => Some(i + 1),
            None => None,
        }
    }
}

/// A number read from an SNMP value: the trimmed text as a whole, or else
/// the text between the last `(` and the first `)` after it, as in
/// `battery(5)`.
pub open spec fn parse_u32_spec(s: Seq<char>) -> Option<u32> {
    let t = trim(s);
    match parse_decimal(t) {
        Some(n) => Some(n),
        None => match rfind(t, '(') {
            None => None,
            Some(start) => {
                let rest = t.subrange(start + 1, t.len() as int);
                match find(rest, ')') {
                    None => None,
                    Some(end) => parse_decimal(trim(rest.subrange(0, end))),
                }
            },
        },
    }
}

pub open spec fn parse_u8_spec(s: Seq<char>) -> Option<u8> {
    match parse_u32_spec(s) {
        Some(n) => if n <= u8::MAX {
            Some(n as u8)
        } else {
            None
        },
        None => None,
    }
}

pub open spec fn is_ascii_alphanumeric(c: char) -> bool {
    ||| '0' <= c <= '9'
    ||| 'a' <= c <= 'z'
    ||| 'A' <= c <= 'Z'
}

pub open spec fn ascii_lower(c: char) -> char {
    if 'A' <= c <= 'Z' {
        ((c as u32) + 32) as char
    } else {
        c
    }
}

/// The ASCII letters and digits of a value, lower-cased, in order: the form
/// in which SNMP values and configured candidates are compared.
pub open spec fn normalize(s: Seq<char>) -> Seq<char>
    decreases s.len(),
{
    if s.len() == 0 {
        s
    } else if is_ascii_alphanumeric(s.last()) {
        normalize(s.drop_last()).push(ascii_lower(s.last()))
    } else {
        normalize(s.drop_last())
    }
}

/// `str::to_ascii_lowercase`.
pub open spec fn to_ascii_lowercase(s: Seq<char>) -> Seq<char> {
    Seq::new(s.len(), |i: int| ascii_lower(s[i]))
}

pub open spec fn digit_char(d: nat) -> char {
    (('0' as u32) + d) as char
}

/// The decimal rendering of a number, as `Display` prints it.
pub open spec fn decimal(n: nat) -> Seq<char>
    decreases n,
{
    if n < 10 {
        seq![digit_char(n)]
    } else {
        decimal(n / 10).push(digit_char(n % 10))
    }
}

/// The characters of a string slice.
pub fn chars_of(s: &str) -> (v: Vec<char>)
    ensures
        v@ == s@,
{
    let n = s.unicode_len();
    let mut v: Vec<char> = Vec::new();
    let mut i: usize = 0;
    while i < n
        invariant
            n == s@.len(),
            i <= n,
            v@ == s@.subrange(0, i as int),
        decreases n - i,
    {
        v.push(s.get_char(i));
        i = i + 1;
    }
    v
}

/// A string holding the characters of a slice of a character sequence.
pub fn string_of_range(v: &[char], from: usize, to: usize) -> (s: String)
    requires
        from <= to <= v@.len(),
    ensures
        s@ == v@.subrange(from as int, to as int),
{
    let mut s = String::new();
    let mut i: usize = from;
    while i < to
        invariant
            from <= i <= to <= v@.len(),
            s@ == v@.subrange(from as int, i as int),
        decreases to - i,
    {
        s.push(v[i]);
        i = i + 1;
    }
    s
}

/// `char::is_whitespace`.
pub fn is_whitespace_char(c: char) -> (r: bool)
    ensures
        r == is_whitespace(c),
{
    let u = c as u32;
    (0x09 <= u && u <= 0x0d) || u == 0x20 || u == 0x85 || u == 0xa0 || u == 0x1680 || (0x2000 <= u
        && u <= 0x200a) || u == 0x2028 || u == 0x2029 || u == 0x202f || u == 0x205f || u == 0x3000
}


/// `str::parse::<u32>` on a range of a character sequence.
pub fn parse_decimal_range(v: &[char], from: usize, to: usize) -> (r: Option<u32>)
    requires
        from <= to <= v@.len(),
    ensures
        r == parse_decimal(v@.subrange(from as int, to as int)),
{
    let ghost s = v@.subrange(from as int, to as int);
    let mut start = from;
    if from < to && v[from] == '+' {
        start = from + 1;
    }
    let ghost d = v@.subrange(start as int, to as int);
    proof {
        if from < to && v@[from as int] == '+' {
            assert(s.drop_first() =~= d);
        } else {
            assert(s =~= d);
        }
    }
    if start == to {
        return None;
    }
    let mut acc: u64 = 0;
    let mut i = start;
    while i < to
        invariant
            start <= i <= to <= v@.len(),
            d == v@.subrange(start as int, to as int),
            d.len() > 0,
            parse_decimal(v@.subrange(from as int, to as int)) == (if all_digits(d)
                && digits_value(d) <= u32::MAX {
                Some(digits_value(d) as u32)
            } else {
                None
            }),
            all_digits(v@.subrange(start as int, i as int)),
            acc == if digits_value(v@.subrange(start as int, i as int)) <= u32::MAX {
                digits_value(v@.subrange(start as int, i as int))
            } else {
                u32::MAX as nat + 1
            },
        decreases to - i,
    {
        let c = v[i];
        let ghost p = v@.subrange(start as int, i as int);
        let ghost q = v@.subrange(start as int, i + 1);
        proof {
            assert(q.drop_last() =~= p);
            assert(q.last() == c);
        }
        if !('0' <= c && c <= '9') {
            proof {
                assert(d[i - start] == c);
            }
            return None;
        }
        let digit = (c as u32 - '0' as u32) as u64;
        if acc <= u32::MAX as u64 {
            acc = acc * 10 + digit;
            if acc > u32::MAX as u64 {
                acc = u32::MAX as u64 + 1;
            }
        }
        proof {
            assert forall|k: int| 0 <= k < q.len() implies is_ascii_digit(#[trigger] q[k]) by {
                if k < p.len() {
                    assert(q[k] == p[k]);
                }
            }
        }
        i = i + 1;
    }
    proof {
        assert(v@.subrange(start as int, i as int) =~= d);
    }
    if acc <= u32::MAX as u64 {
        Some(acc as u32)
    } else {
        None
    }
}

/// Last index of a character within a range of a sequence.
pub fn rfind_range(v: &[char], from: usize, to: usize, c: char) -> (r: Option<usize>)
    requires
        from <= to <= v@.len(),
    ensures
        match r {
            Some(j) => rfind(v@.subrange(from as int, to as int), c) == Some(j - from),
            None => rfind(v@.subrange(from as int, to as int), c) is None,
        },
        r matches Some(j) ==> from <= j < to && v@[j as int] == c,
{
    let mut j = to;
    while j > from
        invariant
            from <= j <= to <= v@.len(),
            rfind(v@.subrange(from as int, to as int), c) == rfind(
                v@.subrange(from as int, j as int),
                c,
            ),
        decreases j - from,
    {
        let ghost w = v@.subrange(from as int, j as int);
        proof {
            assert(w.drop_last() =~= v@.subrange(from as int, j - 1));
            assert(w.last() == v@[j - 1]);
        }
        if v[j - 1] == c {
            return Some(j - 1);
        }
        j = j - 1;
    }
    None
}

/// First index of a character within a range of a sequence.
pub fn find_range(v: &[char], from: usize, to: usize, c: char) -> (r: Option<usize>)
    requires
        from <= to <= v@.len(),
    ensures
        match r {
            Some(j) => find(v@.subrange(from as int, to as int), c) == Some(j - from),
            None => find(v@.subrange(from as int, to as int), c) is None,
        },
        r matches Some(j) ==> from <= j < to && v@[j as int] == c,
{
    let mut i = from;
    while i < to
        invariant
            from <= i <= to <= v@.len(),
            match find(v@.subrange(from as int, to as int), c) {
                Some(k) => match find(v@.subrange(i as int, to as int), c) {
                    Some(k2) => k == k2 + (i - from),
                    None => false,
                },
                None => find(v@.subrange(i as int, to as int), c) is None,
            },
        decreases to - i,
    {
        let ghost w = v@.subrange(i as int, to as int);
        proof {
            assert(w.drop_first() =~= v@.subrange(i + 1, to as int));
            assert(w[0] == v@[i as int]);
        }
        if v[i] == c {
            return Some(i);
        }
        i = i + 1;
    }
    None
}

/// Reads a number from an SNMP value (see [`parse_u32_spec`]).
pub fn parse_u32(value: &str) -> (r: Option<u32>)
    ensures
        r == parse_u32_spec(value@),
{
    let v = chars_of(value);
    let (a, b) = trim_bounds(v.as_slice());
    let ghost t = v@.subrange(a as int, b as int);
    let whole = parse_decimal_range(v.as_slice(), a, b);
    if whole.is_some() {
        return whole;
    }
    let start = match rfind_range(v.as_slice(), a, b, '(') {
        Some(k) => k,
        None => return None,
    };
    let ghost rest = t.subrange(start - a + 1, t.len() as int);
    proof {
        assert(t == trim(value@));
        assert(parse_decimal(t) is None);
        assert(rfind(t, '(') == Some((start - a) as int));
        assert(rest =~= v@.subrange(start + 1, b as int));
    }
    let end = match find_range(v.as_slice(), start + 1, b, ')') {
        Some(k) => k,
        None => return None,
    };
    let (c, d) = trim_bounds_range(v.as_slice(), start + 1, end);
    proof {
        assert(find(rest, ')') == Some((end - (start + 1)) as int));
        assert(rest.subrange(0, end - (start + 1)) =~= v@.subrange(start + 1, end as int));
    }
    parse_decimal_range(v.as_slice(), c, d)
}

/// The bounds of what trimming leaves of a range of a character sequence.
pub fn trim_bounds_range(v: &[char], from: usize, to: usize) -> (r: (usize, usize))
    requires
        from <= to <= v@.len(),
    ensures
        from <= r.0 <= r.1 <= to,
        v@.subrange(r.0 as int, r.1 as int) == trim(v@.subrange(from as int, to as int)),
{
    let ghost s = v@.subrange(from as int, to as int);
    let mut i: usize = from;
    proof {
        assert(v@.subrange(from as int, to as int) =~= s);
    }
    while i < to && is_whitespace_char(v[i])
        invariant
            from <= i <= to <= v@.len(),
            s == v@.subrange(from as int, to as int),
            trim_start(s) == trim_start(v@.subrange(i as int, to as int)),
        decreases to - i,
    {
        proof {
            let u = v@.subrange(i as int, to as int);
            assert(u.drop_first() =~= v@.subrange(i + 1, to as int));
            assert(u[0] == v@[i as int]);
        }
        i = i + 1;
    }
    let ghost u = v@.subrange(i as int, to as int);
    proof {
        if i < to {
            assert(u[0] == v@[i as int]);
        }
        assert(trim_start(u) == u);
    }
    let mut j: usize = to;
    while j > i && is_whitespace_char(v[j - 1])
        invariant
            from <= i <= j <= to <= v@.len(),
            trim(s) == trim_end(v@.subrange(i as int, j as int)),
        decreases j - i,
    {
        proof {
            lemma_trim_end_step(v@, i as int, j as int);
        }
        j = j - 1;
    }
    proof {
        let w = v@.subrange(i as int, j as int);
        if j > i {
            assert(w.last() == v@[j - 1]);
        }
        assert(trim_end(w) == w);
    }
    (i, j)
}

/// Reads a number that fits in a `u8` from an SNMP value.
pub fn parse_u8(value: &str) -> (r: Option<u8>)
    ensures
        r == parse_u8_spec(value@),
{
    match parse_u32(value) {
        Some(n) => if n <= 255 {
            Some(n as u8)
        } else {
            None
        },
        None => None,
    }
}


fn ascii_lower_char(c: char) -> (r: char)
    ensures
        r == ascii_lower(c),
{
    if 'A' <= c && c <= 'Z' {
        ((c as u8) + 32) as char
    } else {
        c
    }
}

/// The normalised form of an SNMP value or candidate (see [`normalize`]).
/// Trimming whitespace and quotes first would not change it: neither is
/// alphanumeric (see [`lemma_normalize_ignores_edges`]).
pub fn normalize_str(value: &str) -> (r: Vec<char>)
    ensures
        r@ == normalize(value@),
{
    let v = chars_of(value);
    let mut out: Vec<char> = Vec::new();
    let mut i: usize = 0;
    while i < v.len()
        invariant
            i <= v@.len(),
            v@ == value@,
            out@ == normalize(v@.subrange(0, i as int)),
        decreases v@.len() - i,
    {
        let c = v[i];
        let ghost p = v@.subrange(0, i + 1);
        proof {
            assert(p.drop_last() =~= v@.subrange(0, i as int));
            assert(p.last() == c);
        }
        if ('0' <= c && c <= '9') || ('a' <= c && c <= 'z') || ('A' <= c && c <= 'Z') {
            out.push(ascii_lower_char(c));
        }
        i = i + 1;
    }
    proof {
        assert(v@.subrange(0, v@.len() as int) =~= v@);
    }
    out
}

/// `str::to_ascii_lowercase`, as a character sequence.
pub fn ascii_lowercase(v: &[char]) -> (r: Vec<char>)
    ensures
        r@ == to_ascii_lowercase(v@),
{
    let mut out: Vec<char> = Vec::new();
    let mut i: usize = 0;
    while i < v.len()
        invariant
            i <= v@.len(),
            out@ =~= to_ascii_lowercase(v@.subrange(0, i as int)),
        decreases v@.len() - i,
    {
        out.push(ascii_lower_char(v[i]));
        i = i + 1;
    }
    proof {
        assert(v@.subrange(0, v@.len() as int) =~= v@);
    }
    out
}

/// A setting as it is compared: trimmed and lower-cased
/// (`s.trim().to_ascii_lowercase()`).
pub fn trim_lowercase(value: &str) -> (r: Vec<char>)
    ensures
        r@ == to_ascii_lowercase(trim(value@)),
{
    let v = chars_of(value);
    let (a, b) = trim_bounds(v.as_slice());
    let mut t: Vec<char> = Vec::new();
    let mut i = a;
    while i < b
        invariant
            a <= i <= b <= v@.len(),
            t@ == v@.subrange(a as int, i as int),
        decreases b - i,
    {
        t.push(v[i]);
        i = i + 1;
    }
    ascii_lowercase(t.as_slice())
}

/// Character-wise equality of two sequences.
pub fn chars_eq(a: &[char], b: &[char]) -> (r: bool)
    ensures
        r == (a@ == b@),
{
    if a.len() != b.len() {
        return false;
    }
    let mut i: usize = 0;
    while i < a.len()
        invariant
            a@.len() == b@.len(),
            i <= a@.len(),
            forall|k: int| 0 <= k < i ==> a@[k] == b@[k],
        decreases a@.len() - i,
    {
        if a[i] != b[i] {
            return false;
        }
        i = i + 1;
    }
    proof {
        assert(a@ =~= b@);
    }
    true
}

/// Equality of two string slices.
pub fn str_eq(a: &str, b: &str) -> (r: bool)
    ensures
        r == (a@ == b@),
{
    let x = chars_of(a);
    let y = chars_of(b);
    chars_eq(x.as_slice(), y.as_slice())
}

/// Appends the decimal rendering of a number.
pub fn push_decimal(s: &mut String, n: u64)
    ensures
        final(s)@ == old(s)@ + decimal(n as nat),
    decreases n,
{
    if n >= 10 {
        push_decimal(s, n / 10);
    }
    let d = (n % 10) as u8;
    s.push((48u8 + d) as char);
    proof {
        assert(old(s)@ + decimal(n as nat) =~= old(s)@ + decimal((n / 10) as nat) + seq![
            digit_char((n % 10) as nat),
        ] || n < 10);
    }
}

/// The decimal rendering of a number (`n.to_string()`).
pub fn decimal_string(n: u64) -> (r: String)
    ensures
        r@ == decimal(n as nat),
{
    let mut s = String::new();
    push_decimal(&mut s, n);
    proof {
        assert(Seq::<char>::empty() + decimal(n as nat) =~= decimal(n as nat));
    }
    s
}

proof fn lemma_digit_char_value(d: nat)
    requires
        d < 10,
    ensures
        digit_value(digit_char(d)) == d,
        is_ascii_digit(digit_char(d)),
{
    assert(((48 + d) as char) as u32 == 48 + d);
}

proof fn lemma_decimal_digits(n: nat)
    ensures
        decimal(n).len() > 0,
        all_digits(decimal(n)),
        digits_value(decimal(n)) == n,
    decreases n,
{
    if n >= 10 {
        lemma_decimal_digits(n / 10);
        let p = decimal(n / 10);
        let q = p.push(digit_char(n % 10));
        assert(q.drop_last() =~= p);
        lemma_digit_char_value(n % 10);
        assert(n == (n / 10) * 10 + n % 10);
        assert(decimal(n) == q);
        assert(digits_value(q) == digits_value(p) * 10 + digit_value(q.last()));
        assert forall|i: int| 0 <= i < q.len() implies is_ascii_digit(#[trigger] q[i]) by {
            if i < p.len() {
                assert(q[i] == p[i]);
            }
        }
    } else {
        let q = decimal(n);
        assert(q.drop_last() =~= Seq::<char>::empty());
        assert(digits_value(Seq::<char>::empty()) == 0);
        lemma_digit_char_value(n);
        assert(digits_value(q) == digits_value(q.drop_last()) * 10 + digit_value(q.last()));
    }
}

/// Reading back a rendered number gives the number: `parse_u32` undoes
/// the decimal rendering of every `u32`.
pub proof fn lemma_parse_decimal_roundtrip(n: u32)
    ensures
        parse_u32_spec(decimal(n as nat)) == Some(n),
{
    let s = decimal(n as nat);
    lemma_decimal_digits(n as nat);
    assert(is_ascii_digit(s[0]));
    assert(is_ascii_digit(s.last()));
    assert(trim_start(s) == s);
    assert(trim_end(s) == s);
}

proof fn lemma_trim_start_step(s: Seq<char>, i: int)
    requires
        0 <= i < s.len(),
        is_whitespace(s[i]),
    ensures
        trim_start(s.subrange(i, s.len() as int)) == trim_start(s.subrange(i + 1, s.len() as int)),
{
    let u = s.subrange(i, s.len() as int);
    assert(u.drop_first() =~= s.subrange(i + 1, s.len() as int));
}

proof fn lemma_trim_end_step(s: Seq<char>, i: int, j: int)
    requires
        0 <= i < j <= s.len(),
        is_whitespace(s[j - 1]),
    ensures
        trim_end(s.subrange(i, j)) == trim_end(s.subrange(i, j - 1)),
{
    let u = s.subrange(i, j);
    assert(u.drop_last() =~= s.subrange(i, j - 1));
}

/// The bounds of what `str::trim` leaves of a character sequence.
pub fn trim_bounds(v: &[char]) -> (r: (usize, usize))
    ensures
        r.0 <= r.1 <= v@.len(),
        v@.subrange(r.0 as int, r.1 as int) == trim(v@),
{
    let n = v.len();
    let mut i: usize = 0;
    proof {
        assert(v@.subrange(0, n as int) =~= v@);
    }
    while i < n && is_whitespace_char(v[i])
        invariant
            n == v@.len(),
            i <= n,
            trim_start(v@) == trim_start(v@.subrange(i as int, n as int)),
        decreases n - i,
    {
        proof {
            lemma_trim_start_step(v@, i as int);
        }
        i = i + 1;
    }
    let ghost u = v@.subrange(i as int, n as int);
    proof {
        if i < n {
            assert(u[0] == v@[i as int]);
        }
        assert(trim_start(u) == u);
    }
    let mut j: usize = n;
    while j > i && is_whitespace_char(v[j - 1])
        invariant
            n == v@.len(),
            i <= j <= n,
            trim(v@) == trim_end(v@.subrange(i as int, j as int)),
        decreases j - i,
    {
        proof {
            lemma_trim_end_step(v@, i as int, j as int);
        }
        j = j - 1;
    }
    proof {
        let w = v@.subrange(i as int, j as int);
        if j > i {
            assert(w.last() == v@[j - 1]);
        }
        assert(trim_end(w) == w);
    }
    (i, j)
}

/// True when a string holds nothing but whitespace (`s.trim().is_empty()`).
pub fn is_blank_str(s: &str) -> (r: bool)
    ensures
        r == (trim(s@).len() == 0),
        r == is_blank(s@),
{
    let v = chars_of(s);
    let (a, b) = trim_bounds(v.as_slice());
    proof {
        lemma_blank_iff_trim_empty(s@);
    }
    a == b
}

proof fn lemma_trim_start_all_ws(s: Seq<char>)
    ensures
        is_blank(s) <==> trim_start(s).len() == 0,
        trim_start(s).len() > 0 ==> !is_whitespace(trim_start(s)[0]),
    decreases s.len(),
{
    if s.len() > 0 {
        lemma_trim_start_all_ws(s.drop_first());
        if is_whitespace(s[0]) {
            if is_blank(s.drop_first()) {
                assert forall|i: int| 0 <= i < s.len() implies is_whitespace(#[trigger] s[i]) by {
                    if i > 0 {
                        assert(s[i] == s.drop_first()[i - 1]);
                    }
                }
            }
            if is_blank(s) {
                assert forall|i: int| 0 <= i < s.drop_first().len() implies is_whitespace(
                    #[trigger] s.drop_first()[i],
                ) by {
                    assert(s.drop_first()[i] == s[i + 1]);
                }
            }
        } else {
            assert(!is_blank(s));
        }
    }
}

proof fn lemma_trim_end_nonempty(s: Seq<char>)
    requires
        s.len() > 0,
        !is_whitespace(s[0]),
    ensures
        trim_end(s).len() > 0,
    decreases s.len(),
{
    if is_whitespace(s.last()) {
        assert(s.len() > 1);
        assert(s.drop_last()[0] == s[0]);
        lemma_trim_end_nonempty(s.drop_last());
    }
}

/// A string is blank exactly when trimming leaves nothing.
pub proof fn lemma_blank_iff_trim_empty(s: Seq<char>)
    ensures
        is_blank(s) <==> trim(s).len() == 0,
{
    lemma_trim_start_all_ws(s);
    let t = trim_start(s);
    if t.len() > 0 {
        lemma_trim_end_nonempty(t);
    }
}

/// Normalising a concatenation normalises each part.
proof fn lemma_normalize_concat(a: Seq<char>, b: Seq<char>)
    ensures
        normalize(a + b) == normalize(a) + normalize(b),
    decreases b.len(),
{
    if b.len() == 0 {
        assert(a + b =~= a);
        assert(normalize(a) + normalize(b) =~= normalize(a));
    } else {
        lemma_normalize_concat(a, b.drop_last());
        assert((a + b).drop_last() =~= a + b.drop_last());
        assert((a + b).last() == b.last());
        if is_ascii_alphanumeric(b.last()) {
            assert(normalize(a) + normalize(b.drop_last()).push(ascii_lower(b.last())) =~= (
            normalize(a) + normalize(b.drop_last())).push(ascii_lower(b.last())));
        }
    }
}

/// A sequence with no ASCII letter or digit normalises to nothing.
proof fn lemma_normalize_none(p: Seq<char>)
    requires
        forall|i: int| 0 <= i < p.len() ==> !is_ascii_alphanumeric(#[trigger] p[i]),
    ensures
        normalize(p) == Seq::<char>::empty(),
    decreases p.len(),
{
    if p.len() > 0 {
        lemma_normalize_none(p.drop_last());
    }
}

/// Characters other than ASCII letters and digits before and after a value
/// (whitespace, quotes) do not change its normalised form.
pub proof fn lemma_normalize_ignores_edges(before: Seq<char>, s: Seq<char>, after: Seq<char>)
    requires
        forall|i: int| 0 <= i < before.len() ==> !is_ascii_alphanumeric(#[trigger] before[i]),
        forall|i: int| 0 <= i < after.len() ==> !is_ascii_alphanumeric(#[trigger] after[i]),
    ensures
        normalize(before + s + after) == normalize(s),
{
    lemma_normalize_concat(before + s, after);
    lemma_normalize_concat(before, s);
    lemma_normalize_none(before);
    lemma_normalize_none(after);
    assert(Seq::<char>::empty() + normalize(s) + Seq::<char>::empty() =~= normalize(s));
}

proof fn lemma_rfind_at(s: Seq<char>, c: char, i: int)
    requires
        0 <= i < s.len(),
        s[i] == c,
        forall|j: int| i < j < s.len() ==> s[j] != c,
    ensures
        rfind(s, c) == Some(i),
    decreases s.len(),
{
    if i < s.len() - 1 {
        assert(s.last() != c);
        lemma_rfind_at(s.drop_last(), c, i);
    }
}

proof fn lemma_find_at(s: Seq<char>, c: char, i: int)
    requires
        0 <= i < s.len(),
        s[i] == c,
        forall|j: int| 0 <= j < i ==> s[j] != c,
    ensures
        find(s, c) == Some(i),
    decreases i,
{
    if i > 0 {
        assert(s[0] != c);
        lemma_find_at(s.drop_first(), c, i - 1);
    }
}

/// A number in parentheses after a name, as SNMP agents write enumerated
/// values (`batteryNormal(2)`), reads as that number, for every name with
/// no `(` of its own and no leading whitespace.
pub proof fn lemma_parenthesised_number(name: Seq<char>, n: u32)
    requires
        forall|j: int| 0 <= j < name.len() ==> name[j] != '(',
        name.len() == 0 || !is_whitespace(name[0]),
    ensures
        parse_u32_spec(name + seq!['('] + decimal(n as nat) + seq![')']) == Some(n),
{
    let d = decimal(n as nat);
    let t = name + seq!['('] + d + seq![')'];
    let k = name.len() as int;
    lemma_decimal_digits(n as nat);
    assert(t[k] == '(');
    assert(t.last() == ')');
    assert(trim_start(t) == t);
    assert(trim_end(t) == t);
    assert(trim(t) == t);
    let dd = if t.len() > 0 && t[0] == '+' { t.drop_first() } else { t };
    if t[0] == '+' {
        assert(k > 0);
        assert(dd[k - 1] == '(');
        assert(!is_ascii_digit(dd[k - 1]));
    } else {
        assert(dd[k] == '(');
        assert(!is_ascii_digit(dd[k]));
    }
    assert(parse_decimal(t) is None);
    assert forall|j: int| k < j < t.len() implies t[j] != '(' by {
        if j < t.len() - 1 {
            assert(t[j] == d[j - k - 1]);
            assert(is_ascii_digit(d[j - k - 1]));
        }
    }
    lemma_rfind_at(t, '(', k);
    let rest = t.subrange(k + 1, t.len() as int);
    assert(rest =~= d + seq![')']);
    assert forall|j: int| 0 <= j < d.len() implies rest[j] != ')' by {
        assert(rest[j] == d[j]);
        assert(is_ascii_digit(d[j]));
    }
    lemma_find_at(rest, ')', d.len() as int);
    assert(rest.subrange(0, d.len() as int) =~= d);
    assert(is_ascii_digit(d[0]));
    assert(is_ascii_digit(d.last()));
    assert(trim_start(d) == d);
    assert(trim_end(d) == d);
}

pub open spec fn is_lower_alphanumeric(c: char) -> bool {
    '0' <= c <= '9' || 'a' <= c <= 'z'
}

/// Normalising keeps exactly the ASCII letters and digits, lower-cased: the
/// result holds nothing else, text already made only of lower-case letters
/// and digits is left as it is, and case does not matter.
pub proof fn lemma_normalize_shape(s: Seq<char>)
    ensures
        forall|i: int| 0 <= i < normalize(s).len() ==> is_lower_alphanumeric(#[trigger] normalize(s)[i]),
        (forall|i: int| 0 <= i < s.len() ==> is_lower_alphanumeric(#[trigger] s[i])) ==> normalize(s) == s,
        normalize(to_ascii_lowercase(s)) == normalize(s),
    decreases s.len(),
{
    if s.len() > 0 {
        let p = s.drop_last();
        lemma_normalize_shape(p);
        assert(to_ascii_lowercase(s).drop_last() =~= to_ascii_lowercase(p));
        assert(to_ascii_lowercase(s).last() == ascii_lower(s.last()));
        if forall|i: int| 0 <= i < s.len() ==> is_lower_alphanumeric(#[trigger] s[i]) {
            assert(is_lower_alphanumeric(s[s.len() - 1]));
            assert forall|i: int| 0 <= i < p.len() implies is_lower_alphanumeric(#[trigger] p[i]) by {
                assert(p[i] == s[i]);
            }
            assert(p.push(s.last()) =~= s);
        }
    }
}

} // verus!
