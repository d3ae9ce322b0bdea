//! Character-level helpers shared by the rest of the crate.
//!
//! Strings are modelled by their view, a `Seq<char>`. Every function here
//! states its result over that sequence.

use vstd::prelude::*;

verus! {

/// `String::push` appends exactly one character and leaves the rest untouched.
pub assume_specification[ String::push ](s: &mut String, c: char)
    ensures
        final(s)@ == old(s)@.push(c),
;

/// Equality of string slices, `<str as PartialEq>::eq`, compares contents.
pub assume_specification[ <str as PartialEq>::eq ](a: &str, b: &str) -> (r: bool)
    ensures
        r == (a@ == b@),
;

/// The characters with the Unicode `White_Space` property, which is what
/// `char::is_whitespace` tests.
pub open spec fn is_space(c: char) -> bool {
    let u = c as u32;
    ||| 0x09 <= u <= 0x0D
    ||| u == 0x20
    ||| u == 0x85
    ||| u == 0xA0
    ||| u == 0x1680
    ||| 0x2000 <= u <= 0x200A
    ||| u == 0x2028
    ||| u == 0x2029
    ||| u == 0x202F
    ||| u == 0x205F
    ||| u == 0x3000
}

/// A string is blank when trimming it would leave nothing.
pub open spec fn blank(s: Seq<char>) -> bool {
    forall|i: int| 0 <= i < s.len() ==> is_space(#[trigger] s[i])
}

/// Index of the first character at or after `from` that is not white space,
/// or the length of `s` when there is none.
pub open spec fn skip_spaces(s: Seq<char>, from: int) -> int
    decreases s.len() - from,
{
    if from < 0 || from >= s.len() {
        s.len() as int
    } else if !is_space(s[from]) {
        from
    } else {
        skip_spaces(s, from + 1)
    }
}

/// Index of the first white-space character at or after `from`, or the length
/// of `s` when there is none.
pub open spec fn word_end(s: Seq<char>, from: int) -> int
    decreases s.len() - from,
{
    if from < 0 || from >= s.len() {
        s.len() as int
    } else if is_space(s[from]) {
        from
    } else {
        word_end(s, from + 1)
    }
}

/// The first white-space separated word of `s`; empty exactly when `s` is blank.
pub open spec fn first_word(s: Seq<char>) -> Seq<char> {
    let start = skip_spaces(s, 0);
    s.subrange(start, word_end(s, start))
}

/// `s` with leading and trailing white space removed.
pub open spec fn trimmed(s: Seq<char>) -> Seq<char> {
    let start = skip_spaces(s, 0);
    s.subrange(start, trim_end(s, start))
}

/// One past the last non-space character of `s` at or after `from`, or `from`
/// when every character from there on is white space.
pub open spec fn trim_end(s: Seq<char>, from: int) -> int
    decreases s.len(),
{
    if s.len() <= from || s.len() == 0 {
        from
    } else if !is_space(s.last()) {
        s.len() as int
    } else {
        trim_end(s.drop_last(), from)
    }
}

/// ASCII lower-casing of one character; other characters are left alone.
pub open spec fn ascii_lower(c: char) -> char {
    if 'A' <= c <= 'Z' {
        ((c as u8) + 32) as char
    } else {
        c
    }
}

/// Equality up to ASCII case, as `str::eq_ignore_ascii_case` defines it.
pub open spec fn eq_ignore_case(a: Seq<char>, b: Seq<char>) -> bool {
    &&& a.len() == b.len()
    &&& forall|i: int| 0 <= i < a.len() ==> ascii_lower(#[trigger] a[i]) == ascii_lower(b[i])
}

/// `s` with every occurrence of `from` replaced by `to`.
pub open spec fn replaced(s: Seq<char>, from: char, to: char) -> Seq<char> {
    Seq::new(s.len(), |i: int| if s[i] == from { to } else { s[i] })
}

pub proof fn lemma_skip_spaces(s: Seq<char>, from: int)
    requires
        0 <= from <= s.len(),
    ensures
        from <= skip_spaces(s, from) <= s.len(),
        forall|i: int| from <= i < skip_spaces(s, from) ==> is_space(#[trigger] s[i]),
        skip_spaces(s, from) < s.len() ==> !is_space(s[skip_spaces(s, from)]),
    decreases s.len() - from,
{
    if from < s.len() && is_space(s[from]) {
        lemma_skip_spaces(s, from + 1);
    }
}

pub proof fn lemma_word_end(s: Seq<char>, from: int)
    requires
        0 <= from <= s.len(),
    ensures
        from <= word_end(s, from) <= s.len(),
        forall|i: int| from <= i < word_end(s, from) ==> !is_space(#[trigger] s[i]),
        word_end(s, from) < s.len() ==> is_space(s[word_end(s, from)]),
    decreases s.len() - from,
{
    if from < s.len() && !is_space(s[from]) {
        lemma_word_end(s, from + 1);
    }
}

/// The first word is empty exactly for blank strings, and never holds white space.
pub proof fn law_first_word(s: Seq<char>)
    ensures
        first_word(s).len() == 0 <==> blank(s),
        forall|i: int| 0 <= i < first_word(s).len() ==> !is_space(#[trigger] first_word(s)[i]),
{
    lemma_skip_spaces(s, 0);
    let start = skip_spaces(s, 0);
    lemma_word_end(s, start);
    if start < s.len() {
        assert(!is_space(s[start]));
        assert(word_end(s, start) > start);
    }
}

/// Whether two strings hold the same characters.
pub fn str_eq(a: &str, b: &str) -> (r: bool)
    ensures
        r == (a@ == b@),
{
    a.eq(b)
}

pub fn is_whitespace(c: char) -> (r: bool)
    ensures
        r == is_space(c),
{
    let u: u32 = c as u32;
    (0x09 <= u && u <= 0x0D) || u == 0x20 || u == 0x85 || u == 0xA0 || u == 0x1680 || (0x2000 <= u
        && u <= 0x200A) || u == 0x2028 || u == 0x2029 || u == 0x202F || u == 0x205F || u == 0x3000
}

/// The characters of `s`, in order.
pub fn to_chars(s: &str) -> (v: Vec<char>)
    ensures
        v@ == s@,
{
    let mut v: Vec<char> = Vec::new();
    for c in it: s.chars()
        invariant
            v@ == it.seq().take(it.index() as int),
            it.seq() == s@,
    {
        v.push(c);
    }
    v
}

/// The string made of `v[from..to]`.
pub(crate) fn from_chars(v: &Vec<char>, from: usize, to: usize) -> (s: String)
    requires
        from <= to <= v.len(),
    ensures
        s@ == v@.subrange(from as int, to as int),
{
    let mut s = String::new();
    let mut i: usize = from;
    while i < to
        invariant
            from <= i <= to <= v.len(),
            s@ == v@.subrange(from as int, i as int),
        decreases to - i,
    {
        s.push(v[i]);
        assert(v@.subrange(from as int, i as int).push(v@[i as int]) == v@.subrange(
            from as int,
            i + 1,
        ));
        i += 1;
    }
    s
}

/// Whether trimming `s` leaves nothing.
pub fn is_blank(s: &str) -> (r: bool)
    ensures
        r == blank(s@),
{
    let v = to_chars(s);
    let mut i: usize = 0;
    while i < v.len()
        invariant
            i <= v.len(),
            v@ == s@,
            forall|j: int| 0 <= j < i ==> is_space(#[trigger] v@[j]),
        decreases v.len() - i,
    {
        if !is_whitespace(v[i]) {
            return false;
        }
        i += 1;
    }
    true
}

/// The first white-space separated word of `s`, or `None` when `s` is blank.
pub fn first_word_of(s: &str) -> (r: Option<String>)
    ensures
        match r {
            Some(w) => !blank(s@) && w@ == first_word(s@),
            None => blank(s@),
        },
{
    let v = to_chars(s);
    let mut start: usize = 0;
    while start < v.len() && is_whitespace(v[start])
        invariant
            start <= v.len(),
            skip_spaces(v@, 0) == skip_spaces(v@, start as int),
            forall|j: int| 0 <= j < start ==> is_space(#[trigger] v@[j]),
        decreases v.len() - start,
    {
        start += 1;
    }
    if start == v.len() {
        return None;
    }
    let mut end: usize = start;
    while end < v.len() && !is_whitespace(v[end])
        invariant
            start <= end <= v.len(),
            word_end(v@, start as int) == word_end(v@, end as int),
        decreases v.len() - end,
    {
        end += 1;
    }
    assert(!is_space(v@[start as int]));
    Some(from_chars(&v, start, end))
}

/// `s` with leading and trailing white space removed.
pub fn trim(s: &str) -> (r: String)
    ensures
        r@ == trimmed(s@),
{
    let v = to_chars(s);
    let mut start: usize = 0;
    while start < v.len() && is_whitespace(v[start])
        invariant
            start <= v.len(),
            skip_spaces(v@, 0) == skip_spaces(v@, start as int),
        decreases v.len() - start,
    {
        start += 1;
    }
    let mut end: usize = v.len();
    assert(v@.take(end as int) == v@);
    while end > start && is_whitespace(v[end - 1])
        invariant
            start <= end <= v.len(),
            trim_end(v@, start as int) == trim_end(v@.take(end as int), start as int),
        decreases end,
    {
        assert(v@.take(end as int).drop_last() == v@.take(end - 1));
        end -= 1;
    }
    from_chars(&v, start, end)
}

/// Whether `s` begins with `prefix`.
pub fn starts_with(s: &str, prefix: &str) -> (r: bool)
    ensures
        r == prefix@.is_prefix_of(s@),
{
    let v = to_chars(s);
    let p = to_chars(prefix);
    if p.len() > v.len() {
        return false;
    }
    let mut i: usize = 0;
    while i < p.len()
        invariant
            i <= p.len() <= v.len(),
            v@ == s@,
            p@ == prefix@,
            forall|j: int| 0 <= j < i ==> p@[j] == v@[j],
        decreases p.len() - i,
    {
        if p[i] != v[i] {
            assert(v@.subrange(0, p@.len() as int)[i as int] == v@[i as int]);
            return false;
        }
        i += 1;
    }
    assert(p@ =~= v@.subrange(0, p@.len() as int));
    true
}

pub(crate) fn to_ascii_lower(c: char) -> (r: char)
    ensures
        r == ascii_lower(c),
{
    if 'A' <= c && c <= 'Z' {
        ((c as u8) + 32) as char
    } else {
        c
    }
}

/// Whether `a[a_from..a_to]` equals `b` up to ASCII case.
pub(crate) fn chars_eq_ignore_case(a: &Vec<char>, a_from: usize, a_to: usize, b: &Vec<char>) -> (r: bool)
    requires
        a_from <= a_to <= a.len(),
    ensures
        r == eq_ignore_case(a@.subrange(a_from as int, a_to as int), b@),
{
    if a_to - a_from != b.len() {
        return false;
    }
    let ghost sub = a@.subrange(a_from as int, a_to as int);
    let mut i: usize = 0;
    while i < b.len()
        invariant
            i <= b.len(),
            a_from <= a_to <= a.len(),
            a_to - a_from == b.len(),
            sub == a@.subrange(a_from as int, a_to as int),
            forall|j: int| 0 <= j < i ==> ascii_lower(#[trigger] sub[j]) == ascii_lower(b@[j]),
        decreases b.len() - i,
    {
        if to_ascii_lower(a[a_from + i]) != to_ascii_lower(b[i]) {
            assert(sub[i as int] == a@[a_from + i]);
            return false;
        }
        assert(sub[i as int] == a@[a_from + i]);
        i += 1;
    }
    true
}

/// `s` with every `from` replaced by `to`.
pub fn replace_char(s: &str, from: char, to: char) -> (r: String)
    ensures
        r@ == replaced(s@, from, to),
{
    let v = to_chars(s);
    let mut out = String::new();
    let mut i: usize = 0;
    while i < v.len()
        invariant
            i <= v.len(),
            v@ == s@,
            out@ == replaced(s@, from, to).take(i as int),
        decreases v.len() - i,
    {
        let c = v[i];
        out.push(if c == from { to } else { c });
        assert(replaced(s@, from, to).take(i as int).push(replaced(s@, from, to)[i as int])
            == replaced(s@, from, to).take(i + 1));
        i += 1;
    }
    assert(replaced(s@, from, to).take(v.len() as int) == replaced(s@, from, to));
    out
}


/// The decimal digit for `d`, which is below ten.
pub open spec fn digit_char(d: nat) -> char {
    (('0' as u8) + (d as u8)) as char
}

/// The decimal numeral of `n`, without sign or leading zeros.
pub open spec fn decimal(n: nat) -> Seq<char>
    decreases n,
{
    if n < 10 {
        seq![digit_char(n)]
    } else {
        decimal(n / 10).push(digit_char(n % 10))
    }
}

pub open spec fn is_digit(c: char) -> bool {
    '0' <= c <= '9'
}

pub open spec fn all_digits(s: Seq<char>) -> bool {
    forall|i: int| 0 <= i < s.len() ==> is_digit(#[trigger] s[i])
}

/// The number that a string of decimal digits denotes.
pub open spec fn digits_value(s: Seq<char>) -> nat
    decreases s.len(),
{
    if s.len() == 0 {
        0
    } else {
        (digits_value(s.drop_last()) * 10 + ((s.last() as u32) - ('0' as u32))) as nat
    }
}

/// A numeral without its optional leading `+`.
pub open spec fn unsigned_body(s: Seq<char>) -> Seq<char> {
    if s.len() > 0 && s[0] == '+' {
        s.drop_first()
    } else {
        s
    }
}

/// What parsing an unsigned decimal number gives: an optional `+`, then at
/// least one digit and nothing else; a value above `max` is refused.
pub open spec fn parse_unsigned(s: Seq<char>, max: nat) -> Option<nat> {
    let body = unsigned_body(s);
    if body.len() > 0 && all_digits(body) && digits_value(body) <= max {
        Some(digits_value(body))
    } else {
        None
    }
}

proof fn lemma_digits_value_grows(s: Seq<char>, k: int)
    requires
        all_digits(s),
        0 <= k <= s.len(),
    ensures
        digits_value(s.take(k)) <= digits_value(s),
    decreases s.len(),
{
    if k < s.len() {
        assert(all_digits(s.drop_last())) by {
            assert forall|i: int| 0 <= i < s.drop_last().len() implies is_digit(
                #[trigger] s.drop_last()[i],
            ) by {
                assert(s.drop_last()[i] == s[i]);
            }
        }
        assert(s.drop_last().take(k) =~= s.take(k));
        lemma_digits_value_grows(s.drop_last(), k);
        assert(is_digit(s.last()));
    } else {
        assert(s.take(k) =~= s);
    }
}

/// Appends the decimal numeral of `n` to `out`.
pub fn push_decimal(out: &mut String, n: u64)
    ensures
        final(out)@ == old(out)@ + decimal(n as nat),
    decreases n,
{
    if n >= 10 {
        push_decimal(out, n / 10);
    }
    let d: u8 = (n % 10) as u8;
    out.push((48u8 + d) as char);
    assert(final(out)@ =~= old(out)@ + decimal(n as nat));
}

/// The decimal numeral of `n`.
pub fn decimal_string(n: u64) -> (s: String)
    ensures
        s@ == decimal(n as nat),
{
    let mut s = String::new();
    push_decimal(&mut s, n);
    assert(Seq::<char>::empty() + decimal(n as nat) =~= decimal(n as nat));
    s
}

/// Parses an unsigned decimal number that may not exceed `max`.
pub fn parse_number(s: &str, max: u64) -> (r: Option<u64>)
    ensures
        match r {
            Some(n) => parse_unsigned(s@, max as nat) == Some(n as nat),
            None => parse_unsigned(s@, max as nat) is None,
        },
{
    let v = to_chars(s);
    let start: usize = if v.len() > 0 && v[0] == '+' {
        1
    } else {
        0
    };
    let ghost body = v@.subrange(start as int, v@.len() as int);
    assert(body =~= unsigned_body(s@));
    if start == v.len() {
        return None;
    }
    let mut acc: u64 = 0;
    let mut i: usize = start;
    assert(body.take(0) =~= Seq::empty());
    while i < v.len()
        invariant
            start <= i <= v.len(),
            body == v@.subrange(start as int, v@.len() as int),
            body == unsigned_body(s@),
            all_digits(body.take(i - start)),
            acc == digits_value(body.take(i - start)),
            acc <= max,
        decreases v.len() - i,
    {
        let c = v[i];
        assert(body[i - start] == c);
        assert(body.take(i - start + 1).drop_last() =~= body.take(i - start));
        assert(body.take(i - start + 1).last() == c);
        if !('0' <= c && c <= '9') {
            assert(!is_digit(body[i - start]));
            return None;
        }
        let d: u64 = ((c as u32) - ('0' as u32)) as u64;
        assert(all_digits(body.take(i - start + 1))) by {
            assert forall|j: int| 0 <= j < i - start + 1 implies is_digit(
                #[trigger] body.take(i - start + 1)[j],
            ) by {
                if j < i - start {
                    assert(body.take(i - start)[j] == body[j]);
                }
            }
        }
        if d > max || acc > (max - d) / 10 {
            proof {
                assert(acc * 10 + d > max);
                if all_digits(body) {
                    lemma_digits_value_grows(body, i - start + 1);
                }
            }
            return None;
        }
        acc = acc * 10 + d;
        i += 1;
    }
    assert(body.take(v.len() - start) =~= body);
    Some(acc)
}

} // verus!
