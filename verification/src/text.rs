//! Text as a sequence of characters: white space and trimming, occurrences of
//! one text in another, lines and fields.

use vstd::prelude::*;

verus! {

/// The characters with the Unicode property `White_Space`.
pub open spec fn is_whitespace(c: char) -> bool {
    let n = c as u32;
    ||| 0x09 <= n <= 0x0D
    ||| n == 0x20
    ||| n == 0x85
    ||| n == 0xA0
    ||| n == 0x1680
    ||| 0x2000 <= n <= 0x200A
    ||| n == 0x2028
    ||| n == 0x2029
    ||| n == 0x202F
    ||| n == 0x205F
    ||| n == 0x3000
}

/// `s` without its leading white space.
pub open spec fn trim_start(s: Seq<char>) -> Seq<char>
    decreases s.len(),
{
    if s.len() > 0 && is_whitespace(s.first()) {
        trim_start(s.drop_first())
    } else {
        s
    }
}

/// `s` without its trailing white space.
pub open spec fn trim_end(s: Seq<char>) -> Seq<char>
    decreases s.len(),
{
    if s.len() > 0 && is_whitespace(s.last()) {
        trim_end(s.drop_last())
    } else {
        s
    }
}

/// `s` without leading and trailing white space.
pub open spec fn trimmed(s: Seq<char>) -> Seq<char> {
    trim_end(trim_start(s))
}

/// `s` neither starts nor ends with white space.
pub open spec fn is_trimmed(s: Seq<char>) -> bool {
    s.len() > 0 ==> !is_whitespace(s.first()) && !is_whitespace(s.last())
}

/// `s` holds no line feed.
pub open spec fn is_single_line(s: Seq<char>) -> bool {
    forall|i: int| 0 <= i < s.len() ==> s[i] != '\n'
}

/// `part` stands in `s` at position `at`.
pub open spec fn matches_at(s: Seq<char>, at: int, part: Seq<char>) -> bool {
    &&& 0 <= at
    &&& at + part.len() <= s.len()
    &&& s.subrange(at, at + part.len()) == part
}

/// `part` stands somewhere in `s`.
pub open spec fn occurs_in(part: Seq<char>, s: Seq<char>) -> bool {
    exists|at: int| matches_at(s, at, part)
}

/// Position of the first `c` at or after `from`, or the length of `s` if there
/// is none.
pub open spec fn next_position(s: Seq<char>, c: char, from: int) -> int
    decreases s.len() - from,
{
    if from >= s.len() || s[from] == c {
        from
    } else {
        next_position(s, c, from + 1)
    }
}

/// Where the line that holds position `from` ends: at the next line feed, or
/// at the end of `s`.
pub open spec fn line_end(s: Seq<char>, from: int) -> int {
    next_position(s, '\n', from)
}

/// A line without the carriage return that may end it.
pub open spec fn without_carriage_return(line: Seq<char>) -> Seq<char> {
    if line.len() > 0 && line.last() == '\r' {
        line.drop_last()
    } else {
        line
    }
}

/// The lines of `s` from position `from` on. A line ends at a line feed, or at
/// a carriage return directly before one; neither belongs to the line. What
/// stands behind the last line feed is a line unless it is empty.
pub open spec fn lines_from(s: Seq<char>, from: int) -> Seq<Seq<char>>
    decreases s.len() - from,
{
    if 0 <= from < s.len() {
        let e = line_end(s, from);
        if from <= e < s.len() {
            seq![without_carriage_return(s.subrange(from, e))] + lines_from(s, e + 1)
        } else {
            seq![s.subrange(from, s.len() as int)]
        }
    } else {
        Seq::empty()
    }
}

/// The lines of `s`.
pub open spec fn lines_of(s: Seq<char>) -> Seq<Seq<char>> {
    lines_from(s, 0)
}

/// The fields of `s` from position `from` on: what stands between one
/// separator and the next. A text without separator is one field.
pub open spec fn fields_from(s: Seq<char>, sep: char, from: int) -> Seq<Seq<char>>
    decreases s.len() - from,
{
    let e = next_position(s, sep, from);
    if 0 <= from <= e < s.len() {
        seq![s.subrange(from, e)] + fields_from(s, sep, e + 1)
    } else {
        seq![s.subrange(from, s.len() as int)]
    }
}

/// The fields of `s`.
pub open spec fn fields_of(s: Seq<char>, sep: char) -> Seq<Seq<char>> {
    fields_from(s, sep, 0)
}

/// The character of the decimal digit `d`.
pub open spec fn digit_char(d: int) -> char {
    (48 + d) as char
}

/// `n` in decimal digits.
pub open spec fn decimal(n: nat) -> Seq<char>
    decreases n,
{
    if n < 10 {
        seq![digit_char(n as int)]
    } else {
        decimal(n / 10) + seq![digit_char((n % 10) as int)]
    }
}

/// One of the digits `0` to `9`.
pub open spec fn is_digit(c: char) -> bool {
    '0' <= c && c <= '9'
}

/// The number that a sequence of decimal digits stands for.
pub open spec fn digits_value(digits: Seq<char>) -> int
    decreases digits.len(),
{
    if digits.len() == 0 {
        0
    } else {
        digits_value(digits.drop_last()) * 10 + (digits.last() as int - 48)
    }
}

/// A sequence of decimal digits, at least one.
pub open spec fn is_number(digits: Seq<char>) -> bool {
    digits.len() > 0 && forall|i: int| 0 <= i < digits.len() ==> is_digit(digits[i])
}

/// The integer that `s` stands for: decimal digits, a sign in front of them
/// or none. Anything else stands for no integer.
pub open spec fn signed_value(s: Seq<char>) -> Option<int> {
    if s.len() > 0 && s[0] == '-' {
        if is_number(s.drop_first()) {
            Some(-digits_value(s.drop_first()))
        } else {
            None
        }
    } else if s.len() > 0 && s[0] == '+' {
        if is_number(s.drop_first()) {
            Some(digits_value(s.drop_first()))
        } else {
            None
        }
    } else if is_number(s) {
        Some(digits_value(s))
    } else {
        None
    }
}

/// The integer that `s` stands for, if it fits in 32 bits.
pub open spec fn i32_value(s: Seq<char>) -> Option<i32> {
    match signed_value(s) {
        Some(v) if i32::MIN <= v <= i32::MAX => Some(v as i32),
        _ => None,
    }
}

/// The texts as values.
pub open spec fn text_views(texts: Seq<String>) -> Seq<Seq<char>> {
    texts.map_values(|t: String| t@)
}

/// Trimming takes nothing from a text that is trimmed already.
pub proof fn lemma_trimmed_fixpoint(s: Seq<char>)
    requires
        is_trimmed(s),
    ensures
        trimmed(s) == s,
{
}

/// The leading white space of `s` is what stands before `a`.
pub proof fn lemma_trim_start(s: Seq<char>, a: int)
    requires
        0 <= a <= s.len(),
        forall|i: int| 0 <= i < a ==> is_whitespace(s[i]),
        a < s.len() ==> !is_whitespace(s[a]),
    ensures
        trim_start(s) == s.subrange(a, s.len() as int),
    decreases a,
{
    if a == 0 {
        assert(s.subrange(0, s.len() as int) == s);
    } else {
        let rest = s.drop_first();
        assert forall|i: int| 0 <= i < a - 1 implies is_whitespace(rest[i]) by {
            assert(rest[i] == s[i + 1]);
        }
        lemma_trim_start(rest, a - 1);
        assert(rest.subrange(a - 1, rest.len() as int) == s.subrange(a, s.len() as int));
    }
}

/// The trailing white space of `s` is what stands from `b` on.
pub proof fn lemma_trim_end(s: Seq<char>, b: int)
    requires
        0 <= b <= s.len(),
        forall|i: int| b <= i < s.len() ==> is_whitespace(s[i]),
        b > 0 ==> !is_whitespace(s[b - 1]),
    ensures
        trim_end(s) == s.subrange(0, b),
    decreases s.len() - b,
{
    if b == s.len() {
        assert(s.subrange(0, b) == s);
    } else {
        let rest = s.drop_last();
        lemma_trim_end(rest, b);
        assert(rest.subrange(0, b) == s.subrange(0, b));
    }
}

/// The next `c` from `from` on stands at `e` if none stands between the two
/// and one stands at `e`, or the text ends there.
pub proof fn lemma_next_position(s: Seq<char>, c: char, from: int, e: int)
    requires
        0 <= from <= e <= s.len(),
        forall|i: int| from <= i < e ==> s[i] != c,
        e < s.len() ==> s[e] == c,
    ensures
        next_position(s, c, from) == e,
    decreases e - from,
{
    if from < e {
        lemma_next_position(s, c, from + 1, e);
    }
}

/// The next `c` lies between `from` and the end of the text, no `c` stands
/// before it, and one stands at it unless the text ends there.
pub proof fn lemma_next_position_bounds(s: Seq<char>, c: char, from: int)
    requires
        0 <= from <= s.len(),
    ensures
        from <= next_position(s, c, from) <= s.len(),
        forall|i: int| from <= i < next_position(s, c, from) ==> s[i] != c,
        next_position(s, c, from) < s.len() ==> s[next_position(s, c, from)] == c,
    decreases s.len() - from,
{
    if from < s.len() && s[from] != c {
        lemma_next_position_bounds(s, c, from + 1);
    }
}

/// Tells white space from other characters.
pub fn is_whitespace_char(c: char) -> (r: bool)
    ensures
        r == is_whitespace(c),
{
    let n: u32 = c as u32;
    (0x09 <= n && n <= 0x0D) || n == 0x20 || n == 0x85 || n == 0xA0 || n == 0x1680 || (0x2000 <= n
        && n <= 0x200A) || n == 0x2028 || n == 0x2029 || n == 0x202F || n == 0x205F || n == 0x3000
}

/// The characters of `s`, one by one.
pub fn chars_of(s: &str) -> (chars: Vec<char>)
    ensures
        chars@ == s@,
{
    let mut chars: Vec<char> = Vec::new();
    for c in it: s.chars()
        invariant
            chars@ == it.seq().take(it.index() as int),
            it.seq() == s@,
    {
        chars.push(c);
    }
    chars
}

/// Whether `part` stands in `s` at position `at`.
pub fn stands_at(s: &Vec<char>, at: usize, part: &Vec<char>) -> (r: bool)
    ensures
        r == matches_at(s@, at as int, part@),
{
    if part.len() > s.len() || at > s.len() - part.len() {
        return false;
    }
    let mut k: usize = 0;
    while k < part.len()
        invariant
            0 <= k <= part.len(),
            at + part.len() <= s.len(),
            forall|j: int| 0 <= j < k ==> s[at + j] == part[j],
        decreases part.len() - k,
    {
        if s[at + k] != part[k] {
            assert(s@.subrange(at as int, at + part.len())[k as int] != part@[k as int]);
            return false;
        }
        k += 1;
    }
    assert(s@.subrange(at as int, at + part.len()) == part@);
    true
}

/// Whether `part` stands somewhere in `s`.
pub fn contains(s: &str, part: &str) -> (r: bool)
    ensures
        r == occurs_in(part@, s@),
{
    let text = chars_of(s);
    let wanted = chars_of(part);
    let mut at: usize = 0;
    while at < text.len()
        invariant
            0 <= at <= text.len(),
            text@ == s@,
            wanted@ == part@,
            forall|j: int| 0 <= j < at ==> !matches_at(s@, j, part@),
        decreases text.len() - at,
    {
        if stands_at(&text, at, &wanted) {
            return true;
        }
        at += 1;
    }
    stands_at(&text, at, &wanted)
}

/// Position of the next `c` from `from` on.
pub fn find_next(s: &Vec<char>, c: char, from: usize) -> (e: usize)
    requires
        from <= s.len(),
    ensures
        e == next_position(s@, c, from as int),
        from <= e <= s.len(),
{
    let mut e: usize = from;
    while e < s.len() && s[e] != c
        invariant
            from <= e <= s.len(),
            forall|i: int| from <= i < e ==> s[i] != c,
        decreases s.len() - e,
    {
        e += 1;
    }
    proof {
        lemma_next_position(s@, c, from as int, e as int);
    }
    e
}

/// The bounds of what is left of `s[from..to]` when its leading and trailing
/// white space is taken away. If nothing is left, both bounds are `to`.
pub fn trimmed_bounds(s: &Vec<char>, from: usize, to: usize) -> (bounds: (usize, usize))
    requires
        from <= to <= s.len(),
    ensures
        from <= bounds.0 <= bounds.1 <= to,
        s@.subrange(bounds.0 as int, bounds.1 as int) == trimmed(
            s@.subrange(from as int, to as int),
        ),
        forall|i: int| from <= i < bounds.0 ==> is_whitespace(s[i]),
        bounds.0 < to ==> !is_whitespace(s[bounds.0 as int]),
        forall|i: int| bounds.1 <= i < to ==> is_whitespace(s[i]),
        bounds.0 < bounds.1 ==> !is_whitespace(s[bounds.1 - 1]),
{
    let ghost part = s@.subrange(from as int, to as int);
    let mut a: usize = from;
    while a < to && is_whitespace_char(s[a])
        invariant
            from <= a <= to <= s.len(),
            forall|i: int| from <= i < a ==> is_whitespace(s[i]),
        decreases to - a,
    {
        a += 1;
    }
    let mut b: usize = to;
    while b > a && is_whitespace_char(s[b - 1])
        invariant
            a <= b <= to <= s.len(),
            forall|i: int| b <= i < to ==> is_whitespace(s[i]),
        decreases b,
    {
        b -= 1;
    }
    proof {
        let tail = part.subrange(a - from, part.len() as int);
        assert forall|i: int| 0 <= i < a - from implies is_whitespace(part[i]) by {
            assert(part[i] == s[from + i]);
        }
        lemma_trim_start(part, a - from);
        assert forall|i: int| b - a <= i < tail.len() implies is_whitespace(tail[i]) by {
            assert(tail[i] == s[a + i]);
        }
        lemma_trim_end(tail, b - a);
        assert(tail.subrange(0, b - a) == s@.subrange(a as int, b as int));
    }
    (a, b)
}

/// `s` without leading and trailing white space.
pub fn trim(s: &str) -> (r: String)
    ensures
        r@ == trimmed(s@),
{
    let chars = chars_of(s);
    let (a, b) = trimmed_bounds(&chars, 0, chars.len());
    assert(chars@.subrange(0, chars.len() as int) == chars@);
    s.substring_char(a, b).to_owned()
}

/// Splits `s` into its lines.
pub fn lines(s: &str) -> (found: Vec<String>)
    ensures
        text_views(found@) == lines_of(s@),
{
    let text = chars_of(s);
    let mut found: Vec<String> = Vec::new();
    let mut from: usize = 0;
    while from < text.len()
        invariant
            0 <= from <= text.len(),
            text@ == s@,
            text_views(found@) + lines_from(s@, from as int) == lines_of(s@),
        decreases text.len() - from,
    {
        let e = find_next(&text, '\n', from);
        let ghost before = text_views(found@);
        if e < text.len() {
            let stop = if e > from && text[e - 1] == '\r' {
                e - 1
            } else {
                e
            };
            let line = s.substring_char(from, stop).to_owned();
            assert(line@ == without_carriage_return(s@.subrange(from as int, e as int)));
            found.push(line);
            assert(text_views(found@) == before + seq![line@]);
            assert(before + (seq![line@] + lines_from(s@, e + 1)) == before + seq![line@]
                + lines_from(s@, e + 1));
            from = e + 1;
        } else {
            let line = s.substring_char(from, e).to_owned();
            found.push(line);
            assert(text_views(found@) == before + seq![line@]);
            from = e;
        }
    }
    assert(lines_from(s@, from as int) == Seq::<Seq<char>>::empty());
    found
}

/// Splits `s` into its fields at every `sep`.
pub fn split(s: &str, sep: char) -> (fields: Vec<String>)
    ensures
        text_views(fields@) == fields_of(s@, sep),
{
    let text = chars_of(s);
    let mut fields: Vec<String> = Vec::new();
    let mut from: usize = 0;
    let mut e = find_next(&text, sep, from);
    while e < text.len()
        invariant
            0 <= from <= e <= text.len(),
            text@ == s@,
            e == next_position(s@, sep, from as int),
            text_views(fields@) + fields_from(s@, sep, from as int) == fields_of(s@, sep),
        decreases text.len() - from,
    {
        let ghost before = text_views(fields@);
        let field = s.substring_char(from, e).to_owned();
        fields.push(field);
        assert(text_views(fields@) == before + seq![field@]);
        assert(before + (seq![field@] + fields_from(s@, sep, e + 1)) == before + seq![field@]
            + fields_from(s@, sep, e + 1));
        from = e + 1;
        e = find_next(&text, sep, from);
    }
    let ghost before = text_views(fields@);
    let field = s.substring_char(from, e).to_owned();
    fields.push(field);
    assert(text_views(fields@) == before + seq![field@]);
    fields
}

/// Whether two texts are the same, character for character.
pub fn same_text(a: &str, b: &str) -> (same: bool)
    ensures
        same == (a@ == b@),
{
    let left = chars_of(a);
    let right = chars_of(b);
    if left.len() != right.len() {
        return false;
    }
    let mut i: usize = 0;
    while i < left.len()
        invariant
            0 <= i <= left.len(),
            left.len() == right.len(),
            left@ == a@,
            right@ == b@,
            forall|j: int| 0 <= j < i ==> left[j] == right[j],
        decreases left.len() - i,
    {
        if left[i] != right[i] {
            assert(a@[i as int] != b@[i as int]);
            return false;
        }
        i += 1;
    }
    assert(left@ =~= right@);
    true
}

/// The decimal digit `d` as a text.
fn digit_text(d: usize) -> (text: &'static str)
    requires
        d < 10,
    ensures
        text@ == seq![digit_char(d as int)],
{
    proof {
        reveal_strlit("0");
        reveal_strlit("1");
        reveal_strlit("2");
        reveal_strlit("3");
        reveal_strlit("4");
        reveal_strlit("5");
        reveal_strlit("6");
        reveal_strlit("7");
        reveal_strlit("8");
        reveal_strlit("9");
    }
    let text = if d == 0 {
        "0"
    } else if d == 1 {
        "1"
    } else if d == 2 {
        "2"
    } else if d == 3 {
        "3"
    } else if d == 4 {
        "4"
    } else if d == 5 {
        "5"
    } else if d == 6 {
        "6"
    } else if d == 7 {
        "7"
    } else if d == 8 {
        "8"
    } else {
        "9"
    };
    assert(text@ =~= seq![digit_char(d as int)]);
    text
}

/// Writes `n` in decimal digits.
pub fn decimal_text(n: usize) -> (text: String)
    ensures
        text@ == decimal(n as nat),
    decreases n,
{
    if n < 10 {
        digit_text(n).to_owned()
    } else {
        let mut text = decimal_text(n / 10);
        text.append(digit_text(n % 10));
        text
    }
}

/// The value of a sequence of digits is not negative.
proof fn lemma_digits_value_bound(digits: Seq<char>)
    requires
        forall|i: int| 0 <= i < digits.len() ==> is_digit(digits[i]),
    ensures
        0 <= digits_value(digits),
    decreases digits.len(),
{
    if digits.len() > 0 {
        lemma_digits_value_bound(digits.drop_last());
    }
}

/// The value of a sequence of digits is not less than the value of the
/// digits it starts with.
proof fn lemma_digits_value_grows(digits: Seq<char>, k: int)
    requires
        0 <= k <= digits.len(),
        forall|i: int| 0 <= i < digits.len() ==> is_digit(digits[i]),
    ensures
        digits_value(digits.subrange(0, k)) <= digits_value(digits),
    decreases digits.len() - k,
{
    if k == digits.len() {
        assert(digits.subrange(0, k) == digits);
    } else {
        let shorter = digits.drop_last();
        lemma_digits_value_grows(shorter, k);
        assert(shorter.subrange(0, k) == digits.subrange(0, k));
        lemma_digits_value_bound(shorter);
    }
}

/// Reads a 32-bit integer in decimal digits, with a sign in front or none.
pub fn parse_i32(s: &str) -> (value: Option<i32>)
    ensures
        value == i32_value(s@),
{
    let text = chars_of(s);
    let negative = text.len() > 0 && text[0] == '-';
    let start: usize = if text.len() > 0 && (text[0] == '-' || text[0] == '+') {
        1
    } else {
        0
    };
    let ghost digits = text@.subrange(start as int, text.len() as int);
    assert(start == 1 ==> digits == s@.drop_first());
    assert(start == 0 ==> digits == s@);
    if start == text.len() {
        return None;
    }
    let mut total: i64 = 0;
    let mut i: usize = start;
    while i < text.len()
        invariant
            start <= i <= text.len(),
            text@ == s@,
            digits == text@.subrange(start as int, text.len() as int),
            start == 1 ==> digits == s@.drop_first() && (s@[0] == '-' || s@[0] == '+'),
            start == 0 ==> digits == s@ && !(s@.len() > 0 && (s@[0] == '-' || s@[0] == '+')),
            start <= 1,
            forall|j: int| 0 <= j < i - start ==> is_digit(digits[j]),
            total == digits_value(digits.subrange(0, i - start)),
            0 <= total <= 0x8000_0000,
        decreases text.len() - i,
    {
        let c = text[i];
        if !(c >= '0' && c <= '9') {
            assert(!is_digit(digits[i - start]));
            return None;
        }
        let d: i64 = (c as u32 - 48) as i64;
        assert(digits.subrange(0, i - start + 1).drop_last() == digits.subrange(0, i - start));
        total = total * 10 + d;
        if total > 0x8000_0000 {
            proof {
                if is_number(digits) {
                    lemma_digits_value_grows(digits, i - start + 1);
                }
            }
            return None;
        }
        i += 1;
    }
    assert(digits.subrange(0, i - start) == digits);
    if negative {
        Some((0 - total) as i32)
    } else if total <= 0x7fff_ffff {
        Some(total as i32)
    } else {
        None
    }
}

} // verus!
