//! Searching and reading text, character by character.

use vstd::prelude::*;
use vstd::string::*;
use vstd::std_specs::iter::IteratorSpec;

verus! {

/// The characters of `s`, in order.
pub fn chars_of(s: &str) -> (r: Vec<char>)
    ensures
        r@ == s@,
{
    broadcast use vstd::string::group_string_axioms;

    let mut rest = s.chars();
    let mut out: Vec<char> = Vec::new();
    loop
        invariant
            rest.obeys_prophetic_iter_laws(),
            rest.decrease() is Some,
            out@ + rest.remaining() == s@,
        decreases rest.decrease()->0,
    {
        match rest.next() {
            Some(c) => {
                out.push(c);
                assert(out@ + rest.remaining() =~= s@);
            },
            None => {
                assert(out@ =~= s@);
                return out;
            },
        }
    }
}

/// The characters of `text` from `from` up to, not including, `to`.
pub fn slice(text: &Vec<char>, from: usize, to: usize) -> (r: Vec<char>)
    requires
        from <= to <= text@.len(),
    ensures
        r@ == text@.subrange(from as int, to as int),
{
    let mut out: Vec<char> = Vec::new();
    let mut i: usize = from;
    while i < to
        invariant
            from <= i <= to,
            to <= text@.len(),
            out@ == text@.subrange(from as int, i as int),
        decreases to - i,
    {
        out.push(text[i]);
        i += 1;
        assert(out@ =~= text@.subrange(from as int, i as int));
    }
    out
}

/// Whether `pattern` stands in `text` at position `at`.
pub open spec fn occurs_at(text: Seq<char>, pattern: Seq<char>, at: int) -> bool {
    &&& 0 <= at
    &&& at + pattern.len() <= text.len()
    &&& text.subrange(at, at + pattern.len()) == pattern
}

/// The first position at or after `from` where `pattern` stands in `text`,
/// or -1 where there is none.
pub open spec fn first_occurrence(text: Seq<char>, pattern: Seq<char>, from: int) -> int
    decreases text.len() + 1 - from,
{
    if from < 0 || from + pattern.len() > text.len() {
        -1
    } else if occurs_at(text, pattern, from) {
        from
    } else {
        first_occurrence(text, pattern, from + 1)
    }
}

/// Whether `pattern` stands anywhere in `text`.
pub open spec fn contains(text: Seq<char>, pattern: Seq<char>) -> bool {
    first_occurrence(text, pattern, 0) >= 0
}

/// `first_occurrence` is what its name says: the pattern stands at the
/// position it gives and at none between `from` and there, and where it
/// gives none the pattern stands nowhere from `from` on.
pub proof fn lemma_first_occurrence(text: Seq<char>, pattern: Seq<char>, from: int)
    requires
        0 <= from,
    ensures
        first_occurrence(text, pattern, from) >= 0 ==> {
            &&& from <= first_occurrence(text, pattern, from)
            &&& occurs_at(text, pattern, first_occurrence(text, pattern, from))
        },
        forall|j: int|
            from <= j && (j < first_occurrence(text, pattern, from) || first_occurrence(
                text,
                pattern,
                from,
            ) < 0) ==> !occurs_at(text, pattern, j),
    decreases text.len() + 1 - from,
{
    if from + pattern.len() > text.len() {
    } else if occurs_at(text, pattern, from) {
    } else {
        lemma_first_occurrence(text, pattern, from + 1);
    }
}

fn matches_at(text: &Vec<char>, pattern: &Vec<char>, at: usize) -> (r: bool)
    requires
        at + pattern@.len() <= text@.len(),
    ensures
        r == occurs_at(text@, pattern@, at as int),
{
    let n = text.len();
    let m = pattern.len();
    let mut j: usize = 0;
    while j < m
        invariant
            n == text@.len(),
            m == pattern@.len(),
            at + m <= n,
            j <= m,
            forall|k: int| 0 <= k < j ==> text@[at + k] == pattern@[k],
        decreases m - j,
    {
        if text[at + j] != pattern[j] {
            assert(text@.subrange(at as int, at + m)[j as int] == text@[at + j]);
            return false;
        }
        j += 1;
    }
    assert(text@.subrange(at as int, at + m) =~= pattern@);
    true
}

/// Finds the first place where `pattern` stands in `text`.
pub fn find(text: &Vec<char>, pattern: &Vec<char>) -> (r: Option<usize>)
    ensures
        match r {
            Some(at) => at == first_occurrence(text@, pattern@, 0),
            None => first_occurrence(text@, pattern@, 0) < 0,
        },
{
    let n = text.len();
    let m = pattern.len();
    if m > n {
        return None;
    }
    let last = n - m;
    let mut i: usize = 0;
    while i < last
        invariant
            n == text@.len(),
            m == pattern@.len(),
            last == n - m,
            i <= last,
            first_occurrence(text@, pattern@, 0) == first_occurrence(text@, pattern@, i as int),
        decreases last - i,
    {
        if matches_at(text, pattern, i) {
            return Some(i);
        }
        i += 1;
    }
    if matches_at(text, pattern, last) {
        Some(last)
    } else {
        assert(first_occurrence(text@, pattern@, last + 1) < 0);
        None
    }
}

/// Whether the text of `pattern` stands anywhere in `text`.
pub fn contains_text(text: &Vec<char>, pattern: &str) -> (r: bool)
    ensures
        r == contains(text@, pattern@),
{
    let pat = chars_of(pattern);
    find(text, &pat).is_some()
}

/// The first position at or after `from` that holds `c`, or the length of
/// `text` where there is none.
pub open spec fn index_of(text: Seq<char>, c: char, from: int) -> int
    decreases text.len() - from,
{
    if from < 0 || from >= text.len() {
        text.len() as int
    } else if text[from] == c {
        from
    } else {
        index_of(text, c, from + 1)
    }
}

/// `index_of` stays within the text and gives the first such position.
pub proof fn law_index_of_is_first(text: Seq<char>, c: char, from: int)
    requires
        0 <= from <= text.len(),
    ensures
        from <= index_of(text, c, from) <= text.len(),
        index_of(text, c, from) < text.len() ==> text[index_of(text, c, from)] == c,
        forall|j: int| from <= j < index_of(text, c, from) ==> text[j] != c,
    decreases text.len() - from,
{
    if from < text.len() && text[from] != c {
        law_index_of_is_first(text, c, from + 1);
    }
}

/// Finds the first `c` at or after `from`.
pub fn position_of(text: &Vec<char>, c: char, from: usize) -> (r: usize)
    requires
        from <= text@.len(),
    ensures
        r == index_of(text@, c, from as int),
        from <= r <= text@.len(),
{
    let n = text.len();
    let mut i: usize = from;
    while i < n
        invariant
            n == text@.len(),
            from <= i <= n,
            index_of(text@, c, from as int) == index_of(text@, c, i as int),
        decreases n - i,
    {
        if text[i] == c {
            return i;
        }
        i += 1;
    }
    i
}

/// The value of a decimal digit.
pub open spec fn digit_value(c: char) -> nat {
    (c as u32 - '0' as u32) as nat
}

/// Whether `c` is one of the ten decimal digits.
pub open spec fn is_digit(c: char) -> bool {
    '0' <= c <= '9'
}

/// Whether `text` is made of decimal digits only.
pub open spec fn all_digits(text: Seq<char>) -> bool {
    forall|i: int| 0 <= i < text.len() ==> is_digit(#[trigger] text[i])
}

/// The number that the digits of `text` write in base ten.
pub open spec fn digits_value(text: Seq<char>) -> nat
    decreases text.len(),
{
    if text.len() == 0 {
        0
    } else {
        digits_value(text.drop_last()) * 10 + digit_value(text.last())
    }
}

/// What is left of `text` once a leading `+` is taken off.
pub open spec fn unsigned_digits(text: Seq<char>) -> Seq<char> {
    if text.len() > 0 && text[0] == '+' {
        text.subrange(1, text.len() as int)
    } else {
        text
    }
}

/// The unsigned 32-bit number that `text` writes: an optional `+`, then at
/// least one digit and nothing but digits, the value within range.
pub open spec fn unsigned_of(text: Seq<char>) -> Option<u32> {
    let digits = unsigned_digits(text);
    if digits.len() > 0 && all_digits(digits) && digits_value(digits) <= u32::MAX {
        Some(digits_value(digits) as u32)
    } else {
        None
    }
}

proof fn lemma_digits_grow(text: Seq<char>, k: int)
    requires
        0 <= k <= text.len(),
    ensures
        digits_value(text.subrange(0, k)) <= digits_value(text),
    decreases text.len() - k,
{
    if k < text.len() {
        lemma_digits_grow(text, k + 1);
        assert(text.subrange(0, k + 1).drop_last() =~= text.subrange(0, k));
    } else {
        assert(text.subrange(0, k) =~= text);
    }
}

/// Reads an unsigned 32-bit number written in base ten.
pub fn parse_u32(text: &Vec<char>) -> (r: Option<u32>)
    ensures
        r == unsigned_of(text@),
{
    let n = text.len();
    let start: usize = if n > 0 && text[0] == '+' {
        1
    } else {
        0
    };
    let ghost digits = text@.subrange(start as int, n as int);
    assert(digits =~= unsigned_digits(text@));
    if start == n {
        return None;
    }
    let mut value: u64 = 0;
    let mut i: usize = start;
    while i < n
        invariant
            n == text@.len(),
            start <= i <= n,
            digits == text@.subrange(start as int, n as int),
            digits == unsigned_digits(text@),
            all_digits(digits.subrange(0, i - start)),
            value == digits_value(digits.subrange(0, i - start)),
            value <= u32::MAX,
        decreases n - i,
    {
        let c = text[i];
        if c < '0' || c > '9' {
            assert(!is_digit(digits[i - start]));
            return None;
        }
        let d: u64 = (c as u32 - '0' as u32) as u64;
        let ghost before = digits.subrange(0, i - start);
        let ghost after = digits.subrange(0, i - start + 1);
        assert(after.drop_last() =~= before);
        assert(after.last() == c);
        assert(digits_value(after) == value * 10 + d);
        assert forall|k: int| 0 <= k < after.len() implies is_digit(#[trigger] after[k]) by {
            if k < before.len() {
                assert(after[k] == before[k]);
            }
        }
        value = value * 10 + d;
        if value > 0xffff_ffff {
            proof {
                lemma_digits_grow(digits, i - start + 1);
            }
            return None;
        }
        i += 1;
    }
    assert(digits.subrange(0, n - start) =~= digits);
    Some(value as u32)
}

/// Whether two texts are the same, character for character.
pub fn same_text(a: &str, b: &str) -> (r: bool)
    ensures
        r == (a@ == b@),
{
    String::from_str(a) == String::from_str(b)
}

/// The numeral of a single digit.
pub open spec fn digit_text(d: int) -> Seq<char> {
    if d == 0 {
        "0"@
    } else if d == 1 {
        "1"@
    } else if d == 2 {
        "2"@
    } else if d == 3 {
        "3"@
    } else if d == 4 {
        "4"@
    } else if d == 5 {
        "5"@
    } else if d == 6 {
        "6"@
    } else if d == 7 {
        "7"@
    } else if d == 8 {
        "8"@
    } else {
        "9"@
    }
}

/// The numeral of `n` in base ten, without leading zeros.
pub open spec fn decimal(n: nat) -> Seq<char>
    decreases n,
{
    if n < 10 {
        digit_text(n as int)
    } else {
        decimal(n / 10) + digit_text((n % 10) as int)
    }
}

/// The numeral of `v` in base ten, with a minus sign where it is negative.
pub open spec fn signed_decimal(v: int) -> Seq<char> {
    if v < 0 {
        "-"@ + decimal((-v) as nat)
    } else {
        decimal(v as nat)
    }
}

fn digit_str(d: u64) -> (r: &'static str)
    requires
        d < 10,
    ensures
        r@ == digit_text(d as int),
{
    if d == 0 {
        "0"
    } else if d == 1 {
        "1"
    } else if d == 2 {
        "2"
    } else if d == 3 {
        "3"
    } else if d == 4 {
        "4"
    } else if d == 5 {
        "5"
    } else if d == 6 {
        "6"
    } else if d == 7 {
        "7"
    } else if d == 8 {
        "8"
    } else {
        "9"
    }
}

/// Writes `n` in base ten.
pub fn decimal_text(n: u64) -> (r: String)
    ensures
        r@ == decimal(n as nat),
    decreases n,
{
    if n < 10 {
        String::from_str(digit_str(n))
    } else {
        decimal_text(n / 10).concat(digit_str(n % 10))
    }
}

/// Writes `v` in base ten, with its sign where it is negative.
pub fn signed_decimal_text(v: i64) -> (r: String)
    ensures
        r@ == signed_decimal(v as int),
{
    if v < 0 {
        let magnitude: u64 = (-(v + 1)) as u64 + 1;
        String::from_str("-").concat(decimal_text(magnitude).as_str())
    } else {
        decimal_text(v as u64)
    }
}

/// A numeral is made of digits, as many as it takes, and writes the number
/// it was made from.
pub proof fn law_decimal_reads_back(n: nat)
    ensures
        decimal(n).len() >= 1,
        all_digits(decimal(n)),
        digits_value(decimal(n)) == n,
    decreases n,
{
    reveal_strlit("0");
    reveal_strlit("1");
    reveal_strlit("2");
    reveal_strlit("3");
    reveal_strlit("4");
    reveal_strlit("5");
    reveal_strlit("6");
    reveal_strlit("7");
    reveal_strlit("8");
    reveal_strlit("9");
    let d = digit_text((n % 10) as int);
    assert(d.len() == 1);
    assert(is_digit(d[0]) && digit_value(d[0]) == n % 10);
    if n < 10 {
        assert(decimal(n) == d);
        assert(d.drop_last() =~= Seq::<char>::empty());
        assert(digits_value(d.drop_last()) == 0);
    } else {
        law_decimal_reads_back(n / 10);
        let head = decimal(n / 10);
        assert(decimal(n) == head + d);
        assert((head + d).drop_last() =~= head);
        assert((head + d).last() == d[0]);
        assert forall|i: int| 0 <= i < (head + d).len() implies is_digit(
            #[trigger] (head + d)[i],
        ) by {
            if i < head.len() {
                assert((head + d)[i] == head[i]);
            }
        }
    }
}

/// The views of a list of texts.
pub open spec fn texts(list: Seq<String>) -> Seq<Seq<char>> {
    Seq::new(list.len(), |i: int| list[i]@)
}

/// The texts of `parts` written one after the other with `separator`
/// between each two.
pub open spec fn joined(parts: Seq<Seq<char>>, separator: Seq<char>) -> Seq<char>
    decreases parts.len(),
{
    if parts.len() == 0 {
        Seq::empty()
    } else if parts.len() == 1 {
        parts[0]
    } else {
        joined(parts.drop_last(), separator) + separator + parts.last()
    }
}

/// Appends a copy of `text` to `list`.
pub fn push_text(list: &mut Vec<String>, text: &str)
    ensures
        texts(final(list)@) == texts(old(list)@).push(text@),
{
    list.push(String::from_str(text));
    assert(texts(list@) =~= texts(old(list)@).push(text@));
}

/// Appends copies of all of `more` to `list`, in order.
pub fn extend_texts(list: &mut Vec<String>, more: &Vec<String>)
    ensures
        texts(final(list)@) == texts(old(list)@) + texts(more@),
{
    let mut i: usize = 0;
    while i < more.len()
        invariant
            i <= more@.len(),
            texts(list@) == texts(old(list)@) + texts(more@.subrange(0, i as int)),
        decreases more@.len() - i,
    {
        let ghost before = texts(list@);
        list.push(more[i].clone());
        assert(texts(list@) =~= before.push(more@[i as int]@));
        assert(texts(more@.subrange(0, i + 1)) =~= texts(more@.subrange(0, i as int)).push(
            more@[i as int]@,
        ));
        i += 1;
        assert(texts(list@) =~= texts(old(list)@) + texts(more@.subrange(0, i as int)));
    }
    assert(more@.subrange(0, i as int) =~= more@);
}

/// Writes the texts of `parts` one after the other with `separator` between
/// each two.
pub fn join(parts: &Vec<String>, separator: &str) -> (r: String)
    ensures
        r@ == joined(texts(parts@), separator@),
{
    let mut out = String::new();
    let mut i: usize = 0;
    while i < parts.len()
        invariant
            i <= parts@.len(),
            out@ == joined(texts(parts@).subrange(0, i as int), separator@),
        decreases parts@.len() - i,
    {
        let ghost before = texts(parts@).subrange(0, i as int);
        let ghost after = texts(parts@).subrange(0, i + 1);
        assert(after.drop_last() =~= before);
        assert(after.last() == parts@[i as int]@);
        if i > 0 {
            out.append(separator);
        }
        out.append(parts[i].as_str());
        assert(out@ =~= joined(after, separator@));
        i += 1;
    }
    assert(texts(parts@).subrange(0, i as int) =~= texts(parts@));
    out
}

/// Whether `c` is white space, as `char::is_whitespace` tells it.
pub uninterp spec fn is_whitespace(c: char) -> bool;

/// `char::is_whitespace` of std: whether a character has the Unicode
/// property White_Space. The answer depends on the character alone, and it is
/// given the name `is_whitespace` here.
#[verifier::external_body]
fn char_is_whitespace(c: char) -> (r: bool)
    ensures
        r == is_whitespace(c),
{
    c.is_whitespace()
}

/// The first position at or after `from` that holds no white space, or the
/// length of `text` where only white space follows.
pub open spec fn skip_whitespace(text: Seq<char>, from: int) -> int
    decreases text.len() - from,
{
    if from < 0 || from >= text.len() {
        text.len() as int
    } else if !is_whitespace(text[from]) {
        from
    } else {
        skip_whitespace(text, from + 1)
    }
}

/// The end of `text` before `to` once the white space just before `to` is
/// left off.
pub open spec fn skip_whitespace_back(text: Seq<char>, to: int) -> int
    decreases to,
{
    if to <= 0 || to > text.len() {
        0
    } else if !is_whitespace(text[to - 1]) {
        to
    } else {
        skip_whitespace_back(text, to - 1)
    }
}

/// `text` without the white space at its beginning and at its end.
pub open spec fn trimmed(text: Seq<char>) -> Seq<char> {
    let from = skip_whitespace(text, 0);
    let to = skip_whitespace_back(text, text.len() as int);
    if from >= to {
        Seq::empty()
    } else {
        text.subrange(from, to)
    }
}

/// Where `text` begins and ends once the white space around it is left off.
pub fn trim_bounds(text: &Vec<char>) -> (r: (usize, usize))
    ensures
        r.0 == skip_whitespace(text@, 0),
        r.1 == skip_whitespace_back(text@, text@.len() as int),
        r.0 <= text@.len(),
        r.1 <= text@.len(),
{
    let n = text.len();
    let mut from: usize = 0;
    while from < n && char_is_whitespace(text[from])
        invariant
            n == text@.len(),
            from <= n,
            skip_whitespace(text@, 0) == skip_whitespace(text@, from as int),
        decreases n - from,
    {
        from += 1;
    }
    let mut to: usize = n;
    while to > 0 && char_is_whitespace(text[to - 1])
        invariant
            n == text@.len(),
            to <= n,
            skip_whitespace_back(text@, n as int) == skip_whitespace_back(text@, to as int),
        decreases to,
    {
        to -= 1;
    }
    (from, to)
}

} // verus!
