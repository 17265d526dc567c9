//! Character-level helpers on which the rest of the crate builds: searching,
//! trimming, and reading and writing decimal numbers.
//!
//! Every contract here is stated over `Seq<char>`, the view of a `&str`.

use vstd::prelude::*;

verus! {

/// The characters of `s`, in order.
pub fn chars_of(s: &str) -> (out: Vec<char>)
    ensures
        out@ == s@,
{
    let mut out: Vec<char> = Vec::new();
    for c in it: s.chars()
        invariant
            out@ == it.seq().take(it.index()),
    {
        out.push(c);
    }
    out
}

/// Whether two strings hold the same characters.
pub fn same_text(a: &str, b: &str) -> (same: bool)
    ensures
        same == (a@ == b@),
{
    let left = chars_of(a);
    let right = chars_of(b);
    if left.len() != right.len() {
        return false;
    }
    let mut i: usize = 0;
    while i < left.len()
        invariant
            left@ == a@,
            right@ == b@,
            left.len() == right.len(),
            i <= left.len(),
            left@.take(i as int) == right@.take(i as int),
        decreases left.len() - i,
    {
        if left[i] != right[i] {
            assert(a@[i as int] != b@[i as int]);
            return false;
        }
        assert(left@.take(i + 1) == left@.take(i as int).push(left@[i as int]));
        assert(right@.take(i + 1) == right@.take(i as int).push(right@[i as int]));
        i += 1;
    }
    assert(left@.take(left@.len() as int) == left@);
    assert(right@.take(right@.len() as int) == right@);
    true
}

/// `a` followed by `b`.
pub fn concat2(a: &str, b: &str) -> (out: String)
    ensures
        out@ == a@ + b@,
{
    let mut out = a.to_string();
    out.append(b);
    out
}

/// `a`, then `b`, then `c`.
pub fn concat3(a: &str, b: &str, c: &str) -> (out: String)
    ensures
        out@ == a@ + b@ + c@,
{
    let mut out = a.to_string();
    out.append(b);
    out.append(c);
    out
}

// ---------------------------------------------------------------------------
// Searching
// ---------------------------------------------------------------------------

/// `needle` stands in `hay` at position `at`.
pub open spec fn occurs_at(hay: Seq<char>, needle: Seq<char>, at: int) -> bool {
    &&& 0 <= at
    &&& at + needle.len() <= hay.len()
    &&& hay.subrange(at, at + needle.len()) == needle
}

/// `needle` stands somewhere in `hay`.
pub open spec fn contains(hay: Seq<char>, needle: Seq<char>) -> bool {
    exists|at: int| occurs_at(hay, needle, at)
}

/// `needle` stands in `hay` at `at`, and nowhere before.
pub open spec fn is_first_occurrence(hay: Seq<char>, needle: Seq<char>, at: int) -> bool {
    &&& occurs_at(hay, needle, at)
    &&& forall|earlier: int| 0 <= earlier < at ==> !occurs_at(hay, needle, earlier)
}

/// The leftmost position of `needle` in `hay`. Only meaningful where
/// `contains(hay, needle)` holds.
pub open spec fn first_occurrence(hay: Seq<char>, needle: Seq<char>) -> int {
    choose|at: int| is_first_occurrence(hay, needle, at)
}

/// `hay` begins with `prefix`.
pub open spec fn starts_with(hay: Seq<char>, prefix: Seq<char>) -> bool {
    occurs_at(hay, prefix, 0)
}

/// A first occurrence is the only one: `first_occurrence` names it.
pub proof fn lemma_first_occurrence_is_unique(hay: Seq<char>, needle: Seq<char>, at: int)
    requires
        is_first_occurrence(hay, needle, at),
    ensures
        first_occurrence(hay, needle) == at,
        contains(hay, needle),
{
    let chosen = first_occurrence(hay, needle);
    assert(is_first_occurrence(hay, needle, chosen));
    if chosen < at {
        assert(!occurs_at(hay, needle, chosen));
    }
    if at < chosen {
        assert(!occurs_at(hay, needle, at));
    }
}

/// Whether `needle` stands in `hay` at `at`.
pub fn matches_at(hay: &Vec<char>, needle: &Vec<char>, at: usize) -> (found: bool)
    ensures
        found == occurs_at(hay@, needle@, at as int),
{
    if needle.len() > hay.len() || at > hay.len() - needle.len() {
        return false;
    }
    let mut k: usize = 0;
    while k < needle.len()
        invariant
            at + needle.len() <= hay.len(),
            k <= needle.len(),
            forall|j: int| 0 <= j < k ==> hay@[at + j] == needle@[j],
        decreases needle.len() - k,
    {
        if hay[at + k] != needle[k] {
            assert(hay@.subrange(at as int, at + needle.len())[k as int] != needle@[k as int]);
            return false;
        }
        k += 1;
    }
    assert(hay@.subrange(at as int, at + needle.len()) =~= needle@);
    true
}

/// The leftmost position of `needle` in `hay`, if there is one.
pub fn find(hay: &Vec<char>, needle: &Vec<char>) -> (found: Option<usize>)
    ensures
        match found {
            Some(at) => is_first_occurrence(hay@, needle@, at as int) && first_occurrence(
                hay@,
                needle@,
            ) == at,
            None => !contains(hay@, needle@),
        },
{
    if needle.len() > hay.len() {
        return None;
    }
    let last: usize = hay.len() - needle.len();
    let mut at: usize = 0;
    while at < last
        invariant
            last == hay.len() - needle.len(),
            at <= last,
            forall|j: int| 0 <= j < at ==> !occurs_at(hay@, needle@, j),
        decreases last - at,
    {
        if matches_at(hay, needle, at) {
            proof {
                lemma_first_occurrence_is_unique(hay@, needle@, at as int);
            }
            return Some(at);
        }
        at += 1;
    }
    if matches_at(hay, needle, at) {
        proof {
            lemma_first_occurrence_is_unique(hay@, needle@, at as int);
        }
        Some(at)
    } else {
        None
    }
}

/// Whether `needle` stands somewhere in `line`.
pub fn str_contains(line: &Vec<char>, needle: &str) -> (found: bool)
    ensures
        found == contains(line@, needle@),
{
    let pattern = chars_of(needle);
    find(line, &pattern).is_some()
}

// ---------------------------------------------------------------------------
// White space
// ---------------------------------------------------------------------------

/// The characters that Unicode gives the property `White_Space`.
pub open spec fn is_whitespace(c: char) -> bool {
    let u = c as int;
    ||| 0x09 <= u <= 0x0D
    ||| u == 0x20
    ||| u == 0x85
    ||| u == 0xA0
    ||| u == 0x1680
    ||| 0x2000 <= u <= 0x200A
    ||| u == 0x2028
    ||| u == 0x2029
    ||| u == 0x202F
    ||| u == 0x205F
    ||| u == 0x3000
}

/// Whether `c` is white space.
pub fn char_is_whitespace(c: char) -> (white: bool)
    ensures
        white == is_whitespace(c),
{
    let u: u32 = c as u32;
    (0x09 <= u && u <= 0x0D) || u == 0x20 || u == 0x85 || u == 0xA0 || u == 0x1680 || (0x2000 <= u
        && u <= 0x200A) || u == 0x2028 || u == 0x2029 || u == 0x202F || u == 0x205F || u == 0x3000
}

/// `s` without the white space at its start.
pub open spec fn trim_start(s: Seq<char>) -> Seq<char>
    decreases s.len(),
{
    if s.len() > 0 && is_whitespace(s[0]) {
        trim_start(s.skip(1))
    } else {
        s
    }
}

/// `s` without the white space at its end.
pub open spec fn trim_end(s: Seq<char>) -> Seq<char>
    decreases s.len(),
{
    if s.len() > 0 && is_whitespace(s.last()) {
        trim_end(s.drop_last())
    } else {
        s
    }
}

/// `s` without the white space at either end.
pub open spec fn trim(s: Seq<char>) -> Seq<char> {
    trim_end(trim_start(s))
}

/// Where `trim_end` of the part of `text` from `from` on stops.
pub(crate) fn trim_end_from(text: &Vec<char>, from: usize) -> (end: usize)
    requires
        from <= text.len(),
    ensures
        from <= end <= text.len(),
        text@.subrange(from as int, end as int) == trim_end(text@.skip(from as int)),
{
    let mut end: usize = text.len();
    assert(text@.subrange(from as int, end as int) == text@.skip(from as int));
    while end > from && char_is_whitespace(text[end - 1])
        invariant
            from <= end <= text.len(),
            trim_end(text@.subrange(from as int, end as int)) == trim_end(text@.skip(from as int)),
        decreases end,
    {
        assert(text@.subrange(from as int, end as int).drop_last() == text@.subrange(
            from as int,
            end - 1,
        ));
        end -= 1;
    }
    end
}

/// Where `trim_start` of the first `end` characters of `text` begins.
pub(crate) fn trim_start_to(text: &Vec<char>, end: usize) -> (start: usize)
    requires
        end <= text.len(),
    ensures
        start <= end,
        text@.subrange(start as int, end as int) == trim_start(text@.take(end as int)),
{
    let mut start: usize = 0;
    assert(text@.subrange(0, end as int) == text@.take(end as int));
    while start < end && char_is_whitespace(text[start])
        invariant
            start <= end <= text.len(),
            trim_start(text@.subrange(start as int, end as int)) == trim_start(
                text@.take(end as int),
            ),
        decreases end - start,
    {
        assert(text@.subrange(start as int, end as int).skip(1) == text@.subrange(
            start + 1,
            end as int,
        ));
        start += 1;
    }
    start
}

/// Trimming the start leaves the end as it was, and the other way round.
pub proof fn lemma_trim_commutes(s: Seq<char>)
    ensures
        trim_end(trim_start(s)) == trim_start(trim_end(s)),
    decreases s.len(),
{
    if s.len() == 0 {
    } else if is_whitespace(s[0]) {
        lemma_trim_commutes(s.skip(1));
        lemma_trim_end_after_white(s);
    } else {
        lemma_trim_end_keeps_start(s);
    }
}

proof fn lemma_trim_end_keeps_start(s: Seq<char>)
    requires
        s.len() > 0,
        !is_whitespace(s[0]),
    ensures
        trim_end(s).len() > 0,
        trim_end(s)[0] == s[0],
    decreases s.len(),
{
    if is_whitespace(s.last()) {
        lemma_trim_end_keeps_start(s.drop_last());
    }
}

proof fn lemma_trim_end_after_white(s: Seq<char>)
    requires
        s.len() > 0,
        is_whitespace(s[0]),
    ensures
        trim_start(trim_end(s)) == trim_start(trim_end(s.skip(1))),
    decreases s.len(),
{
    if s.len() == 1 {
        assert(s.drop_last() =~= Seq::<char>::empty());
        assert(s.skip(1) =~= Seq::<char>::empty());
    } else if is_whitespace(s.last()) {
        assert(s.skip(1).drop_last() =~= s.drop_last().skip(1));
        lemma_trim_end_after_white(s.drop_last());
    } else {
        assert(s.skip(1).last() == s.last());
    }
}

/// Every character of `s` is white space.
pub open spec fn all_whitespace(s: Seq<char>) -> bool {
    forall|i: int| 0 <= i < s.len() ==> is_whitespace(#[trigger] s[i])
}

/// White space after a text that does not end in white space is all that
/// `trim_end` takes away.
pub proof fn lemma_trim_end_drops_tail(body: Seq<char>, tail: Seq<char>)
    requires
        all_whitespace(tail),
        body.len() > 0 ==> !is_whitespace(body.last()),
    ensures
        trim_end(body + tail) == body,
    decreases tail.len(),
{
    let whole = body + tail;
    if tail.len() == 0 {
        assert(whole =~= body);
    } else {
        assert(whole.last() == tail.last());
        assert(whole.drop_last() =~= body + tail.drop_last());
        assert forall|i: int| 0 <= i < tail.drop_last().len() implies is_whitespace(
            #[trigger] tail.drop_last()[i],
        ) by {
            assert(tail.drop_last()[i] == tail[i]);
        }
        lemma_trim_end_drops_tail(body, tail.drop_last());
    }
}

/// `s` without the white space at either end.
pub fn trimmed(s: &str) -> (out: String)
    ensures
        out@ == trim(s@),
{
    let text = chars_of(s);
    let end = trim_end_from(&text, 0);
    let start = trim_start_to(&text, end);
    proof {
        assert(text@.skip(0) == text@);
        assert(text@.subrange(0, end as int) == text@.take(end as int));
        lemma_trim_commutes(s@);
    }
    s.substring_char(start, end).to_string()
}

// ---------------------------------------------------------------------------
// ASCII case
// ---------------------------------------------------------------------------

/// `c`, or its lower-case form where `c` is one of `A` to `Z`.
pub open spec fn ascii_lower(c: char) -> char {
    if 'A' <= c && c <= 'Z' {
        (c as int + 32) as char
    } else {
        c
    }
}

/// `s` with each of `A` to `Z` replaced by its lower-case form.
pub open spec fn ascii_lowercase(s: Seq<char>) -> Seq<char> {
    s.map_values(|c: char| ascii_lower(c))
}

/// The lower-case form of `c` where it is one of `A` to `Z`, else `c`.
pub fn to_ascii_lower(c: char) -> (lower: char)
    ensures
        lower == ascii_lower(c),
{
    if 'A' <= c && c <= 'Z' {
        let code: u8 = c as u8;
        (code + 32) as char
    } else {
        c
    }
}

/// Whether `value`, trimmed and put in lower case, reads `word`.
pub fn trimmed_lowercase_is(value: &str, word: &str) -> (same: bool)
    ensures
        same == (ascii_lowercase(trim(value@)) == word@),
{
    let text = chars_of(value);
    let end = trim_end_from(&text, 0);
    let start = trim_start_to(&text, end);
    proof {
        assert(text@.skip(0) == text@);
        assert(text@.subrange(0, end as int) == text@.take(end as int));
        lemma_trim_commutes(value@);
    }
    let ghost kept = text@.subrange(start as int, end as int);
    let expected = chars_of(word);
    if end - start != expected.len() {
        return false;
    }
    let mut i: usize = 0;
    while i < expected.len()
        invariant
            start <= end <= text.len(),
            end - start == expected.len(),
            i <= expected.len(),
            expected@ == word@,
            kept == trim(value@),
            kept == text@.subrange(start as int, end as int),
            forall|j: int| 0 <= j < i ==> ascii_lower(kept[j]) == expected@[j],
        decreases expected.len() - i,
    {
        if to_ascii_lower(text[start + i]) != expected[i] {
            assert(ascii_lowercase(kept)[i as int] != expected@[i as int]);
            return false;
        }
        i += 1;
    }
    assert(ascii_lowercase(kept) =~= expected@);
    true
}

// ---------------------------------------------------------------------------
// Decimal numbers
// ---------------------------------------------------------------------------

/// One of `0` to `9`.
pub open spec fn is_digit(c: char) -> bool {
    '0' <= c && c <= '9'
}

/// What the digit `c` counts for.
pub open spec fn digit_value(c: char) -> int {
    c as int - '0' as int
}

/// The digit that counts for `d`, for `d` from 0 to 9.
pub open spec fn digit_char(d: int) -> char {
    (d + '0' as int) as char
}

/// Every character of `s` is a digit, and there is at least one.
pub open spec fn all_digits(s: Seq<char>) -> bool {
    &&& s.len() > 0
    &&& forall|i: int| 0 <= i < s.len() ==> is_digit(#[trigger] s[i])
}

/// The number that the digits of `s` write in base ten.
pub open spec fn decimal_value(s: Seq<char>) -> int
    decreases s.len(),
{
    if s.len() == 0 {
        0
    } else {
        decimal_value(s.drop_last()) * 10 + digit_value(s.last())
    }
}

/// `s` without a leading `+`.
pub open spec fn unsigned_body(s: Seq<char>) -> Seq<char> {
    if s.len() > 0 && s[0] == '+' {
        s.skip(1)
    } else {
        s
    }
}

/// The `u16` that `s` writes: an optional `+`, then digits only, with a value
/// that fits. Anything else writes none.
pub open spec fn parse_u16(s: Seq<char>) -> Option<u16> {
    let body = unsigned_body(s);
    if all_digits(body) && decimal_value(body) <= u16::MAX {
        Some(decimal_value(body) as u16)
    } else {
        None
    }
}

/// The shortest decimal writing of `n`.
pub open spec fn decimal_text(n: nat) -> Seq<char>
    decreases n,
{
    if n < 10 {
        seq![digit_char(n as int)]
    } else {
        decimal_text(n / 10).push(digit_char((n % 10) as int))
    }
}

/// The decimal writing of `n`, with `-` in front where it is negative.
pub open spec fn signed_decimal_text(n: int) -> Seq<char> {
    if n < 0 {
        seq!['-'] + decimal_text((-n) as nat)
    } else {
        decimal_text(n as nat)
    }
}

/// A number's digits never count for less than some of its leading digits.
pub proof fn lemma_decimal_value_grows(s: Seq<char>, k: int)
    requires
        0 <= k <= s.len(),
        forall|i: int| 0 <= i < s.len() ==> is_digit(#[trigger] s[i]),
    ensures
        0 <= decimal_value(s.take(k)) <= decimal_value(s),
    decreases s.len(),
{
    if k == s.len() {
        assert(s.take(k) == s);
        if s.len() > 0 {
            lemma_decimal_value_grows(s.drop_last(), k - 1);
            assert(is_digit(s[s.len() - 1]));
        }
    } else {
        lemma_decimal_value_grows(s.drop_last(), k);
        assert(s.drop_last().take(k) == s.take(k));
        assert(is_digit(s[s.len() - 1]));
    }
}

/// Writing a number and reading it back gives the number.
pub proof fn lemma_decimal_round_trip(n: nat)
    ensures
        all_digits(decimal_text(n)),
        decimal_value(decimal_text(n)) == n,
        decimal_text(n)[0] != '+',
    decreases n,
{
    if n < 10 {
        let text = decimal_text(n);
        assert(text.drop_last() =~= Seq::<char>::empty());
        assert(decimal_value(text.drop_last()) == 0);
    } else {
        lemma_decimal_round_trip(n / 10);
        let head = decimal_text(n / 10);
        let text = decimal_text(n);
        assert(text.drop_last() =~= head);
        assert(text[0] == head[0]);
        assert forall|i: int| 0 <= i < text.len() implies is_digit(#[trigger] text[i]) by {
            if i < head.len() {
                assert(text[i] == head[i]);
            }
        }
    }
}

/// The `u16` written by the characters of `text` from `from` up to `to`.
pub(crate) fn read_u16(text: &Vec<char>, from: usize, to: usize) -> (value: Option<u16>)
    requires
        from <= to <= text.len(),
    ensures
        value == parse_u16(text@.subrange(from as int, to as int)),
{
    let ghost whole = text@.subrange(from as int, to as int);
    let mut first: usize = from;
    if first < to && text[first] == '+' {
        first += 1;
    }
    let ghost body = text@.subrange(first as int, to as int);
    assert(body =~= unsigned_body(whole));
    if first == to {
        return None;
    }
    let mut total: u32 = 0;
    let mut k: usize = first;
    assert(body.take(0) =~= Seq::<char>::empty());
    while k < to
        invariant
            from <= first <= k <= to <= text.len(),
            first < to,
            body == text@.subrange(first as int, to as int),
            body == unsigned_body(text@.subrange(from as int, to as int)),
            forall|j: int| 0 <= j < k - first ==> is_digit(#[trigger] body[j]),
            total == decimal_value(body.take(k - first)),
            total <= u16::MAX,
        decreases to - k,
    {
        let c = text[k];
        if !('0' <= c && c <= '9') {
            assert(!is_digit(body[k - first]));
            return None;
        }
        let digit: u32 = c as u32 - 48;
        assert(body.take(k - first + 1).drop_last() =~= body.take(k - first));
        total = total * 10 + digit;
        if total > 65535 {
            proof {
                if all_digits(body) {
                    lemma_decimal_value_grows(body, k - first + 1);
                }
            }
            return None;
        }
        k += 1;
    }
    assert(body.take(body.len() as int) == body);
    Some(total as u16)
}

/// The `u16` that `s` writes, if it writes one.
pub fn str_to_u16(s: &str) -> (value: Option<u16>)
    ensures
        value == parse_u16(s@),
{
    let text = chars_of(s);
    assert(text@.subrange(0, text.len() as int) == text@);
    read_u16(&text, 0, text.len())
}

fn digit_str(d: u64) -> (s: &'static str)
    requires
        d < 10,
    ensures
        s@ == seq![digit_char(d as int)],
{
    proof {
        reveal_strlit("0");
        reveal_strlit("1");
        reveal_strlit("2");
        reveal_strlit("3");
        reveal_strlit("4");
        reveal_strlit("5");
        reveal_strlit("6");
        reveal_strlit("7");
        reveal_strlit("8");
        reveal_strlit("9");
    }
    let s = match d {
        0 => "0",
        1 => "1",
        2 => "2",
        3 => "3",
        4 => "4",
        5 => "5",
        6 => "6",
        7 => "7",
        8 => "8",
        _ => "9",
    };
    assert(s@ =~= seq![digit_char(d as int)]);
    s
}

/// Appends the decimal writing of `n` to `out`.
pub fn push_decimal(out: &mut String, n: u64)
    ensures
        final(out)@ == old(out)@ + decimal_text(n as nat),
    decreases n,
{
    if n >= 10 {
        push_decimal(out, n / 10);
        out.append(digit_str(n % 10));
        assert(old(out)@ + decimal_text((n / 10) as nat) + seq![digit_char((n % 10) as int)]
            =~= old(out)@ + decimal_text(n as nat));
    } else {
        out.append(digit_str(n));
    }
}

/// Appends the decimal writing of `n` to `out`, with `-` in front where it is
/// negative.
pub fn push_signed_decimal(out: &mut String, n: i64)
    ensures
        final(out)@ == old(out)@ + signed_decimal_text(n as int),
{
    if n < 0 {
        proof {
            reveal_strlit("-");
        }
        out.append("-");
        let magnitude: u64 = if n == i64::MIN {
            9223372036854775808u64
        } else {
            (-n) as u64
        };
        push_decimal(out, magnitude);
        assert(old(out)@ + "-"@ + decimal_text(magnitude as nat) =~= old(out)@ + (seq!['-']
            + decimal_text((-n) as nat)));
    } else {
        push_decimal(out, n as u64);
    }
}

// ---------------------------------------------------------------------------
// Paths
// ---------------------------------------------------------------------------

/// `name` put under the directory `base`: an absolute `name` stands alone, and
/// a separator comes between the two unless `base` is empty or ends in one.
pub open spec fn join_path(base: Seq<char>, name: Seq<char>) -> Seq<char> {
    if name.len() > 0 && name[0] == '/' {
        name
    } else if base.len() > 0 && base.last() != '/' {
        base + seq!['/'] + name
    } else {
        base + name
    }
}

/// `name` put under the directory `base`.
pub fn joined(base: &str, name: &str) -> (out: String)
    ensures
        out@ == join_path(base@, name@),
{
    let below = chars_of(name);
    if below.len() > 0 && below[0] == '/' {
        return name.to_string();
    }
    let above = chars_of(base);
    let mut out = base.to_string();
    if above.len() > 0 && above[above.len() - 1] != '/' {
        proof {
            reveal_strlit("/");
        }
        out.append("/");
        assert(out@ =~= base@ + seq!['/']);
    }
    out.append(name);
    out
}

// ---------------------------------------------------------------------------
// Quoting
// ---------------------------------------------------------------------------

/// What the standard library's `{:?}` prints for a string that holds `s`: the
/// text between double quotes, with what does not print escaped.
pub uninterp spec fn debug_text(s: Seq<char>) -> Seq<char>;

/// `s` as `{:?}` prints it. Calls the standard library's `Debug` for `str`;
/// the contract only gives that result a name.
#[verifier::external_body]
pub(crate) fn debug_quoted(s: &str) -> (out: String)
    ensures
        out@ == debug_text(s@),
{
    format!("{:?}", s)
}

} // verus!
