//! Text: the few operations on characters that the protocol needs.

use vstd::prelude::*;
use vstd::string::*;

verus! {

/// The lower-case form of an ASCII letter; every other character stays.
pub open spec fn ascii_lower(c: char) -> char {
    if 'A' <= c <= 'Z' {
        ((c as u32) + 32) as char
    } else {
        c
    }
}

/// `a` and `b` agree up to the case of ASCII letters.
pub open spec fn same_ignoring_case(a: Seq<char>, b: Seq<char>) -> bool {
    a.len() == b.len() && forall|i: int|
        0 <= i < a.len() ==> ascii_lower(#[trigger] a[i]) == ascii_lower(b[i])
}

/// `part` stands in `s` from position `at` on, up to the case of ASCII letters.
pub open spec fn occurs_at(s: Seq<char>, part: Seq<char>, at: int) -> bool {
    0 <= at && at + part.len() <= s.len() && same_ignoring_case(
        s.subrange(at, at + part.len()),
        part,
    )
}

/// `part` stands somewhere in `s`, up to the case of ASCII letters.
pub open spec fn contains_ignoring_case(s: Seq<char>, part: Seq<char>) -> bool {
    exists|at: int| #[trigger] occurs_at(s, part, at)
}

/// The characters with the Unicode property `White_Space`.
pub open spec fn is_space(c: char) -> bool {
    let n = c as u32;
    ||| 9 <= n <= 13
    ||| n == 32
    ||| n == 0x85
    ||| n == 0xa0
    ||| n == 0x1680
    ||| 0x2000 <= n <= 0x200a
    ||| n == 0x2028
    ||| n == 0x2029
    ||| n == 0x202f
    ||| n == 0x205f
    ||| n == 0x3000
}

/// Where the first run of white space ends.
pub open spec fn leading_space(s: Seq<char>) -> nat
    decreases s.len(),
{
    if s.len() == 0 || !is_space(s[0]) {
        0
    } else {
        1 + leading_space(s.drop_first())
    }
}

/// Where the first run of characters that are no white space ends.
pub open spec fn leading_word(s: Seq<char>) -> nat
    decreases s.len(),
{
    if s.len() == 0 || is_space(s[0]) {
        0
    } else {
        1 + leading_word(s.drop_first())
    }
}

/// The first word of `s` and what follows it, or `None` when `s` is blank.
pub open spec fn first_word(s: Seq<char>) -> Option<(Seq<char>, Seq<char>)> {
    let body = s.skip(leading_space(s) as int);
    if body.len() == 0 {
        None
    } else {
        Some((body.take(leading_word(body) as int), body.skip(leading_word(body) as int)))
    }
}

/// `s` without the white space at its two ends.
pub open spec fn trimmed(s: Seq<char>) -> Seq<char> {
    trim_end(s.skip(leading_space(s) as int))
}

/// `s` without the white space at its end.
pub open spec fn trim_end(s: Seq<char>) -> Seq<char>
    decreases s.len(),
{
    if s.len() == 0 || !is_space(s.last()) {
        s
    } else {
        trim_end(s.drop_last())
    }
}

pub open spec fn is_digit(c: char) -> bool {
    '0' <= c <= '9'
}

/// The number that a run of decimal digits stands for.
pub open spec fn decimal(s: Seq<char>) -> nat
    decreases s.len(),
{
    if s.len() == 0 {
        0
    } else {
        decimal(s.drop_last()) * 10 + (s.last() as u32 - '0' as u32) as nat
    }
}

/// The number that `s` spells, if it is an optional `+` before at least one
/// digit and does not exceed `max`.
pub open spec fn number_in(s: Seq<char>, max: nat) -> Option<nat> {
    if all_digits(without_plus(s)) && decimal(without_plus(s)) <= max {
        Some(decimal(without_plus(s)))
    } else {
        None
    }
}

/// `s` without a `+` at its start.
pub open spec fn without_plus(s: Seq<char>) -> Seq<char> {
    if s.len() > 0 && s[0] == '+' {
        s.drop_first()
    } else {
        s
    }
}

/// At least one character, and all of them decimal digits.
pub open spec fn all_digits(s: Seq<char>) -> bool {
    s.len() > 0 && forall|i: int| 0 <= i < s.len() ==> is_digit(#[trigger] s[i])
}

/// The decimal digit with the value `d`.
pub open spec fn digit_char(d: nat) -> char {
    (d as u32 + '0' as u32) as char
}

/// `n` in decimal digits.
pub open spec fn number_text(n: nat) -> Seq<char>
    decreases n,
{
    if n < 10 {
        seq![digit_char(n)]
    } else {
        number_text(n / 10).push(digit_char(n % 10))
    }
}

/// Adds a character to the end of a text: `std::string::String::push`.
///
/// What is believed: the text keeps its characters and gains `c` behind them.
#[verifier::external_body]
pub(crate) fn push_char(s: &mut String, c: char)
    ensures
        final(s)@ == old(s)@.push(c),
{
    s.push(c);
}

/// The characters of a text, one by one.
pub fn chars_of(s: &str) -> (chars: Vec<char>)
    ensures
        chars@ == s@,
{
    let mut chars: Vec<char> = Vec::new();
    let n: usize = s.unicode_len();
    let mut i: usize = 0;
    while i < n
        invariant
            n == s@.len(),
            i <= n,
            chars@ == s@.take(i as int),
        decreases n - i,
    {
        let c = s.get_char(i);
        chars.push(c);
        i = i + 1;
    }
    chars
}

/// The text made of `chars`.
pub fn text_of(chars: &Vec<char>) -> (s: String)
    ensures
        s@ == chars@,
{
    let mut s = String::new();
    let mut i: usize = 0;
    while i < chars.len()
        invariant
            i <= chars.len(),
            s@ == chars@.take(i as int),
        decreases chars.len() - i,
    {
        push_char(&mut s, chars[i]);
        i = i + 1;
    }
    s
}

fn lower_code(c: char) -> (n: u32)
    ensures
        n == ascii_lower(c) as u32,
{
    if 'A' <= c && c <= 'Z' {
        c as u32 + 32
    } else {
        c as u32
    }
}

/// Compares two texts up to the case of ASCII letters.
pub fn eq_ignore_ascii_case(a: &str, b: &str) -> (same: bool)
    ensures
        same == same_ignoring_case(a@, b@),
{
    let n: usize = a.unicode_len();
    if n != b.unicode_len() {
        return false;
    }
    let mut i: usize = 0;
    while i < n
        invariant
            n == a@.len() == b@.len(),
            i <= n,
            forall|j: int| 0 <= j < i ==> ascii_lower(#[trigger] a@[j]) == ascii_lower(b@[j]),
        decreases n - i,
    {
        if lower_code(a.get_char(i)) != lower_code(b.get_char(i)) {
            assert(ascii_lower(a@[i as int]) != ascii_lower(b@[i as int]));
            return false;
        }
        i = i + 1;
    }
    true
}

/// Whether `part` stands in `s`, up to the case of ASCII letters.
pub fn contains_ignore_ascii_case(s: &str, part: &str) -> (found: bool)
    ensures
        found == contains_ignoring_case(s@, part@),
{
    let n: usize = s.unicode_len();
    let m: usize = part.unicode_len();
    if m > n {
        return false;
    }
    let mut at: usize = 0;
    while at <= n - m
        invariant
            n == s@.len(),
            m == part@.len(),
            m <= n,
            at <= n - m + 1,
            forall|k: int| 0 <= k < at ==> !occurs_at(s@, part@, k),
        decreases n - m + 1 - at,
    {
        let mut i: usize = 0;
        let mut same = true;
        while i < m && same
            invariant
                n == s@.len(),
                m == part@.len(),
                at + m <= n,
                i <= m,
                same ==> forall|j: int|
                    0 <= j < i ==> ascii_lower(#[trigger] s@[at + j]) == ascii_lower(part@[j]),
                !same ==> !occurs_at(s@, part@, at as int),
            decreases m - i + (if same { 1int } else { 0int }),
        {
            if lower_code(s.get_char(at + i)) != lower_code(part.get_char(i)) {
                same = false;
                assert(s@.subrange(at as int, at + m)[i as int] == s@[at + i]);
            } else {
                i = i + 1;
            }
        }
        if same {
            assert forall|j: int| 0 <= j < m implies ascii_lower(
                #[trigger] s@.subrange(at as int, at + m)[j],
            ) == ascii_lower(part@[j]) by {
                assert(s@[at + j] == s@.subrange(at as int, at + m)[j]);
            }
            assert(occurs_at(s@, part@, at as int));
            return true;
        }
        at = at + 1;
    }
    assert forall|k: int| !#[trigger] occurs_at(s@, part@, k) by {}
    false
}


fn is_white(c: char) -> (white: bool)
    ensures
        white == is_space(c),
{
    let n: u32 = c as u32;
    (9 <= n && n <= 13) || n == 32 || n == 0x85 || n == 0xa0 || n == 0x1680 || (0x2000 <= n && n
        <= 0x200a) || n == 0x2028 || n == 0x2029 || n == 0x202f || n == 0x205f || n == 0x3000
}

/// The characters of `s` from `from` up to `to`.
pub fn part_of(s: &Vec<char>, from: usize, to: usize) -> (part: Vec<char>)
    requires
        from <= to <= s.len(),
    ensures
        part@ == s@.subrange(from as int, to as int),
{
    let mut part: Vec<char> = Vec::new();
    let mut i: usize = from;
    while i < to
        invariant
            from <= i <= to <= s.len(),
            part@ == s@.subrange(from as int, i as int),
        decreases to - i,
    {
        part.push(s[i]);
        i = i + 1;
    }
    part
}

fn space_end(s: &Vec<char>) -> (n: usize)
    ensures
        n == leading_space(s@),
        n <= s.len(),
{
    let mut i: usize = 0;
    assert(s@.skip(0) == s@);
    while i < s.len() && is_white(s[i])
        invariant
            i <= s.len(),
            leading_space(s@) == i + leading_space(s@.skip(i as int)),
        decreases s.len() - i,
    {
        assert(s@.skip(i as int).drop_first() == s@.skip(i + 1));
        i = i + 1;
    }
    i
}

fn word_end(s: &Vec<char>) -> (n: usize)
    ensures
        n == leading_word(s@),
        n <= s.len(),
{
    let mut i: usize = 0;
    assert(s@.skip(0) == s@);
    while i < s.len() && !is_white(s[i])
        invariant
            i <= s.len(),
            leading_word(s@) == i + leading_word(s@.skip(i as int)),
        decreases s.len() - i,
    {
        assert(s@.skip(i as int).drop_first() == s@.skip(i + 1));
        i = i + 1;
    }
    i
}

/// Splits the first word off.
pub fn take_word(s: &Vec<char>) -> (r: Option<(Vec<char>, Vec<char>)>)
    ensures
        match r {
            Some((word, rest)) => first_word(s@) == Some((word@, rest@)),
            None => first_word(s@) is None,
        },
{
    let from: usize = space_end(s);
    let body = part_of(s, from, s.len());
    assert(body@ == s@.skip(leading_space(s@) as int));
    if body.len() == 0 {
        return None;
    }
    let n: usize = word_end(&body);
    let word = part_of(&body, 0, n);
    let rest = part_of(&body, n, body.len());
    assert(word@ == body@.take(n as int));
    assert(rest@ == body@.skip(n as int));
    Some((word, rest))
}

/// Takes the white space off both ends.
pub fn trim(s: &Vec<char>) -> (r: Vec<char>)
    ensures
        r@ == trimmed(s@),
{
    let from: usize = space_end(s);
    let mut to: usize = s.len();
    assert(s@.subrange(from as int, to as int) == s@.skip(from as int));
    while from < to && is_white(s[to - 1])
        invariant
            from <= to <= s.len(),
            trim_end(s@.subrange(from as int, to as int)) == trimmed(s@),
        decreases to,
    {
        assert(s@.subrange(from as int, to as int).drop_last() == s@.subrange(
            from as int,
            to - 1,
        ));
        to = to - 1;
    }
    part_of(s, from, to)
}

proof fn lemma_decimal_grows(s: Seq<char>, n: int)
    requires
        0 <= n <= s.len(),
        forall|i: int| 0 <= i < s.len() ==> is_digit(#[trigger] s[i]),
    ensures
        decimal(s.take(n)) <= decimal(s),
    decreases s.len() - n,
{
    if n < s.len() {
        assert(s.take(n + 1).drop_last() == s.take(n));
        lemma_decimal_grows(s, n + 1);
    } else {
        assert(s.take(n) == s);
    }
}

/// Reads a decimal number that does not exceed `max`.
pub fn parse_number(s: &Vec<char>, max: u32) -> (n: Option<u32>)
    ensures
        match n {
            Some(n) => number_in(s@, max as nat) == Some(n as nat),
            None => number_in(s@, max as nat) is None,
        },
{
    let from: usize = if s.len() > 0 && s[0] == '+' {
        1
    } else {
        0
    };
    let ghost digits = without_plus(s@);
    assert(digits == s@.skip(from as int));
    if from == s.len() {
        return None;
    }
    let mut n: u32 = 0;
    let mut i: usize = from;
    while i < s.len()
        invariant
            from <= i <= s.len(),
            n <= max,
            digits == s@.skip(from as int),
            n == decimal(digits.take(i - from)),
            forall|j: int| 0 <= j < i - from ==> is_digit(#[trigger] digits[j]),
            digits == without_plus(s@),
        decreases s.len() - i,
    {
        let c = s[i];
        assert(c == digits[i - from]);
        if c < '0' || c > '9' {
            return None;
        }
        let d: u32 = c as u32 - '0' as u32;
        let next: u64 = n as u64 * 10 + d as u64;
        proof {
            assert(digits.take(i + 1 - from).drop_last() == digits.take(i - from));
            if number_in(s@, max as nat) is Some {
                lemma_decimal_grows(digits, i + 1 - from);
            }
        }
        if next > max as u64 {
            return None;
        }
        n = next as u32;
        i = i + 1;
    }
    assert(digits.take(digits.len() as int) == digits);
    Some(n)
}

/// Writes a number in decimal digits.
pub fn number_to_text(n: u32) -> (s: String)
    ensures
        s@ == number_text(n as nat),
    decreases n,
{
    let mut s = if n < 10 {
        String::new()
    } else {
        number_to_text(n / 10)
    };
    let d: u8 = (n % 10) as u8;
    push_char(&mut s, (d + 48) as char);
    s
}

/// `s` ends with `part`.
pub open spec fn ends_with(s: Seq<char>, part: Seq<char>) -> bool {
    part.len() <= s.len() && s.skip(s.len() - part.len()) == part
}

/// `part` stands in `s` from position `at` on.
pub open spec fn stands_at(s: Seq<char>, part: Seq<char>, at: int) -> bool {
    0 <= at && at + part.len() <= s.len() && s.subrange(at, at + part.len()) == part
}

/// Compares two texts.
pub fn is_equal(a: &str, b: &str) -> (same: bool)
    ensures
        same == (a@ == b@),
{
    let x = chars_of(a);
    let y = chars_of(b);
    if x.len() != y.len() {
        return false;
    }
    assert(x@.subrange(0, x@.len() as int) == x@);
    matches_at(&x, &y, 0)
}

/// Tests for an ending.
pub fn has_suffix(s: &str, part: &str) -> (r: bool)
    ensures
        r == ends_with(s@, part@),
{
    let chars = chars_of(s);
    let p = chars_of(part);
    if p.len() > chars.len() {
        return false;
    }
    let at: usize = chars.len() - p.len();
    assert(s@.skip(at as int) == s@.subrange(at as int, at + p.len()));
    matches_at(&chars, &p, at)
}

/// Whether `part` stands in `s` from position `at` on.
pub fn matches_at(s: &Vec<char>, part: &Vec<char>, at: usize) -> (r: bool)
    ensures
        r == stands_at(s@, part@, at as int),
{
    if part.len() > s.len() || at > s.len() - part.len() {
        return false;
    }
    let mut i: usize = 0;
    while i < part.len()
        invariant
            i <= part.len(),
            at + part.len() <= s.len(),
            forall|j: int| 0 <= j < i ==> s@[at + j] == #[trigger] part@[j],
        decreases part.len() - i,
    {
        if s[at + i] != part[i] {
            assert(s@.subrange(at as int, at + part.len())[i as int] == s@[at + i]);
            return false;
        }
        i = i + 1;
    }
    assert(s@.subrange(at as int, at + part.len()) == part@);
    true
}

proof fn lemma_digits_of(n: nat)
    ensures
        all_digits(number_text(n)),
        decimal(number_text(n)) == n,
        number_text(n)[0] != '+',
    decreases n,
{
    reveal_with_fuel(decimal, 2);
    if n < 10 {
        assert(number_text(n).drop_last() == Seq::<char>::empty());
    } else {
        lemma_digits_of(n / 10);
        let head = number_text(n / 10);
        let s = head.push(digit_char(n % 10));
        assert(s.drop_last() == head);
        assert(s[0] == head[0]);
        assert forall|i: int| 0 <= i < s.len() implies is_digit(#[trigger] s[i]) by {
            if i < head.len() {
                assert(s[i] == head[i]);
            }
        }
    }
}

/// A number is read back from its text.
pub proof fn law_number_is_read_back(n: nat, max: nat)
    ensures
        number_in(number_text(n), max) == if n <= max {
            Some(n)
        } else {
            None
        },
{
    lemma_digits_of(n);
}

/// Letters are compared without regard to their case, and everything else as it is.
pub proof fn law_case_is_disregarded(a: Seq<char>, b: Seq<char>, c: Seq<char>)
    ensures
        same_ignoring_case(a, a),
        same_ignoring_case(a, b) ==> same_ignoring_case(b, a),
        same_ignoring_case(a, b) && same_ignoring_case(b, c) ==> same_ignoring_case(a, c),
        ascii_lower('A') == 'a' && ascii_lower('Z') == 'z' && ascii_lower('a') == 'a'
            && ascii_lower('0') == '0' && ascii_lower('@') == '@' && ascii_lower('[') == '[',
{
}

proof fn lemma_leading_space(s: Seq<char>, n: nat)
    requires
        n <= s.len(),
        forall|i: int| 0 <= i < n ==> is_space(#[trigger] s[i]),
        n < s.len() ==> !is_space(s[n as int]),
    ensures
        leading_space(s) == n,
    decreases n,
{
    if n > 0 {
        assert(is_space(s[0]));
        let rest = s.drop_first();
        assert forall|i: int| 0 <= i < n - 1 implies is_space(#[trigger] rest[i]) by {
            assert(rest[i] == s[i + 1]);
        }
        lemma_leading_space(rest, (n - 1) as nat);
    }
}

proof fn lemma_leading_word(s: Seq<char>, n: nat)
    requires
        n <= s.len(),
        forall|i: int| 0 <= i < n ==> !is_space(#[trigger] s[i]),
        n < s.len() ==> is_space(s[n as int]),
    ensures
        leading_word(s) == n,
    decreases n,
{
    if n > 0 {
        assert(!is_space(s[0]));
        let rest = s.drop_first();
        assert forall|i: int| 0 <= i < n - 1 implies !is_space(#[trigger] rest[i]) by {
            assert(rest[i] == s[i + 1]);
        }
        lemma_leading_word(rest, (n - 1) as nat);
    }
}

proof fn lemma_trim_end(s: Seq<char>, n: nat)
    requires
        n <= s.len(),
        forall|i: int| n <= i < s.len() ==> is_space(#[trigger] s[i]),
        n > 0 ==> !is_space(s[n - 1]),
    ensures
        trim_end(s) == s.take(n as int),
    decreases s.len(),
{
    if s.len() > n {
        assert(is_space(s[s.len() - 1]));
        lemma_trim_end(s.drop_last(), n);
        assert(s.drop_last().take(n as int) == s.take(n as int));
    } else {
        assert(s.take(n as int) == s);
    }
}

/// The first word stands behind the white space at the start, and ends at the next
/// white space.
pub proof fn law_first_word_is_found(gap: Seq<char>, word: Seq<char>, rest: Seq<char>)
    requires
        forall|i: int| 0 <= i < gap.len() ==> is_space(#[trigger] gap[i]),
        forall|i: int| 0 <= i < word.len() ==> !is_space(#[trigger] word[i]),
        rest.len() > 0 ==> is_space(rest[0]),
        word.len() > 0,
    ensures
        first_word(gap + word + rest) == Some((word, rest)),
{
    let s = gap + word + rest;
    assert forall|i: int| 0 <= i < gap.len() implies is_space(#[trigger] s[i]) by {
        assert(s[i] == gap[i]);
    }
    assert(s[gap.len() as int] == word[0]);
    lemma_leading_space(s, gap.len());
    let body = s.skip(gap.len() as int);
    assert(body == word + rest);
    lemma_leading_word(body, word.len());
    assert(body.take(word.len() as int) == word);
    assert(body.skip(word.len() as int) == rest);
}

/// The white space at both ends is left out, and nothing else.
pub proof fn law_trimmed_of_white_space(before: Seq<char>, s: Seq<char>, after: Seq<char>)
    requires
        forall|i: int| 0 <= i < before.len() ==> is_space(#[trigger] before[i]),
        forall|i: int| 0 <= i < after.len() ==> is_space(#[trigger] after[i]),
        s.len() > 0,
        !is_space(s[0]),
        !is_space(s[s.len() - 1]),
    ensures
        trimmed(before + s + after) == s,
{
    let all = before + s + after;
    assert forall|i: int| 0 <= i < before.len() implies is_space(#[trigger] all[i]) by {
        assert(all[i] == before[i]);
    }
    assert(all[before.len() as int] == s[0]);
    lemma_leading_space(all, before.len());
    let rest = all.skip(before.len() as int);
    assert(rest == s + after);
    assert forall|i: int| s.len() <= i < rest.len() implies is_space(#[trigger] rest[i]) by {
        assert(rest[i] == after[i - s.len()]);
    }
    assert(rest[s.len() - 1] == s[s.len() - 1]);
    lemma_trim_end(rest, s.len());
    assert(rest.take(s.len() as int) == s);
}

/// A capital letter has the small letter 32 places behind it, and no other character
/// changes; white space in ASCII is the blank and the characters from tab to carriage
/// return.
pub proof fn law_letters_and_white_space(c: char)
    ensures
        'A' <= c <= 'Z' ==> ascii_lower(c) as u32 == c as u32 + 32,
        !('A' <= c <= 'Z') ==> ascii_lower(c) == c,
        (c as u32) < 0x80 ==> (is_space(c) <==> c == ' ' || 9 <= c as u32 <= 13),
{
}

}
