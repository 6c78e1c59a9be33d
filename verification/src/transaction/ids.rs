//! Names that nobody else uses: tags, branches and Call-IDs.

use crate::sip::uri::{Param, ParamView};
use crate::text;
use vstd::prelude::*;
use vstd::string::*;

verus! {

/// A random number: `rand::random`.
///
/// Nothing is believed of it but that it is a number.
#[verifier::external_body]
fn random_number() -> (n: u64) {
    rand::random::<u64>()
}

pub open spec fn is_alphanumeric(c: char) -> bool {
    ('0' <= c <= '9') || ('a' <= c <= 'z') || ('A' <= c <= 'Z')
}

pub open spec fn all_alphanumeric(s: Seq<char>) -> bool {
    forall|i: int| 0 <= i < s.len() ==> is_alphanumeric(#[trigger] s[i])
}

/// The letter or digit with the number `n`, counting digits first.
pub open spec fn alphanumeric(n: u64) -> char {
    let n = n % 62;
    if n < 10 {
        (n + '0' as u64) as char
    } else if n < 36 {
        (n - 10 + 'a' as u64) as char
    } else {
        (n - 36 + 'A' as u64) as char
    }
}

fn letter(n: u64) -> (c: char)
    ensures
        c == alphanumeric(n),
        is_alphanumeric(c),
{
    let n: u8 = (n % 62) as u8;
    if n < 10 {
        (n + 48) as char
    } else if n < 36 {
        (n - 10 + 97) as char
    } else {
        (n - 36 + 65) as char
    }
}

/// The text whose letters have the given numbers.
pub fn text_from(numbers: &Vec<u64>) -> (s: String)
    ensures
        s@ == numbers@.map_values(|n: u64| alphanumeric(n)),
        all_alphanumeric(s@),
{
    let mut s = String::new();
    let mut i: usize = 0;
    while i < numbers.len()
        invariant
            i <= numbers.len(),
            s@ == numbers@.take(i as int).map_values(|n: u64| alphanumeric(n)),
            all_alphanumeric(s@),
        decreases numbers.len() - i,
    {
        text::push_char(&mut s, letter(numbers[i]));
        i = i + 1;
    }
    assert(numbers@.take(i as int) == numbers@);
    s
}

fn random_numbers(n: usize) -> (r: Vec<u64>)
    ensures
        r.len() == n,
{
    let mut r: Vec<u64> = Vec::new();
    while r.len() < n
        invariant
            r.len() <= n,
        decreases n - r.len(),
    {
        r.push(random_number());
    }
    r
}

/// A random text of `n` letters and digits.
pub fn random_text(n: usize) -> (s: String)
    ensures
        s@.len() == n,
        all_alphanumeric(s@),
{
    text_from(&random_numbers(n))
}

/// A tag that can have come from [`make_tag`]: 8 letters and digits.
pub open spec fn is_tag(s: Seq<char>) -> bool {
    s.len() == 8 && all_alphanumeric(s)
}

/// A random tag.
pub fn make_tag() -> (s: String)
    ensures
        is_tag(s@),
{
    random_text(8)
}

/// A branch that can have come from [`make_via_branch`]: the magic cookie and 12
/// letters and digits.
pub open spec fn is_branch(s: Seq<char>) -> bool {
    s.len() == 19 && s.take(7) == "z9hG4bK"@ && all_alphanumeric(s.skip(7))
}

/// The text of a random branch.
pub fn make_branch() -> (s: String)
    ensures
        is_branch(s@),
{
    let mut s = "z9hG4bK".to_owned();
    let tail = random_text(12);
    s.append(tail.as_str());
    proof {
        reveal_strlit("z9hG4bK");
        assert(s@.take(7) == "z9hG4bK"@);
        assert(s@.skip(7) == tail@);
    }
    s
}

/// A random branch parameter.
pub fn make_via_branch() -> (p: Param)
    ensures
        p.deep_view() matches ParamView::Branch(b) && is_branch(b),
{
    Param::Branch(make_branch())
}

/// The hexadecimal digit with the value `n`.
pub open spec fn hex_digit(n: u64) -> char {
    if n < 10 {
        (n + '0' as u64) as char
    } else {
        (n - 10 + 'a' as u64) as char
    }
}

/// The digit at place `i` of a version 4 UUID that is drawn from the number `n`.
pub open spec fn uuid_digit(i: int, n: u64) -> char {
    if i == 12 {
        '4'
    } else if i == 16 {
        hex_digit((8 + n % 4) as u64)
    } else {
        hex_digit(n % 16)
    }
}

/// 32 lower-case hexadecimal digits with the marks of a version 4 UUID.
pub open spec fn is_uuid_v4(s: Seq<char>) -> bool {
    &&& s.len() == 32
    &&& s[12] == '4'
    &&& s[16] == '8' || s[16] == '9' || s[16] == 'a' || s[16] == 'b'
    &&& forall|i: int|
        0 <= i < 32 ==> ('0' <= #[trigger] s[i] <= '9') || ('a' <= s[i] <= 'f')
}

fn hex(n: u64) -> (c: char)
    requires
        n < 16,
    ensures
        c == hex_digit(n),
        ('0' <= c <= '9') || ('a' <= c <= 'f'),
        8 <= n < 12 ==> (c == '8' || c == '9' || c == 'a' || c == 'b'),
{
    if n < 10 {
        (n as u8 + 48) as char
    } else {
        (n as u8 - 10 + 97) as char
    }
}

/// The version 4 UUID drawn from 32 numbers, without dashes.
pub fn uuid_from(numbers: &Vec<u64>) -> (s: String)
    requires
        numbers.len() == 32,
    ensures
        s@.len() == 32,
        forall|i: int| 0 <= i < 32 ==> #[trigger] s@[i] == uuid_digit(i, numbers@[i]),
        is_uuid_v4(s@),
{
    let mut s = String::new();
    let mut i: usize = 0;
    while i < 32
        invariant
            i <= 32,
            numbers.len() == 32,
            s@.len() == i,
            forall|j: int| 0 <= j < i ==> #[trigger] s@[j] == uuid_digit(j, numbers@[j]),
            forall|j: int|
                0 <= j < i ==> ('0' <= #[trigger] s@[j] <= '9') || ('a' <= s@[j] <= 'f'),
            i > 12 ==> s@[12] == '4',
            i > 16 ==> (s@[16] == '8' || s@[16] == '9' || s@[16] == 'a' || s@[16] == 'b'),
        decreases 32 - i,
    {
        let c = if i == 12 {
            '4'
        } else if i == 16 {
            hex(8 + numbers[i] % 4)
        } else {
            hex(numbers[i] % 16)
        };
        text::push_char(&mut s, c);
        i = i + 1;
    }
    s
}

/// A random version 4 UUID, without dashes.
pub fn make_uuid_v4() -> (s: String)
    ensures
        is_uuid_v4(s@),
{
    uuid_from(&random_numbers(32))
}

/// The form of a new Call-ID.
#[derive(Clone, Copy, Debug, PartialEq, Eq, Structural)]
pub enum CallIdFormat {
    /// A UUID, an `@` and a suffix.
    UuidWithSuffix,
    /// A UUID alone.
    Uuid,
}

impl Default for CallIdFormat {
    fn default() -> (r: Self)
        ensures
            r == CallIdFormat::UuidWithSuffix,
    {
        CallIdFormat::UuidWithSuffix
    }
}

/// The Call-ID for a UUID.
pub open spec fn call_id_text(
    uuid: Seq<char>,
    suffix: Option<Seq<char>>,
    format: CallIdFormat,
) -> Seq<char> {
    match format {
        CallIdFormat::Uuid => uuid,
        CallIdFormat::UuidWithSuffix => uuid + "@"@ + match suffix {
            Some(s) => s,
            None => "restsend.com"@,
        },
    }
}

/// Builds the Call-ID for a UUID.
pub fn call_id_from(uuid: String, suffix: Option<&str>, format: CallIdFormat) -> (s: String)
    ensures
        s@ == call_id_text(
            uuid@,
            match suffix {
                Some(x) => Some(x@),
                None => None,
            },
            format,
        ),
{
    match format {
        CallIdFormat::Uuid => uuid,
        CallIdFormat::UuidWithSuffix => {
            let mut s = uuid;
            s.append("@");
            match suffix {
                Some(x) => s.append(x),
                None => s.append("restsend.com"),
            }
            s
        },
    }
}

/// A Call-ID that [`make_call_id`] can give.
pub open spec fn is_call_id(
    s: Seq<char>,
    suffix: Option<Seq<char>>,
    format: CallIdFormat,
) -> bool {
    exists|uuid: Seq<char>| is_uuid_v4(uuid) && s == #[trigger] call_id_text(uuid, suffix, format)
}

/// A new Call-ID.
pub fn make_call_id(suffix: Option<&str>, format: CallIdFormat) -> (s: String)
    ensures
        is_call_id(
            s@,
            match suffix {
                Some(x) => Some(x@),
                None => None,
            },
            format,
        ),
{
    call_id_from(make_uuid_v4(), suffix, format)
}

/// New names are drawn from letters and digits; each of the 62 has its own number.
pub proof fn law_letters_and_digits_are_drawn(n: u64, m: u64)
    ensures
        ('0' <= alphanumeric(n) <= '9') || ('a' <= alphanumeric(n) <= 'z') || ('A' <= alphanumeric(
            n,
        ) <= 'Z'),
        n < 62 && m < 62 && alphanumeric(n) == alphanumeric(m) ==> n == m,
        alphanumeric(n) == alphanumeric((n % 62) as u64),
{
}

/// A new tag is 8 letters and digits, and a new branch begins with the magic cookie
/// and has 12 letters and digits behind it.
pub proof fn law_new_names_have_their_form(tag: Seq<char>, branch: Seq<char>, i: int)
    ensures
        is_tag(tag) ==> tag.len() == 8 && (0 <= i < 8 ==> ('0' <= tag[i] <= '9') || ('a' <= tag[i]
            <= 'z') || ('A' <= tag[i] <= 'Z')),
        is_branch(branch) ==> branch.len() == 19 && branch[0] == 'z' && branch[1] == '9'
            && branch[2] == 'h' && branch[3] == 'G' && branch[4] == '4' && branch[5] == 'b'
            && branch[6] == 'K' && (7 <= i < 19 ==> ('0' <= branch[i] <= '9') || ('a'
            <= branch[i] <= 'z') || ('A' <= branch[i] <= 'Z')),
{
    reveal_strlit("z9hG4bK");
    if is_branch(branch) {
        let head = branch.take(7);
        assert(head[0] == branch[0] && head[1] == branch[1] && head[2] == branch[2] && head[3]
            == branch[3] && head[4] == branch[4] && head[5] == branch[5] && head[6]
            == branch[6]);
        if 7 <= i < 19 {
            assert(branch.skip(7)[i - 7] == branch[i]);
        }
    }
}

/// The digits of a new UUID are hexadecimal digits in lower case, with the marks of
/// version 4 in their places.
pub proof fn law_uuid_is_of_version_4(i: int, n: u64)
    ensures
        ('0' <= uuid_digit(i, n) <= '9') || ('a' <= uuid_digit(i, n) <= 'f'),
        uuid_digit(12, n) == '4',
        uuid_digit(16, n) == '8' || uuid_digit(16, n) == '9' || uuid_digit(16, n) == 'a'
            || uuid_digit(16, n) == 'b',
{
}

/// A Call-ID is a UUID, behind which the suffix stands, or else `restsend.com`,
/// unless the format asks for the UUID alone.
pub proof fn law_call_id_is_a_uuid_with_its_suffix(uuid: Seq<char>, suffix: Seq<char>)
    ensures
        call_id_text(uuid, Some(suffix), CallIdFormat::UuidWithSuffix) == uuid + "@"@ + suffix,
        call_id_text(uuid, None, CallIdFormat::UuidWithSuffix) == uuid + "@"@ + "restsend.com"@,
        call_id_text(uuid, Some(suffix), CallIdFormat::Uuid) == uuid,
        call_id_text(uuid, None, CallIdFormat::Uuid) == uuid,
{
}

}
