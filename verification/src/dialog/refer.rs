//! How a REFER goes on, as its NOTIFY requests tell.

use crate::lists;
use crate::sip::header::{Header, HeaderView};
use crate::sip::message::{Request, RequestView};
use crate::sip::status;
use crate::sip::status::StatusCode;
use crate::text;
use vstd::prelude::*;
use vstd::string::*;
use vstd::utf8::*;

verus! {

/// What a NOTIFY says of a REFER.
#[derive(Clone, Copy, Debug, PartialEq, Eq, Structural)]
pub struct ReferStatus {
    pub status_code: StatusCode,
    pub is_terminated: bool,
}

/// The value of a header that the library has no type for.
pub open spec fn as_other(h: HeaderView, name: Seq<char>) -> Option<Seq<char>> {
    match h {
        HeaderView::Other(n, value) if text::same_ignoring_case(n, name) => Some(value),
        _ => None,
    }
}

pub open spec fn other_value(headers: Seq<HeaderView>, name: Seq<char>) -> Option<Seq<char>> {
    lists::first_of(headers, |h: HeaderView| as_other(h, name))
}

/// Where the first line of a text ends.
pub open spec fn line_end(s: Seq<char>) -> nat
    decreases s.len(),
{
    if s.len() == 0 || s[0] == '\n' {
        0
    } else {
        1 + line_end(s.drop_first())
    }
}

proof fn lemma_line_end(s: Seq<char>)
    ensures
        line_end(s) <= s.len(),
        forall|i: int| 0 <= i < line_end(s) ==> s[i] != '\n',
        line_end(s) < s.len() ==> s[line_end(s) as int] == '\n',
    decreases s.len(),
{
    if s.len() > 0 && s[0] != '\n' {
        lemma_line_end(s.drop_first());
        assert forall|i: int| 0 <= i < line_end(s) implies s[i] != '\n' by {
            if i > 0 {
                assert(s[i] == s.drop_first()[i - 1]);
            }
        }
    }
}

/// The first line that begins with `start`.
pub open spec fn line_with(s: Seq<char>, start: Seq<char>) -> Option<Seq<char>>
    decreases s.len(),
{
    let line = s.take(line_end(s) as int);
    if text::stands_at(line, start, 0) {
        Some(line)
    } else if line_end(s) < s.len() {
        line_with(s.skip(line_end(s) as int + 1), start)
    } else {
        None
    }
}

/// The status in a status line: its second word.
pub open spec fn status_in_line(line: Seq<char>) -> Option<StatusCode> {
    match text::first_word(line) {
        Some((_, rest)) => match text::first_word(rest) {
            Some((code, _)) => match text::number_in(code, u16::MAX as nat) {
                Some(n) => Some(status::status_of(n as u16)),
                None => None,
            },
            None => None,
        },
        None => None,
    }
}

/// The status that a body tells in its first status line.
pub open spec fn status_in_body(body: Seq<u8>) -> Option<StatusCode> {
    if valid_utf8(body) {
        match line_with(decode_utf8(body), "SIP/2.0"@) {
            Some(line) => status_in_line(line),
            None => None,
        }
    } else {
        None
    }
}

/// What a NOTIFY says of a REFER: it needs an Event that speaks of one, a
/// Subscription-State, and a status line in the body.
pub open spec fn refer_status(req: RequestView) -> Option<ReferStatus> {
    match (
        other_value(req.headers, "event"@),
        other_value(req.headers, "subscription-state"@),
        status_in_body(req.body),
    ) {
        (Some(event), Some(state), Some(status_code)) => if text::contains_ignoring_case(
            event,
            "refer"@,
        ) {
            Some(
                ReferStatus {
                    status_code,
                    is_terminated: text::contains_ignoring_case(state, "terminated"@),
                },
            )
        } else {
            None
        },
        _ => None,
    }
}

/// The body that tells a status: a status line.
pub open spec fn status_line(status: StatusCode) -> Seq<char> {
    "SIP/2.0 "@ + text::number_text(status.spec_code() as nat) + " "@ + status.spec_name()
}

/// Reads bytes as UTF-8: `std::str::from_utf8`.
///
/// What is believed: it succeeds on exactly the bytes that are valid UTF-8, and
/// the text that it gives is the one that they encode.
#[verifier::external_body]
fn text_in(bytes: &Vec<u8>) -> (r: Option<String>)
    ensures
        match r {
            Some(s) => valid_utf8(bytes@) && s@ == decode_utf8(bytes@),
            None => !valid_utf8(bytes@),
        },
{
    match std::str::from_utf8(bytes) {
        Ok(s) => Some(s.to_owned()),
        Err(_) => None,
    }
}

fn find_other(headers: &Vec<Header>, name: &str) -> (r: Option<String>)
    ensures
        r.deep_view() == other_value(headers.deep_view(), name@),
{
    let ghost all = headers.deep_view();
    let ghost pick = |h: HeaderView| as_other(h, name@);
    let mut i: usize = 0;
    assert(all.skip(0) == all);
    while i < headers.len()
        invariant
            i <= headers.len(),
            all == headers.deep_view(),
            pick == (|h: HeaderView| as_other(h, name@)),
            lists::first_of(all.skip(i as int), pick) == lists::first_of(all, pick),
        decreases headers.len() - i,
    {
        proof {
            lists::lemma_first_of_step(all, i as int, pick);
        }
        if let Header::Other(n, value) = &headers[i] {
            if text::eq_ignore_ascii_case(n.as_str(), name) {
                return Some(value.clone());
            }
        }
        i = i + 1;
    }
    None
}

fn find_line_end(s: &Vec<char>, from: usize) -> (n: usize)
    requires
        from <= s.len(),
    ensures
        from <= n <= s.len(),
        n - from == line_end(s@.skip(from as int)),
{
    let mut i: usize = from;
    while i < s.len() && s[i] != '\n'
        invariant
            from <= i <= s.len(),
            line_end(s@.skip(from as int)) == (i - from) + line_end(s@.skip(i as int)),
        decreases s.len() - i,
    {
        assert(s@.skip(i as int).drop_first() == s@.skip(i + 1));
        i = i + 1;
    }
    i
}

fn find_line(s: &Vec<char>, start: &Vec<char>) -> (r: Option<Vec<char>>)
    ensures
        match r {
            Some(line) => line_with(s@, start@) == Some(line@),
            None => line_with(s@, start@) is None,
        },
{
    let mut from: usize = 0;
    assert(s@.skip(0) == s@);
    loop
        invariant
            from <= s.len(),
            line_with(s@.skip(from as int), start@) == line_with(s@, start@),
        decreases s.len() - from,
    {
        let to: usize = find_line_end(s, from);
        let line = text::part_of(s, from, to);
        assert(line@ == s@.skip(from as int).take(to - from));
        if text::matches_at(&line, start, 0) {
            return Some(line);
        }
        if to >= s.len() {
            return None;
        }
        assert(s@.skip(from as int).skip(to - from + 1) == s@.skip(to + 1));
        from = to + 1;
    }
}

fn read_status(line: &Vec<char>) -> (r: Option<StatusCode>)
    ensures
        r == status_in_line(line@),
{
    let Some((_, rest)) = text::take_word(line) else {
        return None;
    };
    let Some((code, _)) = text::take_word(&rest) else {
        return None;
    };
    match text::parse_number(&code, 65535) {
        Some(n) => Some(StatusCode::from_code(n as u16)),
        None => None,
    }
}

impl ReferStatus {
    /// Reads what a NOTIFY says of a REFER.
    pub fn parse(req: &Request) -> (r: Option<ReferStatus>)
        ensures
            r == refer_status(req@),
    {
        let Some(event) = find_other(&req.headers, "event") else {
            return None;
        };
        if !text::contains_ignore_ascii_case(event.as_str(), "refer") {
            return None;
        }
        let Some(state) = find_other(&req.headers, "subscription-state") else {
            return None;
        };
        let is_terminated = text::contains_ignore_ascii_case(state.as_str(), "terminated");
        let Some(body) = text_in(&req.body) else {
            return None;
        };
        let chars = text::chars_of(body.as_str());
        let start = text::chars_of("SIP/2.0");
        let Some(line) = find_line(&chars, &start) else {
            return None;
        };
        match read_status(&line) {
            Some(status_code) => Some(ReferStatus { status_code, is_terminated }),
            None => None,
        }
    }
}

/// The body that tells a status.
pub fn status_body(status: StatusCode) -> (body: Vec<u8>)
    ensures
        body@ == encode_utf8(status_line(status)),
{
    let mut s = "SIP/2.0 ".to_owned();
    s.append(text::number_to_text(status.code() as u32).as_str());
    s.append(" ");
    s.append(status.name().as_str());
    assert(s@ == status_line(status));
    s.as_str().as_bytes_vec()
}


proof fn lemma_number_text(n: nat)
    ensures
        text::all_digits(text::number_text(n)),
        text::decimal(text::number_text(n)) == n,
    decreases n,
{
    let s = text::number_text(n);
    if n >= 10 {
        lemma_number_text(n / 10);
        assert(s.drop_last() == text::number_text(n / 10));
    } else {
        assert(s.drop_last() == Seq::<char>::empty());
        assert(text::decimal(s.drop_last()) == 0);
    }
}

proof fn lemma_word(word: Seq<char>, rest: Seq<char>)
    requires
        forall|i: int| 0 <= i < word.len() ==> !text::is_space(#[trigger] word[i]),
        rest.len() > 0 && text::is_space(rest[0]),
    ensures
        text::leading_word(word + rest) == word.len(),
    decreases word.len(),
{
    if word.len() == 0 {
        assert(word + rest == rest);
    } else {
        assert((word + rest).drop_first() == word.drop_first() + rest);
        lemma_word(word.drop_first(), rest);
    }
}

/// The body that tells a status is read back as that status, if the status is
/// written by its name where it has one.
pub proof fn law_status_body_is_read_back(status: StatusCode)
    requires
        status.wf(),
    ensures
        status_in_body(encode_utf8(status_line(status))) == Some(status),
{
    let s = status_line(status);
    encode_utf8_decode_utf8(s);
    encode_utf8_valid_utf8(s);
    reveal_strlit("SIP/2.0");
    reveal_strlit("SIP/2.0 ");
    reveal_strlit(" ");
    let num = text::number_text(status.spec_code() as nat);
    lemma_number_text(status.spec_code() as nat);
    let start = "SIP/2.0"@;
    let head = "SIP/2.0 "@ + num + " "@;
    assert(s == head + status.spec_name());
    lemma_line_end(s);
    let e = line_end(s) as int;
    if e < head.len() {
        assert(s[e] == head[e]);
        if e >= 8 && e < 8 + num.len() {
            assert(head[e] == num[e - 8]);
            assert(text::is_digit(num[e - 8]));
        }
        assert(false);
    }
    let line = s.take(e);
    assert(line.subrange(0, 7) == start);
    let tail = line.skip(head.len() as int);
    let after = " "@ + num + " "@ + tail;
    assert(line == start + after);
    lemma_word(start, after);
    assert(text::leading_space(line) == 0);
    assert(line.skip(0) == line);
    assert(line.take(7) == start);
    assert(line.skip(7) == after);
    let end = " "@ + tail;
    assert(after.drop_first() == num + end);
    assert(text::is_digit(num[0]));
    assert(text::leading_space(after.drop_first()) == 0);
    assert(text::leading_space(after) == 1);
    assert(after.skip(1) == num + end);
    assert forall|i: int| 0 <= i < num.len() implies !text::is_space(#[trigger] num[i]) by {
        assert(text::is_digit(num[i]));
    }
    lemma_word(num, end);
    assert((num + end).take(num.len() as int) == num);
    assert(text::without_plus(num) == num);
}

}
