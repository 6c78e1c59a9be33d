//! What can be told of a certificate at a glance, for the log.

use crate::error::{Error, ErrorView};
use crate::text;
use vstd::prelude::*;
use vstd::string::*;
use vstd::utf8::*;

verus! {

/// The common name and the last day of a certificate, as far as they stand in it
/// as text.
#[derive(Debug)]
pub struct CertInfo {
    pub cn: Option<String>,
    pub expires: Option<String>,
}

#[verifier::ext_equal]
pub struct CertInfoView {
    pub cn: Option<Seq<char>>,
    pub expires: Option<Seq<char>>,
}

impl DeepView for CertInfo {
    type V = CertInfoView;

    open spec fn deep_view(&self) -> CertInfoView {
        CertInfoView { cn: self.cn.deep_view(), expires: self.expires.deep_view() }
    }
}

impl View for CertInfo {
    type V = CertInfoView;

    open spec fn view(&self) -> CertInfoView {
        self.deep_view()
    }
}

/// The text of bytes that need not be UTF-8: what
/// `std::string::String::from_utf8_lossy` gives.
pub uninterp spec fn lossy_text(bytes: Seq<u8>) -> Seq<char>;

/// The bytes that a text in Base64 stands for, if it is one: what the engine
/// `base64::engine::general_purpose::STANDARD` decodes it to.
pub uninterp spec fn base64_bytes(s: Seq<char>) -> Option<Seq<u8>>;

/// The place where `part` first stands in `s`, from `from` on.
pub open spec fn first_at(s: Seq<char>, part: Seq<char>, from: nat) -> Option<nat>
    decreases s.len() + 1 - from,
{
    if from > s.len() {
        None
    } else if text::stands_at(s, part, from as int) {
        Some(from)
    } else {
        first_at(s, part, from + 1)
    }
}

/// How many characters stand before the first that `stop` holds of.
pub open spec fn until(s: Seq<char>, stop: spec_fn(char) -> bool) -> nat
    decreases s.len(),
{
    if s.len() == 0 || stop(s[0]) {
        0
    } else {
        1 + until(s.drop_first(), stop)
    }
}

/// The number of bytes of a character in UTF-8.
pub open spec fn width(c: char) -> nat {
    if (c as u32) < 0x80 {
        1
    } else if (c as u32) < 0x800 {
        2
    } else if (c as u32) < 0x10000 {
        3
    } else {
        4
    }
}

/// The number of bytes of a text in UTF-8.
pub open spec fn total_width(s: Seq<char>) -> nat
    decreases s.len(),
{
    if s.len() == 0 {
        0
    } else {
        total_width(s.drop_last()) + width(s.last())
    }
}

/// The number of characters that make up the first `bytes` bytes, if a character
/// ends there.
pub open spec fn place_of_byte(s: Seq<char>, bytes: nat) -> Option<nat>
    decreases s.len(),
{
    if bytes == 0 {
        Some(0)
    } else if s.len() == 0 || width(s[0]) > bytes {
        None
    } else {
        match place_of_byte(s.drop_first(), (bytes - width(s[0])) as nat) {
            Some(n) => Some(n + 1),
            None => None,
        }
    }
}

pub open spec fn ends_name(c: char) -> bool {
    c == ',' || c == '/' || c == '\n'
}

/// The common name: what stands behind `CN=`, if it has 1 to 64 bytes.
pub open spec fn cn_in(s: Seq<char>) -> Option<Seq<char>> {
    match first_at(s, "CN="@, 0) {
        None => None,
        Some(i) => {
            let rest = s.skip(i as int + 3);
            let name = rest.take(until(rest, |c: char| ends_name(c)) as int);
            if name.len() > 0 && total_width(name) <= 64 {
                Some(name)
            } else {
                None
            }
        },
    }
}

pub open spec fn is_gap(c: char) -> bool {
    c == ' ' || c == '\n'
}

/// The characters that a time is written in.
pub open spec fn is_time_char(c: char) -> bool {
    '0' <= c <= '9' || 'A' <= c <= 'Z' || 'a' <= c <= 'z' || c == '+' || c == '-'
}

/// The byte behind the first gap, counted as if each character before it had one
/// byte; zero where there is no gap.
pub open spec fn time_start(s: Seq<char>) -> nat {
    let n = until(s, |c: char| is_gap(c));
    if n < s.len() {
        n + 1
    } else {
        0
    }
}

/// What stands behind `notAfter` and one byte more, from the first gap on. `None`
/// where a character does not end at one of the two places.
pub open spec fn time_text(s: Seq<char>, at: nat) -> Option<Seq<char>> {
    if at + 8 < s.len() && width(s[at as int + 8]) == 1 {
        let after = s.skip(at as int + 9);
        match place_of_byte(after, time_start(after)) {
            Some(n) => Some(after.skip(n as int)),
            None => None,
        }
    } else {
        None
    }
}

/// The time at the start of `s`: up to 14 characters where nothing else follows.
pub open spec fn time_in(s: Seq<char>) -> Option<Seq<char>> {
    let n = until(s, |c: char| !is_time_char(c));
    let end = if n < s.len() {
        n
    } else if s.len() < 14 {
        s.len()
    } else {
        14
    };
    if end > 0 {
        Some(s.take(end as int))
    } else {
        None
    }
}

/// The text of a certificate in which every place that is looked at lies between
/// two characters.
pub open spec fn is_readable(s: Seq<char>) -> bool {
    match first_at(s, "notAfter"@, 0) {
        Some(i) => time_text(s, i) is Some,
        None => true,
    }
}

/// What can be told from the text of a certificate.
pub open spec fn info_in(s: Seq<char>) -> CertInfoView {
    CertInfoView {
        cn: cn_in(s),
        expires: match first_at(s, "notAfter"@, 0) {
            Some(i) => match time_text(s, i) {
                Some(time) => time_in(time),
                None => None,
            },
            None => None,
        },
    }
}

/// What can be told of a certificate by its bytes, if its text is readable.
pub open spec fn info_of(der: Seq<u8>) -> Option<CertInfoView> {
    if is_readable(lossy_text(der)) {
        Some(info_in(lossy_text(der)))
    } else {
        None
    }
}

/// What stands between the first two lines that mark a certificate, if they
/// stand in this order.
pub open spec fn marked(s: Seq<char>) -> Option<Seq<char>> {
    match (
        first_at(s, "-----BEGIN CERTIFICATE-----"@, 0),
        first_at(s, "-----END CERTIFICATE-----"@, 0),
    ) {
        (Some(from), Some(to)) => if from + 27 <= to {
            Some(s.subrange(from as int + 27, to as int))
        } else {
            None
        },
        _ => None,
    }
}

/// Reads bytes as text: `std::string::String::from_utf8_lossy`.
///
/// What is believed: the text depends on the bytes alone, and is the one that
/// they encode if they are UTF-8.
#[verifier::external_body]
fn read_lossy(bytes: &Vec<u8>) -> (s: String)
    ensures
        s@ == lossy_text(bytes@),
        valid_utf8(bytes@) ==> s@ == decode_utf8(bytes@),
{
    String::from_utf8_lossy(bytes).into_owned()
}

/// Decodes Base64: the method `decode` of
/// `base64::engine::general_purpose::STANDARD`.
///
/// What is believed: what it gives depends on the text alone.
#[verifier::external_body]
fn decode_base64(s: &String) -> (r: Option<Vec<u8>>)
    ensures
        match r {
            Some(v) => base64_bytes(s@) == Some(v@),
            None => base64_bytes(s@) is None,
        },
{
    base64::Engine::decode(&base64::engine::general_purpose::STANDARD, s).ok()
}

fn find(s: &Vec<char>, part: &str) -> (r: Option<usize>)
    ensures
        match r {
            Some(i) => first_at(s@, part@, 0) == Some(i as nat) && i + part@.len() <= s.len(),
            None => first_at(s@, part@, 0) is None,
        },
{
    let p = text::chars_of(part);
    let mut i: usize = 0;
    loop
        invariant
            i <= s.len(),
            p@ == part@,
            first_at(s@, part@, 0) == first_at(s@, part@, i as nat),
        decreases s.len() - i,
    {
        if text::matches_at(s, &p, i) {
            return Some(i);
        }
        if i == s.len() {
            assert(first_at(s@, part@, (i + 1) as nat) is None);
            return None;
        }
        i = i + 1;
    }
}

fn find_name_end(s: &Vec<char>) -> (n: usize)
    ensures
        n == until(s@, |c: char| ends_name(c)),
        n <= s.len(),
{
    let ghost stop = |c: char| ends_name(c);
    let mut n: usize = 0;
    assert(s@.skip(0) == s@);
    while n < s.len() && s[n] != ',' && s[n] != '/' && s[n] != '\n'
        invariant
            n <= s.len(),
            stop == (|c: char| ends_name(c)),
            until(s@, stop) == n + until(s@.skip(n as int), stop),
        decreases s.len() - n,
    {
        assert(s@.skip(n as int).drop_first() == s@.skip(n + 1));
        n = n + 1;
    }
    n
}

fn find_gap(s: &Vec<char>) -> (n: usize)
    ensures
        n == until(s@, |c: char| is_gap(c)),
        n <= s.len(),
{
    let ghost stop = |c: char| is_gap(c);
    let mut n: usize = 0;
    assert(s@.skip(0) == s@);
    while n < s.len() && s[n] != ' ' && s[n] != '\n'
        invariant
            n <= s.len(),
            stop == (|c: char| is_gap(c)),
            until(s@, stop) == n + until(s@.skip(n as int), stop),
        decreases s.len() - n,
    {
        assert(s@.skip(n as int).drop_first() == s@.skip(n + 1));
        n = n + 1;
    }
    n
}

fn is_part_of_time(c: char) -> (r: bool)
    ensures
        r == is_time_char(c),
{
    ('0' <= c && c <= '9') || ('A' <= c && c <= 'Z') || ('a' <= c && c <= 'z') || c == '+' || c
        == '-'
}

fn find_time_end(s: &Vec<char>) -> (n: usize)
    ensures
        n == until(s@, |c: char| !is_time_char(c)),
        n <= s.len(),
{
    let ghost stop = |c: char| !is_time_char(c);
    let mut n: usize = 0;
    assert(s@.skip(0) == s@);
    while n < s.len() && is_part_of_time(s[n])
        invariant
            n <= s.len(),
            stop == (|c: char| !is_time_char(c)),
            until(s@, stop) == n + until(s@.skip(n as int), stop),
        decreases s.len() - n,
    {
        assert(s@.skip(n as int).drop_first() == s@.skip(n + 1));
        n = n + 1;
    }
    n
}

fn width_of(c: char) -> (n: usize)
    ensures
        n == width(c),
{
    let code: u32 = c as u32;
    if code < 0x80 {
        1
    } else if code < 0x800 {
        2
    } else if code < 0x10000 {
        3
    } else {
        4
    }
}

proof fn lemma_width_grows(s: Seq<char>, n: int)
    requires
        0 <= n <= s.len(),
    ensures
        total_width(s.take(n)) <= total_width(s),
    decreases s.len() - n,
{
    if n < s.len() {
        assert(s.take(n + 1).drop_last() == s.take(n));
        lemma_width_grows(s, n + 1);
    } else {
        assert(s.take(n) == s);
    }
}

fn is_at_most(s: &Vec<char>, limit: usize) -> (r: bool)
    requires
        limit <= 1000,
    ensures
        r == (total_width(s@) <= limit),
{
    let mut sum: usize = 0;
    let mut i: usize = 0;
    while i < s.len()
        invariant
            i <= s.len(),
            sum <= limit <= 1000,
            sum == total_width(s@.take(i as int)),
        decreases s.len() - i,
    {
        assert(s@.take(i + 1).drop_last() == s@.take(i as int));
        sum = sum + width_of(s[i]);
        if sum > limit {
            proof {
                lemma_width_grows(s@, i + 1);
            }
            return false;
        }
        i = i + 1;
    }
    assert(s@.take(i as int) == s@);
    true
}

fn find_byte(s: &Vec<char>, bytes: usize) -> (r: Option<usize>)
    ensures
        match r {
            Some(n) => place_of_byte(s@, bytes as nat) == Some(n as nat) && n <= s.len(),
            None => place_of_byte(s@, bytes as nat) is None,
        },
{
    let mut left: usize = bytes;
    let mut n: usize = 0;
    assert(s@.skip(0) == s@);
    while left > 0
        invariant
            n <= s.len(),
            place_of_byte(s@, bytes as nat) == (match place_of_byte(
                s@.skip(n as int),
                left as nat,
            ) {
                Some(k) => Some(n as nat + k),
                None => None,
            }),
        decreases left,
    {
        if n == s.len() {
            return None;
        }
        assert(s@.skip(n as int).drop_first() == s@.skip(n + 1));
        let w: usize = width_of(s[n]);
        if w > left {
            return None;
        }
        left = left - w;
        n = n + 1;
    }
    Some(n)
}

fn read_cn(s: &Vec<char>) -> (r: Option<String>)
    ensures
        r.deep_view() == cn_in(s@),
{
    let Some(i) = find(s, "CN=") else {
        return None;
    };
    proof {
        reveal_strlit("CN=");
    }
    let rest = text::part_of(s, i + 3, s.len());
    assert(rest@ == s@.skip(i + 3));
    let end: usize = find_name_end(&rest);
    let name = text::part_of(&rest, 0, end);
    assert(name@ == rest@.take(end as int));
    if name.len() > 0 && is_at_most(&name, 64) {
        Some(text::text_of(&name))
    } else {
        None
    }
}

fn read_time_text(s: &Vec<char>, at: usize) -> (r: Option<Vec<char>>)
    requires
        at + 8 <= s.len(),
    ensures
        match r {
            Some(v) => time_text(s@, at as nat) == Some(v@),
            None => time_text(s@, at as nat) is None,
        },
{
    if at + 8 == s.len() || width_of(s[at + 8]) != 1 {
        return None;
    }
    let after = text::part_of(s, at + 9, s.len());
    assert(after@ == s@.skip(at + 9));
    let gap: usize = find_gap(&after);
    let start: usize = if gap < after.len() {
        gap + 1
    } else {
        0
    };
    match find_byte(&after, start) {
        Some(n) => {
            let time = text::part_of(&after, n, after.len());
            assert(time@ == after@.skip(n as int));
            Some(time)
        },
        None => None,
    }
}

fn read_time(s: &Vec<char>) -> (r: Option<String>)
    ensures
        r.deep_view() == time_in(s@),
{
    let n: usize = find_time_end(s);
    let end: usize = if n < s.len() {
        n
    } else if s.len() < 14 {
        s.len()
    } else {
        14
    };
    if end > 0 {
        let time = text::part_of(s, 0, end);
        assert(time@ == s@.take(end as int));
        Some(text::text_of(&time))
    } else {
        None
    }
}

/// Tells what stands in the text of a certificate.
pub fn parse_cert_text(s: &Vec<char>) -> (r: CertInfo)
    requires
        is_readable(s@),
    ensures
        r@ == info_in(s@),
{
    let cn = read_cn(s);
    let expires = match find(s, "notAfter") {
        Some(i) => {
            proof {
                reveal_strlit("notAfter");
            }
            match read_time_text(s, i) {
                Some(time) => read_time(&time),
                None => None,
            }
        },
        None => None,
    };
    CertInfo { cn, expires }
}

/// Tests whether every place that is looked at lies between two characters.
pub fn can_parse(s: &Vec<char>) -> (r: bool)
    ensures
        r == is_readable(s@),
{
    match find(s, "notAfter") {
        Some(i) => {
            proof {
                reveal_strlit("notAfter");
            }
            read_time_text(s, i).is_some()
        },
        None => true,
    }
}

/// Tells what stands in a certificate, if its text is readable.
pub fn parse_cert_info(der: &Vec<u8>) -> (r: Result<CertInfo, Error>)
    ensures
        match r {
            Ok(info) => info_of(der@) == Some(info@),
            Err(e) => info_of(der@) is None && e@ == ErrorView::Error("unreadable certificate"@),
        },
{
    let s = text::chars_of(read_lossy(der).as_str());
    if can_parse(&s) {
        Ok(parse_cert_text(&s))
    } else {
        Err(Error::Error("unreadable certificate".to_owned()))
    }
}

/// The bytes of a text in Base64, without the white space around it.
pub fn base64_decode(input: &Vec<char>) -> (r: Option<Vec<u8>>)
    ensures
        match r {
            Some(v) => base64_bytes(text::trimmed(input@)) == Some(v@),
            None => base64_bytes(text::trimmed(input@)) is None,
        },
{
    decode_base64(&text::text_of(&text::trim(input)))
}

/// Finds the marked part of a text.
pub fn find_marked(s: &Vec<char>) -> (r: Option<Vec<char>>)
    ensures
        match r {
            Some(v) => marked(s@) == Some(v@),
            None => marked(s@) is None,
        },
{
    let Some(from) = find(s, "-----BEGIN CERTIFICATE-----") else {
        return None;
    };
    let Some(to) = find(s, "-----END CERTIFICATE-----") else {
        return None;
    };
    proof {
        reveal_strlit("-----BEGIN CERTIFICATE-----");
    }
    if from + 27 <= to {
        Some(text::part_of(s, from + 27, to))
    } else {
        None
    }
}

/// What can be told of the certificate in a PEM file.
pub open spec fn info_of_pem(pem: Seq<u8>) -> Option<CertInfoView> {
    match marked(lossy_text(pem)) {
        Some(body) => match base64_bytes(text::trimmed(body)) {
            Some(der) => info_of(der),
            None => None,
        },
        None => None,
    }
}

impl CertInfo {
    /// Tells what stands in the certificate of a PEM file.
    pub fn from_pem(pem_data: &Vec<u8>) -> (r: Option<CertInfo>)
        ensures
            r.deep_view() == info_of_pem(pem_data@),
    {
        let s = text::chars_of(read_lossy(pem_data).as_str());
        let Some(body) = find_marked(&s) else {
            return None;
        };
        let Some(der) = base64_decode(&body) else {
            return None;
        };
        match parse_cert_info(&der) {
            Ok(info) => Some(info),
            Err(_) => None,
        }
    }
}

/// What the log says of a certificate: its name and its last day.
pub open spec fn log_texts(info: Option<CertInfoView>) -> (Seq<char>, Seq<char>) {
    (
        "SNI/CN="@ + match info {
            Some(CertInfoView { cn: Some(cn), .. }) => cn,
            _ => "unknown"@,
        },
        "expires="@ + match info {
            Some(CertInfoView { expires: Some(e), .. }) => e,
            _ => "unknown"@,
        },
    )
}

/// Writes what the log says of a certificate.
pub fn describe(info: &Option<CertInfo>) -> (r: (String, String))
    ensures
        (r.0@, r.1@) == log_texts(info.deep_view()),
{
    let mut name = "SNI/CN=".to_owned();
    let mut day = "expires=".to_owned();
    match info {
        Some(CertInfo { cn: Some(cn), .. }) => name.append(cn.as_str()),
        _ => name.append("unknown"),
    }
    match info {
        Some(CertInfo { expires: Some(e), .. }) => day.append(e.as_str()),
        _ => day.append("unknown"),
    }
    (name, day)
}

proof fn lemma_first_at(s: Seq<char>, part: Seq<char>, from: nat, i: nat)
    requires
        from <= i <= s.len(),
        text::stands_at(s, part, i as int),
        forall|j: nat| from <= j < i ==> !#[trigger] text::stands_at(s, part, j as int),
    ensures
        first_at(s, part, from) == Some(i),
    decreases i - from,
{
    if from < i {
        assert(!text::stands_at(s, part, from as int));
        lemma_first_at(s, part, from + 1, i);
    }
}

proof fn lemma_until(s: Seq<char>, stop: spec_fn(char) -> bool, n: nat)
    requires
        n <= s.len(),
        forall|j: int| 0 <= j < n ==> !stop(#[trigger] s[j]),
        n < s.len() ==> stop(s[n as int]),
    ensures
        until(s, stop) == n,
    decreases n,
{
    if n > 0 {
        assert(!stop(s[0]));
        let rest = s.drop_first();
        assert forall|j: int| 0 <= j < n - 1 implies !stop(#[trigger] rest[j]) by {
            assert(rest[j] == s[j + 1]);
        }
        lemma_until(rest, stop, (n - 1) as nat);
    }
}

/// The common name is what stands behind the first `CN=`, up to a comma, a slash,
/// the end of the line or the end of the text, if it is not empty and not too long.
pub proof fn law_common_name_is_found(s: Seq<char>, i: nat, k: nat)
    requires
        i + 3 <= k <= s.len(),
        text::stands_at(s, "CN="@, i as int),
        forall|j: nat| j < i ==> !#[trigger] text::stands_at(s, "CN="@, j as int),
        forall|j: int| i + 3 <= j < k ==> #[trigger] s[j] != ',' && s[j] != '/' && s[j] != '\n',
        k < s.len() ==> s[k as int] == ',' || s[k as int] == '/' || s[k as int] == '\n',
    ensures
        ({
            let name = s.subrange(i as int + 3, k as int);
            cn_in(s) == if name.len() > 0 && total_width(name) <= 64 {
                Some(name)
            } else {
                None
            }
        }),
{
    lemma_first_at(s, "CN="@, 0, i);
    let rest = s.skip(i as int + 3);
    let n = (k - i - 3) as nat;
    assert forall|j: int| 0 <= j < n implies !ends_name(#[trigger] rest[j]) by {
        assert(rest[j] == s[j + i + 3]);
    }
    lemma_until(rest, |c: char| ends_name(c), n);
    assert(rest.take(n as int) == s.subrange(i as int + 3, k as int));
}

/// A certificate lies between the first two lines that mark its begin and its end.
pub proof fn law_certificate_lies_between_its_marks(s: Seq<char>, i: nat, k: nat)
    requires
        text::stands_at(s, "-----BEGIN CERTIFICATE-----"@, i as int),
        forall|j: nat|
            j < i ==> !#[trigger] text::stands_at(s, "-----BEGIN CERTIFICATE-----"@, j as int),
        text::stands_at(s, "-----END CERTIFICATE-----"@, k as int),
        forall|j: nat|
            j < k ==> !#[trigger] text::stands_at(s, "-----END CERTIFICATE-----"@, j as int),
    ensures
        marked(s) == if i + "-----BEGIN CERTIFICATE-----"@.len() <= k {
            Some(s.subrange(i as int + "-----BEGIN CERTIFICATE-----"@.len(), k as int))
        } else {
            None
        },
{
    reveal_strlit("-----BEGIN CERTIFICATE-----");
    lemma_first_at(s, "-----BEGIN CERTIFICATE-----"@, 0, i);
    lemma_first_at(s, "-----END CERTIFICATE-----"@, 0, k);
}

/// The log names a certificate by its common name and its last day, or says that
/// they are unknown.
pub proof fn law_log_names_the_certificate(cn: Option<Seq<char>>, expires: Option<Seq<char>>)
    ensures
        ({
            let (name, day) = log_texts(Some(CertInfoView { cn, expires }));
            &&& cn matches Some(c) ==> name == "SNI/CN="@ + c
            &&& cn is None ==> name == "SNI/CN="@ + "unknown"@
            &&& expires matches Some(e) ==> day == "expires="@ + e
            &&& expires is None ==> day == "expires="@ + "unknown"@
        }),
        log_texts(None) == ("SNI/CN="@ + "unknown"@, "expires="@ + "unknown"@),
{
}

/// The time at the start of a text is what is made of digits, letters and signs
/// alone, up to the first other character.
pub proof fn law_time_ends_at_the_first_other_character(s: Seq<char>, n: nat)
    requires
        0 < n < s.len(),
        forall|j: int|
            0 <= j < n ==> ('0' <= #[trigger] s[j] <= '9' || 'A' <= s[j] <= 'Z' || 'a' <= s[j]
                <= 'z' || s[j] == '+' || s[j] == '-'),
        !('0' <= s[n as int] <= '9' || 'A' <= s[n as int] <= 'Z' || 'a' <= s[n as int] <= 'z'
            || s[n as int] == '+' || s[n as int] == '-'),
    ensures
        time_in(s) == Some(s.take(n as int)),
{
    lemma_until(s, |c: char| !is_time_char(c), n);
}

proof fn lemma_place_in_ascii(s: Seq<char>, n: nat)
    requires
        n <= s.len(),
        forall|j: int| 0 <= j < n ==> (#[trigger] s[j] as u32) < 0x80,
    ensures
        place_of_byte(s, n) == Some(n),
    decreases n,
{
    if n > 0 {
        let rest = s.drop_first();
        assert((s[0] as u32) < 0x80);
        assert forall|j: int| 0 <= j < n - 1 implies (#[trigger] rest[j] as u32) < 0x80 by {
            assert(rest[j] == s[j + 1]);
        }
        lemma_place_in_ascii(rest, (n - 1) as nat);
    }
}

/// The last day of a certificate is what is written in digits, letters and signs
/// behind the first gap after `notAfter` and one more character.
pub proof fn law_last_day_is_found(s: Seq<char>, i: nat, gap: nat, end: nat)
    requires
        text::stands_at(s, "notAfter"@, i as int),
        forall|j: nat| j < i ==> !#[trigger] text::stands_at(s, "notAfter"@, j as int),
        i + 9 <= gap < end < s.len(),
        (s[i as int + 8] as u32) < 0x80,
        forall|j: int|
            i + 9 <= j < gap ==> (#[trigger] s[j] as u32) < 0x80 && s[j] != ' ' && s[j] != '\n',
        s[gap as int] == ' ' || s[gap as int] == '\n',
        gap + 1 < end,
        forall|j: int|
            gap < j < end ==> ('0' <= #[trigger] s[j] <= '9' || 'A' <= s[j] <= 'Z' || 'a' <= s[j]
                <= 'z' || s[j] == '+' || s[j] == '-'),
        !('0' <= s[end as int] <= '9' || 'A' <= s[end as int] <= 'Z' || 'a' <= s[end as int]
            <= 'z' || s[end as int] == '+' || s[end as int] == '-'),
    ensures
        info_in(s).expires == Some(s.subrange(gap as int + 1, end as int)),
{
    lemma_first_at(s, "notAfter"@, 0, i);
    let after = s.skip(i as int + 9);
    let n = (gap - i - 9) as nat;
    assert forall|j: int| 0 <= j < n implies !is_gap(#[trigger] after[j]) by {
        assert(after[j] == s[j + i + 9]);
    }
    assert(after[n as int] == s[gap as int]);
    lemma_until(after, |c: char| is_gap(c), n);
    assert forall|j: int| 0 <= j < n + 1 implies (#[trigger] after[j] as u32) < 0x80 by {
        assert(after[j] == s[j + i + 9]);
    }
    lemma_place_in_ascii(after, n + 1);
    let time = after.skip(n as int + 1);
    let m = (end - gap - 1) as nat;
    assert forall|j: int| 0 <= j < m implies is_time_char(#[trigger] time[j]) by {
        assert(time[j] == s[j + gap + 1]);
    }
    assert(time[m as int] == s[end as int]);
    law_time_ends_at_the_first_other_character(time, m);
    assert(time.take(m as int) == s.subrange(gap as int + 1, end as int));
}

/// What is told of a certificate in a PEM file is what its text tells, once the
/// marks and the white space round it are taken off and it is decoded.
pub proof fn law_certificate_is_read_from_its_file(pem: Seq<u8>, body: Seq<char>, der: Seq<u8>)
    requires
        marked(lossy_text(pem)) == Some(body),
        base64_bytes(text::trimmed(body)) == Some(der),
        is_readable(lossy_text(der)),
    ensures
        info_of_pem(pem) matches Some(info) && info.cn == cn_in(lossy_text(der)) && info_of(der)
            == Some(info),
{
}

/// A time that nothing follows has at most 14 characters.
pub proof fn law_time_at_the_end_of_the_text(s: Seq<char>)
    requires
        s.len() > 0,
        forall|j: int|
            0 <= j < s.len() ==> ('0' <= #[trigger] s[j] <= '9' || 'A' <= s[j] <= 'Z' || 'a' <= s[j]
                <= 'z' || s[j] == '+' || s[j] == '-'),
    ensures
        s.len() <= 14 ==> time_in(s) == Some(s),
        s.len() > 14 ==> time_in(s) == Some(s.take(14)),
{
    lemma_until(s, |c: char| !is_time_char(c), s.len());
    assert(s.take(s.len() as int) == s);
}

}
