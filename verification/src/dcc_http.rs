//! One HTTP/1.1 exchange over a loopback connection: the request's head, when
//! a response is complete, and what it says.

use crate::text::{
    char_is_space, chars_of, decimal_text, join2, text_eq_ignoring_case, trim_start_text,
    trim_text,
};
#[allow(unused_imports)]
use crate::text::{decimal, is_digit, is_space, same_ignoring_case, trim_left, trimmed};
use vstd::prelude::*;
use vstd::string::*;

verus! {

/// What a response says.
#[derive(Debug)]
pub struct HttpResponse {
    pub status: u16,
    pub body: Vec<u8>,
}

/// What `String::from_utf8_lossy` makes of bytes.
pub uninterp spec fn lossy_text(bytes: Seq<u8>) -> Seq<char>;

/// Decodes bytes with `String::from_utf8_lossy`. The result is named
/// `lossy_text` of the bytes.
#[verifier::external_body]
pub(crate) fn decode_lossy(bytes: &Vec<u8>) -> (r: String)
    ensures
        r@ == lossy_text(bytes@),
{
    String::from_utf8_lossy(bytes).into_owned()
}

/// A blank line stands at `at`.
pub open spec fn ends_headers(raw: Seq<u8>, at: int) -> bool {
    &&& at + 4 <= raw.len()
    &&& raw[at] == 13
    &&& raw[at + 1] == 10
    &&& raw[at + 2] == 13
    &&& raw[at + 3] == 10
}

/// Where the body starts, behind the first blank line from `at` on.
pub open spec fn body_start(raw: Seq<u8>, at: int) -> Option<int>
    decreases raw.len() - at,
{
    if at + 4 > raw.len() {
        None
    } else if ends_headers(raw, at) {
        Some(at + 4)
    } else {
        body_start(raw, at + 1)
    }
}

/// The first place of a character from `at` on, or the text's length.
pub open spec fn place_of(text: Seq<char>, c: char, at: int) -> int
    decreases text.len() - at,
{
    if at >= text.len() || text[at] == c {
        at
    } else {
        place_of(text, c, at + 1)
    }
}

/// A line without the carriage return before its end.
pub open spec fn without_return(line: Seq<char>) -> Seq<char> {
    if line.len() > 0 && line.last() == '\r' {
        line.drop_last()
    } else {
        line
    }
}

/// The lines of a text, from `at` on. A line ends with a line feed, which a
/// carriage return may precede; the last line needs no end.
pub open spec fn lines_from(text: Seq<char>, at: int) -> Seq<Seq<char>>
    decreases text.len() - at,
    when 0 <= at
    via lines_from_ends
{
    if at >= text.len() {
        Seq::empty()
    } else {
        let end = place_of(text, '\n', at);
        if end >= text.len() {
            seq![text.subrange(at, text.len() as int)]
        } else {
            seq![without_return(text.subrange(at, end))] + lines_from(text, end + 1)
        }
    }
}

#[via_fn]
proof fn lines_from_ends(text: Seq<char>, at: int) {
    if at < text.len() {
        lemma_place(text, '\n', at);
    }
}

proof fn lemma_place(text: Seq<char>, c: char, at: int)
    requires
        0 <= at <= text.len(),
    ensures
        at <= place_of(text, c, at) <= text.len(),
        place_of(text, c, at) < text.len() ==> text[place_of(text, c, at)] == c,
        forall|i: int| at <= i < place_of(text, c, at) ==> #[trigger] text[i] != c,
    decreases text.len() - at,
{
    if at < text.len() && text[at] != c {
        lemma_place(text, c, at + 1);
    }
}

/// The value of a run of digits.
pub open spec fn digits_value(digits: Seq<char>) -> nat
    decreases digits.len(),
{
    if digits.len() == 0 {
        0
    } else {
        digits_value(digits.drop_last()) * 10 + ((digits.last() as int - '0' as int) as nat)
    }
}

/// Nothing but digits, and at least one.
pub open spec fn is_number(text: Seq<char>) -> bool {
    text.len() > 0 && forall|i: int| 0 <= i < text.len() ==> is_digit(#[trigger] text[i])
}

/// The unsigned number a text stands for, with an optional plus sign.
pub open spec fn number_in(text: Seq<char>) -> Option<nat> {
    let digits = if text.len() > 0 && text[0] == '+' {
        text.drop_first()
    } else {
        text
    };
    if is_number(digits) {
        Some(digits_value(digits))
    } else {
        None
    }
}

/// The length a header line gives, where it is the one about the content.
pub open spec fn length_in(line: Seq<char>) -> Option<nat> {
    let colon = place_of(line, ':', 0);
    if colon >= line.len() {
        None
    } else if same_ignoring_case(trimmed(line.take(colon)), "content-length"@) {
        match number_in(trimmed(line.skip(colon + 1))) {
            Some(n) => if n <= usize::MAX {
                Some(n)
            } else {
                None
            },
            None => None,
        }
    } else {
        None
    }
}

/// The first length the lines give, from `at` on.
pub open spec fn first_length(lines: Seq<Seq<char>>, at: int) -> Option<nat>
    decreases lines.len() - at,
{
    if at >= lines.len() {
        None
    } else {
        match length_in(lines[at]) {
            Some(n) => Some(n),
            None => first_length(lines, at + 1),
        }
    }
}

/// The length the text of headers gives.
pub open spec fn text_length(headers: Seq<char>) -> Option<nat> {
    first_length(lines_from(headers, 0), 0)
}

/// The length the headers of a response give.
pub open spec fn headers_length(headers: Seq<u8>) -> Option<nat> {
    text_length(lossy_text(headers))
}

/// The headers are there, and so is as much of a body as they announce.
pub open spec fn is_complete(raw: Seq<u8>) -> bool {
    match body_start(raw, 0) {
        None => false,
        Some(start) => match headers_length(raw.take(start)) {
            Some(length) => raw.len() - start >= length,
            None => false,
        },
    }
}

/// The end of the word that starts a text.
pub open spec fn word_end(text: Seq<char>, at: int) -> int
    decreases text.len() - at,
{
    if at >= text.len() || is_space(text[at]) {
        at
    } else {
        word_end(text, at + 1)
    }
}

/// The second word of a text.
pub open spec fn second_word(text: Seq<char>) -> Option<Seq<char>> {
    let first = trim_left(text);
    let rest = trim_left(first.skip(word_end(first, 0)));
    if rest.len() == 0 {
        None
    } else {
        Some(rest.take(word_end(rest, 0)))
    }
}

/// The status a status line gives.
pub open spec fn status_in(line: Seq<char>) -> Option<u16> {
    match second_word(line) {
        None => None,
        Some(word) => match number_in(word) {
            Some(n) => if n <= u16::MAX {
                Some(n as u16)
            } else {
                None
            },
            None => None,
        },
    }
}

/// The part of what stands behind the headers that is the body.
pub open spec fn body_in(length: Option<nat>, rest: Seq<u8>) -> Seq<u8> {
    match length {
        Some(length) => if length <= rest.len() {
            rest.take(length as int)
        } else {
            rest
        },
        None => rest,
    }
}

/// What a response says by the text of its headers and what stands behind them.
pub open spec fn is_read(
    headers: Seq<char>,
    rest: Seq<u8>,
    result: Result<HttpResponse, String>,
) -> bool {
    let lines = lines_from(headers, 0);
    if lines.len() == 0 {
        result matches Err(message) && message@ == "empty response"@
    } else {
        match status_in(lines[0]) {
            None => result matches Err(message) && message@ == "malformed status line: "@
                + lines[0],
            Some(status) => {
                &&& result matches Ok(response)
                &&& response.status == status
                &&& response.body@ == body_in(text_length(headers), rest)
            },
        }
    }
}

/// What a response that was read says.
pub open spec fn is_parsed(raw: Seq<u8>, result: Result<HttpResponse, String>) -> bool {
    match body_start(raw, 0) {
        None => result matches Err(message) && message@
            == "response headers were never terminated"@,
        Some(start) => is_read(lossy_text(raw.take(start)), raw.skip(start), result),
    }
}

proof fn lemma_body_start(raw: Seq<u8>, at: int)
    requires
        0 <= at,
    ensures
        body_start(raw, at) matches Some(start) ==> at + 4 <= start <= raw.len(),
    decreases raw.len() - at,
{
    if at + 4 <= raw.len() && !ends_headers(raw, at) {
        lemma_body_start(raw, at + 1);
    }
}

/// Where the body of a response starts.
pub fn header_end(raw: &Vec<u8>) -> (r: Option<usize>)
    ensures
        match body_start(raw@, 0) {
            Some(start) => r matches Some(end) && end == start && end <= raw@.len(),
            None => r is None,
        },
{
    let mut at: usize = 0;
    while at < raw.len() && raw.len() - at >= 4
        invariant
            at <= raw.len(),
            body_start(raw@, 0) == body_start(raw@, at as int),
        decreases raw.len() - at,
    {
        if raw[at] == 13 && raw[at + 1] == 10 && raw[at + 2] == 13 && raw[at + 3] == 10 {
            return Some(at + 4);
        }
        at = at + 1;
    }
    None
}

fn find_char(chars: &Vec<char>, c: char, at: usize) -> (r: usize)
    requires
        at <= chars.len(),
    ensures
        r == place_of(chars@, c, at as int),
        at <= r <= chars.len(),
{
    let mut i: usize = at;
    while i < chars.len() && chars[i] != c
        invariant
            at <= i <= chars.len(),
            place_of(chars@, c, at as int) == place_of(chars@, c, i as int),
        decreases chars.len() - i,
    {
        i = i + 1;
    }
    i
}

/// The lines of a text.
pub fn lines_of(text: &str) -> (r: Vec<String>)
    ensures
        r@.len() == lines_from(text@, 0).len(),
        forall|i: int| 0 <= i < r@.len() ==> (#[trigger] r@[i])@ == lines_from(text@, 0)[i],
{
    let chars = chars_of(text);
    let mut out: Vec<String> = Vec::new();
    let mut at: usize = 0;
    let ghost mut done: Seq<Seq<char>> = Seq::empty();
    assert(done + lines_from(text@, 0) =~= lines_from(text@, 0));
    while at < chars.len()
        invariant
            at <= chars.len(),
            chars@ == text@,
            done + lines_from(text@, at as int) == lines_from(text@, 0),
            out@.len() == done.len(),
            forall|i: int| 0 <= i < done.len() ==> (#[trigger] out@[i])@ == done[i],
        decreases chars.len() - at,
    {
        let end = find_char(&chars, '\n', at);
        let ghost rest = lines_from(text@, at as int);
        if end >= chars.len() {
            let line = text.substring_char(at, chars.len());
            out.push(line.to_owned());
            proof {
                assert(rest == seq![text@.subrange(at as int, text@.len() as int)]);
                done = done + rest;
                assert(lines_from(text@, text@.len() as int) =~= Seq::<Seq<char>>::empty());
                assert(done + lines_from(text@, text@.len() as int) =~= done);
            }
            at = chars.len();
        } else {
            let stop: usize = if end > at && chars[end - 1] == '\r' {
                end - 1
            } else {
                end
            };
            let line = text.substring_char(at, stop);
            out.push(line.to_owned());
            proof {
                let whole = text@.subrange(at as int, end as int);
                assert(without_return(whole) =~= text@.subrange(at as int, stop as int));
                let first = seq![without_return(whole)];
                assert(rest == first + lines_from(text@, end + 1));
                assert((done + first) + lines_from(text@, end + 1) =~= done + rest);
                done = done + first;
            }
            at = end + 1;
        }
    }
    assert(lines_from(text@, at as int) =~= Seq::<Seq<char>>::empty());
    assert(done =~= lines_from(text@, 0));
    out
}

proof fn lemma_digits_grow(digits: Seq<char>, k: int)
    requires
        0 <= k <= digits.len(),
    ensures
        digits_value(digits.take(k)) <= digits_value(digits),
    decreases digits.len(),
{
    if k == digits.len() {
        assert(digits.take(k) =~= digits);
    } else {
        lemma_digits_grow(digits.drop_last(), k);
        assert(digits.drop_last().take(k) =~= digits.take(k));
    }
}

/// The unsigned number a text stands for, up to a limit.
pub fn parse_number(text: &str, limit: u64) -> (r: Option<u64>)
    ensures
        match number_in(text@) {
            Some(n) => if n <= limit {
                r == Some(n as u64)
            } else {
                r is None
            },
            None => r is None,
        },
{
    let chars = chars_of(text);
    let from: usize = if chars.len() > 0 && chars[0] == '+' {
        1
    } else {
        0
    };
    let ghost digits = chars@.skip(from as int);
    proof {
        if from == 0 {
            assert(digits =~= text@);
        } else {
            assert(digits =~= text@.drop_first());
        }
    }
    if from >= chars.len() {
        return None;
    }
    let mut value: u64 = 0;
    let mut i: usize = from;
    assert(digits.take(0) =~= Seq::<char>::empty());
    while i < chars.len()
        invariant
            from <= i <= chars.len(),
            from <= 1,
            digits == chars@.skip(from as int),
            digits.len() > 0,
            number_in(text@) == (if is_number(digits) {
                Some(digits_value(digits))
            } else {
                None::<nat>
            }),
            forall|k: int| 0 <= k < i - from ==> is_digit(#[trigger] digits[k]),
            value == digits_value(digits.take(i - from)),
            value <= limit,
        decreases chars.len() - i,
    {
        let c = chars[i];
        assert(digits[i - from] == c);
        if !(c >= '0' && c <= '9') {
            assert(!is_digit(digits[i - from]));
            return None;
        }
        let digit: u64 = (c as u8 - 48) as u64;
        proof {
            let taken = digits.take(i - from + 1);
            assert(taken.drop_last() =~= digits.take(i - from));
            assert(digits_value(taken) == value * 10 + digit);
            lemma_digits_grow(digits, i - from + 1);
        }
        if value > (u64::MAX - digit) / 10 {
            return None;
        }
        value = value * 10 + digit;
        if value > limit {
            return None;
        }
        i = i + 1;
    }
    assert(digits.take(digits.len() as int) =~= digits);
    Some(value)
}

fn header_length(line: &str) -> (r: Option<usize>)
    ensures
        match length_in(line@) {
            Some(n) => r matches Some(length) && length == n,
            None => r is None,
        },
{
    let chars = chars_of(line);
    let colon = find_char(&chars, ':', 0);
    if colon >= chars.len() {
        return None;
    }
    let name = line.substring_char(0, colon);
    let value = line.substring_char(colon + 1, chars.len());
    proof {
        assert(line@.take(colon as int) =~= line@.subrange(0, colon as int));
        assert(line@.skip(colon + 1) =~= line@.subrange(colon + 1, line@.len() as int));
    }
    if text_eq_ignoring_case(trim_text(name), "content-length") {
        match parse_number(trim_text(value), usize::MAX as u64) {
            Some(length) => Some(length as usize),
            None => None,
        }
    } else {
        None
    }
}

fn prefix_of(raw: &Vec<u8>, end: usize) -> (r: Vec<u8>)
    requires
        end <= raw@.len(),
    ensures
        r@ == raw@.take(end as int),
{
    let mut out: Vec<u8> = Vec::new();
    let mut i: usize = 0;
    while i < end
        invariant
            i <= end <= raw@.len(),
            out@ == raw@.take(i as int),
        decreases end - i,
    {
        out.push(raw[i]);
        assert(raw@.take(i + 1) =~= raw@.take(i as int).push(raw@[i as int]));
        i = i + 1;
    }
    out
}

/// The length the text of headers gives.
pub fn length_in_text(headers: &str) -> (r: Option<usize>)
    ensures
        match text_length(headers@) {
            Some(n) => r matches Some(length) && length == n,
            None => r is None,
        },
{
    let lines = lines_of(headers);
    let ghost parts = lines_from(headers@, 0);
    let mut i: usize = 0;
    while i < lines.len()
        invariant
            i <= lines.len(),
            lines@.len() == parts.len(),
            forall|k: int| 0 <= k < lines@.len() ==> (#[trigger] lines@[k])@ == parts[k],
            parts == lines_from(headers@, 0),
            first_length(parts, 0) == first_length(parts, i as int),
        decreases lines.len() - i,
    {
        assert(lines@[i as int]@ == parts[i as int]);
        if let Some(length) = header_length(lines[i].as_str()) {
            return Some(length);
        }
        i = i + 1;
    }
    None
}

/// The length the headers give.
pub fn content_length(headers: &Vec<u8>) -> (r: Option<usize>)
    ensures
        match headers_length(headers@) {
            Some(n) => r matches Some(length) && length == n,
            None => r is None,
        },
{
    let text = decode_lossy(headers);
    length_in_text(text.as_str())
}

/// Whether a response needs no more bytes.
pub fn response_complete(raw: &Vec<u8>) -> (r: bool)
    ensures
        r == is_complete(raw@),
{
    match header_end(raw) {
        None => false,
        Some(start) => {
            let headers = prefix_of(raw, start);
            match content_length(&headers) {
                Some(length) => raw.len() - start >= length,
                None => false,
            }
        },
    }
}

fn find_word_end(chars: &Vec<char>) -> (r: usize)
    ensures
        r == word_end(chars@, 0),
        r <= chars@.len(),
{
    let mut i: usize = 0;
    while i < chars.len() && !char_is_space(chars[i])
        invariant
            i <= chars.len(),
            word_end(chars@, 0) == word_end(chars@, i as int),
        decreases chars.len() - i,
    {
        i = i + 1;
    }
    i
}

fn status_of(line: &str) -> (r: Option<u16>)
    ensures
        r == status_in(line@),
{
    let first = trim_start_text(line);
    let first_chars = chars_of(first);
    let end = find_word_end(&first_chars);
    let behind = first.substring_char(end, first_chars.len());
    assert(behind@ =~= first@.skip(end as int));
    let rest = trim_start_text(behind);
    let rest_chars = chars_of(rest);
    if rest_chars.len() == 0 {
        return None;
    }
    let stop = find_word_end(&rest_chars);
    let word = rest.substring_char(0, stop);
    assert(word@ =~= rest@.take(stop as int));
    match parse_number(word, 65535) {
        Some(status) => Some(status as u16),
        None => None,
    }
}

fn rest_of(raw: &Vec<u8>, start: usize) -> (r: Vec<u8>)
    requires
        start <= raw@.len(),
    ensures
        r@ == raw@.skip(start as int),
{
    let total: usize = raw.len();
    let mut out: Vec<u8> = Vec::new();
    let mut i: usize = start;
    while i < total
        invariant
            start <= i <= total == raw@.len(),
            out@ == raw@.subrange(start as int, i as int),
        decreases total - i,
    {
        out.push(raw[i]);
        assert(raw@.subrange(start as int, i + 1) =~= raw@.subrange(start as int, i as int).push(
            raw@[i as int],
        ));
        i = i + 1;
    }
    assert(raw@.subrange(start as int, total as int) =~= raw@.skip(start as int));
    out
}

/// Reads a response from the text of its headers and the bytes behind them.
pub fn read_response(headers: &str, rest: Vec<u8>) -> (r: Result<HttpResponse, String>)
    ensures
        is_read(headers@, rest@, r),
{
    let lines = lines_of(headers);
    if lines.len() == 0 {
        return Err("empty response".to_owned());
    }
    assert(lines@[0]@ == lines_from(headers@, 0)[0]);
    let status = match status_of(lines[0].as_str()) {
        None => return Err(join2("malformed status line: ", lines[0].as_str())),
        Some(status) => status,
    };
    let body = match length_in_text(headers) {
        Some(length) if length <= rest.len() => prefix_of(&rest, length),
        _ => rest,
    };
    Ok(HttpResponse { status, body })
}

/// Reads a response that has come to its end.
pub fn parse_response(raw: &Vec<u8>) -> (r: Result<HttpResponse, String>)
    ensures
        is_parsed(raw@, r),
{
    let start = match header_end(raw) {
        Some(start) => start,
        None => return Err("response headers were never terminated".to_owned()),
    };
    let headers = prefix_of(raw, start);
    let text = decode_lossy(&headers);
    read_response(text.as_str(), rest_of(raw, start))
}

/// The head of a request.
pub open spec fn request_head_text(method: Seq<char>, path: Seq<char>, body_len: nat) -> Seq<char> {
    method + " "@ + path
        + " HTTP/1.1\r\nHost: 127.0.0.1\r\nContent-Type: application/json\r\nContent-Length: "@
        + decimal(body_len) + "\r\nConnection: close\r\n\r\n"@
}

/// The head of a request for a loopback service, without its body.
pub fn request_head(method: &str, path: &str, body_len: usize) -> (r: String)
    ensures
        r@ == request_head_text(method@, path@, body_len as nat),
{
    let mut head = method.to_owned();
    head.append(" ");
    head.append(path);
    head.append(
        " HTTP/1.1\r\nHost: 127.0.0.1\r\nContent-Type: application/json\r\nContent-Length: ",
    );
    head.append(decimal_text(body_len as u64).as_str());
    head.append("\r\nConnection: close\r\n\r\n");
    head
}

/// What a chunk of a reply amounts to.
#[derive(Debug, Clone, Copy, PartialEq, Eq, Structural)]
pub enum ChunkOutcome {
    More,
    Complete,
    TooLarge,
}

fn append_bytes(raw: &mut Vec<u8>, chunk: &Vec<u8>)
    ensures
        final(raw)@ == old(raw)@ + chunk@,
{
    let ghost before = raw@;
    let mut i: usize = 0;
    while i < chunk.len()
        invariant
            i <= chunk.len(),
            raw@ == before + chunk@.take(i as int),
            before == old(raw)@,
        decreases chunk.len() - i,
    {
        raw.push(chunk[i]);
        assert(before + chunk@.take(i + 1) =~= (before + chunk@.take(i as int)).push(
            chunk@[i as int],
        ));
        i = i + 1;
    }
    assert(chunk@.take(chunk@.len() as int) =~= chunk@);
}

/// Takes in a chunk of a response, which may not grow past the limit.
pub fn take_response_chunk(raw: &mut Vec<u8>, chunk: &Vec<u8>, limit: usize) -> (r: ChunkOutcome)
    ensures
        final(raw)@ == old(raw)@ + chunk@,
        r == if final(raw)@.len() > limit {
            ChunkOutcome::TooLarge
        } else if is_complete(final(raw)@) {
            ChunkOutcome::Complete
        } else {
            ChunkOutcome::More
        },
{
    append_bytes(raw, chunk);
    if raw.len() > limit {
        return ChunkOutcome::TooLarge;
    }
    if response_complete(raw) {
        ChunkOutcome::Complete
    } else {
        ChunkOutcome::More
    }
}

/// A response that is complete has exactly the body its headers announce.
pub proof fn law_complete_response_has_its_body(raw: Seq<u8>, result: Result<HttpResponse, String>)
    requires
        is_complete(raw),
        is_parsed(raw, result),
        result is Ok,
    ensures
        body_start(raw, 0) is Some,
        headers_length(raw.take(body_start(raw, 0)->0)) == Some(result->Ok_0.body@.len()),
{
    lemma_body_start(raw, 0);
}

proof fn lemma_first_end(raw: Seq<u8>, at: int, i: int)
    requires
        0 <= at <= i,
        i + 4 <= raw.len(),
        raw[i] == 13 && raw[i + 1] == 10 && raw[i + 2] == 13 && raw[i + 3] == 10,
    ensures
        body_start(raw, at) matches Some(start) && start <= i + 4,
    decreases raw.len() - at,
{
    if !ends_headers(raw, at) {
        assert(at < i);
        lemma_first_end(raw, at + 1, i);
    }
}

proof fn lemma_found_end(raw: Seq<u8>, at: int)
    requires
        0 <= at,
        body_start(raw, at) is Some,
    ensures
        at + 4 <= body_start(raw, at)->0 <= raw.len(),
        raw[body_start(raw, at)->0 - 4] == 13 && raw[body_start(raw, at)->0 - 3] == 10,
        raw[body_start(raw, at)->0 - 2] == 13 && raw[body_start(raw, at)->0 - 1] == 10,
    decreases raw.len() - at,
{
    if !ends_headers(raw, at) {
        lemma_found_end(raw, at + 1);
    }
}

/// The body starts behind the first empty line, and wherever there is one there is
/// a body.
pub proof fn law_bodies_start_behind_the_first_empty_line(raw: Seq<u8>, i: int)
    requires
        0 <= i,
        i + 4 <= raw.len(),
    ensures
        raw[i] == 13 && raw[i + 1] == 10 && raw[i + 2] == 13 && raw[i + 3] == 10 ==> (body_start(
            raw,
            0,
        ) matches Some(start) && start <= i + 4),
        body_start(raw, 0) matches Some(start) ==> 4 <= start <= raw.len() && raw[start - 4] == 13
            && raw[start - 3] == 10 && raw[start - 2] == 13 && raw[start - 1] == 10,
{
    if raw[i] == 13 && raw[i + 1] == 10 && raw[i + 2] == 13 && raw[i + 3] == 10 {
        lemma_first_end(raw, 0, i);
    }
    if body_start(raw, 0) is Some {
        lemma_found_end(raw, 0);
    }
}

/// The body of a response starts with the first byte behind the headers; it is cut
/// where its announced length ends and nowhere else.
pub proof fn law_bodies_are_what_follows_the_headers(
    headers: Seq<char>,
    rest: Seq<u8>,
    result: Result<HttpResponse, String>,
    i: int,
)
    requires
        is_read(headers, rest, result),
        result is Ok,
        0 <= i < result->Ok_0.body@.len(),
    ensures
        result->Ok_0.body@.len() <= rest.len(),
        result->Ok_0.body@[i] == rest[i],
        text_length(headers) is None ==> result->Ok_0.body@ == rest,
        text_length(headers) matches Some(length) ==> result->Ok_0.body@.len() == if length
            <= rest.len() {
            length
        } else {
            rest.len()
        },
{
}

/// A further digit makes a number ten times as great and adds its own value; a
/// further sign of any other kind makes it no number.
pub proof fn law_numbers_are_decimal(text: Seq<char>, c: char)
    requires
        text.len() > 0,
        text[0] != '+',
    ensures
        (number_in(text) is Some && '0' <= c <= '9') ==> number_in(text.push(c)) == Some(
            (number_in(text)->0 * 10 + (c as int - '0' as int)) as nat,
        ),
        !('0' <= c <= '9') ==> number_in(text.push(c)) is None,
        number_in(text) is None ==> number_in(text.push(c)) is None,
        number_in(seq!['+'] + text) == number_in(text),
{
    let longer = text.push(c);
    assert(longer[0] == text[0]);
    assert(longer.drop_last() =~= text);
    assert(longer.last() == c);
    assert(longer[text.len() as int] == c);
    assert forall|i: int| 0 <= i < text.len() implies longer[i] == #[trigger] text[i] by {}
    let signed = seq!['+'] + text;
    assert(signed[0] == '+');
    assert(signed.drop_first() =~= text);
    if is_number(longer) {
        assert forall|i: int| 0 <= i < text.len() implies is_digit(#[trigger] text[i]) by {
            assert(is_digit(longer[i]));
        }
    }
}

/// A line goes up to its line feed and is told without the carriage return before
/// it; the next one starts right behind.
pub proof fn law_lines_end_with_their_feed(text: Seq<char>, at: int, end: int)
    requires
        0 <= at < end < text.len(),
        text[end] == '\n',
        forall|i: int| at <= i < end ==> #[trigger] text[i] != '\n',
    ensures
        lines_from(text, at).len() == 1 + lines_from(text, end + 1).len(),
        lines_from(text, at).drop_first() == lines_from(text, end + 1),
        text[end - 1] == '\r' ==> lines_from(text, at)[0] == text.subrange(at, end - 1),
        text[end - 1] != '\r' ==> lines_from(text, at)[0] == text.subrange(at, end),
{
    lemma_place(text, '\n', at);
    let place = place_of(text, '\n', at);
    assert(place == end) by {
        if place < end {
            assert(text[place] != '\n');
        }
        if end < place {
            assert(text[end] != '\n');
        }
    }
    let line = text.subrange(at, end);
    assert(line.last() == text[end - 1]);
    assert(line.drop_last() =~= text.subrange(at, end - 1));
    assert(lines_from(text, at) == seq![without_return(line)] + lines_from(text, end + 1));
    assert(lines_from(text, at).drop_first() =~= lines_from(text, end + 1));
}

/// A length is announced by the number behind the colon of a line that names it,
/// and by no other line.
pub proof fn law_lengths_are_announced_by_name(name: Seq<char>, value: Seq<char>)
    requires
        forall|i: int| 0 <= i < name.len() ==> #[trigger] name[i] != ':',
    ensures
        !same_ignoring_case(trimmed(name), "content-length"@) ==> length_in(
            name + seq![':'] + value,
        ) is None,
        same_ignoring_case(trimmed(name), "content-length"@) ==> (match number_in(
            trimmed(value),
        ) {
            Some(n) => n <= usize::MAX ==> length_in(name + seq![':'] + value) == Some(n),
            None => length_in(name + seq![':'] + value) is None,
        }),
        length_in(name) is None,
{
    let line = name + seq![':'] + value;
    lemma_place(line, ':', 0);
    lemma_place(name, ':', 0);
    let colon = place_of(line, ':', 0);
    assert(line[name.len() as int] == ':');
    assert(colon == name.len()) by {
        if colon < name.len() {
            assert(line[colon] == name[colon]);
        }
    }
    assert(line.take(colon) =~= name);
    assert(line.skip(colon + 1) =~= value);
    assert(place_of(name, ':', 0) == name.len()) by {
        if place_of(name, ':', 0) < name.len() {
            assert(name[place_of(name, ':', 0)] != ':');
        }
    }
}

/// The first line that announces a length decides.
pub proof fn law_the_first_length_counts(lines: Seq<Seq<char>>, at: int)
    requires
        0 <= at < lines.len(),
    ensures
        length_in(lines[at]) is Some ==> first_length(lines, at) == length_in(lines[at]),
        length_in(lines[at]) is None ==> first_length(lines, at) == first_length(lines, at + 1),
        first_length(lines, lines.len() as int) is None,
{
}

proof fn lemma_word_end(word: Seq<char>, rest: Seq<char>, at: int)
    requires
        0 <= at <= word.len(),
        forall|i: int| 0 <= i < word.len() ==> !is_space(#[trigger] word[i]),
        rest.len() > 0 ==> is_space(rest[0]),
    ensures
        word_end(word + rest, at) == word.len(),
    decreases word.len() - at,
{
    let whole = word + rest;
    if at < word.len() {
        assert(whole[at] == word[at]);
        lemma_word_end(word, rest, at + 1);
    } else if rest.len() > 0 {
        assert(whole[at] == rest[0]);
    }
}

/// The status of a response is the number that the second word of its first line
/// gives, whatever the first word and whatever follows.
pub proof fn law_the_second_word_is_the_status(
    version: Seq<char>,
    code: Seq<char>,
    reason: Seq<char>,
)
    requires
        version.len() > 0,
        code.len() > 0,
        forall|i: int| 0 <= i < version.len() ==> !is_space(#[trigger] version[i]),
        forall|i: int| 0 <= i < code.len() ==> !is_space(#[trigger] code[i]),
        reason.len() > 0 ==> is_space(reason[0]),
    ensures
        status_in(version + (seq![' '] + (code + reason))) is Some <==> (number_in(
            code,
        ) matches Some(n) && n <= u16::MAX),
        status_in(version + (seq![' '] + (code + reason))) matches Some(status) ==> Some(
            status as nat,
        ) == number_in(code),
        status_in(version) is None,
{
    let tail = code + reason;
    let gap = seq![' '] + tail;
    let line = version + gap;
    assert(gap[0] == ' ');
    assert(line[0] == version[0]);
    assert(trim_left(line) == line);
    lemma_word_end(version, gap, 0);
    assert(line.skip(version.len() as int) =~= gap);
    assert(gap.drop_first() =~= tail);
    assert(tail[0] == code[0]);
    assert(trim_left(tail) == tail);
    assert(trim_left(gap) == tail) by {
        reveal_with_fuel(trim_left, 2);
    }
    lemma_word_end(code, reason, 0);
    assert(tail.take(code.len() as int) =~= code);
    assert(trim_left(version) == version);
    lemma_word_end(version, Seq::<char>::empty(), 0);
    assert(version + Seq::<char>::empty() =~= version);
    assert(version.skip(version.len() as int) =~= Seq::<char>::empty());
}

} // verus!
