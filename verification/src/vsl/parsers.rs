//! Field parsers for tag payloads. Each one is total and failure-explicit:
//! it consumes the whole text or reports a `ParseError`; trailing input is
//! never silently ignored. The grammars are whitespace-delimited words.
use crate::error::ParseError;
use crate::text::{
    all_alnum, alnum_end, check_alnum, digits_end, digits_val, find_char, find_from,
    find_last_below, find_last_char, lemma_digits_end_digits, parse_decimal_micros, parse_i64, parse_uint, parse_uint_plus,
    scan_alnum, scan_digits, scan_spaces, skip_spaces, spec_decimal_micros, spec_int, spec_uint,
    spec_uint_plus, split_words, str_eq, words_of,
};
use vstd::prelude::*;

verus! {

/// A parsed `Timestamp` tag: the event name and three durations, each in
/// whole microseconds.
#[derive(Debug, PartialEq, Eq)]
pub struct Timestamp {
    pub event: String,
    pub ts: i64,
    pub since_start: i64,
    pub since_last_timestamp: i64,
}

/// The mathematical shape of a parsed timestamp.
pub ghost struct TimestampSpec {
    pub event: Seq<char>,
    pub ts: int,
    pub since_start: int,
    pub since_last_timestamp: int,
}

impl View for Timestamp {
    type V = TimestampSpec;

    open spec fn view(&self) -> TimestampSpec {
        TimestampSpec {
            event: self.event@,
            ts: self.ts as int,
            since_start: self.since_start as int,
            since_last_timestamp: self.since_last_timestamp as int,
        }
    }
}

/// A parsed `ReqStart` tag: remote address, port and listener name.
#[derive(Debug, PartialEq, Eq)]
pub struct ReqStart {
    pub listener: String,
    pub port: u16,
    pub address: String,
}

/// The mathematical shape of a parsed request start.
pub ghost struct ReqStartSpec {
    pub listener: Seq<char>,
    pub port: int,
    pub address: Seq<char>,
}

impl View for ReqStart {
    type V = ReqStartSpec;

    open spec fn view(&self) -> ReqStartSpec {
        ReqStartSpec { listener: self.listener@, port: self.port as int, address: self.address@ }
    }
}

/// A parsed accounting tag: byte counters, received triple and sent triple.
#[derive(Debug, Copy, Clone, PartialEq, Eq, Structural)]
pub struct RequestAccounting {
    pub header_tx: u64,
    pub body_tx: u64,
    pub total_tx: u64,
    pub header_rx: u64,
    pub body_rx: u64,
    pub total_rx: u64,
}

/// A parsed `Link` tag: the kind, id and reason of a child transaction.
#[derive(Debug, PartialEq, Eq)]
pub struct VarnishLink {
    pub ty: String,
    pub vxid: u32,
    pub reason: String,
}

/// The mathematical shape of a parsed link.
pub ghost struct VarnishLinkSpec {
    pub ty: Seq<char>,
    pub vxid: int,
    pub reason: Seq<char>,
}

impl View for VarnishLink {
    type V = VarnishLinkSpec;

    open spec fn view(&self) -> VarnishLinkSpec {
        VarnishLinkSpec { ty: self.ty@, vxid: self.vxid as int, reason: self.reason@ }
    }
}

/// A parsed `TTL` tag. The four leading durations are always present; the
/// four that follow depend on the source; the last token decides
/// cacheability.
#[derive(Debug, PartialEq, Eq)]
pub struct VarnishTtl {
    pub source: String,
    pub ttl: i64,
    pub grace: i64,
    pub keep: i64,
    pub reference: i64,
    pub age: Option<i64>,
    pub date: Option<i64>,
    pub expires: Option<i64>,
    pub max_age: Option<i64>,
    pub cacheable: bool,
}

/// The mathematical shape of a parsed TTL record.
pub ghost struct VarnishTtlSpec {
    pub source: Seq<char>,
    pub ttl: int,
    pub grace: int,
    pub keep: int,
    pub reference: int,
    pub age: Option<int>,
    pub date: Option<int>,
    pub expires: Option<int>,
    pub max_age: Option<int>,
    pub cacheable: bool,
}

pub open spec fn opt_int_of(v: Option<i64>) -> Option<int> {
    match v {
        Some(x) => Some(x as int),
        None => None,
    }
}

impl View for VarnishTtl {
    type V = VarnishTtlSpec;

    open spec fn view(&self) -> VarnishTtlSpec {
        VarnishTtlSpec {
            source: self.source@,
            ttl: self.ttl as int,
            grace: self.grace as int,
            keep: self.keep as int,
            reference: self.reference as int,
            age: opt_int_of(self.age),
            date: opt_int_of(self.date),
            expires: opt_int_of(self.expires),
            max_age: opt_int_of(self.max_age),
            cacheable: self.cacheable,
        }
    }
}

/// What `remote_ip` returns: the text up to the first comma; when that
/// looks like a dotted address, the port suffix from the last colon on is
/// dropped.
pub open spec fn spec_remote_ip(s: Seq<char>) -> Seq<char> {
    let ip = s.subrange(0, find_from(s, ',', 0));
    if find_from(ip, '.', 0) < ip.len() {
        ip.subrange(0, find_last_below(ip, ':', ip.len() as int))
    } else {
        ip
    }
}

/// The remote address denoted by a forwarded-for style value: the part up
/// to the first comma, with the port suffix after the last colon stripped
/// from dotted addresses. This parser accepts every input.
pub fn remote_ip(input: &str) -> (r: Result<String, ParseError>)
    ensures
        r is Ok,
        r matches Ok(ip) ==> ip@ == spec_remote_ip(input@),
{
    let n = s_len(input);
    let c = find_char(input, ',');
    let ip = input.substring_char(0, c);
    let iplen = ip.unicode_len();
    let dot = find_char(ip, '.');
    if dot < iplen {
        let colon = find_last_char(ip, ':');
        Ok(ip.substring_char(0, colon).to_owned())
    } else {
        Ok(ip.to_owned())
    }
}

/// The character length of a string slice.
fn s_len(s: &str) -> (r: usize)
    ensures
        r == s@.len(),
{
    s.unicode_len()
}

/// What the numeric readers that go through Rust's unsigned integer syntax
/// accept for a status code.
pub open spec fn spec_status(s: Seq<char>) -> Option<int> {
    spec_uint_plus(s, 65535)
}

/// Parses a response status code as an unsigned 16-bit number.
pub fn status(value: &str) -> (r: Result<u16, ParseError>)
    ensures
        match r {
            Ok(v) => spec_status(value@) == Some(v as int),
            Err(e) => spec_status(value@) is None && e.tag@ == "Status"@ && e.text@ == value@,
        },
{
    match parse_uint_plus(value, 65535) {
        Some(v) => Ok(v as u16),
        None => Err(ParseError { tag: "Status".to_owned(), text: value.to_owned() }),
    }
}

/// Parses an unsigned 64-bit decimal count, as the length tags carry it.
pub fn parse(input: &str) -> (r: Result<u64, ParseError>)
    ensures
        match r {
            Ok(v) => spec_uint_plus(input@, u64::MAX as int) == Some(v as int),
            Err(e) => spec_uint_plus(input@, u64::MAX as int) is None && e.tag@ == "Number"@
                && e.text@ == input@,
        },
{
    match parse_uint_plus(input, u64::MAX) {
        Some(v) => Ok(v),
        None => Err(ParseError { tag: "Number".to_owned(), text: input.to_owned() }),
    }
}

/// Whether a header line has a name part: some colon occurs.
pub open spec fn header_ok(s: Seq<char>) -> bool {
    find_from(s, ':', 0) < s.len()
}

/// The name of a well-formed header line: everything before the first colon.
pub open spec fn spec_header_name(s: Seq<char>) -> Seq<char> {
    s.subrange(0, find_from(s, ':', 0))
}

/// The value of a well-formed header line: everything after the first
/// colon, with leading spaces and tabs dropped and inner colons kept.
pub open spec fn spec_header_value(s: Seq<char>) -> Seq<char> {
    s.subrange(skip_spaces(s, find_from(s, ':', 0) + 1), s.len() as int)
}

/// Splits a header line at its first colon into name and value.
pub fn header(value: &str) -> (r: Result<(String, String), ParseError>)
    ensures
        match r {
            Ok(kv) => header_ok(value@) && kv.0@ == spec_header_name(value@) && kv.1@
                == spec_header_value(value@),
            Err(e) => !header_ok(value@) && e.tag@ == "Header"@ && e.text@ == value@,
        },
{
    let n = s_len(value);
    let c = find_char(value, ':');
    if c == n {
        return Err(ParseError { tag: "Header".to_owned(), text: value.to_owned() });
    }
    let name = value.substring_char(0, c).to_owned();
    let vstart = scan_spaces(value, c + 1);
    let val = value.substring_char(vstart, n).to_owned();
    Ok((name, val))
}

/// The rest-first pair `header` derives its result from; the rest of a
/// well-formed header line is always empty.
pub fn parse_header(input: &str) -> (r: Result<(String, (String, String)), ParseError>)
    ensures
        match r {
            Ok(p) => header_ok(input@) && p.0@ == Seq::<char>::empty() && p.1.0@
                == spec_header_name(input@) && p.1.1@ == spec_header_value(input@),
            Err(e) => !header_ok(input@) && e.tag@ == "Header"@ && e.text@ == input@,
        },
{
    match header(input) {
        Ok(kv) => {
            let empty = String::new();
            Ok((empty, kv))
        },
        Err(e) => Err(e),
    }
}

/// What a `ReqStart` line denotes: exactly three words, the middle one an
/// unsigned 16-bit port.
pub open spec fn spec_reqstart(s: Seq<char>) -> Option<ReqStartSpec> {
    let ws = words_of(s);
    if ws.len() == 3 && spec_uint_plus(ws[1], 65535) is Some {
        Some(
            ReqStartSpec {
                address: ws[0],
                port: spec_uint_plus(ws[1], 65535)->Some_0,
                listener: ws[2],
            },
        )
    } else {
        None
    }
}

/// Parses a `ReqStart` line: address, port and listener.
pub fn reqstart(input: &str) -> (r: Result<ReqStart, ParseError>)
    ensures
        match r {
            Ok(rs) => spec_reqstart(input@) == Some(rs@),
            Err(e) => spec_reqstart(input@) is None && e.tag@ == "ReqStart"@ && e.text@ == input@,
        },
{
    let mut ws = split_words(input);
    if ws.len() != 3 {
        return Err(ParseError { tag: "ReqStart".to_owned(), text: input.to_owned() });
    }
    let port = match parse_uint_plus(ws[1].as_str(), 65535) {
        Some(v) => v as u16,
        None => {
            return Err(ParseError { tag: "ReqStart".to_owned(), text: input.to_owned() });
        },
    };
    let listener = ws.pop().unwrap();
    let _port_word = ws.pop().unwrap();
    let address = ws.pop().unwrap();
    Ok(ReqStart { listener, port, address })
}

/// The rest-first pair `reqstart` derives its result from; the rest of a
/// well-formed line is always empty.
pub fn parse_reqstart(input: &str) -> (r: Result<(String, ReqStart), ParseError>)
    ensures
        match r {
            Ok(p) => spec_reqstart(input@) == Some(p.1@) && p.0@ == Seq::<char>::empty(),
            Err(e) => spec_reqstart(input@) is None && e.tag@ == "ReqStart"@ && e.text@ == input@,
        },
{
    match reqstart(input) {
        Ok(rs) => {
            let empty = String::new();
            Ok((empty, rs))
        },
        Err(e) => Err(e),
    }
}

/// What a `Timestamp` line denotes: an alphanumeric event name, a colon,
/// then three decimal durations, each read in whole microseconds.
pub open spec fn spec_timestamp(s: Seq<char>) -> Option<TimestampSpec> {
    let e = alnum_end(s, 0);
    if e >= 1 && e < s.len() && s[e] == ':' {
        let ws = words_of(s.subrange(e + 1, s.len() as int));
        if ws.len() == 3 && spec_decimal_micros(ws[0]) is Some && spec_decimal_micros(ws[1]) is Some
            && spec_decimal_micros(ws[2]) is Some {
            Some(
                TimestampSpec {
                    event: s.subrange(0, e),
                    ts: spec_decimal_micros(ws[0])->Some_0,
                    since_start: spec_decimal_micros(ws[1])->Some_0,
                    since_last_timestamp: spec_decimal_micros(ws[2])->Some_0,
                },
            )
        } else {
            None
        }
    } else {
        None
    }
}

/// Parses a `Timestamp` line into its event name and microsecond durations.
pub fn parse_timestamp(input: &str) -> (r: Result<(String, Timestamp), ParseError>)
    ensures
        match r {
            Ok(p) => spec_timestamp(input@) == Some(p.1@) && p.0@ == Seq::<char>::empty(),
            Err(e) => spec_timestamp(input@) is None && e.tag@ == "Timestamp"@ && e.text@
                == input@,
        },
{
    let n = s_len(input);
    let e = scan_alnum(input, 0);
    if !(e >= 1 && e < n && input.get_char(e) == ':') {
        return Err(ParseError { tag: "Timestamp".to_owned(), text: input.to_owned() });
    }
    let event = input.substring_char(0, e).to_owned();
    let rest = input.substring_char(e + 1, n);
    let ws = split_words(rest);
    if ws.len() != 3 {
        return Err(ParseError { tag: "Timestamp".to_owned(), text: input.to_owned() });
    }
    let ts = match parse_decimal_micros(ws[0].as_str()) {
        Some(v) => v,
        None => {
            return Err(ParseError { tag: "Timestamp".to_owned(), text: input.to_owned() });
        },
    };
    let since_start = match parse_decimal_micros(ws[1].as_str()) {
        Some(v) => v,
        None => {
            return Err(ParseError { tag: "Timestamp".to_owned(), text: input.to_owned() });
        },
    };
    let since_last_timestamp = match parse_decimal_micros(ws[2].as_str()) {
        Some(v) => v,
        None => {
            return Err(ParseError { tag: "Timestamp".to_owned(), text: input.to_owned() });
        },
    };
    let empty = String::new();
    Ok((empty, Timestamp { event, ts, since_start, since_last_timestamp }))
}

/// Parses a `Timestamp` line and hands the tag back with the value.
pub fn timestamp<'a>(tag: &'a str, value: &str) -> (r: Result<(&'a str, Timestamp), ParseError>)
    ensures
        match r {
            Ok(p) => spec_timestamp(value@) == Some(p.1@) && p.0@ == tag@,
            Err(e) => spec_timestamp(value@) is None && e.tag@ == "Timestamp"@ && e.text@
                == value@,
        },
{
    match parse_timestamp(value) {
        Ok(p) => Ok((tag, p.1)),
        Err(e) => Err(e),
    }
}

/// What an accounting line denotes: six unsigned byte counters, the
/// received triple before the sent triple.
pub open spec fn spec_accounting(s: Seq<char>) -> Option<RequestAccounting> {
    let ws = words_of(s);
    if ws.len() == 6 && spec_uint(ws[0], u64::MAX as int) is Some && spec_uint(
        ws[1],
        u64::MAX as int,
    ) is Some && spec_uint(ws[2], u64::MAX as int) is Some && spec_uint(
        ws[3],
        u64::MAX as int,
    ) is Some && spec_uint(ws[4], u64::MAX as int) is Some && spec_uint(
        ws[5],
        u64::MAX as int,
    ) is Some {
        Some(
            RequestAccounting {
                header_rx: spec_uint(ws[0], u64::MAX as int)->Some_0 as u64,
                body_rx: spec_uint(ws[1], u64::MAX as int)->Some_0 as u64,
                total_rx: spec_uint(ws[2], u64::MAX as int)->Some_0 as u64,
                header_tx: spec_uint(ws[3], u64::MAX as int)->Some_0 as u64,
                body_tx: spec_uint(ws[4], u64::MAX as int)->Some_0 as u64,
                total_tx: spec_uint(ws[5], u64::MAX as int)->Some_0 as u64,
            },
        )
    } else {
        None
    }
}

/// Parses an accounting line and hands the tag back with the value.
pub fn req_accounting<'a>(tag: &'a str, value: &str) -> (r: Result<
    (&'a str, RequestAccounting),
    ParseError,
>)
    ensures
        match r {
            Ok(p) => spec_accounting(value@) == Some(p.1) && p.0@ == tag@,
            Err(e) => spec_accounting(value@) is None && e.tag@ == "Accounting"@ && e.text@
                == value@,
        },
{
    let ws = split_words(value);
    if ws.len() != 6 {
        return Err(ParseError { tag: "Accounting".to_owned(), text: value.to_owned() });
    }
    let header_rx = match parse_uint(ws[0].as_str(), u64::MAX) {
        Some(v) => v,
        None => {
            return Err(ParseError { tag: "Accounting".to_owned(), text: value.to_owned() });
        },
    };
    let body_rx = match parse_uint(ws[1].as_str(), u64::MAX) {
        Some(v) => v,
        None => {
            return Err(ParseError { tag: "Accounting".to_owned(), text: value.to_owned() });
        },
    };
    let total_rx = match parse_uint(ws[2].as_str(), u64::MAX) {
        Some(v) => v,
        None => {
            return Err(ParseError { tag: "Accounting".to_owned(), text: value.to_owned() });
        },
    };
    let header_tx = match parse_uint(ws[3].as_str(), u64::MAX) {
        Some(v) => v,
        None => {
            return Err(ParseError { tag: "Accounting".to_owned(), text: value.to_owned() });
        },
    };
    let body_tx = match parse_uint(ws[4].as_str(), u64::MAX) {
        Some(v) => v,
        None => {
            return Err(ParseError { tag: "Accounting".to_owned(), text: value.to_owned() });
        },
    };
    let total_tx = match parse_uint(ws[5].as_str(), u64::MAX) {
        Some(v) => v,
        None => {
            return Err(ParseError { tag: "Accounting".to_owned(), text: value.to_owned() });
        },
    };
    Ok((tag, RequestAccounting { header_tx, body_tx, total_tx, header_rx, body_rx, total_rx }))
}

/// What a `Link` line denotes: an alphanumeric kind, an unsigned 32-bit id
/// and an alphanumeric reason.
pub open spec fn spec_link(s: Seq<char>) -> Option<VarnishLinkSpec> {
    let ws = words_of(s);
    if ws.len() == 3 && ws[0].len() > 0 && all_alnum(ws[0]) && spec_uint(
        ws[1],
        u32::MAX as int,
    ) is Some && ws[2].len() > 0 && all_alnum(ws[2]) {
        Some(
            VarnishLinkSpec {
                ty: ws[0],
                vxid: spec_uint(ws[1], u32::MAX as int)->Some_0,
                reason: ws[2],
            },
        )
    } else {
        None
    }
}

/// Parses a `Link` line and hands the tag back with the value.
pub fn link<'a>(tag: &'a str, value: &str) -> (r: Result<(&'a str, VarnishLink), ParseError>)
    ensures
        match r {
            Ok(p) => spec_link(value@) == Some(p.1@) && p.0@ == tag@,
            Err(e) => spec_link(value@) is None && e.tag@ == "Link"@ && e.text@ == value@,
        },
{
    let mut ws = split_words(value);
    if ws.len() != 3 {
        return Err(ParseError { tag: "Link".to_owned(), text: value.to_owned() });
    }
    if !check_alnum(ws[0].as_str()) || !check_alnum(ws[2].as_str()) {
        return Err(ParseError { tag: "Link".to_owned(), text: value.to_owned() });
    }
    let vxid = match parse_uint(ws[1].as_str(), u32::MAX as u64) {
        Some(v) => v as u32,
        None => {
            return Err(ParseError { tag: "Link".to_owned(), text: value.to_owned() });
        },
    };
    let reason = ws.pop().unwrap();
    let _vxid_word = ws.pop().unwrap();
    let ty = ws.pop().unwrap();
    Ok((tag, VarnishLink { ty, vxid, reason }))
}

/// What a word denotes as a signed 64-bit duration.
pub open spec fn spec_i64w(w: Seq<char>) -> Option<int> {
    spec_int(w, i64::MAX as int)
}

/// What a `TTL` line denotes. The words are: an alphanumeric source; four
/// signed durations (ttl, grace, keep, reference); up to four further signed
/// values (age, date, expires, max age), present or absent together from the
/// front; and a final alphanumeric token, `cacheable` or anything else.
/// When fewer than four optional values are present, the final token must
/// not itself read as a signed number, or it would be taken for one.
pub open spec fn spec_ttl(s: Seq<char>) -> Option<VarnishTtlSpec> {
    let ws = words_of(s);
    let n = ws.len() as int;
    if 6 <= n <= 10 && ws[0].len() > 0 && all_alnum(ws[0]) && spec_i64w(ws[1]) is Some && spec_i64w(
        ws[2],
    ) is Some && spec_i64w(ws[3]) is Some && spec_i64w(ws[4]) is Some && (n <= 6 || spec_i64w(
        ws[5],
    ) is Some) && (n <= 7 || spec_i64w(ws[6]) is Some) && (n <= 8 || spec_i64w(ws[7]) is Some) && (
    n <= 9 || spec_i64w(ws[8]) is Some) && ws[n - 1].len() > 0 && all_alnum(ws[n - 1]) && (n == 10
        || spec_i64w(ws[n - 1]) is None) {
        Some(
            VarnishTtlSpec {
                source: ws[0],
                ttl: spec_i64w(ws[1])->Some_0,
                grace: spec_i64w(ws[2])->Some_0,
                keep: spec_i64w(ws[3])->Some_0,
                reference: spec_i64w(ws[4])->Some_0,
                age: if n >= 7 {
                    Some(spec_i64w(ws[5])->Some_0)
                } else {
                    None
                },
                date: if n >= 8 {
                    Some(spec_i64w(ws[6])->Some_0)
                } else {
                    None
                },
                expires: if n >= 9 {
                    Some(spec_i64w(ws[7])->Some_0)
                } else {
                    None
                },
                max_age: if n == 10 {
                    Some(spec_i64w(ws[8])->Some_0)
                } else {
                    None
                },
                cacheable: ws[n - 1] == "cacheable"@,
            },
        )
    } else {
        None
    }
}

/// Parses a `TTL` line into its source, durations and cacheability.
pub fn parse_ttl(input: &str) -> (r: Result<(String, VarnishTtl), ParseError>)
    ensures
        match r {
            Ok(p) => spec_ttl(input@) == Some(p.1@) && p.0@ == Seq::<char>::empty(),
            Err(e) => spec_ttl(input@) is None && e.tag@ == "TTL"@ && e.text@ == input@,
        },
{
    let ws = split_words(input);
    let n = ws.len();
    if n < 6 || n > 10 {
        return Err(ParseError { tag: "TTL".to_owned(), text: input.to_owned() });
    }
    if !check_alnum(ws[0].as_str()) {
        return Err(ParseError { tag: "TTL".to_owned(), text: input.to_owned() });
    }
    let ttl = match parse_i64(ws[1].as_str()) {
        Some(v) => v,
        None => {
            return Err(ParseError { tag: "TTL".to_owned(), text: input.to_owned() });
        },
    };
    let grace = match parse_i64(ws[2].as_str()) {
        Some(v) => v,
        None => {
            return Err(ParseError { tag: "TTL".to_owned(), text: input.to_owned() });
        },
    };
    let keep = match parse_i64(ws[3].as_str()) {
        Some(v) => v,
        None => {
            return Err(ParseError { tag: "TTL".to_owned(), text: input.to_owned() });
        },
    };
    let reference = match parse_i64(ws[4].as_str()) {
        Some(v) => v,
        None => {
            return Err(ParseError { tag: "TTL".to_owned(), text: input.to_owned() });
        },
    };
    let age: Option<i64> = if n >= 7 {
        match parse_i64(ws[5].as_str()) {
            Some(v) => Some(v),
            None => {
                return Err(ParseError { tag: "TTL".to_owned(), text: input.to_owned() });
            },
        }
    } else {
        None
    };
    let date: Option<i64> = if n >= 8 {
        match parse_i64(ws[6].as_str()) {
            Some(v) => Some(v),
            None => {
                return Err(ParseError { tag: "TTL".to_owned(), text: input.to_owned() });
            },
        }
    } else {
        None
    };
    let expires: Option<i64> = if n >= 9 {
        match parse_i64(ws[7].as_str()) {
            Some(v) => Some(v),
            None => {
                return Err(ParseError { tag: "TTL".to_owned(), text: input.to_owned() });
            },
        }
    } else {
        None
    };
    let max_age: Option<i64> = if n == 10 {
        match parse_i64(ws[8].as_str()) {
            Some(v) => Some(v),
            None => {
                return Err(ParseError { tag: "TTL".to_owned(), text: input.to_owned() });
            },
        }
    } else {
        None
    };
    let last = ws[n - 1].as_str();
    if !check_alnum(last) {
        return Err(ParseError { tag: "TTL".to_owned(), text: input.to_owned() });
    }
    if n < 10 {
        match parse_i64(last) {
            Some(_) => {
                return Err(ParseError { tag: "TTL".to_owned(), text: input.to_owned() });
            },
            None => {},
        }
    }
    let cacheable = str_eq(last, "cacheable");
    let source = ws[0].clone();
    let empty = String::new();
    Ok(
        (
            empty,
            VarnishTtl { source, ttl, grace, keep, reference, age, date, expires, max_age, cacheable },
        ),
    )
}

/// Law: every well-formed TTL line parses, the parse recovers the ttl,
/// grace, keep and reference durations exactly as its words spell them, and
/// cacheability is decided by the literal last token alone. Well-formed
/// means: six to ten words; an alphanumeric source; every word between the
/// source and the last a signed duration; an alphanumeric last token, which
/// must not itself read as a signed number unless all four optional values
/// are present, since it would then be taken for one.
pub proof fn lemma_ttl_round_trip(s: Seq<char>)
    requires
        6 <= words_of(s).len() <= 10,
        words_of(s)[0].len() > 0,
        all_alnum(words_of(s)[0]),
        forall|j: int|
            1 <= j < words_of(s).len() - 1 ==> spec_i64w(#[trigger] words_of(s)[j]) is Some,
        words_of(s)[words_of(s).len() - 1].len() > 0,
        all_alnum(words_of(s)[words_of(s).len() - 1]),
        words_of(s).len() == 10 || spec_i64w(words_of(s)[words_of(s).len() - 1]) is None,
    ensures
        spec_ttl(s) is Some,
        spec_ttl(s)->Some_0.source == words_of(s)[0],
        spec_ttl(s)->Some_0.ttl == spec_i64w(words_of(s)[1])->Some_0,
        spec_ttl(s)->Some_0.grace == spec_i64w(words_of(s)[2])->Some_0,
        spec_ttl(s)->Some_0.keep == spec_i64w(words_of(s)[3])->Some_0,
        spec_ttl(s)->Some_0.reference == spec_i64w(words_of(s)[4])->Some_0,
        spec_ttl(s)->Some_0.cacheable <==> words_of(s)[words_of(s).len() - 1] == "cacheable"@,
{
    let ws = words_of(s);
    let n = ws.len() as int;
    assert(spec_i64w(ws[1]) is Some);
    assert(spec_i64w(ws[2]) is Some);
    assert(spec_i64w(ws[3]) is Some);
    assert(spec_i64w(ws[4]) is Some);
    if n > 6 {
        assert(spec_i64w(ws[5]) is Some);
    }
    if n > 7 {
        assert(spec_i64w(ws[6]) is Some);
    }
    if n > 8 {
        assert(spec_i64w(ws[7]) is Some);
    }
    if n > 9 {
        assert(spec_i64w(ws[8]) is Some);
    }
}

/// Parses a `TTL` line and hands the tag back with the value.
pub fn ttl<'a>(tag: &'a str, value: &str) -> (r: Result<(&'a str, VarnishTtl), ParseError>)
    ensures
        match r {
            Ok(p) => spec_ttl(value@) == Some(p.1@) && p.0@ == tag@,
            Err(e) => spec_ttl(value@) is None && e.tag@ == "TTL"@ && e.text@ == value@,
        },
{
    match parse_ttl(value) {
        Ok(p) => Ok((tag, p.1)),
        Err(e) => Err(e),
    }
}

/// What a space-padded unsigned decimal run at the front of the input
/// denotes: the value of the digit run between optional spaces, and the
/// position where the rest starts.
pub open spec fn spec_unsigned_delimited(s: Seq<char>) -> Option<(int, int)> {
    let a = skip_spaces(s, 0);
    let e = digits_end(s, a);
    if e > a && digits_val(s.subrange(a, e)) <= u64::MAX {
        Some((digits_val(s.subrange(a, e)), skip_spaces(s, e)))
    } else {
        None
    }
}

/// Reads one space-padded unsigned decimal number from the front of
/// `input` and returns the unread rest together with the value.
pub fn unsigned_delimited(input: &str) -> (r: Result<(String, u64), ParseError>)
    ensures
        match r {
            Ok(p) => spec_unsigned_delimited(input@) matches Some(sp) && p.1 as int == sp.0 && p.0@
                == input@.subrange(sp.1, input@.len() as int),
            Err(e) => spec_unsigned_delimited(input@) is None && e.tag@ == "Number"@ && e.text@
                == input@,
        },
{
    let n = s_len(input);
    let a = scan_spaces(input, 0);
    let e = scan_digits(input, a);
    if e == a {
        return Err(ParseError { tag: "Number".to_owned(), text: input.to_owned() });
    }
    let digits = input.substring_char(a, e);
    proof {
        lemma_digits_end_digits(input@, a as int);
        assert(digits@ =~= input@.subrange(a as int, e as int));
    }
    let v = match parse_uint(digits, u64::MAX) {
        Some(v) => v,
        None => {
            return Err(ParseError { tag: "Number".to_owned(), text: input.to_owned() });
        },
    };
    let b = scan_spaces(input, e);
    let rest = input.substring_char(b, n).to_owned();
    Ok((rest, v))
}

/// What a leading signed decimal run denotes: the value of an optional `-`
/// sign followed by the longest digit run, and the position where the rest
/// of the input starts.
pub open spec fn spec_signed_prefix(s: Seq<char>) -> Option<(int, int)> {
    if s.len() >= 1 && s[0] == '-' {
        let e = digits_end(s, 1);
        if e > 1 && digits_val(s.subrange(1, e)) <= i64::MAX {
            Some((-digits_val(s.subrange(1, e)), e))
        } else {
            None
        }
    } else {
        let e = digits_end(s, 0);
        if e > 0 && digits_val(s.subrange(0, e)) <= i64::MAX {
            Some((digits_val(s.subrange(0, e)), e))
        } else {
            None
        }
    }
}

/// Reads a signed decimal number from the front of `input` and returns the
/// unread rest together with the value.
pub fn signed_number(input: &str) -> (r: Result<(String, i64), ParseError>)
    ensures
        match r {
            Ok(p) => spec_signed_prefix(input@) matches Some(sp) && p.1 as int == sp.0 && p.0@
                == input@.subrange(sp.1, input@.len() as int),
            Err(e) => spec_signed_prefix(input@) is None && e.tag@ == "Number"@ && e.text@
                == input@,
        },
{
    let n = s_len(input);
    let neg = n >= 1 && input.get_char(0) == '-';
    let start: usize = if neg {
        1
    } else {
        0
    };
    let e = scan_digits(input, start);
    if e == start {
        return Err(ParseError { tag: "Number".to_owned(), text: input.to_owned() });
    }
    let digits = input.substring_char(start, e);
    proof {
        lemma_digits_end_digits(input@, start as int);
        assert(digits@ =~= input@.subrange(start as int, e as int));
    }
    let v = match parse_uint(digits, i64::MAX as u64) {
        Some(v) => v,
        None => {
            return Err(ParseError { tag: "Number".to_owned(), text: input.to_owned() });
        },
    };
    let rest = input.substring_char(e, n).to_owned();
    let val: i64 = if neg {
        -(v as i64)
    } else {
        v as i64
    };
    Ok((rest, val))
}

} // verus!
