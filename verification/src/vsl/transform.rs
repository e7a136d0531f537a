//! The transaction transform: drives the field parsers over a transaction's
//! tagged lines, accumulates cross-line state, applies the type and reason
//! filters, and emits one output record or a drop decision. The whole
//! behaviour is pinned by `spec_process`.
use crate::error::ParseError;
use crate::kv::KvList;
use crate::text::{lower_seq, spec_uint_plus, split_words, str_eq, str_views, to_lower, words_of};
use crate::text::parse_uint_plus;
use crate::vsl::models::{
    str_map_views, ts_map_views, CacheHandling, IpSource, LogRecord, RecordSpec, ReqSpec, RespSpec,
    Reason, TxType,
};
use crate::vsl::parsers::{
    self, header_ok, spec_accounting, spec_header_name, spec_header_value, spec_link,
    spec_remote_ip, spec_reqstart, spec_status, spec_timestamp, spec_ttl, RequestAccounting,
    TimestampSpec, VarnishLinkSpec, VarnishTtlSpec,
};
use crate::vsl::{LogTransaction, TxSpec};
use vstd::prelude::*;

verus! {

/// The mathematical shape of a remote-address source.
pub ghost enum IpSourceSpec {
    Request,
    Header(Seq<char>),
}

/// The view of an address source; a header name is taken as stored.
pub open spec fn ip_source_view(s: &IpSource) -> IpSourceSpec {
    match s {
        IpSource::Request => IpSourceSpec::Request,
        IpSource::Header { name } => IpSourceSpec::Header(name@),
    }
}

/// The mathematical shape of a transform configuration.
pub ghost struct ConfigSpec {
    pub req_headers: Seq<Seq<char>>,
    pub resp_headers: Seq<Seq<char>>,
    pub track_headers: bool,
    pub meta: Map<Seq<char>, Seq<char>>,
    pub ip_source: IpSourceSpec,
    pub type_filter: Seq<TxType>,
    pub reason_filter: Seq<Reason>,
}

/// The configured transaction transform. The header allow-lists and a
/// header-borne address source are kept lowercased; lowercasing, here and
/// in the per-line dispatch, folds ASCII letters and keeps every other
/// character.
#[derive(Debug)]
pub struct LogTransform {
    req_header_list: Vec<String>,
    resp_header_list: Vec<String>,
    track_headers: bool,
    meta: KvList<String>,
    ip_source: IpSource,
    type_filter: Vec<TxType>,
    reason_filter: Vec<Reason>,
}

impl View for LogTransform {
    type V = ConfigSpec;

    closed spec fn view(&self) -> ConfigSpec {
        ConfigSpec {
            req_headers: str_views(self.req_header_list@),
            resp_headers: str_views(self.resp_header_list@),
            track_headers: self.track_headers,
            meta: str_map_views(self.meta@),
            ip_source: ip_source_view(&self.ip_source),
            type_filter: self.type_filter@,
            reason_filter: self.reason_filter@,
        }
    }
}

/// An empty filter allows every value; otherwise the value must be listed.
pub open spec fn spec_allow_type(filter: Seq<TxType>, t: TxType) -> bool {
    filter.len() == 0 || filter.contains(t)
}

/// An empty filter allows every value; otherwise the value must be listed.
pub open spec fn spec_allow_reason(filter: Seq<Reason>, t: Reason) -> bool {
    filter.len() == 0 || filter.contains(t)
}

/// What a `Begin` payload denotes: its second word, an unsigned 32-bit
/// parent transaction id; any further words are ignored.
pub open spec fn spec_begin(s: Seq<char>) -> Option<int> {
    let ws = words_of(s);
    if ws.len() >= 2 {
        spec_uint_plus(ws[1], u32::MAX as int)
    } else {
        None
    }
}

/// Reads the parent transaction id out of a `Begin` payload.
pub fn try_parse_parent_vxid(s: &str) -> (r: Result<u32, ParseError>)
    ensures
        match r {
            Ok(v) => spec_begin(s@) == Some(v as int),
            Err(e) => spec_begin(s@) is None && e.tag@ == "Begin"@ && e.text@ == s@,
        },
{
    let ws = split_words(s);
    if ws.len() < 2 {
        return Err(ParseError { tag: "Begin".to_owned(), text: s.to_owned() });
    }
    match parse_uint_plus(ws[1].as_str(), u32::MAX as u64) {
        Some(v) => Ok(v as u32),
        None => Err(ParseError { tag: "Begin".to_owned(), text: s.to_owned() }),
    }
}

/// The cross-line state the transform accumulates while it walks a
/// transaction's lines.
pub ghost struct ScanState {
    pub parent_vxid: int,
    pub remoteip: Option<Seq<char>>,
    pub call_chain: Seq<Seq<char>>,
    pub timings: Map<Seq<char>, TimestampSpec>,
    pub req_headers: Map<Seq<char>, Seq<char>>,
    pub resp_headers: Map<Seq<char>, Seq<char>>,
    pub link: Option<VarnishLinkSpec>,
    pub req_method: Seq<char>,
    pub req_protocol: Seq<char>,
    pub req_url: Seq<char>,
    pub req_unset: Seq<Seq<char>>,
    pub accounting: Option<RequestAccounting>,
    pub resp_status: int,
    pub resp_protocol: Seq<char>,
    pub resp_unset: Seq<Seq<char>>,
    pub length: int,
    pub ttl: Option<VarnishTtlSpec>,
    pub handling: Option<CacheHandling>,
}

/// The state before any line is read.
pub open spec fn init_state() -> ScanState {
    ScanState {
        parent_vxid: 0,
        remoteip: None,
        call_chain: Seq::empty(),
        timings: Map::empty(),
        req_headers: Map::empty(),
        resp_headers: Map::empty(),
        link: None,
        req_method: Seq::empty(),
        req_protocol: Seq::empty(),
        req_url: Seq::empty(),
        req_unset: Seq::empty(),
        accounting: None,
        resp_status: 0,
        resp_protocol: Seq::empty(),
        resp_unset: Seq::empty(),
        length: 0,
        ttl: None,
        handling: None,
    }
}

/// What one line does to the state: carry on with a new state, drop the
/// whole transaction, or fail on unreadable payload.
pub ghost enum Step {
    Go(ScanState),
    Drop,
    Fail,
}

/// The handling verdict a lowercased `VCL_call` payload sets; unrecognized
/// payloads leave the verdict alone.
pub open spec fn vcl_call_handling(low: Seq<char>, prev: Option<CacheHandling>) -> Option<
    CacheHandling,
> {
    if low == "hit"@ {
        Some(CacheHandling::Hit)
    } else if low == "miss"@ {
        Some(CacheHandling::Miss)
    } else if low == "pass"@ {
        Some(CacheHandling::Pass)
    } else if low == "synth"@ {
        Some(CacheHandling::Synth)
    } else if low == "backend_error"@ {
        Some(CacheHandling::Error)
    } else {
        prev
    }
}

/// The per-tag dispatch, exactly as the transform applies it: client- and
/// backend-side tags populate the same fields, later writes win, and the
/// tags not listed here are ignored.
pub open spec fn step_line(cfg: ConfigSpec, st: ScanState, tag: Seq<char>, data: Seq<char>) -> Step {
    if tag == "HttpGarbage"@ {
        Step::Drop
    } else if tag == "Begin"@ {
        match spec_begin(data) {
            Some(v) => Step::Go(ScanState { parent_vxid: v, ..st }),
            None => Step::Fail,
        }
    } else if tag == "VCL_call"@ {
        Step::Go(
            ScanState {
                handling: vcl_call_handling(lower_seq(data), st.handling),
                call_chain: st.call_chain.push("Call "@ + data),
                ..st
            },
        )
    } else if tag == "VCL_return"@ {
        if lower_seq(data) == "restart"@ {
            Step::Drop
        } else {
            Step::Go(
                ScanState {
                    handling: if lower_seq(data) == "pipe"@ {
                        Some(CacheHandling::Pipe)
                    } else {
                        st.handling
                    },
                    call_chain: st.call_chain.push("Return "@ + data),
                    ..st
                },
            )
        }
    } else if tag == "Timestamp"@ {
        match spec_timestamp(data) {
            Some(t) => Step::Go(ScanState { timings: st.timings.insert(t.event, t), ..st }),
            None => Step::Fail,
        }
    } else if tag == "ReqMethod"@ || tag == "BereqMethod"@ {
        Step::Go(ScanState { req_method: data, ..st })
    } else if tag == "ReqProtocol"@ || tag == "BereqProtocol"@ {
        Step::Go(ScanState { req_protocol: data, ..st })
    } else if tag == "ReqURL"@ || tag == "BereqURL"@ {
        Step::Go(ScanState { req_url: data, ..st })
    } else if tag == "ReqUnset"@ || tag == "BereqUnset"@ {
        if cfg.track_headers {
            Step::Go(ScanState { req_unset: st.req_unset.push(data), ..st })
        } else {
            Step::Go(st)
        }
    } else if tag == "ReqStart"@ {
        match spec_reqstart(data) {
            Some(rs) => Step::Go(ScanState { remoteip: Some(rs.address), ..st }),
            None => Step::Fail,
        }
    } else if tag == "ReqHeader"@ || tag == "BereqHeader"@ {
        if !header_ok(data) {
            Step::Fail
        } else {
            let k = lower_seq(spec_header_name(data));
            let v = spec_header_value(data);
            let st1 = if cfg.ip_source matches IpSourceSpec::Header(name) && k == name {
                ScanState { remoteip: Some(spec_remote_ip(v)), ..st }
            } else {
                st
            };
            if cfg.req_headers.contains(k) {
                Step::Go(ScanState { req_headers: st1.req_headers.insert(k, v), ..st1 })
            } else {
                Step::Go(st1)
            }
        }
    } else if tag == "ReqAcct"@ || tag == "BereqAcct"@ {
        match spec_accounting(data) {
            Some(a) => Step::Go(ScanState { accounting: Some(a), ..st }),
            None => Step::Fail,
        }
    } else if tag == "Link"@ {
        match spec_link(data) {
            Some(l) => Step::Go(ScanState { link: Some(l), ..st }),
            None => Step::Fail,
        }
    } else if tag == "RespStatus"@ || tag == "BerespStatus"@ {
        match spec_status(data) {
            Some(v) => Step::Go(ScanState { resp_status: v, ..st }),
            None => Step::Fail,
        }
    } else if tag == "RespProtocol"@ || tag == "BerespProtocol"@ {
        Step::Go(ScanState { resp_protocol: data, ..st })
    } else if tag == "TTL"@ {
        match spec_ttl(data) {
            Some(t) => Step::Go(ScanState { ttl: Some(t), ..st }),
            None => Step::Fail,
        }
    } else if tag == "RespUnset"@ || tag == "BerespUnset"@ {
        if cfg.track_headers {
            Step::Go(ScanState { resp_unset: st.resp_unset.push(data), ..st })
        } else {
            Step::Go(st)
        }
    } else if tag == "RespHeader"@ || tag == "BerespHeader"@ {
        if !header_ok(data) {
            Step::Fail
        } else {
            let k = lower_seq(spec_header_name(data));
            let v = spec_header_value(data);
            let lres = if k == "content-length"@ {
                spec_uint_plus(v, u64::MAX as int)
            } else {
                Some(st.length)
            };
            match lres {
                None => Step::Fail,
                Some(l) => {
                    let st1 = ScanState { length: l, ..st };
                    if cfg.resp_headers.contains(k) {
                        Step::Go(ScanState { resp_headers: st1.resp_headers.insert(k, v), ..st1 })
                    } else {
                        Step::Go(st1)
                    }
                },
            }
        }
    } else if tag == "Length"@ {
        match spec_uint_plus(data, u64::MAX as int) {
            Some(l) => Step::Go(ScanState { length: l, ..st }),
            None => Step::Fail,
        }
    } else {
        Step::Go(st)
    }
}

/// What a whole line sequence does from position `i` on: the final state, a
/// drop, or a failure at the line whose index is carried.
pub ghost enum Scan {
    Go(ScanState),
    Drop,
    Fail(int),
}

/// Folds `step_line` over the lines from position `i` on.
pub open spec fn scan_lines(
    cfg: ConfigSpec,
    lines: Seq<crate::vsl::LineSpec>,
    i: int,
    st: ScanState,
) -> Scan
    decreases lines.len() - i,
{
    if i < 0 || i >= lines.len() {
        Scan::Go(st)
    } else {
        match step_line(cfg, st, lines[i].tag, lines[i].data) {
            Step::Go(st2) => scan_lines(cfg, lines, i + 1, st2),
            Step::Drop => Scan::Drop,
            Step::Fail => Scan::Fail(i),
        }
    }
}

/// The transaction's total duration, in microseconds: the start-relative
/// time of the completion event, preferring `Resp`, then `BerespBody`, then
/// `PipeSess`, then `Error`.
pub open spec fn spec_duration_usec(t: Map<Seq<char>, TimestampSpec>) -> Option<int> {
    if t.contains_key("Resp"@) {
        Some(t["Resp"@].since_start)
    } else if t.contains_key("BerespBody"@) {
        Some(t["BerespBody"@].since_start)
    } else if t.contains_key("PipeSess"@) {
        Some(t["PipeSess"@].since_start)
    } else if t.contains_key("Error"@) {
        Some(t["Error"@].since_start)
    } else {
        None
    }
}

/// The time to first byte, in microseconds: the start-relative time of the
/// first-byte event, preferring `Process`, then `Pipe`, then `Beresp`.
pub open spec fn spec_ttfb_usec(t: Map<Seq<char>, TimestampSpec>) -> Option<int> {
    if t.contains_key("Process"@) {
        Some(t["Process"@].since_start)
    } else if t.contains_key("Pipe"@) {
        Some(t["Pipe"@].since_start)
    } else if t.contains_key("Beresp"@) {
        Some(t["Beresp"@].since_start)
    } else {
        None
    }
}

/// The record a fully scanned transaction denotes: identity from the
/// transaction, fields from the final state, durations derived from the
/// timings, static tags copied from the configuration. An empty unset list
/// is absent, not empty.
pub open spec fn record_of(cfg: ConfigSpec, tx: TxSpec, st: ScanState) -> RecordSpec {
    RecordSpec {
        level: tx.level,
        vxid: tx.vxid,
        parent_vxid: st.parent_vxid,
        tx_type: tx.ty,
        reason: tx.reason,
        call_chain: st.call_chain,
        timings: st.timings,
        handling: st.handling,
        request: ReqSpec {
            remoteip: st.remoteip,
            url: st.req_url,
            method: st.req_method,
            protocol: st.req_protocol,
            headers: st.req_headers,
            unset: if st.req_unset.len() == 0 {
                None
            } else {
                Some(st.req_unset)
            },
        },
        response: RespSpec {
            status: st.resp_status,
            protocol: st.resp_protocol,
            headers: st.resp_headers,
            unset: if st.resp_unset.len() == 0 {
                None
            } else {
                Some(st.resp_unset)
            },
            length: st.length,
            ttl: st.ttl,
        },
        link: st.link,
        accounting: st.accounting,
        duration_usec: spec_duration_usec(st.timings),
        ttfb_usec: spec_ttfb_usec(st.timings),
        meta: cfg.meta,
    }
}

proof fn lemma_str_views_push(v: Seq<String>, s: String)
    ensures
        str_views(v.push(s)) == str_views(v).push(s@),
{
    assert(str_views(v.push(s)) =~= str_views(v).push(s@));
}

proof fn lemma_seq_lower_push(v: Seq<Seq<char>>, s: Seq<char>)
    ensures
        seq_lower(v.push(s)) == seq_lower(v).push(lower_seq(s)),
{
    assert(seq_lower(v.push(s)) =~= seq_lower(v).push(lower_seq(s)));
}

proof fn lemma_ts_map_insert(m: Map<Seq<char>, crate::vsl::parsers::Timestamp>, k: Seq<char>, v: crate::vsl::parsers::Timestamp)
    ensures
        ts_map_views(m.insert(k, v)) == ts_map_views(m).insert(k, v@),
{
    assert(ts_map_views(m.insert(k, v)) =~= ts_map_views(m).insert(k, v@));
}

proof fn lemma_str_map_insert(m: Map<Seq<char>, String>, k: Seq<char>, v: String)
    ensures
        str_map_views(m.insert(k, v)) == str_map_views(m).insert(k, v@),
{
    assert(str_map_views(m.insert(k, v)) =~= str_map_views(m).insert(k, v@));
}

/// Each sequence element, lowercased.
pub open spec fn seq_lower(ws: Seq<Seq<char>>) -> Seq<Seq<char>> {
    ws.map_values(|w: Seq<char>| lower_seq(w))
}

/// The view of an address source with a lowercased header name.
pub open spec fn lower_ip_source(s: IpSourceSpec) -> IpSourceSpec {
    match s {
        IpSourceSpec::Request => IpSourceSpec::Request,
        IpSourceSpec::Header(n) => IpSourceSpec::Header(lower_seq(n)),
    }
}

/// Whether some string of `list` views as `k`.
fn list_contains_str(list: &Vec<String>, k: &str) -> (r: bool)
    ensures
        r == str_views(list@).contains(k@),
{
    let n = list.len();
    let mut j: usize = 0;
    while j < n
        invariant
            n == list@.len(),
            j <= n,
            forall|m: int| 0 <= m < j ==> #[trigger] list@[m]@ != k@,
        decreases n - j,
    {
        if str_eq(list[j].as_str(), k) {
            proof {
                assert(str_views(list@)[j as int] == k@);
            }
            return true;
        }
        j = j + 1;
    }
    proof {
        if str_views(list@).contains(k@) {
            let m = choose|m: int|
                0 <= m < str_views(list@).len() && str_views(list@)[m] == k@;
            assert(list@[m]@ != k@);
        }
    }
    false
}

impl LogTransform {
    /// A transform that tracks nothing, filters nothing, and takes the
    /// remote address from the transport.
    pub fn new() -> (r: Self)
        ensures
            r@ == (ConfigSpec {
                req_headers: Seq::empty(),
                resp_headers: Seq::empty(),
                track_headers: false,
                meta: Map::empty(),
                ip_source: IpSourceSpec::Request,
                type_filter: Seq::empty(),
                reason_filter: Seq::empty(),
            }),
    {
        let r = LogTransform {
            req_header_list: Vec::new(),
            resp_header_list: Vec::new(),
            track_headers: false,
            meta: KvList::new(),
            ip_source: IpSource::Request,
            type_filter: Vec::new(),
            reason_filter: Vec::new(),
        };
        proof {
            assert(str_views(Seq::<String>::empty()) =~= Seq::<Seq<char>>::empty());
            assert(str_map_views(Map::<Seq<char>, String>::empty()) =~= Map::<
                Seq<char>,
                Seq<char>,
            >::empty());
        }
        r
    }

    /// Chooses whether unset headers are recorded.
    pub fn track_headers(self, d: bool) -> (r: Self)
        ensures
            r@ == (ConfigSpec { track_headers: d, ..self@ }),
    {
        LogTransform { track_headers: d, ..self }
    }

    /// Sets the request-header allow-list; names are kept lowercased.
    pub fn req_headers(self, headers: &Vec<String>) -> (r: Self)
        ensures
            r@ == (ConfigSpec { req_headers: seq_lower(str_views(headers@)), ..self@ }),
    {
        let lowered = lower_list(headers);
        LogTransform { req_header_list: lowered, ..self }
    }

    /// Sets the response-header allow-list; names are kept lowercased.
    pub fn resp_headers(self, headers: &Vec<String>) -> (r: Self)
        ensures
            r@ == (ConfigSpec { resp_headers: seq_lower(str_views(headers@)), ..self@ }),
    {
        let lowered = lower_list(headers);
        LogTransform { resp_header_list: lowered, ..self }
    }

    /// Sets the static tags copied into every record.
    pub fn meta(self, meta: KvList<String>) -> (r: Self)
        ensures
            r@ == (ConfigSpec { meta: str_map_views(meta@), ..self@ }),
    {
        LogTransform { meta, ..self }
    }

    /// Sets the remote-address source; a header name is kept lowercased.
    pub fn ip_source(self, source: &IpSource) -> (r: Self)
        ensures
            r@ == (ConfigSpec { ip_source: lower_ip_source(ip_source_view(source)), ..self@ }),
    {
        let s = match source {
            IpSource::Request => IpSource::Request,
            IpSource::Header { name } => IpSource::Header { name: to_lower(name.as_str()) },
        };
        LogTransform { ip_source: s, ..self }
    }

    /// Sets the transaction-type allow-list; an empty list allows all.
    pub fn type_filter(self, types: Vec<TxType>) -> (r: Self)
        ensures
            r@ == (ConfigSpec { type_filter: types@, ..self@ }),
    {
        LogTransform { type_filter: types, ..self }
    }

    /// Sets the reason allow-list; an empty list allows all.
    pub fn reason_filter(self, reasons: Vec<Reason>) -> (r: Self)
        ensures
            r@ == (ConfigSpec { reason_filter: reasons@, ..self@ }),
    {
        LogTransform { reason_filter: reasons, ..self }
    }

    /// Whether the type filter lets a transaction through.
    pub fn allow_type(&self, ty: TxType) -> (r: bool)
        ensures
            r == spec_allow_type(self@.type_filter, ty),
    {
        if self.type_filter.len() == 0 {
            return true;
        }
        let n = self.type_filter.len();
        let mut j: usize = 0;
        while j < n
            invariant
                n == self.type_filter@.len(),
                j <= n,
                forall|m: int| 0 <= m < j ==> self.type_filter@[m] != ty,
            decreases n - j,
        {
            if self.type_filter[j] == ty {
                proof {
                    assert(self.type_filter@.contains(ty));
                }
                return true;
            }
            j = j + 1;
        }
        proof {
            if self.type_filter@.contains(ty) {
                let m = choose|m: int|
                    0 <= m < self.type_filter@.len() && self.type_filter@[m] == ty;
            }
        }
        false
    }

    /// Whether the reason filter lets a transaction through.
    pub fn allow_reason(&self, reason: Reason) -> (r: bool)
        ensures
            r == spec_allow_reason(self@.reason_filter, reason),
    {
        if self.reason_filter.len() == 0 {
            return true;
        }
        let n = self.reason_filter.len();
        let mut j: usize = 0;
        while j < n
            invariant
                n == self.reason_filter@.len(),
                j <= n,
                forall|m: int| 0 <= m < j ==> self.reason_filter@[m] != reason,
            decreases n - j,
        {
            if self.reason_filter[j] == reason {
                proof {
                    assert(self.reason_filter@.contains(reason));
                }
                return true;
            }
            j = j + 1;
        }
        proof {
            if self.reason_filter@.contains(reason) {
                let m = choose|m: int|
                    0 <= m < self.reason_filter@.len() && self.reason_filter@[m] == reason;
            }
        }
        false
    }
}

/// Lowercases each string of a list.
fn lower_list(headers: &Vec<String>) -> (r: Vec<String>)
    ensures
        str_views(r@) == seq_lower(str_views(headers@)),
{
    let n = headers.len();
    let mut out: Vec<String> = Vec::new();
    let mut i: usize = 0;
    while i < n
        invariant
            n == headers@.len(),
            i <= n,
            str_views(out@) == seq_lower(str_views(headers@.subrange(0, i as int))),
        decreases n - i,
    {
        let low = to_lower(headers[i].as_str());
        proof {
            lemma_str_views_push(out@, low);
            assert(str_views(headers@.subrange(0, i + 1 as int)) =~= str_views(
                headers@.subrange(0, i as int),
            ).push(headers@[i as int]@));
            lemma_seq_lower_push(str_views(headers@.subrange(0, i as int)), headers@[i as int]@);
        }
        out.push(low);
        i = i + 1;
    }
    proof {
        assert(headers@.subrange(0, n as int) =~= headers@);
    }
    out
}

/// What the transform does with one transaction: emit a record, skip it
/// silently, or fail at the line whose index is carried.
pub ghost enum ProcessSpec {
    Emit(RecordSpec),
    Skip,
    Fail(int),
}

/// Whether some line of the stream carries the `HttpGarbage` tag.
pub open spec fn has_garbage(lines: Seq<crate::vsl::LineSpec>) -> bool {
    exists|i: int| 0 <= i < lines.len() && #[trigger] lines[i].tag == "HttpGarbage"@
}

/// The transform's whole behaviour: a transaction whose type or reason is
/// filtered out is skipped without reading a line; one that carries
/// `HttpGarbage` anywhere is skipped before any payload is read, so no
/// other line can fail it; otherwise the lines are folded in order, and
/// either some line drops the transaction, or some line's payload is
/// unreadable, or a record is emitted.
pub open spec fn spec_process(cfg: ConfigSpec, tx: TxSpec) -> ProcessSpec {
    if !(spec_allow_type(cfg.type_filter, tx.ty) && spec_allow_reason(cfg.reason_filter, tx.reason)) {
        ProcessSpec::Skip
    } else if has_garbage(tx.data) {
        ProcessSpec::Skip
    } else {
        match scan_lines(cfg, tx.data, 0, init_state()) {
            Scan::Go(st) => ProcessSpec::Emit(record_of(cfg, tx, st)),
            Scan::Drop => ProcessSpec::Skip,
            Scan::Fail(i) => ProcessSpec::Fail(i),
        }
    }
}

/// Whether stepping the lines from position `i` on, out of state `st`,
/// fails on some line before position `g` is reached.
pub open spec fn fails_before(
    cfg: ConfigSpec,
    lines: Seq<crate::vsl::LineSpec>,
    i: int,
    st: ScanState,
    g: int,
) -> bool
    decreases g - i,
{
    if i < 0 || i >= g || i >= lines.len() {
        false
    } else {
        match step_line(cfg, st, lines[i].tag, lines[i].data) {
            Step::Go(st2) => fails_before(cfg, lines, i + 1, st2, g),
            Step::Drop => false,
            Step::Fail => true,
        }
    }
}

/// A line that aborts the transform out of any state: an `HttpGarbage`
/// line, or a `VCL_return` whose lowercased payload is `restart`.
pub open spec fn dropping_line(l: crate::vsl::LineSpec) -> bool {
    l.tag == "HttpGarbage"@ || (l.tag == "VCL_return"@ && lower_seq(l.data) == "restart"@)
}

proof fn lemma_scan_drops_at(
    cfg: ConfigSpec,
    lines: Seq<crate::vsl::LineSpec>,
    i: int,
    st: ScanState,
    g: int,
)
    requires
        0 <= i <= g < lines.len(),
        dropping_line(lines[g]),
        !fails_before(cfg, lines, i, st, g),
    ensures
        scan_lines(cfg, lines, i, st) is Drop,
    decreases g - i,
{
    reveal_strlit("HttpGarbage");
    reveal_strlit("Begin");
    reveal_strlit("VCL_call");
    reveal_strlit("VCL_return");
    if i == g {
        assert("HttpGarbage"@.len() == 11);
        assert("Begin"@.len() == 5);
        assert("VCL_call"@.len() == 8);
        assert("VCL_return"@.len() == 10);
    } else {
        match step_line(cfg, st, lines[i].tag, lines[i].data) {
            Step::Go(st2) => {
                lemma_scan_drops_at(cfg, lines, i + 1, st2, g);
            },
            Step::Drop => {},
            Step::Fail => {},
        }
    }
}

/// Law: a transaction whose line stream holds `HttpGarbage` anywhere yields
/// no record and no error, whatever its other lines carry: the garbage drop
/// takes priority over every payload, readable or not.
pub proof fn lemma_http_garbage_skips(cfg: ConfigSpec, tx: TxSpec, g: int)
    requires
        0 <= g < tx.data.len(),
        tx.data[g].tag == "HttpGarbage"@,
    ensures
        spec_process(cfg, tx) is Skip,
{
    assert(has_garbage(tx.data));
}

/// Law: a transaction with a `VCL_return` line whose lowercased payload is
/// `restart` yields no record and no error — provided no earlier line's
/// payload is unreadable, since such a line fails the transform first.
pub proof fn lemma_restart_skips(cfg: ConfigSpec, tx: TxSpec, g: int)
    requires
        0 <= g < tx.data.len(),
        tx.data[g].tag == "VCL_return"@,
        lower_seq(tx.data[g].data) == "restart"@,
        !fails_before(cfg, tx.data, 0, init_state(), g),
    ensures
        spec_process(cfg, tx) is Skip,
{
    if spec_allow_type(cfg.type_filter, tx.ty) && spec_allow_reason(cfg.reason_filter, tx.reason) {
        lemma_scan_drops_at(cfg, tx.data, 0, init_state(), g);
    }
}

/// Law: a transaction whose type or reason the filters refuse is skipped,
/// whatever its lines carry: no line is read, so no parse error can arise.
pub proof fn lemma_filtered_skips(cfg: ConfigSpec, tx: TxSpec)
    requires
        !spec_allow_type(cfg.type_filter, tx.ty) || !spec_allow_reason(cfg.reason_filter, tx.reason),
    ensures
        spec_process(cfg, tx) is Skip,
{
}

/// Law: the completion timing is chosen by fixed preference — `Resp` over
/// `BerespBody` over `PipeSess` over `Error` — whenever several are present,
/// and is absent only when all four are.
pub proof fn lemma_duration_priority(t: Map<Seq<char>, TimestampSpec>)
    ensures
        t.contains_key("Resp"@) ==> spec_duration_usec(t) == Some(t["Resp"@].since_start),
        !t.contains_key("Resp"@) && t.contains_key("BerespBody"@) ==> spec_duration_usec(t) == Some(
            t["BerespBody"@].since_start,
        ),
        !t.contains_key("Resp"@) && !t.contains_key("BerespBody"@) && t.contains_key("PipeSess"@)
            ==> spec_duration_usec(t) == Some(t["PipeSess"@].since_start),
        !t.contains_key("Resp"@) && !t.contains_key("BerespBody"@) && !t.contains_key("PipeSess"@)
            && t.contains_key("Error"@) ==> spec_duration_usec(t) == Some(t["Error"@].since_start),
        !t.contains_key("Resp"@) && !t.contains_key("BerespBody"@) && !t.contains_key("PipeSess"@)
            && !t.contains_key("Error"@) ==> spec_duration_usec(t) is None,
{
}

/// The executable accumulator behind `ScanState`.
struct Accum {
    pub parent_vxid: u32,
    pub remoteip: Option<String>,
    pub call_chain: Vec<String>,
    pub timings: KvList<parsers::Timestamp>,
    pub req_headers: KvList<String>,
    pub resp_headers: KvList<String>,
    pub link: Option<parsers::VarnishLink>,
    pub req_method: String,
    pub req_protocol: String,
    pub req_url: String,
    pub req_unset: Vec<String>,
    pub accounting: Option<RequestAccounting>,
    pub resp_status: u16,
    pub resp_protocol: String,
    pub resp_unset: Vec<String>,
    pub length: u64,
    pub ttl: Option<parsers::VarnishTtl>,
    pub handling: Option<CacheHandling>,
}

impl View for Accum {
    type V = ScanState;

    closed spec fn view(&self) -> ScanState {
        ScanState {
            parent_vxid: self.parent_vxid as int,
            remoteip: crate::vsl::models::opt_str_view(self.remoteip),
            call_chain: str_views(self.call_chain@),
            timings: ts_map_views(self.timings@),
            req_headers: str_map_views(self.req_headers@),
            resp_headers: str_map_views(self.resp_headers@),
            link: crate::vsl::models::opt_link_view(self.link),
            req_method: self.req_method@,
            req_protocol: self.req_protocol@,
            req_url: self.req_url@,
            req_unset: str_views(self.req_unset@),
            accounting: self.accounting,
            resp_status: self.resp_status as int,
            resp_protocol: self.resp_protocol@,
            resp_unset: str_views(self.resp_unset@),
            length: self.length as int,
            ttl: crate::vsl::models::opt_ttl_view(self.ttl),
            handling: self.handling,
        }
    }
}

impl Accum {
    fn init() -> (r: Self)
        ensures
            r@ == init_state(),
    {
        let r = Accum {
            parent_vxid: 0,
            remoteip: None,
            call_chain: Vec::new(),
            timings: KvList::new(),
            req_headers: KvList::new(),
            resp_headers: KvList::new(),
            link: None,
            req_method: String::new(),
            req_protocol: String::new(),
            req_url: String::new(),
            req_unset: Vec::new(),
            accounting: None,
            resp_status: 0,
            resp_protocol: String::new(),
            resp_unset: Vec::new(),
            length: 0,
            ttl: None,
            handling: None,
        };
        proof {
            assert(str_views(Seq::<String>::empty()) =~= Seq::<Seq<char>>::empty());
            assert(ts_map_views(Map::<Seq<char>, parsers::Timestamp>::empty()) =~= Map::<
                Seq<char>,
                TimestampSpec,
            >::empty());
            assert(str_map_views(Map::<Seq<char>, String>::empty()) =~= Map::<
                Seq<char>,
                Seq<char>,
            >::empty());
        }
        r
    }
}

/// What applying one line came to.
enum ApplyOutcome {
    Carry,
    Halt,
    Failed(ParseError),
}

/// The error for a line whose payload could not be read.
fn line_error(line: &crate::vsl::LogLine) -> (r: ParseError)
    ensures
        r.tag@ == line.tag@,
        r.text@ == line.data@,
{
    ParseError { tag: line.tag.clone(), text: line.data.clone() }
}

impl LogTransform {
    /// Applies one tagged line to the accumulator, following `step_line`.
    #[verifier::rlimit(30)]
    fn apply_line(&self, acc: &mut Accum, line: &crate::vsl::LogLine) -> (r: ApplyOutcome)
        ensures
            match r {
                ApplyOutcome::Carry => step_line(self@, old(acc)@, line.tag@, line.data@)
                    == Step::Go(final(acc)@),
                ApplyOutcome::Halt => step_line(self@, old(acc)@, line.tag@, line.data@) is Drop,
                ApplyOutcome::Failed(e) => step_line(self@, old(acc)@, line.tag@, line.data@)
                    is Fail && e.tag@ == line.tag@ && e.text@ == line.data@,
            },
    {
        let tag = line.tag.as_str();
        let data = line.data.as_str();
        if str_eq(tag, "HttpGarbage") {
            return ApplyOutcome::Halt;
        }
        if str_eq(tag, "Begin") {
            match try_parse_parent_vxid(data) {
                Ok(v) => {
                    acc.parent_vxid = v;
                    return ApplyOutcome::Carry;
                },
                Err(_) => {
                    return ApplyOutcome::Failed(line_error(line));
                },
            }
        }
        if str_eq(tag, "VCL_call") {
            let low = to_lower(data);
            if str_eq(low.as_str(), "hit") {
                acc.handling = Some(CacheHandling::Hit);
            } else if str_eq(low.as_str(), "miss") {
                acc.handling = Some(CacheHandling::Miss);
            } else if str_eq(low.as_str(), "pass") {
                acc.handling = Some(CacheHandling::Pass);
            } else if str_eq(low.as_str(), "synth") {
                acc.handling = Some(CacheHandling::Synth);
            } else if str_eq(low.as_str(), "backend_error") {
                acc.handling = Some(CacheHandling::Error);
            }
            let mut entry = "Call ".to_owned();
            entry.append(data);
            proof {
                lemma_str_views_push(acc.call_chain@, entry);
            }
            acc.call_chain.push(entry);
            return ApplyOutcome::Carry;
        }
        if str_eq(tag, "VCL_return") {
            let low = to_lower(data);
            if str_eq(low.as_str(), "restart") {
                return ApplyOutcome::Halt;
            }
            if str_eq(low.as_str(), "pipe") {
                acc.handling = Some(CacheHandling::Pipe);
            }
            let mut entry = "Return ".to_owned();
            entry.append(data);
            proof {
                lemma_str_views_push(acc.call_chain@, entry);
            }
            acc.call_chain.push(entry);
            return ApplyOutcome::Carry;
        }
        if str_eq(tag, "Timestamp") {
            match parsers::parse_timestamp(data) {
                Ok(p) => {
                    let t = p.1;
                    let key = t.event.clone();
                    proof {
                        lemma_ts_map_insert(acc.timings@, key@, t);
                    }
                    acc.timings.insert(key, t);
                    return ApplyOutcome::Carry;
                },
                Err(_) => {
                    return ApplyOutcome::Failed(line_error(line));
                },
            }
        }
        if str_eq(tag, "ReqMethod") || str_eq(tag, "BereqMethod") {
            acc.req_method = line.data.clone();
            return ApplyOutcome::Carry;
        }
        if str_eq(tag, "ReqProtocol") || str_eq(tag, "BereqProtocol") {
            acc.req_protocol = line.data.clone();
            return ApplyOutcome::Carry;
        }
        if str_eq(tag, "ReqURL") || str_eq(tag, "BereqURL") {
            acc.req_url = line.data.clone();
            return ApplyOutcome::Carry;
        }
        if str_eq(tag, "ReqUnset") || str_eq(tag, "BereqUnset") {
            if self.track_headers {
                proof {
                    lemma_str_views_push(acc.req_unset@, line.data);
                }
                acc.req_unset.push(line.data.clone());
            }
            return ApplyOutcome::Carry;
        }
        if str_eq(tag, "ReqStart") {
            match parsers::reqstart(data) {
                Ok(rs) => {
                    acc.remoteip = Some(rs.address);
                    return ApplyOutcome::Carry;
                },
                Err(_) => {
                    return ApplyOutcome::Failed(line_error(line));
                },
            }
        }
        if str_eq(tag, "ReqHeader") || str_eq(tag, "BereqHeader") {
            match parsers::header(data) {
                Ok(kv) => {
                    let k = to_lower(kv.0.as_str());
                    let v = kv.1;
                    match &self.ip_source {
                        IpSource::Header { name } => {
                            if str_eq(k.as_str(), name.as_str()) {
                                match parsers::remote_ip(v.as_str()) {
                                    Ok(ip) => {
                                        acc.remoteip = Some(ip);
                                    },
                                    Err(_) => {
                                        return ApplyOutcome::Failed(line_error(line));
                                    },
                                }
                            }
                        },
                        IpSource::Request => {},
                    }
                    if list_contains_str(&self.req_header_list, k.as_str()) {
                        proof {
                            lemma_str_map_insert(acc.req_headers@, k@, v);
                        }
                        acc.req_headers.insert(k, v);
                    }
                    return ApplyOutcome::Carry;
                },
                Err(_) => {
                    return ApplyOutcome::Failed(line_error(line));
                },
            }
        }
        if str_eq(tag, "ReqAcct") || str_eq(tag, "BereqAcct") {
            match parsers::req_accounting(tag, data) {
                Ok(p) => {
                    acc.accounting = Some(p.1);
                    return ApplyOutcome::Carry;
                },
                Err(_) => {
                    return ApplyOutcome::Failed(line_error(line));
                },
            }
        }
        if str_eq(tag, "Link") {
            match parsers::link(tag, data) {
                Ok(p) => {
                    acc.link = Some(p.1);
                    return ApplyOutcome::Carry;
                },
                Err(_) => {
                    return ApplyOutcome::Failed(line_error(line));
                },
            }
        }
        if str_eq(tag, "RespStatus") || str_eq(tag, "BerespStatus") {
            match parsers::status(data) {
                Ok(v) => {
                    acc.resp_status = v;
                    return ApplyOutcome::Carry;
                },
                Err(_) => {
                    return ApplyOutcome::Failed(line_error(line));
                },
            }
        }
        if str_eq(tag, "RespProtocol") || str_eq(tag, "BerespProtocol") {
            acc.resp_protocol = line.data.clone();
            return ApplyOutcome::Carry;
        }
        if str_eq(tag, "TTL") {
            match parsers::ttl(tag, data) {
                Ok(p) => {
                    acc.ttl = Some(p.1);
                    return ApplyOutcome::Carry;
                },
                Err(_) => {
                    return ApplyOutcome::Failed(line_error(line));
                },
            }
        }
        if str_eq(tag, "RespUnset") || str_eq(tag, "BerespUnset") {
            if self.track_headers {
                proof {
                    lemma_str_views_push(acc.resp_unset@, line.data);
                }
                acc.resp_unset.push(line.data.clone());
            }
            return ApplyOutcome::Carry;
        }
        if str_eq(tag, "RespHeader") || str_eq(tag, "BerespHeader") {
            match parsers::header(data) {
                Ok(kv) => {
                    let k = to_lower(kv.0.as_str());
                    let v = kv.1;
                    if str_eq(k.as_str(), "content-length") {
                        match parsers::parse(v.as_str()) {
                            Ok(l) => {
                                acc.length = l;
                            },
                            Err(_) => {
                                return ApplyOutcome::Failed(line_error(line));
                            },
                        }
                    }
                    if list_contains_str(&self.resp_header_list, k.as_str()) {
                        proof {
                            lemma_str_map_insert(acc.resp_headers@, k@, v);
                        }
                        acc.resp_headers.insert(k, v);
                    }
                    return ApplyOutcome::Carry;
                },
                Err(_) => {
                    return ApplyOutcome::Failed(line_error(line));
                },
            }
        }
        if str_eq(tag, "Length") {
            match parsers::parse(data) {
                Ok(l) => {
                    acc.length = l;
                    return ApplyOutcome::Carry;
                },
                Err(_) => {
                    return ApplyOutcome::Failed(line_error(line));
                },
            }
        }
        ApplyOutcome::Carry
    }
}

/// Picks the completion timing in the preference order `Resp`,
/// `BerespBody`, `PipeSess`, `Error`.
fn pick_duration(t: &KvList<parsers::Timestamp>) -> (r: Option<i64>)
    ensures
        crate::vsl::models::opt_usec_view(r) == spec_duration_usec(ts_map_views(t@)),
{
    match t.get("Resp") {
        Some(ts) => Some(ts.since_start),
        None => match t.get("BerespBody") {
            Some(ts) => Some(ts.since_start),
            None => match t.get("PipeSess") {
                Some(ts) => Some(ts.since_start),
                None => match t.get("Error") {
                    Some(ts) => Some(ts.since_start),
                    None => None,
                },
            },
        },
    }
}

/// Picks the first-byte timing in the preference order `Process`, `Pipe`,
/// `Beresp`.
fn pick_ttfb(t: &KvList<parsers::Timestamp>) -> (r: Option<i64>)
    ensures
        crate::vsl::models::opt_usec_view(r) == spec_ttfb_usec(ts_map_views(t@)),
{
    match t.get("Process") {
        Some(ts) => Some(ts.since_start),
        None => match t.get("Pipe") {
            Some(ts) => Some(ts.since_start),
            None => match t.get("Beresp") {
                Some(ts) => Some(ts.since_start),
                None => None,
            },
        },
    }
}

impl LogTransform {
    /// Transforms one transaction. A transaction whose type or reason is
    /// filtered out, or that carries `HttpGarbage`, or whose VCL restarts,
    /// yields no record and no error; a payload that cannot be read yields
    /// the error for its line; anything else yields exactly the record that
    /// `spec_process` names.
    pub fn process_txn(&self, tx: &LogTransaction) -> (r: Result<Option<LogRecord>, ParseError>)
        ensures
            match r {
                Ok(Some(rec)) => spec_process(self@, tx@) == ProcessSpec::Emit(rec@),
                Ok(None) => spec_process(self@, tx@) is Skip,
                Err(e) => spec_process(self@, tx@) matches ProcessSpec::Fail(i) && 0 <= i
                    < tx@.data.len() && e.tag@ == tx@.data[i].tag && e.text@ == tx@.data[i].data,
            },
    {
        if !(self.allow_type(tx.ty) && self.allow_reason(tx.reason)) {
            return Ok(None);
        }
        let n = tx.data.len();
        let mut g: usize = 0;
        while g < n
            invariant
                n == tx.data@.len(),
                g <= n,
                spec_allow_type(self@.type_filter, tx@.ty),
                spec_allow_reason(self@.reason_filter, tx@.reason),
                forall|j: int| 0 <= j < g ==> #[trigger] tx@.data[j].tag != "HttpGarbage"@,
            decreases n - g,
        {
            let gl = &tx.data[g];
            proof {
                assert(tx@.data[g as int] == gl@);
            }
            if str_eq(gl.tag.as_str(), "HttpGarbage") {
                proof {
                    assert(tx@.data[g as int].tag == "HttpGarbage"@);
                    assert(has_garbage(tx@.data));
                }
                return Ok(None);
            }
            g = g + 1;
        }
        proof {
            if has_garbage(tx@.data) {
                let j = choose|j: int|
                    0 <= j < tx@.data.len() && tx@.data[j].tag == "HttpGarbage"@;
            }
            assert(!has_garbage(tx@.data));
        }
        let mut acc = Accum::init();
        let mut i: usize = 0;
        while i < n
            invariant
                n == tx.data@.len(),
                i <= n,
                spec_allow_type(self@.type_filter, tx@.ty),
                spec_allow_reason(self@.reason_filter, tx@.reason),
                !has_garbage(tx@.data),
                scan_lines(self@, tx@.data, 0, init_state()) == scan_lines(
                    self@,
                    tx@.data,
                    i as int,
                    acc@,
                ),
            decreases n - i,
        {
            let line = &tx.data[i];
            proof {
                assert(tx@.data[i as int] == line@);
            }
            let ghost pre = acc@;
            match self.apply_line(&mut acc, line) {
                ApplyOutcome::Carry => {
                    proof {
                        assert(scan_lines(self@, tx@.data, i as int, pre) == scan_lines(
                            self@,
                            tx@.data,
                            i + 1 as int,
                            acc@,
                        ));
                    }
                },
                ApplyOutcome::Halt => {
                    proof {
                        assert(scan_lines(self@, tx@.data, i as int, pre) == Scan::Drop);
                    }
                    return Ok(None);
                },
                ApplyOutcome::Failed(e) => {
                    proof {
                        assert(scan_lines(self@, tx@.data, i as int, pre) == Scan::Fail(i as int));
                        assert(scan_lines(self@, tx@.data, 0, init_state()) == Scan::Fail(
                            i as int,
                        ));
                        assert(spec_allow_type(self@.type_filter, tx@.ty));
                        assert(spec_allow_reason(self@.reason_filter, tx@.reason));
                        assert(spec_process(self@, tx@) == ProcessSpec::Fail(i as int));
                    }
                    return Err(e);
                },
            }
            i = i + 1;
        }
        let duration_usec = pick_duration(&acc.timings);
        let ttfb_usec = pick_ttfb(&acc.timings);
        let req_unset: Option<Vec<String>> = if acc.req_unset.is_empty() {
            None
        } else {
            Some(acc.req_unset)
        };
        let resp_unset: Option<Vec<String>> = if acc.resp_unset.is_empty() {
            None
        } else {
            Some(acc.resp_unset)
        };
        let request = crate::vsl::models::LogRequest {
            remoteip: acc.remoteip,
            url: acc.req_url,
            method: acc.req_method,
            protocol: acc.req_protocol,
            headers: acc.req_headers,
            unset: req_unset,
        };
        let response = crate::vsl::models::LogResponse {
            status: acc.resp_status,
            protocol: acc.resp_protocol,
            headers: acc.resp_headers,
            unset: resp_unset,
            length: acc.length,
            ttl: acc.ttl,
        };
        let rec = LogRecord {
            level: tx.level,
            vxid: tx.vxid,
            parent_vxid: acc.parent_vxid,
            tx_type: tx.ty,
            reason: tx.reason,
            call_chain: acc.call_chain,
            timings: acc.timings,
            handling: acc.handling,
            request,
            response,
            link: acc.link,
            accounting: acc.accounting,
            duration_usec,
            ttfb_usec,
            meta: self.meta.duplicate(),
        };
        Ok(Some(rec))
    }
}

} // verus!
