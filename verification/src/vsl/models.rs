//! The typed values a transaction transform produces: transaction kinds and
//! reasons, the cache handling verdict, and the output record's parts.
use crate::kv::KvList;
use crate::text::str_views;
use crate::vsl::parsers::{
    RequestAccounting, Timestamp, TimestampSpec, VarnishLink, VarnishLinkSpec, VarnishTtl,
    VarnishTtlSpec,
};
use vstd::prelude::*;

verus! {

/// The views of a string-valued map's values.
pub open spec fn str_map_views(m: Map<Seq<char>, String>) -> Map<Seq<char>, Seq<char>> {
    m.map_values(|v: String| v@)
}

/// The views of a timestamp-valued map's values.
pub open spec fn ts_map_views(m: Map<Seq<char>, Timestamp>) -> Map<Seq<char>, TimestampSpec> {
    m.map_values(|t: Timestamp| t@)
}

/// The view of an optional string.
pub open spec fn opt_str_view(v: Option<String>) -> Option<Seq<char>> {
    match v {
        Some(s) => Some(s@),
        None => None,
    }
}

/// The views of an optional string list.
pub open spec fn opt_strs_view(v: Option<Vec<String>>) -> Option<Seq<Seq<char>>> {
    match v {
        Some(s) => Some(str_views(s@)),
        None => None,
    }
}

/// Where the remote address of a request is taken from: the transport's own
/// address, or a named (lowercased) request header.
#[derive(Debug, Clone)]
pub enum IpSource {
    Request,
    Header { name: String },
}

/// The kind of a transaction, decoded from the provider's numeric code.
#[derive(Debug, Copy, Clone, PartialEq, Eq, Structural)]
pub enum TxType {
    Unknown,
    Session,
    Request,
    BackendRequest,
    Raw,
}

impl From<u32> for TxType {
    fn from(c: u32) -> (r: TxType) {
        match c {
            1u32 => TxType::Session,
            2u32 => TxType::Request,
            3u32 => TxType::BackendRequest,
            4u32 => TxType::Raw,
            _ => TxType::Unknown,
        }
    }
}

impl vstd::std_specs::convert::FromSpecImpl<u32> for TxType {
    open spec fn obeys_from_spec() -> bool {
        true
    }

    open spec fn from_spec(c: u32) -> TxType {
        if c == 1 {
            TxType::Session
        } else if c == 2 {
            TxType::Request
        } else if c == 3 {
            TxType::BackendRequest
        } else if c == 4 {
            TxType::Raw
        } else {
            TxType::Unknown
        }
    }
}

/// Why a transaction was started, decoded from the provider's numeric code.
#[derive(Debug, Copy, Clone, PartialEq, Eq, Structural)]
pub enum Reason {
    Unknown,
    Http1,
    RxReq,
    Esi,
    Restart,
    Pass,
    Fetch,
    BgFetch,
    Pipe,
    NotHandled(u32),
}

impl From<u32> for Reason {
    fn from(c: u32) -> (r: Reason) {
        match c {
            0u32 => Reason::Unknown,
            1u32 => Reason::Http1,
            2u32 => Reason::RxReq,
            3u32 => Reason::Esi,
            4u32 => Reason::Restart,
            5u32 => Reason::Pass,
            6u32 => Reason::Fetch,
            7u32 => Reason::BgFetch,
            8u32 => Reason::Pipe,
            v => Reason::NotHandled(v),
        }
    }
}

impl vstd::std_specs::convert::FromSpecImpl<u32> for Reason {
    open spec fn obeys_from_spec() -> bool {
        true
    }

    open spec fn from_spec(c: u32) -> Reason {
        if c == 0 {
            Reason::Unknown
        } else if c == 1 {
            Reason::Http1
        } else if c == 2 {
            Reason::RxReq
        } else if c == 3 {
            Reason::Esi
        } else if c == 4 {
            Reason::Restart
        } else if c == 5 {
            Reason::Pass
        } else if c == 6 {
            Reason::Fetch
        } else if c == 7 {
            Reason::BgFetch
        } else if c == 8 {
            Reason::Pipe
        } else {
            Reason::NotHandled(c)
        }
    }
}

/// How the cache handled the transaction, as decided by the VCL call and
/// return tags.
#[derive(Debug, Copy, Clone, PartialEq, Eq, Structural)]
pub enum CacheHandling {
    Hit,
    Miss,
    Pass,
    Synth,
    Pipe,
    Error,
}

/// The request side of an output record.
#[derive(Debug)]
pub struct LogRequest {
    pub remoteip: Option<String>,
    pub url: String,
    pub method: String,
    pub protocol: String,
    pub headers: KvList<String>,
    pub unset: Option<Vec<String>>,
}

/// The response side of an output record.
#[derive(Debug)]
pub struct LogResponse {
    pub status: u16,
    pub protocol: String,
    pub headers: KvList<String>,
    pub unset: Option<Vec<String>>,
    pub length: u64,
    pub ttl: Option<VarnishTtl>,
}

/// The mathematical shape of the request side.
pub ghost struct ReqSpec {
    pub remoteip: Option<Seq<char>>,
    pub url: Seq<char>,
    pub method: Seq<char>,
    pub protocol: Seq<char>,
    pub headers: Map<Seq<char>, Seq<char>>,
    pub unset: Option<Seq<Seq<char>>>,
}

impl View for LogRequest {
    type V = ReqSpec;

    open spec fn view(&self) -> ReqSpec {
        ReqSpec {
            remoteip: opt_str_view(self.remoteip),
            url: self.url@,
            method: self.method@,
            protocol: self.protocol@,
            headers: str_map_views(self.headers@),
            unset: opt_strs_view(self.unset),
        }
    }
}

/// The mathematical shape of the response side.
pub ghost struct RespSpec {
    pub status: int,
    pub protocol: Seq<char>,
    pub headers: Map<Seq<char>, Seq<char>>,
    pub unset: Option<Seq<Seq<char>>>,
    pub length: int,
    pub ttl: Option<VarnishTtlSpec>,
}

/// The view of an optional TTL record.
pub open spec fn opt_ttl_view(v: Option<VarnishTtl>) -> Option<VarnishTtlSpec> {
    match v {
        Some(t) => Some(t@),
        None => None,
    }
}

impl View for LogResponse {
    type V = RespSpec;

    open spec fn view(&self) -> RespSpec {
        RespSpec {
            status: self.status as int,
            protocol: self.protocol@,
            headers: str_map_views(self.headers@),
            unset: opt_strs_view(self.unset),
            length: self.length as int,
            ttl: opt_ttl_view(self.ttl),
        }
    }
}

/// The view of an optional link.
pub open spec fn opt_link_view(v: Option<VarnishLink>) -> Option<VarnishLinkSpec> {
    match v {
        Some(l) => Some(l@),
        None => None,
    }
}

/// The view of an optional microsecond count.
pub open spec fn opt_usec_view(v: Option<i64>) -> Option<int> {
    match v {
        Some(x) => Some(x as int),
        None => None,
    }
}

/// The mathematical shape of one output record.
pub ghost struct RecordSpec {
    pub level: int,
    pub vxid: int,
    pub parent_vxid: int,
    pub tx_type: TxType,
    pub reason: Reason,
    pub call_chain: Seq<Seq<char>>,
    pub timings: Map<Seq<char>, TimestampSpec>,
    pub handling: Option<CacheHandling>,
    pub request: ReqSpec,
    pub response: RespSpec,
    pub link: Option<VarnishLinkSpec>,
    pub accounting: Option<RequestAccounting>,
    pub duration_usec: Option<int>,
    pub ttfb_usec: Option<int>,
    pub meta: Map<Seq<char>, Seq<char>>,
}

/// One fully transformed transaction, handed by value to a sink and never
/// mutated after construction. Durations are in whole microseconds.
#[derive(Debug)]
pub struct LogRecord {
    pub level: u32,
    pub vxid: u32,
    pub parent_vxid: u32,
    pub tx_type: TxType,
    pub reason: Reason,
    pub call_chain: Vec<String>,
    pub timings: KvList<Timestamp>,
    pub handling: Option<CacheHandling>,
    pub request: LogRequest,
    pub response: LogResponse,
    pub link: Option<VarnishLink>,
    pub accounting: Option<RequestAccounting>,
    pub duration_usec: Option<i64>,
    pub ttfb_usec: Option<i64>,
    pub meta: KvList<String>,
}

impl View for LogRecord {
    type V = RecordSpec;

    open spec fn view(&self) -> RecordSpec {
        RecordSpec {
            level: self.level as int,
            vxid: self.vxid as int,
            parent_vxid: self.parent_vxid as int,
            tx_type: self.tx_type,
            reason: self.reason,
            call_chain: str_views(self.call_chain@),
            timings: ts_map_views(self.timings@),
            handling: self.handling,
            request: self.request@,
            response: self.response@,
            link: opt_link_view(self.link),
            accounting: self.accounting,
            duration_usec: opt_usec_view(self.duration_usec),
            ttfb_usec: opt_usec_view(self.ttfb_usec),
            meta: str_map_views(self.meta@),
        }
    }
}

} // verus!
