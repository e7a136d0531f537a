//! The configuration surface: input source, output destination and logging
//! options, with their defaults, and the construction of a transform from
//! the logging options.
use crate::kv::KvList;
use crate::text::str_views;
use crate::vsl::models::str_map_views;
use crate::vsl::transform::{
    ip_source_view, lower_ip_source, seq_lower, ConfigSpec, LogTransform,
};
use crate::vsl::{IpSource, LogGrouping, Reason, TxType};
use vstd::prelude::*;

verus! {

/// The default shared-memory connection timeout, in seconds.
pub fn default_shm_connect_timeout() -> (r: u64)
    ensures
        r == 5,
{
    5
}

/// The default network-sink connection timeout, in seconds.
pub fn default_connect_timeout() -> (r: u64)
    ensures
        r == 5,
{
    5
}

/// The default interval between reconnection attempts, in seconds.
pub fn default_retry_interval() -> (r: u64)
    ensures
        r == 5,
{
    5
}

/// The default number of network sender workers.
pub fn default_tcp_sender_threads() -> (r: u64)
    ensures
        r == 2,
{
    2
}

/// Where the log source lives and how long to wait for it.
#[derive(Debug)]
pub struct InputConfig {
    pub connect_timeout_secs: u64,
    pub path: Option<String>,
}

impl Default for InputConfig {
    fn default() -> (r: Self)
        ensures
            r.connect_timeout_secs == 5,
            r.path is None,
    {
        InputConfig { connect_timeout_secs: default_shm_connect_timeout(), path: None }
    }
}

/// Where records go: the console, a pool of network senders, or nowhere.
#[derive(Debug)]
pub enum OutputConfig {
    Stdout,
    Tcp {
        host: String,
        port: u16,
        connect_timeout_secs: u64,
        retry_interval_secs: u64,
        sender_threads: u64,
    },
    Null,
}

impl Default for OutputConfig {
    fn default() -> (r: Self)
        ensures
            r is Stdout,
    {
        OutputConfig::Stdout
    }
}

/// The grouping modes the configuration file offers.
#[derive(Debug, Copy, Clone, PartialEq, Eq, Structural)]
pub enum Grouping {
    Vxid,
    Request,
}

impl Grouping {
    /// The provider grouping a configured mode stands for.
    pub fn to_grouping(self) -> (r: LogGrouping)
        ensures
            self is Vxid ==> r is Vxid,
            self is Request ==> r is Request,
    {
        match self {
            Grouping::Vxid => LogGrouping::Vxid,
            Grouping::Request => LogGrouping::Request,
        }
    }
}

/// The transaction types the configuration file offers.
#[derive(Debug, Copy, Clone, PartialEq, Eq, Structural)]
pub enum LogType {
    Session,
    Request,
    BackendRequest,
    Raw,
}

impl From<LogType> for TxType {
    fn from(t: LogType) -> (r: TxType) {
        match t {
            LogType::Session => TxType::Session,
            LogType::Request => TxType::Request,
            LogType::BackendRequest => TxType::BackendRequest,
            LogType::Raw => TxType::Raw,
        }
    }
}

impl vstd::std_specs::convert::FromSpecImpl<LogType> for TxType {
    open spec fn obeys_from_spec() -> bool {
        true
    }

    open spec fn from_spec(t: LogType) -> TxType {
        match t {
            LogType::Session => TxType::Session,
            LogType::Request => TxType::Request,
            LogType::BackendRequest => TxType::BackendRequest,
            LogType::Raw => TxType::Raw,
        }
    }
}

/// The transaction reasons the configuration file offers.
#[derive(Debug, Copy, Clone, PartialEq, Eq, Structural)]
pub enum ReasonType {
    Unknown,
    Http1,
    RxReq,
    Esi,
    Restart,
    Pass,
    Fetch,
    BgFetch,
    Pipe,
}

impl From<ReasonType> for Reason {
    fn from(t: ReasonType) -> (r: Reason) {
        match t {
            ReasonType::Unknown => Reason::Unknown,
            ReasonType::Http1 => Reason::Http1,
            ReasonType::RxReq => Reason::RxReq,
            ReasonType::Esi => Reason::Esi,
            ReasonType::Restart => Reason::Restart,
            ReasonType::Pass => Reason::Pass,
            ReasonType::Fetch => Reason::Fetch,
            ReasonType::BgFetch => Reason::BgFetch,
            ReasonType::Pipe => Reason::Pipe,
        }
    }
}

impl vstd::std_specs::convert::FromSpecImpl<ReasonType> for Reason {
    open spec fn obeys_from_spec() -> bool {
        true
    }

    open spec fn from_spec(t: ReasonType) -> Reason {
        match t {
            ReasonType::Unknown => Reason::Unknown,
            ReasonType::Http1 => Reason::Http1,
            ReasonType::RxReq => Reason::RxReq,
            ReasonType::Esi => Reason::Esi,
            ReasonType::Restart => Reason::Restart,
            ReasonType::Pass => Reason::Pass,
            ReasonType::Fetch => Reason::Fetch,
            ReasonType::BgFetch => Reason::BgFetch,
            ReasonType::Pipe => Reason::Pipe,
        }
    }
}

/// What to keep of each transaction and how to read the stream.
#[derive(Debug)]
pub struct LoggingConfig {
    pub track_headers: bool,
    pub request_headers: Vec<String>,
    pub response_headers: Vec<String>,
    pub tags: KvList<String>,
    pub query: String,
    pub ip_source: IpSource,
    pub grouping: LogGrouping,
    pub type_filter: Vec<LogType>,
    pub reason_filter: Vec<ReasonType>,
    pub tail: bool,
}

impl Default for LoggingConfig {
    fn default() -> (r: Self)
        ensures
            !r.track_headers,
            r.request_headers@.len() == 0,
            r.response_headers@.len() == 0,
            r.tags@ == Map::<Seq<char>, String>::empty(),
            r.query@.len() == 0,
            r.ip_source is Request,
            r.grouping is Vxid,
            r.type_filter@.len() == 0,
            r.reason_filter@.len() == 0,
            r.tail,
    {
        LoggingConfig {
            track_headers: false,
            request_headers: Vec::new(),
            response_headers: Vec::new(),
            tags: KvList::new(),
            query: String::new(),
            ip_source: IpSource::Request,
            grouping: LogGrouping::Vxid,
            type_filter: Vec::new(),
            reason_filter: Vec::new(),
            tail: true,
        }
    }
}

/// The whole configuration: input, output, logging.
#[derive(Debug)]
pub struct Config {
    pub input: InputConfig,
    pub output: OutputConfig,
    pub logging: LoggingConfig,
}

/// The transform the logging options call for: the header allow-lists
/// lowercased, header tracking and address source as configured, the static
/// tags copied, and no type or reason filter — those are applied where the
/// ingestion is set up.
pub fn transform_from_config(config: &LoggingConfig) -> (t: LogTransform)
    ensures
        t@ == (ConfigSpec {
            req_headers: seq_lower(str_views(config.request_headers@)),
            resp_headers: seq_lower(str_views(config.response_headers@)),
            track_headers: config.track_headers,
            meta: str_map_views(config.tags@),
            ip_source: lower_ip_source(ip_source_view(&config.ip_source)),
            type_filter: Seq::empty(),
            reason_filter: Seq::empty(),
        }),
{
    let t = LogTransform::new();
    t.req_headers(&config.request_headers).resp_headers(&config.response_headers).track_headers(
        config.track_headers,
    ).meta(config.tags.duplicate()).ip_source(&config.ip_source)
}

} // verus!
