use vapi::config::{
    default_connect_timeout, default_retry_interval, default_shm_connect_timeout,
    default_tcp_sender_threads, transform_from_config, Grouping, InputConfig, LogType,
    LoggingConfig, OutputConfig, ReasonType,
};
use vapi::kv::KvList;
use vapi::text::{split_words, str_eq, to_lower};
use vapi::vsl::models::IpSource;
use vapi::{Builder, LogGrouping, LogLine, LogTransaction, Reason, RecordType, TxType, VarnishError};

#[test]
fn defaults_match_the_documented_values() {
    assert_eq!(default_connect_timeout(), 5);
    assert_eq!(default_retry_interval(), 5);
    assert_eq!(default_shm_connect_timeout(), 5);
    assert_eq!(default_tcp_sender_threads(), 2);

    let i = InputConfig::default();
    assert_eq!(i.connect_timeout_secs, 5);
    assert!(i.path.is_none());

    let o = OutputConfig::default();
    assert!(matches!(o, OutputConfig::Stdout));

    let l = LoggingConfig::default();
    assert!(!l.track_headers);
    assert!(l.request_headers.is_empty());
    assert!(l.response_headers.is_empty());
    assert_eq!(l.query, "");
    assert!(matches!(l.ip_source, IpSource::Request));
    assert_eq!(l.grouping, LogGrouping::Vxid);
    assert!(l.type_filter.is_empty());
    assert!(l.reason_filter.is_empty());
    assert!(l.tail);
}

#[test]
fn config_enums_convert() {
    assert_eq!(TxType::from(LogType::Session), TxType::Session);
    assert_eq!(TxType::from(LogType::BackendRequest), TxType::BackendRequest);
    assert_eq!(Reason::from(ReasonType::BgFetch), Reason::BgFetch);
    assert_eq!(Reason::from(ReasonType::Unknown), Reason::Unknown);
    assert_eq!(Grouping::Vxid.to_grouping(), LogGrouping::Vxid);
    assert_eq!(Grouping::Request.to_grouping(), LogGrouping::Request);
}

#[test]
fn transform_from_config_lowercases_and_copies() {
    let mut cfg = LoggingConfig::default();
    cfg.request_headers = vec!["X-Request-ID".to_string()];
    cfg.response_headers = vec!["Content-Type".to_string()];
    cfg.track_headers = true;
    let mut tags: KvList<String> = KvList::new();
    tags.insert("dc".to_string(), "eu-1".to_string());
    cfg.tags = tags;
    cfg.ip_source = IpSource::Header {
        name: "X-Real-IP".to_string(),
    };
    let t = transform_from_config(&cfg);

    let tx = LogTransaction {
        level: 0,
        vxid: 1,
        parent_vxid: 0,
        ty: TxType::Request,
        reason: Reason::RxReq,
        data: vec![
            LogLine {
                vxid: 1,
                tag: "ReqHeader".to_string(),
                data: "X-Request-Id: abc".to_string(),
                ty: RecordType::Client,
            },
            LogLine {
                vxid: 1,
                tag: "ReqHeader".to_string(),
                data: "X-REAL-IP: 192.0.2.7:9999".to_string(),
                ty: RecordType::Client,
            },
            LogLine {
                vxid: 1,
                tag: "ReqUnset".to_string(),
                data: "X-Old: v".to_string(),
                ty: RecordType::Client,
            },
        ],
    };
    let rec = t.process_txn(&tx).unwrap().unwrap();
    assert_eq!(
        rec.request.headers.get("x-request-id"),
        Some(&"abc".to_string())
    );
    assert_eq!(rec.request.remoteip, Some("192.0.2.7".to_string()));
    assert_eq!(rec.request.unset, Some(vec!["X-Old: v".to_string()]));
    assert_eq!(rec.meta.get("dc"), Some(&"eu-1".to_string()));
}

#[test]
fn builder_accumulates_path_and_timeout() {
    let mut b = Builder::new();
    assert!(b.path_value().is_none());
    assert!(b.timeout_value().is_none());
    b.path("/var/lib/varnish/instance".to_string());
    b.timeout(30);
    assert_eq!(
        b.path_value().as_deref(),
        Some("/var/lib/varnish/instance")
    );
    assert_eq!(b.timeout_value(), Some(30));
}

#[test]
fn error_messages_name_the_failure() {
    assert_eq!(VarnishError::LogOverrun.message(), "Log overrun");
    assert_eq!(VarnishError::IOError.message(), "I/O read error");
    assert_eq!(
        VarnishError::VSMError("attach failed".to_string()).message(),
        "VSM Error: attach failed"
    );
    assert_eq!(
        VarnishError::VSLError("no vsl".to_string()).message(),
        "VSL Error: no vsl"
    );
    assert_eq!(
        VarnishError::CallbackError("x".to_string()).message(),
        "Callback Error: x"
    );
}

#[test]
fn kv_list_is_a_last_write_wins_map() {
    let mut kv: KvList<u32> = KvList::new();
    assert!(!kv.contains_key("a"));
    kv.insert("a".to_string(), 1);
    kv.insert("b".to_string(), 2);
    kv.insert("a".to_string(), 3);
    assert_eq!(kv.get("a"), Some(&3));
    assert_eq!(kv.get("b"), Some(&2));
    assert_eq!(kv.get("c"), None);
    assert_eq!(kv.entries().len(), 3);
}

#[test]
fn text_utilities_behave() {
    let ws = split_words("  one  two\tthree ");
    assert_eq!(
        ws,
        vec!["one".to_string(), "two".to_string(), "three".to_string()]
    );
    assert_eq!(split_words(""), Vec::<String>::new());
    assert!(str_eq("abc", "abc"));
    assert!(!str_eq("abc", "abd"));
    assert!(!str_eq("abc", "ab"));
    assert_eq!(to_lower("MiXeD-123"), "mixed-123");
}
