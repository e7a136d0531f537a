use vapi::kv::KvList;
use vapi::vsl::models::{CacheHandling, IpSource};
use vapi::vsl::transform::LogTransform;
use vapi::{LogLine, LogTransaction, Reason, RecordType, TxType};

fn line(tag: &str, data: &str) -> LogLine {
    LogLine {
        vxid: 1001,
        tag: tag.to_string(),
        data: data.to_string(),
        ty: RecordType::Client,
    }
}

fn tx_with(data: Vec<LogLine>) -> LogTransaction {
    LogTransaction {
        level: 0,
        vxid: 1001,
        parent_vxid: 0,
        ty: TxType::Request,
        reason: Reason::RxReq,
        data,
    }
}

#[test]
fn end_to_end_record() {
    let t = LogTransform::new();
    let tx = tx_with(vec![
        line("Begin", "0 5 req"),
        line("ReqMethod", "GET"),
        line("ReqURL", "/x"),
        line("RespStatus", "200"),
        line("Timestamp", "Resp: 10.0 0.01 0.005"),
    ]);
    let rec = t.process_txn(&tx).unwrap().unwrap();
    assert_eq!(rec.parent_vxid, 5);
    assert_eq!(rec.request.method, "GET");
    assert_eq!(rec.request.url, "/x");
    assert_eq!(rec.response.status, 200);
    assert_eq!(rec.duration_usec, Some(10_000));
    assert_eq!(rec.level, 0);
    assert_eq!(rec.vxid, 1001);
    assert_eq!(rec.tx_type, TxType::Request);
    assert_eq!(rec.reason, Reason::RxReq);
    assert_eq!(rec.ttfb_usec, None);
}

#[test]
fn http_garbage_always_drops() {
    let t = LogTransform::new();
    let tx = tx_with(vec![
        line("ReqMethod", "GET"),
        line("HttpGarbage", "junk"),
        line("RespStatus", "not a number"),
    ]);
    assert!(t.process_txn(&tx).unwrap().is_none());
    // the garbage drop takes priority even over an earlier unreadable payload
    let tx2 = tx_with(vec![
        line("Begin", "unreadable"),
        line("HttpGarbage", ""),
    ]);
    assert!(t.process_txn(&tx2).unwrap().is_none());
}

#[test]
fn vcl_restart_drops() {
    let t = LogTransform::new();
    let tx = tx_with(vec![
        line("ReqMethod", "GET"),
        line("VCL_return", "restart"),
        line("RespStatus", "200"),
    ]);
    assert!(t.process_txn(&tx).unwrap().is_none());
    let tx2 = tx_with(vec![line("VCL_return", "ReStArT")]);
    assert!(t.process_txn(&tx2).unwrap().is_none());
}

#[test]
fn duration_prefers_resp_over_the_others() {
    let t = LogTransform::new();
    let tx = tx_with(vec![
        line("Timestamp", "Error: 1.0 4.0 0.1"),
        line("Timestamp", "PipeSess: 1.0 3.0 0.1"),
        line("Timestamp", "BerespBody: 1.0 2.0 0.1"),
        line("Timestamp", "Resp: 1.0 1.0 0.1"),
    ]);
    let rec = t.process_txn(&tx).unwrap().unwrap();
    assert_eq!(rec.duration_usec, Some(1_000_000));

    let tx2 = tx_with(vec![
        line("Timestamp", "Error: 1.0 4.0 0.1"),
        line("Timestamp", "BerespBody: 1.0 2.0 0.1"),
    ]);
    let rec2 = t.process_txn(&tx2).unwrap().unwrap();
    assert_eq!(rec2.duration_usec, Some(2_000_000));

    let tx3 = tx_with(vec![
        line("Timestamp", "Error: 1.0 4.0 0.1"),
        line("Timestamp", "PipeSess: 1.0 3.0 0.1"),
    ]);
    let rec3 = t.process_txn(&tx3).unwrap().unwrap();
    assert_eq!(rec3.duration_usec, Some(3_000_000));

    let tx4 = tx_with(vec![line("Timestamp", "Error: 1.0 4.0 0.1")]);
    let rec4 = t.process_txn(&tx4).unwrap().unwrap();
    assert_eq!(rec4.duration_usec, Some(4_000_000));
}

#[test]
fn ttfb_prefers_process_then_pipe_then_beresp() {
    let t = LogTransform::new();
    let tx = tx_with(vec![
        line("Timestamp", "Beresp: 1.0 3.0 0.1"),
        line("Timestamp", "Pipe: 1.0 2.0 0.1"),
        line("Timestamp", "Process: 1.0 1.0 0.1"),
    ]);
    let rec = t.process_txn(&tx).unwrap().unwrap();
    assert_eq!(rec.ttfb_usec, Some(1_000_000));
}

#[test]
fn type_filter_skips_without_reading_lines() {
    let mut t = LogTransform::new();
    t = t.type_filter(vec![TxType::Request]);
    let mut tx = tx_with(vec![
        line("Begin", "garbage that would not parse"),
        line("RespStatus", "also garbage"),
    ]);
    tx.ty = TxType::BackendRequest;
    assert!(t.process_txn(&tx).unwrap().is_none());

    let mut t2 = LogTransform::new();
    t2 = t2.reason_filter(vec![Reason::Esi]);
    let tx2 = tx_with(vec![line("Begin", "garbage")]);
    assert!(t2.process_txn(&tx2).unwrap().is_none());
}

#[test]
fn parse_error_carries_tag_and_text() {
    let t = LogTransform::new();
    let tx = tx_with(vec![line("Begin", "nonsense")]);
    let e = t.process_txn(&tx).unwrap_err();
    assert_eq!(e.tag, "Begin");
    assert_eq!(e.text, "nonsense");
}

#[test]
fn vcl_call_sets_handling_and_chain() {
    let t = LogTransform::new();
    let tx = tx_with(vec![
        line("VCL_call", "MISS"),
        line("VCL_return", "fetch"),
        line("VCL_call", "unknownverb"),
    ]);
    let rec = t.process_txn(&tx).unwrap().unwrap();
    assert_eq!(rec.handling, Some(CacheHandling::Miss));
    assert_eq!(
        rec.call_chain,
        vec![
            "Call MISS".to_string(),
            "Return fetch".to_string(),
            "Call unknownverb".to_string()
        ]
    );

    let tx2 = tx_with(vec![line("VCL_call", "hit"), line("VCL_return", "PIPE")]);
    let rec2 = t.process_txn(&tx2).unwrap().unwrap();
    assert_eq!(rec2.handling, Some(CacheHandling::Pipe));

    let tx3 = tx_with(vec![line("VCL_call", "backend_error")]);
    let rec3 = t.process_txn(&tx3).unwrap().unwrap();
    assert_eq!(rec3.handling, Some(CacheHandling::Error));
}

#[test]
fn headers_follow_allow_list_and_case() {
    let t = LogTransform::new()
        .req_headers(&vec!["User-Agent".to_string()])
        .resp_headers(&vec!["content-type".to_string()]);
    let tx = tx_with(vec![
        line("ReqHeader", "USER-AGENT: curl"),
        line("ReqHeader", "Cookie: secret"),
        line("RespHeader", "Content-Type: text/html"),
        line("RespHeader", "X-Other: skipped"),
    ]);
    let rec = t.process_txn(&tx).unwrap().unwrap();
    assert_eq!(
        rec.request.headers.get("user-agent"),
        Some(&"curl".to_string())
    );
    assert_eq!(rec.request.headers.get("cookie"), None);
    assert_eq!(
        rec.response.headers.get("content-type"),
        Some(&"text/html".to_string())
    );
    assert_eq!(rec.response.headers.get("x-other"), None);
}

#[test]
fn header_repeats_last_write_wins() {
    let t = LogTransform::new().req_headers(&vec!["x-id".to_string()]);
    let tx = tx_with(vec![
        line("ReqHeader", "X-Id: first"),
        line("ReqHeader", "X-Id: second"),
        line("Timestamp", "Resp: 1.0 1.0 0.1"),
        line("Timestamp", "Resp: 1.0 2.5 0.1"),
        line("ReqURL", "/a"),
        line("ReqURL", "/b"),
    ]);
    let rec = t.process_txn(&tx).unwrap().unwrap();
    assert_eq!(rec.request.headers.get("x-id"), Some(&"second".to_string()));
    assert_eq!(rec.duration_usec, Some(2_500_000));
    assert_eq!(rec.request.url, "/b");
}

#[test]
fn remote_ip_from_reqstart_and_header_source() {
    let t = LogTransform::new();
    let tx = tx_with(vec![line("ReqStart", "10.1.2.3 58000 a0")]);
    let rec = t.process_txn(&tx).unwrap().unwrap();
    assert_eq!(rec.request.remoteip, Some("10.1.2.3".to_string()));

    let t2 = LogTransform::new().ip_source(&IpSource::Header {
        name: "X-Forwarded-For".to_string(),
    });
    let tx2 = tx_with(vec![
        line("ReqStart", "10.1.2.3 58000 a0"),
        line("ReqHeader", "X-Forwarded-For: 172.16.0.9:443, 10.0.0.1"),
    ]);
    let rec2 = t2.process_txn(&tx2).unwrap().unwrap();
    assert_eq!(rec2.request.remoteip, Some("172.16.0.9".to_string()));
}

#[test]
fn unset_headers_gated_by_tracking() {
    let plain = LogTransform::new();
    let tx = tx_with(vec![
        line("ReqUnset", "X-Gone: yes"),
        line("RespUnset", "X-Also: yes"),
    ]);
    let rec = plain.process_txn(&tx).unwrap().unwrap();
    assert!(rec.request.unset.is_none());
    assert!(rec.response.unset.is_none());

    let tracking = LogTransform::new().track_headers(true);
    let tx2 = tx_with(vec![
        line("ReqUnset", "X-Gone: yes"),
        line("BereqUnset", "X-Up: yes"),
        line("RespUnset", "X-Also: yes"),
        line("BerespUnset", "X-Down: yes"),
    ]);
    let rec2 = tracking.process_txn(&tx2).unwrap().unwrap();
    assert_eq!(
        rec2.request.unset,
        Some(vec!["X-Gone: yes".to_string(), "X-Up: yes".to_string()])
    );
    assert_eq!(
        rec2.response.unset,
        Some(vec!["X-Also: yes".to_string(), "X-Down: yes".to_string()])
    );
}

#[test]
fn content_length_and_length_tag_last_writer_wins() {
    let t = LogTransform::new();
    let tx = tx_with(vec![
        line("RespHeader", "Content-Length: 100"),
        line("Length", "250"),
    ]);
    let rec = t.process_txn(&tx).unwrap().unwrap();
    assert_eq!(rec.response.length, 250);

    let tx2 = tx_with(vec![
        line("Length", "250"),
        line("RespHeader", "Content-Length: 100"),
    ]);
    let rec2 = t.process_txn(&tx2).unwrap().unwrap();
    assert_eq!(rec2.response.length, 100);
}

#[test]
fn meta_tags_copied_into_record() {
    let mut tags: KvList<String> = KvList::new();
    tags.insert("env".to_string(), "prod".to_string());
    let t = LogTransform::new().meta(tags);
    let tx = tx_with(vec![line("ReqMethod", "GET")]);
    let rec = t.process_txn(&tx).unwrap().unwrap();
    assert_eq!(rec.meta.get("env"), Some(&"prod".to_string()));
    assert_eq!(rec.meta.get("missing"), None);
}

#[test]
fn link_accounting_and_ttl_through_transform() {
    let t = LogTransform::new();
    let tx = tx_with(vec![
        line("Link", "req 1002 esi"),
        line("BereqAcct", "10 20 30 40 50 60"),
        line("TTL", "VCL 120 10 0 1312966111 uncacheable"),
    ]);
    let rec = t.process_txn(&tx).unwrap().unwrap();
    let l = rec.link.unwrap();
    assert_eq!(l.ty, "req");
    assert_eq!(l.vxid, 1002);
    assert_eq!(l.reason, "esi");
    let a = rec.accounting.unwrap();
    assert_eq!(a.header_rx, 10);
    assert_eq!(a.total_tx, 60);
    let ttl = rec.response.ttl.unwrap();
    assert_eq!(ttl.source, "VCL");
    assert!(!ttl.cacheable);
}

#[test]
fn unknown_tags_are_ignored() {
    let t = LogTransform::new();
    let tx = tx_with(vec![
        line("End", ""),
        line("Debug", "whatever: junk ::: 12"),
        line("ReqMethod", "HEAD"),
    ]);
    let rec = t.process_txn(&tx).unwrap().unwrap();
    assert_eq!(rec.request.method, "HEAD");
}

#[test]
fn backend_tags_fill_the_same_fields() {
    let t = LogTransform::new();
    let mut tx = tx_with(vec![
        line("BereqMethod", "POST"),
        line("BereqURL", "/upstream"),
        line("BereqProtocol", "HTTP/1.1"),
        line("BerespStatus", "503"),
        line("BerespProtocol", "HTTP/1.0"),
    ]);
    tx.ty = TxType::BackendRequest;
    tx.reason = Reason::Fetch;
    let rec = t.process_txn(&tx).unwrap().unwrap();
    assert_eq!(rec.request.method, "POST");
    assert_eq!(rec.request.url, "/upstream");
    assert_eq!(rec.request.protocol, "HTTP/1.1");
    assert_eq!(rec.response.status, 503);
    assert_eq!(rec.response.protocol, "HTTP/1.0");
}
