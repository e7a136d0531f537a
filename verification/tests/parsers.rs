use vapi::vsl::parsers::{
    link, parse, parse_header, parse_reqstart, parse_timestamp, parse_ttl, remote_ip,
    req_accounting, reqstart, signed_number, status, timestamp, ttl, unsigned_delimited, ReqStart,
    RequestAccounting, Timestamp, VarnishLink, VarnishTtl,
};

#[test]
fn test_remote_ip() {
    let test_cases = vec![
        ("127.0.0.1", "127.0.0.1"),
        ("127.0.0.1:7000", "127.0.0.1"),
        (
            "abcd:0000:1234:1:23:f33:320, 10.0.0.1",
            "abcd:0000:1234:1:23:f33:320",
        ),
        ("127.0.0.1, 10.0.0.5", "127.0.0.1"),
        ("127.0.0.1,10.0.0.5,169.172.0.2", "127.0.0.1"),
    ];
    for (t, e) in test_cases {
        let out = remote_ip(&t).unwrap();
        assert_eq!(out, e);
    }
}

#[test]
fn remote_ip_strips_port_and_keeps_ipv6() {
    assert_eq!(remote_ip("127.0.0.1:7000").unwrap(), "127.0.0.1");
    assert_eq!(remote_ip("abcd:0:1::1, 10.0.0.1").unwrap(), "abcd:0:1::1");
    assert_eq!(remote_ip("127.0.0.1,10.0.0.5").unwrap(), "127.0.0.1");
    assert_eq!(remote_ip("").unwrap(), "");
    // a dotted value keeps everything before its last colon
    assert_eq!(remote_ip("1.2.3.4:80:90").unwrap(), "1.2.3.4:80");
}

#[test]
fn test_reqstart() {
    let test_val = "127.0.0.1 80 a0";
    let (rest, rs) = parse_reqstart(&test_val).unwrap();
    assert_eq!(rest, "");
    assert_eq!(
        rs,
        ReqStart {
            address: "127.0.0.1".into(),
            port: 80,
            listener: "a0".into(),
        }
    );
}

#[test]
fn reqstart_rejects_bad_shapes() {
    assert!(reqstart("127.0.0.1 80").is_err());
    assert!(reqstart("127.0.0.1 80 a0 extra").is_err());
    assert!(reqstart("127.0.0.1 notaport a0").is_err());
    assert!(reqstart("127.0.0.1 70000 a0").is_err());
    let e = reqstart("only").unwrap_err();
    assert_eq!(e.text, "only");
}

#[test]
fn test_timestamp() {
    let test_val = "Fetch: 100.0 0.0 1.5";
    let (rest, ts) = parse_timestamp(&test_val).unwrap();
    assert_eq!(rest, "");
    assert_eq!(
        ts,
        Timestamp {
            event: "Fetch".into(),
            ts: 100_000_000,
            since_start: 0,
            since_last_timestamp: 1_500_000,
        }
    );
}

#[test]
fn timestamp_rejects_bad_shapes() {
    assert!(timestamp("Timestamp", "Fetch 100.0 0.0 1.5").is_err());
    assert!(timestamp("Timestamp", ": 100.0 0.0 1.5").is_err());
    assert!(timestamp("Timestamp", "Fetch: 100.0 0.0").is_err());
    assert!(timestamp("Timestamp", "Fetch: 100.0 0.0 1.5 2.0").is_err());
    assert!(timestamp("Timestamp", "Fetch: 100.0 0.0 abc").is_err());
    let ok = timestamp("Timestamp", "Resp: 1612345678.123456 0.000001 0.5").unwrap();
    assert_eq!(ok.0, "Timestamp");
    assert_eq!(ok.1.ts, 1_612_345_678_123_456);
    assert_eq!(ok.1.since_start, 1);
    assert_eq!(ok.1.since_last_timestamp, 500_000);
}

#[test]
fn test_header() {
    let test_val = "X-Foo: Bar Baz";
    let res = parse_header(&test_val);
    assert!(res.is_ok());
    assert_eq!(
        res.unwrap(),
        ("".to_string(), ("X-Foo".to_string(), "Bar Baz".to_string()))
    );
}

#[test]
fn header_keeps_inner_colons_and_needs_one() {
    let (k, v) = vapi::vsl::parsers::header("Host: example.com:8080").unwrap();
    assert_eq!(k, "Host");
    assert_eq!(v, "example.com:8080");
    assert!(vapi::vsl::parsers::header("no colon here").is_err());
    let (k2, v2) = vapi::vsl::parsers::header("X-Empty:").unwrap();
    assert_eq!(k2, "X-Empty");
    assert_eq!(v2, "");
}

#[test]
fn test_signed_number() {
    let input = "-123";
    let res = signed_number(&input);
    assert!(res.is_ok());
    let (rest, num) = res.unwrap();
    assert_eq!(rest, "");
    assert_eq!(num, -123i64);

    let input = "94938";
    let res = signed_number(&input);
    assert!(res.is_ok());
    let (rest, num) = res.unwrap();
    assert_eq!(rest, "");
    assert_eq!(num, 94938i64);

    let input = "12-32";
    let res = signed_number(&input);
    assert!(res.is_ok());
    let (rest, num) = res.unwrap();
    assert_eq!(rest, "-32");
    assert_eq!(num, 12i64);

    let input = "-";
    let res = signed_number(&input);
    assert!(res.is_err());

    let input = "";
    let res = signed_number(&input);
    assert!(res.is_err());
}

#[test]
fn test_ttl_rfc() {
    let input = "RFC 60 10 -1 1312966109 1312966109 1312966109 0 60 cacheable";
    let res = parse_ttl(&input);
    assert!(res.is_ok());
    let (rest, ttl) = res.unwrap();
    assert_eq!(rest, "");
    assert_eq!(
        ttl,
        VarnishTtl {
            source: "RFC".to_string(),
            ttl: 60,
            grace: 10,
            keep: -1,
            reference: 1312966109,
            age: Some(1312966109),
            date: Some(1312966109),
            expires: Some(0),
            max_age: Some(60),
            cacheable: true
        }
    );
}

#[test]
fn test_ttl_vcl() {
    let input = "VCL 120 10 0 1312966111 uncacheable";
    let res = parse_ttl(&input);
    assert!(res.is_ok());
    let (rest, ttl) = res.unwrap();
    assert_eq!(rest, "");
    assert_eq!(
        ttl,
        VarnishTtl {
            source: "VCL".to_string(),
            ttl: 120,
            grace: 10,
            keep: 0,
            reference: 1312966111,
            age: None,
            date: None,
            expires: None,
            max_age: None,
            cacheable: false
        }
    );
}

#[test]
fn test_ttl_hfp() {
    let input = "HFP 2 0 0 1312966113 uncacheable";
    let res = parse_ttl(&input);
    assert!(res.is_ok());
    let (rest, ttl) = res.unwrap();
    assert_eq!(rest, "");
    assert_eq!(
        ttl,
        VarnishTtl {
            source: "HFP".to_string(),
            ttl: 2,
            grace: 0,
            keep: 0,
            reference: 1312966113,
            age: None,
            date: None,
            expires: None,
            max_age: None,
            cacheable: false
        }
    );
}

#[test]
fn ttl_partial_optional_fields() {
    let (_, t) = ttl("TTL", "RFC 1 2 3 4 99 cacheable").unwrap();
    assert_eq!(t.ttl, 1);
    assert_eq!(t.grace, 2);
    assert_eq!(t.keep, 3);
    assert_eq!(t.reference, 4);
    assert_eq!(t.age, Some(99));
    assert_eq!(t.date, None);
    assert_eq!(t.expires, None);
    assert_eq!(t.max_age, None);
    assert!(t.cacheable);

    let (_, t8) = ttl("TTL", "RFC 1 2 3 4 99 -5 uncacheable").unwrap();
    assert_eq!(t8.age, Some(99));
    assert_eq!(t8.date, Some(-5));
    assert_eq!(t8.expires, None);
    assert!(!t8.cacheable);

    let (_, t9) = ttl("TTL", "RFC 1 2 3 4 5 6 7 uncacheable").unwrap();
    assert_eq!(t9.age, Some(5));
    assert_eq!(t9.date, Some(6));
    assert_eq!(t9.expires, Some(7));
    assert_eq!(t9.max_age, None);
    assert!(!t9.cacheable);
}

#[test]
fn ttl_rejects_bad_shapes() {
    assert!(ttl("TTL", "RFC 1 2 3 cacheable").is_err());
    assert!(ttl("TTL", "RFC 1 2 3 4").is_err());
    assert!(ttl("TTL", "RFC 1 2 x 4 cacheable").is_err());
    // a numeric final token would be taken for an optional value
    assert!(ttl("TTL", "RFC 1 2 3 4 60").is_err());
    // unless all four optional values are already present
    let (_, t) = ttl("TTL", "RFC 1 2 3 4 5 6 7 8 60").unwrap();
    assert!(!t.cacheable);
    let e = ttl("TTL", "bad").unwrap_err();
    assert_eq!(e.tag, "TTL");
    assert_eq!(e.text, "bad");
}

#[test]
fn accounting_reads_rx_triple_then_tx_triple() {
    let (tag, acct) = req_accounting("ReqAcct", "1 2 3 4 5 6").unwrap();
    assert_eq!(tag, "ReqAcct");
    assert_eq!(
        acct,
        RequestAccounting {
            header_rx: 1,
            body_rx: 2,
            total_rx: 3,
            header_tx: 4,
            body_tx: 5,
            total_tx: 6,
        }
    );
    assert!(req_accounting("ReqAcct", "1 2 3 4 5").is_err());
    assert!(req_accounting("ReqAcct", "1 2 3 4 5 6 7").is_err());
    assert!(req_accounting("ReqAcct", "1 2 3 4 5 -6").is_err());
}

#[test]
fn link_reads_three_tokens() {
    let (_, l) = link("Link", "req 1001 rxreq").unwrap();
    assert_eq!(
        l,
        VarnishLink {
            ty: "req".to_string(),
            vxid: 1001,
            reason: "rxreq".to_string(),
        }
    );
    assert!(link("Link", "req 1001").is_err());
    assert!(link("Link", "re-q 1001 rxreq").is_err());
    assert!(link("Link", "req notanumber rxreq").is_err());
}

#[test]
fn status_and_length_parsers() {
    assert_eq!(status("200").unwrap(), 200);
    assert_eq!(status("+404").unwrap(), 404);
    assert!(status("65536").is_err());
    assert!(status("abc").is_err());
    assert!(status("").is_err());
    let e = status("12a").unwrap_err();
    assert_eq!(e.text, "12a");

    assert_eq!(parse("18446744073709551615").unwrap(), u64::MAX);
    assert!(parse("18446744073709551616").is_err());
    assert!(parse("-1").is_err());
}

#[test]
fn unsigned_delimited_reads_prefix() {
    let (rest, v) = unsigned_delimited("  42  tail").unwrap();
    assert_eq!(v, 42);
    assert_eq!(rest, "tail");
    let (rest2, v2) = unsigned_delimited("7").unwrap();
    assert_eq!(v2, 7);
    assert_eq!(rest2, "");
    assert!(unsigned_delimited("   ").is_err());
    assert!(unsigned_delimited("x1").is_err());
}
