use vapi::filter::LogFilter;
use vapi::sink::{frame_line, run_network_sink};

#[test]
fn sink_delivers_exactly_the_successful_writes() {
    let records = vec![
        "{\"vxid\":1}".to_string(),
        "{\"vxid\":2}".to_string(),
        "{\"vxid\":3}".to_string(),
        "{\"vxid\":4}".to_string(),
    ];
    let writes = vec![true, false, true, true];
    let rep = run_network_sink(&records, &writes);
    assert_eq!(rep.sent, 4);
    assert_eq!(rep.reconnects, 1);
    assert_eq!(rep.delivered, vec![0usize, 2, 3]);
    assert_eq!(
        rep.lines,
        vec![
            "{\"vxid\":1}\n".to_string(),
            "{\"vxid\":3}\n".to_string(),
            "{\"vxid\":4}\n".to_string()
        ]
    );
}

#[test]
fn sink_never_redelivers_a_failed_record() {
    let records = vec!["a".to_string(), "b".to_string(), "c".to_string()];
    let writes = vec![false, false, true];
    let rep = run_network_sink(&records, &writes);
    assert_eq!(rep.sent, 3);
    assert_eq!(rep.reconnects, 2);
    assert_eq!(rep.delivered, vec![2usize]);
    assert_eq!(rep.lines, vec!["c\n".to_string()]);
}

#[test]
fn sink_with_reliable_transport_delivers_everything() {
    let records = vec!["x".to_string(), "y".to_string()];
    let writes = vec![true, true];
    let rep = run_network_sink(&records, &writes);
    assert_eq!(rep.reconnects, 0);
    assert_eq!(rep.delivered, vec![0usize, 1]);
}

#[test]
fn frame_line_appends_one_newline() {
    assert_eq!(frame_line("abc"), "abc\n");
    assert_eq!(frame_line(""), "\n");
}

#[test]
fn exact_filter_compares_whole_value() {
    let f = LogFilter::exact("GET".to_string());
    assert!(f.matches("GET"));
    assert!(!f.matches("GETS"));
    assert!(!f.matches("get"));
}

#[test]
fn pattern_filter_uses_the_regex() {
    let f = LogFilter::pattern("^/api/v[0-9]+/").unwrap();
    assert!(f.matches("/api/v2/users"));
    assert!(!f.matches("/static/logo.png"));
    assert!(LogFilter::pattern("unclosed(").is_none());
}

#[test]
fn boolean_filters_combine() {
    let starts = LogFilter::pattern("^a").unwrap();
    let ends = LogFilter::pattern("z$").unwrap();
    let both = LogFilter::and(vec![starts, ends]);
    assert!(both.matches("abcz"));
    assert!(!both.matches("abc"));

    let either = LogFilter::or(vec![
        LogFilter::exact("x".to_string()),
        LogFilter::exact("y".to_string()),
    ]);
    assert!(either.matches("y"));
    assert!(!either.matches("z"));

    let neither = LogFilter::not(either);
    assert!(neither.matches("z"));
    assert!(!neither.matches("x"));

    let nn = LogFilter::exact("q".to_string()).negate();
    assert!(!nn.matches("q"));

    let empty_and = LogFilter::and(vec![]);
    assert!(empty_and.matches("anything"));
    let empty_or = LogFilter::or(vec![]);
    assert!(!empty_or.matches("anything"));
}
