use crossbeam_channel::{bounded, unbounded};
use vapi::vsl::ingest::{
    dispatch_batch, initial_report, loop_transition, needs_flush, run_script, status_of_raw,
    DispatchStatus, FailureKind, LoopVerdict, ProviderEvent,
};
use vapi::vsl::transform::LogTransform;
use vapi::vsl::LogTransaction;
use vapi::{CursorOpts, LogGrouping, LogLine, LoggingBuilder, Reason, RecordType, TxType, VarnishError};

fn line(tag: &str, data: &str) -> LogLine {
    LogLine {
        vxid: 7,
        tag: tag.to_string(),
        data: data.to_string(),
        ty: RecordType::Client,
    }
}

fn tx(data: Vec<LogLine>) -> LogTransaction {
    LogTransaction {
        level: 0,
        vxid: 7,
        parent_vxid: 0,
        ty: TxType::Request,
        reason: Reason::RxReq,
        data,
    }
}

#[test]
fn status_decoding_matches_the_provider() {
    assert_eq!(status_of_raw(1), DispatchStatus::More);
    assert_eq!(status_of_raw(0), DispatchStatus::End);
    assert_eq!(status_of_raw(-1), DispatchStatus::Eof);
    assert_eq!(status_of_raw(-2), DispatchStatus::Abandon);
    assert_eq!(status_of_raw(-3), DispatchStatus::Overrun);
    assert_eq!(status_of_raw(-4), DispatchStatus::IoError);
    assert_eq!(status_of_raw(-6), DispatchStatus::ChannelClosed);
    assert_eq!(status_of_raw(-7), DispatchStatus::TransformFailed);
    assert_eq!(status_of_raw(-9), DispatchStatus::User(-9));
}

#[test]
fn flush_on_every_leaving_path() {
    assert!(!needs_flush(DispatchStatus::More));
    assert!(!needs_flush(DispatchStatus::End));
    assert!(!needs_flush(DispatchStatus::Eof));
    assert!(needs_flush(DispatchStatus::Abandon));
    assert!(needs_flush(DispatchStatus::Overrun));
    assert!(needs_flush(DispatchStatus::IoError));
    assert!(needs_flush(DispatchStatus::User(-9)));
}

#[test]
fn overrun_transition_with_and_without_recovery() {
    let mut rep = initial_report();
    rep.cursor_attached = true;
    let v = loop_transition(&mut rep, DispatchStatus::Overrun, true, true);
    assert_eq!(v, LoopVerdict::Proceed);
    assert!(!rep.cursor_attached);
    assert_eq!(rep.cursor_drops, 1);
    assert_eq!(rep.notifications, 1);

    let mut rep2 = initial_report();
    rep2.cursor_attached = true;
    let v2 = loop_transition(&mut rep2, DispatchStatus::Overrun, true, false);
    assert_eq!(v2, LoopVerdict::Proceed);
    assert_eq!(rep2.notifications, 0);

    let mut rep3 = initial_report();
    rep3.cursor_attached = true;
    let v3 = loop_transition(&mut rep3, DispatchStatus::Overrun, false, true);
    assert_eq!(v3, LoopVerdict::Failed(FailureKind::Overrun));
    assert!(rep3.cursor_attached);
}

#[test]
fn overrun_recovery_reacquires_and_notifies_once() {
    let (log_tx, log_rx) = bounded(100);
    let (ntx, nrx) = unbounded::<()>();
    let t = LogTransform::new();
    let script = vec![
        ProviderEvent::Dispatch(vec![tx(vec![line("ReqMethod", "GET")])], 1),
        ProviderEvent::Dispatch(vec![], -3),
        ProviderEvent::Dispatch(vec![tx(vec![line("ReqMethod", "PUT")])], -1),
    ];
    let rep = run_script(&t, true, &script, &log_tx, None, Some(&ntx)).unwrap();
    assert_eq!(rep.notifications, 1);
    assert_eq!(rep.cursor_drops, 1);
    assert_eq!(rep.cursor_acquisitions, 2);
    assert_eq!(rep.flushes, 1);
    assert!(!rep.stopped);
    assert_eq!(nrx.try_recv(), Ok(()));
    assert!(nrx.try_recv().is_err());
    let first = log_rx.try_recv().unwrap();
    assert_eq!(first.request.method, "GET");
    let second = log_rx.try_recv().unwrap();
    assert_eq!(second.request.method, "PUT");
    assert!(log_rx.try_recv().is_err());
}

#[test]
fn overrun_without_recovery_is_fatal() {
    let (log_tx, _log_rx) = bounded(10);
    let t = LogTransform::new();
    let script = vec![ProviderEvent::Dispatch(vec![], -3)];
    let e = run_script(&t, false, &script, &log_tx, None, None).unwrap_err();
    assert!(matches!(e, VarnishError::LogOverrun));
}

#[test]
fn io_error_and_user_status_are_fatal() {
    let (log_tx, _log_rx) = bounded(10);
    let t = LogTransform::new();
    let e = run_script(
        &t,
        true,
        &vec![ProviderEvent::Dispatch(vec![], -4)],
        &log_tx,
        None,
        None,
    )
    .unwrap_err();
    assert!(matches!(e, VarnishError::IOError));
    let e2 = run_script(
        &t,
        true,
        &vec![ProviderEvent::Dispatch(vec![], -9)],
        &log_tx,
        None,
        None,
    )
    .unwrap_err();
    assert!(matches!(e2, VarnishError::UserStatus(-9)));
    assert_eq!(e2.message(), "User Status code -9");
}

#[test]
fn transform_error_stops_the_loop() {
    let (log_tx, _log_rx) = bounded(10);
    let t = LogTransform::new();
    let script = vec![ProviderEvent::Dispatch(
        vec![tx(vec![line("Begin", "unreadable")])],
        1,
    )];
    let e = run_script(&t, true, &script, &log_tx, None, None).unwrap_err();
    match e {
        VarnishError::CallbackError(m) => assert_eq!(m, "Log transformation error"),
        other => panic!("unexpected error: {:?}", other),
    }
}

#[test]
fn closed_record_channel_stops_the_loop() {
    let (log_tx, log_rx) = bounded(10);
    drop(log_rx);
    let t = LogTransform::new();
    let script = vec![ProviderEvent::Dispatch(
        vec![tx(vec![line("ReqMethod", "GET")])],
        1,
    )];
    let e = run_script(&t, true, &script, &log_tx, None, None).unwrap_err();
    match e {
        VarnishError::CallbackError(m) => assert_eq!(m, "Log channel error"),
        other => panic!("unexpected error: {:?}", other),
    }
}

#[test]
fn stop_signal_checked_between_dispatch_calls() {
    let (log_tx, _log_rx) = bounded(10);
    let (stop_tx, stop_rx) = unbounded::<()>();
    stop_tx.send(()).unwrap();
    let t = LogTransform::new();
    let script = vec![
        ProviderEvent::Dispatch(vec![], 1),
        ProviderEvent::Dispatch(vec![], -4),
    ];
    let rep = run_script(&t, true, &script, &log_tx, Some(&stop_rx), None).unwrap();
    assert!(rep.stopped);
    assert_eq!(rep.batches, 1);
}

#[test]
fn restart_and_denied_cursor_are_not_fatal() {
    let (log_tx, _log_rx) = bounded(10);
    let t = LogTransform::new();
    let script = vec![
        ProviderEvent::Dispatch(vec![], 0),
        ProviderEvent::Restarted,
        ProviderEvent::CursorDenied,
        ProviderEvent::Dispatch(vec![], -1),
    ];
    let rep = run_script(&t, false, &script, &log_tx, None, None).unwrap();
    assert_eq!(rep.cursor_drops, 1);
    assert_eq!(rep.cursor_acquisitions, 2);
    assert_eq!(rep.sleeps, 1);
}

#[test]
fn dispatch_batch_reports_codes() {
    let (log_tx, log_rx) = bounded(10);
    let t = LogTransform::new();
    let good = vec![tx(vec![line("ReqMethod", "GET")])];
    assert_eq!(dispatch_batch(&t, &good, &log_tx), 0);
    assert_eq!(log_rx.try_recv().unwrap().request.method, "GET");

    let bad = vec![tx(vec![line("TTL", "broken")])];
    assert_eq!(dispatch_batch(&t, &bad, &log_tx), -7);

    drop(log_rx);
    let again = vec![tx(vec![line("ReqMethod", "GET")])];
    assert_eq!(dispatch_batch(&t, &again, &log_tx), -6);
}

#[test]
fn logging_builder_runs_with_filters() {
    let (log_tx, log_rx) = bounded(10);
    let t = LogTransform::new();
    let script = vec![ProviderEvent::Dispatch(
        vec![
            tx(vec![line("ReqMethod", "GET")]),
            LogTransaction {
                level: 0,
                vxid: 9,
                parent_vxid: 0,
                ty: TxType::Session,
                reason: Reason::Http1,
                data: vec![line("Begin", "junk that would fail")],
            },
        ],
        -1,
    )];
    let b = LoggingBuilder::new()
        .query("".to_string())
        .opts(CursorOpts::new().batch().tail())
        .grouping(LogGrouping::Vxid)
        .type_filter(vec![TxType::Request]);
    let rep = b.start(&script, &log_tx, None, t).unwrap();
    assert_eq!(rep.batches, 1);
    assert_eq!(log_rx.try_recv().unwrap().request.method, "GET");
    assert!(log_rx.try_recv().is_err());
}

#[test]
fn cursor_opts_are_independent_bits() {
    let o = CursorOpts::new();
    assert!(!o.is_tail() && !o.is_batch() && !o.is_tail_stop());
    assert_eq!(o.raw(), 0);
    let o = o.tail();
    assert!(o.is_tail() && !o.is_batch() && !o.is_tail_stop());
    assert_eq!(o.raw(), 1);
    assert_eq!(o.tail().raw(), 1);
    let o = o.batch();
    assert!(o.is_tail() && o.is_batch() && !o.is_tail_stop());
    assert_eq!(o.raw(), 3);
    let o = o.tail_stop();
    assert!(o.is_tail() && o.is_batch() && o.is_tail_stop());
    assert_eq!(o.raw(), 7);
}

#[test]
fn script_without_dispatch_ends_cleanly() {
    let (log_tx, _log_rx) = bounded(10);
    let t = LogTransform::new();
    let script = vec![
        ProviderEvent::Restarted,
        ProviderEvent::CursorDenied,
        ProviderEvent::CursorDenied,
    ];
    let rep = run_script(&t, false, &script, &log_tx, None, None).unwrap();
    assert_eq!(rep.batches, 0);
    assert_eq!(rep.notifications, 0);
    assert!(!rep.stopped);
}

#[test]
fn record_header_decoding() {
    let w0: u32 = (21u32 << 24) | 13u32;
    let w1: u32 = (1u32 << 30) | 1001u32;
    let h = vapi::vsl::decode_record_header(w0, w1);
    assert_eq!(h.tag_index, 21);
    assert_eq!(h.data_length, 13);
    assert_eq!(h.vxid, 1001);
    assert_eq!(h.ty, RecordType::Client);

    let hb = vapi::vsl::decode_record_header(0, (1u32 << 31) | 55u32);
    assert_eq!(hb.ty, RecordType::Backend);
    assert_eq!(hb.vxid, 55);
    let ho = vapi::vsl::decode_record_header(0, 55);
    assert_eq!(ho.ty, RecordType::Other);
}

#[test]
fn grouping_encodes_as_the_provider_expects() {
    assert_eq!(LogGrouping::Raw.as_raw(), 0);
    assert_eq!(LogGrouping::Vxid.as_raw(), 1);
    assert_eq!(LogGrouping::Request.as_raw(), 2);
    assert_eq!(LogGrouping::Session.as_raw(), 3);
}

#[test]
fn tx_type_and_reason_from_raw_codes() {
    assert_eq!(TxType::from(1u32), TxType::Session);
    assert_eq!(TxType::from(2u32), TxType::Request);
    assert_eq!(TxType::from(3u32), TxType::BackendRequest);
    assert_eq!(TxType::from(4u32), TxType::Raw);
    assert_eq!(TxType::from(77u32), TxType::Unknown);
    assert_eq!(Reason::from(4u32), Reason::Restart);
    assert_eq!(Reason::from(8u32), Reason::Pipe);
    assert_eq!(Reason::from(42u32), Reason::NotHandled(42));
}
