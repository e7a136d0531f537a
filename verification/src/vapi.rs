//! The connection builder — where the shared-memory log source lives and
//! how long to wait for it — and the logging builder that accumulates the
//! ingestion settings and starts the loop. Attaching itself is the log
//! provider's work; the builders only accumulate and validate settings.
use crate::error::VarnishError;
use crate::vsl::ingest::{dispatch_count, run_script, IngestReport, ProviderEvent};
use crate::vsl::models::LogRecord;
use crate::vsl::transform::LogTransform;
use crate::vsl::{CursorOpts, LogGrouping, Reason, TxType};
use vstd::prelude::*;

verus! {

/// Settings for attaching to a log source: an optional path and an optional
/// connection timeout in whole seconds.
#[derive(Debug)]
pub struct Builder {
    path: Option<String>,
    timeout: Option<u64>,
}

impl Builder {
    /// The configured path, if any.
    pub closed spec fn spec_path(&self) -> Option<Seq<char>> {
        match self.path {
            Some(ref p) => Some(p@),
            None => None,
        }
    }

    /// The configured timeout in seconds, if any.
    pub closed spec fn spec_timeout(&self) -> Option<u64> {
        self.timeout
    }

    /// A builder with no path and no timeout: the provider's defaults.
    pub fn new() -> (r: Builder)
        ensures
            r.spec_path() is None,
            r.spec_timeout() is None,
    {
        Builder { path: None, timeout: None }
    }

    /// Sets the path of the log source.
    pub fn path(&mut self, path: String)
        ensures
            final(self).spec_path() == Some(path@),
            final(self).spec_timeout() == old(self).spec_timeout(),
    {
        self.path = Some(path);
    }

    /// Sets the connection timeout, in whole seconds.
    pub fn timeout(&mut self, t: u64)
        ensures
            final(self).spec_timeout() == Some(t),
            final(self).spec_path() == old(self).spec_path(),
    {
        self.timeout = Some(t);
    }

    /// The configured path, for whoever performs the attachment.
    pub fn path_value(&self) -> (r: &Option<String>)
        ensures
            match r {
                Some(p) => self.spec_path() == Some(p@),
                None => self.spec_path() is None,
            },
    {
        &self.path
    }

    /// The configured timeout, for whoever performs the attachment.
    pub fn timeout_value(&self) -> (r: Option<u64>)
        ensures
            r == self.spec_timeout(),
    {
        self.timeout
    }
}

/// The ingestion settings, accumulated builder-style: an optional query
/// over the stream, cursor options, a grouping mode, the type and reason
/// allow-lists, and whether an overrun drops and reacquires the cursor,
/// optionally signalling a watcher channel.
pub struct LoggingBuilder {
    query: Option<String>,
    opts: CursorOpts,
    grouping: LogGrouping,
    reacquire: bool,
    reacquire_signal: Option<crossbeam_channel::Sender<()>>,
    type_filter: Vec<TxType>,
    reason_filter: Vec<Reason>,
}

impl LoggingBuilder {
    /// The configured query, if one was set nonempty.
    pub closed spec fn spec_query(&self) -> Option<Seq<char>> {
        match self.query {
            Some(ref q) => Some(q@),
            None => None,
        }
    }

    /// Whether an overrun is recovered from rather than fatal.
    pub closed spec fn spec_reacquire(&self) -> bool {
        self.reacquire
    }

    /// Whether a recovered overrun signals a watcher channel.
    pub closed spec fn spec_has_signal(&self) -> bool {
        self.reacquire_signal is Some
    }

    /// The configured transaction-type allow-list.
    pub closed spec fn spec_type_filter(&self) -> Seq<TxType> {
        self.type_filter@
    }

    /// The configured reason allow-list.
    pub closed spec fn spec_reason_filter(&self) -> Seq<Reason> {
        self.reason_filter@
    }

    /// Fresh settings: no query, default cursor options, grouping by
    /// transaction id, no filters, overruns fatal.
    pub fn new() -> (r: LoggingBuilder)
        ensures
            r.spec_query() is None,
            !r.spec_reacquire(),
            !r.spec_has_signal(),
            r.spec_type_filter() == Seq::<TxType>::empty(),
            r.spec_reason_filter() == Seq::<Reason>::empty(),
    {
        LoggingBuilder {
            query: None,
            opts: CursorOpts::new(),
            grouping: LogGrouping::Vxid,
            reacquire: false,
            reacquire_signal: None,
            type_filter: Vec::new(),
            reason_filter: Vec::new(),
        }
    }

    /// Sets the stream query; an empty query means none.
    pub fn query(self, query: String) -> (r: Self)
        ensures
            query@.len() == 0 ==> r.spec_query() == self.spec_query(),
            query@.len() > 0 ==> r.spec_query() == Some(query@),
            r.spec_reacquire() == self.spec_reacquire(),
            r.spec_has_signal() == self.spec_has_signal(),
            r.spec_type_filter() == self.spec_type_filter(),
            r.spec_reason_filter() == self.spec_reason_filter(),
    {
        if query.as_str().is_empty() {
            self
        } else {
            LoggingBuilder { query: Some(query), ..self }
        }
    }

    /// Sets the cursor options.
    pub fn opts(self, c: CursorOpts) -> (r: Self)
        ensures
            r.spec_query() == self.spec_query(),
            r.spec_reacquire() == self.spec_reacquire(),
            r.spec_has_signal() == self.spec_has_signal(),
            r.spec_type_filter() == self.spec_type_filter(),
            r.spec_reason_filter() == self.spec_reason_filter(),
    {
        LoggingBuilder { opts: c, ..self }
    }

    /// Sets the grouping mode.
    pub fn grouping(self, grouping: LogGrouping) -> (r: Self)
        ensures
            r.spec_query() == self.spec_query(),
            r.spec_reacquire() == self.spec_reacquire(),
            r.spec_has_signal() == self.spec_has_signal(),
            r.spec_type_filter() == self.spec_type_filter(),
            r.spec_reason_filter() == self.spec_reason_filter(),
    {
        LoggingBuilder { grouping, ..self }
    }

    /// Sets the transaction-type allow-list.
    pub fn type_filter(self, types: Vec<TxType>) -> (r: Self)
        ensures
            r.spec_type_filter() == types@,
            r.spec_query() == self.spec_query(),
            r.spec_reacquire() == self.spec_reacquire(),
            r.spec_has_signal() == self.spec_has_signal(),
            r.spec_reason_filter() == self.spec_reason_filter(),
    {
        LoggingBuilder { type_filter: types, ..self }
    }

    /// Sets the reason allow-list.
    pub fn reason_filter(self, reasons: Vec<Reason>) -> (r: Self)
        ensures
            r.spec_reason_filter() == reasons@,
            r.spec_query() == self.spec_query(),
            r.spec_reacquire() == self.spec_reacquire(),
            r.spec_has_signal() == self.spec_has_signal(),
            r.spec_type_filter() == self.spec_type_filter(),
    {
        LoggingBuilder { reason_filter: reasons, ..self }
    }

    /// On overrun, drop the cursor and acquire a new one instead of
    /// failing.
    pub fn reacquire_after_overrun(self) -> (r: Self)
        ensures
            r.spec_reacquire(),
            r.spec_has_signal() == self.spec_has_signal(),
            r.spec_query() == self.spec_query(),
            r.spec_type_filter() == self.spec_type_filter(),
            r.spec_reason_filter() == self.spec_reason_filter(),
    {
        LoggingBuilder { reacquire: true, ..self }
    }

    /// On overrun, drop the cursor, acquire a new one, and send one unit on
    /// the given channel.
    pub fn reacquire_and_signal_after_overrun(self, tx: crossbeam_channel::Sender<()>) -> (r: Self)
        ensures
            r.spec_reacquire(),
            r.spec_has_signal(),
            r.spec_query() == self.spec_query(),
            r.spec_type_filter() == self.spec_type_filter(),
            r.spec_reason_filter() == self.spec_reason_filter(),
    {
        LoggingBuilder { reacquire: true, reacquire_signal: Some(tx), ..self }
    }

    /// Runs the ingestion loop with these settings over a scripted
    /// provider, forwarding records into the channel; the type and reason
    /// allow-lists are applied to the transform.
    pub fn start(
        self,
        script: &Vec<ProviderEvent>,
        log_sender: &crossbeam_channel::Sender<LogRecord>,
        stop_channel: Option<&crossbeam_channel::Receiver<()>>,
        transform: LogTransform,
    ) -> (r: Result<IngestReport, VarnishError>)
        ensures
            r matches Ok(rep) && rep.notifications > 0 ==> self.spec_reacquire()
                && self.spec_has_signal(),
            r matches Err(e) && e is LogOverrun ==> !self.spec_reacquire()
                || self.spec_has_signal(),
            r matches Err(e) ==> (e is LogOverrun || e is IOError || e matches
                VarnishError::CallbackError(_) || e matches VarnishError::UserStatus(_)),
            dispatch_count(script@, script@.len() as int) == 0 ==> (r matches Ok(rep) && rep.batches
                == 0 && !rep.stopped && rep.notifications == 0),
    {
        let t = transform.type_filter(self.type_filter).reason_filter(self.reason_filter);
        let notify: Option<&crossbeam_channel::Sender<()>> = match &self.reacquire_signal {
            Some(s) => Some(s),
            None => None,
        };
        run_script(&t, self.reacquire, script, log_sender, stop_channel, notify)
    }
}

} // verus!
