//! Metric events and their senders: the event envelope built around a
//! metric, and the sender handles the application threads metrics through.
//!
//! Sending is I/O and lives outside the engine; here the envelopes are
//! built and the senders are wired up. The engine holds no clock, so event
//! constructors take the current time in seconds.

use vstd::prelude::*;

verus! {

/// Which surface an event came from.
#[derive(Clone, Copy, Debug)]
pub enum EventSource {
    PumpNDumpWorker,
    Yral,
}

impl EventSource {
    /// The page each source reports as its location.
    pub open spec fn spec_page_location(&self) -> Seq<char> {
        match self {
            EventSource::PumpNDumpWorker => "https://pumpdump.wtf/"@,
            EventSource::Yral => "https://yral.com/"@,
        }
    }

    /// The page this source reports as its location.
    pub fn page_location(&self) -> (r: String)
        ensures
            r@ == self.spec_page_location(),
    {
        match self {
            EventSource::PumpNDumpWorker => String::from_str("https://pumpdump.wtf/"),
            EventSource::Yral => String::from_str("https://yral.com/"),
        }
    }

    /// The host of each source's page location.
    pub open spec fn spec_host(&self) -> Seq<char> {
        match self {
            EventSource::PumpNDumpWorker => "pumpdump.wtf"@,
            EventSource::Yral => "yral.com"@,
        }
    }

    /// The host of this source's page location.
    pub fn host(&self) -> (r: String)
        ensures
            r@ == self.spec_host(),
    {
        match self {
            EventSource::PumpNDumpWorker => String::from_str("pumpdump.wtf"),
            EventSource::Yral => String::from_str("yral.com"),
        }
    }
}

/// A metric that can be enveloped and sent: its tag, and the user it is
/// about. The executable accessors must answer exactly what the spec
/// methods state, so the envelope can be pinned to them.
pub trait Metric {
    /// The metric's tag.
    spec fn spec_tag(&self) -> Seq<char>;

    /// The user the metric is about, if any.
    spec fn spec_user_id(&self) -> Option<Seq<char>>;

    /// The user's canister, in text form, if any.
    spec fn spec_user_canister(&self) -> Option<Seq<char>>;

    /// The metric's tag.
    fn tag(&self) -> (r: String)
        ensures
            r@ == self.spec_tag(),
    ;

    /// The user the metric is about, if any.
    fn user_id(&self) -> (r: Option<String>)
        ensures
            match self.spec_user_id() {
                Some(u) => r matches Some(s) && s@ == u,
                None => r is None,
            },
    ;

    /// The user's canister, in text form, if any.
    fn user_canister(&self) -> (r: Option<String>)
        ensures
            match self.spec_user_canister() {
                Some(u) => r matches Some(s) && s@ == u,
                None => r is None,
            },
    ;
}

/// A withdrawal of cents winnings, as a metric.
#[derive(Clone, Debug)]
pub struct CentsWithdrawal {
    /// The withdrawing user's canister, in text form.
    pub user_canister: String,
    pub amount: u128,
}

impl Metric for CentsWithdrawal {
    open spec fn spec_tag(&self) -> Seq<char> {
        "cents_withdrawal"@
    }

    open spec fn spec_user_id(&self) -> Option<Seq<char>> {
        Some(self.user_canister@)
    }

    open spec fn spec_user_canister(&self) -> Option<Seq<char>> {
        Some(self.user_canister@)
    }

    fn tag(&self) -> (r: String) {
        String::from_str("cents_withdrawal")
    }

    fn user_id(&self) -> (r: Option<String>) {
        Some(self.user_canister.clone())
    }

    fn user_canister(&self) -> (r: Option<String>) {
        Some(self.user_canister.clone())
    }
}

/// One metric wrapped in its envelope.
pub struct MetricEvent<M: Metric> {
    pub source: EventSource,
    pub tag: String,
    pub user_id: Option<String>,
    pub metric: M,
    pub unix_timestamp_secs: u64,
    pub page_location: String,
    pub host: String,
}

impl<M: Metric> MetricEvent<M> {
    /// Wraps `metric` in its envelope, stamped with `now_secs`: the tag
    /// and user id are the metric's own, the page location and host are
    /// the source's.
    pub fn new(source: EventSource, metric: M, now_secs: u64) -> (r: Self)
        ensures
            r.source == source,
            r.metric == metric,
            r.unix_timestamp_secs == now_secs,
            r.tag@ == metric.spec_tag(),
            (match metric.spec_user_id() {
                Some(u) => r.user_id matches Some(s) && s@ == u,
                None => r.user_id is None,
            }),
            r.page_location@ == source.spec_page_location(),
            r.host@ == source.spec_host(),
    {
        let page_location = source.page_location();
        let host = source.host();
        let tag = metric.tag();
        let user_id = metric.user_id();
        MetricEvent { source, tag, user_id, metric, unix_timestamp_secs: now_secs, page_location, host }
    }
}

/// A batch of metric events under one tag.
pub struct MetricEventList<M: Metric> {
    pub source: EventSource,
    pub tag: String,
    pub metric: Vec<MetricEvent<M>>,
    pub user_id: Option<String>,
    pub unix_timestamp_secs: u64,
}

impl<M: Metric> MetricEventList<M> {
    /// Wraps a batch of events under `tag`, stamped with `now_secs`.
    pub fn new(source: EventSource, tag: String, metric: Vec<MetricEvent<M>>, now_secs: u64) -> (r:
        Self)
        ensures
            r.source == source,
            r.tag == tag,
            r.metric == metric,
            r.user_id is None,
            r.unix_timestamp_secs == now_secs,
    {
        MetricEventList { source, tag, metric, user_id: None, unix_timestamp_secs: now_secs }
    }
}

/// A sender that swallows every event: the stand-in where no metrics
/// backend is wired up.
#[derive(Clone, Copy, Debug)]
pub struct MockMetricEventTx;

impl Default for MockMetricEventTx {
    fn default() -> (r: Self) {
        MockMetricEventTx
    }
}

/// Either the swallowing stand-in or a real sender.
#[derive(Clone, Debug)]
pub enum MaybeMockMetricEventTx<Tx> {
    Mock(MockMetricEventTx),
    Real(Tx),
}

impl<Tx> Default for MaybeMockMetricEventTx<Tx> {
    fn default() -> (r: Self)
        ensures
            r is Mock,
    {
        MaybeMockMetricEventTx::Mock(MockMetricEventTx)
    }
}

/// Either the swallowing stand-in or a real thread-local sender.
#[derive(Clone, Debug)]
pub enum MaybeMockLocalMetricEventTx<Tx> {
    Mock(MockMetricEventTx),
    Real(Tx),
}

impl<Tx> Default for MaybeMockLocalMetricEventTx<Tx> {
    fn default() -> (r: Self)
        ensures
            r is Mock,
    {
        MaybeMockLocalMetricEventTx::Mock(MockMetricEventTx)
    }
}

/// A thread-local metrics handle: the source it stamps on events, and the
/// sender they leave through.
#[derive(Clone, Debug)]
pub struct LocalMetricTx<Tx> {
    pub source: EventSource,
    pub tx: Tx,
}

impl<Tx> LocalMetricTx<Tx> {
    /// A handle stamping `source`, sending through `tx`.
    pub fn new(source: EventSource, tx: Tx) -> (r: Self)
        ensures
            r.source == source,
            r.tx == tx,
    {
        LocalMetricTx { source, tx }
    }
}

/// A thread-safe metrics handle: the source it stamps on events, and the
/// sender they leave through.
#[derive(Clone, Debug)]
pub struct MetricTx<Tx> {
    pub source: EventSource,
    pub tx: Tx,
}

impl<Tx> MetricTx<Tx> {
    /// A handle stamping `source`, sending through `tx`.
    pub fn new(source: EventSource, tx: Tx) -> (r: Self)
        ensures
            r.source == source,
            r.tx == tx,
    {
        MetricTx { source, tx }
    }
}

} // verus!
