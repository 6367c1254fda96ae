//! The registry that holds the instrument handles, and the observer that it
//! makes for each exchange.
//!
//! An observer sees two events: the request headers, at which it notes the time
//! and the direction, and the end of the exchange, at which it says what is to
//! be recorded. Whoever drives it reads the clock, the properties and the
//! headers, and carries the recording out.

use vstd::prelude::*;
use crate::direction::{detect_inbound, resolved_inbound, values_of};
use crate::logline::{format_log_line, log_line};
use crate::metrics::{handle_of, Instrument, Metrics, UNDEFINED_HANDLE};
use crate::status::{class_of, read_status, status_class, status_of};

verus! {

/// What the proxy is to do with the exchange after an event.
#[derive(Clone, Copy, Debug, PartialEq, Eq, Structural)]
pub enum Action {
    Continue,
    Pause,
}

/// The kind of context that a registry makes.
#[derive(Clone, Copy, Debug, PartialEq, Eq, Structural)]
pub enum ContextType {
    HttpContext,
    StreamContext,
}

/// How far an exchange has come.
#[derive(Clone, Copy, Debug, PartialEq, Eq, Structural)]
pub enum Phase {
    /// No event seen yet.
    Created,
    /// The request headers were seen: start time and direction are fixed.
    Started,
    /// The exchange was reported; nothing more will be.
    Finalized,
}

/// What an observer knows of its exchange.
pub struct ExchangeState {
    pub phase: Phase,
    pub start_ms: u64,
    pub inbound: bool,
    pub handles: Metrics,
}

/// By how much a response increments its counter.
pub const COUNTER_STEP: i64 = 1;

/// What the proxy holds of an exchange when it ends. An absent header is `None`.
pub struct Exchange {
    /// The `:status` response header.
    pub status: Option<Vec<u8>>,
    /// The `:method` request header.
    pub method: Option<Vec<u8>>,
    /// The `:authority` request header.
    pub authority: Option<Vec<u8>>,
    /// The `:path` request header.
    pub path: Option<Vec<u8>>,
}

/// What is to be recorded for an exchange.
pub struct Recording {
    /// The histogram handle and the duration in milliseconds to record under it;
    /// `None` where the histogram is not registered.
    pub histogram: Option<(u32, u64)>,
    /// The handle of the counter to increment and the step, which is always
    /// [`COUNTER_STEP`]; `None` where the status class has no counter or the
    /// counter is not registered.
    pub counter: Option<(u32, i64)>,
    /// The log line, to be written at info level.
    pub log_line: Vec<u8>,
}

/// The clock in milliseconds, from the host's answer in nanoseconds; `0` where
/// the host gave none.
pub open spec fn clock_ms(clock_ns: Option<u64>) -> u64 {
    match clock_ns {
        Some(ns) => ns / 1_000_000,
        None => 0,
    }
}

/// The time from `start` to `now`, and `0` where `now` lies before `start`.
pub open spec fn elapsed_ms(start: u64, now: u64) -> u64 {
    if now >= start {
        (now - start) as u64
    } else {
        0
    }
}

/// The bytes of a header, an absent header being empty.
pub open spec fn header_bytes(header: Option<Vec<u8>>) -> Seq<u8> {
    match header {
        Some(bytes) => bytes@,
        None => Seq::empty(),
    }
}

/// The `:status` header as the status reader takes it.
pub open spec fn status_header(header: Option<Vec<u8>>) -> Option<Seq<u8>> {
    match header {
        Some(bytes) => Some(bytes@),
        None => None,
    }
}

/// The state after the request headers were seen. Only the first such event
/// counts: it fixes the start time and the direction. Later ones change nothing.
pub open spec fn started(
    s: ExchangeState,
    clock_ns: Option<u64>,
    values: Seq<Option<Seq<u8>>>,
) -> ExchangeState {
    if s.phase == Phase::Created {
        ExchangeState {
            phase: Phase::Started,
            start_ms: clock_ms(clock_ns),
            inbound: resolved_inbound(values),
            handles: s.handles,
        }
    } else {
        s
    }
}

/// The state after the end of the exchange was seen. Only a started exchange
/// is finalized; before the start and after the end the event changes nothing.
pub open spec fn finalized(s: ExchangeState) -> ExchangeState {
    if s.phase == Phase::Started {
        ExchangeState { phase: Phase::Finalized, ..s }
    } else {
        s
    }
}

/// The duration that a started exchange records when the clock reads `clock_ns`.
pub open spec fn duration_of(s: ExchangeState, clock_ns: Option<u64>) -> u64 {
    elapsed_ms(s.start_ms, clock_ms(clock_ns))
}

/// The histogram recording of a started exchange.
pub open spec fn histogram_of(s: ExchangeState, clock_ns: Option<u64>) -> Option<(u32, u64)> {
    match s.handles.histogram_target(s.inbound) {
        Some(h) => Some((h, duration_of(s, clock_ns))),
        None => None,
    }
}

/// The counter that a started exchange increments.
pub open spec fn counter_of(s: ExchangeState, seen: Exchange) -> Option<(u32, i64)> {
    match s.handles.counter_target(s.inbound, class_of(status_of(status_header(seen.status)))) {
        Some(h) => Some((h, COUNTER_STEP)),
        None => None,
    }
}

/// The log line of a started exchange.
pub open spec fn line_of(s: ExchangeState, clock_ns: Option<u64>, seen: Exchange) -> Seq<u8> {
    log_line(
        s.inbound,
        duration_of(s, clock_ns),
        header_bytes(seen.method),
        status_of(status_header(seen.status)),
        header_bytes(seen.authority),
        header_bytes(seen.path),
    )
}

/// An event in the life of an exchange, with what the host held at that moment.
pub enum Event {
    /// The request headers arrived.
    Headers { clock_ns: Option<u64>, values: Seq<Option<Seq<u8>>> },
    /// The exchange ended.
    Log,
}

/// The state after one event.
pub open spec fn after(s: ExchangeState, event: Event) -> ExchangeState {
    match event {
        Event::Headers { clock_ns, values } => started(s, clock_ns, values),
        Event::Log => finalized(s),
    }
}

/// The state after a run of events.
pub open spec fn after_all(s: ExchangeState, events: Seq<Event>) -> ExchangeState
    decreases events.len(),
{
    if events.len() == 0 {
        s
    } else {
        after_all(after(s, events.first()), events.drop_first())
    }
}

/// Once the request headers were seen, no event changes the direction, the
/// start time or the handles of an exchange, whatever the host holds by then.
pub proof fn lemma_direction_fixed(s: ExchangeState, events: Seq<Event>)
    requires
        s.phase != Phase::Created,
    ensures
        after_all(s, events).inbound == s.inbound,
        after_all(s, events).start_ms == s.start_ms,
        after_all(s, events).handles == s.handles,
        after_all(s, events).phase != Phase::Created,
    decreases events.len(),
{
    if events.len() > 0 {
        lemma_direction_fixed(after(s, events.first()), events.drop_first());
    }
}

/// The direction of an exchange is the one resolved at its first headers event:
/// neither later headers events nor the end of the exchange change it.
pub proof fn lemma_first_headers_decide(
    s: ExchangeState,
    clock_ns: Option<u64>,
    values: Seq<Option<Seq<u8>>>,
    later: Seq<Event>,
)
    requires
        s.phase == Phase::Created,
    ensures
        after_all(started(s, clock_ns, values), later).inbound == resolved_inbound(values),
        after_all(started(s, clock_ns, values), later).start_ms == clock_ms(clock_ns),
{
    lemma_direction_fixed(started(s, clock_ns, values), later);
}

/// An exchange that starts at `t0` and ends `d` later records exactly `d`.
pub proof fn lemma_elapsed_exact(t0: u64, d: u64)
    requires
        t0 + d <= u64::MAX,
    ensures
        elapsed_ms(t0, (t0 + d) as u64) == d,
{
}

/// An exchange whose end lies before its start records `0`.
pub proof fn lemma_elapsed_clamped(t0: u64, now: u64)
    requires
        now < t0,
    ensures
        elapsed_ms(t0, now) == 0,
{
}

/// An exchange without a `:status` header has status `0`: it increments no
/// counter, and its duration is recorded as for any other.
pub proof fn lemma_absent_status(s: ExchangeState, clock_ns: Option<u64>, seen: Exchange)
    requires
        seen.status is None,
    ensures
        status_of(status_header(seen.status)) == 0,
        counter_of(s, seen) is None,
        histogram_of(s, clock_ns) is Some <==> s.handles.handle(
            Metrics::duration_instrument(s.inbound),
        ) != UNDEFINED_HANDLE,
{
}

/// The clock in milliseconds, from the host's answer in nanoseconds.
pub fn now_ms(clock_ns: Option<u64>) -> (ms: u64)
    ensures
        ms == clock_ms(clock_ns),
{
    match clock_ns {
        Some(ns) => ns / 1_000_000,
        None => 0,
    }
}

/// The registry: it holds the handles of the instruments and makes the observers.
pub struct Root {
    m: Metrics,
}

impl View for Root {
    type V = Metrics;

    /// The handles that the registry holds.
    closed spec fn view(&self) -> Metrics {
        self.m
    }
}

impl Root {
    /// A registry in which no instrument is registered yet.
    pub fn new() -> (root: Root)
        ensures
            root@ == Metrics::unregistered(),
    {
        Root { m: Metrics::default() }
    }

    /// The handles that the registry holds.
    pub fn metrics(&self) -> (m: Metrics)
        ensures
            m == self@,
    {
        self.m
    }

    /// Takes the outcomes of the ten registrations, `outcomes[k]` being the host's
    /// answer for the instrument at place `k`: its handle, or `None` where the
    /// registration failed. A failed registration leaves the undefined handle
    /// for that instrument alone. The start always succeeds.
    pub fn on_vm_start(&mut self, _conf_size: usize, outcomes: &[Option<u32>; 10]) -> (ok: bool)
        ensures
            ok,
            final(self)@ == Metrics::registered(outcomes@),
            forall|k: int|
                0 <= k < 10 ==> final(self)@.handle(Instrument::at(k)) == handle_of(outcomes@[k]),
    {
        self.m = Metrics::from_outcomes(outcomes);
        true
    }

    /// A fresh observer for one exchange, with a copy of the handles.
    pub fn create_http_context(&self, _context_id: u32) -> (ctx: HttpCtx)
        ensures
            ctx@ == (ExchangeState {
                phase: Phase::Created,
                start_ms: 0,
                inbound: false,
                handles: self@,
            }),
    {
        HttpCtx { start_ms: 0, inbound: false, m: self.m, phase: Phase::Created }
    }

    /// The registry makes observers of HTTP exchanges.
    pub fn get_type(&self) -> (kind: Option<ContextType>)
        ensures
            kind == Some(ContextType::HttpContext),
    {
        Some(ContextType::HttpContext)
    }
}

/// The observer of one exchange.
pub struct HttpCtx {
    start_ms: u64,
    inbound: bool,
    m: Metrics,
    phase: Phase,
}

impl View for HttpCtx {
    type V = ExchangeState;

    closed spec fn view(&self) -> ExchangeState {
        ExchangeState {
            phase: self.phase,
            start_ms: self.start_ms,
            inbound: self.inbound,
            handles: self.m,
        }
    }
}

impl HttpCtx {
    /// How far the exchange has come.
    pub fn phase(&self) -> (phase: Phase)
        ensures
            phase == self@.phase,
    {
        self.phase
    }

    /// The start of the exchange in milliseconds; `0` before the start.
    pub fn start_ms(&self) -> (ms: u64)
        ensures
            ms == self@.start_ms,
    {
        self.start_ms
    }

    /// Whether the exchange is inbound; `false` before the start.
    pub fn inbound(&self) -> (inbound: bool)
        ensures
            inbound == self@.inbound,
    {
        self.inbound
    }

    /// The handles that the observer was given.
    pub fn metrics(&self) -> (m: Metrics)
        ensures
            m == self@.handles,
    {
        self.m
    }

    /// The request headers were seen. `clock_ns` is the host's clock in
    /// nanoseconds, `None` where the host gave none; `values` are the values of
    /// the properties named by [`candidate_keys`], in that order, an absent one
    /// being `None`. The first such event fixes the start time and the
    /// direction; a later one changes nothing. The exchange always continues.
    pub fn on_http_request_headers(
        &mut self,
        _n: usize,
        _eos: bool,
        clock_ns: Option<u64>,
        values: &[Option<Vec<u8>>],
    ) -> (action: Action)
        ensures
            action == Action::Continue,
            final(self)@ == started(old(self)@, clock_ns, values_of(values@)),
    {
        match self.phase {
            Phase::Created => {
                self.start_ms = now_ms(clock_ns);
                self.inbound = detect_inbound(values);
                self.phase = Phase::Started;
            },
            _ => {},
        }
        Action::Continue
    }

    /// The exchange ended. For a started exchange this says what to record: the
    /// duration under the histogram of its direction, one increment of the
    /// counter of its status class, and the log line. An undefined handle, or a
    /// status class without a counter, leaves that recording out and nothing
    /// else. Before the start and after the end there is nothing to record.
    pub fn on_log(&mut self, clock_ns: Option<u64>, seen: Exchange) -> (recording: Option<
        Recording,
    >)
        ensures
            final(self)@ == finalized(old(self)@),
            recording is Some <==> old(self)@.phase == Phase::Started,
            recording matches Some(r) ==> {
                &&& r.histogram == histogram_of(old(self)@, clock_ns)
                &&& r.counter == counter_of(old(self)@, seen)
                &&& r.log_line@ == line_of(old(self)@, clock_ns, seen)
            },
    {
        match self.phase {
            Phase::Started => {},
            _ => {
                return None;
            },
        }
        self.phase = Phase::Finalized;
        let dur = now_ms(clock_ns).saturating_sub(self.start_ms);
        let status = match &seen.status {
            Some(h) => read_status(Some(h.as_slice())),
            None => read_status(None),
        };
        let histogram = match self.m.histogram(self.inbound) {
            Some(h) => Some((h, dur)),
            None => None,
        };
        let class = status_class(status);
        let counter = match self.m.counter(self.inbound, class) {
            Some(h) => Some((h, COUNTER_STEP)),
            None => None,
        };
        let method = or_empty(seen.method);
        let authority = or_empty(seen.authority);
        let path = or_empty(seen.path);
        let log_line = format_log_line(
            self.inbound,
            dur,
            method.as_slice(),
            status,
            authority.as_slice(),
            path,
        );
        Some(Recording { histogram, counter, log_line })
    }
}

/// The bytes of a header, an absent header being empty.
pub fn or_empty(header: Option<Vec<u8>>) -> (bytes: Vec<u8>)
    ensures
        bytes@ == header_bytes(header),
{
    match header {
        Some(bytes) => bytes,
        None => Vec::new(),
    }
}

} // verus!
