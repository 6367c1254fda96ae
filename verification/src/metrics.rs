//! The instruments of the filter and the handles under which the host knows them.

use vstd::prelude::*;
use crate::status::class_of;

verus! {

/// The handle that stands for an instrument whose registration failed. Nothing is
/// ever recorded under it.
pub const UNDEFINED_HANDLE: u32 = 0;

/// How many instruments the filter registers.
pub const INSTRUMENT_COUNT: usize = 10;

/// The kind of an instrument.
#[derive(Clone, Copy, Debug, PartialEq, Eq, Structural)]
pub enum MetricType {
    Counter,
    Histogram,
}

/// The ten instruments, in the order in which they are registered.
#[derive(Clone, Copy, Debug, PartialEq, Eq, Structural)]
pub enum Instrument {
    InboundDuration,
    OutboundDuration,
    Inbound2xx,
    Inbound3xx,
    Inbound4xx,
    Inbound5xx,
    Outbound2xx,
    Outbound3xx,
    Outbound4xx,
    Outbound5xx,
}

impl Instrument {
    /// The instrument that is registered at place `k`.
    pub open spec fn at(k: int) -> Instrument {
        if k == 0 {
            Instrument::InboundDuration
        } else if k == 1 {
            Instrument::OutboundDuration
        } else if k == 2 {
            Instrument::Inbound2xx
        } else if k == 3 {
            Instrument::Inbound3xx
        } else if k == 4 {
            Instrument::Inbound4xx
        } else if k == 5 {
            Instrument::Inbound5xx
        } else if k == 6 {
            Instrument::Outbound2xx
        } else if k == 7 {
            Instrument::Outbound3xx
        } else if k == 8 {
            Instrument::Outbound4xx
        } else {
            Instrument::Outbound5xx
        }
    }

    /// The place at which this instrument is registered.
    pub open spec fn place(self) -> int {
        match self {
            Instrument::InboundDuration => 0,
            Instrument::OutboundDuration => 1,
            Instrument::Inbound2xx => 2,
            Instrument::Inbound3xx => 3,
            Instrument::Inbound4xx => 4,
            Instrument::Inbound5xx => 5,
            Instrument::Outbound2xx => 6,
            Instrument::Outbound3xx => 7,
            Instrument::Outbound4xx => 8,
            Instrument::Outbound5xx => 9,
        }
    }

    /// The two durations are histograms, the eight response totals are counters.
    pub open spec fn metric_type_of(self) -> MetricType {
        match self {
            Instrument::InboundDuration | Instrument::OutboundDuration => MetricType::Histogram,
            _ => MetricType::Counter,
        }
    }

    /// The name under which the instrument is registered.
    pub open spec fn name_of(self) -> Seq<char> {
        match self {
            Instrument::InboundDuration => "wasm_http_inbound_duration_ms"@,
            Instrument::OutboundDuration => "wasm_http_outbound_duration_ms"@,
            Instrument::Inbound2xx => "wasm_http_inbound_responses_total_2xx"@,
            Instrument::Inbound3xx => "wasm_http_inbound_responses_total_3xx"@,
            Instrument::Inbound4xx => "wasm_http_inbound_responses_total_4xx"@,
            Instrument::Inbound5xx => "wasm_http_inbound_responses_total_5xx"@,
            Instrument::Outbound2xx => "wasm_http_outbound_responses_total_2xx"@,
            Instrument::Outbound3xx => "wasm_http_outbound_responses_total_3xx"@,
            Instrument::Outbound4xx => "wasm_http_outbound_responses_total_4xx"@,
            Instrument::Outbound5xx => "wasm_http_outbound_responses_total_5xx"@,
        }
    }

    /// All instruments, in registration order.
    pub fn all() -> (list: [Instrument; 10])
        ensures
            forall|k: int| 0 <= k < 10 ==> list@[k] == Instrument::at(k),
    {
        [
            Instrument::InboundDuration,
            Instrument::OutboundDuration,
            Instrument::Inbound2xx,
            Instrument::Inbound3xx,
            Instrument::Inbound4xx,
            Instrument::Inbound5xx,
            Instrument::Outbound2xx,
            Instrument::Outbound3xx,
            Instrument::Outbound4xx,
            Instrument::Outbound5xx,
        ]
    }

    /// The kind of this instrument.
    pub fn metric_type(self) -> (kind: MetricType)
        ensures
            kind == self.metric_type_of(),
    {
        match self {
            Instrument::InboundDuration | Instrument::OutboundDuration => MetricType::Histogram,
            _ => MetricType::Counter,
        }
    }

    /// The name under which this instrument is registered with the host.
    pub fn name(self) -> (name: &'static str)
        ensures
            name@ == self.name_of(),
    {
        match self {
            Instrument::InboundDuration => "wasm_http_inbound_duration_ms",
            Instrument::OutboundDuration => "wasm_http_outbound_duration_ms",
            Instrument::Inbound2xx => "wasm_http_inbound_responses_total_2xx",
            Instrument::Inbound3xx => "wasm_http_inbound_responses_total_3xx",
            Instrument::Inbound4xx => "wasm_http_inbound_responses_total_4xx",
            Instrument::Inbound5xx => "wasm_http_inbound_responses_total_5xx",
            Instrument::Outbound2xx => "wasm_http_outbound_responses_total_2xx",
            Instrument::Outbound3xx => "wasm_http_outbound_responses_total_3xx",
            Instrument::Outbound4xx => "wasm_http_outbound_responses_total_4xx",
            Instrument::Outbound5xx => "wasm_http_outbound_responses_total_5xx",
        }
    }
}

/// The handle that the outcome of a registration leaves: the one the host gave,
/// or [`UNDEFINED_HANDLE`] where it gave none.
pub open spec fn handle_of(outcome: Option<u32>) -> u32 {
    match outcome {
        Some(h) => h,
        None => UNDEFINED_HANDLE,
    }
}

/// The handles of the ten instruments. A plain value: every exchange holds a copy.
#[derive(Clone, Copy, Debug, PartialEq, Eq, Structural)]
pub struct Metrics {
    pub hist_in_ms: u32,
    pub hist_out_ms: u32,
    pub in_2xx: u32,
    pub in_3xx: u32,
    pub in_4xx: u32,
    pub in_5xx: u32,
    pub out_2xx: u32,
    pub out_3xx: u32,
    pub out_4xx: u32,
    pub out_5xx: u32,
}

impl Metrics {
    /// The handle held for `instrument`.
    pub open spec fn handle(self, instrument: Instrument) -> u32 {
        match instrument {
            Instrument::InboundDuration => self.hist_in_ms,
            Instrument::OutboundDuration => self.hist_out_ms,
            Instrument::Inbound2xx => self.in_2xx,
            Instrument::Inbound3xx => self.in_3xx,
            Instrument::Inbound4xx => self.in_4xx,
            Instrument::Inbound5xx => self.in_5xx,
            Instrument::Outbound2xx => self.out_2xx,
            Instrument::Outbound3xx => self.out_3xx,
            Instrument::Outbound4xx => self.out_4xx,
            Instrument::Outbound5xx => self.out_5xx,
        }
    }

    /// The handles in which no instrument is registered.
    pub open spec fn unregistered() -> Metrics {
        Metrics {
            hist_in_ms: UNDEFINED_HANDLE,
            hist_out_ms: UNDEFINED_HANDLE,
            in_2xx: UNDEFINED_HANDLE,
            in_3xx: UNDEFINED_HANDLE,
            in_4xx: UNDEFINED_HANDLE,
            in_5xx: UNDEFINED_HANDLE,
            out_2xx: UNDEFINED_HANDLE,
            out_3xx: UNDEFINED_HANDLE,
            out_4xx: UNDEFINED_HANDLE,
            out_5xx: UNDEFINED_HANDLE,
        }
    }

    /// The handles that ten registrations leave, `outcomes[k]` being what the host
    /// answered for the instrument at place `k`.
    pub open spec fn registered(outcomes: Seq<Option<u32>>) -> Metrics {
        Metrics {
            hist_in_ms: handle_of(outcomes[0]),
            hist_out_ms: handle_of(outcomes[1]),
            in_2xx: handle_of(outcomes[2]),
            in_3xx: handle_of(outcomes[3]),
            in_4xx: handle_of(outcomes[4]),
            in_5xx: handle_of(outcomes[5]),
            out_2xx: handle_of(outcomes[6]),
            out_3xx: handle_of(outcomes[7]),
            out_4xx: handle_of(outcomes[8]),
            out_5xx: handle_of(outcomes[9]),
        }
    }

    /// The instrument that takes the duration of an exchange.
    pub open spec fn duration_instrument(inbound: bool) -> Instrument {
        if inbound {
            Instrument::InboundDuration
        } else {
            Instrument::OutboundDuration
        }
    }

    /// The instrument that counts responses of `class` in one direction; only the
    /// classes 200, 300, 400 and 500 have one.
    pub open spec fn response_instrument(inbound: bool, class: u32) -> Option<Instrument> {
        if class == 200 {
            Some(if inbound { Instrument::Inbound2xx } else { Instrument::Outbound2xx })
        } else if class == 300 {
            Some(if inbound { Instrument::Inbound3xx } else { Instrument::Outbound3xx })
        } else if class == 400 {
            Some(if inbound { Instrument::Inbound4xx } else { Instrument::Outbound4xx })
        } else if class == 500 {
            Some(if inbound { Instrument::Inbound5xx } else { Instrument::Outbound5xx })
        } else {
            None
        }
    }

    /// The handle under which a duration is recorded, if that histogram is registered.
    pub open spec fn histogram_target(self, inbound: bool) -> Option<u32> {
        let h = self.handle(Self::duration_instrument(inbound));
        if h == UNDEFINED_HANDLE {
            None
        } else {
            Some(h)
        }
    }

    /// The handle of the counter that a response of `class` increments, if the class
    /// has a counter and that counter is registered.
    pub open spec fn counter_target(self, inbound: bool, class: u32) -> Option<u32> {
        match Self::response_instrument(inbound, class) {
            Some(instrument) => {
                let h = self.handle(instrument);
                if h == UNDEFINED_HANDLE {
                    None
                } else {
                    Some(h)
                }
            },
            None => None,
        }
    }

    /// Builds the handle set from the outcomes of the ten registrations, in
    /// registration order. A failed registration leaves [`UNDEFINED_HANDLE`] and
    /// does not touch the others.
    pub fn from_outcomes(outcomes: &[Option<u32>; 10]) -> (m: Metrics)
        ensures
            m == Metrics::registered(outcomes@),
            forall|k: int| 0 <= k < 10 ==> m.handle(Instrument::at(k)) == handle_of(outcomes@[k]),
    {
        Metrics {
            hist_in_ms: handle_or_undefined(outcomes[0]),
            hist_out_ms: handle_or_undefined(outcomes[1]),
            in_2xx: handle_or_undefined(outcomes[2]),
            in_3xx: handle_or_undefined(outcomes[3]),
            in_4xx: handle_or_undefined(outcomes[4]),
            in_5xx: handle_or_undefined(outcomes[5]),
            out_2xx: handle_or_undefined(outcomes[6]),
            out_3xx: handle_or_undefined(outcomes[7]),
            out_4xx: handle_or_undefined(outcomes[8]),
            out_5xx: handle_or_undefined(outcomes[9]),
        }
    }

    /// The histogram handle for a direction, or `None` where it is undefined.
    pub fn histogram(&self, inbound: bool) -> (target: Option<u32>)
        ensures
            target == self.histogram_target(inbound),
    {
        let h = if inbound { self.hist_in_ms } else { self.hist_out_ms };
        if h == UNDEFINED_HANDLE {
            None
        } else {
            Some(h)
        }
    }

    /// The counter handle for a direction and a status class, or `None` where the
    /// class has no counter or the counter is undefined.
    pub fn counter(&self, inbound: bool, class: u32) -> (target: Option<u32>)
        ensures
            target == self.counter_target(inbound, class),
    {
        let h = if class == 200 {
            if inbound { self.in_2xx } else { self.out_2xx }
        } else if class == 300 {
            if inbound { self.in_3xx } else { self.out_3xx }
        } else if class == 400 {
            if inbound { self.in_4xx } else { self.out_4xx }
        } else if class == 500 {
            if inbound { self.in_5xx } else { self.out_5xx }
        } else {
            return None;
        };
        if h == UNDEFINED_HANDLE {
            None
        } else {
            Some(h)
        }
    }
}

/// A status has a counter exactly where it lies from 200 to 599; the counter is
/// that of its hundreds and of the direction of the exchange.
pub proof fn lemma_counted_statuses(inbound: bool, status: u32)
    ensures
        Metrics::response_instrument(inbound, class_of(status)) is Some <==> 200 <= status <= 599,
        200 <= status <= 299 ==> Metrics::response_instrument(inbound, class_of(status)) == Some(
            if inbound { Instrument::Inbound2xx } else { Instrument::Outbound2xx },
        ),
        300 <= status <= 399 ==> Metrics::response_instrument(inbound, class_of(status)) == Some(
            if inbound { Instrument::Inbound3xx } else { Instrument::Outbound3xx },
        ),
        400 <= status <= 499 ==> Metrics::response_instrument(inbound, class_of(status)) == Some(
            if inbound { Instrument::Inbound4xx } else { Instrument::Outbound4xx },
        ),
        500 <= status <= 599 ==> Metrics::response_instrument(inbound, class_of(status)) == Some(
            if inbound { Instrument::Inbound5xx } else { Instrument::Outbound5xx },
        ),
{
}

/// Nothing is recorded under the undefined handle: an instrument whose
/// registration failed has no target, and one that is registered has its own.
pub proof fn lemma_undefined_is_silent(m: Metrics, inbound: bool, class: u32)
    ensures
        m.histogram_target(inbound) != Some(UNDEFINED_HANDLE),
        m.counter_target(inbound, class) != Some(UNDEFINED_HANDLE),
        m.histogram_target(inbound) is None <==> m.handle(Metrics::duration_instrument(inbound))
            == UNDEFINED_HANDLE,
        m.counter_target(inbound, class) matches Some(h) ==> Metrics::response_instrument(
            inbound,
            class,
        ) matches Some(i) && m.handle(i) == h,
{
}

impl Default for Metrics {
    /// No instrument registered.
    fn default() -> (m: Metrics)
        ensures
            m == Metrics::unregistered(),
    {
        Metrics {
            hist_in_ms: UNDEFINED_HANDLE,
            hist_out_ms: UNDEFINED_HANDLE,
            in_2xx: UNDEFINED_HANDLE,
            in_3xx: UNDEFINED_HANDLE,
            in_4xx: UNDEFINED_HANDLE,
            in_5xx: UNDEFINED_HANDLE,
            out_2xx: UNDEFINED_HANDLE,
            out_3xx: UNDEFINED_HANDLE,
            out_4xx: UNDEFINED_HANDLE,
            out_5xx: UNDEFINED_HANDLE,
        }
    }
}

/// The handle that a registration leaves.
pub fn handle_or_undefined(outcome: Option<u32>) -> (h: u32)
    ensures
        h == handle_of(outcome),
{
    match outcome {
        Some(h) => h,
        None => UNDEFINED_HANDLE,
    }
}

} // verus!
