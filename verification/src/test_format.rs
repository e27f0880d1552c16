//! Event rendering: the Start/Report/Finish event record handed to
//! listeners, and the two output formats -- a JSON object per event, and
//! a human-readable line with scaled byte counts.

use vstd::prelude::*;
use vstd::string::StringExecFns;

use crate::bytes::{digit_str, spec_decimal, spec_digit_char, u64_to_string};
use crate::clock;
use crate::test::{spec_elapsed, TestData};

verus! {

/// What kind of notification an event is.
#[derive(Clone, Copy, Debug, PartialEq, Eq, Structural)]
pub enum EventType {
    Start,
    Finish,
    Report,
}

/// One notification: its kind, the current counters, the counters at the
/// previous report (so a consumer can compute interval throughput), and
/// the wall-clock time the event was recorded.
#[derive(Clone, Copy, Debug, PartialEq, Eq, Structural)]
pub struct Event {
    pub event_type: EventType,
    pub data: TestData,
    pub previous_data: Option<TestData>,
    pub timestamp_ms: u64,
}

impl Event {
    /// Records an event now.
    pub fn new(event_type: EventType, data: &TestData, previous_data: &Option<TestData>) -> (r:
        Event)
        ensures
            r.event_type == event_type,
            r.data == *data,
            r.previous_data == *previous_data,
    {
        Event { event_type, data: *data, previous_data: *previous_data, timestamp_ms: clock::now_millis() }
    }
}

/// Renders events; selected at startup, decoupled from the engine.
pub trait Format {
    fn format(&self, event: &Event) -> String;
}

// ---------------------------------------------------------------------------
// Shared rendering pieces
// ---------------------------------------------------------------------------

/// Exactly two decimal digits, for values below one hundred.
pub open spec fn spec_two_digits(n: nat) -> Seq<char>
    recommends
        n < 100,
{
    seq![spec_digit_char((n / 10) as int), spec_digit_char((n % 10) as int)]
}

fn two_digits(n: u64) -> (s: String)
    requires
        n < 100,
    ensures
        s@ == spec_two_digits(n as nat),
{
    let mut s = digit_str(n / 10).to_owned();
    s.append(digit_str(n % 10));
    proof {
        assert(s@ =~= spec_two_digits(n as nat));
    }
    s
}

// ---------------------------------------------------------------------------
// JSON rendering
// ---------------------------------------------------------------------------

pub open spec fn spec_event_type_name(t: EventType) -> Seq<char> {
    match t {
        EventType::Start => "Start"@,
        EventType::Finish => "Finish"@,
        EventType::Report => "Report"@,
    }
}

/// The JSON object for one counters snapshot.
pub open spec fn spec_json_data(d: TestData) -> Seq<char> {
    "{\"id\":"@ + spec_decimal(d.id as nat) + ",\"total_transfer\":"@ + spec_decimal(
        d.total_transfer as nat,
    ) + ",\"total_packets\":"@ + spec_decimal(d.total_packets as nat) + ",\"plan\":{\"duration_ms\":"@
        + spec_decimal(d.plan.duration_ms as nat) + ",\"packet_size\":"@ + spec_decimal(
        d.plan.packet_size as nat,
    ) + "}}"@
}

/// The JSON object for one event.
pub open spec fn spec_json_event(e: Event) -> Seq<char> {
    "{\"type\":\""@ + spec_event_type_name(e.event_type) + "\",\"data\":"@ + spec_json_data(e.data)
        + ",\"previous_data\":"@ + (match e.previous_data {
        None => "null"@,
        Some(p) => spec_json_data(p),
    }) + ",\"timestamp_ms\":"@ + spec_decimal(e.timestamp_ms as nat) + "}"@
}

fn render_json_data(d: &TestData) -> (s: String)
    ensures
        s@ == spec_json_data(*d),
{
    let mut s = String::from_str("{\"id\":");
    s.append(u64_to_string(d.id as u64).as_str());
    s.append(",\"total_transfer\":");
    s.append(u64_to_string(d.total_transfer as u64).as_str());
    s.append(",\"total_packets\":");
    s.append(u64_to_string(d.total_packets as u64).as_str());
    s.append(",\"plan\":{\"duration_ms\":");
    s.append(u64_to_string(d.plan.duration_ms).as_str());
    s.append(",\"packet_size\":");
    s.append(u64_to_string(d.plan.packet_size as u64).as_str());
    s.append("}}");
    proof {
        assert(s@ =~= spec_json_data(*d));
    }
    s
}

/// Renders every event as one JSON object.
#[derive(Clone, Copy, Debug, PartialEq, Eq, Structural)]
pub struct Json;

impl Json {
    /// The event as a JSON object with the type, both counter snapshots
    /// and the timestamp.
    pub fn render_event(&self, event: &Event) -> (s: String)
        ensures
            s@ == spec_json_event(*event),
    {
        let mut s = String::from_str("{\"type\":\"");
        match event.event_type {
            EventType::Start => s.append("Start"),
            EventType::Finish => s.append("Finish"),
            EventType::Report => s.append("Report"),
        }
        s.append("\",\"data\":");
        s.append(render_json_data(&event.data).as_str());
        s.append(",\"previous_data\":");
        match &event.previous_data {
            None => s.append("null"),
            Some(p) => s.append(render_json_data(p).as_str()),
        }
        s.append(",\"timestamp_ms\":");
        s.append(u64_to_string(event.timestamp_ms).as_str());
        s.append("}");
        proof {
            assert(s@ =~= spec_json_event(*event));
        }
        s
    }
}

impl Format for Json {
    fn format(&self, event: &Event) -> String {
        self.render_event(event)
    }
}

// ---------------------------------------------------------------------------
// Human-readable rendering
// ---------------------------------------------------------------------------

/// Which power of 1000 scales `n` into [1, 1000), capped at peta.
pub open spec fn spec_byte_scale(n: nat) -> nat {
    if n < 1000 {
        0
    } else if n < 1000000 {
        1
    } else if n < 1000000000 {
        2
    } else if n < 1000000000000 {
        3
    } else if n < 1000000000000000 {
        4
    } else {
        5
    }
}

pub open spec fn spec_scale_divisor(i: nat) -> nat {
    if i == 0 {
        1
    } else if i == 1 {
        1000
    } else if i == 2 {
        1000000
    } else if i == 3 {
        1000000000
    } else if i == 4 {
        1000000000000
    } else {
        1000000000000000
    }
}

pub open spec fn spec_scale_suffix(i: nat) -> Seq<char> {
    if i == 0 {
        Seq::empty()
    } else if i == 1 {
        "K"@
    } else if i == 2 {
        "M"@
    } else if i == 3 {
        "G"@
    } else if i == 4 {
        "T"@
    } else {
        "P"@
    }
}

/// `n` scaled by the largest fitting power of 1000, rendered with two
/// decimal places (truncated) and the scale's suffix letter.
pub open spec fn spec_format_bytes(n: nat) -> Seq<char> {
    let i = spec_byte_scale(n);
    let hundredths = n * 100 / spec_scale_divisor(i);
    spec_decimal(hundredths / 100) + "."@ + spec_two_digits(hundredths % 100) + spec_scale_suffix(i)
}

/// Renders events as human-readable lines.
#[derive(Clone, Copy, Debug, PartialEq, Eq, Structural)]
pub struct Pretty;

impl Pretty {
    /// Scales a byte count by powers of 1000 with a K/M/G/T/P suffix and
    /// two (truncated) decimal places.
    pub fn format_bytes(&self, n: usize) -> (s: String)
        ensures
            s@ == spec_format_bytes(n as nat),
    {
        let m = n as u128;
        let divisor: u128 = if m < 1000 {
            1
        } else if m < 1000000 {
            1000
        } else if m < 1000000000 {
            1000000
        } else if m < 1000000000000 {
            1000000000
        } else if m < 1000000000000000 {
            1000000000000
        } else {
            1000000000000000
        };
        let hundredths_wide: u128 = m * 100 / divisor;
        proof {
            if divisor > 1 {
                vstd::arithmetic::div_mod::lemma_div_is_ordered_by_denominator(
                    m as int * 100,
                    100,
                    divisor as int,
                );
                vstd::arithmetic::div_mod::lemma_div_multiples_vanish(m as int, 100);
            }
            assert(hundredths_wide <= u64::MAX);
        }
        let hundredths: u64 = hundredths_wide as u64;
        let mut s = u64_to_string(hundredths / 100);
        s.append(".");
        s.append(two_digits(hundredths % 100).as_str());
        if divisor == 1 {
        } else if divisor == 1000 {
            s.append("K");
        } else if divisor == 1000000 {
            s.append("M");
        } else if divisor == 1000000000 {
            s.append("G");
        } else if divisor == 1000000000000 {
            s.append("T");
        } else {
            s.append("P");
        }
        proof {
            assert(s@ =~= spec_format_bytes(n as nat));
        }
        s
    }

    /// The line for one event: start and finish name the session; a
    /// report shows elapsed seconds, the scaled running total, and --
    /// when a previous snapshot exists -- the interval throughput in
    /// bits per second.
    pub fn render_event(&self, event: &Event) -> (s: String)
        ensures
            s@ == spec_pretty_event(*event),
    {
        match event.event_type {
            EventType::Start => {
                let mut s = String::from_str("Test started #");
                s.append(u64_to_string(event.data.id as u64).as_str());
                proof {
                    assert(s@ =~= spec_pretty_event(*event));
                }
                s
            },
            EventType::Finish => {
                let mut s = String::from_str("Test finished #");
                s.append(u64_to_string(event.data.id as u64).as_str());
                proof {
                    assert(s@ =~= spec_pretty_event(*event));
                }
                s
            },
            EventType::Report => {
                let elapsed = event.data.elapsed_at(event.timestamp_ms);
                let mut s = String::from_str("[");
                s.append(u64_to_string(elapsed / 1000).as_str());
                s.append(".");
                s.append(two_digits((elapsed % 1000) / 10).as_str());
                s.append("s] ");
                s.append(self.format_bytes(event.data.total_transfer).as_str());
                s.append("B");
                match &event.previous_data {
                    Some(p) => {
                        let delta = event.data.total_transfer.saturating_sub(p.total_transfer);
                        let bits = match delta.checked_mul(8) {
                            Some(b) => b,
                            None => usize::MAX,
                        };
                        s.append(" (");
                        s.append(self.format_bytes(bits).as_str());
                        s.append("bit/s)");
                    },
                    None => {},
                }
                proof {
                    assert(s@ =~= spec_pretty_event(*event));
                }
                s
            },
        }
    }
}

/// The throughput figure of a report: the bytes since the previous
/// snapshot, as bits, saturating.
pub open spec fn spec_interval_bits(total: nat, previous: nat) -> nat {
    let delta: nat = if total >= previous {
        (total - previous) as nat
    } else {
        0
    };
    if delta * 8 > usize::MAX as nat {
        usize::MAX as nat
    } else {
        delta * 8
    }
}

/// The human-readable line for one event.
pub open spec fn spec_pretty_event(e: Event) -> Seq<char> {
    match e.event_type {
        EventType::Start => "Test started #"@ + spec_decimal(e.data.id as nat),
        EventType::Finish => "Test finished #"@ + spec_decimal(e.data.id as nat),
        EventType::Report => {
            let elapsed = spec_elapsed(e.data, e.timestamp_ms);
            let head = "["@ + spec_decimal((elapsed / 1000) as nat) + "."@ + spec_two_digits(
                ((elapsed % 1000) / 10) as nat,
            ) + "s] "@ + spec_format_bytes(e.data.total_transfer as nat) + "B"@;
            match e.previous_data {
                Some(p) => head + " ("@ + spec_format_bytes(
                    spec_interval_bits(e.data.total_transfer as nat, p.total_transfer as nat),
                ) + "bit/s)"@,
                None => head,
            }
        },
    }
}

impl Format for Pretty {
    fn format(&self, event: &Event) -> String {
        self.render_event(event)
    }
}

} // verus!
