use netperf::bytes::u64_to_string;
use netperf::cli::{start_cli, Command, FormatType, InputSource};
use netperf::test::{TestData, TestPlan};
use netperf::test_format::{Event, EventType, Format, Json, Pretty};

fn data() -> TestData {
    let mut d = TestData::new(1, TestPlan { duration_ms: 500, packet_size: 1024 });
    d.start_time_ms = 10_000;
    d
}

fn event(event_type: EventType, data: TestData, previous: Option<TestData>, at: u64) -> Event {
    let mut e = Event::new(event_type, &data, &previous);
    e.timestamp_ms = at;
    e
}

#[test]
fn decimal_rendering_exact() {
    assert_eq!(u64_to_string(0), "0");
    assert_eq!(u64_to_string(7), "7");
    assert_eq!(u64_to_string(10), "10");
    assert_eq!(u64_to_string(90210), "90210");
    assert_eq!(u64_to_string(u64::MAX), "18446744073709551615");
}

#[test]
fn format_bytes_scales_by_powers_of_1000() {
    let pretty = Pretty;
    assert_eq!(pretty.format_bytes(0), "0.00");
    assert_eq!(pretty.format_bytes(999), "999.00");
    assert_eq!(pretty.format_bytes(1000), "1.00K");
    assert_eq!(pretty.format_bytes(1500), "1.50K");
    assert_eq!(pretty.format_bytes(1234567), "1.23M");
    assert_eq!(pretty.format_bytes(2_000_000_000), "2.00G");
    assert_eq!(pretty.format_bytes(3_500_000_000_000), "3.50T");
    assert_eq!(pretty.format_bytes(7_250_000_000_000_000), "7.25P");
}

#[test]
fn format_bytes_truncates_the_hundredths() {
    let pretty = Pretty;
    assert_eq!(pretty.format_bytes(1999), "1.99K");
    assert_eq!(pretty.format_bytes(1009), "1.00K");
}

#[test]
fn pretty_start_and_finish_lines() {
    let pretty = Pretty;
    let start = event(EventType::Start, data(), None, 10_000);
    assert_eq!(pretty.format(&start), "Test started #1");
    let finish = event(EventType::Finish, data(), None, 10_000);
    assert_eq!(pretty.format(&finish), "Test finished #1");
}

#[test]
fn pretty_report_line_without_previous_snapshot() {
    let pretty = Pretty;
    let mut d = data();
    d.total_transfer = 1500;
    let report = event(EventType::Report, d, None, 11_230);
    assert_eq!(pretty.format(&report), "[1.23s] 1.50KB");
}

#[test]
fn pretty_report_line_with_interval_throughput() {
    let pretty = Pretty;
    let mut previous = data();
    previous.total_transfer = 1000;
    let mut d = data();
    d.total_transfer = 2000;
    // 1000 fresh bytes over the interval: 8000 bits.
    let report = event(EventType::Report, d, Some(previous), 12_000);
    assert_eq!(pretty.format(&report), "[2.00s] 2.00KB (8.00Kbit/s)");
}

#[test]
fn json_event_exact() {
    let json = Json;
    let start = event(EventType::Start, data(), None, 10_500);
    assert_eq!(
        json.format(&start),
        "{\"type\":\"Start\",\"data\":{\"id\":1,\"total_transfer\":0,\"total_packets\":0,\
         \"plan\":{\"duration_ms\":500,\"packet_size\":1024}},\"previous_data\":null,\
         \"timestamp_ms\":10500}"
    );
}

#[test]
fn json_event_with_previous_snapshot() {
    let json = Json;
    let mut previous = data();
    previous.total_transfer = 512;
    previous.total_packets = 1;
    let mut d = data();
    d.total_transfer = 1024;
    d.total_packets = 2;
    let report = event(EventType::Report, d, Some(previous), 11_000);
    let rendered = json.format(&report);
    assert!(rendered.starts_with("{\"type\":\"Report\","));
    assert!(rendered.contains("\"previous_data\":{\"id\":1,\"total_transfer\":512,"));
    assert!(rendered.ends_with("\"timestamp_ms\":11000}"));
}

#[test]
fn cli_resolves_file_source() {
    let command = Command { config: Some("bench.json".to_string()), format: FormatType::Json };
    let plan = start_cli(command);
    assert_eq!(plan.format, FormatType::Json);
    match plan.source {
        InputSource::File(path) => assert_eq!(path, "bench.json"),
        InputSource::Stdin => panic!("expected the file source"),
    }
}

#[test]
fn cli_resolves_stdin_source() {
    let command = Command { config: None, format: FormatType::Pretty };
    let plan = start_cli(command);
    assert_eq!(plan.format, FormatType::Pretty);
    assert!(matches!(plan.source, InputSource::Stdin));
}

#[test]
fn format_type_names() {
    assert_eq!(FormatType::Json.name(), "json");
    assert_eq!(FormatType::Pretty.name(), "pretty");
}
