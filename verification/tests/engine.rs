use std::cell::RefCell;
use std::rc::Rc;

use netperf::test::{EmptyTestEventHandler, Test, TestData, TestListener, TestOptions, TestPlan};
use netperf::test_format::EventType;

/// Records every notification it receives, for later inspection.
#[derive(Clone)]
struct Recorder {
    log: Rc<RefCell<Vec<(EventType, TestData)>>>,
}

impl Recorder {
    fn new() -> Recorder {
        Recorder { log: Rc::new(RefCell::new(Vec::new())) }
    }
}

impl TestListener for Recorder {
    fn on_start(&mut self, data: &TestData) {
        self.log.borrow_mut().push((EventType::Start, *data));
    }

    fn on_finish(&mut self, data: &TestData) {
        self.log.borrow_mut().push((EventType::Finish, *data));
    }

    fn on_report(&mut self, data: &TestData) {
        self.log.borrow_mut().push((EventType::Report, *data));
    }
}

fn plan() -> TestPlan {
    TestPlan { duration_ms: 1000, packet_size: 16 }
}

fn test_at(start_ms: u64, interval_ms: u64, recorder: &Recorder) -> Test<Recorder> {
    let mut data = TestData::new(3, plan());
    data.start_time_ms = start_ms;
    Test::new(data, TestOptions::new(interval_ms, recorder.clone()))
}

#[test]
fn fresh_data_is_zeroed() {
    let data = TestData::new(5, plan());
    assert_eq!(data.id, 5);
    assert_eq!(data.total_transfer, 0);
    assert_eq!(data.total_packets, 0);
    assert_eq!(data.report_count, 0);
    assert_eq!(data.plan, plan());
}

#[test]
fn elapsed_at_is_saturating() {
    let mut data = TestData::new(1, plan());
    data.start_time_ms = 1000;
    assert_eq!(data.elapsed_at(1750), 750);
    assert_eq!(data.elapsed_at(1000), 0);
    assert_eq!(data.elapsed_at(400), 0);
}

#[test]
fn transferred_accumulates_bytes_and_packets() {
    let recorder = Recorder::new();
    let mut test = test_at(0, u64::MAX, &recorder);
    test.transferred_at(100, 10);
    test.transferred_at(50, 20);
    assert_eq!(test.data.total_transfer, 150);
    assert_eq!(test.data.total_packets, 2);
    assert_eq!(test.data.report_count, 0);
}

#[test]
fn transferred_saturates_instead_of_overflowing() {
    let recorder = Recorder::new();
    let mut test = test_at(0, u64::MAX, &recorder);
    test.transferred_at(usize::MAX, 1);
    test.transferred_at(usize::MAX, 2);
    assert_eq!(test.data.total_transfer, usize::MAX);
    assert_eq!(test.data.total_packets, 2);
}

#[test]
fn report_fires_once_per_boundary_crossed() {
    // Interval 100: no report before 100, one at the boundary, none
    // again until the next boundary.
    let recorder = Recorder::new();
    let mut test = test_at(0, 100, &recorder);
    test.transferred_at(1, 50);
    assert_eq!(test.data.report_count, 0);
    test.transferred_at(1, 100);
    assert_eq!(test.data.report_count, 1);
    test.transferred_at(1, 150);
    assert_eq!(test.data.report_count, 1);
    test.transferred_at(1, 250);
    assert_eq!(test.data.report_count, 2);
    let reports = recorder
        .log
        .borrow()
        .iter()
        .filter(|(t, _)| *t == EventType::Report)
        .count();
    assert_eq!(reports, 2);
}

#[test]
fn report_does_not_burst_after_skipped_boundaries() {
    // One call far past several boundaries fires exactly one report.
    let recorder = Recorder::new();
    let mut test = test_at(0, 100, &recorder);
    test.transferred_at(1, 1000);
    assert_eq!(test.data.report_count, 1);
}

#[test]
fn report_count_reaches_every_boundary_hit() {
    // Calls at every boundary of interval 100 up to time 500 fire
    // exactly 500 / 100 reports.
    let recorder = Recorder::new();
    let mut test = test_at(0, 100, &recorder);
    for k in 1..=5u64 {
        test.transferred_at(1, k * 100);
    }
    assert_eq!(test.data.report_count, 5);
}

#[test]
fn should_report_at_advances_the_counter() {
    let recorder = Recorder::new();
    let mut test = test_at(0, 100, &recorder);
    assert!(!test.should_report_at(99));
    assert!(test.should_report_at(100));
    assert!(!test.should_report_at(100));
    assert!(test.should_report_at(200));
}

#[test]
fn start_and_finish_notify_without_touching_counters() {
    let recorder = Recorder::new();
    let mut test = test_at(0, u64::MAX, &recorder);
    test.start();
    test.transferred_at(8, 1);
    test.finish();
    let log = recorder.log.borrow();
    assert_eq!(log[0].0, EventType::Start);
    assert_eq!(log[log.len() - 1].0, EventType::Finish);
    assert_eq!(log[log.len() - 1].1.total_transfer, 8);
}

#[test]
fn should_report_never_fires_before_the_first_interval() {
    let recorder = Recorder::new();
    let mut test = test_at(0, u64::MAX, &recorder);
    assert!(!test.should_report());
    assert_eq!(test.data.report_count, 0);
}

#[test]
fn elapsed_reads_zero_for_a_start_in_the_future() {
    let mut data = TestData::new(1, plan());
    data.start_time_ms = u64::MAX;
    assert_eq!(data.elapsed(), 0);
}

#[test]
fn default_options_effectively_never_report() {
    let options: TestOptions<EmptyTestEventHandler> = Default::default();
    assert_eq!(options.report_interval_ms, u64::MAX);
}
