use snaprust::client::handle_time;
use snaprust::message::{TimeData, TimeVal};
use snaprust::time_provider::TimeProvider;

#[test]
fn empty_window_estimates_zero() {
    let p = TimeProvider::new();
    assert_eq!(p.get_diff_to_server(), 0);
    assert_eq!(p.server_time_at(TimeVal { sec: 2, usec: 5_000 }), 2005);
}

#[test]
fn window_keeps_latest_two_hundred() {
    let mut p = TimeProvider::new();
    for i in 1..=250i64 {
        p.add_time(TimeVal { sec: 0, usec: i * 1000 });
    }
    let expected: Vec<u64> = (51..=250).collect();
    assert_eq!(p.samples(), &expected);
    assert_eq!(p.get_diff_to_server(), 30100 / 200);
}

#[test]
fn sample_in_milliseconds() {
    let mut p = TimeProvider::new();
    p.add_time(TimeVal { sec: 2, usec: 345_999 });
    assert_eq!(p.samples(), &vec![2345]);
    p.add_time(TimeVal { sec: 0, usec: 4_000 });
    assert_eq!(p.get_diff_to_server(), (2345 + 4) / 2);
    assert_eq!(p.server_time_at(TimeVal { sec: 10, usec: 0 }), 10_000 + 1174);
}

#[test]
fn server_time_follows_clock() {
    let mut p = TimeProvider::new();
    p.add_time(TimeVal { sec: 1, usec: 0 });
    let t = p.get_server_time();
    assert!(t > 1_577_836_800_000 + 1000);
}

#[test]
fn negative_time_sample_is_ignored() {
    let mut p = TimeProvider::new();
    handle_time(&TimeData { latency: TimeVal { sec: -1, usec: 0 } }, &mut p);
    assert!(p.samples().is_empty());
    handle_time(&TimeData { latency: TimeVal { sec: 0, usec: 7_000 } }, &mut p);
    assert_eq!(p.samples(), &vec![7]);
}

#[test]
fn large_time_sample_is_recorded() {
    let mut p = TimeProvider::new();
    handle_time(&TimeData { latency: TimeVal { sec: 2_147_483_648, usec: 0 } }, &mut p);
    assert_eq!(p.samples(), &vec![2_147_483_648_000]);
    assert_eq!(p.get_diff_to_server(), 2_147_483_648_000);
}

#[test]
fn clock_reading_conversion() {
    assert_eq!(
        TimeVal::from_since_epoch(Some((1_700_000_000, 123_456_789))),
        TimeVal { sec: 1_700_000_000, usec: 123_456 }
    );
    assert_eq!(TimeVal::from_since_epoch(None), TimeVal { sec: 0, usec: 0 });
    assert_eq!(TimeVal::from_since_epoch(Some((u64::MAX, 5))), TimeVal { sec: 0, usec: 0 });
}
