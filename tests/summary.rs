use pnetutils::{Ipv4Address, PingRequest, PingResponse, PingSummary};

fn dest() -> Ipv4Address {
    Ipv4Address::new(10, 0, 0, 1)
}

fn ok(seq: u64, rtt: u64) -> PingResponse {
    let r = PingRequest::new(7).with_address(dest()).with_sequence_number(seq);
    PingResponse::new(r, dest(), Some(rtt))
}

fn timed_out(seq: u64) -> PingResponse {
    let r = PingRequest::new(7).with_address(dest()).with_sequence_number(seq);
    PingResponse::new(r, dest(), None)
}

fn loss_rate(s: &PingSummary) -> f64 {
    s.packets_lost() as f64 / s.packets_sent() as f64
}

#[test]
fn all_four_succeed() {
    let s = PingSummary::new(vec![ok(1, 10_000), ok(2, 12_000), ok(3, 11_000), ok(4, 9_000)]);
    assert_eq!(s.packets_sent(), 4);
    assert_eq!(s.packets_returned(), 4);
    assert_eq!(s.packets_lost(), 0);
    assert_eq!(loss_rate(&s), 0.0);
    assert_eq!(s.min_rtt(), 9_000);
    assert_eq!(s.max_rtt(), 12_000);
    assert_eq!(s.mean_rtt(), 10_500);
}

#[test]
fn two_succeed_two_time_out() {
    let s = PingSummary::new(vec![ok(1, 20_000), timed_out(2), ok(3, 30_000), timed_out(4)]);
    assert_eq!(s.packets_returned(), 2);
    assert_eq!(s.packets_lost(), 2);
    assert_eq!(loss_rate(&s), 0.5);
    assert_eq!(s.min_rtt(), 20_000);
    assert_eq!(s.max_rtt(), 30_000);
    assert_eq!(s.mean_rtt(), 25_000);
}

#[test]
fn all_lost() {
    let s = PingSummary::new(vec![timed_out(1), timed_out(2), timed_out(3)]);
    assert_eq!(s.packets_sent(), 3);
    assert_eq!(s.packets_returned(), 0);
    assert_eq!(s.packets_lost(), 3);
    assert_eq!(loss_rate(&s), 1.0);
}

#[test]
fn sent_is_returned_plus_lost() {
    let s = PingSummary::new(vec![ok(1, 5), timed_out(2), ok(3, 7), timed_out(4), timed_out(5)]);
    assert_eq!(s.packets_sent(), s.packets_returned() + s.packets_lost());
    assert_eq!(s.packets_returned(), 2);
}

#[test]
fn reply_from_elsewhere_is_lost() {
    let r = PingRequest::new(7).with_address(dest());
    let stray = PingResponse::new(r, Ipv4Address::new(10, 0, 0, 2), Some(4_000));
    let s = PingSummary::new(vec![ok(1, 1_000), stray]);
    assert_eq!(s.packets_returned(), 1);
    assert_eq!(s.packets_lost(), 1);
    assert_eq!(s.max_rtt(), 1_000);
}

#[test]
fn min_mean_max_order() {
    let s = PingSummary::new(vec![ok(1, 3), ok(2, 100), timed_out(3), ok(4, 4)]);
    assert!(s.min_rtt() <= s.mean_rtt());
    assert!(s.mean_rtt() <= s.max_rtt());
    assert_eq!(s.mean_rtt(), 35);
}

#[test]
fn mean_rounds_down() {
    let s = PingSummary::new(vec![ok(1, 1), ok(2, 2)]);
    assert_eq!(s.mean_rtt(), 1);
    assert_eq!(s.rtt_sum(), 3);
    assert_eq!(s.rtt_sum() as f64 / s.packets_returned() as f64, 1.5);
}

#[test]
fn rtt_sum_skips_lost_probes() {
    let s = PingSummary::new(vec![ok(1, 20_000), timed_out(2), ok(3, 30_000), timed_out(4)]);
    assert_eq!(s.rtt_sum(), 50_000);
    let big = PingSummary::new(vec![ok(1, u64::MAX), ok(2, u64::MAX)]);
    assert_eq!(big.rtt_sum(), 2 * (u64::MAX as u128));
}

#[test]
fn mean_deviation() {
    let s = PingSummary::new(vec![ok(1, 10_000), ok(2, 12_000), ok(3, 11_000), ok(4, 9_000)]);
    // distances from 10500: 500, 1500, 500, 1500
    assert_eq!(s.mdev_rtt(), 1_000);
    let one = PingSummary::new(vec![ok(1, 42)]);
    assert_eq!(one.mdev_rtt(), 0);
}

#[test]
fn extreme_round_trip_times() {
    let s = PingSummary::new(vec![ok(1, u64::MAX), ok(2, u64::MAX), ok(3, 0)]);
    assert_eq!(s.max_rtt(), u64::MAX);
    assert_eq!(s.min_rtt(), 0);
    assert_eq!(s.mean_rtt(), ((u64::MAX as u128 * 2) / 3) as u64);
}

#[test]
fn same_results_same_statistics() {
    let v = vec![ok(1, 20_000), timed_out(2), ok(3, 30_000)];
    let a = PingSummary::new(v.clone());
    let b = PingSummary::new(v);
    assert_eq!(a.packets_returned(), b.packets_returned());
    assert_eq!(a.packets_lost(), b.packets_lost());
    assert_eq!(a.min_rtt(), b.min_rtt());
    assert_eq!(a.max_rtt(), b.max_rtt());
    assert_eq!(a.mean_rtt(), b.mean_rtt());
    assert_eq!(a.mdev_rtt(), b.mdev_rtt());
    assert_eq!(a.mean_rtt(), a.mean_rtt());
}
