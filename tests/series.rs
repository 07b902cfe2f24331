use pnetutils::{Ipv4Address, PingRequest, PingSeries, PingSummary, Reply};

fn dest() -> Ipv4Address {
    Ipv4Address::new(192, 168, 1, 9)
}

fn echo_reply(rtt: u64) -> Option<Reply> {
    Some(Reply { message: vec![0, 0, 0, 0, 0, 0, 0, 1], from: dest(), elapsed: rtt })
}

#[test]
fn series_yields_one_result_per_probe() {
    let req = PingRequest::new(99).with_address(dest()).with_ttl(32);
    let series = PingSeries::default().with_number_of_packets(5).with_sleep(250);
    let mut run = series.start(req);
    let mut pauses = Vec::new();
    let mut seen = Vec::new();
    while let Some(p) = run.next_probe() {
        seen.push(p.sequence_number());
        let (resp, pause) = run.record(if p.sequence_number() % 2 == 0 { None } else { echo_reply(1_000) });
        assert_eq!(resp.sequence_number(), p.sequence_number());
        pauses.push(pause);
    }
    assert_eq!(seen, vec![1, 2, 3, 4, 5]);
    assert_eq!(pauses, vec![Some(250), Some(250), Some(250), Some(250), None]);
    let results = run.conclude::<String>(None).unwrap();
    assert_eq!(results.len(), 5);
    for (k, r) in results.iter().enumerate() {
        assert_eq!(r.sequence_number(), k as u64 + 1);
        assert_eq!(r.ttl(), 32);
        assert_eq!(r.id(), 99);
        assert_eq!(r.request_addr(), dest());
    }
    let s = PingSummary::new(results);
    assert_eq!(s.packets_returned(), 3);
    assert_eq!(s.packets_lost(), 2);
}

#[test]
fn single_probe_series_has_no_pause() {
    let mut run = PingSeries::default().with_number_of_packets(1).start(PingRequest::new(1));
    assert!(run.next_probe().is_some());
    let (_, pause) = run.record(None);
    assert_eq!(pause, None);
    assert!(run.next_probe().is_none());
    assert_eq!(run.conclude::<()>(None).unwrap().len(), 1);
}

#[test]
fn transmit_failure_discards_results() {
    let mut run = PingSeries::default().with_number_of_packets(5).start(PingRequest::new(3).with_address(dest()));
    for _ in 0..2 {
        let p = run.next_probe().unwrap();
        assert!(p.sequence_number() <= 2);
        run.record(echo_reply(500));
    }
    assert_eq!(run.next_probe().unwrap().sequence_number(), 3);
    let r = run.conclude(Some("send failed".to_string()));
    assert_eq!(r, Err("send failed".to_string()));
}

#[test]
fn series_defaults_and_zero_count() {
    let s = PingSeries::default();
    assert_eq!(s.number_of_packets(), 4);
    assert_eq!(s.sleep, 1_000_000);
    assert_eq!(s.with_number_of_packets(0).number_of_packets(), 4);
    assert_eq!(s.with_number_of_packets(9).number_of_packets(), 9);
}
