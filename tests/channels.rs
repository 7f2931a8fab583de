use bridgevr::keyed_channel::KeyedChannel;
use bridgevr::latest_channel::{LatestValueChannel, RecvStep};

#[test]
fn latest_value_channel_delivers_only_the_newest_value() {
    let mut c: LatestValueChannel<&str> = LatestValueChannel::new();
    c.send("v1");
    c.send("v2");
    c.send("v3");
    assert!(matches!(c.try_recv(), RecvStep::Ready("v3")));
    assert!(matches!(c.try_recv(), RecvStep::Empty));
    assert_eq!(c.generation(), 3);
}

#[test]
fn latest_value_channel_starts_empty() {
    let mut c: LatestValueChannel<u32> = LatestValueChannel::new();
    assert!(matches!(c.try_recv(), RecvStep::Empty));
    assert!(!c.is_closed());
}

#[test]
fn latest_value_channel_close_ends_every_receive() {
    let mut c: LatestValueChannel<u32> = LatestValueChannel::new();
    c.send(5);
    c.close();
    assert!(c.is_closed());
    assert!(matches!(c.try_recv(), RecvStep::Closed));
    c.send(6);
    assert!(matches!(c.try_recv(), RecvStep::Closed));
}

#[test]
fn keyed_channel_receive_by_key_does_not_wait_for_other_keys() {
    let mut c: KeyedChannel<u32, &str> = KeyedChannel::new(1_000);
    c.send_at(1, "a", 0);
    c.send_at(2, "b", 1);
    assert!(matches!(c.recv_at(&2, 2), RecvStep::Ready("b")));
    assert!(matches!(c.recv_at(&2, 2), RecvStep::Empty));
    assert!(matches!(c.recv_at(&1, 3), RecvStep::Ready("a")));
}

#[test]
fn keyed_channel_drops_unclaimed_values_after_timeout() {
    let mut c: KeyedChannel<u32, u32> = KeyedChannel::new(100);
    c.send_at(1, 10, 0);
    c.send_at(2, 20, 50);
    assert!(matches!(c.recv_at(&2, 120), RecvStep::Ready(20)));
    assert_eq!(c.len(), 0);
    assert!(matches!(c.recv_at(&1, 120), RecvStep::Empty));
}

#[test]
fn keyed_channel_recv_any_takes_oldest_live_value() {
    let mut c: KeyedChannel<u32, u32> = KeyedChannel::new(100);
    c.send_at(9, 90, 0);
    c.send_at(4, 40, 60);
    c.send_at(5, 50, 70);
    assert!(matches!(c.recv_any_at(150), RecvStep::Ready((4, 40))));
    assert!(matches!(c.recv_any_at(150), RecvStep::Ready((5, 50))));
    assert!(matches!(c.recv_any_at(150), RecvStep::Empty));
}

#[test]
fn keyed_channel_close_ends_receives() {
    let mut c: KeyedChannel<u32, u32> = KeyedChannel::new(100);
    c.send_at(1, 10, 0);
    c.close();
    assert!(c.is_closed());
    assert!(matches!(c.recv_at(&1, 1), RecvStep::Closed));
    assert!(matches!(c.recv_any_at(1), RecvStep::Closed));
}

#[test]
fn keyed_channel_clock_based_send_and_receive() {
    let mut c: KeyedChannel<u64, u64> = KeyedChannel::new(u64::MAX);
    c.send(3, 30);
    c.send(4, 40);
    assert!(matches!(c.recv(&4), RecvStep::Ready(40)));
    assert!(matches!(c.recv_any(), RecvStep::Ready((3, 30))));
    assert!(matches!(c.recv_any(), RecvStep::Empty));
}

#[test]
fn keyed_channel_send_drops_expired_values() {
    let mut c: KeyedChannel<u32, u32> = KeyedChannel::new(100);
    c.send_at(1, 10, 0);
    c.send_at(2, 20, 50);
    c.send_at(3, 30, 200);
    assert_eq!(c.len(), 1);
    assert!(matches!(c.recv_any_at(200), RecvStep::Ready((3, 30))));
}
