use std::any::TypeId;
use std::sync::atomic::Ordering;

use actor_system::{
    ActorErr, ActorOk, ActorRef, ActorResult, ActorState, Dispatcher, Phase, SnowflakeProducer,
    TokioActorDriver,
};
use futures::executor::block_on;
use futures::StreamExt;

fn register(
    driver: &TokioActorDriver,
    started: ActorResult<String>,
) -> (ActorRef<u32>, Option<String>, Option<Dispatcher<u32>>) {
    driver.register_started::<u32, String>(started, TypeId::of::<u32>())
}

fn next_message(d: &mut Dispatcher<u32>) -> Option<u32> {
    block_on(d.inbox.next())
}

#[test]
fn start_mapping() {
    let (s, e) = ActorState::from_start::<String>(Ok(ActorOk::Success));
    assert_eq!(s, ActorState::Healthy);
    assert!(e.is_none());
    let (s, e) = ActorState::from_start::<String>(Ok(ActorOk::GracefulEnd));
    assert_eq!(s, ActorState::Stopped);
    assert!(e.is_none());
    let (s, e) = ActorState::from_start::<String>(Err(ActorErr::Crashing("boom".to_string())));
    assert_eq!(s, ActorState::Crashed);
    assert_eq!(e, Some("boom".to_string()));
}

#[test]
fn handle_outcome_moves_only_healthy() {
    let ok: ActorResult<String> = Ok(ActorOk::Success);
    let end: ActorResult<String> = Ok(ActorOk::GracefulEnd);
    let crash: ActorResult<String> = Err(ActorErr::Crashing("x".to_string()));
    assert_eq!(ActorState::Healthy.after_handle(&ok), ActorState::Healthy);
    assert_eq!(ActorState::Healthy.after_handle(&end), ActorState::Stopped);
    assert_eq!(ActorState::Healthy.after_handle(&crash), ActorState::Crashed);
    assert_eq!(ActorState::Stopped.after_handle(&ok), ActorState::Stopped);
    assert_eq!(ActorState::Stopped.after_handle(&crash), ActorState::Stopped);
    assert_eq!(ActorState::Crashed.after_handle(&ok), ActorState::Crashed);
    assert_eq!(ActorState::Crashed.after_handle(&end), ActorState::Crashed);
}

#[test]
fn send_verdicts() {
    assert_eq!(ActorState::Healthy.send_verdict_of(), Ok(()));
    assert_eq!(ActorState::Stopped.send_verdict_of(), Err(ActorState::Stopped));
    assert_eq!(ActorState::Crashed.send_verdict_of(), Err(ActorState::Crashed));
    assert!(ActorState::Healthy.is_healthy());
    assert!(!ActorState::Crashed.is_healthy());
}

#[test]
fn snowflake_layout() {
    assert_eq!(SnowflakeProducer::compose(0, 0), 0);
    assert_eq!(SnowflakeProducer::compose(1, 2), 65538);
    assert_eq!(SnowflakeProducer::compose(3, 0xffff), 3 * 65536 + 65535);
    assert_eq!(SnowflakeProducer::compose(u64::MAX, 0), 0xffff_ffff_ffff_0000);
    assert_eq!(SnowflakeProducer::compose(1 << 48, 7), 7);
}

#[test]
fn snowflake_counter_wraps_after_65536() {
    let p = SnowflakeProducer::default();
    let first = p.produce();
    let mut last = first;
    for _ in 0..65536u32 {
        last = p.produce();
    }
    assert_eq!(first & 0xffff, 0);
    assert_eq!(last & 0xffff, 0);
    assert_eq!(first == last, first >> 16 == last >> 16);
}

#[test]
fn snowflake_ids_distinct_before_wrap() {
    let p = SnowflakeProducer::new();
    let mut ids = Vec::new();
    for _ in 0..65536u32 {
        ids.push(p.produce());
    }
    let mut sorted = ids.clone();
    sorted.sort();
    sorted.dedup();
    assert_eq!(sorted.len(), 65536);
}

#[test]
fn graceful_start_has_no_loop_and_refuses() {
    let driver = TokioActorDriver::new();
    let (h, err, d) = register(&driver, Ok(ActorOk::GracefulEnd));
    assert!(err.is_none());
    assert!(d.is_none());
    for i in 0..3 {
        assert_eq!(h.send(i), Err(ActorState::Stopped));
    }
    assert_eq!(h.state(), ActorState::Stopped);
}

#[test]
fn crashed_start_returns_error_and_refuses() {
    let driver = TokioActorDriver::new();
    let (h, err, d) = register(&driver, Err(ActorErr::Crashing("bad start".to_string())));
    assert_eq!(err, Some("bad start".to_string()));
    assert!(d.is_none());
    for i in 0..3 {
        assert_eq!(h.send(i), Err(ActorState::Crashed));
    }
    assert_eq!(h.clone().send(9), Err(ActorState::Crashed));
}

#[test]
fn healthy_start_first_send_ok() {
    let driver = TokioActorDriver::default();
    let (h, err, d) = register(&driver, Ok(ActorOk::Success));
    assert!(err.is_none());
    let d = d.expect("a healthy actor gets a loop");
    assert_eq!(d.state(), ActorState::Healthy);
    assert_eq!(d.phase(), Phase::Polling);
    assert_eq!(h.state(), ActorState::Healthy);
    assert_eq!(h.send(1), Ok(()));
}

#[test]
fn messages_delivered_in_order() {
    let driver = TokioActorDriver::new();
    let (h, _, d) = register(&driver, Ok(ActorOk::Success));
    let mut d = d.unwrap();
    let sent = [10u32, 20, 30];
    for m in sent {
        assert_eq!(h.send(m), Ok(()));
    }
    let mut got = Vec::new();
    for _ in 0..3 {
        assert!(d.poll());
        let msg = next_message(&mut d);
        let m = d.accept(msg).expect("healthy actor takes the message");
        got.push(m);
        d.record::<String>(&Ok(ActorOk::Success));
        assert_eq!(d.phase(), Phase::Polling);
    }
    assert_eq!(got, vec![10, 20, 30]);
}

#[test]
fn crash_stops_deliveries() {
    let driver = TokioActorDriver::new();
    let (h, _, d) = register(&driver, Ok(ActorOk::Success));
    let mut d = d.unwrap();
    assert_eq!(h.send(1), Ok(()));
    assert_eq!(h.send(2), Ok(()));
    assert!(d.poll());
    let msg = next_message(&mut d);
    let m = d.accept(msg);
    assert_eq!(m, Some(1));
    d.record(&Err(ActorErr::Crashing("handler failed".to_string())));
    assert_eq!(d.state(), ActorState::Crashed);
    assert_eq!(h.state(), ActorState::Crashed);
    assert_eq!(h.send(3), Err(ActorState::Crashed));
    let h2 = h.clone();
    assert_eq!(h2.state(), ActorState::Crashed);
    assert_eq!(h2.send(4), Err(ActorState::Crashed));
    assert!(d.poll());
    let msg = next_message(&mut d);
    let m = d.accept(msg);
    assert_eq!(m, None);
    assert_eq!(d.phase(), Phase::Done);
}

#[test]
fn graceful_end_stops_deliveries() {
    let driver = TokioActorDriver::new();
    let (h, _, d) = register(&driver, Ok(ActorOk::Success));
    let mut d = d.unwrap();
    assert_eq!(h.send(1), Ok(()));
    assert_eq!(h.send(2), Ok(()));
    assert!(d.poll());
    let msg = next_message(&mut d);
    assert_eq!(d.accept(msg), Some(1));
    d.record::<String>(&Ok(ActorOk::GracefulEnd));
    assert_eq!(d.state(), ActorState::Stopped);
    assert_eq!(h.send(3), Err(ActorState::Stopped));
    assert!(d.poll());
    let msg = next_message(&mut d);
    assert_eq!(d.accept(msg), None);
    assert_eq!(d.phase(), Phase::Done);
}

#[test]
fn clones_equal_registrations_differ() {
    let driver = TokioActorDriver::new();
    let (a, _, _da) = register(&driver, Ok(ActorOk::Success));
    let (b, _, _db) = register(&driver, Ok(ActorOk::Success));
    let a2 = a.clone();
    assert!(a == a2);
    assert!(a2 == a);
    assert!(a != b);
    assert_eq!(a.type_id(), TypeId::of::<u32>());
    assert_eq!(a2.send(5), Ok(()));
}

#[test]
fn stop_clears_flag_and_ends_loop() {
    let driver = TokioActorDriver::new();
    let flag = driver.is_running();
    assert!(flag.load(Ordering::Relaxed));
    let (h, _, d) = register(&driver, Ok(ActorOk::Success));
    let mut d = d.unwrap();
    assert_eq!(h.send(1), Ok(()));
    assert_eq!(h.send(2), Ok(()));
    driver.stop();
    assert!(!flag.load(Ordering::Relaxed));
    assert!(!d.poll());
    assert_eq!(d.phase(), Phase::Done);
}

#[test]
fn poll_with_decides_on_flag() {
    let driver = TokioActorDriver::new();
    let (_h, _, d) = register(&driver, Ok(ActorOk::Success));
    let mut d = d.unwrap();
    assert!(d.poll_with(true));
    assert_eq!(d.phase(), Phase::Receiving);
    let (_h2, _, d2) = register(&driver, Ok(ActorOk::Success));
    let mut d2 = d2.unwrap();
    assert!(!d2.poll_with(false));
    assert_eq!(d2.phase(), Phase::Done);
}

#[test]
fn closed_channel_ends_loop() {
    let driver = TokioActorDriver::new();
    let (h, _, d) = register(&driver, Ok(ActorOk::Success));
    let mut d = d.unwrap();
    drop(h);
    assert!(d.poll());
    let msg = next_message(&mut d);
    assert_eq!(d.accept(msg), None);
    assert_eq!(d.phase(), Phase::Done);
}

#[test]
fn send_after_loop_gone_is_stopped() {
    let driver = TokioActorDriver::new();
    let (h, _, d) = register(&driver, Ok(ActorOk::Success));
    drop(d);
    assert_eq!(h.state(), ActorState::Healthy);
    assert_eq!(h.send(1), Err(ActorState::Stopped));
}
