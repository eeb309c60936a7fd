use sensor_adapter::adapter::{begin_call, finish_call, SensorAdapterService};
use sensor_adapter::correlator::{AdapterError, ReplyCorrelator};
use sensor_adapter::queue::{HandoffQueue, PushOutcome, ServerSensorChannel};
use sensor_adapter::record::{SensorData, SensorReply};
use sensor_adapter::wire::{
    reply_from_wire, reply_to_wire, sensor_data_from_wire, sensor_data_to_wire, SensorDataRequest,
};

fn request(sensor_id: &str, value: &str, timestamp: i64) -> SensorDataRequest {
    SensorDataRequest {
        sensor_id: sensor_id.to_string(),
        name: "bench sensor".to_string(),
        sensor_type: "temperature".to_string(),
        value: value.to_string(),
        unit: "celsius".to_string(),
        timestamp,
        command: "read".to_string(),
    }
}

fn reply(status: &str, payload: &str) -> SensorReply {
    SensorReply {
        status: status.to_string(),
        command: "read".to_string(),
        payload: payload.to_string(),
    }
}

#[test]
fn it_works() {
    let result = 2 + 2;
    assert_eq!(result, 4);
}

#[test]
fn handle_returns_the_consumer_reply() {
    // One full call: build the envelope, hand it through the queue, let the
    // consumer answer, and resume the handler.
    let mut service = SensorAdapterService::new(4);
    let env = begin_call(request("s-1", "21.5", 1700000000));
    match service.tx.push(env) {
        PushOutcome::Enqueued => {}
        PushOutcome::Full(_) => panic!("queue with room refused a push"),
    }
    let mut env = service.tx.pop().expect("queue held one envelope");
    assert_eq!(env.data.sensor_id, "s-1");
    assert_eq!(env.data.value, "21.5");
    assert_eq!(env.data.timestamp, 1700000000);
    let sent = env.tx.send(reply("ok", "stored"));
    assert!(sent.is_ok());
    let out = finish_call(env.tx).expect("an answered call succeeds");
    assert_eq!(out.status, "ok");
    assert_eq!(out.command, "read");
    assert_eq!(out.payload, "stored");
}

#[test]
fn handle_round_trips_boundary_timestamps() {
    for timestamp in [0i64, i64::MAX, i64::MIN] {
        let env = begin_call(request("s-b", "0", timestamp));
        assert_eq!(env.data.timestamp, timestamp);
        let mut env = env;
        env.tx.send(reply("ok", "fine")).expect("fresh correlator accepts a send");
        let out = finish_call(env.tx).expect("an answered call succeeds");
        assert_eq!(out.status, "ok");
        assert_eq!(out.payload, "fine");
    }
}

#[test]
fn second_send_fails_quietly() {
    let mut correlator = ReplyCorrelator::new();
    assert!(correlator.send(reply("ok", "first")).is_ok());
    // A second send never faults: the value comes back untouched.
    match correlator.send(reply("ok", "second")) {
        Ok(()) => panic!("a correlator resolved once must not accept another send"),
        Err(returned) => assert_eq!(returned.payload, "second"),
    }
}

#[test]
fn send_after_receiver_gone_fails_quietly() {
    let mut correlator = ReplyCorrelator::new();
    correlator.drop_receiver();
    match correlator.send(reply("ok", "late")) {
        Ok(()) => panic!("a send with no receiver must not claim delivery"),
        Err(returned) => assert_eq!(returned.payload, "late"),
    }
}

#[test]
fn dropped_sender_cancels_the_call() {
    // The consumer pops the envelope and walks away without replying: the
    // waiting call ends with Cancelled, it does not hang.
    let mut service = SensorAdapterService::new(2);
    let env = begin_call(request("s-2", "7", 42));
    match service.tx.push(env) {
        PushOutcome::Enqueued => {}
        PushOutcome::Full(_) => panic!("queue with room refused a push"),
    }
    let mut env = service.tx.pop().expect("queue held one envelope");
    env.tx.drop_sender();
    match finish_call(env.tx) {
        Ok(_) => panic!("an abandoned call must not report success"),
        Err(e) => assert_eq!(e, AdapterError::Cancelled),
    }
}

#[test]
fn full_queue_defers_the_second_push_and_keeps_replies_apart() {
    // Capacity 1 and two calls: the second push cannot complete until the
    // first envelope is popped, and each caller gets its own reply back.
    let mut queue = HandoffQueue::new(1);
    let first = begin_call(request("s-a", "1", 1));
    let second = begin_call(request("s-b", "2", 2));
    match queue.push(first) {
        PushOutcome::Enqueued => {}
        PushOutcome::Full(_) => panic!("an empty queue refused a push"),
    }
    let second = match queue.push(second) {
        PushOutcome::Enqueued => panic!("a full queue must not commit a push"),
        PushOutcome::Full(returned) => returned,
    };
    assert_eq!(second.data.sensor_id, "s-b");
    let mut popped_first = queue.pop().expect("the first envelope was committed");
    match queue.push(second) {
        PushOutcome::Enqueued => {}
        PushOutcome::Full(_) => panic!("a drained queue refused a push"),
    }
    let mut popped_second = queue.pop().expect("the second envelope was committed");
    assert_eq!(popped_first.data.sensor_id, "s-a");
    assert_eq!(popped_second.data.sensor_id, "s-b");
    popped_first.tx.send(reply("ok", "for-a")).expect("first correlator was fresh");
    popped_second.tx.send(reply("ok", "for-b")).expect("second correlator was fresh");
    let out_first = finish_call(popped_first.tx).expect("first call was answered");
    let out_second = finish_call(popped_second.tx).expect("second call was answered");
    assert_eq!(out_first.payload, "for-a");
    assert_eq!(out_second.payload, "for-b");
}

#[test]
fn marshalling_round_trips_plain_text() {
    let data = SensorData {
        sensor_id: "sensor-9".to_string(),
        name: "roof anemometer".to_string(),
        sensor_type: "wind".to_string(),
        value: "13.2".to_string(),
        unit: "m/s".to_string(),
        timestamp: 1234567890,
        command: "read".to_string(),
    };
    let wire = sensor_data_to_wire(data);
    assert_eq!(wire.sensor_id, "sensor-9");
    assert_eq!(wire.timestamp, 1234567890);
    let back = sensor_data_from_wire(wire);
    assert_eq!(back.sensor_id, "sensor-9");
    assert_eq!(back.name, "roof anemometer");
    assert_eq!(back.sensor_type, "wind");
    assert_eq!(back.value, "13.2");
    assert_eq!(back.unit, "m/s");
    assert_eq!(back.timestamp, 1234567890);
    assert_eq!(back.command, "read");
}

#[test]
fn marshalling_round_trips_empty_and_non_ascii_text() {
    let data = SensorData {
        sensor_id: "".to_string(),
        name: "außentemperatur — 屋外".to_string(),
        sensor_type: "température".to_string(),
        value: "−3,5°".to_string(),
        unit: "℃".to_string(),
        timestamp: -1,
        command: "".to_string(),
    };
    let back = sensor_data_from_wire(sensor_data_to_wire(data));
    assert_eq!(back.sensor_id, "");
    assert_eq!(back.name, "außentemperatur — 屋外");
    assert_eq!(back.sensor_type, "température");
    assert_eq!(back.value, "−3,5°");
    assert_eq!(back.unit, "℃");
    assert_eq!(back.timestamp, -1);
    assert_eq!(back.command, "");
}

#[test]
fn reply_marshalling_round_trips() {
    let wire = reply_to_wire(reply("ok — done ✓", ""));
    assert_eq!(wire.status, "ok — done ✓");
    assert_eq!(wire.payload, "");
    let back = reply_from_wire(wire);
    assert_eq!(back.status, "ok — done ✓");
    assert_eq!(back.command, "read");
    assert_eq!(back.payload, "");
}

#[test]
fn queue_is_fifo_for_increasing_markers() {
    let mut queue = HandoffQueue::new(8);
    for marker in 1..=5i64 {
        let env = begin_call(request("s-fifo", "0", marker));
        match queue.push(env) {
            PushOutcome::Enqueued => {}
            PushOutcome::Full(_) => panic!("queue with room refused a push"),
        }
    }
    assert_eq!(queue.len(), 5);
    let mut previous = 0i64;
    for _ in 0..5 {
        let env = queue.pop().expect("five envelopes were committed");
        assert!(previous < env.data.timestamp);
        previous = env.data.timestamp;
    }
    assert!(queue.pop().is_none());
}

#[test]
fn empty_queue_pops_none_and_keeps_its_capacity() {
    let mut queue = HandoffQueue::new(3);
    assert_eq!(queue.capacity(), 3);
    assert_eq!(queue.len(), 0);
    assert!(queue.pop().is_none());
    assert_eq!(queue.capacity(), 3);
    let env = ServerSensorChannel {
        data: sensor_data_from_wire(request("s-direct", "5", 5)),
        tx: ReplyCorrelator::new(),
    };
    match queue.push(env) {
        PushOutcome::Enqueued => {}
        PushOutcome::Full(_) => panic!("queue with room refused a push"),
    }
    assert_eq!(queue.len(), 1);
}

#[test]
fn correlator_reports_pending_until_resolved() {
    let mut correlator = ReplyCorrelator::new();
    assert!(correlator.is_pending());
    correlator.send(reply("ok", "p")).expect("fresh correlator accepts a send");
    assert!(!correlator.is_pending());
    let mut cancelled = ReplyCorrelator::new();
    cancelled.drop_sender();
    assert!(!cancelled.is_pending());
}
