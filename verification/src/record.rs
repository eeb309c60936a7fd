//! The domain records the adapter carries: one sensor reading per inbound
//! call, one reply per request.

use vstd::prelude::*;

verus! {

/// Mathematical view of a sensor record: each field as the sequence of
/// characters (or the integer) it holds.
pub ghost struct SensorDataV {
    pub sensor_id: Seq<char>,
    pub name: Seq<char>,
    pub sensor_type: Seq<char>,
    pub value: Seq<char>,
    pub unit: Seq<char>,
    pub timestamp: int,
    pub command: Seq<char>,
}

/// One sensor reading (or a command for a sensor), immutable once built.
/// It is owned by the envelope that carries it until the consumer takes it.
#[derive(Debug)]
pub struct SensorData {
    pub sensor_id: String,
    pub name: String,
    pub sensor_type: String,
    pub value: String,
    pub unit: String,
    pub timestamp: i64,
    pub command: String,
}

impl View for SensorData {
    type V = SensorDataV;

    open spec fn view(&self) -> SensorDataV {
        SensorDataV {
            sensor_id: self.sensor_id@,
            name: self.name@,
            sensor_type: self.sensor_type@,
            value: self.value@,
            unit: self.unit@,
            timestamp: self.timestamp as int,
            command: self.command@,
        }
    }
}

/// Mathematical view of a reply record.
pub ghost struct SensorReplyV {
    pub status: Seq<char>,
    pub command: Seq<char>,
    pub payload: Seq<char>,
}

/// The consumer's answer to one request, produced exactly once per request.
#[derive(Debug)]
pub struct SensorReply {
    pub status: String,
    pub command: String,
    pub payload: String,
}

impl View for SensorReply {
    type V = SensorReplyV;

    open spec fn view(&self) -> SensorReplyV {
        SensorReplyV {
            status: self.status@,
            command: self.command@,
            payload: self.payload@,
        }
    }
}

} // verus!
