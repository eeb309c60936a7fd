//! The wire messages of the one remote operation, and the pure, stateless
//! marshalling between them and the domain records — field for field, with
//! the round trip proved.

use vstd::prelude::*;
use crate::record::{SensorData, SensorDataV, SensorReply, SensorReplyV};

verus! {

/// Mathematical view of a wire request.
pub ghost struct SensorDataRequestV {
    pub sensor_id: Seq<char>,
    pub name: Seq<char>,
    pub sensor_type: Seq<char>,
    pub value: Seq<char>,
    pub unit: Seq<char>,
    pub timestamp: int,
    pub command: Seq<char>,
}

/// The request message of the remote operation, as it crosses the wire.
#[derive(Debug)]
pub struct SensorDataRequest {
    pub sensor_id: String,
    pub name: String,
    pub sensor_type: String,
    pub value: String,
    pub unit: String,
    pub timestamp: i64,
    pub command: String,
}

impl View for SensorDataRequest {
    type V = SensorDataRequestV;

    open spec fn view(&self) -> SensorDataRequestV {
        SensorDataRequestV {
            sensor_id: self.sensor_id@,
            name: self.name@,
            sensor_type: self.sensor_type@,
            value: self.value@,
            unit: self.unit@,
            timestamp: self.timestamp as int,
            command: self.command@,
        }
    }
}

/// Mathematical view of a wire reply.
pub ghost struct SensorAdapterReplyV {
    pub status: Seq<char>,
    pub command: Seq<char>,
    pub payload: Seq<char>,
}

/// The reply message of the remote operation, as it crosses the wire.
#[derive(Debug)]
pub struct SensorAdapterReply {
    pub status: String,
    pub command: String,
    pub payload: String,
}

impl View for SensorAdapterReply {
    type V = SensorAdapterReplyV;

    open spec fn view(&self) -> SensorAdapterReplyV {
        SensorAdapterReplyV {
            status: self.status@,
            command: self.command@,
            payload: self.payload@,
        }
    }
}

/// What marshalling a sensor record onto the wire yields: the same fields,
/// carried by the wire message.
pub open spec fn wire_of_data(d: SensorDataV) -> SensorDataRequestV {
    SensorDataRequestV {
        sensor_id: d.sensor_id,
        name: d.name,
        sensor_type: d.sensor_type,
        value: d.value,
        unit: d.unit,
        timestamp: d.timestamp,
        command: d.command,
    }
}

/// What unmarshalling a wire request yields: the same fields, as a record.
pub open spec fn data_of_wire(w: SensorDataRequestV) -> SensorDataV {
    SensorDataV {
        sensor_id: w.sensor_id,
        name: w.name,
        sensor_type: w.sensor_type,
        value: w.value,
        unit: w.unit,
        timestamp: w.timestamp,
        command: w.command,
    }
}

/// What marshalling a reply onto the wire yields.
pub open spec fn wire_of_reply(r: SensorReplyV) -> SensorAdapterReplyV {
    SensorAdapterReplyV { status: r.status, command: r.command, payload: r.payload }
}

/// What unmarshalling a wire reply yields.
pub open spec fn reply_of_wire(w: SensorAdapterReplyV) -> SensorReplyV {
    SensorReplyV { status: w.status, command: w.command, payload: w.payload }
}

/// Translates a sensor record to its wire form, field for field.
pub fn sensor_data_to_wire(data: SensorData) -> (w: SensorDataRequest)
    ensures
        w@ == wire_of_data(data@),
{
    SensorDataRequest {
        sensor_id: data.sensor_id,
        name: data.name,
        sensor_type: data.sensor_type,
        value: data.value,
        unit: data.unit,
        timestamp: data.timestamp,
        command: data.command,
    }
}

/// Translates a wire request back to a sensor record, field for field.
pub fn sensor_data_from_wire(request: SensorDataRequest) -> (d: SensorData)
    ensures
        d@ == data_of_wire(request@),
{
    SensorData {
        sensor_id: request.sensor_id,
        name: request.name,
        sensor_type: request.sensor_type,
        value: request.value,
        unit: request.unit,
        timestamp: request.timestamp,
        command: request.command,
    }
}

/// Translates a reply record to its wire form, field for field.
pub fn reply_to_wire(reply: SensorReply) -> (w: SensorAdapterReply)
    ensures
        w@ == wire_of_reply(reply@),
{
    SensorAdapterReply { status: reply.status, command: reply.command, payload: reply.payload }
}

/// Translates a wire reply back to a reply record, field for field.
pub fn reply_from_wire(reply: SensorAdapterReply) -> (r: SensorReply)
    ensures
        r@ == reply_of_wire(reply@),
{
    SensorReply { status: reply.status, command: reply.command, payload: reply.payload }
}

/// Round-trip law: a sensor record translated to wire form and back is
/// unchanged, whatever its fields hold — empty and non-ASCII text included,
/// since the translation copies every field as it stands.
pub proof fn lemma_data_round_trip(d: SensorDataV)
    ensures
        data_of_wire(wire_of_data(d)) == d,
{
}

/// Round-trip law, the other direction: a wire request translated to a
/// record and back onto the wire is unchanged.
pub proof fn lemma_wire_request_round_trip(w: SensorDataRequestV)
    ensures
        wire_of_data(data_of_wire(w)) == w,
{
}

/// Round-trip law for replies: a reply translated to wire form and back is
/// unchanged.
pub proof fn lemma_reply_round_trip(r: SensorReplyV)
    ensures
        reply_of_wire(wire_of_reply(r)) == r,
{
}

} // verus!
