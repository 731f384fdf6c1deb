//! The payload that sensors produce, actuators consume and the communicator
//! transmits.
use vstd::prelude::*;

verus! {

/// One reading or command: a closed set of variants with no conversion
/// between them.
///
/// `Float` holds the IEEE 754 binary32 bit pattern of a 32-bit floating-point
/// number (what `f32::to_bits` returns), so that the payload is plain data
/// that can be compared bit for bit.
#[derive(Debug, PartialEq, Eq)]
pub enum SensorOutput {
    Bool(bool),
    Int(i64),
    Float(u32),
    Text(String),
    Bytes(Vec<u8>),
}

/// The mathematical content of a [`SensorOutput`].
pub enum Value {
    Bool(bool),
    Int(i64),
    Float(u32),
    Text(Seq<char>),
    Bytes(Seq<u8>),
}

impl View for SensorOutput {
    type V = Value;

    open spec fn view(&self) -> Value {
        match *self {
            SensorOutput::Bool(b) => Value::Bool(b),
            SensorOutput::Int(i) => Value::Int(i),
            SensorOutput::Float(bits) => Value::Float(bits),
            SensorOutput::Text(s) => Value::Text(s@),
            SensorOutput::Bytes(b) => Value::Bytes(b@),
        }
    }
}

impl Clone for SensorOutput {
    /// A copy with the same variant and the same content.
    fn clone(&self) -> (copy: Self)
        ensures
            copy@ == self@,
    {
        match self {
            SensorOutput::Bool(b) => SensorOutput::Bool(*b),
            SensorOutput::Int(i) => SensorOutput::Int(*i),
            SensorOutput::Float(bits) => SensorOutput::Float(*bits),
            SensorOutput::Text(s) => SensorOutput::Text(s.clone()),
            SensorOutput::Bytes(b) => SensorOutput::Bytes(b.clone()),
        }
    }
}

} // verus!
