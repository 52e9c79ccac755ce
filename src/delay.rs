use vstd::prelude::*;

use crate::nodes::NodeError;
use crate::value::Value;

verus! {

/// Waits for the number of seconds given as its input, and outputs the time
/// that passed.
#[derive(Debug, Clone, Copy, PartialEq, Eq, Structural)]
pub struct Delay;

impl Delay {
    /// The time to wait, as the IEEE-754 bits of a 32-bit float of seconds; an
    /// input that is not a float is a conversion error carrying it.
    pub fn duration(&self, input: Value) -> (r: Result<u32, NodeError>)
        ensures
            match input {
                Value::F32(bits) => r == Ok::<u32, NodeError>(bits),
                _ => r == Err::<u32, NodeError>(NodeError::ConversionError(input)),
            },
    {
        match input {
            Value::F32(bits) => Ok(bits),
            v => Err(NodeError::ConversionError(v)),
        }
    }
}

} // verus!
