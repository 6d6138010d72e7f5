//! Failures of the codec that encodes and decodes transferred values.

use vstd::prelude::*;

verus! {

/// Encoding a value failed.
pub struct SerializationError {
    /// What the codec reported.
    pub reason: String,
}

impl SerializationError {
    /// Creates the error from what the codec reported.
    pub fn new(reason: String) -> (r: Self)
        ensures
            r.reason == reason,
    {
        Self { reason }
    }
}

impl Clone for SerializationError {
    fn clone(&self) -> (r: Self)
        ensures
            r == *self,
    {
        Self { reason: self.reason.clone() }
    }
}

/// Decoding a value failed.
pub struct DeserializationError {
    /// What the codec reported.
    pub reason: String,
}

impl DeserializationError {
    /// Creates the error from what the codec reported.
    pub fn new(reason: String) -> (r: Self)
        ensures
            r.reason == reason,
    {
        Self { reason }
    }
}

impl Clone for DeserializationError {
    fn clone(&self) -> (r: Self)
        ensures
            r == *self,
    {
        Self { reason: self.reason.clone() }
    }
}

/// What the codec reported is kept, also in a copy.
pub proof fn law_report_of_the_codec(
    reason: String,
    sent: (SerializationError, SerializationError),
    received: (DeserializationError, DeserializationError),
)
    requires
        call_ensures(SerializationError::new, (reason,), sent.0),
        call_ensures(<SerializationError as Clone>::clone, (&sent.0,), sent.1),
        call_ensures(DeserializationError::new, (reason,), received.0),
        call_ensures(<DeserializationError as Clone>::clone, (&received.0,), received.1),
    ensures
        sent.1.reason == reason && sent.0.reason == reason,
        received.1.reason == reason && received.0.reason == reason,
{
}

} // verus!
