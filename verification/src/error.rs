//! Why an inbound event could not be converted.

use vstd::prelude::*;
use vstd::string::*;

verus! {

/// Per-message failures; the event loop never aborts on one.
#[derive(Debug)]
pub enum MapperError {
    /// A cloud request named an external id that no entity carries.
    UnknownDevice { device_id: String },
    /// A command arrived on a topic whose entity is not in the store.
    UnregisteredDevice { topic_id: String },
    /// An inbound SmartREST frame did not parse as the expected record.
    SmartRestParse,
    /// An inbound JSON payload did not parse against its schema.
    JsonParse,
}

/// What [`MapperError::message`] returns.
pub open spec fn spec_message(e: MapperError) -> Seq<char> {
    match e {
        MapperError::UnknownDevice { device_id } => "device with the external id not found: "@
            + device_id@,
        MapperError::UnregisteredDevice { topic_id } => "entity not registered: "@ + topic_id@,
        MapperError::SmartRestParse => "malformed SmartREST request"@,
        MapperError::JsonParse => "malformed command payload"@,
    }
}

impl MapperError {
    /// A short description, for the shell's log line.
    pub fn message(&self) -> (r: String)
        ensures
            r@ == spec_message(*self),
    {
        match self {
            MapperError::UnknownDevice { device_id } => {
                let mut r = String::from_str("device with the external id not found: ");
                r.append(device_id.as_str());
                r
            },
            MapperError::UnregisteredDevice { topic_id } => {
                let mut r = String::from_str("entity not registered: ");
                r.append(topic_id.as_str());
                r
            },
            MapperError::SmartRestParse => String::from_str("malformed SmartREST request"),
            MapperError::JsonParse => String::from_str("malformed command payload"),
        }
    }
}

} // verus!
