use vstd::prelude::*;

use crate::error::SduiError;
use crate::json::{parsed_json, Json};

verus! {

/// The common shape of every response: `{"data": ...}`, where what `data`
/// holds depends on the endpoint.
#[derive(Debug)]
pub struct GenericSduiResponse {
    pub data: Json,
}

impl GenericSduiResponse {
    /// Takes the envelope out of a parsed document: `JSONError` unless the
    /// document is an object with a `data` member.
    pub fn from_json(doc: Json) -> (r: Result<GenericSduiResponse, SduiError>)
        ensures
            match doc.field("data"@) {
                Some(d) => r matches Ok(e) && e.data == d,
                None => r matches Err(SduiError::JSONError),
            },
    {
        match doc.take("data") {
            Some(d) => Ok(GenericSduiResponse { data: d }),
            None => Err(SduiError::JSONError),
        }
    }

    /// Decodes a response body into the envelope. A body that is not JSON, or
    /// lacks a `data` member, is a `JSONError`; no other error comes.
    pub fn decode(body: &str) -> (r: Result<GenericSduiResponse, SduiError>)
        ensures
            match parsed_json(body@) {
                Some(doc) => match doc.field("data"@) {
                    Some(d) => r matches Ok(e) && e.data == d,
                    None => r matches Err(SduiError::JSONError),
                },
                None => r matches Err(SduiError::JSONError),
            },
            body@.len() == 0 ==> r matches Err(SduiError::JSONError),
    {
        match Json::parse(body) {
            Some(doc) => GenericSduiResponse::from_json(doc),
            None => Err(SduiError::JSONError),
        }
    }
}

} // verus!
