//! Decoding the acknowledgement of a report deletion.
use vstd::prelude::*;

use crate::json::JsonValue;
use crate::{check_status, spec_check_status, ErrorKind};

verus! {

/// What the `DeleteWordstatReport` response decodes to: the envelope
/// must pass the status check and carry an integer under `data`; the
/// service acknowledges a deletion with the integer `1`, and any other
/// integer is an unknown error.
pub open spec fn spec_delete_result_from_response(response: JsonValue) -> Result<(), ErrorKind> {
    match spec_check_status(response) {
        Err(e) => Err(e),
        Ok(_) => match response.spec_get("data"@) {
            None => Err(ErrorKind::MalformedResponse { reason: "Data field not found in response" }),
            Some(JsonValue::Int(return_code)) => if return_code == 1 {
                Ok(())
            } else {
                Err(ErrorKind::UnknownError)
            },
            Some(_) => Err(ErrorKind::MalformedResponse { reason: "Data field is not an integer" }),
        },
    }
}

/// Decodes a full `DeleteWordstatReport` response envelope, exactly as
/// `spec_delete_result_from_response` states.
pub fn delete_result_from_response(response: &JsonValue) -> (r: Result<(), ErrorKind>)
    ensures
        r == spec_delete_result_from_response(*response),
{
    match check_status(response) {
        Err(e) => {
            return Err(e);
        },
        Ok(_) => {},
    }
    match response.get("data") {
        None => Err(ErrorKind::MalformedResponse { reason: "Data field not found in response" }),
        Some(JsonValue::Int(return_code)) => {
            if *return_code != 1 {
                Err(ErrorKind::UnknownError)
            } else {
                Ok(())
            }
        },
        Some(_) => Err(ErrorKind::MalformedResponse { reason: "Data field is not an integer" }),
    }
}

} // verus!
