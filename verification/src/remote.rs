//! The remote dispatch path: the fixed endpoint, the request body, and the
//! decoding of the response.  The HTTP transfer itself is I/O and lives
//! with the caller.

use vstd::prelude::*;

use crate::error::{ClientErr, ClientError};
use crate::json::JsonValue;
use crate::parse::{json_parse, parse_json};
use crate::payload::{build_payload, payload_val};
use crate::render::{render, render_json};

verus! {

/// The fixed remote endpoint for motion-probability requests.
pub fn remote_url() -> (r: &'static str)
    ensures
        r@ == "https://bellande-robotics-sensors-research-innovation-center.org/api/Bellande_Motion_Probability/bellande_motion_probability"@,
{
    "https://bellande-robotics-sensors-research-innovation-center.org/api/Bellande_Motion_Probability/bellande_motion_probability"
}

/// The JSON body of a remote request: the payload, rendered as text.
pub fn build_remote_body(
    particle_state: JsonValue,
    previous_pose: JsonValue,
    current_pose: JsonValue,
    noise_params: Option<JsonValue>,
    search_radius: String,
    sample_points: i32,
) -> (r: String)
    ensures
        r@ == render(
            payload_val(
                particle_state@,
                previous_pose@,
                current_pose@,
                match noise_params {
                    Some(n) => Some(n@),
                    None => None,
                },
                search_radius@,
                sample_points as int,
            ),
        ),
{
    let payload = build_payload(
        particle_state,
        previous_pose,
        current_pose,
        noise_params,
        search_radius,
        sample_points,
    );
    render_json(&payload)
}

/// Reads the remote response body; anything that is not JSON is a decode
/// error carrying serde_json's complaint.
pub fn decode_response(body: &str) -> (r: Result<JsonValue, ClientError>)
    ensures
        match r {
            Ok(v) => json_parse(body@) == Some(v@),
            Err(e) => json_parse(body@) is None && e@ is Decode,
        },
{
    match parse_json(body) {
        Ok(v) => Ok(v),
        Err(m) => Err(ClientError::Decode(m)),
    }
}

} // verus!
