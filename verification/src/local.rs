//! The local dispatch path: validating the inputs, assembling the argument
//! list for the external executable, and interpreting what the process
//! returned.  Spawning the process itself is I/O and lives with the caller.

use vstd::prelude::*;

use crate::error::{ClientErr, ClientError};
use crate::json::{lemma_views_of, JsonVal, JsonValue};
use crate::num::{int_rep, write_i32_decimal};
use crate::parse::{json_parse, parse_json};
use crate::payload::default_noise_val;
use crate::render::{chars_to_string, render, render_json};
use vstd::string::{StrSliceExecFns, StringExecFns};

verus! {

/// A particle state must be an array of exactly four components.
pub open spec fn particle_shape_ok(v: JsonVal) -> bool {
    v matches JsonVal::Arr(a) && a.len() == 4
}

/// A pose, when it is array-shaped, must have exactly three components.
pub open spec fn pose_shape_ok(v: JsonVal) -> bool {
    v matches JsonVal::Arr(a) ==> a.len() == 3
}

/// The first complaint about the shapes of the three inputs, if any:
/// the particle state is checked first, then the previous pose, then the
/// current pose.
pub open spec fn shape_error_msg(particle: JsonVal, previous: JsonVal, current: JsonVal) -> Option<
    Seq<char>,
> {
    if !(particle is Arr) {
        Some("Invalid particle state format"@)
    } else if !particle_shape_ok(particle) {
        Some("Particle state must have 4 components [x, y, heading, weight]"@)
    } else if !pose_shape_ok(previous) {
        Some("Previous pose must have 3 components [x, y, heading]"@)
    } else if !pose_shape_ok(current) {
        Some("Current pose must have 3 components [x, y, heading]"@)
    } else {
        None
    }
}

/// Checks the particle state and the two poses for their required shapes,
/// reporting the first mismatch as a validation error.
pub fn validate_shapes(particle: &JsonValue, previous: &JsonValue, current: &JsonValue) -> (r:
    Result<(), ClientError>)
    ensures
        match r {
            Ok(_) => shape_error_msg(particle@, previous@, current@) is None,
            Err(e) => e@ matches ClientErr::Validation(m) && shape_error_msg(
                particle@,
                previous@,
                current@,
            ) == Some(m),
        },
{
    match particle {
        JsonValue::Arr(elems) => {
            proof {
                lemma_views_of(elems@);
            }
            if elems.len() != 4 {
                return Err(
                    ClientError::Validation(
                        String::from_str(
                            "Particle state must have 4 components [x, y, heading, weight]",
                        ),
                    ),
                );
            }
        },
        _ => {
            return Err(ClientError::Validation(String::from_str("Invalid particle state format")));
        },
    }
    if let JsonValue::Arr(elems) = previous {
        proof {
            lemma_views_of(elems@);
        }
        if elems.len() != 3 {
            return Err(
                ClientError::Validation(
                    String::from_str("Previous pose must have 3 components [x, y, heading]"),
                ),
            );
        }
    }
    if let JsonValue::Arr(elems) = current {
        proof {
            lemma_views_of(elems@);
        }
        if elems.len() != 3 {
            return Err(
                ClientError::Validation(
                    String::from_str("Current pose must have 3 components [x, y, heading]"),
                ),
            );
        }
    }
    Ok(())
}

/// The fixed access passcode handed to the local executable as its first
/// argument.
pub fn executable_passcode() -> (r: &'static str)
    ensures
        r@ == "bellande_motion_probability_executable_access_key"@,
{
    "bellande_motion_probability_executable_access_key"
}

/// The positional arguments for the local executable: the passcode, the
/// three inputs as they were given, the noise parameters rendered as JSON,
/// the search radius text, and the sample count in decimal.
pub fn build_local_args(
    particle_state: &str,
    previous_pose: &str,
    current_pose: &str,
    noise: &JsonValue,
    search_radius: &str,
    sample_points: i32,
) -> (r: Vec<String>)
    ensures
        r@.len() == 7,
        r@[0]@ == "bellande_motion_probability_executable_access_key"@,
        r@[1]@ == particle_state@,
        r@[2]@ == previous_pose@,
        r@[3]@ == current_pose@,
        r@[4]@ == render(noise@),
        r@[5]@ == search_radius@,
        r@[6]@ == int_rep(sample_points as int),
{
    let mut args: Vec<String> = Vec::new();
    args.push(executable_passcode().to_owned());
    args.push(particle_state.to_owned());
    args.push(previous_pose.to_owned());
    args.push(current_pose.to_owned());
    args.push(render_json(noise));
    args.push(search_radius.to_owned());
    let mut sp: Vec<char> = Vec::new();
    write_i32_decimal(sample_points, &mut sp);
    args.push(chars_to_string(sp));
    args
}

/// What the client returns once the local executable has run: on exit
/// status zero its stdout, unchanged; otherwise a process error carrying
/// the captured stderr text.
pub fn interpret_process_output(exit_ok: bool, stdout: String, stderr: String) -> (r: Result<
    String,
    ClientError,
>)
    ensures
        exit_ok ==> (r matches Ok(s) && s@ == stdout@),
        !exit_ok ==> (r matches Err(e) && e@ == ClientErr::Process("Process failed: "@ + stderr@)),
{
    if exit_ok {
        Ok(stdout)
    } else {
        let mut msg = String::from_str("Process failed: ");
        msg.append(stderr.as_str());
        Err(ClientError::Process(msg))
    }
}

/// Everything `sendLocal` does before the process is spawned: parses the
/// textual inputs, applies the supplied-or-default noise parameters, checks
/// the shapes, and assembles the positional arguments for the executable.
/// The first failing parse is a parse error; a shape mismatch is a
/// validation error, and no arguments are produced.
pub fn prepare_local_args(
    particle_state: &str,
    previous_pose: &str,
    current_pose: &str,
    noise_params: Option<&str>,
    search_radius: &str,
    sample_points: i32,
) -> (r: Result<Vec<String>, ClientError>)
    ensures
        ({
            let pp = json_parse(particle_state@);
            let vp = json_parse(previous_pose@);
            let cp = json_parse(current_pose@);
            let np = match noise_params {
                Some(t) => json_parse(t@),
                None => Some(default_noise_val()),
            };
            match r {
                Ok(args) => {
                    &&& pp matches Some(p) && vp matches Some(q) && cp matches Some(c)
                        && shape_error_msg(p, q, c) is None
                    &&& np matches Some(n) && args@[4]@ == render(n)
                    &&& args@.len() == 7
                    &&& args@[0]@ == "bellande_motion_probability_executable_access_key"@
                    &&& args@[1]@ == particle_state@
                    &&& args@[2]@ == previous_pose@
                    &&& args@[3]@ == current_pose@
                    &&& args@[5]@ == search_radius@
                    &&& args@[6]@ == int_rep(sample_points as int)
                },
                Err(e) => match e@ {
                    ClientErr::Parse(_) => pp is None || vp is None || cp is None || np is None,
                    ClientErr::Validation(m) => {
                        &&& pp matches Some(p) && vp matches Some(q) && cp matches Some(c)
                            && shape_error_msg(p, q, c) == Some(m)
                        &&& np is Some
                    },
                    _ => false,
                },
            }
        }),
{
    let particle = match parse_json(particle_state) {
        Ok(v) => v,
        Err(m) => {
            return Err(ClientError::Parse(m));
        },
    };
    let previous = match parse_json(previous_pose) {
        Ok(v) => v,
        Err(m) => {
            return Err(ClientError::Parse(m));
        },
    };
    let current = match parse_json(current_pose) {
        Ok(v) => v,
        Err(m) => {
            return Err(ClientError::Parse(m));
        },
    };
    let noise = match noise_params {
        Some(t) => match parse_json(t) {
            Ok(v) => v,
            Err(m) => {
                return Err(ClientError::Parse(m));
            },
        },
        None => crate::payload::default_noise_params(),
    };
    match validate_shapes(&particle, &previous, &current) {
        Ok(_) => Ok(
            build_local_args(
                particle_state,
                previous_pose,
                current_pose,
                &noise,
                search_radius,
                sample_points,
            ),
        ),
        Err(e) => Err(e),
    }
}

/// Where the local executable stands: beside the client's own installation
/// directory, with a platform suffix on Windows.
pub fn get_executable_path(install_dir: &str, windows: bool) -> (r: String)
    ensures
        r@ == install_dir@ + "/"@ + (if windows {
            "Bellande_Motion_Probability.exe"@
        } else {
            "Bellande_Motion_Probability"@
        }),
{
    let mut p = install_dir.to_owned();
    p.append("/");
    if windows {
        p.append("Bellande_Motion_Probability.exe");
    } else {
        p.append("Bellande_Motion_Probability");
    }
    p
}

} // verus!
