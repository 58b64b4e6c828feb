use bellande_motion_probability::local::{
    build_local_args, executable_passcode, get_executable_path, interpret_process_output,
    prepare_local_args, validate_shapes,
};
use bellande_motion_probability::payload::{build_payload, default_noise_params};
use bellande_motion_probability::remote::{build_remote_body, decode_response, remote_url};
use bellande_motion_probability::render::render_json;
use bellande_motion_probability::{ClientError, JsonValue};

fn num(s: &str) -> JsonValue {
    JsonValue::Num(s.to_string())
}

fn text(s: &str) -> JsonValue {
    JsonValue::Str(s.to_string())
}

fn particle() -> JsonValue {
    JsonValue::Arr(vec![num("1.0"), num("2.0"), num("0.5"), num("0.8")])
}

fn pose_a() -> JsonValue {
    JsonValue::Arr(vec![num("0.0"), num("0.0"), num("0.0")])
}

fn pose_b() -> JsonValue {
    JsonValue::Arr(vec![num("1.0"), num("1.0"), num("0.25")])
}

#[test]
fn local_rejects_short_particle_state() {
    let r = prepare_local_args("[1, 2, 3]", "[0, 0, 0]", "[1, 1, 0]", None, "50.0", 20);
    match r {
        Err(ClientError::Validation(m)) => {
            assert_eq!(m, "Particle state must have 4 components [x, y, heading, weight]");
        }
        other => panic!("expected a validation error, got {:?}", other),
    }
}

#[test]
fn local_rejects_non_array_particle_state() {
    let r = prepare_local_args("5", "[0, 0, 0]", "[1, 1, 0]", None, "50.0", 20);
    match r {
        Err(ClientError::Validation(m)) => {
            assert_eq!(m, "Invalid particle state format");
        }
        other => panic!("expected a validation error, got {:?}", other),
    }
}

#[test]
fn local_rejects_short_previous_pose() {
    let r = prepare_local_args("[1, 2, 0.5, 0.9]", "[1, 2]", "[1, 1, 0]", None, "50.0", 20);
    match r {
        Err(ClientError::Validation(m)) => {
            assert_eq!(m, "Previous pose must have 3 components [x, y, heading]");
        }
        other => panic!("expected a validation error, got {:?}", other),
    }
}

#[test]
fn local_rejects_long_current_pose() {
    let r = prepare_local_args("[1, 2, 0.5, 0.9]", "[0, 0, 0]", "[1, 1, 0, 4]", None, "50.0", 20);
    match r {
        Err(ClientError::Validation(m)) => {
            assert_eq!(m, "Current pose must have 3 components [x, y, heading]");
        }
        other => panic!("expected a validation error, got {:?}", other),
    }
}

#[test]
fn local_accepts_non_array_pose() {
    let r = prepare_local_args(
        "[1, 2, 0.5, 0.9]",
        "{\"x\": 1}",
        "[1, 1, 0]",
        None,
        "50.0",
        20,
    );
    let args = r.expect("a non-array pose passes the shape check");
    assert_eq!(args[2], "{\"x\": 1}");
}

#[test]
fn local_rejects_malformed_json() {
    let r = prepare_local_args("[1, 2,", "[0, 0, 0]", "[1, 1, 0]", None, "50.0", 20);
    assert!(matches!(r, Err(ClientError::Parse(_))));
}

#[test]
fn local_rejects_malformed_noise_params() {
    let r = prepare_local_args(
        "[1, 2, 0.5, 0.9]",
        "[0, 0, 0]",
        "[1, 1, 0]",
        Some("{bad"),
        "50.0",
        20,
    );
    assert!(matches!(r, Err(ClientError::Parse(_))));
}

#[test]
fn local_args_carry_inputs_positionally() {
    let r = prepare_local_args(
        "[1, 2, 0.5, 0.9]",
        "[0, 0, 0]",
        "[1, 1, 0]",
        Some("{\"trans_sigma\": 0.2, \"rot_sigma\": 0.3, \"head_sigma\": 0.4}"),
        "75.5",
        42,
    );
    let args = r.expect("well-shaped inputs are accepted");
    assert_eq!(args.len(), 7);
    assert_eq!(args[0], "bellande_motion_probability_executable_access_key");
    assert_eq!(args[0], executable_passcode());
    assert_eq!(args[1], "[1, 2, 0.5, 0.9]");
    assert_eq!(args[2], "[0, 0, 0]");
    assert_eq!(args[3], "[1, 1, 0]");
    // serde_json orders object keys alphabetically when it parses.
    assert_eq!(args[4], "{\"head_sigma\":0.4,\"rot_sigma\":0.3,\"trans_sigma\":0.2}");
    assert_eq!(args[5], "75.5");
    assert_eq!(args[6], "42");
}

#[test]
fn local_defaults_noise_params() {
    let r = prepare_local_args("[1, 2, 0.5, 0.9]", "[0, 0, 0]", "[1, 1, 0]", None, "50.0", 20);
    let args = r.expect("well-shaped inputs are accepted");
    assert_eq!(args[4], "{\"trans_sigma\":0.1,\"rot_sigma\":0.1,\"head_sigma\":0.1}");
}

#[test]
fn local_args_render_negative_sample_points() {
    let noise = default_noise_params();
    let args = build_local_args("[1,2,3,4]", "[0,0,0]", "[1,1,0]", &noise, "50.0", -5);
    assert_eq!(args[6], "-5");
    let args = build_local_args("[1,2,3,4]", "[0,0,0]", "[1,1,0]", &noise, "50.0", 0);
    assert_eq!(args[6], "0");
    let args = build_local_args("[1,2,3,4]", "[0,0,0]", "[1,1,0]", &noise, "50.0", i32::MIN);
    assert_eq!(args[6], "-2147483648");
}

#[test]
fn validate_shapes_accepts_good_inputs() {
    assert_eq!(validate_shapes(&particle(), &pose_a(), &pose_b()), Ok(()));
}

#[test]
fn process_success_returns_stdout_unchanged() {
    let r = interpret_process_output(true, "probability: 0.42\n".to_string(), String::new());
    assert_eq!(r, Ok("probability: 0.42\n".to_string()));
}

#[test]
fn process_failure_surfaces_stderr() {
    let r = interpret_process_output(false, String::new(), "boom".to_string());
    match r {
        Err(e @ ClientError::Process(_)) => {
            assert_eq!(e.message(), "Process failed: boom");
        }
        other => panic!("expected a process error, got {:?}", other),
    }
}

#[test]
fn payload_always_carries_authorization_key() {
    let body = build_remote_body(text("odd"), num("1"), JsonValue::Null, None, "0".to_string(), 1);
    let v: serde_json::Value = serde_json::from_str(&body).expect("the body is valid JSON");
    let key = v
        .get("auth")
        .and_then(|a| a.get("authorization_key"))
        .and_then(|k| k.as_str());
    assert_eq!(key, Some("bellande_web_api_opensource"));
}

#[test]
fn payload_round_trip_preserves_fields() {
    let payload = build_payload(
        particle(),
        pose_a(),
        pose_b(),
        None,
        "50.0".to_string(),
        20,
    );
    let body = render_json(&payload);
    let v: serde_json::Value = serde_json::from_str(&body).expect("the body is valid JSON");
    let expect = |s: &str| serde_json::from_str::<serde_json::Value>(s).unwrap();
    assert_eq!(v.get("particle_state"), Some(&expect("[1.0, 2.0, 0.5, 0.8]")));
    assert_eq!(v.get("previous_pose"), Some(&expect("[0.0, 0.0, 0.0]")));
    assert_eq!(v.get("current_pose"), Some(&expect("[1.0, 1.0, 0.25]")));
    assert_eq!(
        v.get("noise_params"),
        Some(&expect("{\"trans_sigma\": 0.1, \"rot_sigma\": 0.1, \"head_sigma\": 0.1}")),
    );
    assert_eq!(v.get("search_radius"), Some(&expect("50.0")));
    assert_eq!(v.get("sample_points"), Some(&expect("20")));
    assert_eq!(
        v.get("auth"),
        Some(&expect("{\"authorization_key\": \"bellande_web_api_opensource\"}")),
    );
}

#[test]
fn payload_keeps_supplied_noise_params() {
    let noise = JsonValue::Obj(vec![
        ("trans_sigma".to_string(), num("0.7")),
        ("rot_sigma".to_string(), num("0.8")),
        ("head_sigma".to_string(), num("0.9")),
    ]);
    let payload = build_payload(
        particle(),
        pose_a(),
        pose_b(),
        Some(noise),
        "10".to_string(),
        5,
    );
    let body = render_json(&payload);
    let v: serde_json::Value = serde_json::from_str(&body).expect("the body is valid JSON");
    let sigma = v
        .get("noise_params")
        .and_then(|n| n.get("rot_sigma"))
        .and_then(|s| s.as_f64());
    assert_eq!(sigma, Some(0.8));
}

#[test]
fn render_exact_scalars() {
    assert_eq!(render_json(&JsonValue::Null), "null");
    assert_eq!(render_json(&JsonValue::Bool(true)), "true");
    assert_eq!(render_json(&JsonValue::Bool(false)), "false");
    assert_eq!(render_json(&num("-12.5")), "-12.5");
    assert_eq!(render_json(&text("plain")), "\"plain\"");
}

#[test]
fn render_escapes_strings() {
    let tricky = text("a\"b\\c\nd\te\r\u{1}");
    assert_eq!(render_json(&tricky), "\"a\\\"b\\\\c\\nd\\te\\r\\u0001\"");
}

#[test]
fn render_escaped_string_reparses() {
    let original = "a\"b\\c\nd\te\r\u{1}\u{1f}";
    let body = render_json(&text(original));
    let parsed: serde_json::Value = serde_json::from_str(&body).expect("escaped text is valid JSON");
    assert_eq!(parsed.as_str(), Some(original));
}

#[test]
fn render_keeps_non_ascii_text() {
    let original = "héλ—数";
    let body = render_json(&text(original));
    assert_eq!(body, "\"héλ—数\"");
    let parsed: serde_json::Value = serde_json::from_str(&body).expect("the text is valid JSON");
    assert_eq!(parsed.as_str(), Some(original));
}

#[test]
fn render_exact_composite() {
    let v = JsonValue::Obj(vec![
        (
            "k".to_string(),
            JsonValue::Arr(vec![JsonValue::Null, JsonValue::Bool(true), num("3")]),
        ),
        ("empty".to_string(), JsonValue::Arr(vec![])),
        ("inner".to_string(), JsonValue::Obj(vec![])),
    ]);
    assert_eq!(render_json(&v), "{\"k\":[null,true,3],\"empty\":[],\"inner\":{}}");
}

#[test]
fn decode_response_reads_structure() {
    let r = decode_response("{\"p\": 0.5, \"a\": [1, true, null]}");
    let expected = JsonValue::Obj(vec![
        (
            "a".to_string(),
            JsonValue::Arr(vec![num("1"), JsonValue::Bool(true), JsonValue::Null]),
        ),
        ("p".to_string(), num("0.5")),
    ]);
    assert_eq!(r, Ok(expected));
}

#[test]
fn decode_response_rejects_bad_json() {
    let r = decode_response("not json at all");
    assert!(matches!(r, Err(ClientError::Decode(_))));
}

#[test]
fn executable_path_per_platform() {
    assert_eq!(get_executable_path("inst", false), "inst/Bellande_Motion_Probability");
    assert_eq!(get_executable_path("inst", true), "inst/Bellande_Motion_Probability.exe");
}

#[test]
fn remote_url_is_fixed() {
    assert_eq!(
        remote_url(),
        "https://bellande-robotics-sensors-research-innovation-center.org/api/Bellande_Motion_Probability/bellande_motion_probability",
    );
}

#[test]
fn network_error_carries_its_message() {
    let e = ClientError::Network("connection refused".to_string());
    assert_eq!(e.message(), "connection refused");
}
