//! Building the request payload.
//!
//! [`payload_val`] states exactly which object a request carries:
//! the five inputs, the supplied or default noise parameters, and the fixed
//! authorization object.  [`build_payload`] constructs it; the proof
//! functions state the laws every payload obeys.

use vstd::prelude::*;

use crate::json::{
    lemma_member_views_of, lookup_members, member_views_of, obj_lookup, view_of, JsonVal, JsonValue,
};
use crate::num::{int_rep, write_i32_decimal};
use crate::render::chars_to_string;
use vstd::string::StringExecFns;

verus! {

/// The authorization object injected into every payload.
pub open spec fn auth_val() -> JsonVal {
    JsonVal::Obj(seq![("authorization_key"@, JsonVal::Str("bellande_web_api_opensource"@))])
}

/// The default noise parameters: a sigma of 0.1 for translation, rotation
/// and heading.
pub open spec fn default_noise_val() -> JsonVal {
    JsonVal::Obj(
        seq![
            ("trans_sigma"@, JsonVal::Num("0.1"@)),
            ("rot_sigma"@, JsonVal::Num("0.1"@)),
            ("head_sigma"@, JsonVal::Num("0.1"@)),
        ],
    )
}

/// The supplied noise parameters, or the defaults when none were given.
pub open spec fn noise_or_default(noise: Option<JsonVal>) -> JsonVal {
    match noise {
        Some(n) => n,
        None => default_noise_val(),
    }
}

/// The payload of a request: the inputs under their field names, the
/// supplied-or-default noise parameters, and the authorization object.
pub open spec fn payload_val(
    particle: JsonVal,
    previous: JsonVal,
    current: JsonVal,
    noise: Option<JsonVal>,
    radius: Seq<char>,
    points: int,
) -> JsonVal {
    JsonVal::Obj(
        seq![
            ("particle_state"@, particle),
            ("previous_pose"@, previous),
            ("current_pose"@, current),
            ("noise_params"@, noise_or_default(noise)),
            ("search_radius"@, JsonVal::Num(radius)),
            ("sample_points"@, JsonVal::Num(int_rep(points))),
            ("auth"@, auth_val()),
        ],
    )
}

/// The default noise parameters as a value.
pub fn default_noise_params() -> (r: JsonValue)
    ensures
        r@ == default_noise_val(),
{
    let mut members: Vec<(String, JsonValue)> = Vec::new();
    members.push((String::from_str("trans_sigma"), JsonValue::Num(String::from_str("0.1"))));
    members.push((String::from_str("rot_sigma"), JsonValue::Num(String::from_str("0.1"))));
    members.push((String::from_str("head_sigma"), JsonValue::Num(String::from_str("0.1"))));
    proof {
        lemma_member_views_of(members@);
        assert(member_views_of(members@) =~= seq![
            ("trans_sigma"@, JsonVal::Num("0.1"@)),
            ("rot_sigma"@, JsonVal::Num("0.1"@)),
            ("head_sigma"@, JsonVal::Num("0.1"@)),
        ]);
    }
    JsonValue::Obj(members)
}

/// Builds the payload from the five inputs, injecting the default noise
/// parameters when none are given, and always the fixed authorization key.
/// The inputs are taken over unchanged; the search radius arrives as the
/// text of its numeric literal.
pub fn build_payload(
    particle_state: JsonValue,
    previous_pose: JsonValue,
    current_pose: JsonValue,
    noise_params: Option<JsonValue>,
    search_radius: String,
    sample_points: i32,
) -> (r: JsonValue)
    ensures
        r@ == payload_val(
            particle_state@,
            previous_pose@,
            current_pose@,
            match noise_params {
                Some(n) => Some(n@),
                None => None,
            },
            search_radius@,
            sample_points as int,
        ),
{
    let ghost noise_arg = match &noise_params {
        Some(n) => Some(n@),
        None => None::<JsonVal>,
    };
    let noise = match noise_params {
        Some(n) => n,
        None => default_noise_params(),
    };
    let mut sp: Vec<char> = Vec::new();
    write_i32_decimal(sample_points, &mut sp);
    let sp_text = chars_to_string(sp);

    let mut auth_members: Vec<(String, JsonValue)> = Vec::new();
    auth_members.push(
        (
            String::from_str("authorization_key"),
            JsonValue::Str(String::from_str("bellande_web_api_opensource")),
        ),
    );
    proof {
        lemma_member_views_of(auth_members@);
        assert(member_views_of(auth_members@) =~= seq![
            ("authorization_key"@, JsonVal::Str("bellande_web_api_opensource"@)),
        ]);
    }
    let auth = JsonValue::Obj(auth_members);

    let mut members: Vec<(String, JsonValue)> = Vec::new();
    members.push((String::from_str("particle_state"), particle_state));
    members.push((String::from_str("previous_pose"), previous_pose));
    members.push((String::from_str("current_pose"), current_pose));
    members.push((String::from_str("noise_params"), noise));
    members.push((String::from_str("search_radius"), JsonValue::Num(search_radius)));
    members.push((String::from_str("sample_points"), JsonValue::Num(sp_text)));
    members.push((String::from_str("auth"), auth));
    proof {
        lemma_member_views_of(members@);
        assert(member_views_of(members@) =~= seq![
            ("particle_state"@, particle_state@),
            ("previous_pose"@, previous_pose@),
            ("current_pose"@, current_pose@),
            ("noise_params"@, noise_or_default(noise_arg)),
            ("search_radius"@, JsonVal::Num(search_radius@)),
            ("sample_points"@, JsonVal::Num(int_rep(sample_points as int))),
            ("auth"@, auth_val()),
        ]);
    }
    JsonValue::Obj(members)
}

/// The value at position `i` is found under its key, provided no earlier
/// member uses the same key.
proof fn lemma_lookup_at(members: Seq<(Seq<char>, JsonVal)>, i: int)
    requires
        0 <= i < members.len(),
        forall|j: int| 0 <= j < i ==> members[j].0 != members[i].0,
    ensures
        lookup_members(members, members[i].0) == Some(members[i].1),
    decreases i,
{
    if i > 0 {
        assert(members.drop_first()[i - 1] == members[i]);
        assert forall|j: int| 0 <= j < i - 1 implies #[trigger] members.drop_first()[j].0
            != members.drop_first()[i - 1].0 by {
            assert(members.drop_first()[j] == members[j + 1]);
        }
        lemma_lookup_at(members.drop_first(), i - 1);
    }
}

proof fn lemma_payload_keys_distinct()
    ensures
        "particle_state"@ != "previous_pose"@,
        "particle_state"@ != "current_pose"@,
        "particle_state"@ != "noise_params"@,
        "particle_state"@ != "search_radius"@,
        "particle_state"@ != "sample_points"@,
        "particle_state"@ != "auth"@,
        "previous_pose"@ != "current_pose"@,
        "previous_pose"@ != "noise_params"@,
        "previous_pose"@ != "search_radius"@,
        "previous_pose"@ != "sample_points"@,
        "previous_pose"@ != "auth"@,
        "current_pose"@ != "noise_params"@,
        "current_pose"@ != "search_radius"@,
        "current_pose"@ != "sample_points"@,
        "current_pose"@ != "auth"@,
        "noise_params"@ != "search_radius"@,
        "noise_params"@ != "sample_points"@,
        "noise_params"@ != "auth"@,
        "search_radius"@ != "sample_points"@,
        "search_radius"@ != "auth"@,
        "sample_points"@ != "auth"@,
{
    reveal_strlit("particle_state");
    reveal_strlit("previous_pose");
    reveal_strlit("current_pose");
    reveal_strlit("noise_params");
    reveal_strlit("search_radius");
    reveal_strlit("sample_points");
    reveal_strlit("auth");
    assert("particle_state"@.len() == 14);
    assert("previous_pose"@.len() == 13);
    assert("current_pose"@.len() == 12);
    assert("noise_params"@.len() == 12);
    assert("search_radius"@.len() == 13);
    assert("sample_points"@.len() == 13);
    assert("auth"@.len() == 4);
    assert("current_pose"@[0] == 'c' && "noise_params"@[0] == 'n');
    assert("previous_pose"@[0] == 'p' && "search_radius"@[0] == 's' && "sample_points"@[0] == 's');
    assert("search_radius"@[1] == 'e' && "sample_points"@[1] == 'a');
}

/// Law: looking the payload up field for field gives back exactly what was
/// put in -- each input unchanged, the supplied-or-default noise parameters,
/// the radius and sample count under their names, and the authorization
/// object.
pub proof fn lemma_payload_round_trip(
    particle: JsonVal,
    previous: JsonVal,
    current: JsonVal,
    noise: Option<JsonVal>,
    radius: Seq<char>,
    points: int,
)
    ensures
        obj_lookup(payload_val(particle, previous, current, noise, radius, points),
            "particle_state"@) == Some(particle),
        obj_lookup(payload_val(particle, previous, current, noise, radius, points),
            "previous_pose"@) == Some(previous),
        obj_lookup(payload_val(particle, previous, current, noise, radius, points),
            "current_pose"@) == Some(current),
        obj_lookup(payload_val(particle, previous, current, noise, radius, points),
            "noise_params"@) == Some(noise_or_default(noise)),
        obj_lookup(payload_val(particle, previous, current, noise, radius, points),
            "search_radius"@) == Some(JsonVal::Num(radius)),
        obj_lookup(payload_val(particle, previous, current, noise, radius, points),
            "sample_points"@) == Some(JsonVal::Num(int_rep(points))),
        obj_lookup(payload_val(particle, previous, current, noise, radius, points), "auth"@)
            == Some(auth_val()),
{
    lemma_payload_keys_distinct();
    let ms = seq![
        ("particle_state"@, particle),
        ("previous_pose"@, previous),
        ("current_pose"@, current),
        ("noise_params"@, noise_or_default(noise)),
        ("search_radius"@, JsonVal::Num(radius)),
        ("sample_points"@, JsonVal::Num(int_rep(points))),
        ("auth"@, auth_val()),
    ];
    assert(ms[0].0 == "particle_state"@ && ms[1].0 == "previous_pose"@ && ms[2].0
        == "current_pose"@ && ms[3].0 == "noise_params"@ && ms[4].0 == "search_radius"@ && ms[5].0
        == "sample_points"@ && ms[6].0 == "auth"@);
    lemma_lookup_at(ms, 0);
    lemma_lookup_at(ms, 1);
    lemma_lookup_at(ms, 2);
    lemma_lookup_at(ms, 3);
    lemma_lookup_at(ms, 4);
    lemma_lookup_at(ms, 5);
    lemma_lookup_at(ms, 6);
}

/// Law: every payload carries the fixed authorization key, whatever the
/// other inputs were.
pub proof fn lemma_payload_authorization(
    particle: JsonVal,
    previous: JsonVal,
    current: JsonVal,
    noise: Option<JsonVal>,
    radius: Seq<char>,
    points: int,
)
    ensures
        obj_lookup(payload_val(particle, previous, current, noise, radius, points), "auth"@)
            == Some(auth_val()),
        obj_lookup(auth_val(), "authorization_key"@) == Some(
            JsonVal::Str("bellande_web_api_opensource"@),
        ),
{
    lemma_payload_round_trip(particle, previous, current, noise, radius, points);
    lemma_lookup_at(auth_val()->Obj_0, 0);
}

} // verus!
