use wizlight::client::{
    command_payload, power_request_for, reply_outcome, set_color_request, set_scene_request,
    validate_dimming, validate_speed, Command, Violation, WizError, CONTROL_PORT,
    PILOT_REQUEST_ID, REPLY_BUFFER_LEN, REPLY_TIMEOUT_MILLIS,
};
use wizlight::types::{
    ColorParams, CommandResult, EmptyParams, Method, Request, Response, Scene, SceneParams,
    StateParams,
};
use wizlight::number::{write_decimal, write_integer};
use wizlight::wire::decode_state_request;

fn reply(success: bool) -> Response<CommandResult> {
    Response {
        id: None,
        method: "setState".to_string(),
        env: "pro".to_string(),
        result: CommandResult { success },
    }
}

#[test]
fn dimming_bounds() {
    assert_eq!(validate_dimming(9), Err(WizError::Validation(Violation::Dimming)));
    assert_eq!(validate_dimming(101), Err(WizError::Validation(Violation::Dimming)));
    assert_eq!(validate_dimming(0), Err(WizError::Validation(Violation::Dimming)));
    assert_eq!(validate_dimming(255), Err(WizError::Validation(Violation::Dimming)));
    assert_eq!(validate_dimming(10), Ok(()));
    assert_eq!(validate_dimming(100), Ok(()));
}

#[test]
fn speed_bounds() {
    assert_eq!(validate_speed(9), Err(WizError::Validation(Violation::Speed)));
    assert_eq!(validate_speed(201), Err(WizError::Validation(Violation::Speed)));
    assert_eq!(validate_speed(10), Ok(()));
    assert_eq!(validate_speed(200), Ok(()));
}

#[test]
fn color_with_bad_dimming_sends_nothing() {
    for d in [0u8, 9, 101, 255] {
        assert!(matches!(
            set_color_request(1, 2, 3, d),
            Err(WizError::Validation(Violation::Dimming))
        ));
        let cmd = Command::Static { red: 1, green: 2, blue: 3, brightness: d };
        assert_eq!(command_payload(&cmd), Err(WizError::Validation(Violation::Dimming)));
    }
}

#[test]
fn scene_with_bad_dimming_sends_nothing() {
    for d in [0u8, 9, 101, 255] {
        let cmd = Command::Dynamic { scene: Scene::Ocean, speed: 20, brightness: d };
        assert_eq!(command_payload(&cmd), Err(WizError::Validation(Violation::Dimming)));
        // dimming is checked before speed
        assert!(matches!(
            set_scene_request(Scene::Ocean, 5, d),
            Err(WizError::Validation(Violation::Dimming))
        ));
    }
}

#[test]
fn scene_with_bad_speed_sends_nothing() {
    for s in [0u8, 9, 201, 255] {
        let cmd = Command::Dynamic { scene: Scene::Party, speed: s, brightness: 50 };
        assert_eq!(command_payload(&cmd), Err(WizError::Validation(Violation::Speed)));
        assert!(matches!(
            set_scene_request(Scene::Party, s, 50),
            Err(WizError::Validation(Violation::Speed))
        ));
    }
}

#[test]
fn color_request_fields() {
    let r = set_color_request(10, 20, 30, 50).unwrap();
    assert_eq!(r.id, Some(1));
    assert_eq!(r.method, Method::SetPilot);
    assert_eq!(r.params, ColorParams { red: 10, green: 20, blue: 30, dimming: 50 });
}

#[test]
fn scene_request_fields() {
    let r = set_scene_request(Scene::Rhythm, 200, 10).unwrap();
    assert_eq!(r.id, Some(PILOT_REQUEST_ID));
    assert_eq!(r.method, Method::SetPilot);
    assert_eq!(r.params, SceneParams { scene: Scene::Rhythm, speed: 200, dimming: 10 });
}

#[test]
fn color_payload_text() {
    let cmd = Command::Static { red: 10, green: 20, blue: 30, brightness: 50 };
    assert_eq!(
        command_payload(&cmd).unwrap(),
        r#"{"id":1,"method":"setPilot","params":{"r":10,"g":20,"b":30,"dimming":50}}"#
    );
}

#[test]
fn scene_payload_text() {
    let cmd = Command::Dynamic { scene: Scene::Rhythm, speed: 20, brightness: 75 };
    assert_eq!(
        command_payload(&cmd).unwrap(),
        r#"{"id":1,"method":"setPilot","params":{"sceneId":1000,"speed":20,"dimming":75}}"#
    );
    let cmd = Command::Dynamic { scene: Scene::Steampunk, speed: 10, brightness: 100 };
    assert_eq!(
        command_payload(&cmd).unwrap(),
        r#"{"id":1,"method":"setPilot","params":{"sceneId":32,"speed":10,"dimming":100}}"#
    );
}

#[test]
fn power_payload_text_has_no_id() {
    let on = command_payload(&Command::On).unwrap();
    assert_eq!(on, r#"{"method":"setState","params":{"state":true}}"#);
    assert!(!on.contains("\"id\""));
    let off = command_payload(&Command::Off).unwrap();
    assert_eq!(off, r#"{"method":"setState","params":{"state":false}}"#);
    assert!(!off.contains("\"id\""));
}

#[test]
fn encode_with_and_without_id() {
    let r = Request::new(-42, Method::GetPilot, EmptyParams);
    assert_eq!(r.encode(), r#"{"id":-42,"method":"getPilot","params":null}"#);
    let r = Request::new_without_id(Method::GetState, EmptyParams);
    assert_eq!(r.id, None);
    assert_eq!(r.encode(), r#"{"method":"getState","params":null}"#);
}

#[test]
fn integer_text_edges() {
    let mut s = String::new();
    write_integer(&mut s, i64::MIN);
    assert_eq!(s, "-9223372036854775808");
    let mut s = String::new();
    write_integer(&mut s, i64::MAX);
    assert_eq!(s, "9223372036854775807");
    let mut s = String::from("x");
    write_decimal(&mut s, 0);
    assert_eq!(s, "x0");
    let mut s = String::new();
    write_decimal(&mut s, 1000);
    assert_eq!(s, "1000");
}

#[test]
fn scene_ordinals() {
    assert_eq!(Scene::Ocean.ordinal(), 1);
    assert_eq!(Scene::WakeUp.ordinal(), 9);
    assert_eq!(Scene::TvTime.ordinal(), 18);
    assert_eq!(Scene::Steampunk.ordinal(), 32);
    assert_eq!(Scene::Rhythm.ordinal(), 1000);
}

#[test]
fn method_tags() {
    assert_eq!(Method::GetState.tag(), "getState");
    assert_eq!(Method::SetState.tag(), "setState");
    assert_eq!(Method::GetPilot.tag(), "getPilot");
    assert_eq!(Method::SetPilot.tag(), "setPilot");
}

#[test]
fn state_request_round_trip() {
    let r = power_request_for(true);
    let back = decode_state_request(&r.encode()).unwrap();
    assert_eq!(back.id, None);
    assert_eq!(back.method, Method::SetState);
    assert_eq!(back.params, StateParams { state: true });
    let r = Request::new_without_id(Method::GetState, StateParams { state: false });
    let back = decode_state_request(&r.encode()).unwrap();
    assert_eq!(back.id, None);
    assert_eq!(back.method, Method::GetState);
    assert_eq!(back.params, StateParams { state: false });
}

#[test]
fn decode_rejects_other_text() {
    assert!(decode_state_request("").is_none());
    assert!(decode_state_request("{}").is_none());
    assert!(decode_state_request(r#"{"method":"setState","params":{"state":maybe}}"#).is_none());
}

#[test]
fn success_reply_is_true() {
    assert_eq!(reply_outcome(Ok(reply(true))), Ok(true));
}

#[test]
fn failure_reply_is_false_not_error() {
    assert_eq!(reply_outcome(Ok(reply(false))), Ok(false));
}

#[test]
fn transport_failure_is_passed_on() {
    assert_eq!(reply_outcome(Err(WizError::Transport)), Err(WizError::Transport));
    assert_eq!(reply_outcome(Err(WizError::Codec)), Err(WizError::Codec));
}

#[test]
fn transport_settings() {
    assert_eq!(CONTROL_PORT, 38899);
    assert_eq!(REPLY_TIMEOUT_MILLIS, 1000);
    assert_eq!(REPLY_BUFFER_LEN, 2048);
}

#[test]
fn error_messages() {
    assert_eq!(
        WizError::Validation(Violation::Dimming).message(),
        "dimming value must be between 10 and 100"
    );
    assert_eq!(
        WizError::Validation(Violation::Speed).message(),
        "speed value must be between 10 and 200"
    );
}

#[test]
fn state_request_with_id_round_trip() {
    for id in [0i64, 1, -7, 1234567, i64::MIN, i64::MAX] {
        let r = Request::new(id, Method::SetState, StateParams { state: true });
        let back = decode_state_request(&r.encode()).unwrap();
        assert_eq!(back.id, Some(id));
        assert_eq!(back.method, Method::SetState);
        assert_eq!(back.params, StateParams { state: true });
    }
    let back = decode_state_request(r#"{"id":-7,"method":"getState","params":{"state":false}}"#)
        .unwrap();
    assert_eq!(back.id, Some(-7));
    assert_eq!(back.method, Method::GetState);
    assert_eq!(back.params, StateParams { state: false });
}

#[test]
fn decode_rejects_non_canonical_id() {
    assert!(decode_state_request(r#"{"id":007,"method":"setState","params":{"state":true}}"#).is_none());
    assert!(decode_state_request(r#"{"id":-0,"method":"setState","params":{"state":true}}"#).is_none());
    assert!(decode_state_request(r#"{"id":null,"method":"setState","params":{"state":true}}"#).is_none());
    assert!(decode_state_request(r#"{"id":99999999999999999999,"method":"setState","params":{"state":true}}"#).is_none());
}
