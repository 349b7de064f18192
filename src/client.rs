//! Operation-level logic of the device client: parameter validation before
//! any I/O, the request each operation sends, and the outcome of a reply.
use vstd::prelude::*;
use crate::types::{ColorParams, CommandResult, Method, Request, Response, Scene, SceneParams, StateParams};
use crate::wire::{WireParams, request_text};

verus! {

/// The UDP port on which devices take commands.
pub const CONTROL_PORT: u16 = 38899;

/// How long an exchange waits for the reply datagram, in milliseconds.
pub const REPLY_TIMEOUT_MILLIS: u64 = 1000;

/// The size of the buffer that receives a reply; longer replies are cut.
pub const REPLY_BUFFER_LEN: usize = 2048;

/// The identifier carried by color and scene requests.
pub const PILOT_REQUEST_ID: i64 = 1;

/// A parameter that lies outside its allowed range.
#[derive(Debug, Clone, Copy, PartialEq, Eq, Structural)]
pub enum Violation {
    Dimming,
    Speed,
}

/// Why an operation failed.
#[derive(Debug, Clone, Copy, PartialEq, Eq, Structural)]
pub enum WizError {
    /// A parameter was rejected before any I/O.
    Validation(Violation),
    /// The reply was not valid JSON of the expected shape.
    Codec,
    /// The reply was not valid UTF-8.
    Utf8,
    /// Binding, sending or receiving failed, or no reply came in time.
    Transport,
}

impl WizError {
    /// A human-readable description of the error.
    pub fn message(&self) -> (r: &'static str)
        ensures
            *self == WizError::Validation(Violation::Dimming) ==> r@
                == "dimming value must be between 10 and 100"@,
            *self == WizError::Validation(Violation::Speed) ==> r@
                == "speed value must be between 10 and 200"@,
            *self == WizError::Codec ==> r@ == "failed to serialize/deserialize JSON data"@,
            *self == WizError::Utf8 ==> r@ == "failed to convert from/to UTF-8"@,
            *self == WizError::Transport ==> r@ == "failed to send/receive data"@,
    {
        match self {
            WizError::Validation(Violation::Dimming) => "dimming value must be between 10 and 100",
            WizError::Validation(Violation::Speed) => "speed value must be between 10 and 200",
            WizError::Codec => "failed to serialize/deserialize JSON data",
            WizError::Utf8 => "failed to convert from/to UTF-8",
            WizError::Transport => "failed to send/receive data",
        }
    }
}

/// An operation on a light strip, with its arguments.
#[derive(Debug, Clone, Copy, PartialEq, Eq, Structural)]
pub enum Command {
    /// Play a dynamic scene.
    Dynamic { scene: Scene, speed: u8, brightness: u8 },
    /// Show a static color.
    Static { red: u8, green: u8, blue: u8, brightness: u8 },
    /// Turn the strip on.
    On,
    /// Turn the strip off.
    Off,
}

/// A brightness percentage that devices accept.
pub open spec fn dimming_ok(d: int) -> bool {
    10 <= d <= 100
}

/// A scene speed that devices accept.
pub open spec fn speed_ok(s: int) -> bool {
    10 <= s <= 200
}

/// Checks that `value` is a brightness percentage between 10 and 100.
pub fn validate_dimming(value: u8) -> (r: Result<(), WizError>)
    ensures
        dimming_ok(value as int) ==> r is Ok,
        !dimming_ok(value as int) ==> r == Err::<(), WizError>(WizError::Validation(Violation::Dimming)),
{
    if 10 <= value && value <= 100 {
        Ok(())
    } else {
        Err(WizError::Validation(Violation::Dimming))
    }
}

/// Checks that `value` is a scene speed between 10 and 200.
pub fn validate_speed(value: u8) -> (r: Result<(), WizError>)
    ensures
        speed_ok(value as int) ==> r is Ok,
        !speed_ok(value as int) ==> r == Err::<(), WizError>(WizError::Validation(Violation::Speed)),
{
    if 10 <= value && value <= 200 {
        Ok(())
    } else {
        Err(WizError::Validation(Violation::Speed))
    }
}

/// The request that switches the strip on or off: no identifier.
pub open spec fn power_request(on: bool) -> Request<StateParams> {
    Request { id: None, method: Method::SetState, params: StateParams { state: on } }
}

/// The request that shows a static color.
pub open spec fn color_request(red: u8, green: u8, blue: u8, dimming: u8) -> Request<ColorParams> {
    Request {
        id: Some(PILOT_REQUEST_ID),
        method: Method::SetPilot,
        params: ColorParams { red, green, blue, dimming },
    }
}

/// The request that plays a scene.
pub open spec fn scene_request(scene: Scene, speed: u8, dimming: u8) -> Request<SceneParams> {
    Request {
        id: Some(PILOT_REQUEST_ID),
        method: Method::SetPilot,
        params: SceneParams { scene, speed, dimming },
    }
}

/// The request that switches the strip on or off.
pub fn power_request_for(on: bool) -> (r: Request<StateParams>)
    ensures
        r == power_request(on),
{
    Request::new_without_id(Method::SetState, StateParams { state: on })
}

/// The request that shows a static color, once the brightness is checked.
pub fn set_color_request(red: u8, green: u8, blue: u8, dimming: u8) -> (r: Result<
    Request<ColorParams>,
    WizError,
>)
    ensures
        dimming_ok(dimming as int) ==> r == Ok::<Request<ColorParams>, WizError>(
            color_request(red, green, blue, dimming),
        ),
        !dimming_ok(dimming as int) ==> r == Err::<Request<ColorParams>, WizError>(
            WizError::Validation(Violation::Dimming),
        ),
{
    validate_dimming(dimming)?;
    Ok(Request::new(PILOT_REQUEST_ID, Method::SetPilot, ColorParams { red, green, blue, dimming }))
}

/// The request that plays a scene, once brightness and then speed are checked.
pub fn set_scene_request(scene: Scene, speed: u8, dimming: u8) -> (r: Result<
    Request<SceneParams>,
    WizError,
>)
    ensures
        dimming_ok(dimming as int) && speed_ok(speed as int) ==> r == Ok::<
            Request<SceneParams>,
            WizError,
        >(scene_request(scene, speed, dimming)),
        !dimming_ok(dimming as int) ==> r == Err::<Request<SceneParams>, WizError>(
            WizError::Validation(Violation::Dimming),
        ),
        dimming_ok(dimming as int) && !speed_ok(speed as int) ==> r == Err::<
            Request<SceneParams>,
            WizError,
        >(WizError::Validation(Violation::Speed)),
{
    validate_dimming(dimming)?;
    validate_speed(speed)?;
    Ok(Request::new(PILOT_REQUEST_ID, Method::SetPilot, SceneParams { scene, speed, dimming }))
}

/// The wire text that a command sends, or the error that stops it before any I/O.
pub open spec fn command_text(cmd: Command) -> Result<Seq<char>, WizError> {
    match cmd {
        Command::On => Ok(request_text(&power_request(true))),
        Command::Off => Ok(request_text(&power_request(false))),
        Command::Static { red, green, blue, brightness } => if !dimming_ok(brightness as int) {
            Err(WizError::Validation(Violation::Dimming))
        } else {
            Ok(request_text(&color_request(red, green, blue, brightness)))
        },
        Command::Dynamic { scene, speed, brightness } => if !dimming_ok(brightness as int) {
            Err(WizError::Validation(Violation::Dimming))
        } else if !speed_ok(speed as int) {
            Err(WizError::Validation(Violation::Speed))
        } else {
            Ok(request_text(&scene_request(scene, speed, brightness)))
        },
    }
}

/// The datagram payload for `cmd`; an error here means nothing is to be sent.
pub fn command_payload(cmd: &Command) -> (r: Result<String, WizError>)
    ensures
        match (r, command_text(*cmd)) {
            (Ok(s), Ok(t)) => s@ == t,
            (Err(e), Err(f)) => e == f,
            _ => false,
        },
{
    match *cmd {
        Command::On => Ok(power_request_for(true).encode()),
        Command::Off => Ok(power_request_for(false).encode()),
        Command::Static { red, green, blue, brightness } => {
            let req = set_color_request(red, green, blue, brightness)?;
            Ok(req.encode())
        },
        Command::Dynamic { scene, speed, brightness } => {
            let req = set_scene_request(scene, speed, brightness)?;
            Ok(req.encode())
        },
    }
}

/// What an operation returns for its reply: the device's success flag, or
/// the error that ended the exchange or the decoding.
pub fn reply_outcome(reply: Result<Response<CommandResult>, WizError>) -> (r: Result<bool, WizError>)
    ensures
        match reply {
            Ok(resp) => r == Ok::<bool, WizError>(resp.result.success),
            Err(e) => r == Err::<bool, WizError>(e),
        },
{
    match reply {
        Ok(resp) => Ok(resp.result.success),
        Err(e) => Err(e),
    }
}

} // verus!
