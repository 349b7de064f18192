//! The command and reply model of the light-strip protocol.
use vstd::prelude::*;

verus! {

/// The operation a device is asked to perform.
#[derive(Debug, Clone, Copy, PartialEq, Eq, Structural)]
pub enum Method {
    GetState,
    SetState,
    GetPilot,
    SetPilot,
}

/// A command envelope: an optional identifier, the method, and its parameters.
#[derive(Debug, Clone)]
pub struct Request<T> {
    pub id: Option<i64>,
    pub method: Method,
    pub params: T,
}

impl<T> Request<T> {
    /// A request that carries the identifier `id`.
    pub fn new(id: i64, method: Method, params: T) -> (r: Self)
        ensures
            r.id == Some(id),
            r.method == method,
            r.params == params,
    {
        Self { id: Some(id), method, params }
    }

    /// A request that carries no identifier.
    pub fn new_without_id(method: Method, params: T) -> (r: Self)
        ensures
            r.id.is_none(),
            r.method == method,
            r.params == params,
    {
        Self { id: None, method, params }
    }
}

/// A static color: three channels and a brightness percentage.
#[derive(Debug, Clone, Copy, PartialEq, Eq, Structural)]
pub struct ColorParams {
    pub red: u8,
    pub green: u8,
    pub blue: u8,
    pub dimming: u8,
}

/// A dynamic scene played at a speed and a brightness percentage.
#[derive(Debug, Clone, Copy, PartialEq, Eq, Structural)]
pub struct SceneParams {
    pub scene: Scene,
    pub speed: u8,
    pub dimming: u8,
}

/// The preset scenes of the device firmware.
#[derive(Debug, Clone, Copy, PartialEq, Eq, Structural)]
pub enum Scene {
    Ocean,
    Romance,
    Sunset,
    Party,
    Fireplace,
    Cozy,
    Forest,
    PastelColors,
    WakeUp,
    Bedtime,
    WarmWhite,
    Daylight,
    CoolWhite,
    NightLight,
    Focus,
    Relax,
    TrueColors,
    TvTime,
    Plantgrowth,
    Spring,
    Summer,
    Fall,
    Deepdive,
    Jungle,
    Mojito,
    Club,
    Christmas,
    Halloween,
    Candlelight,
    GoldenWhite,
    Pulse,
    Steampunk,
    Rhythm,
}

/// The ordinal of each scene on the wire: 1 to 32 in declaration order,
/// and 1000 for the music-reactive scene.
pub open spec fn scene_ordinal(s: Scene) -> int {
    match s {
        Scene::Ocean => 1,
        Scene::Romance => 2,
        Scene::Sunset => 3,
        Scene::Party => 4,
        Scene::Fireplace => 5,
        Scene::Cozy => 6,
        Scene::Forest => 7,
        Scene::PastelColors => 8,
        Scene::WakeUp => 9,
        Scene::Bedtime => 10,
        Scene::WarmWhite => 11,
        Scene::Daylight => 12,
        Scene::CoolWhite => 13,
        Scene::NightLight => 14,
        Scene::Focus => 15,
        Scene::Relax => 16,
        Scene::TrueColors => 17,
        Scene::TvTime => 18,
        Scene::Plantgrowth => 19,
        Scene::Spring => 20,
        Scene::Summer => 21,
        Scene::Fall => 22,
        Scene::Deepdive => 23,
        Scene::Jungle => 24,
        Scene::Mojito => 25,
        Scene::Club => 26,
        Scene::Christmas => 27,
        Scene::Halloween => 28,
        Scene::Candlelight => 29,
        Scene::GoldenWhite => 30,
        Scene::Pulse => 31,
        Scene::Steampunk => 32,
        Scene::Rhythm => 1000,
    }
}

impl Scene {
    /// The scene's ordinal on the wire.
    pub fn ordinal(&self) -> (r: u64)
        ensures
            r == scene_ordinal(*self),
    {
        match self {
            Scene::Ocean => 1,
            Scene::Romance => 2,
            Scene::Sunset => 3,
            Scene::Party => 4,
            Scene::Fireplace => 5,
            Scene::Cozy => 6,
            Scene::Forest => 7,
            Scene::PastelColors => 8,
            Scene::WakeUp => 9,
            Scene::Bedtime => 10,
            Scene::WarmWhite => 11,
            Scene::Daylight => 12,
            Scene::CoolWhite => 13,
            Scene::NightLight => 14,
            Scene::Focus => 15,
            Scene::Relax => 16,
            Scene::TrueColors => 17,
            Scene::TvTime => 18,
            Scene::Plantgrowth => 19,
            Scene::Spring => 20,
            Scene::Summer => 21,
            Scene::Fall => 22,
            Scene::Deepdive => 23,
            Scene::Jungle => 24,
            Scene::Mojito => 25,
            Scene::Club => 26,
            Scene::Christmas => 27,
            Scene::Halloween => 28,
            Scene::Candlelight => 29,
            Scene::GoldenWhite => 30,
            Scene::Pulse => 31,
            Scene::Steampunk => 32,
            Scene::Rhythm => 1000,
        }
    }
}

/// Power state parameters.
#[derive(Debug, Clone, Copy, PartialEq, Eq, Structural)]
pub struct StateParams {
    pub state: bool,
}

/// Parameters of a method that takes none.
#[derive(Debug, Clone, Copy, PartialEq, Eq, Structural)]
pub struct EmptyParams;

/// A device reply: optional identifier, method name, environment tag, result.
#[derive(Debug, Clone)]
pub struct Response<T> {
    pub id: Option<i64>,
    pub method: String,
    pub env: String,
    pub result: T,
}

/// Device telemetry as reported by a state query.
#[derive(Debug, Clone)]
pub struct Status {
    pub mac: String,
    pub rssi: i64,
    pub state: bool,
    pub scene_id: i64,
    pub r: i64,
    pub g: i64,
    pub b: i64,
    pub c: i64,
    pub w: i64,
    pub speed: i64,
    pub dimming: i64,
}

/// The result of a command that changes the device's state.
#[derive(Debug, Clone, Copy, PartialEq, Eq, Structural)]
pub struct CommandResult {
    pub success: bool,
}

} // verus!
