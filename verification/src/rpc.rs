use vstd::prelude::*;

verus! {

/// A requested change to one integer-valued device property: either an
/// absolute target value or a signed relative delta.
#[derive(Clone, Copy, Debug, PartialEq, Eq, Structural)]
pub struct IntegerValueChange {
    pub absolute: bool,
    pub value: i32,
}

/// A color as red, green and blue channel values.
#[derive(Clone, Copy, Debug, PartialEq, Eq, Structural)]
pub struct Rgb {
    pub red: u32,
    pub green: u32,
    pub blue: u32,
}

/// A snapshot of the properties a device reports.
#[derive(Clone, Debug)]
pub struct InfoResponse {
    pub name: String,
    pub device_on: Option<bool>,
    pub on_time: Option<u64>,
    pub overheated: bool,
    pub brightness: Option<u32>,
    pub hue: Option<u32>,
    pub saturation: Option<u32>,
    pub temperature: Option<u32>,
    pub dynamic_effect_id: Option<u32>,
    pub color: Option<Rgb>,
}

impl InfoResponse {
    /// An empty snapshot: nothing reported.
    pub fn empty() -> (r: InfoResponse)
        ensures
            r.name@ == Seq::<char>::empty(),
            r.device_on is None,
            r.on_time is None,
            !r.overheated,
            r.brightness is None,
            r.hue is None,
            r.saturation is None,
            r.temperature is None,
            r.dynamic_effect_id is None,
            r.color is None,
    {
        InfoResponse {
            name: String::new(),
            device_on: None,
            on_time: None,
            overheated: false,
            brightness: None,
            hue: None,
            saturation: None,
            temperature: None,
            dynamic_effect_id: None,
            color: None,
        }
    }

    /// An identical copy of the snapshot.
    pub fn duplicate(&self) -> (r: InfoResponse)
        ensures
            r == *self,
    {
        InfoResponse {
            name: self.name.clone(),
            device_on: self.device_on,
            on_time: self.on_time,
            overheated: self.overheated,
            brightness: self.brightness,
            hue: self.hue,
            saturation: self.saturation,
            temperature: self.temperature,
            dynamic_effect_id: self.dynamic_effect_id,
            color: self.color,
        }
    }

    /// Whether two snapshots report exactly the same properties.
    pub open spec fn matches(self, other: InfoResponse) -> bool {
        &&& self.name@ == other.name@
        &&& self.device_on == other.device_on
        &&& self.on_time == other.on_time
        &&& self.overheated == other.overheated
        &&& self.brightness == other.brightness
        &&& self.hue == other.hue
        &&& self.saturation == other.saturation
        &&& self.temperature == other.temperature
        &&& self.dynamic_effect_id == other.dynamic_effect_id
        &&& self.color == other.color
    }

    /// Compare two snapshots field by field.
    pub fn equals(&self, other: &InfoResponse) -> (r: bool)
        ensures
            r == self.matches(*other),
    {
        self.name == other.name && eq_opt_bool(&self.device_on, &other.device_on)
            && eq_opt_u64(&self.on_time, &other.on_time) && self.overheated == other.overheated
            && eq_opt_u32(&self.brightness, &other.brightness) && eq_opt_u32(
            &self.hue,
            &other.hue,
        ) && eq_opt_u32(&self.saturation, &other.saturation) && eq_opt_u32(
            &self.temperature,
            &other.temperature,
        ) && eq_opt_u32(&self.dynamic_effect_id, &other.dynamic_effect_id) && eq_opt_rgb(
            &self.color,
            &other.color,
        )
    }

    /// The reported brightness, or zero when none was reported.
    pub fn brightness_or_zero(&self) -> (r: u32)
        ensures
            r == spec_or_zero_u32(self.brightness),
    {
        match self.brightness {
            Some(v) => v,
            None => 0,
        }
    }

    /// The reported hue, or zero when none was reported.
    pub fn hue_or_zero(&self) -> (r: u32)
        ensures
            r == spec_or_zero_u32(self.hue),
    {
        match self.hue {
            Some(v) => v,
            None => 0,
        }
    }

    /// The reported saturation, or zero when none was reported.
    pub fn saturation_or_zero(&self) -> (r: u32)
        ensures
            r == spec_or_zero_u32(self.saturation),
    {
        match self.saturation {
            Some(v) => v,
            None => 0,
        }
    }

    /// The reported color temperature, or zero when none was reported.
    pub fn temperature_or_zero(&self) -> (r: u32)
        ensures
            r == spec_or_zero_u32(self.temperature),
    {
        match self.temperature {
            Some(v) => v,
            None => 0,
        }
    }
}

/// The value of an optional property, defaulting to zero when absent.
pub open spec fn spec_or_zero_u32(v: Option<u32>) -> u32 {
    match v {
        Some(x) => x,
        None => 0,
    }
}

fn eq_opt_u32(a: &Option<u32>, b: &Option<u32>) -> (r: bool)
    ensures
        r == (*a == *b),
{
    match (a, b) {
        (Some(x), Some(y)) => *x == *y,
        (None, None) => true,
        _ => false,
    }
}

fn eq_opt_u64(a: &Option<u64>, b: &Option<u64>) -> (r: bool)
    ensures
        r == (*a == *b),
{
    match (a, b) {
        (Some(x), Some(y)) => *x == *y,
        (None, None) => true,
        _ => false,
    }
}

fn eq_opt_bool(a: &Option<bool>, b: &Option<bool>) -> (r: bool)
    ensures
        r == (*a == *b),
{
    match (a, b) {
        (Some(x), Some(y)) => *x == *y,
        (None, None) => true,
        _ => false,
    }
}

fn eq_opt_rgb(a: &Option<Rgb>, b: &Option<Rgb>) -> (r: bool)
    ensures
        r == (*a == *b),
{
    match (a, b) {
        (Some(x), Some(y)) => *x == *y,
        (None, None) => true,
        _ => false,
    }
}

/// The answer to a power command: the device's new power state.
#[derive(Clone, Copy, Debug, PartialEq, Eq, Structural)]
pub struct PowerResponse {
    pub device_on: bool,
}

/// One usage figure reported for today, the past week and the past month.
#[derive(Clone, Copy, Debug, PartialEq, Eq, Structural)]
pub struct UsagePerPeriod {
    pub today: Option<u64>,
    pub week: Option<u64>,
    pub month: Option<u64>,
}

/// The power, time and saved-power usage a device reports.
#[derive(Clone, Copy, Debug, PartialEq, Eq, Structural)]
pub struct UsageResponse {
    pub power_usage: Option<UsagePerPeriod>,
    pub time_usage: Option<UsagePerPeriod>,
    pub saved_power: Option<UsagePerPeriod>,
}

/// A paired hue and saturation change; both must be present or both absent.
#[derive(Clone, Copy, Debug, PartialEq, Eq, Structural)]
pub struct HueSaturation {
    pub hue: Option<IntegerValueChange>,
    pub saturation: Option<IntegerValueChange>,
}

/// The preset colors offered by the service, as named in the Google Home app.
#[derive(Clone, Copy, Debug, PartialEq, Eq, Structural)]
pub enum Color {
    CoolWhite,
    Daylight,
    Ivory,
    WarmWhite,
    Incandescent,
    Candlelight,
    Snow,
    GhostWhite,
    AliceBlue,
    LightGoldenrod,
    LemonChiffon,
    AntiqueWhite,
    Gold,
    Peru,
    Chocolate,
    SandyBrown,
    Coral,
    Pumpkin,
    Tomato,
    Vermilion,
    OrangeRed,
    Pink,
    Crimson,
    DarkRed,
    HotPink,
    Smitten,
    MediumPurple,
    BlueViolet,
    Indigo,
    LightSkyBlue,
    CornflowerBlue,
    Ultramarine,
    DeepSkyBlue,
    Azure,
    NavyBlue,
    LightTurquoise,
    Aquamarine,
    Turquoise,
    LightGreen,
    Lime,
    ForestGreen,
}

/// The hue, saturation and color temperature a preset color resolves to.
/// A preset is either a hue/saturation pair (hue above zero) or a pure
/// color temperature (hue zero).
#[derive(Clone, Copy, Debug, PartialEq, Eq, Structural)]
pub struct ColorConfig {
    pub hue: u16,
    pub saturation: u8,
    pub temperature: u16,
}

/// One device as listed to clients: its identity and the wire code of its
/// current session status.
#[derive(Clone, Debug)]
pub struct Device {
    pub name: String,
    pub device_type: String,
    pub address: String,
    pub status: i32,
}

/// A request to update several properties of one device in a single call.
#[derive(Clone, Debug)]
pub struct SetRequest {
    pub device: String,
    pub brightness: Option<IntegerValueChange>,
    pub hue_saturation: Option<HueSaturation>,
    pub temperature: Option<IntegerValueChange>,
    pub color: Option<Color>,
    pub power: Option<bool>,
}

} // verus!
