use vstd::prelude::*;
use crate::codec::{pairs_map, payload_entries, Message};
use crate::error::{FieldError, InvalidSceneError, InvalidStatus};
use crate::units::{Celsius, FieldValue, Percentage, Watt, WattHours};

verus! {

/// The scene the device reports for the ambient light.
#[derive(Debug, Clone, Copy, PartialEq, Eq, Structural)]
pub enum Scene {
    Day,
    Night,
    Dusk,
}

impl Scene {
    /// The scene a status code stands for.
    pub open spec fn of_code(s: Seq<char>) -> Option<Scene> {
        if s == seq!['0'] {
            Some(Scene::Day)
        } else if s == seq!['1'] {
            Some(Scene::Night)
        } else if s == seq!['2'] {
            Some(Scene::Dusk)
        } else {
            None
        }
    }

    /// Reads a scene code: `0` is day, `1` night and `2` dusk.
    pub fn from_code(s: &str) -> (r: Result<Scene, InvalidSceneError>)
        ensures
            match Scene::of_code(s@) {
                Some(sc) => r == Ok::<Scene, InvalidSceneError>(sc),
                None => r == Err::<Scene, InvalidSceneError>(InvalidSceneError),
            },
    {
        if s.unicode_len() != 1 {
            return Err(InvalidSceneError);
        }
        let c = s.get_char(0);
        assert(s@ =~= seq![c]);
        if c == '0' {
            Ok(Scene::Day)
        } else if c == '1' {
            Ok(Scene::Night)
        } else if c == '2' {
            Ok(Scene::Dusk)
        } else {
            Err(InvalidSceneError)
        }
    }

    pub open spec fn name(self) -> Seq<char> {
        match self {
            Scene::Day => "day"@,
            Scene::Night => "night"@,
            Scene::Dusk => "dusk"@,
        }
    }

    /// The scene's name in lower case.
    pub fn as_str(self) -> (r: &'static str)
        ensures
            r@ == self.name(),
    {
        match self {
            Scene::Day => "day",
            Scene::Night => "night",
            Scene::Dusk => "dusk",
        }
    }
}

impl FieldValue for Scene {
    open spec fn spec_parse(s: Seq<char>) -> Result<Scene, FieldError> {
        match Scene::of_code(s) {
            Some(sc) => Ok(sc),
            None => Err(FieldError::Scene(InvalidSceneError)),
        }
    }

    fn parse_text(s: &str) -> (r: Result<Scene, FieldError>) {
        match Scene::from_code(s) {
            Ok(sc) => Ok(sc),
            Err(e) => Err(FieldError::Scene(e)),
        }
    }
}

/// What reading the required field `name` of the mapping `m` as `T` gives.
pub open spec fn field_result<T: FieldValue>(m: Map<Seq<char>, Seq<char>>, name: &'static str) -> Result<T, InvalidStatus> {
    if !m.contains_key(name@) {
        Err(InvalidStatus::MissingField(name))
    } else {
        match T::spec_parse(m[name@]) {
            Ok(v) => Ok(v),
            Err(e) => Err(InvalidStatus::InvalidField(name, e)),
        }
    }
}

/// Reads the required field `name` of `message` as `T`.
pub fn field<T: FieldValue>(message: &Message, name: &'static str) -> (r: Result<T, InvalidStatus>)
    ensures
        r == field_result::<T>(message@, name),
{
    match message.get_value::<T>(name) {
        Ok(Some(v)) => Ok(v),
        Ok(None) => Err(InvalidStatus::MissingField(name)),
        Err(e) => Err(InvalidStatus::InvalidField(name, e)),
    }
}

/// The fields of a device-info status message.
#[derive(Debug, Clone, Copy, PartialEq, Eq, Structural)]
pub struct RawDeviceInfo {
    /// Solar 1: input status.
    pub p1: u8,
    /// Solar 2: input status.
    pub p2: u8,
    /// Solar 1: input power.
    pub w1: Watt,
    /// Solar 2: input power.
    pub w2: Watt,
    /// Battery charge.
    pub pe: Percentage,
    /// Output 1: state.
    pub o1: u8,
    /// Output 2: state.
    pub o2: u8,
    /// Discharge depth.
    pub discharge_depth: Percentage,
    /// Battery output threshold.
    pub lv: Watt,
    /// Scene.
    pub cj: Scene,
    /// Battery capacity.
    pub kn: WattHours,
    /// Output 1: power.
    pub g1: Watt,
    /// Output 2: power.
    pub g2: Watt,
    /// Minimum temperature.
    pub tl: Celsius,
    /// Maximum temperature.
    pub th: Celsius,
    /// Battery cell status.
    pub l0: u8,
}

/// The device-info record of a mapping: the fields are read in declaration order
/// and the first that is missing or does not parse is the error.
pub open spec fn raw_device_info_of(m: Map<Seq<char>, Seq<char>>) -> Result<RawDeviceInfo, InvalidStatus> {
    if field_result::<u8>(m, "p1") is Err {
        Err(field_result::<u8>(m, "p1")->Err_0)
    } else if field_result::<u8>(m, "p2") is Err {
        Err(field_result::<u8>(m, "p2")->Err_0)
    } else if field_result::<Watt>(m, "w1") is Err {
        Err(field_result::<Watt>(m, "w1")->Err_0)
    } else if field_result::<Watt>(m, "w2") is Err {
        Err(field_result::<Watt>(m, "w2")->Err_0)
    } else if field_result::<Percentage>(m, "pe") is Err {
        Err(field_result::<Percentage>(m, "pe")->Err_0)
    } else if field_result::<u8>(m, "o1") is Err {
        Err(field_result::<u8>(m, "o1")->Err_0)
    } else if field_result::<u8>(m, "o2") is Err {
        Err(field_result::<u8>(m, "o2")->Err_0)
    } else if field_result::<Percentage>(m, "do") is Err {
        Err(field_result::<Percentage>(m, "do")->Err_0)
    } else if field_result::<Watt>(m, "lv") is Err {
        Err(field_result::<Watt>(m, "lv")->Err_0)
    } else if field_result::<Scene>(m, "cj") is Err {
        Err(field_result::<Scene>(m, "cj")->Err_0)
    } else if field_result::<WattHours>(m, "kn") is Err {
        Err(field_result::<WattHours>(m, "kn")->Err_0)
    } else if field_result::<Watt>(m, "g1") is Err {
        Err(field_result::<Watt>(m, "g1")->Err_0)
    } else if field_result::<Watt>(m, "g2") is Err {
        Err(field_result::<Watt>(m, "g2")->Err_0)
    } else if field_result::<Celsius>(m, "tl") is Err {
        Err(field_result::<Celsius>(m, "tl")->Err_0)
    } else if field_result::<Celsius>(m, "th") is Err {
        Err(field_result::<Celsius>(m, "th")->Err_0)
    } else if field_result::<u8>(m, "l0") is Err {
        Err(field_result::<u8>(m, "l0")->Err_0)
    } else {
        Ok(RawDeviceInfo { p1: field_result::<u8>(m, "p1")->Ok_0, p2: field_result::<u8>(m, "p2")->Ok_0, w1: field_result::<Watt>(m, "w1")->Ok_0, w2: field_result::<Watt>(m, "w2")->Ok_0, pe: field_result::<Percentage>(m, "pe")->Ok_0, o1: field_result::<u8>(m, "o1")->Ok_0, o2: field_result::<u8>(m, "o2")->Ok_0, discharge_depth: field_result::<Percentage>(m, "do")->Ok_0, lv: field_result::<Watt>(m, "lv")->Ok_0, cj: field_result::<Scene>(m, "cj")->Ok_0, kn: field_result::<WattHours>(m, "kn")->Ok_0, g1: field_result::<Watt>(m, "g1")->Ok_0, g2: field_result::<Watt>(m, "g2")->Ok_0, tl: field_result::<Celsius>(m, "tl")->Ok_0, th: field_result::<Celsius>(m, "th")->Ok_0, l0: field_result::<u8>(m, "l0")->Ok_0 })
    }
}

impl RawDeviceInfo {
    /// Reads the device-info fields of a decoded status message.
    pub fn from_message(message: &Message) -> (r: Result<RawDeviceInfo, InvalidStatus>)
        ensures
            r == raw_device_info_of(message@),
    {
        let p1 = match field::<u8>(message, "p1") {
            Ok(v) => v,
            Err(e) => return Err(e),
        };
        let p2 = match field::<u8>(message, "p2") {
            Ok(v) => v,
            Err(e) => return Err(e),
        };
        let w1 = match field::<Watt>(message, "w1") {
            Ok(v) => v,
            Err(e) => return Err(e),
        };
        let w2 = match field::<Watt>(message, "w2") {
            Ok(v) => v,
            Err(e) => return Err(e),
        };
        let pe = match field::<Percentage>(message, "pe") {
            Ok(v) => v,
            Err(e) => return Err(e),
        };
        let o1 = match field::<u8>(message, "o1") {
            Ok(v) => v,
            Err(e) => return Err(e),
        };
        let o2 = match field::<u8>(message, "o2") {
            Ok(v) => v,
            Err(e) => return Err(e),
        };
        let discharge_depth = match field::<Percentage>(message, "do") {
            Ok(v) => v,
            Err(e) => return Err(e),
        };
        let lv = match field::<Watt>(message, "lv") {
            Ok(v) => v,
            Err(e) => return Err(e),
        };
        let cj = match field::<Scene>(message, "cj") {
            Ok(v) => v,
            Err(e) => return Err(e),
        };
        let kn = match field::<WattHours>(message, "kn") {
            Ok(v) => v,
            Err(e) => return Err(e),
        };
        let g1 = match field::<Watt>(message, "g1") {
            Ok(v) => v,
            Err(e) => return Err(e),
        };
        let g2 = match field::<Watt>(message, "g2") {
            Ok(v) => v,
            Err(e) => return Err(e),
        };
        let tl = match field::<Celsius>(message, "tl") {
            Ok(v) => v,
            Err(e) => return Err(e),
        };
        let th = match field::<Celsius>(message, "th") {
            Ok(v) => v,
            Err(e) => return Err(e),
        };
        let l0 = match field::<u8>(message, "l0") {
            Ok(v) => v,
            Err(e) => return Err(e),
        };
        Ok(RawDeviceInfo { p1, p2, w1, w2, pe, o1, o2, discharge_depth, lv, cj, kn, g1, g2, tl, th, l0 })
    }
}

/// What decoding a raw status payload as a device-info record gives, where `payload`
/// is the payload itself and `r` the outcome.
pub open spec fn decodes_to(payload: Vec<u8>, r: Result<RawDeviceInfo, InvalidStatus>) -> bool {
    match payload_entries(payload@) {
        None => r matches Err(InvalidStatus::InvalidFormat(b)) && b == payload,
        Some(p) => r == raw_device_info_of(pairs_map(p)),
    }
}

/// Decodes a raw status payload into a device-info record.
pub fn decode_status(payload: Vec<u8>) -> (r: Result<RawDeviceInfo, InvalidStatus>)
    ensures
        decodes_to(payload, r),
{
    match Message::parse(payload) {
        Ok(message) => RawDeviceInfo::from_message(&message),
        Err(e) => Err(e),
    }
}

/// A point in time, as nanoseconds since the Unix epoch.
#[derive(Debug, Default, Clone, Copy, PartialEq, Eq, Structural)]
pub struct Timestamp {
    pub nanos: u128,
}

impl Timestamp {
    /// Whole seconds since the Unix epoch.
    pub fn secs(self) -> (r: u128)
        ensures
            r == self.nanos / 1_000_000_000,
    {
        self.nanos / 1_000_000_000
    }
}

/// A value together with the time it was captured.
#[derive(Debug)]
pub struct Measurement<T> {
    pub time: Timestamp,
    pub data: Option<T>,
}

impl<T> Measurement<T> {
    /// A measurement of `data` captured at `time`.
    pub fn new(data: T, time: Timestamp) -> (r: Self)
        ensures
            r.time == time,
            r.data == Some(data),
    {
        Measurement { time, data: Some(data) }
    }
}

impl<T> Default for Measurement<T> {
    /// The empty measurement at the epoch, before anything was received.
    fn default() -> (r: Self)
        ensures
            r.time.nanos == 0,
            r.data is None,
    {
        Measurement { time: Timestamp { nanos: 0 }, data: None }
    }
}

/// Names the device and the topics it speaks on.
#[derive(Debug, Clone)]
pub struct DeviceOptions {
    pub ty: String,
    pub mac: String,
}

impl DeviceOptions {
    pub open spec fn spec_data_topic(&self) -> Seq<char> {
        "hame_energy/"@ + self.ty@ + "/device/"@ + self.mac@ + "/ctrl"@
    }

    pub open spec fn spec_control_topic(&self) -> Seq<char> {
        "hame_energy/"@ + self.ty@ + "/App/"@ + self.mac@ + "/ctrl"@
    }

    /// The topic the device publishes its status on.
    pub fn data_topic(&self) -> (r: String)
        ensures
            r@ == self.spec_data_topic(),
    {
        let mut r = String::from_str("hame_energy/");
        r.append(self.ty.as_str());
        r.append("/device/");
        r.append(self.mac.as_str());
        r.append("/ctrl");
        r
    }

    /// The topic the device takes commands on.
    pub fn control_topic(&self) -> (r: String)
        ensures
            r@ == self.spec_control_topic(),
    {
        let mut r = String::from_str("hame_energy/");
        r.append(self.ty.as_str());
        r.append("/App/");
        r.append(self.mac.as_str());
        r.append("/ctrl");
        r
    }
}

/// One solar input.
#[derive(Debug, Clone, Copy, PartialEq, Eq, Structural)]
pub struct SolarInfo {
    pub charging: bool,
    pub pass_through: bool,
    pub power: Watt,
}

/// One output.
#[derive(Debug, Clone, Copy, PartialEq, Eq, Structural)]
pub struct OutputInfo {
    pub power: Watt,
    pub active: bool,
}

#[derive(Debug, Clone, Copy, PartialEq, Eq, Structural)]
pub struct TemperatureInfo {
    pub min: Celsius,
    pub max: Celsius,
}

#[derive(Debug, Clone, Copy, PartialEq, Eq, Structural)]
pub struct BatteryInfo {
    pub charge: Percentage,
    pub capacity: WattHours,
    pub output_threshold: Watt,
    pub discharge_depth: Percentage,
    pub internal: BatteryCellInfo,
}

/// The status flags of the internal battery cell.
#[derive(Debug, Clone, Copy, PartialEq, Eq, Structural)]
pub struct BatteryCellInfo {
    pub charging: bool,
    pub discharging: bool,
    pub discharge_depth: bool,
    pub undervoltage: bool,
}

/// A decoded, timestamped status of the device.
#[derive(Debug, Clone, Copy, PartialEq, Eq, Structural)]
pub struct DeviceInfo {
    pub timestamp: Timestamp,
    pub solar1: SolarInfo,
    pub solar2: SolarInfo,
    pub output1: OutputInfo,
    pub output2: OutputInfo,
    pub temperature: TemperatureInfo,
    pub battery: BatteryInfo,
    pub scene: Scene,
}

/// Bit `n` of the status byte `b`.
pub open spec fn bit_of(b: u8, n: u8) -> bool {
    (b >> n) & 1 == 1
}

/// Reads bit `n` of the status byte `b`.
pub fn bit(b: u8, n: u8) -> (r: bool)
    requires
        n < 8,
    ensures
        r == bit_of(b, n),
{
    (b >> n) & 1 == 1
}

/// The snapshot that a device-info record captured at `timestamp` stands for.
pub open spec fn device_info_of(v: RawDeviceInfo, timestamp: Timestamp) -> DeviceInfo {
    DeviceInfo {
        timestamp,
        solar1: SolarInfo { charging: bit_of(v.p1, 0), pass_through: bit_of(v.p1, 1), power: v.w1 },
        solar2: SolarInfo { charging: bit_of(v.p2, 0), pass_through: bit_of(v.p2, 1), power: v.w2 },
        output1: OutputInfo { power: v.g1, active: bit_of(v.o1, 0) },
        output2: OutputInfo { power: v.g2, active: bit_of(v.o2, 0) },
        temperature: TemperatureInfo { min: v.tl, max: v.th },
        battery: BatteryInfo {
            charge: v.pe,
            capacity: v.kn,
            output_threshold: v.lv,
            discharge_depth: v.discharge_depth,
            internal: BatteryCellInfo {
                charging: bit_of(v.l0, 0),
                discharging: bit_of(v.l0, 1),
                discharge_depth: bit_of(v.l0, 2),
                undervoltage: bit_of(v.l0, 3),
            },
        },
        scene: v.cj,
    }
}

impl DeviceInfo {
    /// The snapshot of a device-info record captured at `timestamp`.
    pub fn from_raw(value: &RawDeviceInfo, timestamp: Timestamp) -> (r: DeviceInfo)
        ensures
            r == device_info_of(*value, timestamp),
    {
        DeviceInfo {
            timestamp,
            solar1: SolarInfo { charging: bit(value.p1, 0), pass_through: bit(value.p1, 1), power: value.w1 },
            solar2: SolarInfo { charging: bit(value.p2, 0), pass_through: bit(value.p2, 1), power: value.w2 },
            output1: OutputInfo { power: value.g1, active: bit(value.o1, 0) },
            output2: OutputInfo { power: value.g2, active: bit(value.o2, 0) },
            temperature: TemperatureInfo { min: value.tl, max: value.th },
            battery: BatteryInfo {
                charge: value.pe,
                capacity: value.kn,
                output_threshold: value.lv,
                discharge_depth: value.discharge_depth,
                internal: BatteryCellInfo {
                    charging: bit(value.l0, 0),
                    discharging: bit(value.l0, 1),
                    discharge_depth: bit(value.l0, 2),
                    undervoltage: bit(value.l0, 3),
                },
            },
            scene: value.cj,
        }
    }

    /// The snapshot of a received measurement.
    pub fn from_measurement(value: &Measurement<RawDeviceInfo>) -> (r: DeviceInfo)
        requires
            value.data is Some,
        ensures
            r == device_info_of(value.data->Some_0, value.time),
    {
        let raw = value.data.unwrap();
        DeviceInfo::from_raw(&raw, value.time)
    }
}

} // verus!
