//! Constants and wire models shared by the orchestrator and the devices.

use vstd::prelude::*;

verus! {

/// TCP port on which every sensor device listens.
pub const SENSOR_PORT: u16 = 42069;

/// Name of the request header that carries a pairing key.
pub const PAIR_HEADER_NAME: &'static str = "X-Pair-Id";

/// Body of every error reply: `{error: <message>}`.
#[derive(Debug, Clone)]
pub struct ErrorResponse {
    pub error: String,
}

/// Body of a successful key issuance: `{id}`.
#[derive(Debug, Clone)]
pub struct PairResponse {
    pub id: String,
}

/// Identity and capabilities of a sensor device.
#[derive(Debug, Clone)]
pub struct Sensor {
    pub name: String,
    pub location: String,
    pub features: u32,
}

/// Mathematical value of a [`Sensor`].
pub struct SensorView {
    pub name: Seq<char>,
    pub location: Seq<char>,
    pub features: u32,
}

impl View for Sensor {
    type V = SensorView;

    open spec fn view(&self) -> SensorView {
        SensorView { name: self.name@, location: self.location@, features: self.features }
    }
}

impl Default for Sensor {
    fn default() -> (s: Sensor)
        ensures
            s@ == (SensorView { name: Seq::empty(), location: Seq::empty(), features: 0 }),
    {
        Sensor { name: String::new(), location: String::new(), features: 0 }
    }
}

/// A partial update of a [`Sensor`]: absent fields leave the stored value.
#[derive(Debug, Clone)]
pub struct SensorDto {
    pub name: Option<String>,
    pub location: Option<String>,
    pub features: Option<u32>,
}

/// Mathematical value of a [`SensorDto`].
pub struct SensorDtoView {
    pub name: Option<Seq<char>>,
    pub location: Option<Seq<char>>,
    pub features: Option<u32>,
}

impl SensorDtoView {
    /// The sensor that results from applying this update to `sensor`.
    pub open spec fn merge(self, sensor: SensorView) -> SensorView {
        SensorView {
            name: match self.name {
                Some(n) => n,
                None => sensor.name,
            },
            location: match self.location {
                Some(l) => l,
                None => sensor.location,
            },
            features: match self.features {
                Some(f) => f,
                None => sensor.features,
            },
        }
    }
}

impl View for SensorDto {
    type V = SensorDtoView;

    open spec fn view(&self) -> SensorDtoView {
        SensorDtoView {
            name: match self.name {
                Some(n) => Some(n@),
                None => None,
            },
            location: match self.location {
                Some(l) => Some(l@),
                None => None,
            },
            features: self.features,
        }
    }
}

impl SensorDto {
    /// Applies the update to `sensor`: every field that is present replaces
    /// the stored one, every absent field keeps it.
    pub fn merge(self, sensor: Sensor) -> (merged: Sensor)
        ensures
            merged@ == self@.merge(sensor@),
    {
        let name = match self.name {
            Some(n) => n,
            None => sensor.name,
        };
        let location = match self.location {
            Some(l) => l,
            None => sensor.location,
        };
        let features = match self.features {
            Some(f) => f,
            None => sensor.features,
        };
        Sensor { name, location, features }
    }

    /// The update that sets every field to that of `sensor`.
    pub fn from_sensor(sensor: Sensor) -> (dto: SensorDto)
        ensures
            dto@ == (SensorDtoView {
                name: Some(sensor.name@),
                location: Some(sensor.location@),
                features: Some(sensor.features),
            }),
    {
        SensorDto {
            name: Some(sensor.name),
            location: Some(sensor.location),
            features: Some(sensor.features),
        }
    }
}

/// Flash and key-store occupancy of a device.
#[derive(Debug, Clone, Copy, PartialEq, Eq, Structural)]
pub struct StoreUsage {
    pub data_used: u32,
    pub data_total: u32,
    pub pair_used: u32,
    pub pair_total: u32,
}

impl Default for StoreUsage {
    fn default() -> (u: StoreUsage)
        ensures
            u == (StoreUsage { data_used: 0, data_total: 0, pair_used: 0, pair_total: 0 }),
    {
        StoreUsage { data_used: 0, data_total: 0, pair_used: 0, pair_total: 0 }
    }
}

/// Body of `GET /sensor`: identity plus pairing and usage status.
#[derive(Debug, Clone)]
pub struct SensorResponse {
    pub name: String,
    pub location: String,
    pub features: u32,
    pub pairing: bool,
    pub paired_keys: u32,
    pub usage: StoreUsage,
}

/// Mathematical value of a [`SensorResponse`].
pub struct SensorResponseView {
    pub name: Seq<char>,
    pub location: Seq<char>,
    pub features: u32,
    pub pairing: bool,
    pub paired_keys: u32,
    pub usage: StoreUsage,
}

impl View for SensorResponse {
    type V = SensorResponseView;

    open spec fn view(&self) -> SensorResponseView {
        SensorResponseView {
            name: self.name@,
            location: self.location@,
            features: self.features,
            pairing: self.pairing,
            paired_keys: self.paired_keys,
            usage: self.usage,
        }
    }
}

/// What a caller asks of the measurements: at most `count` of them, and
/// none older than `max_age`; each limit may be absent.
#[derive(Debug, Clone, Copy, PartialEq, Eq, Structural)]
pub struct MeasurementQuery {
    pub count: Option<u64>,
    pub max_age: Option<u64>,
}

impl MeasurementQuery {
    /// The number of measurements to send when `available` are at hand:
    /// all of them, or the `count` most recent ones if that is fewer.
    pub open spec fn granted(self, available: nat) -> nat {
        match self.count {
            Some(c) => if c < available {
                c as nat
            } else {
                available
            },
            None => available,
        }
    }

    /// A query without limits.
    pub fn all() -> (q: MeasurementQuery)
        ensures
            q == (MeasurementQuery { count: None, max_age: None }),
    {
        MeasurementQuery { count: None, max_age: None }
    }

    /// The number of measurements to send when `available` are at hand.
    pub fn take(&self, available: usize) -> (n: usize)
        ensures
            n == self.granted(available as nat),
            n <= available,
    {
        match self.count {
            Some(c) => if c < available as u64 {
                c as usize
            } else {
                available
            },
            None => available,
        }
    }
}

impl Sensor {
    /// The identity part of a device's status reply.
    pub fn from_response(response: SensorResponse) -> (s: Sensor)
        ensures
            s@ == (SensorView {
                name: response.name@,
                location: response.location@,
                features: response.features,
            }),
    {
        Sensor { name: response.name, location: response.location, features: response.features }
    }
}

} // verus!
