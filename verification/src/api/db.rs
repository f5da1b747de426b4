//! The rows that the orchestrator keeps about areas, sensors and the
//! polling schedule.

use vstd::prelude::*;
use crate::api::auth::Password;
use crate::api::auth::Token;
use crate::api::features::SensorFeatures;
use crate::api::models::NormalizedString;
use crate::api::models::User;
use crate::common::SensorResponse;

verus! {

/// A named area in which sensors stand.
#[derive(Debug)]
pub struct AreaEntity {
    pub id: i64,
    pub name: String,
}

impl Clone for AreaEntity {
    fn clone(&self) -> (r: AreaEntity)
        ensures
            r == *self,
    {
        AreaEntity { id: self.id, name: self.name.clone() }
    }
}

/// A sensor as the orchestrator knows it. `pair_id` is `None` until the
/// sensor is paired.
#[derive(Debug)]
pub struct SensorEntity {
    pub name: String,
    pub area: Option<AreaEntity>,
    pub features: SensorFeatures,
    pub host: String,
    pub pair_id: Option<String>,
}

impl Clone for SensorEntity {
    fn clone(&self) -> (r: SensorEntity)
        ensures
            r == *self,
    {
        SensorEntity {
            name: self.name.clone(),
            area: match &self.area {
                Some(a) => Some(a.clone()),
                None => None,
            },
            features: self.features,
            host: self.host.clone(),
            pair_id: match &self.pair_id {
                Some(p) => Some(p.clone()),
                None => None,
            },
        }
    }
}

impl SensorEntity {
    /// The sensor that answered a discovery probe at `host`: not paired,
    /// in no area, with the name and all feature bits that it reported.
    pub fn discovered(response: SensorResponse, host: String) -> (s: SensorEntity)
        ensures
            s.name == response.name,
            s.area.is_none(),
            s.features@ == response.features,
            s.host == host,
            s.pair_id.is_none(),
    {
        SensorEntity {
            name: response.name,
            area: None,
            features: SensorFeatures::from_bits_retain(response.features),
            host,
            pair_id: None,
        }
    }

    /// Completes a discovered sensor with what is stored about its host:
    /// the pairing key and the area of the stored sensor, or neither where
    /// nothing is stored.
    pub fn enrich(&mut self, known: Option<&SensorEntity>)
        ensures
            final(self).name == old(self).name,
            final(self).features == old(self).features,
            final(self).host == old(self).host,
            final(self).pair_id == (match known {
                Some(k) => k.pair_id,
                None => None,
            }),
            final(self).area == (match known {
                Some(k) => k.area,
                None => None,
            }),
    {
        match known {
            Some(k) => {
                let copy = k.clone();
                self.pair_id = copy.pair_id;
                self.area = copy.area;
            },
            None => {
                self.pair_id = None;
                self.area = None;
            },
        }
    }
}

impl Default for SensorEntity {
    fn default() -> (s: SensorEntity)
        ensures
            s.name@ == Seq::<char>::empty(),
            s.area.is_none(),
            s.features@ == 0,
            s.host@ == Seq::<char>::empty(),
            s.pair_id.is_none(),
    {
        SensorEntity {
            name: String::new(),
            area: None,
            features: SensorFeatures::empty(),
            host: String::new(),
            pair_id: None,
        }
    }
}

/// One cadence of the polling schedule: the sensors with these features
/// are polled every `interval_ms` milliseconds.
#[derive(Debug, Clone, Copy, PartialEq, Eq, Structural)]
pub struct DataScheduleEntry {
    pub features: SensorFeatures,
    pub interval_ms: u64,
}

/// A user as it is stored.
#[derive(Debug)]
pub struct UserEntity {
    pub id: i64,
    pub name: String,
    pub normalized_name: NormalizedString,
    pub password: Password,
}

impl UserEntity {
    /// The user as the pages show it.
    pub fn into_user(self) -> (u: User)
        ensures
            u.id == self.id,
            u.name == self.name,
    {
        User { id: self.id, name: self.name }
    }
}

impl Clone for UserEntity {
    fn clone(&self) -> (u: UserEntity)
        ensures
            u == *self,
    {
        UserEntity {
            id: self.id,
            name: self.name.clone(),
            normalized_name: self.normalized_name.clone(),
            password: self.password.clone(),
        }
    }
}

/// A session of a user as it is stored.
#[derive(Debug)]
pub struct UserSession {
    pub normalized_name: NormalizedString,
    pub token: Token,
}

impl Clone for UserSession {
    fn clone(&self) -> (s: UserSession)
        ensures
            s == *self,
    {
        UserSession { normalized_name: self.normalized_name.clone(), token: self.token.clone() }
    }
}

} // verus!
