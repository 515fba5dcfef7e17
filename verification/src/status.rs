//! The shared health status: a closed three-variant enumeration, its
//! single-byte encoding, and the cell through which the components share it.

use vstd::prelude::*;

verus! {

/// Overall device condition, written by the producers (connectivity
/// supervisor, telemetry fault detector, demonstration cycler) and read by the
/// indicator.
#[derive(Clone, Copy, PartialEq, Eq, Structural, Debug)]
pub enum DeviceStatus {
    Nominal,
    ConnectivityFault,
    TelemetryFault,
}

impl DeviceStatus {
    /// The single-byte encoding under which a status travels through the
    /// shared cell.
    pub open spec fn spec_encoding(self) -> u8 {
        match self {
            DeviceStatus::Nominal => 0u8,
            DeviceStatus::ConnectivityFault => 1u8,
            DeviceStatus::TelemetryFault => 2u8,
        }
    }

    pub fn encoding(&self) -> (raw: u8)
        ensures
            raw == self.spec_encoding(),
    {
        match self {
            DeviceStatus::Nominal => 0u8,
            DeviceStatus::ConnectivityFault => 1u8,
            DeviceStatus::TelemetryFault => 2u8,
        }
    }

    /// Total decode of a raw byte: the three valid encodings and nothing else.
    pub open spec fn spec_decode(raw: u8) -> Option<DeviceStatus> {
        if raw == 0 {
            Some(DeviceStatus::Nominal)
        } else if raw == 1 {
            Some(DeviceStatus::ConnectivityFault)
        } else if raw == 2 {
            Some(DeviceStatus::TelemetryFault)
        } else {
            None
        }
    }

    /// Decodes a raw byte read from the shared cell. An out-of-range value is
    /// reported as an error so that the caller can keep its last known good
    /// status; it is never mapped to a default variant.
    pub fn try_from(value: u8) -> (r: Result<DeviceStatus, &'static str>)
        ensures
            match r {
                Ok(s) => Self::spec_decode(value) == Some(s),
                Err(_) => Self::spec_decode(value) is None,
            },
    {
        match value {
            0u8 => Ok(DeviceStatus::Nominal),
            1u8 => Ok(DeviceStatus::ConnectivityFault),
            2u8 => Ok(DeviceStatus::TelemetryFault),
            _ => Err("Unknown status"),
        }
    }

    /// The fixed order in which the demonstration-tier health driver cycles
    /// the status.
    pub open spec fn spec_next_in_cycle(self) -> DeviceStatus {
        match self {
            DeviceStatus::Nominal => DeviceStatus::ConnectivityFault,
            DeviceStatus::ConnectivityFault => DeviceStatus::TelemetryFault,
            DeviceStatus::TelemetryFault => DeviceStatus::Nominal,
        }
    }

    pub fn next_in_cycle(&self) -> (n: DeviceStatus)
        ensures
            n == self.spec_next_in_cycle(),
    {
        match self {
            DeviceStatus::Nominal => DeviceStatus::ConnectivityFault,
            DeviceStatus::ConnectivityFault => DeviceStatus::TelemetryFault,
            DeviceStatus::TelemetryFault => DeviceStatus::Nominal,
        }
    }
}

/// Round-tripping a status through its byte encoding gives the status back,
/// and no two statuses share an encoding.
pub proof fn lemma_encoding_round_trip(s: DeviceStatus, t: DeviceStatus)
    ensures
        DeviceStatus::spec_decode(s.spec_encoding()) == Some(s),
        s.spec_encoding() == t.spec_encoding() ==> s == t,
{
}

/// The demonstration cycle stands still at no variant and visits every one:
/// three advances return to the start.
pub proof fn lemma_cycle_visits_every_variant(s: DeviceStatus)
    ensures
        s.spec_next_in_cycle() != s,
        s.spec_next_in_cycle().spec_next_in_cycle() != s,
        s.spec_next_in_cycle().spec_next_in_cycle().spec_next_in_cycle() == s,
{
}

/// The single shared health word. The embedding stores it in one atomic byte
/// with relaxed ordering (no other shared data depends on it); this type holds
/// the value itself, with the cell's write and read contracts.
pub struct HealthCell {
    raw: u8,
}

impl HealthCell {
    /// The byte the cell currently holds.
    pub closed spec fn spec_raw(&self) -> u8 {
        self.raw
    }

    /// A fresh cell reads as Nominal, the state at process start.
    pub fn new() -> (cell: HealthCell)
        ensures
            cell.spec_raw() == DeviceStatus::Nominal.spec_encoding(),
    {
        HealthCell { raw: 0 }
    }

    /// Total write: overwrites the prior value with a valid encoding.
    pub fn set(&mut self, status: DeviceStatus)
        ensures
            final(self).spec_raw() == status.spec_encoding(),
    {
        self.raw = status.encoding();
    }

    /// The raw byte, for callers that decode the channel themselves.
    pub fn raw(&self) -> (r: u8)
        ensures
            r == self.spec_raw(),
    {
        self.raw
    }

    /// Total read: decodes the stored byte, falling back to the caller's last
    /// known good status when the byte is out of range (possible only if a bug
    /// elsewhere wrote through the raw channel) — never to a default variant.
    pub fn get(&self, last_known: DeviceStatus) -> (s: DeviceStatus)
        ensures
            s == match DeviceStatus::spec_decode(self.spec_raw()) {
                Some(v) => v,
                None => last_known,
            },
    {
        match DeviceStatus::try_from(self.raw) {
            Ok(v) => v,
            Err(_) => last_known,
        }
    }
}

/// A cell written only through `set` always decodes, so `get` never needs its
/// fallback after a valid write.
pub proof fn lemma_set_then_get(cell: HealthCell, status: DeviceStatus)
    requires
        cell.spec_raw() == status.spec_encoding(),
    ensures
        DeviceStatus::spec_decode(cell.spec_raw()) == Some(status),
{
}

} // verus!
