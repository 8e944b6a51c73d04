//! The status of a reservation, as callers send it and as the storage holds it.

use vstd::prelude::*;
use vstd::std_specs::convert::FromSpecImpl;

verus! {

/// The status of a reservation. A reservation is created `Pending`; the only
/// transition is from `Pending` to `Confirmed`.
#[derive(Clone, Copy, Debug, PartialEq, Eq, Hash, Structural)]
pub enum ReservationStatus {
    Unknown,
    Pending,
    Confirmed,
    Blocked,
}

/// What happened to a reservation that a listener is told of.
#[derive(Clone, Copy, Debug, PartialEq, Eq, Hash, Structural)]
pub enum ReservationUpdateType {
    Unknown,
    Create,
    Update,
    Delete,
}

/// The status as the storage's `reservation_status` type holds it.
#[derive(Clone, Copy, Debug, PartialEq, Eq, Structural)]
pub enum RsvpStatus {
    Unknown,
    Pending,
    Confirmed,
    Blocked,
}

/// The status that the number `value` stands for, if any.
pub open spec fn status_of(value: int) -> Option<ReservationStatus> {
    if value == 0 {
        Some(ReservationStatus::Unknown)
    } else if value == 1 {
        Some(ReservationStatus::Pending)
    } else if value == 2 {
        Some(ReservationStatus::Confirmed)
    } else if value == 3 {
        Some(ReservationStatus::Blocked)
    } else {
        None
    }
}

/// The status that takes the place of `Unknown` in filters and queries:
/// `Pending`. Every other status number stands for itself.
pub open spec fn effective_status(value: i32) -> i32 {
    if value == 0 {
        1
    } else {
        value
    }
}

impl ReservationStatus {
    /// The number that stands for this status.
    pub open spec fn number(self) -> int {
        match self {
            ReservationStatus::Unknown => 0,
            ReservationStatus::Pending => 1,
            ReservationStatus::Confirmed => 2,
            ReservationStatus::Blocked => 3,
        }
    }

    /// The name of this status in the storage, in lower case.
    pub open spec fn name(self) -> Seq<char> {
        match self {
            ReservationStatus::Unknown => "unknown"@,
            ReservationStatus::Pending => "pending"@,
            ReservationStatus::Confirmed => "confirmed"@,
            ReservationStatus::Blocked => "blocked"@,
        }
    }

    /// The name of this status on the wire.
    pub open spec fn wire_name(self) -> Seq<char> {
        match self {
            ReservationStatus::Unknown => "RESERVATION_STATUS_UNKNOWN"@,
            ReservationStatus::Pending => "RESERVATION_STATUS_PENDING"@,
            ReservationStatus::Confirmed => "RESERVATION_STATUS_CONFIRMED"@,
            ReservationStatus::Blocked => "RESERVATION_STATUS_BLOCKED"@,
        }
    }

    pub fn from_i32(value: i32) -> (status: Option<ReservationStatus>)
        ensures
            status == status_of(value as int),
    {
        if value == 0 {
            Some(ReservationStatus::Unknown)
        } else if value == 1 {
            Some(ReservationStatus::Pending)
        } else if value == 2 {
            Some(ReservationStatus::Confirmed)
        } else if value == 3 {
            Some(ReservationStatus::Blocked)
        } else {
            None
        }
    }

    pub fn to_i32(&self) -> (value: i32)
        ensures
            value == self.number(),
            status_of(value as int) == Some(*self),
    {
        match self {
            ReservationStatus::Unknown => 0,
            ReservationStatus::Pending => 1,
            ReservationStatus::Confirmed => 2,
            ReservationStatus::Blocked => 3,
        }
    }

    pub fn as_str_name(&self) -> (name: &'static str)
        ensures
            name@ == self.wire_name(),
    {
        match self {
            ReservationStatus::Unknown => "RESERVATION_STATUS_UNKNOWN",
            ReservationStatus::Pending => "RESERVATION_STATUS_PENDING",
            ReservationStatus::Confirmed => "RESERVATION_STATUS_CONFIRMED",
            ReservationStatus::Blocked => "RESERVATION_STATUS_BLOCKED",
        }
    }

    /// The lower-case name under which the storage knows this status.
    pub fn as_str(&self) -> (name: &'static str)
        ensures
            name@ == self.name(),
    {
        match self {
            ReservationStatus::Unknown => "unknown",
            ReservationStatus::Pending => "pending",
            ReservationStatus::Confirmed => "confirmed",
            ReservationStatus::Blocked => "blocked",
        }
    }

    /// The lower-case name of this status, as an owned string.
    pub fn to_string(&self) -> (name: String)
        ensures
            name@ == self.name(),
    {
        self.as_str().to_owned()
    }
}

impl ReservationUpdateType {
    /// The name of this kind of update on the wire.
    pub open spec fn wire_name(self) -> Seq<char> {
        match self {
            ReservationUpdateType::Unknown => "RESERVATION_UPDATE_TYPE_UNKNOWN"@,
            ReservationUpdateType::Create => "RESERVATION_UPDATE_TYPE_CREATE"@,
            ReservationUpdateType::Update => "RESERVATION_UPDATE_TYPE_UPDATE"@,
            ReservationUpdateType::Delete => "RESERVATION_UPDATE_TYPE_DELETE"@,
        }
    }

    pub fn as_str_name(&self) -> (name: &'static str)
        ensures
            name@ == self.wire_name(),
    {
        match self {
            ReservationUpdateType::Unknown => "RESERVATION_UPDATE_TYPE_UNKNOWN",
            ReservationUpdateType::Create => "RESERVATION_UPDATE_TYPE_CREATE",
            ReservationUpdateType::Update => "RESERVATION_UPDATE_TYPE_UPDATE",
            ReservationUpdateType::Delete => "RESERVATION_UPDATE_TYPE_DELETE",
        }
    }
}

impl From<RsvpStatus> for ReservationStatus {
    fn from(status: RsvpStatus) -> (converted: ReservationStatus) {
        match status {
            RsvpStatus::Unknown => ReservationStatus::Unknown,
            RsvpStatus::Pending => ReservationStatus::Pending,
            RsvpStatus::Confirmed => ReservationStatus::Confirmed,
            RsvpStatus::Blocked => ReservationStatus::Blocked,
        }
    }
}

impl FromSpecImpl<RsvpStatus> for ReservationStatus {
    open spec fn obeys_from_spec() -> bool {
        true
    }

    open spec fn from_spec(status: RsvpStatus) -> ReservationStatus {
        match status {
            RsvpStatus::Unknown => ReservationStatus::Unknown,
            RsvpStatus::Pending => ReservationStatus::Pending,
            RsvpStatus::Confirmed => ReservationStatus::Confirmed,
            RsvpStatus::Blocked => ReservationStatus::Blocked,
        }
    }
}

} // verus!
