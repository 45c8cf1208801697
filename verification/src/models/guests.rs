//! Guest authorizations, as the controller's current API speaks of them.

use crate::text::{lowercase, str_to_lowercase};
use vstd::prelude::*;

verus! {

/// The body of the command that authorizes a guest.
#[derive(Debug, Clone)]
pub struct AuthorizeGuestRequest {
    /// The command: `authorize-guest`.
    pub cmd: String,
    /// The MAC address of the guest's device.
    pub mac: String,
    /// The minutes until the authorization ends.
    pub minutes: Option<u32>,
    /// The upload limit in Kbps.
    pub up: Option<u32>,
    /// The download limit in Kbps.
    pub down: Option<u32>,
    /// The data quota in MB.
    pub bytes: Option<u64>,
    /// The MAC address of the access point that the device is connected to.
    pub ap_mac: String,
}

/// A guest authorization, in one of the three shapes in which the controller
/// reports it.
#[derive(Debug, Clone)]
pub enum GuestEntry {
    /// An authorization in use.
    Active {
        id: String,
        authorized_by: String,
        end: i64,
        expired: bool,
        mac: String,
        site_id: String,
        start: i64,
        bytes: u64,
        rx_bytes: u64,
        tx_bytes: u64,
    },
    /// An authorization that is not in use, or has ended.
    Inactive {
        id: String,
        authorized_by: String,
        end: i64,
        expired: bool,
        mac: String,
        site_id: String,
        start: i64,
        unauthorized_by: Option<String>,
    },
    /// An authorization as the controller answers the command that made it.
    New { id: String, authorized_by: String, end: i64, mac: String, site_id: String, start: i64 },
}

impl GuestEntry {
    /// Who authorized the guest.
    pub open spec fn spec_authorized_by(&self) -> Seq<char> {
        match self {
            GuestEntry::Active { authorized_by, .. } => authorized_by@,
            GuestEntry::Inactive { authorized_by, .. } => authorized_by@,
            GuestEntry::New { authorized_by, .. } => authorized_by@,
        }
    }

    /// When the authorization ends, in seconds since the Unix epoch.
    pub open spec fn spec_expires_at(&self) -> i64 {
        match self {
            GuestEntry::Active { end, .. } => *end,
            GuestEntry::Inactive { end, .. } => *end,
            GuestEntry::New { end, .. } => *end,
        }
    }

    /// The identifier of the authorization.
    pub open spec fn spec_id(&self) -> Seq<char> {
        match self {
            GuestEntry::Active { id, .. } => id@,
            GuestEntry::Inactive { id, .. } => id@,
            GuestEntry::New { id, .. } => id@,
        }
    }

    /// Whether the authorization has ended: as the controller says, and never
    /// for one just made.
    pub open spec fn spec_is_expired(&self) -> bool {
        match self {
            GuestEntry::Active { expired, .. } => *expired,
            GuestEntry::Inactive { expired, .. } => *expired,
            GuestEntry::New { .. } => false,
        }
    }

    /// The MAC address of the guest's device.
    pub open spec fn spec_mac(&self) -> Seq<char> {
        match self {
            GuestEntry::Active { mac, .. } => mac@,
            GuestEntry::Inactive { mac, .. } => mac@,
            GuestEntry::New { mac, .. } => mac@,
        }
    }

    /// Whether somebody withdrew the authorization, which only an inactive one
    /// can tell.
    pub open spec fn spec_was_unauthorized(&self) -> bool {
        match self {
            GuestEntry::Active { .. } => false,
            GuestEntry::Inactive { unauthorized_by, .. } => unauthorized_by is Some,
            GuestEntry::New { .. } => false,
        }
    }

    /// Who authorized the guest.
    pub fn authorized_by(&self) -> (who: &str)
        ensures
            who@ == self.spec_authorized_by(),
    {
        match self {
            GuestEntry::Active { authorized_by, .. } => authorized_by.as_str(),
            GuestEntry::Inactive { authorized_by, .. } => authorized_by.as_str(),
            GuestEntry::New { authorized_by, .. } => authorized_by.as_str(),
        }
    }

    /// When the authorization ends, in seconds since the Unix epoch.
    pub fn expires_at(&self) -> (end: i64)
        ensures
            end == self.spec_expires_at(),
    {
        match self {
            GuestEntry::Active { end, .. } => *end,
            GuestEntry::Inactive { end, .. } => *end,
            GuestEntry::New { end, .. } => *end,
        }
    }

    /// The identifier of the authorization.
    pub fn id(&self) -> (id: &str)
        ensures
            id@ == self.spec_id(),
    {
        match self {
            GuestEntry::Active { id, .. } => id.as_str(),
            GuestEntry::Inactive { id, .. } => id.as_str(),
            GuestEntry::New { id, .. } => id.as_str(),
        }
    }

    /// Tells whether the authorization has ended.
    pub fn is_expired(&self) -> (expired: bool)
        ensures
            expired == self.spec_is_expired(),
    {
        match self {
            GuestEntry::Active { expired, .. } => *expired,
            GuestEntry::Inactive { expired, .. } => *expired,
            GuestEntry::New { .. } => false,
        }
    }

    /// The MAC address of the guest's device.
    pub fn mac(&self) -> (mac: &str)
        ensures
            mac@ == self.spec_mac(),
    {
        match self {
            GuestEntry::Active { mac, .. } => mac.as_str(),
            GuestEntry::Inactive { mac, .. } => mac.as_str(),
            GuestEntry::New { mac, .. } => mac.as_str(),
        }
    }

    /// Tells whether somebody withdrew the authorization.
    pub fn was_unauthorized(&self) -> (withdrawn: bool)
        ensures
            withdrawn == self.spec_was_unauthorized(),
    {
        match self {
            GuestEntry::Active { .. } => false,
            GuestEntry::Inactive { unauthorized_by, .. } => unauthorized_by.is_some(),
            GuestEntry::New { .. } => false,
        }
    }
}

/// The body of the command that withdraws a guest's authorization.
#[derive(Debug, Clone)]
pub struct UnauthorizeGuestRequest {
    /// The command: `unauthorize-guest`.
    pub cmd: String,
    /// The MAC address of the guest's device, in lower case.
    pub mac: String,
}

impl UnauthorizeGuestRequest {
    /// The command that withdraws the authorization of the device with that
    /// MAC address.
    pub fn new(mac: &str) -> (request: UnauthorizeGuestRequest)
        ensures
            request.cmd@ == "unauthorize-guest"@,
            request.mac@ == lowercase(mac@),
    {
        UnauthorizeGuestRequest {
            cmd: "unauthorize-guest".to_owned(),
            mac: str_to_lowercase(mac),
        }
    }
}

} // verus!
