//! Guests: authorizing a device, listing the authorizations, withdrawing them.

use crate::api::{first_or, site_endpoint, site_path, ApiCall, Method};
use crate::client::UniFiClient;
use crate::error::{api_error, UniFiError};
use crate::models::guests::{AuthorizeGuestRequest, GuestEntry, UnauthorizeGuestRequest};
use crate::text::lowercase;
use vstd::prelude::*;

verus! {

/// The MAC address that stands for no access point in particular.
pub const ANY_ACCESS_POINT: &'static str = "00:00:00:00:00:00";

/// The calls on the guests of a client's site.
#[derive(Debug)]
pub struct GuestHandler {
    pub client: UniFiClient,
}

impl GuestHandler {
    /// The guests of a client's site.
    pub fn new(client: UniFiClient) -> (handler: GuestHandler)
        ensures
            handler.client == client,
    {
        GuestHandler { client }
    }

    /// Starts the authorization of the device with that MAC address.
    pub fn authorize(&self, mac: &str) -> (builder: AuthorizeGuestBuilder)
        ensures
            builder.site@ == self.client@.site,
            builder.client_mac_address@ == mac@,
            builder.duration_minutes is None,
            builder.upload_speed_limit_kbps is None,
            builder.download_speed_limit_kbps is None,
            builder.data_quota_megabytes is None,
            builder.access_point_mac_address@ == ANY_ACCESS_POINT@,
            builder.captive_portal_timestamp == 0,
            builder.requested_url is None,
            builder.wifi_network@.len() == 0,
    {
        AuthorizeGuestBuilder::new(self.client.site().to_owned(), mac.to_owned())
    }

    /// Starts a listing of the authorizations.
    pub fn list(&self) -> (builder: ListGuestsBuilder)
        ensures
            builder.site@ == self.client@.site,
            builder.within_hours is None,
    {
        ListGuestsBuilder::new(self.client.site().to_owned())
    }

    /// Starts the withdrawal of the authorization of the device with that MAC
    /// address.
    pub fn unauthorize(&self, mac: &str) -> (builder: UnauthorizeGuestBuilder)
        ensures
            builder.site@ == self.client@.site,
            builder.mac@ == mac@,
    {
        UnauthorizeGuestBuilder::new(self.client.site().to_owned(), mac.to_owned())
    }

    /// Starts the withdrawal of all authorizations.
    pub fn unauthorize_all(&self) -> (builder: UnauthorizeAllGuestsBuilder)
        ensures
            builder.site@ == self.client@.site,
    {
        UnauthorizeAllGuestsBuilder::new(self.client.site().to_owned())
    }
}

/// An authorization in the making.
#[derive(Debug, Clone)]
pub struct AuthorizeGuestBuilder {
    pub site: String,
    pub client_mac_address: String,
    pub duration_minutes: Option<u32>,
    pub upload_speed_limit_kbps: Option<u32>,
    pub download_speed_limit_kbps: Option<u32>,
    pub data_quota_megabytes: Option<u64>,
    pub access_point_mac_address: String,
    pub captive_portal_timestamp: i64,
    pub requested_url: Option<String>,
    pub wifi_network: String,
}

impl AuthorizeGuestBuilder {
    /// Starts the authorization, on a site, of the device with that MAC
    /// address: no limits, and no access point in particular.
    pub fn new(site: String, client_mac_address: String) -> (builder: AuthorizeGuestBuilder)
        ensures
            builder.site == site,
            builder.client_mac_address == client_mac_address,
            builder.duration_minutes is None,
            builder.upload_speed_limit_kbps is None,
            builder.download_speed_limit_kbps is None,
            builder.data_quota_megabytes is None,
            builder.access_point_mac_address@ == ANY_ACCESS_POINT@,
            builder.captive_portal_timestamp == 0,
            builder.requested_url is None,
            builder.wifi_network@.len() == 0,
    {
        AuthorizeGuestBuilder {
            site,
            client_mac_address,
            duration_minutes: None,
            upload_speed_limit_kbps: None,
            download_speed_limit_kbps: None,
            data_quota_megabytes: None,
            access_point_mac_address: ANY_ACCESS_POINT.to_owned(),
            captive_portal_timestamp: 0,
            requested_url: None,
            wifi_network: String::new(),
        }
    }

    /// Sets the minutes until the authorization ends.
    pub fn duration_minutes(self, duration_minutes: u32) -> (builder: AuthorizeGuestBuilder)
        ensures
            builder == (AuthorizeGuestBuilder { duration_minutes: Some(duration_minutes), ..self }),
    {
        let mut builder = self;
        builder.duration_minutes = Some(duration_minutes);
        builder
    }

    /// Sets the upload limit in Kbps.
    pub fn upload_speed_limit_kbps(self, upload_speed_limit_kbps: u32) -> (builder:
        AuthorizeGuestBuilder)
        ensures
            builder == (AuthorizeGuestBuilder {
                upload_speed_limit_kbps: Some(upload_speed_limit_kbps),
                ..self
            }),
    {
        let mut builder = self;
        builder.upload_speed_limit_kbps = Some(upload_speed_limit_kbps);
        builder
    }

    /// Sets the download limit in Kbps.
    pub fn download_speed_limit_kbps(self, download_speed_limit_kbps: u32) -> (builder:
        AuthorizeGuestBuilder)
        ensures
            builder == (AuthorizeGuestBuilder {
                download_speed_limit_kbps: Some(download_speed_limit_kbps),
                ..self
            }),
    {
        let mut builder = self;
        builder.download_speed_limit_kbps = Some(download_speed_limit_kbps);
        builder
    }

    /// Sets the data quota in MB.
    pub fn data_quota_megabytes(self, data_quota_megabytes: u64) -> (builder: AuthorizeGuestBuilder)
        ensures
            builder == (AuthorizeGuestBuilder {
                data_quota_megabytes: Some(data_quota_megabytes),
                ..self
            }),
    {
        let mut builder = self;
        builder.data_quota_megabytes = Some(data_quota_megabytes);
        builder
    }

    /// Names the access point that the device is connected to.
    pub fn access_point_mac_address(self, access_point_mac_address: &str) -> (builder:
        AuthorizeGuestBuilder)
        ensures
            builder.access_point_mac_address@ == access_point_mac_address@,
            builder == (AuthorizeGuestBuilder {
                access_point_mac_address: builder.access_point_mac_address,
                ..self
            }),
    {
        let mut builder = self;
        builder.access_point_mac_address = access_point_mac_address.to_owned();
        builder
    }

    /// Notes when the captive portal was met, in seconds since the Unix epoch.
    pub fn captive_portal_timestamp(self, captive_portal_timestamp: i64) -> (builder:
        AuthorizeGuestBuilder)
        ensures
            builder == (AuthorizeGuestBuilder { captive_portal_timestamp, ..self }),
    {
        let mut builder = self;
        builder.captive_portal_timestamp = captive_portal_timestamp;
        builder
    }

    /// Notes the URL that the guest asked for.
    pub fn requested_url(self, requested_url: &str) -> (builder: AuthorizeGuestBuilder)
        ensures
            builder.requested_url matches Some(url) && url@ == requested_url@,
            builder == (AuthorizeGuestBuilder { requested_url: builder.requested_url, ..self }),
    {
        let mut builder = self;
        builder.requested_url = Some(requested_url.to_owned());
        builder
    }

    /// Notes the wireless network that the guest is on.
    pub fn wifi_network(self, wifi_network: &str) -> (builder: AuthorizeGuestBuilder)
        ensures
            builder.wifi_network@ == wifi_network@,
            builder == (AuthorizeGuestBuilder { wifi_network: builder.wifi_network, ..self }),
    {
        let mut builder = self;
        builder.wifi_network = wifi_network.to_owned();
        builder
    }

    /// The call that authorizes the guest: a POST of the command to the site's
    /// station manager.
    pub fn send(self) -> (call: ApiCall<AuthorizeGuestRequest>)
        ensures
            call.goes(Method::Post, site_path(self.site@, "/cmd/stamgr"@)),
            call.body matches Some(request) && request.cmd@ == "authorize-guest"@ && request.mac
                == self.client_mac_address && request.minutes == self.duration_minutes
                && request.up == self.upload_speed_limit_kbps && request.down
                == self.download_speed_limit_kbps && request.bytes == self.data_quota_megabytes
                && request.ap_mac == self.access_point_mac_address,
    {
        let endpoint = site_endpoint(self.site.as_str(), "/cmd/stamgr");
        let request = AuthorizeGuestRequest {
            cmd: "authorize-guest".to_owned(),
            mac: self.client_mac_address,
            minutes: self.duration_minutes,
            up: self.upload_speed_limit_kbps,
            down: self.download_speed_limit_kbps,
            bytes: self.data_quota_megabytes,
            ap_mac: self.access_point_mac_address,
        };
        ApiCall { method: Method::Post, endpoint, body: Some(request) }
    }

    /// The authorization that the controller made: the first that it answers
    /// with.
    pub fn received(entries: Vec<GuestEntry>) -> (entry: Result<GuestEntry, UniFiError>)
        ensures
            entries.len() > 0 ==> entry == Ok::<GuestEntry, UniFiError>(entries[0]),
            entries.len() == 0 ==> api_error(entry, "No authorize guest response received"@),
    {
        first_or(entries, "No authorize guest response received")
    }
}

/// What narrows a listing to the last hours.
#[derive(Debug, Clone, Copy)]
pub struct WithinHours {
    pub within: u32,
}

/// A listing in the making.
#[derive(Debug, Clone)]
pub struct ListGuestsBuilder {
    pub site: String,
    pub within_hours: Option<u32>,
}

impl ListGuestsBuilder {
    /// Starts a listing of all authorizations on a site.
    pub fn new(site: String) -> (builder: ListGuestsBuilder)
        ensures
            builder.site == site,
            builder.within_hours is None,
    {
        ListGuestsBuilder { site, within_hours: None }
    }

    /// Narrows the listing to the last `hours` hours.
    pub fn within_hours(self, hours: u32) -> (builder: ListGuestsBuilder)
        ensures
            builder == (ListGuestsBuilder { within_hours: Some(hours), ..self }),
    {
        let mut builder = self;
        builder.within_hours = Some(hours);
        builder
    }

    /// The call that lists the authorizations: a GET of the site's guests,
    /// with the hours as its body if the listing is narrowed.
    pub fn send(self) -> (call: ApiCall<WithinHours>)
        ensures
            call.goes(Method::Get, site_path(self.site@, "/stat/guest"@)),
            match self.within_hours {
                Some(hours) => call.body == Some(WithinHours { within: hours }),
                None => call.body is None,
            },
    {
        let endpoint = site_endpoint(self.site.as_str(), "/stat/guest");
        let body = match self.within_hours {
            Some(hours) => Some(WithinHours { within: hours }),
            None => None,
        };
        ApiCall { method: Method::Get, endpoint, body }
    }
}

/// A withdrawal in the making.
#[derive(Debug, Clone)]
pub struct UnauthorizeGuestBuilder {
    pub site: String,
    pub mac: String,
}

impl UnauthorizeGuestBuilder {
    /// Starts the withdrawal, on a site, of the authorization of the device
    /// with that MAC address.
    pub fn new(site: String, mac: String) -> (builder: UnauthorizeGuestBuilder)
        ensures
            builder.site == site,
            builder.mac == mac,
    {
        UnauthorizeGuestBuilder { site, mac }
    }

    /// The call that withdraws the authorization: a POST of the command, with
    /// the MAC address in lower case, to the site's station manager.
    pub fn send(self) -> (call: ApiCall<UnauthorizeGuestRequest>)
        ensures
            call.goes(Method::Post, site_path(self.site@, "/cmd/stamgr"@)),
            call.body matches Some(request) && request.cmd@ == "unauthorize-guest"@
                && request.mac@ == lowercase(self.mac@),
    {
        let endpoint = site_endpoint(self.site.as_str(), "/cmd/stamgr");
        let request = UnauthorizeGuestRequest::new(self.mac.as_str());
        ApiCall { method: Method::Post, endpoint, body: Some(request) }
    }
}

/// The withdrawal of all authorizations, in the making.
#[derive(Debug, Clone)]
pub struct UnauthorizeAllGuestsBuilder {
    pub site: String,
}

impl UnauthorizeAllGuestsBuilder {
    /// Starts the withdrawal of all authorizations on a site.
    pub fn new(site: String) -> (builder: UnauthorizeAllGuestsBuilder)
        ensures
            builder.site == site,
    {
        UnauthorizeAllGuestsBuilder { site }
    }

    /// The call that comes first: the listing of all authorizations.
    pub fn send(&self) -> (call: ApiCall<WithinHours>)
        ensures
            call.goes(Method::Get, site_path(self.site@, "/stat/guest"@)),
            call.body is None,
    {
        ListGuestsBuilder::new(self.site.clone()).send()
    }

    /// The calls that follow: one withdrawal for each authorization that the
    /// listing gave, in its order.
    pub fn withdrawals(&self, guests: &Vec<GuestEntry>) -> (calls: Vec<
        ApiCall<UnauthorizeGuestRequest>,
    >)
        ensures
            calls.len() == guests.len(),
            forall|i: int|
                0 <= i < guests.len() ==> {
                    &&& (#[trigger] calls[i]).goes(
                        Method::Post,
                        site_path(self.site@, "/cmd/stamgr"@),
                    )
                    &&& calls[i].body matches Some(request) && request.cmd@
                        == "unauthorize-guest"@ && request.mac@ == lowercase(guests[i].spec_mac())
                },
    {
        let mut calls: Vec<ApiCall<UnauthorizeGuestRequest>> = Vec::new();
        let mut at: usize = 0;
        while at < guests.len()
            invariant
                at <= guests.len(),
                calls.len() == at,
                forall|i: int|
                    0 <= i < at ==> {
                        &&& (#[trigger] calls[i]).goes(
                            Method::Post,
                            site_path(self.site@, "/cmd/stamgr"@),
                        )
                        &&& calls[i].body matches Some(request) && request.cmd@
                            == "unauthorize-guest"@ && request.mac@ == lowercase(
                            guests[i].spec_mac(),
                        )
                    },
            decreases guests.len() - at,
        {
            let builder = UnauthorizeGuestBuilder::new(
                self.site.clone(),
                guests[at].mac().to_owned(),
            );
            calls.push(builder.send());
            at = at + 1;
        }
        calls
    }
}

} // verus!
