//! Guests, in the short words of the first API: `duration`, `up`, `down`,
//! `data_quota`, `ap_mac`, `within`.

use crate::api::guests::WithinHours;
use crate::api::{first_or, site_endpoint, site_path, ApiCall, Method};
use crate::client::UniFiClient;
use crate::error::{api_error, UniFiError};
use crate::models::guest::{AuthorizeGuestRequest, GuestEntry, UnauthorizeGuestRequest};
use crate::text::lowercase;
use vstd::prelude::*;

verus! {

/// The calls on the guests of a client's site.
#[derive(Debug)]
pub struct GuestHandler {
    pub client: UniFiClient,
}

impl GuestHandler {
    /// The guests of a client's site.
    pub fn new(client: UniFiClient) -> (handler: GuestHandler)
        ensures
            handler.client == client,
    {
        GuestHandler { client }
    }

    /// Starts the authorization of the device with that MAC address.
    pub fn authorize(&self, mac: &str) -> (builder: AuthorizeGuestBuilder)
        ensures
            builder.site@ == self.client@.site,
            builder.mac@ == mac@,
            builder.duration is None,
            builder.up is None,
            builder.down is None,
            builder.data_quota is None,
            builder.ap_mac is None,
    {
        AuthorizeGuestBuilder::new(self.client.site().to_owned(), mac.to_owned())
    }

    /// Starts a listing of the authorizations.
    pub fn list(&self) -> (builder: ListGuestsBuilder)
        ensures
            builder.site@ == self.client@.site,
            builder.within is None,
    {
        ListGuestsBuilder::new(self.client.site().to_owned())
    }

    /// Starts the withdrawal of the authorization of the device with that MAC
    /// address.
    pub fn unauthorize(&self, mac: &str) -> (builder: UnauthorizeGuestBuilder)
        ensures
            builder.site@ == self.client@.site,
            builder.mac@ == mac@,
    {
        UnauthorizeGuestBuilder::new(self.client.site().to_owned(), mac.to_owned())
    }

    /// Starts the withdrawal of all authorizations.
    pub fn unauthorize_all(&self) -> (builder: UnauthorizeAllGuestsBuilder)
        ensures
            builder.site@ == self.client@.site,
    {
        UnauthorizeAllGuestsBuilder::new(self.client.site().to_owned())
    }
}

/// An authorization in the making.
#[derive(Debug, Clone)]
pub struct AuthorizeGuestBuilder {
    pub site: String,
    pub mac: String,
    pub duration: Option<u32>,
    pub up: Option<u32>,
    pub down: Option<u32>,
    pub data_quota: Option<u64>,
    pub ap_mac: Option<String>,
}

impl AuthorizeGuestBuilder {
    /// Starts the authorization, on a site, of the device with that MAC
    /// address: no limits, and no access point.
    pub fn new(site: String, mac: String) -> (builder: AuthorizeGuestBuilder)
        ensures
            builder.site == site,
            builder.mac == mac,
            builder.duration is None,
            builder.up is None,
            builder.down is None,
            builder.data_quota is None,
            builder.ap_mac is None,
    {
        AuthorizeGuestBuilder {
            site,
            mac,
            duration: None,
            up: None,
            down: None,
            data_quota: None,
            ap_mac: None,
        }
    }

    /// Sets the minutes until the authorization ends.
    pub fn duration(self, duration: u32) -> (builder: AuthorizeGuestBuilder)
        ensures
            builder == (AuthorizeGuestBuilder { duration: Some(duration), ..self }),
    {
        let mut builder = self;
        builder.duration = Some(duration);
        builder
    }

    /// Sets the upload limit in Kbps.
    pub fn up(self, up: u32) -> (builder: AuthorizeGuestBuilder)
        ensures
            builder == (AuthorizeGuestBuilder { up: Some(up), ..self }),
    {
        let mut builder = self;
        builder.up = Some(up);
        builder
    }

    /// Sets the download limit in Kbps.
    pub fn down(self, down: u32) -> (builder: AuthorizeGuestBuilder)
        ensures
            builder == (AuthorizeGuestBuilder { down: Some(down), ..self }),
    {
        let mut builder = self;
        builder.down = Some(down);
        builder
    }

    /// Sets the data quota in MB.
    pub fn data_quota(self, data_quota: u64) -> (builder: AuthorizeGuestBuilder)
        ensures
            builder == (AuthorizeGuestBuilder { data_quota: Some(data_quota), ..self }),
    {
        let mut builder = self;
        builder.data_quota = Some(data_quota);
        builder
    }

    /// Names the access point that the device is connected to.
    pub fn ap_mac(self, ap_mac: &str) -> (builder: AuthorizeGuestBuilder)
        ensures
            builder.ap_mac matches Some(set) && set@ == ap_mac@,
            builder == (AuthorizeGuestBuilder { ap_mac: builder.ap_mac, ..self }),
    {
        let mut builder = self;
        builder.ap_mac = Some(ap_mac.to_owned());
        builder
    }

    /// The call that authorizes the guest: a POST of the command to the site's
    /// station manager.
    pub fn send(self) -> (call: ApiCall<AuthorizeGuestRequest>)
        ensures
            call.goes(Method::Post, site_path(self.site@, "/cmd/stamgr"@)),
            call.body matches Some(request) && request.cmd@ == "authorize-guest"@ && request.mac
                == self.mac && request.minutes == self.duration && request.up == self.up
                && request.down == self.down && request.bytes == self.data_quota && request.ap_mac
                == self.ap_mac,
    {
        let endpoint = site_endpoint(self.site.as_str(), "/cmd/stamgr");
        let request = AuthorizeGuestRequest {
            cmd: "authorize-guest".to_owned(),
            mac: self.mac,
            minutes: self.duration,
            up: self.up,
            down: self.down,
            bytes: self.data_quota,
            ap_mac: self.ap_mac,
        };
        ApiCall { method: Method::Post, endpoint, body: Some(request) }
    }

    /// The authorization that the controller made: the first that it answers
    /// with.
    pub fn received(entries: Vec<GuestEntry>) -> (entry: Result<GuestEntry, UniFiError>)
        ensures
            entries.len() > 0 ==> entry == Ok::<GuestEntry, UniFiError>(entries[0]),
            entries.len() == 0 ==> api_error(entry, "No authorize guest response received"@),
    {
        first_or(entries, "No authorize guest response received")
    }
}

/// A listing in the making.
#[derive(Debug, Clone)]
pub struct ListGuestsBuilder {
    pub site: String,
    pub within: Option<u32>,
}

impl ListGuestsBuilder {
    /// Starts a listing of all authorizations on a site.
    pub fn new(site: String) -> (builder: ListGuestsBuilder)
        ensures
            builder.site == site,
            builder.within is None,
    {
        ListGuestsBuilder { site, within: None }
    }

    /// Narrows the listing to the last `within` hours.
    pub fn within(self, within: u32) -> (builder: ListGuestsBuilder)
        ensures
            builder == (ListGuestsBuilder { within: Some(within), ..self }),
    {
        let mut builder = self;
        builder.within = Some(within);
        builder
    }

    /// The call that lists the authorizations: a GET of the site's guests,
    /// with the hours as its body if the listing is narrowed.
    pub fn send(self) -> (call: ApiCall<WithinHours>)
        ensures
            call.goes(Method::Get, site_path(self.site@, "/stat/guest"@)),
            match self.within {
                Some(hours) => call.body == Some(WithinHours { within: hours }),
                None => call.body is None,
            },
    {
        let endpoint = site_endpoint(self.site.as_str(), "/stat/guest");
        let body = match self.within {
            Some(hours) => Some(WithinHours { within: hours }),
            None => None,
        };
        ApiCall { method: Method::Get, endpoint, body }
    }
}

/// A withdrawal in the making.
#[derive(Debug, Clone)]
pub struct UnauthorizeGuestBuilder {
    pub site: String,
    pub mac: String,
}

impl UnauthorizeGuestBuilder {
    /// Starts the withdrawal, on a site, of the authorization of the device
    /// with that MAC address.
    pub fn new(site: String, mac: String) -> (builder: UnauthorizeGuestBuilder)
        ensures
            builder.site == site,
            builder.mac == mac,
    {
        UnauthorizeGuestBuilder { site, mac }
    }

    /// The call that withdraws the authorization: a POST of the command, with
    /// the MAC address in lower case, to the site's station manager.
    pub fn send(self) -> (call: ApiCall<UnauthorizeGuestRequest>)
        ensures
            call.goes(Method::Post, site_path(self.site@, "/cmd/stamgr"@)),
            call.body matches Some(request) && request.cmd@ == "unauthorize-guest"@
                && request.mac@ == lowercase(self.mac@),
    {
        let endpoint = site_endpoint(self.site.as_str(), "/cmd/stamgr");
        let request = UnauthorizeGuestRequest::new(self.mac.as_str());
        ApiCall { method: Method::Post, endpoint, body: Some(request) }
    }
}

/// The withdrawal of all authorizations, in the making.
#[derive(Debug, Clone)]
pub struct UnauthorizeAllGuestsBuilder {
    pub site: String,
}

impl UnauthorizeAllGuestsBuilder {
    /// Starts the withdrawal of all authorizations on a site.
    pub fn new(site: String) -> (builder: UnauthorizeAllGuestsBuilder)
        ensures
            builder.site == site,
    {
        UnauthorizeAllGuestsBuilder { site }
    }

    /// The call that comes first: the listing of all authorizations.
    pub fn send(&self) -> (call: ApiCall<WithinHours>)
        ensures
            call.goes(Method::Get, site_path(self.site@, "/stat/guest"@)),
            call.body is None,
    {
        ListGuestsBuilder::new(self.site.clone()).send()
    }

    /// The calls that follow: one withdrawal for each authorization that the
    /// listing gave, in its order.
    pub fn withdrawals(&self, guests: &Vec<GuestEntry>) -> (calls: Vec<
        ApiCall<UnauthorizeGuestRequest>,
    >)
        ensures
            calls.len() == guests.len(),
            forall|i: int|
                0 <= i < guests.len() ==> {
                    &&& (#[trigger] calls[i]).goes(
                        Method::Post,
                        site_path(self.site@, "/cmd/stamgr"@),
                    )
                    &&& calls[i].body matches Some(request) && request.cmd@
                        == "unauthorize-guest"@ && request.mac@ == lowercase(guests[i].spec_mac())
                },
    {
        let mut calls: Vec<ApiCall<UnauthorizeGuestRequest>> = Vec::new();
        let mut at: usize = 0;
        while at < guests.len()
            invariant
                at <= guests.len(),
                calls.len() == at,
                forall|i: int|
                    0 <= i < at ==> {
                        &&& (#[trigger] calls[i]).goes(
                            Method::Post,
                            site_path(self.site@, "/cmd/stamgr"@),
                        )
                        &&& calls[i].body matches Some(request) && request.cmd@
                            == "unauthorize-guest"@ && request.mac@ == lowercase(
                            guests[i].spec_mac(),
                        )
                    },
            decreases guests.len() - at,
        {
            let builder = UnauthorizeGuestBuilder::new(
                self.site.clone(),
                guests[at].mac().to_owned(),
            );
            calls.push(builder.send());
            at = at + 1;
        }
        calls
    }
}

} // verus!
