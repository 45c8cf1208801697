//! Vouchers: making them, listing them, deleting them.

use crate::api::{first_or, site_endpoint, site_path, ApiCall, Method};
use crate::client::UniFiClient;
use crate::error::{api_error, UniFiError};
use crate::models::voucher::{
    count_required, CreateVoucherRequest, CreateVoucherResponse, Voucher, VoucherConfig,
};
use vstd::prelude::*;

verus! {

/// The body of the command that deletes a voucher.
#[derive(Debug)]
pub struct DeleteVoucherRequest {
    /// The command: `delete-voucher`.
    pub cmd: String,
    /// The identifier of the voucher.
    pub id: String,
}

/// What narrows a listing to the vouchers made at one time.
#[derive(Debug, Clone, Copy)]
pub struct CreatedAt {
    pub create_time: u64,
}

/// The calls on the vouchers of a client's site.
#[derive(Debug)]
pub struct VoucherApi<'a> {
    pub client: &'a UniFiClient,
}

impl<'a> VoucherApi<'a> {
    /// The vouchers of a client's site.
    pub fn new(client: &'a UniFiClient) -> (api: VoucherApi<'a>)
        ensures
            api.client == client,
    {
        VoucherApi { client }
    }

    /// The client whose site the calls are on.
    pub fn client(&self) -> (client: &UniFiClient)
        ensures
            client == self.client,
    {
        self.client
    }

    /// The call that makes vouchers as a configuration asks: a POST of the
    /// command to the site's hotspot. A configuration for no voucher is an
    /// `ApiError`.
    pub fn create(&self, config: VoucherConfig) -> (call: Result<
        ApiCall<CreateVoucherRequest>,
        UniFiError,
    >)
        ensures
            config.count > 0 ==> (call matches Ok(made) && made.goes(
                Method::Post,
                site_path(self.client@.site, "/cmd/hotspot"@),
            ) && (made.body matches Some(request) && request.spec_of(config))),
            config.count == 0 ==> api_error(call, count_required()),
    {
        let endpoint = site_endpoint(self.client.site(), "/cmd/hotspot");
        let request = CreateVoucherRequest::try_from(config)?;
        Ok(ApiCall { method: Method::Post, endpoint, body: Some(request) })
    }

    /// What the controller says of the vouchers it made: the first that it
    /// answers with.
    pub fn created(responses: Vec<CreateVoucherResponse>) -> (response: Result<
        CreateVoucherResponse,
        UniFiError,
    >)
        ensures
            responses.len() > 0 ==> response == Ok::<CreateVoucherResponse, UniFiError>(
                responses[0],
            ),
            responses.len() == 0 ==> api_error(response, "No create voucher response received"@),
    {
        first_or(responses, "No create voucher response received")
    }

    /// The call that deletes the voucher with that identifier: a POST of the
    /// command to the site's hotspot.
    pub fn delete(&self, voucher_id: &str) -> (call: ApiCall<DeleteVoucherRequest>)
        ensures
            call.goes(Method::Post, site_path(self.client@.site, "/cmd/hotspot"@)),
            call.body matches Some(request) && request.cmd@ == "delete-voucher"@ && request.id@
                == voucher_id@,
    {
        let endpoint = site_endpoint(self.client.site(), "/cmd/hotspot");
        let request = DeleteVoucherRequest {
            cmd: "delete-voucher".to_owned(),
            id: voucher_id.to_owned(),
        };
        ApiCall { method: Method::Post, endpoint, body: Some(request) }
    }

    /// The calls that delete all vouchers of a listing: one for each, in the
    /// listing's order.
    pub fn delete_all(&self, vouchers: &Vec<Voucher>) -> (calls: Vec<ApiCall<DeleteVoucherRequest>>)
        ensures
            calls.len() == vouchers.len(),
            forall|i: int|
                0 <= i < vouchers.len() ==> {
                    &&& (#[trigger] calls[i]).goes(
                        Method::Post,
                        site_path(self.client@.site, "/cmd/hotspot"@),
                    )
                    &&& calls[i].body matches Some(request) && request.cmd@ == "delete-voucher"@
                        && request.id@ == vouchers[i].id@
                },
    {
        let mut calls: Vec<ApiCall<DeleteVoucherRequest>> = Vec::new();
        let mut at: usize = 0;
        while at < vouchers.len()
            invariant
                at <= vouchers.len(),
                calls.len() == at,
                forall|i: int|
                    0 <= i < at ==> {
                        &&& (#[trigger] calls[i]).goes(
                            Method::Post,
                            site_path(self.client@.site, "/cmd/hotspot"@),
                        )
                        &&& calls[i].body matches Some(request) && request.cmd@
                            == "delete-voucher"@ && request.id@ == vouchers[i].id@
                    },
            decreases vouchers.len() - at,
        {
            calls.push(self.delete(vouchers[at].id.as_str()));
            at = at + 1;
        }
        calls
    }

    /// The call that lists the vouchers made at one time, in seconds since the
    /// Unix epoch: a GET of the site's vouchers, with the time as its body.
    pub fn get_by_create_time(&self, create_time: u64) -> (call: ApiCall<CreatedAt>)
        ensures
            call.goes(Method::Get, site_path(self.client@.site, "/stat/voucher"@)),
            call.body == Some(CreatedAt { create_time }),
    {
        let endpoint = site_endpoint(self.client.site(), "/stat/voucher");
        ApiCall { method: Method::Get, endpoint, body: Some(CreatedAt { create_time }) }
    }

    /// The call that lists all vouchers: a GET of the site's vouchers.
    pub fn list(&self) -> (call: ApiCall<CreatedAt>)
        ensures
            call.goes(Method::Get, site_path(self.client@.site, "/stat/voucher"@)),
            call.body is None,
    {
        let endpoint = site_endpoint(self.client.site(), "/stat/voucher");
        ApiCall { method: Method::Get, endpoint, body: None }
    }
}

} // verus!
