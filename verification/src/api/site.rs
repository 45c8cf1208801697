//! Sites: listing them, finding one, making, changing and deleting one.

use crate::api::{first_or, site_endpoint, site_path, ApiCall, Method};
use crate::client::{ClientView, UniFiClient};
use crate::error::{api_error, site_not_found, UniFiError};
use crate::models::site::Site;
use crate::text::same_text;
use vstd::prelude::*;

verus! {

/// The endpoint that lists the sites.
pub const SITES_ENDPOINT: &'static str = "/api/self/sites";

/// The endpoint that takes the commands on sites.
pub const SITE_MANAGER_ENDPOINT: &'static str = "/api/s/default/cmd/sitemgr";

/// The body of a command on sites.
#[derive(Debug)]
pub struct SiteCommand {
    /// The command: `add-site`, `update-site` or `delete-site`.
    pub cmd: String,
    /// The name of the site to make.
    pub name: Option<String>,
    /// The identifier of the site to change or delete.
    pub site_id: Option<String>,
    /// The description to give the site.
    pub desc: Option<String>,
}

impl SiteCommand {
    /// Whether the command is the named one, with these words.
    pub open spec fn says(
        &self,
        cmd: Seq<char>,
        name: Option<Seq<char>>,
        site_id: Option<Seq<char>>,
        desc: Option<Seq<char>>,
    ) -> bool {
        &&& self.cmd@ == cmd
        &&& match self.name {
            Some(text) => name == Some(text@),
            None => name is None,
        }
        &&& match self.site_id {
            Some(text) => site_id == Some(text@),
            None => site_id is None,
        }
        &&& match self.desc {
            Some(text) => desc == Some(text@),
            None => desc is None,
        }
    }
}

/// The place of the first site with that identifier, or the number of sites if
/// none has it.
pub open spec fn place_by_id(sites: Seq<Site>, site_id: Seq<char>) -> int
    decreases sites.len(),
{
    if sites.len() == 0 || sites[0].id@ == site_id {
        0
    } else {
        1 + place_by_id(sites.skip(1), site_id)
    }
}

/// The place of the first site with that name or that description, or the
/// number of sites if none has it.
pub open spec fn place_by_name(sites: Seq<Site>, name: Seq<char>) -> int
    decreases sites.len(),
{
    if sites.len() == 0 || sites[0].name@ == name || sites[0].desc@ == name {
        0
    } else {
        1 + place_by_name(sites.skip(1), name)
    }
}

/// The calls on the sites of a client's controller.
#[derive(Debug)]
pub struct SiteApi<'a> {
    pub client: &'a UniFiClient,
}

impl<'a> SiteApi<'a> {
    /// The sites of a client's controller.
    pub fn new(client: &'a UniFiClient) -> (api: SiteApi<'a>)
        ensures
            api.client == client,
    {
        SiteApi { client }
    }

    /// The client whose controller the calls are on.
    pub fn client(&self) -> (client: &UniFiClient)
        ensures
            client == self.client,
    {
        self.client
    }

    /// The call that lists the sites.
    pub fn list(&self) -> (call: ApiCall<SiteCommand>)
        ensures
            call.goes(Method::Get, SITES_ENDPOINT@),
            call.body is None,
    {
        ApiCall { method: Method::Get, endpoint: SITES_ENDPOINT.to_owned(), body: None }
    }

    /// The first site of a listing that has that identifier, or `SiteNotFound`.
    pub fn get(sites: Vec<Site>, site_id: &str) -> (site: Result<Site, UniFiError>)
        ensures
            0 <= place_by_id(sites@, site_id@) <= sites.len(),
            place_by_id(sites@, site_id@) < sites.len() ==> site == Ok::<Site, UniFiError>(
                sites[place_by_id(sites@, site_id@)],
            ),
            place_by_id(sites@, site_id@) == sites.len() ==> site_not_found(site, site_id@),
    {
        let mut listing = sites;
        let ghost all = sites@;
        let mut at: usize = 0;
        proof {
            assert(all.skip(0) == all);
            lemma_place_by_id(all, site_id@);
        }
        while at < listing.len()
            invariant
                sites@ == all,
                listing@ == all,
                at <= all.len(),
                place_by_id(all, site_id@) == at + place_by_id(all.skip(at as int), site_id@),
            decreases listing.len() - at,
        {
            proof {
                assert(all.skip(at as int).skip(1) == all.skip(at + 1));
            }
            if same_text(listing[at].id.as_str(), site_id) {
                return Ok(listing.swap_remove(at));
            }
            at = at + 1;
        }
        Err(UniFiError::SiteNotFound(site_id.to_owned()))
    }

    /// The first site of a listing that has that name or that description, or
    /// `SiteNotFound`.
    pub fn get_by_name(sites: Vec<Site>, name: &str) -> (site: Result<Site, UniFiError>)
        ensures
            0 <= place_by_name(sites@, name@) <= sites.len(),
            place_by_name(sites@, name@) < sites.len() ==> site == Ok::<Site, UniFiError>(
                sites[place_by_name(sites@, name@)],
            ),
            place_by_name(sites@, name@) == sites.len() ==> site_not_found(site, name@),
    {
        let mut listing = sites;
        let ghost all = sites@;
        let mut at: usize = 0;
        proof {
            assert(all.skip(0) == all);
            lemma_place_by_name(all, name@);
        }
        while at < listing.len()
            invariant
                sites@ == all,
                listing@ == all,
                at <= all.len(),
                place_by_name(all, name@) == at + place_by_name(all.skip(at as int), name@),
            decreases listing.len() - at,
        {
            proof {
                assert(all.skip(at as int).skip(1) == all.skip(at + 1));
            }
            if same_text(listing[at].name.as_str(), name) || same_text(
                listing[at].desc.as_str(),
                name,
            ) {
                return Ok(listing.swap_remove(at));
            }
            at = at + 1;
        }
        Err(UniFiError::SiteNotFound(name.to_owned()))
    }

    /// The call that makes a site. The controller does not answer with the
    /// site: it is found by `get_by_name` in a listing made afterwards.
    pub fn create(&self, name: &str, description: &str) -> (call: ApiCall<SiteCommand>)
        ensures
            call.goes(Method::Post, SITE_MANAGER_ENDPOINT@),
            call.body matches Some(command) && command.says(
                "add-site"@,
                Some(name@),
                None,
                Some(description@),
            ),
    {
        ApiCall {
            method: Method::Post,
            endpoint: SITE_MANAGER_ENDPOINT.to_owned(),
            body: Some(
                SiteCommand {
                    cmd: "add-site".to_owned(),
                    name: Some(name.to_owned()),
                    site_id: None,
                    desc: Some(description.to_owned()),
                },
            ),
        }
    }

    /// The call that gives a site another description, once the site is known
    /// to be in a listing: `SiteNotFound` if it is not. The controller does not
    /// answer with the site: it is found by `get` in a listing made afterwards.
    pub fn update(&self, sites: Vec<Site>, site_id: &str, description: &str) -> (call: Result<
        ApiCall<SiteCommand>,
        UniFiError,
    >)
        ensures
            place_by_id(sites@, site_id@) < sites.len() ==> (call matches Ok(made) && made.goes(
                Method::Post,
                SITE_MANAGER_ENDPOINT@,
            ) && (made.body matches Some(command) && command.says(
                "update-site"@,
                None,
                Some(site_id@),
                Some(description@),
            ))),
            place_by_id(sites@, site_id@) >= sites.len() ==> site_not_found(call, site_id@),
    {
        let _ = Self::get(sites, site_id)?;
        Ok(
            ApiCall {
                method: Method::Post,
                endpoint: SITE_MANAGER_ENDPOINT.to_owned(),
                body: Some(
                    SiteCommand {
                        cmd: "update-site".to_owned(),
                        name: None,
                        site_id: Some(site_id.to_owned()),
                        desc: Some(description.to_owned()),
                    },
                ),
            },
        )
    }

    /// The call that deletes a site, once the site is known to be in a
    /// listing: `SiteNotFound` if it is not.
    pub fn delete(&self, sites: Vec<Site>, site_id: &str) -> (call: Result<
        ApiCall<SiteCommand>,
        UniFiError,
    >)
        ensures
            place_by_id(sites@, site_id@) < sites.len() ==> (call matches Ok(made) && made.goes(
                Method::Post,
                SITE_MANAGER_ENDPOINT@,
            ) && (made.body matches Some(command) && command.says(
                "delete-site"@,
                None,
                Some(site_id@),
                None,
            ))),
            place_by_id(sites@, site_id@) >= sites.len() ==> site_not_found(call, site_id@),
    {
        let _ = Self::get(sites, site_id)?;
        Ok(
            ApiCall {
                method: Method::Post,
                endpoint: SITE_MANAGER_ENDPOINT.to_owned(),
                body: Some(
                    SiteCommand {
                        cmd: "delete-site".to_owned(),
                        name: None,
                        site_id: Some(site_id.to_owned()),
                        desc: None,
                    },
                ),
            },
        )
    }

    /// The client, set to work on that site.
    pub fn set_as_default(&self, site: &Site) -> (client: UniFiClient)
        ensures
            client@ == (ClientView { site: site.name@, ..self.client@ }),
    {
        self.client.clone().with_site(site.name.as_str())
    }

    /// The call that asks for the health of the client's site.
    pub fn stats(&self) -> (call: ApiCall<SiteCommand>)
        ensures
            call.goes(Method::Get, site_path(self.client@.site, "/stat/health"@)),
            call.body is None,
    {
        ApiCall {
            method: Method::Get,
            endpoint: site_endpoint(self.client.site(), "/stat/health"),
            body: None,
        }
    }

    /// The health that the controller reports: the first that it answers with.
    pub fn reported<T>(stats: Vec<T>) -> (first: Result<T, UniFiError>)
        ensures
            stats.len() > 0 ==> first == Ok::<T, UniFiError>(stats[0]),
            stats.len() == 0 ==> api_error(first, "No site statistics available"@),
    {
        first_or(stats, "No site statistics available")
    }
}

/// `place_by_id` stays within the listing.
pub proof fn lemma_place_by_id(sites: Seq<Site>, site_id: Seq<char>)
    ensures
        0 <= place_by_id(sites, site_id) <= sites.len(),
    decreases sites.len(),
{
    if sites.len() != 0 && sites[0].id@ != site_id {
        lemma_place_by_id(sites.skip(1), site_id);
    }
}

/// `place_by_name` stays within the listing.
pub proof fn lemma_place_by_name(sites: Seq<Site>, name: Seq<char>)
    ensures
        0 <= place_by_name(sites, name) <= sites.len(),
    decreases sites.len(),
{
    if sites.len() != 0 && sites[0].name@ != name && sites[0].desc@ != name {
        lemma_place_by_name(sites.skip(1), name);
    }
}

} // verus!
