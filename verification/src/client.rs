//! The client: what it is configured with, and what it decides.
//!
//! A client sends nothing. `UniFiClientBuilder::probe_url` and
//! `UniFiClient::login_request` and `UniFiClient::request` say what to send;
//! `UniFiClientBuilder::build`, `UniFiClient::login` and `UniFiClient::response`
//! take what came back. The session that they read and change is a
//! `SessionState`, which the caller shares among the users of one client.

use crate::api::guests::GuestHandler;
use crate::endpoint::{
    contains_char, has_char, has_query_or_fragment, joined, lemma_normal_form_chars,
    lemma_redundant_slashes, path_segments, split_path, texts,
};
use crate::error::{
    api_error, authentication_error, configuration_error, invalid_endpoint, UniFiError,
    UniFiResult,
};
use crate::headers::{
    carries_secret, has_header, header_first, header_from_str, header_set_sensitive,
    header_text_under, invalid_header_to_string, is_header_text, lemma_visible_value_is_header_text,
    text_under, HEADER_CSRF_TOKEN, HEADER_SET_COOKIE, HEADER_UPDATED_CSRF_TOKEN,
};
use crate::links::{
    parse_error_text, parse_error_to_string, push_fits, url_as_str,
    url_cannot_be_a_base, url_clone, url_is_cannot_be_a_base, url_join, url_joined, url_overflow,
    url_parse, url_parsed, url_pop_if_empty, url_push, url_pushed, url_trimmed, URL_MAX_BYTES,
};
use crate::models::api_response::{ApiMeta, ApiResponse};
use crate::models::auth::LoginRequest;
use crate::secret::{secret_clone, secret_expose, secret_from_string, secret_text, Secret};
use crate::session::{
    detected, is_auth_failure, lemma_retry_once, outcome, run, Attempt, ControllerKind, ReauthRole,
    SessionState, SessionView, Step,
};
use crate::status::{status_line, status_number, status_to_string};
use crate::text::{blank, byte_length, is_blank};
use core::time::Duration;
use vstd::prelude::*;

verus! {

/// The site of a client that names none.
pub const DEFAULT_SITE: &'static str = "default";

/// The seconds that a request may take where the client names no timeout.
pub const DEFAULT_TIMEOUT_SECS: u64 = 30;

/// The time span of that many whole seconds.
pub uninterp spec fn seconds(secs: u64) -> Duration;

/// `Duration::from_secs`. Believed, as the standard library documents it: a
/// time span of that many whole seconds, named `seconds`.
#[verifier::external_body]
fn duration_from_secs(secs: u64) -> (span: Duration)
    ensures
        span == seconds(secs),
{
    Duration::from_secs(secs)
}

/// What a builder has been told.
pub struct BuilderView {
    pub controller_url: Option<Seq<char>>,
    pub username: Option<Seq<char>>,
    pub password: Option<Seq<char>>,
    pub site: Option<Seq<char>>,
    pub accept_invalid_certs: bool,
    pub timeout: Option<Duration>,
}

/// What a client is configured with.
pub struct ClientView {
    pub controller_kind: ControllerKind,
    pub controller_url: url::Url,
    pub api_base_url: url::Url,
    pub username: Seq<char>,
    pub password: Option<Seq<char>>,
    pub site: Seq<char>,
    pub accept_invalid_certs: bool,
    pub timeout: Duration,
}

/// Why a URL could not be made.
pub enum Fault {
    /// The configuration is unusable, for the reason given.
    Configuration(Seq<char>),
    /// The endpoint is unusable, for the reason given.
    Endpoint(Seq<char>),
    /// The `url` crate refused, with this error.
    Url(url::ParseError),
    /// The URL would be longer than the `url` crate keeps.
    TooLong,
}

/// Whether a result is the error that stands for a fault.
pub open spec fn is_fault<T>(result: Result<T, UniFiError>, fault: Fault) -> bool {
    match fault {
        Fault::Configuration(text) => configuration_error(result, text),
        Fault::Endpoint(text) => invalid_endpoint(result, text),
        Fault::Url(error) => result == Err::<T, UniFiError>(UniFiError::UrlParseError(error)),
        Fault::TooLong => result matches Err(UniFiError::UrlParseError(_)),
    }
}

/// The controller's URL, if the builder names usable credentials and a URL
/// that parses: the name is asked for first, then the password, then the URL.
pub open spec fn checked_url(builder: BuilderView) -> Result<url::Url, Fault> {
    if builder.username is None || is_blank(builder.username->0) {
        Err(Fault::Configuration("Username is required"@))
    } else if builder.password is None || is_blank(builder.password->0) {
        Err(Fault::Configuration("Password is required"@))
    } else if builder.controller_url is None {
        Err(Fault::Configuration("Controller URL is required"@))
    } else {
        match url_parsed(builder.controller_url->0) {
            Ok(url) => Ok(url),
            Err(error) => Err(
                Fault::Configuration("Invalid controller URL: "@ + parse_error_text(error)),
            ),
        }
    }
}

/// The URL to probe: the root of the controller.
pub open spec fn probe_target(builder: BuilderView) -> Result<url::Url, Fault> {
    match checked_url(builder) {
        Ok(url) => match url_joined(url, "/"@) {
            Ok(root) => Ok(root),
            Err(error) => Err(Fault::Url(error)),
        },
        Err(fault) => Err(fault),
    }
}

/// The URL under which the API of a controller of that flavour lives.
pub open spec fn api_base(kind: ControllerKind, controller_url: url::Url) -> Result<
    url::Url,
    Fault,
> {
    match kind {
        ControllerKind::Os => match url_joined(controller_url, kind.spec_api_base_path()) {
            Ok(base) => Ok(base),
            Err(error) => Err(Fault::Url(error)),
        },
        ControllerKind::Network => Ok(controller_url),
    }
}

/// The client that a builder makes of what it was told and of the status that
/// the probe met, `None` where the probe got no answer.
pub open spec fn built(builder: BuilderView, probe: Option<u16>) -> Result<ClientView, Fault> {
    match probe_target(builder) {
        Err(fault) => Err(fault),
        Ok(_) => {
            let controller_url = checked_url(builder)->Ok_0;
            let controller_kind = detected(probe);
            match api_base(controller_kind, controller_url) {
                Err(fault) => Err(fault),
                Ok(api_base_url) => Ok(
                    ClientView {
                        controller_kind,
                        controller_url,
                        api_base_url,
                        username: builder.username->0,
                        password: builder.password,
                        site: match builder.site {
                            Some(site) => site,
                            None => DEFAULT_SITE@,
                        },
                        accept_invalid_certs: builder.accept_invalid_certs,
                        timeout: match builder.timeout {
                            Some(timeout) => timeout,
                            None => seconds(DEFAULT_TIMEOUT_SECS),
                        },
                    },
                ),
            }
        },
    }
}

/// The URL after the segments have been pushed one after the other, or nothing
/// if one of them does not fit.
pub open spec fn pushed_all(url: url::Url, segments: Seq<Seq<char>>) -> Option<url::Url>
    decreases segments.len(),
{
    if segments.len() == 0 {
        Some(url)
    } else {
        match pushed_all(url, segments.drop_last()) {
            Some(so_far) => if push_fits(so_far, segments.last()) {
                Some(url_pushed(so_far, segments.last()))
            } else {
                None
            },
            None => None,
        }
    }
}

/// The URL of an endpoint: the base, without the empty last segment that a
/// trailing slash leaves, and then the segments of the endpoint.
pub open spec fn api_url(base: url::Url, endpoint: Seq<char>) -> Result<url::Url, Fault> {
    if has_query_or_fragment(endpoint) {
        Err(Fault::Endpoint("endpoint must not include query or fragment: "@ + endpoint))
    } else if url_cannot_be_a_base(base) {
        Err(Fault::Configuration("Base URL cannot be a base"@))
    } else {
        match pushed_all(url_trimmed(base), path_segments(endpoint)) {
            Some(url) => Ok(url),
            None => Err(Fault::TooLong),
        }
    }
}

/// The client's builder: told piece by piece what the client is to be.
#[derive(Debug)]
pub struct UniFiClientBuilder {
    controller_url: Option<String>,
    username: Option<String>,
    password: Option<Secret>,
    site: Option<String>,
    accept_invalid_certs: bool,
    timeout: Option<Duration>,
}

impl View for UniFiClientBuilder {
    type V = BuilderView;

    closed spec fn view(&self) -> BuilderView {
        BuilderView {
            controller_url: match self.controller_url {
                Some(url) => Some(url@),
                None => None,
            },
            username: match self.username {
                Some(name) => Some(name@),
                None => None,
            },
            password: match self.password {
                Some(secret) => Some(secret_text(secret)),
                None => None,
            },
            site: match self.site {
                Some(site) => Some(site@),
                None => None,
            },
            accept_invalid_certs: self.accept_invalid_certs,
            timeout: self.timeout,
        }
    }
}

impl Default for UniFiClientBuilder {
    fn default() -> (builder: UniFiClientBuilder)
        ensures
            builder@ == (BuilderView {
                controller_url: None,
                username: None,
                password: None,
                site: None,
                accept_invalid_certs: false,
                timeout: None,
            }),
    {
        UniFiClientBuilder {
            controller_url: None,
            username: None,
            password: None,
            site: None,
            accept_invalid_certs: false,
            timeout: None,
        }
    }
}

impl UniFiClientBuilder {
    /// Names the controller's URL.
    pub fn controller_url(self, url: &str) -> (builder: UniFiClientBuilder)
        ensures
            builder@ == (BuilderView { controller_url: Some(url@), ..self@ }),
    {
        let mut builder = self;
        builder.controller_url = Some(url.to_owned());
        builder
    }

    /// Names the user to log in as.
    pub fn username(self, username: &str) -> (builder: UniFiClientBuilder)
        ensures
            builder@ == (BuilderView { username: Some(username@), ..self@ }),
    {
        let mut builder = self;
        builder.username = Some(username.to_owned());
        builder
    }

    /// Names the password to log in with.
    pub fn password(self, password: &str) -> (builder: UniFiClientBuilder)
        ensures
            builder@ == (BuilderView { password: Some(password@), ..self@ }),
    {
        let mut builder = self;
        builder.password = Some(secret_from_string(password.to_owned()));
        builder
    }

    /// Names the site, such as `default`.
    pub fn site(self, site: &str) -> (builder: UniFiClientBuilder)
        ensures
            builder@ == (BuilderView { site: Some(site@), ..self@ }),
    {
        let mut builder = self;
        builder.site = Some(site.to_owned());
        builder
    }

    /// Says whether certificates that do not verify are accepted. They are not
    /// unless this is called with `true`.
    pub fn accept_invalid_certs(self, accept: bool) -> (builder: UniFiClientBuilder)
        ensures
            builder@ == (BuilderView { accept_invalid_certs: accept, ..self@ }),
    {
        let mut builder = self;
        builder.accept_invalid_certs = accept;
        builder
    }

    /// Names the time that a request may take.
    pub fn timeout(self, timeout: Duration) -> (builder: UniFiClientBuilder)
        ensures
            builder@ == (BuilderView { timeout: Some(timeout), ..self@ }),
    {
        let mut builder = self;
        builder.timeout = Some(timeout);
        builder
    }

    /// Checks the credentials and parses the controller's URL.
    fn checked_url(&self) -> (checked: UniFiResult<url::Url>)
        ensures
            match checked_url(self@) {
                Ok(url) => checked == Ok::<url::Url, UniFiError>(url),
                Err(fault) => is_fault(checked, fault),
            },
    {
        let named = match &self.username {
            Some(name) => !blank(name.as_str()),
            None => false,
        };
        if !named {
            return Err(UniFiError::ConfigurationError("Username is required".to_owned()));
        }
        let secured = match &self.password {
            Some(secret) => !blank(secret_expose(secret)),
            None => false,
        };
        if !secured {
            return Err(UniFiError::ConfigurationError("Password is required".to_owned()));
        }
        match &self.controller_url {
            None => Err(UniFiError::ConfigurationError("Controller URL is required".to_owned())),
            Some(text) => match url_parse(text.as_str()) {
                Ok(url) => Ok(url),
                Err(error) => {
                    let mut said = "Invalid controller URL: ".to_owned();
                    said.append(parse_error_to_string(&error).as_str());
                    Err(UniFiError::ConfigurationError(said))
                },
            },
        }
    }

    /// The URL to probe, so as to tell the controller's flavour: the root of
    /// the controller. Fails as `build` fails.
    pub fn probe_url(&self) -> (target: UniFiResult<url::Url>)
        ensures
            match probe_target(self@) {
                Ok(url) => target == Ok::<url::Url, UniFiError>(url),
                Err(fault) => is_fault(target, fault),
            },
    {
        let controller_url = self.checked_url()?;
        match url_join(&controller_url, "/") {
            Ok(root) => Ok(root),
            Err(error) => Err(UniFiError::UrlParseError(error)),
        }
    }

    /// Builds the client, given the status with which the controller answered
    /// the probe, or `None` if it did not answer.
    ///
    /// The client is not logged in yet: its session is a `SessionState` of its
    /// own, at epoch 0 until `UniFiClient::login` has accepted a login.
    pub fn build(self, probe: Option<&http::StatusCode>) -> (client: UniFiResult<UniFiClient>)
        ensures
            match built(
                self@,
                match probe {
                    Some(status) => Some(status_number(*status)),
                    None => None,
                },
            ) {
                Ok(view) => client matches Ok(made) && made@ == view,
                Err(fault) => is_fault(client, fault),
            },
    {
        let controller_url = self.checked_url()?;
        match url_join(&controller_url, "/") {
            Ok(_) => {},
            Err(error) => {
                return Err(UniFiError::UrlParseError(error));
            },
        }
        let controller_kind = ControllerKind::detect(probe);
        let api_base_url = match controller_kind {
            ControllerKind::Os => match url_join(&controller_url, controller_kind.api_base_path()) {
                Ok(base) => base,
                Err(error) => {
                    return Err(UniFiError::UrlParseError(error));
                },
            },
            ControllerKind::Network => url_clone(&controller_url),
        };
        let username = match self.username {
            Some(name) => name,
            None => String::new(),
        };
        let site = match self.site {
            Some(site) => site,
            None => DEFAULT_SITE.to_owned(),
        };
        let timeout = match self.timeout {
            Some(timeout) => timeout,
            None => duration_from_secs(DEFAULT_TIMEOUT_SECS),
        };
        Ok(
            UniFiClient {
                controller_kind,
                controller_url,
                api_base_url,
                username,
                password: self.password,
                site,
                accept_invalid_certs: self.accept_invalid_certs,
                timeout,
            },
        )
    }
}

/// What to send to log in: a POST of `body`, as JSON, to `url`.
#[derive(Debug)]
pub struct LoginPlan {
    pub url: url::Url,
    pub body: LoginRequest,
}

/// What came back from a login.
#[derive(Debug)]
pub struct LoginResponse {
    /// The status of the response.
    pub status: http::StatusCode,
    /// The headers of the response.
    pub headers: http::HeaderMap<http::HeaderValue>,
    /// The `meta` part of the body, read as an envelope, or the error with
    /// which that failed; `None` where the body was not read. It is to be read
    /// where `UniFiClient::login_reads_body` says so, and nowhere else.
    pub envelope: Option<Result<ApiMeta, reqwest::Error>>,
}

/// What to send for a request: `url`, and the CSRF token header if there is one.
#[derive(Debug)]
pub struct RequestPlan {
    pub url: url::Url,
    pub csrf_token: Option<http::HeaderValue>,
}

/// How a login ended.
pub enum LoginVerdict {
    /// The controller accepted the login.
    Accepted,
    /// The status is not one of success.
    BadStatus,
    /// The response sets no cookie.
    NoCookie,
    /// The body of a Network controller's response could not be read.
    Undecoded,
    /// A Network controller refused the login, with these words.
    Refused(Seq<char>),
}

/// What a controller says when it refuses a login without a word.
pub open spec fn unknown_login_error() -> Seq<char> {
    "Unknown error"@
}

/// Whether the body of the response to a login is read: only that of a
/// Network controller, and only once the status and the cookie have passed.
pub open spec fn login_reads_envelope(kind: ControllerKind, status: u16, has_cookie: bool) -> bool {
    200 <= status < 300 && has_cookie && kind == ControllerKind::Network
}

/// How a login ended: the status counts first, then whether the response sets
/// a cookie, and then, on a Network controller only, the envelope.
pub open spec fn login_verdict(
    kind: ControllerKind,
    status: u16,
    has_cookie: bool,
    envelope: Option<Result<ApiMeta, reqwest::Error>>,
) -> LoginVerdict {
    if !(200 <= status < 300) {
        LoginVerdict::BadStatus
    } else if !has_cookie {
        LoginVerdict::NoCookie
    } else if kind == ControllerKind::Network {
        match envelope {
            Some(Ok(meta)) => if meta.spec_is_ok() {
                LoginVerdict::Accepted
            } else {
                LoginVerdict::Refused(meta.spec_message(unknown_login_error()))
            },
            _ => LoginVerdict::Undecoded,
        }
    } else {
        LoginVerdict::Accepted
    }
}

/// What a client says of a status that is not one of success.
pub open spec fn status_message(intro: Seq<char>, status: u16) -> Seq<char> {
    intro + status_line(status)
}

/// The client: the controller it talks to, the credentials, the site.
#[derive(Debug)]
pub struct UniFiClient {
    controller_kind: ControllerKind,
    controller_url: url::Url,
    api_base_url: url::Url,
    username: String,
    password: Option<Secret>,
    site: String,
    accept_invalid_certs: bool,
    timeout: Duration,
}

impl View for UniFiClient {
    type V = ClientView;

    closed spec fn view(&self) -> ClientView {
        ClientView {
            controller_kind: self.controller_kind,
            controller_url: self.controller_url,
            api_base_url: self.api_base_url,
            username: self.username@,
            password: match self.password {
                Some(secret) => Some(secret_text(secret)),
                None => None,
            },
            site: self.site@,
            accept_invalid_certs: self.accept_invalid_certs,
            timeout: self.timeout,
        }
    }
}

impl Clone for UniFiClient {
    fn clone(&self) -> (copy: UniFiClient)
        ensures
            copy@ == self@,
    {
        UniFiClient {
            controller_kind: self.controller_kind,
            controller_url: url_clone(&self.controller_url),
            api_base_url: url_clone(&self.api_base_url),
            username: self.username.clone(),
            password: match &self.password {
                Some(secret) => Some(secret_clone(secret)),
                None => None,
            },
            site: self.site.clone(),
            accept_invalid_certs: self.accept_invalid_certs,
            timeout: self.timeout,
        }
    }
}

impl UniFiClient {
    /// Starts a client.
    pub fn builder() -> (builder: UniFiClientBuilder)
        ensures
            builder@ == (BuilderView {
                controller_url: None,
                username: None,
                password: None,
                site: None,
                accept_invalid_certs: false,
                timeout: None,
            }),
    {
        UniFiClientBuilder::default()
    }

    /// A client made of its parts, with the default timeout and with
    /// certificates verified. It takes the parts as they are: a client without
    /// a name or a password cannot log in.
    pub fn from_parts(
        controller_kind: ControllerKind,
        controller_url: url::Url,
        api_base_url: url::Url,
        username: &str,
        password: Option<&str>,
        site: &str,
    ) -> (client: UniFiClient)
        ensures
            client@ == (ClientView {
                controller_kind,
                controller_url,
                api_base_url,
                username: username@,
                password: match password {
                    Some(text) => Some(text@),
                    None => None,
                },
                site: site@,
                accept_invalid_certs: false,
                timeout: seconds(DEFAULT_TIMEOUT_SECS),
            }),
    {
        UniFiClient {
            controller_kind,
            controller_url,
            api_base_url,
            username: username.to_owned(),
            password: match password {
                Some(text) => Some(secret_from_string(text.to_owned())),
                None => None,
            },
            site: site.to_owned(),
            accept_invalid_certs: false,
            timeout: duration_from_secs(DEFAULT_TIMEOUT_SECS),
        }
    }

    /// The calls on the guests of the client's site.
    pub fn guests(&self) -> (handler: GuestHandler)
        ensures
            handler.client@ == self@,
    {
        GuestHandler::new(self.clone())
    }

    /// The site that the client works on.
    pub fn site(&self) -> (site: &str)
        ensures
            site@ == self@.site,
    {
        self.site.as_str()
    }

    /// The same client, on another site.
    pub fn with_site(self, site: &str) -> (client: UniFiClient)
        ensures
            client@ == (ClientView { site: site@, ..self@ }),
    {
        let mut client = self;
        client.site = site.to_owned();
        client
    }

    /// The flavour of the controller.
    pub fn controller_kind(&self) -> (kind: ControllerKind)
        ensures
            kind == self@.controller_kind,
    {
        self.controller_kind
    }

    /// The URL of the controller.
    pub fn controller_url(&self) -> (url: &url::Url)
        ensures
            *url == self@.controller_url,
    {
        &self.controller_url
    }

    /// The URL under which the controller's API lives.
    pub fn api_base_url(&self) -> (url: &url::Url)
        ensures
            *url == self@.api_base_url,
    {
        &self.api_base_url
    }

    /// The name that the client logs in with.
    pub fn username(&self) -> (name: &str)
        ensures
            name@ == self@.username,
    {
        self.username.as_str()
    }

    /// Whether the client has a password to log in with.
    pub fn has_password(&self) -> (yes: bool)
        ensures
            yes == self@.password is Some,
    {
        self.password.is_some()
    }

    /// Whether certificates that do not verify are accepted.
    pub fn accepts_invalid_certs(&self) -> (accept: bool)
        ensures
            accept == self@.accept_invalid_certs,
    {
        self.accept_invalid_certs
    }

    /// The time that a request may take.
    pub fn timeout(&self) -> (timeout: Duration)
        ensures
            timeout == self@.timeout,
    {
        self.timeout
    }

    /// The absolute URL of an endpoint.
    ///
    /// The endpoint is a path, without query and fragment. It is joined to the
    /// base of the API segment by segment, so that slashes are neither doubled
    /// nor lost. A URL that would grow beyond what the `url` crate keeps is a
    /// `UrlParseError`.
    pub fn api_url(&self, endpoint: &str) -> (built: UniFiResult<url::Url>)
        ensures
            has_query_or_fragment(endpoint@) ==> invalid_endpoint(
                built,
                "endpoint must not include query or fragment: "@ + endpoint@,
            ),
            match api_url(self@.api_base_url, endpoint@) {
                Ok(url) => built == Ok::<url::Url, UniFiError>(url),
                Err(fault) => is_fault(built, fault),
            },
    {
        if contains_char(endpoint, '?') || contains_char(endpoint, '#') {
            let mut said = "endpoint must not include query or fragment: ".to_owned();
            said.append(endpoint);
            return Err(UniFiError::InvalidEndpoint(said));
        }
        if url_is_cannot_be_a_base(&self.api_base_url) {
            return Err(UniFiError::ConfigurationError("Base URL cannot be a base".to_owned()));
        }
        let mut url = url_clone(&self.api_base_url);
        url_pop_if_empty(&mut url);
        let segments = split_path(endpoint);
        let ghost wanted = path_segments(endpoint@);
        let ghost start = url;
        let mut done: usize = 0;
        while done < segments.len()
            invariant
                done <= segments.len(),
                texts(segments@) == wanted,
                wanted == path_segments(endpoint@),
                start == url_trimmed(self@.api_base_url),
                !has_query_or_fragment(endpoint@),
                !url_cannot_be_a_base(self@.api_base_url),
                pushed_all(start, wanted.take(done as int)) == Some(url),
            decreases segments.len() - done,
        {
            let segment = segments[done].as_str();
            let ghost so_far = wanted.take(done as int);
            let ghost next = wanted.take(done + 1);
            proof {
                assert(next.drop_last() == so_far);
            }
            let length = byte_length(url_as_str(&url));
            let room = byte_length(segment);
            if length > URL_MAX_BYTES - 3 || room > (URL_MAX_BYTES - 3 - length) / 3 {
                proof {
                    lemma_pushed_all_stays_none(start, wanted, done + 1);
                }
                return Err(UniFiError::UrlParseError(url_overflow()));
            }
            url_push(&mut url, segment);
            done = done + 1;
        }
        assert(wanted.take(done as int) == wanted);
        Ok(url)
    }

    /// What to send to log in.
    ///
    /// Fails with a `ConfigurationError` where the client has no name or no
    /// password to log in with, and with a `UrlParseError` where the login's
    /// path cannot be joined to the controller's URL.
    pub fn login_request(&self) -> (plan: UniFiResult<LoginPlan>)
        ensures
            is_blank(self@.username) ==> configuration_error(plan, "Username is required"@),
            !is_blank(self@.username) && (self@.password is None || is_blank(self@.password->0))
                ==> configuration_error(plan, "Password is required"@),
            !is_blank(self@.username) && self@.password is Some && !is_blank(self@.password->0)
                ==> match url_joined(
                self@.controller_url,
                self@.controller_kind.spec_login_path(),
            ) {
                Ok(url) => plan matches Ok(made) && made.url == url && made.body.username@
                    == self@.username && Some(made.body.password@) == self@.password,
                Err(error) => plan == Err::<LoginPlan, UniFiError>(
                    UniFiError::UrlParseError(error),
                ),
            },
    {
        if blank(self.username.as_str()) {
            return Err(UniFiError::ConfigurationError("Username is required".to_owned()));
        }
        let password = match &self.password {
            Some(secret) => {
                let exposed = secret_expose(secret);
                if blank(exposed) {
                    None
                } else {
                    Some(exposed.to_owned())
                }
            },
            None => None,
        };
        let password = match password {
            Some(password) => password,
            None => {
                return Err(UniFiError::ConfigurationError("Password is required".to_owned()));
            },
        };
        match url_join(&self.controller_url, self.controller_kind.login_path()) {
            Ok(url) => Ok(
                LoginPlan { url, body: LoginRequest { username: self.username.clone(), password } },
            ),
            Err(error) => Err(UniFiError::UrlParseError(error)),
        }
    }

    /// Tells whether the body of the response to a login is to be read: that
    /// of a Network controller, once the status is one of success and the
    /// response sets a cookie. The body of any other response is left alone.
    pub fn login_reads_body(
        &self,
        status: &http::StatusCode,
        headers: &http::HeaderMap<http::HeaderValue>,
    ) -> (reads: bool)
        ensures
            reads == login_reads_envelope(
                self@.controller_kind,
                status_number(*status),
                header_first(*headers, HEADER_SET_COOKIE@) is Some,
            ),
    {
        status.is_success() && has_header(headers, HEADER_SET_COOKIE) && self.controller_kind
            == ControllerKind::Network
    }

    /// Takes the response to a login, and commits the session if the
    /// controller accepted the login.
    ///
    /// A login that is accepted replaces the CSRF token by the one that the
    /// response carries, or by none if it carries none, and advances the epoch.
    /// Any other leaves the session as it was. The response comes with its
    /// body read where `login_reads_body` says that it is read.
    pub fn login(&self, session: &mut SessionState, response: LoginResponse) -> (done: UniFiResult<()>)
        requires
            old(session)@.epoch < usize::MAX,
            login_reads_envelope(
                self@.controller_kind,
                status_number(response.status),
                header_first(response.headers, HEADER_SET_COOKIE@) is Some,
            ) ==> response.envelope is Some,
        ensures
            match login_verdict(
                self@.controller_kind,
                status_number(response.status),
                header_first(response.headers, HEADER_SET_COOKIE@) is Some,
                response.envelope,
            ) {
                LoginVerdict::Accepted => done is Ok && final(session)@ == old(
                    session,
                )@.established(header_text_under(response.headers, HEADER_CSRF_TOKEN@)),
                LoginVerdict::BadStatus => authentication_error(
                    done,
                    status_message(
                        "Authentication failed with status code: "@,
                        status_number(response.status),
                    ),
                ) && final(session)@ == old(session)@,
                LoginVerdict::NoCookie => authentication_error(
                    done,
                    "No cookies received from server"@,
                ) && final(session)@ == old(session)@,
                LoginVerdict::Undecoded => (done matches Err(UniFiError::HttpError(error))
                    && response.envelope == Some(Err::<ApiMeta, reqwest::Error>(error)))
                    && final(session)@ == old(session)@,
                LoginVerdict::Refused(text) => authentication_error(done, text) && final(session)@
                    == old(session)@,
            },
            done is Ok ==> final(session)@.authenticated(),
    {
        if !response.status.is_success() {
            let mut said = "Authentication failed with status code: ".to_owned();
            said.append(status_to_string(&response.status).as_str());
            return Err(UniFiError::AuthenticationError(said));
        }
        if !has_header(&response.headers, HEADER_SET_COOKIE) {
            return Err(
                UniFiError::AuthenticationError("No cookies received from server".to_owned()),
            );
        }
        if self.controller_kind == ControllerKind::Network {
            match response.envelope.unwrap() {
                Err(error) => {
                    return Err(UniFiError::HttpError(error));
                },
                Ok(meta) => {
                    if !meta.is_ok() {
                        return Err(
                            UniFiError::AuthenticationError(meta.into_message("Unknown error")),
                        );
                    }
                },
            }
        }
        session.establish_session(text_under(&response.headers, HEADER_CSRF_TOKEN));
        Ok(())
    }

    /// The CSRF token header that a request carries: the session's token,
    /// marked as sensitive, so that it stays out of logs.
    ///
    /// A session that never saw a login has none to give:
    /// `NotAuthenticated`. A token that cannot stand in a header is an
    /// `ApiError`.
    pub fn csrf_header_value(&self, session: &SessionState) -> (header: UniFiResult<
        Option<http::HeaderValue>,
    >)
        ensures
            !session@.authenticated() ==> header == Err::<Option<http::HeaderValue>, UniFiError>(
                UniFiError::NotAuthenticated,
            ),
            session@.authenticated() ==> match session@.csrf {
                None => header == Ok::<Option<http::HeaderValue>, UniFiError>(None),
                Some(token) => if is_header_text(token) {
                    header matches Ok(Some(value)) && carries_secret(value, token)
                } else {
                    api_error(header, "Invalid CSRF token: failed to parse header value"@)
                },
            },
    {
        if !session.is_authenticated() {
            return Err(UniFiError::NotAuthenticated);
        }
        match session.csrf_token() {
            Some(token) => match header_from_str(token) {
                Ok(value) => {
                    let mut value = value;
                    header_set_sensitive(&mut value, true);
                    Ok(Some(value))
                },
                Err(error) => {
                    let mut said = "Invalid CSRF token: ".to_owned();
                    said.append(invalid_header_to_string(&error).as_str());
                    proof {
                        reveal_strlit("Invalid CSRF token: ");
                        reveal_strlit("failed to parse header value");
                        reveal_strlit("Invalid CSRF token: failed to parse header value");
                        assert(said@ =~= "Invalid CSRF token: failed to parse header value"@);
                    }
                    Err(UniFiError::ApiError(said))
                },
            },
            None => Ok(None),
        }
    }

    /// What to send for a request to an endpoint, on a session that has seen a
    /// login.
    ///
    /// The endpoint is looked at first: one with a query or a fragment is
    /// refused whatever the session holds. A console is then sent the
    /// session's CSRF token, marked as sensitive, and a Network controller
    /// none.
    pub fn request(&self, session: &SessionState, endpoint: &str) -> (plan: UniFiResult<RequestPlan>)
        requires
            session@.authenticated(),
        ensures
            has_query_or_fragment(endpoint@) ==> invalid_endpoint(
                plan,
                "endpoint must not include query or fragment: "@ + endpoint@,
            ),
            match api_url(self@.api_base_url, endpoint@) {
                Err(fault) => is_fault(plan, fault),
                Ok(url) => match session@.request_csrf(self@.controller_kind) {
                    None => plan matches Ok(made) && made.url == url && made.csrf_token is None,
                    Some(token) => if is_header_text(token) {
                        plan matches Ok(made) && made.url == url && (made.csrf_token matches Some(
                            value,
                        ) && carries_secret(value, token))
                    } else {
                        api_error(plan, "Invalid CSRF token: failed to parse header value"@)
                    },
                },
            },
    {
        let url = self.api_url(endpoint)?;
        let csrf_token = if self.controller_kind == ControllerKind::Os {
            self.csrf_header_value(session)?
        } else {
            None
        };
        Ok(RequestPlan { url, csrf_token })
    }

    /// Takes the response to a request: first the token, if the response
    /// rotates it, whatever the status; then the decision on the status.
    ///
    /// `headers` are those of the response. `Step::Reauthenticate` counts as
    /// one repetition of the request.
    pub fn response(
        &self,
        session: &mut SessionState,
        attempt: &mut Attempt,
        status: &http::StatusCode,
        headers: &http::HeaderMap<http::HeaderValue>,
    ) -> (next: UniFiResult<Step>)
        ensures
            final(session)@ == old(session)@.observed(
                header_text_under(*headers, HEADER_UPDATED_CSRF_TOKEN@),
            ),
            next == outcome(self@.controller_kind, old(attempt).retries(), status_number(*status)),
            final(attempt).retries() == old(attempt).retries() + if next == Ok::<Step, UniFiError>(
                Step::Reauthenticate,
            ) {
                1nat
            } else {
                0nat
            },
    {
        match text_under(headers, HEADER_UPDATED_CSRF_TOKEN) {
            Some(token) => {
                session.rotate_csrf(token);
            },
            None => {},
        }
        attempt.decide(self.controller_kind, status)
    }

    /// Takes the status of the answer to a call: one that is not of success
    /// is an `ApiError` that names it, whatever the body holds.
    pub fn check_status(status: &http::StatusCode) -> (checked: UniFiResult<()>)
        ensures
            200 <= status_number(*status) < 300 ==> checked is Ok,
            !(200 <= status_number(*status) < 300) ==> api_error(
                checked,
                status_message("API request failed with status code: "@, status_number(*status)),
            ),
    {
        if !status.is_success() {
            let mut said = "API request failed with status code: ".to_owned();
            said.append(status_to_string(status).as_str());
            return Err(UniFiError::ApiError(said));
        }
        Ok(())
    }

    /// Opens the answer to a call: the status counts first, then whether the
    /// body could be read as an envelope, then what the envelope says. The
    /// data may be absent.
    pub fn request_json<T>(status: &http::StatusCode, body: Result<ApiResponse<T>, reqwest::Error>) -> (data:
        UniFiResult<Option<T>>)
        ensures
            !(200 <= status_number(*status) < 300) ==> api_error(
                data,
                status_message("API request failed with status code: "@, status_number(*status)),
            ),
            200 <= status_number(*status) < 300 ==> match body {
                Err(error) => data == Err::<Option<T>, UniFiError>(UniFiError::HttpError(error)),
                Ok(envelope) => match envelope.spec_into_data() {
                    Ok(found) => data == Ok::<Option<T>, UniFiError>(found),
                    Err(text) => api_error(data, text),
                },
            },
    {
        match Self::check_status(status) {
            Err(error) => Err(error),
            Ok(_) => match body {
                Err(error) => Err(UniFiError::HttpError(error)),
                Ok(envelope) => envelope.into_data(),
            },
        }
    }

    /// Opens the answer to a GET that must give data: as `request_json`, and an
    /// answer without data is an `ApiError`.
    pub fn get<T>(status: &http::StatusCode, body: Result<ApiResponse<T>, reqwest::Error>) -> (data:
        UniFiResult<T>)
        ensures
            is_required(status_number(*status), body, data),
    {
        Self::required(Self::request_json(status, body))
    }

    /// Opens the answer to a POST that must give data: as `request_json`, and
    /// an answer without data is an `ApiError`.
    pub fn post<T>(status: &http::StatusCode, body: Result<ApiResponse<T>, reqwest::Error>) -> (data:
        UniFiResult<T>)
        ensures
            is_required(status_number(*status), body, data),
    {
        Self::required(Self::request_json(status, body))
    }

    /// Insists on data.
    fn required<T>(opened: UniFiResult<Option<T>>) -> (data: UniFiResult<T>)
        ensures
            match opened {
                Ok(Some(found)) => data == Ok::<T, UniFiError>(found),
                Ok(None) => api_error(data, "No data returned from API"@),
                Err(error) => data == Err::<T, UniFiError>(error),
            },
    {
        match opened {
            Ok(Some(found)) => Ok(found),
            Ok(None) => Err(UniFiError::ApiError("No data returned from API".to_owned())),
            Err(error) => Err(error),
        }
    }
}

/// Whether `data` is what an answer with that status and body gives to a call
/// that must give data.
pub open spec fn is_required<T>(
    status: u16,
    body: Result<ApiResponse<T>, reqwest::Error>,
    data: Result<T, UniFiError>,
) -> bool {
    if !(200 <= status < 300) {
        api_error(data, status_message("API request failed with status code: "@, status))
    } else {
        match body {
            Err(error) => data == Err::<T, UniFiError>(UniFiError::HttpError(error)),
            Ok(envelope) => match envelope.spec_into_data() {
                Ok(Some(found)) => data == Ok::<T, UniFiError>(found),
                Ok(None) => api_error(data, "No data returned from API"@),
                Err(text) => api_error(data, text),
            },
        }
    }
}

/// Once a segment does not fit, no longer list of segments gives a URL.
proof fn lemma_pushed_all_stays_none(url: url::Url, segments: Seq<Seq<char>>, upto: int)
    requires
        0 <= upto <= segments.len(),
        pushed_all(url, segments.take(upto)) is None,
    ensures
        pushed_all(url, segments) is None,
    decreases segments.len() - upto,
{
    if upto < segments.len() {
        assert(segments.take(upto + 1).drop_last() == segments.take(upto));
        lemma_pushed_all_stays_none(url, segments, upto + 1);
    } else {
        assert(segments.take(upto) == segments);
    }
}

/// Slashes that separate nothing do not change the URL of an endpoint: it is
/// the URL of the endpoint's normal form, with single slashes between the
/// segments and none around them.
pub proof fn lemma_api_url_ignores_redundant_slashes(base: url::Url, endpoint: Seq<char>)
    requires
        !has_query_or_fragment(endpoint),
    ensures
        api_url(base, joined(path_segments(endpoint))) == api_url(base, endpoint),
{
    let normal = joined(path_segments(endpoint));
    lemma_redundant_slashes(endpoint);
    if has_char(normal, '?') {
        lemma_normal_form_chars(endpoint, '?');
    }
    if has_char(normal, '#') {
        lemma_normal_form_chars(endpoint, '#');
    }
}

/// Two endpoints with the same segments have the same URL, or fail alike.
pub proof fn lemma_api_url_by_segments(base: url::Url, one: Seq<char>, other: Seq<char>)
    requires
        !has_query_or_fragment(one),
        !has_query_or_fragment(other),
        path_segments(one) == path_segments(other),
    ensures
        api_url(base, one) == api_url(base, other),
{
}

/// The session from which the next request is made, after a response with
/// `status` has come in for a request that was repeated `retries` times: the
/// session has seen the response and, where the response asks for a new login
/// and this caller leads, the login, which gave the token `login_csrf`.
pub open spec fn before_next_request(
    kind: ControllerKind,
    session: SessionView,
    retries: nat,
    status: u16,
    updated_csrf: Option<Seq<char>>,
    role: ReauthRole,
    login_csrf: Option<Seq<char>>,
) -> SessionView {
    let seen = session.observed(updated_csrf);
    if outcome(kind, retries, status) == Ok::<Step, UniFiError>(Step::Reauthenticate) && role
        == ReauthRole::Leader {
        seen.established(login_csrf)
    } else {
        seen
    }
}

/// A token that headers hold as text can stand in a header again: what a
/// response rotates to, and what a login gives, is a token that a request can
/// present, byte for byte.
pub proof fn lemma_token_of_headers_is_header_text(
    headers: http::HeaderMap<http::HeaderValue>,
    name: Seq<char>,
)
    requires
        header_text_under(headers, name) is Some,
    ensures
        is_header_text(header_text_under(headers, name)->0),
{
    lemma_visible_value_is_header_text(header_first(headers, name)->0);
}

/// A token that a response rotates to is the token that the next request
/// presents to a console, whatever the status of the response, unless a login
/// of this caller comes between and gives another token or none.
pub proof fn lemma_rotated_token_is_presented_next(
    kind: ControllerKind,
    session: SessionView,
    retries: nat,
    status: u16,
    token: Seq<char>,
    role: ReauthRole,
    login_csrf: Option<Seq<char>>,
)
    requires
        !(outcome(kind, retries, status) == Ok::<Step, UniFiError>(Step::Reauthenticate) && role
            == ReauthRole::Leader && login_csrf != Some(token)),
    ensures
        before_next_request(
            kind,
            session,
            retries,
            status,
            Some(token),
            role,
            login_csrf,
        ).request_csrf(ControllerKind::Os) == Some(token),
{
}

/// After a new login, the repeated request presents to a console what the
/// login gave, be it a token or none, and the epoch has advanced by one.
pub proof fn lemma_new_login_is_presented_next(
    kind: ControllerKind,
    session: SessionView,
    status: u16,
    updated_csrf: Option<Seq<char>>,
    login_csrf: Option<Seq<char>>,
)
    requires
        is_auth_failure(kind, status),
    ensures
        before_next_request(
            kind,
            session,
            0,
            status,
            updated_csrf,
            ReauthRole::Leader,
            login_csrf,
        ).request_csrf(ControllerKind::Os) == login_csrf,
        before_next_request(
            kind,
            session,
            0,
            status,
            updated_csrf,
            ReauthRole::Leader,
            login_csrf,
        ).epoch == session.epoch + 1,
{
}

/// After a new login that gave no token, the repeated request presents none,
/// whatever token the session held and whatever the failed response rotated
/// to; and so does the request after it, whatever the status that the
/// repeated request met, as long as neither a rotation nor a login gives a
/// token.
pub proof fn lemma_login_without_token_presents_none(
    kind: ControllerKind,
    session: SessionView,
    status: u16,
    updated_csrf: Option<Seq<char>>,
    presented_to: ControllerKind,
    later_retries: nat,
    later_status: u16,
    later_role: ReauthRole,
)
    requires
        is_auth_failure(kind, status),
    ensures
        before_next_request(
            kind,
            session,
            0,
            status,
            updated_csrf,
            ReauthRole::Leader,
            None,
        ).request_csrf(presented_to) is None,
        before_next_request(kind, session, 0, status, updated_csrf, ReauthRole::Leader, None).epoch
            == session.epoch + 1,
        before_next_request(
            kind,
            before_next_request(kind, session, 0, status, updated_csrf, ReauthRole::Leader, None),
            later_retries,
            later_status,
            None,
            later_role,
            None,
        ).request_csrf(presented_to) is None,
{
}

/// A request that meets an authentication failure, then a login that the
/// controller accepts, then a status that is no authentication failure, is
/// sent twice and asks for one login; the second response is delivered; the
/// repeated request presents to a console what the new login gave, not what
/// the session held before; and the epoch has advanced by one.
pub proof fn lemma_retry_after_new_login(
    kind: ControllerKind,
    session: SessionView,
    statuses: Seq<u16>,
    updated_csrf: Option<Seq<char>>,
    login_csrf: Option<Seq<char>>,
)
    requires
        statuses.len() >= 2,
        is_auth_failure(kind, statuses[0]),
        !is_auth_failure(kind, statuses[1]),
    ensures
        run(kind, 0, statuses).attempts == 2,
        run(kind, 0, statuses).logins == 1,
        run(kind, 0, statuses).end == Some(Ok::<u16, UniFiError>(statuses[1])),
        before_next_request(
            kind,
            session,
            0,
            statuses[0],
            updated_csrf,
            ReauthRole::Leader,
            login_csrf,
        ).request_csrf(ControllerKind::Os) == login_csrf,
        before_next_request(
            kind,
            session,
            0,
            statuses[0],
            updated_csrf,
            ReauthRole::Leader,
            login_csrf,
        ).epoch == session.epoch + 1,
{
    lemma_retry_once(kind, statuses);
}

/// A builder that names credentials that are not blank, and a URL that parses
/// and has a root, builds a client for a Network controller, whatever the
/// probe met short of 200; and for a console, if the path of its API can be
/// joined to the URL.
pub proof fn lemma_usable_configuration_builds(builder: BuilderView, probe: Option<u16>)
    requires
        builder.username is Some && !is_blank(builder.username->0),
        builder.password is Some && !is_blank(builder.password->0),
        builder.controller_url is Some,
        url_parsed(builder.controller_url->0) matches Ok(url) && url_joined(url, "/"@) is Ok && (
        detected(probe) == ControllerKind::Os ==> url_joined(
            url,
            ControllerKind::Os.spec_api_base_path(),
        ) is Ok),
    ensures
        built(builder, probe) matches Ok(client) && client.controller_kind == detected(probe)
            && client.username == builder.username->0 && client.password == builder.password,
{
}

/// Building a client and logging in leave a session at epoch 1: with a usable
/// configuration, a URL that takes the paths that are joined to it, and a
/// login that is answered with a status of success, a cookie and, on a Network
/// controller, an envelope that says `ok`.
pub proof fn lemma_build_and_login_authenticate(
    builder: BuilderView,
    probe: Option<u16>,
    status: u16,
    envelope: Option<Result<ApiMeta, reqwest::Error>>,
    csrf: Option<Seq<char>>,
)
    requires
        builder.username is Some && !is_blank(builder.username->0),
        builder.password is Some && !is_blank(builder.password->0),
        builder.controller_url is Some,
        url_parsed(builder.controller_url->0) matches Ok(url) && url_joined(url, "/"@) is Ok && (
        detected(probe) == ControllerKind::Os ==> url_joined(
            url,
            ControllerKind::Os.spec_api_base_path(),
        ) is Ok),
        200 <= status < 300,
        detected(probe) == ControllerKind::Network ==> (envelope matches Some(Ok(meta))
            && meta.spec_is_ok()),
    ensures
        built(builder, probe) matches Ok(client) && login_verdict(
            client.controller_kind,
            status,
            true,
            envelope,
        ) is Accepted,
        SessionView::fresh().established(csrf).epoch == 1,
        SessionView::fresh().established(csrf).authenticated(),
{
}

/// A login that the controller accepts leaves the session authenticated: a
/// status of success, a cookie, and on a Network controller an envelope that
/// says `ok`.
pub proof fn lemma_accepted_login_authenticates(
    kind: ControllerKind,
    status: u16,
    envelope: Option<Result<ApiMeta, reqwest::Error>>,
    before: SessionView,
    csrf: Option<Seq<char>>,
)
    requires
        200 <= status < 300,
        kind == ControllerKind::Network ==> (envelope matches Some(Ok(meta)) && meta.spec_is_ok()),
    ensures
        login_verdict(kind, status, true, envelope) is Accepted,
        before.established(csrf).epoch > 0,
{
}

} // verus!
