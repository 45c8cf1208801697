use http::{HeaderMap, HeaderValue, StatusCode};
use std::collections::VecDeque;
use unifi_client::api::guests::AuthorizeGuestBuilder;
use unifi_client::client::{LoginResponse, UniFiClient};
use unifi_client::headers::{HEADER_CSRF_TOKEN, HEADER_SET_COOKIE, HEADER_UPDATED_CSRF_TOKEN};
use unifi_client::models::api_response::{ApiMeta, ApiResponse};
use unifi_client::models::guests::GuestEntry;
use unifi_client::session::{Attempt, ControllerKind, ReauthRole, SessionState, Step};
use unifi_client::UniFiError;

/// What a controller answers to a login.
#[derive(Clone)]
struct LoginReply {
    status: u16,
    cookie: bool,
    csrf: Option<&'static str>,
    rc: &'static str,
    msg: Option<&'static str>,
}

impl LoginReply {
    fn ok(kind: ControllerKind) -> LoginReply {
        LoginReply {
            status: 200,
            cookie: true,
            csrf: match kind {
                ControllerKind::Os => Some("test-csrf"),
                ControllerKind::Network => None,
            },
            rc: "ok",
            msg: None,
        }
    }

    fn status(status: u16) -> LoginReply {
        LoginReply { status, cookie: false, csrf: None, rc: "error", msg: None }
    }
}

/// What a controller answers to a request.
#[derive(Clone)]
struct Reply {
    status: u16,
    updated_csrf: Option<&'static str>,
}

impl Reply {
    fn status(status: u16) -> Reply {
        Reply { status, updated_csrf: None }
    }
}

/// A request as the controller saw it.
#[derive(Debug, PartialEq)]
struct Seen {
    url: String,
    csrf: Option<String>,
}

/// A controller that answers by the book, and notes what it is sent.
struct Controller {
    kind: ControllerKind,
    logins: VecDeque<LoginReply>,
    replies: VecDeque<Reply>,
    login_posts: Vec<(String, String, String)>,
    bodies_read: usize,
    requests: Vec<Seen>,
}

impl Controller {
    fn new(kind: ControllerKind) -> Controller {
        Controller {
            kind,
            logins: VecDeque::new(),
            replies: VecDeque::new(),
            login_posts: Vec::new(),
            bodies_read: 0,
            requests: Vec::new(),
        }
    }

    fn probe(&self) -> StatusCode {
        match self.kind {
            ControllerKind::Os => StatusCode::OK,
            ControllerKind::Network => StatusCode::NOT_MODIFIED,
        }
    }

    fn then_login(mut self, reply: LoginReply) -> Controller {
        self.logins.push_back(reply);
        self
    }

    fn then_reply(mut self, reply: Reply) -> Controller {
        self.replies.push_back(reply);
        self
    }

    /// Builds a client as an application does: probe, build, login.
    fn build(
        &mut self,
        username: &str,
        password: &str,
    ) -> Result<(UniFiClient, SessionState), UniFiError> {
        let builder = UniFiClient::builder()
            .controller_url("https://controller.example:8443")
            .username(username)
            .password(password)
            .site("default")
            .accept_invalid_certs(false);
        builder.probe_url()?;
        let client = builder.build(Some(&self.probe()))?;
        let mut session = SessionState::new();
        self.login(&client, &mut session)?;
        Ok((client, session))
    }

    fn login(&mut self, client: &UniFiClient, session: &mut SessionState) -> Result<(), UniFiError> {
        let plan = client.login_request()?;
        self.login_posts.push((
            plan.url.as_str().to_string(),
            plan.body.username.clone(),
            plan.body.password.clone(),
        ));
        let reply = self.logins.pop_front().expect("a login that the test did not expect");
        let mut headers = HeaderMap::new();
        if reply.cookie {
            headers.insert("set-cookie", HeaderValue::from_static("TOKEN=test-token; path=/"));
        }
        if let Some(token) = reply.csrf {
            headers.insert("x-csrf-token", HeaderValue::from_str(token).unwrap());
        }
        let status = StatusCode::from_u16(reply.status).unwrap();
        // The body is read where the client says so, and only there.
        let envelope = if client.login_reads_body(&status, &headers) {
            self.bodies_read += 1;
            Some(Ok(ApiMeta {
                rc: reply.rc.to_string(),
                msg: reply.msg.map(|text| text.to_string()),
            }))
        } else {
            None
        };
        let response = LoginResponse { status, headers, envelope };
        assert!(session.epoch() < usize::MAX);
        client.login(session, response)
    }

    /// Sends a request as an application does: ask what to send, hand back
    /// what came in, log in again and repeat where the client says so.
    fn call(
        &mut self,
        client: &UniFiClient,
        session: &mut SessionState,
        endpoint: &str,
    ) -> Result<StatusCode, UniFiError> {
        let mut attempt = Attempt::first();
        loop {
            assert!(session.is_authenticated());
            let plan = client.request(session, endpoint)?;
            self.requests.push(Seen {
                url: plan.url.as_str().to_string(),
                csrf: plan
                    .csrf_token
                    .as_ref()
                    .map(|value| value.to_str().unwrap().to_string()),
            });
            let reply = self.replies.pop_front().expect("a request that the test did not expect");
            let status = StatusCode::from_u16(reply.status).unwrap();
            let mut headers = HeaderMap::new();
            if let Some(token) = reply.updated_csrf {
                headers.insert("x-updated-csrf-token", HeaderValue::from_str(token).unwrap());
            }
            match client.response(session, &mut attempt, &status, &headers)? {
                Step::Deliver => return Ok(status),
                Step::Reauthenticate => {
                    let observed = session.epoch();
                    if session.reauth_role(observed) == ReauthRole::Leader {
                        self.login(client, session)?;
                    }
                }
            }
        }
    }
}

fn cookie_headers() -> HeaderMap {
    let mut headers = HeaderMap::new();
    headers.insert(HEADER_SET_COOKIE, HeaderValue::from_static("unifises=test-cookie"));
    headers
}

fn ok_envelope() -> Result<ApiResponse<Vec<u8>>, reqwest::Error> {
    Ok(ApiResponse {
        meta: ApiMeta { rc: "ok".to_string(), msg: None },
        data: Some(Vec::new()),
    })
}

fn kinds() -> [ControllerKind; 2] {
    [ControllerKind::Network, ControllerKind::Os]
}

#[test]
fn header_names_are_those_of_the_controller() {
    assert_eq!(HEADER_CSRF_TOKEN, "x-csrf-token");
    assert_eq!(HEADER_UPDATED_CSRF_TOKEN, "x-updated-csrf-token");
    assert_eq!(HEADER_SET_COOKIE, "set-cookie");
}

#[test]
fn test_successful_login() {
    for kind in kinds() {
        let mut controller = Controller::new(kind)
            .then_login(LoginReply::ok(kind))
            .then_reply(Reply::status(200));
        let (client, mut session) = controller.build("test-user", "test-password").unwrap();
        assert!(session.is_authenticated());
        assert_eq!(session.epoch(), 1);

        let status = controller.call(&client, &mut session, "/api/self").unwrap();
        let result = UniFiClient::request_json(&status, ok_envelope());
        assert!(result.is_ok());

        let (login_url, username, password) = controller.login_posts[0].clone();
        assert_eq!(username, "test-user");
        assert_eq!(password, "test-password");
        match kind {
            ControllerKind::Network => {
                assert_eq!(login_url, "https://controller.example:8443/api/login");
                assert_eq!(
                    controller.requests,
                    vec![Seen {
                        url: "https://controller.example:8443/api/self".to_string(),
                        csrf: None,
                    }]
                );
            }
            ControllerKind::Os => {
                assert_eq!(login_url, "https://controller.example:8443/api/auth/login");
                assert_eq!(
                    controller.requests,
                    vec![Seen {
                        url: "https://controller.example:8443/proxy/network/api/self".to_string(),
                        csrf: Some("test-csrf".to_string()),
                    }]
                );
            }
        }
    }
}

#[test]
fn test_failed_login_invalid_credentials() {
    for kind in kinds() {
        // Login failure status code differs by kind
        let status = match kind {
            ControllerKind::Network => 400,
            ControllerKind::Os => 403,
        };
        let mut controller = Controller::new(kind).then_login(LoginReply::status(status));
        let unifi_client = controller.build("test-user", "wrong-password");

        assert!(unifi_client.is_err());
        match (kind, unifi_client) {
            (ControllerKind::Network, Err(UniFiError::AuthenticationError(msg))) => {
                assert_eq!(
                    msg,
                    "Authentication failed with status code: 400 Bad Request"
                );
            }
            (ControllerKind::Os, Err(UniFiError::AuthenticationError(msg))) => {
                assert_eq!(msg, "Authentication failed with status code: 403 Forbidden");
            }
            _ => panic!("Expected AuthenticationError"),
        }
        assert_eq!(controller.login_posts[0].2, "wrong-password");
    }
}

#[test]
fn test_login_server_error() {
    for kind in kinds() {
        let mut controller = Controller::new(kind).then_login(LoginReply::status(500));
        let unifi_client = controller.build("test-user", "test-password");

        assert!(unifi_client.is_err());
        match unifi_client {
            Err(UniFiError::AuthenticationError(msg)) => {
                assert!(msg.contains("500"));
                assert_eq!(
                    msg,
                    "Authentication failed with status code: 500 Internal Server Error"
                );
            }
            _ => panic!("Expected AuthenticationError"),
        }
    }
}

#[test]
fn test_login_no_cookies() {
    for kind in kinds() {
        let reply = LoginReply { status: 200, cookie: false, csrf: None, rc: "ok", msg: None };
        let mut controller = Controller::new(kind).then_login(reply);
        let unifi_client = controller.build("test-user", "test-password");

        assert!(unifi_client.is_err());
        match unifi_client {
            Err(UniFiError::AuthenticationError(msg)) => {
                assert_eq!(msg, "No cookies received from server");
            }
            _ => panic!("Expected AuthenticationError"),
        }
    }
}

#[test]
fn a_login_that_fails_leaves_the_session_as_it_was() {
    for kind in kinds() {
        let mut controller = Controller::new(kind)
            .then_login(LoginReply::ok(kind))
            .then_login(LoginReply::status(500))
            .then_login(LoginReply { status: 200, cookie: false, csrf: Some("other"), rc: "ok", msg: None });
        let (client, mut session) = controller.build("test-user", "test-password").unwrap();
        let token = session.csrf_token().map(|t| t.to_string());
        assert!(controller.login(&client, &mut session).is_err());
        assert!(controller.login(&client, &mut session).is_err());
        assert_eq!(session.epoch(), 1);
        assert_eq!(session.csrf_token().map(|t| t.to_string()), token);
    }
}

#[test]
fn a_network_controller_must_say_ok() {
    let kind = ControllerKind::Network;
    let refused = LoginReply {
        status: 200,
        cookie: true,
        csrf: None,
        rc: "error",
        msg: Some("api.err.Invalid"),
    };
    let mut controller = Controller::new(kind).then_login(refused);
    match controller.build("test-user", "test-password") {
        Err(UniFiError::AuthenticationError(msg)) => assert_eq!(msg, "api.err.Invalid"),
        other => panic!("Expected AuthenticationError, got {:?}", other.map(|_| ())),
    }

    let wordless = LoginReply { status: 200, cookie: true, csrf: None, rc: "error", msg: None };
    let mut controller = Controller::new(kind).then_login(wordless);
    match controller.build("test-user", "test-password") {
        Err(UniFiError::AuthenticationError(msg)) => assert_eq!(msg, "Unknown error"),
        other => panic!("Expected AuthenticationError, got {:?}", other.map(|_| ())),
    }
}

#[test]
fn a_console_is_not_asked_for_an_envelope() {
    let kind = ControllerKind::Os;
    let reply = LoginReply { status: 200, cookie: true, csrf: Some("t"), rc: "error", msg: None };
    let mut controller = Controller::new(kind).then_login(reply);
    let (_, session) = controller.build("test-user", "test-password").unwrap();
    assert_eq!(session.epoch(), 1);
    assert_eq!(session.csrf_token(), Some("t"));
    assert_eq!(controller.bodies_read, 0);
}

#[test]
fn the_body_of_a_login_is_read_on_a_network_controller_that_accepts_the_headers() {
    let network = UniFiClient::builder()
        .controller_url("https://controller.example:8443")
        .username("test-user")
        .password("test-password")
        .build(Some(&StatusCode::NOT_MODIFIED))
        .unwrap();
    let console = UniFiClient::builder()
        .controller_url("https://controller.example:8443")
        .username("test-user")
        .password("test-password")
        .build(Some(&StatusCode::OK))
        .unwrap();
    let bare = HeaderMap::new();
    assert!(network.login_reads_body(&StatusCode::OK, &cookie_headers()));
    assert!(network.login_reads_body(&StatusCode::NO_CONTENT, &cookie_headers()));
    assert!(!network.login_reads_body(&StatusCode::OK, &bare));
    assert!(!network.login_reads_body(&StatusCode::BAD_REQUEST, &cookie_headers()));
    assert!(!network.login_reads_body(&StatusCode::FOUND, &cookie_headers()));
    assert!(!console.login_reads_body(&StatusCode::OK, &cookie_headers()));
    assert!(!console.login_reads_body(&StatusCode::OK, &bare));
    assert!(!console.login_reads_body(&StatusCode::FORBIDDEN, &cookie_headers()));

    // A response whose body was not read is judged by its status and its cookie.
    let mut session = SessionState::new();
    let refused = LoginResponse { status: StatusCode::BAD_REQUEST, headers: bare, envelope: None };
    match network.login(&mut session, refused) {
        Err(UniFiError::AuthenticationError(msg)) => {
            assert_eq!(msg, "Authentication failed with status code: 400 Bad Request")
        }
        other => panic!("Expected AuthenticationError, got {other:?}"),
    }
    let accepted =
        LoginResponse { status: StatusCode::OK, headers: cookie_headers(), envelope: None };
    console.login(&mut session, accepted).unwrap();
    assert_eq!(session.epoch(), 1);

    let mut controller = Controller::new(ControllerKind::Network)
        .then_login(LoginReply::ok(ControllerKind::Network))
        .then_login(LoginReply::status(500));
    let (client, mut session) = controller.build("test-user", "test-password").unwrap();
    assert_eq!(controller.bodies_read, 1);
    assert!(controller.login(&client, &mut session).is_err());
    assert_eq!(controller.bodies_read, 1);
}

#[test]
fn a_network_login_whose_body_cannot_be_read_is_an_http_error() {
    let client = UniFiClient::builder()
        .controller_url("https://controller.example:8443")
        .username("test-user")
        .password("test-password")
        .build(Some(&StatusCode::NOT_MODIFIED))
        .unwrap();
    let unreadable = reqwest::Client::new().get("not a url").build().unwrap_err();
    let said = unreadable.to_string();
    let mut session = SessionState::new();
    let response = LoginResponse {
        status: StatusCode::OK,
        headers: cookie_headers(),
        envelope: Some(Err(unreadable)),
    };
    match client.login(&mut session, response) {
        Err(UniFiError::HttpError(error)) => assert_eq!(error.to_string(), said),
        other => panic!("Expected HttpError, got {other:?}"),
    }
    assert_eq!(session.epoch(), 0);

    // A console does not look at the body.
    let console = UniFiClient::builder()
        .controller_url("https://controller.example:8443")
        .username("test-user")
        .password("test-password")
        .build(Some(&StatusCode::OK))
        .unwrap();
    let unreadable = reqwest::Client::new().get("not a url").build().unwrap_err();
    let response = LoginResponse {
        status: StatusCode::OK,
        headers: cookie_headers(),
        envelope: Some(Err(unreadable)),
    };
    assert!(console.login(&mut session, response).is_ok());
    assert_eq!(session.epoch(), 1);
}

#[test]
fn a_csrf_header_that_is_not_text_counts_as_absent() {
    let console = UniFiClient::builder()
        .controller_url("https://controller.example:8443")
        .username("test-user")
        .password("test-password")
        .build(Some(&StatusCode::OK))
        .unwrap();
    let mut session = SessionState::new();
    let mut headers = cookie_headers();
    headers.insert(HEADER_CSRF_TOKEN, HeaderValue::from_bytes(b"tok\xffen").unwrap());
    let response = LoginResponse {
        status: StatusCode::OK,
        headers,
        envelope: None,
    };
    console.login(&mut session, response).unwrap();
    assert_eq!(session.epoch(), 1);
    assert_eq!(session.csrf_token(), None);

    // The same holds of a rotation.
    session.rotate_csrf("kept");
    let mut attempt = Attempt::first();
    let mut opaque = HeaderMap::new();
    opaque.insert(HEADER_UPDATED_CSRF_TOKEN, HeaderValue::from_bytes(b"\xfe").unwrap());
    let next = console
        .response(&mut session, &mut attempt, &StatusCode::OK, &opaque)
        .unwrap();
    assert_eq!(next, Step::Deliver);
    assert_eq!(session.csrf_token(), Some("kept"));
}

#[test]
fn headers_are_found_whatever_their_case_and_the_first_value_counts() {
    let console = UniFiClient::builder()
        .controller_url("https://controller.example:8443")
        .username("test-user")
        .password("test-password")
        .build(Some(&StatusCode::OK))
        .unwrap();
    let mut headers = HeaderMap::new();
    headers.append("Set-Cookie", HeaderValue::from_static("a=1"));
    headers.append("SET-COOKIE", HeaderValue::from_static("b=2"));
    headers.append("X-CSRF-Token", HeaderValue::from_static("first"));
    headers.append("x-csrf-token", HeaderValue::from_static("second"));
    headers.insert("x-updated-csrf-token", HeaderValue::from_static("not looked at by a login"));
    let mut session = SessionState::new();
    let response = LoginResponse {
        status: StatusCode::OK,
        headers,
        envelope: None,
    };
    console.login(&mut session, response).unwrap();
    assert_eq!(session.csrf_token(), Some("first"));

    // A response rotates by its own header, and by no other.
    let mut attempt = Attempt::first();
    let mut headers = HeaderMap::new();
    headers.insert("x-csrf-token", HeaderValue::from_static("not a rotation"));
    headers.insert("set-cookie", HeaderValue::from_static("c=3"));
    console.response(&mut session, &mut attempt, &StatusCode::OK, &headers).unwrap();
    assert_eq!(session.csrf_token(), Some("first"));
    headers.append("X-Updated-CSRF-Token", HeaderValue::from_static("rotated"));
    headers.append("X-Updated-CSRF-Token", HeaderValue::from_static("rotated again"));
    console.response(&mut session, &mut attempt, &StatusCode::OK, &headers).unwrap();
    assert_eq!(session.csrf_token(), Some("rotated"));
}

#[test]
fn login_request_needs_credentials() {
    let url = url::Url::parse("https://example.invalid:8443").unwrap();
    let inert = UniFiClient::from_parts(
        ControllerKind::Network,
        url.clone(),
        url.clone(),
        "",
        None,
        "default",
    );
    match inert.login_request() {
        Err(UniFiError::ConfigurationError(msg)) => assert_eq!(msg, "Username is required"),
        other => panic!("Expected ConfigurationError, got {other:?}"),
    }
    let nameless =
        UniFiClient::from_parts(ControllerKind::Network, url.clone(), url.clone(), " \t", Some("p"), "default");
    match nameless.login_request() {
        Err(UniFiError::ConfigurationError(msg)) => assert_eq!(msg, "Username is required"),
        other => panic!("Expected ConfigurationError, got {other:?}"),
    }
    for password in [None, Some(""), Some("  \n")] {
        let client = UniFiClient::from_parts(
            ControllerKind::Os,
            url.clone(),
            url.clone(),
            "user",
            password,
            "default",
        );
        match client.login_request() {
            Err(UniFiError::ConfigurationError(msg)) => assert_eq!(msg, "Password is required"),
            other => panic!("Expected ConfigurationError, got {other:?}"),
        }
    }
    let mailer = url::Url::parse("mailto:admin@example.com").unwrap();
    let client = UniFiClient::from_parts(
        ControllerKind::Os,
        mailer.clone(),
        mailer,
        "user",
        Some(" padded "),
        "default",
    );
    match client.login_request() {
        Err(UniFiError::UrlParseError(error)) => {
            assert_eq!(error, url::ParseError::RelativeUrlWithCannotBeABaseBase)
        }
        other => panic!("Expected UrlParseError, got {other:?}"),
    }
    let client = UniFiClient::from_parts(
        ControllerKind::Os,
        url.clone(),
        url,
        "user",
        Some(" padded "),
        "default",
    );
    let plan = client.login_request().unwrap();
    assert_eq!(plan.url.as_str(), "https://example.invalid:8443/api/auth/login");
    assert_eq!(plan.body.username, "user");
    assert_eq!(plan.body.password, " padded ");
}

#[test]
fn test_csrf_rotation_on_success_response() {
    let kind = ControllerKind::Os;
    let cases: &[(u16, &str, &'static str)] =
        &[(200, "/api/self-200", "rotated-200"), (204, "/api/self-204", "rotated-204")];

    for (status, ep, rotated) in cases {
        let mut controller = Controller::new(kind)
            .then_login(LoginReply::ok(kind))
            .then_reply(Reply { status: *status, updated_csrf: Some(rotated) })
            .then_reply(Reply::status(200));
        let (client, mut session) = controller.build("test-user", "test-password").unwrap();

        // First call triggers the rotation.
        let resp1 = controller.call(&client, &mut session, ep).unwrap();
        assert_eq!(resp1, StatusCode::from_u16(*status).unwrap());

        // Second call must present the rotated CSRF.
        let resp2 = controller.call(&client, &mut session, ep).unwrap();
        assert_eq!(resp2, StatusCode::OK);

        assert_eq!(controller.requests[0].csrf.as_deref(), Some("test-csrf"));
        assert_eq!(controller.requests[1].csrf.as_deref(), Some(*rotated));
        assert_eq!(controller.login_posts.len(), 1);
        assert_eq!(session.epoch(), 1);
    }
}

#[test]
fn csrf_rotation_on_an_error_response_is_kept() {
    let kind = ControllerKind::Os;
    for status in [404u16, 500, 418, 302] {
        let mut controller = Controller::new(kind)
            .then_login(LoginReply::ok(kind))
            .then_reply(Reply { status, updated_csrf: Some("rotated-on-error") })
            .then_reply(Reply::status(200));
        let (client, mut session) = controller.build("test-user", "test-password").unwrap();
        let first = controller.call(&client, &mut session, "/api/self").unwrap();
        assert_eq!(first.as_u16(), status);
        controller.call(&client, &mut session, "/api/self").unwrap();
        assert_eq!(controller.requests[1].csrf.as_deref(), Some("rotated-on-error"));
        assert_eq!(controller.login_posts.len(), 1);
    }
}

#[test]
fn csrf_rotation_on_the_second_auth_failure_is_kept() {
    let kind = ControllerKind::Os;
    let mut controller = Controller::new(kind)
        .then_login(LoginReply::ok(kind))
        .then_reply(Reply::status(401))
        .then_login(LoginReply::ok(kind))
        .then_reply(Reply { status: 403, updated_csrf: Some("late") })
        .then_reply(Reply::status(200));
    let (client, mut session) = controller.build("test-user", "test-password").unwrap();
    match controller.call(&client, &mut session, "/api/self") {
        Err(UniFiError::NotAuthenticated) => {}
        other => panic!("Expected NotAuthenticated, got {other:?}"),
    }
    assert_eq!(session.csrf_token(), Some("late"));
    controller.call(&client, &mut session, "/api/self").unwrap();
    assert_eq!(controller.requests[2].csrf.as_deref(), Some("late"));
}

#[test]
fn a_network_controller_is_sent_no_csrf_token() {
    let kind = ControllerKind::Network;
    let mut controller = Controller::new(kind)
        .then_login(LoginReply { status: 200, cookie: true, csrf: Some("stray"), rc: "ok", msg: None })
        .then_reply(Reply { status: 200, updated_csrf: Some("rotated") })
        .then_reply(Reply::status(200));
    let (client, mut session) = controller.build("test-user", "test-password").unwrap();
    assert_eq!(session.csrf_token(), Some("stray"));
    controller.call(&client, &mut session, "/api/self").unwrap();
    controller.call(&client, &mut session, "/api/self").unwrap();
    assert_eq!(session.csrf_token(), Some("rotated"));
    assert_eq!(controller.requests[0].csrf, None);
    assert_eq!(controller.requests[1].csrf, None);
}

#[test]
fn test_csrf_cleared_after_relogin_without_csrf_header() {
    let kind = ControllerKind::Os;
    let mut controller = Controller::new(kind)
        // Initial login seeds CSRF state.
        .then_login(LoginReply { status: 200, cookie: true, csrf: Some("test-csrf"), rc: "ok", msg: None })
        // 1) The first GET is forced to 401 to trigger re-auth.
        .then_reply(Reply::status(401))
        // 2) Re-login succeeds but does NOT return x-csrf-token.
        .then_login(LoginReply { status: 200, cookie: true, csrf: None, rc: "ok", msg: None })
        // 3) The retried GET succeeds.
        .then_reply(Reply::status(200));
    let (client, mut session) = controller.build("test-user", "test-password").unwrap();

    let status = controller.call(&client, &mut session, "/api/self").unwrap();
    let result = UniFiClient::request_json(&status, ok_envelope());
    assert!(
        result.is_ok(),
        "expected success after CSRF cleared, got {result:?}"
    );

    assert_eq!(controller.requests[0].csrf.as_deref(), Some("test-csrf"));
    assert_eq!(controller.requests[1].csrf, None);
    assert_eq!(session.csrf_token(), None);
    assert_eq!(session.epoch(), 2);
}

#[test]
fn test_invalid_endpoint_rejected() {
    let kind = ControllerKind::Os;
    let mut controller = Controller::new(kind).then_login(LoginReply::ok(kind));
    let (client, mut session) = controller.build("test-user", "test-password").unwrap();
    match controller.call(&client, &mut session, "/api/self?foo=bar") {
        Err(UniFiError::InvalidEndpoint(msg)) => {
            assert!(msg.contains("endpoint must not include query"));
        }
        other => panic!("expected InvalidEndpoint error for query-bearing path, got {other:?}"),
    }
    // Nothing was sent.
    assert!(controller.requests.is_empty());
    assert_eq!(controller.login_posts.len(), 1);
}

#[test]
fn an_invalid_endpoint_is_rejected_whatever_the_session() {
    for kind in kinds() {
        let client = UniFiClient::builder()
            .controller_url("https://controller.example:8443")
            .username("test-user")
            .password("test-password")
            .build(Some(&Controller::new(kind).probe()))
            .unwrap();
        let mut session = SessionState::new();
        session.establish_session(Some("test-csrf"));
        for endpoint in ["/api/self?foo=bar", "/api/self#frag", "?", "#", "a/b?c#d"] {
            match client.request(&session, endpoint) {
                Err(UniFiError::InvalidEndpoint(msg)) => assert_eq!(
                    msg,
                    format!("endpoint must not include query or fragment: {endpoint}")
                ),
                other => panic!("expected InvalidEndpoint, got {other:?}"),
            }
        }
        session.rotate_csrf("bad\ntoken");
        match client.request(&session, "/api/self#frag") {
            Err(UniFiError::InvalidEndpoint(_)) => {}
            other => panic!("expected InvalidEndpoint, got {other:?}"),
        }
    }
}

#[test]
fn test_request_retries_once_on_403_os() {
    let kind = ControllerKind::Os;
    let mut controller = Controller::new(kind)
        .then_login(LoginReply { status: 200, cookie: true, csrf: Some("test-csrf"), rc: "ok", msg: None })
        // The first attempt returns 403.
        .then_reply(Reply::status(403))
        // The client should retry exactly once by re-authenticating.
        .then_login(LoginReply { status: 200, cookie: true, csrf: Some("rotated-csrf"), rc: "ok", msg: None })
        // The retried request must succeed using the rotated credentials.
        .then_reply(Reply::status(200));
    let (client, mut session) = controller.build("test-user", "test-password").unwrap();

    let status = controller.call(&client, &mut session, "/api/self").unwrap();
    let result = UniFiClient::request_json(&status, ok_envelope()).unwrap();
    assert_eq!(result, Some(Vec::new()));

    let endpoint_path = "https://controller.example:8443/proxy/network/api/self";
    let get_attempts = controller
        .requests
        .iter()
        .filter(|req| req.url == endpoint_path)
        .count();
    assert_eq!(
        get_attempts, 2,
        "expected exactly two GET attempts (first + retry), saw {get_attempts}"
    );

    let login_attempts = controller.login_posts.len();
    assert_eq!(
        login_attempts, 2,
        "expected initial login plus one re-authentication, saw {login_attempts}"
    );
    assert_eq!(controller.requests[0].csrf.as_deref(), Some("test-csrf"));
    assert_eq!(controller.requests[1].csrf.as_deref(), Some("rotated-csrf"));
}

#[test]
fn a_403_is_no_auth_failure_on_a_network_controller() {
    let kind = ControllerKind::Network;
    let mut controller = Controller::new(kind)
        .then_login(LoginReply::ok(kind))
        .then_reply(Reply::status(403));
    let (client, mut session) = controller.build("test-user", "test-password").unwrap();
    let status = controller.call(&client, &mut session, "/api/self").unwrap();
    assert_eq!(status, StatusCode::FORBIDDEN);
    assert_eq!(controller.requests.len(), 1);
    assert_eq!(controller.login_posts.len(), 1);
    match UniFiClient::request_json(&status, ok_envelope()) {
        Err(UniFiError::ApiError(msg)) => {
            assert_eq!(msg, "API request failed with status code: 403 Forbidden")
        }
        other => panic!("Expected ApiError, got {other:?}"),
    }
}

#[test]
fn a_401_is_retried_once_and_the_guests_are_listed() {
    // The controller answers 401 to the first GET, then 200 after a new login.
    for kind in kinds() {
        let mut controller = Controller::new(kind)
            .then_login(LoginReply::ok(kind))
            .then_reply(Reply::status(401))
            .then_login(LoginReply::ok(kind))
            .then_reply(Reply::status(200));
        let (client, mut session) = controller.build("test-user", "test-password").unwrap();
        let status = controller
            .call(&client, &mut session, "/api/s/default/stat/guest")
            .unwrap();
        assert_eq!(status, StatusCode::OK);
        let answer: Result<ApiResponse<Vec<GuestEntry>>, reqwest::Error> = Ok(ApiResponse {
            meta: ApiMeta { rc: "ok".to_string(), msg: None },
            data: Some(vec![
                guest("guest1", "00:11:22:33:44:55", false, None),
                guest("guest2", "aa:bb:cc:dd:ee:ff", true, Some("api")),
            ]),
        });
        let guests = UniFiClient::get(&status, answer).unwrap();
        assert_eq!(guests.len(), 2);
        assert_eq!(guests[0].mac(), "00:11:22:33:44:55");
        assert_eq!(guests[1].mac(), "aa:bb:cc:dd:ee:ff");
        assert_eq!(controller.login_posts.len(), 2);
        assert_eq!(controller.requests.len(), 2);
        assert_eq!(controller.requests[0].url, controller.requests[1].url);
        assert!(controller.requests[0].url.ends_with("/api/s/default/stat/guest"));
        assert_eq!(session.epoch(), 2);
    }
}

#[test]
fn a_second_auth_failure_is_not_authenticated() {
    for kind in kinds() {
        let mut controller = Controller::new(kind)
            .then_login(LoginReply::ok(kind))
            .then_reply(Reply::status(401))
            .then_login(LoginReply::ok(kind))
            .then_reply(Reply::status(401))
            .then_reply(Reply::status(200));
        let (client, mut session) = controller.build("test-user", "test-password").unwrap();
        match controller.call(&client, &mut session, "/api/self") {
            Err(UniFiError::NotAuthenticated) => {}
            other => panic!("Expected NotAuthenticated, got {other:?}"),
        }
        // No third attempt, and no second new login.
        assert_eq!(controller.requests.len(), 2);
        assert_eq!(controller.login_posts.len(), 2);
        assert_eq!(controller.replies.len(), 1);
    }
}

#[test]
fn a_new_login_that_fails_ends_the_request() {
    let kind = ControllerKind::Os;
    let mut controller = Controller::new(kind)
        .then_login(LoginReply::ok(kind))
        .then_reply(Reply::status(401))
        .then_login(LoginReply::status(403))
        .then_reply(Reply::status(200));
    let (client, mut session) = controller.build("test-user", "test-password").unwrap();
    match controller.call(&client, &mut session, "/api/self") {
        Err(UniFiError::AuthenticationError(msg)) => {
            assert_eq!(msg, "Authentication failed with status code: 403 Forbidden")
        }
        other => panic!("Expected AuthenticationError, got {other:?}"),
    }
    assert_eq!(controller.requests.len(), 1);
    assert_eq!(session.epoch(), 1);
}

#[test]
fn other_statuses_are_delivered_as_they_are() {
    for kind in kinds() {
        for status in [200u16, 204, 302, 400, 404, 418, 500, 503] {
            let mut controller = Controller::new(kind)
                .then_login(LoginReply::ok(kind))
                .then_reply(Reply::status(status));
            let (client, mut session) = controller.build("test-user", "test-password").unwrap();
            let delivered = controller.call(&client, &mut session, "/api/self").unwrap();
            assert_eq!(delivered.as_u16(), status);
            assert_eq!(controller.requests.len(), 1);
            assert_eq!(controller.login_posts.len(), 1);
        }
    }
}

#[test]
fn attempt_counts_one_repetition() {
    let mut attempt = Attempt::first();
    assert_eq!(attempt.count(), 0);
    assert_eq!(
        attempt.decide(ControllerKind::Network, &StatusCode::FORBIDDEN).unwrap(),
        Step::Deliver
    );
    assert_eq!(attempt.count(), 0);
    assert_eq!(
        attempt.decide(ControllerKind::Os, &StatusCode::FORBIDDEN).unwrap(),
        Step::Reauthenticate
    );
    assert_eq!(attempt.count(), 1);
    assert_eq!(
        attempt.decide(ControllerKind::Os, &StatusCode::NOT_FOUND).unwrap(),
        Step::Deliver
    );
    assert_eq!(attempt.count(), 1);
    match attempt.decide(ControllerKind::Network, &StatusCode::UNAUTHORIZED) {
        Err(UniFiError::NotAuthenticated) => {}
        other => panic!("Expected NotAuthenticated, got {other:?}"),
    }
    assert_eq!(attempt.count(), 1);
}

#[test]
fn a_session_that_never_saw_a_login_has_no_token_header_to_give() {
    for probe in [Some(StatusCode::OK), None] {
        let client = UniFiClient::builder()
            .controller_url("https://controller.example:8443")
            .username("test-user")
            .password("test-password")
            .build(probe.as_ref())
            .unwrap();
        let mut session = SessionState::new();
        match client.csrf_header_value(&session) {
            Err(UniFiError::NotAuthenticated) => {}
            other => panic!("Expected NotAuthenticated, got {other:?}"),
        }
        session.rotate_csrf("rotated before any login");
        match client.csrf_header_value(&session) {
            Err(UniFiError::NotAuthenticated) => {}
            other => panic!("Expected NotAuthenticated, got {other:?}"),
        }
    }
}

#[test]
fn the_csrf_header_is_the_token_marked_sensitive() {
    let kind = ControllerKind::Os;
    let mut controller = Controller::new(kind).then_login(LoginReply::ok(kind));
    let (client, mut session) = controller.build("test-user", "test-password").unwrap();
    let header = client.csrf_header_value(&session).unwrap().unwrap();
    assert_eq!(header.as_bytes(), b"test-csrf");
    assert!(header.is_sensitive());

    session.rotate_csrf("tok\u{e9}n");
    let header = client.request(&session, "/api/self").unwrap().csrf_token.unwrap();
    assert_eq!(header.as_bytes(), "tok\u{e9}n".as_bytes());
    assert!(header.is_sensitive());

    session.establish_session(None);
    assert!(client.csrf_header_value(&session).unwrap().is_none());
    assert!(client.request(&session, "/api/self").unwrap().csrf_token.is_none());
}

#[test]
fn a_token_taken_from_a_header_is_presented_byte_for_byte() {
    let kind = ControllerKind::Os;
    let mut controller = Controller::new(kind).then_login(LoginReply::ok(kind));
    let (client, mut session) = controller.build("test-user", "test-password").unwrap();
    let mut attempt = Attempt::first();
    for token in ["plain", "with space and\ttab", "!\"#$%&'()*+,-./:;<=>?@[\\]^_`{|}~", ""] {
        let mut headers = HeaderMap::new();
        headers.insert(HEADER_UPDATED_CSRF_TOKEN, HeaderValue::from_str(token).unwrap());
        client.response(&mut session, &mut attempt, &StatusCode::OK, &headers).unwrap();
        let presented = client.request(&session, "/api/self").unwrap().csrf_token.unwrap();
        assert_eq!(presented.as_bytes(), token.as_bytes());
        assert!(presented.is_sensitive());
    }
}

#[test]
fn a_token_that_cannot_stand_in_a_header_is_an_api_error() {
    let kind = ControllerKind::Os;
    let mut controller = Controller::new(kind).then_login(LoginReply::ok(kind));
    let (client, mut session) = controller.build("test-user", "test-password").unwrap();
    for token in ["line\nbreak", "del\u{7f}", "nul\0"] {
        session.rotate_csrf(token);
        match client.request(&session, "/api/self") {
            Err(UniFiError::ApiError(msg)) => {
                assert_eq!(msg, "Invalid CSRF token: failed to parse header value")
            }
            other => panic!("Expected ApiError, got {other:?}"),
        }
    }
    session.rotate_csrf("tab\tis fine");
    assert!(client.request(&session, "/api/self").is_ok());
}

#[test]
fn session_state_moves_as_told() {
    let mut session = SessionState::new();
    assert_eq!(session.epoch(), 0);
    assert!(!session.is_authenticated());
    assert_eq!(session.csrf_token(), None);

    session.rotate_csrf("early");
    assert_eq!(session.epoch(), 0);
    assert_eq!(session.csrf_token(), Some("early"));

    assert_eq!(session.establish_session(Some("first")), 1);
    assert!(session.is_authenticated());
    assert_eq!(session.csrf_token(), Some("first"));

    session.rotate_csrf("second");
    assert_eq!(session.epoch(), 1);
    assert_eq!(session.csrf_token(), Some("second"));

    assert_eq!(session.establish_session(None), 2);
    assert_eq!(session.csrf_token(), None);
    assert_eq!(session.epoch(), 2);
}

#[test]
fn debug_does_not_show_the_token() {
    let mut session = SessionState::new();
    session.establish_session(Some("csrf-very-secret"));
    let shown = format!("{session:?}");
    assert!(!shown.contains("csrf-very-secret"));
}

fn guest(id: &str, mac: &str, expired: bool, unauthorized_by: Option<&str>) -> GuestEntry {
    GuestEntry::Inactive {
        id: id.to_string(),
        authorized_by: "api".to_string(),
        end: 1622550600,
        expired,
        mac: mac.to_string(),
        site_id: "default".to_string(),
        start: 1622548800,
        unauthorized_by: unauthorized_by.map(|who| who.to_string()),
    }
}

#[test]
fn test_concurrent_client_usage() {
    // Two callers share one client and one session. Each meets a 401 and both
    // saw the same epoch; the one whose turn comes first logs in, the other
    // finds the epoch advanced and does not.
    let kind = ControllerKind::Network;
    let mut controller = Controller::new(kind)
        .then_login(LoginReply::ok(kind))
        .then_login(LoginReply::ok(kind))
        .then_reply(Reply::status(200));
    let (client, mut session) = controller.build("admin", "password").unwrap();
    assert_eq!(
        controller.login_posts.len(),
        1,
        "Client should authenticate once during build"
    );
    assert_eq!(
        controller.login_posts[0],
        (
            "https://controller.example:8443/api/login".to_string(),
            "admin".to_string(),
            "password".to_string()
        )
    );

    // The first caller authorizes a guest, the second lists the guests.
    let authorize = client
        .guests()
        .authorize("00:11:22:33:44:55")
        .duration_minutes(30)
        .send();
    let body = authorize.body.as_ref().unwrap();
    assert_eq!(body.cmd, "authorize-guest");
    assert_eq!(body.mac, "00:11:22:33:44:55");
    assert_eq!(body.minutes, Some(30));
    assert_eq!(body.ap_mac, "00:00:00:00:00:00");
    let list = client.guests().list().send();

    let unauthorized = StatusCode::UNAUTHORIZED;
    let mut first = Attempt::first();
    let mut second = Attempt::first();

    // Both send, and both are refused.
    let sent = client.request(&session, &authorize.endpoint).unwrap();
    assert_eq!(sent.url.as_str(), "https://controller.example:8443/api/s/default/cmd/stamgr");
    let sent = client.request(&session, &list.endpoint).unwrap();
    assert_eq!(sent.url.as_str(), "https://controller.example:8443/api/s/default/stat/guest");
    assert_eq!(
        client.response(&mut session, &mut first, &unauthorized, &HeaderMap::new()).unwrap(),
        Step::Reauthenticate
    );
    assert_eq!(
        client.response(&mut session, &mut second, &unauthorized, &HeaderMap::new()).unwrap(),
        Step::Reauthenticate
    );
    let seen_by_first = session.epoch();
    let seen_by_second = session.epoch();

    // The first takes its turn, and logs in.
    assert_eq!(session.reauth_role(seen_by_first), ReauthRole::Leader);
    controller.login(&client, &mut session).unwrap();
    // The second takes its turn, and finds it done.
    assert_eq!(session.reauth_role(seen_by_second), ReauthRole::Follower);

    // Both send once more, and are answered.
    client.request(&session, &authorize.endpoint).unwrap();
    client.request(&session, &list.endpoint).unwrap();
    assert_eq!(
        client.response(&mut session, &mut first, &StatusCode::OK, &HeaderMap::new()).unwrap(),
        Step::Deliver
    );
    assert_eq!(
        client.response(&mut session, &mut second, &StatusCode::OK, &HeaderMap::new()).unwrap(),
        Step::Deliver
    );
    let ok = |data: Vec<GuestEntry>| -> Result<ApiResponse<Vec<GuestEntry>>, reqwest::Error> {
        Ok(ApiResponse { meta: ApiMeta { rc: "ok".to_string(), msg: None }, data: Some(data) })
    };
    let authorized = UniFiClient::post(
        &StatusCode::OK,
        ok(vec![guest("guest1", "00:11:22:33:44:55", false, None)]),
    )
    .unwrap();
    let authorize_guest = AuthorizeGuestBuilder::received(authorized).unwrap();
    let list_guests = UniFiClient::get(
        &StatusCode::OK,
        ok(vec![
            guest("guest1", "00:11:22:33:44:55", false, None),
            guest("guest2", "aa:bb:cc:dd:ee:ff", true, Some("api")),
        ]),
    )
    .unwrap();

    assert_eq!(authorize_guest.mac(), "00:11:22:33:44:55");
    assert_eq!(list_guests.len(), 2, "Should have received 2 guests");

    let concurrent_login_count = controller.login_posts.len();
    assert_eq!(
        concurrent_login_count, 2,
        "Should re-login exactly once on 401"
    );

    // One more listing, after the two.
    controller.call(&client, &mut session, &list.endpoint).unwrap();

    let final_login_count = controller.login_posts.len();
    assert_eq!(
        final_login_count, 2,
        "No additional logins should occur beyond one re-auth"
    );
    assert_eq!(session.epoch(), 2);
}

#[test]
fn of_many_callers_one_logs_in() {
    for callers in [2usize, 3, 8, 50] {
        let mut session = SessionState::new();
        session.establish_session(None);
        let seen: Vec<usize> = (0..callers).map(|_| session.epoch()).collect();
        let mut logins = 0;
        for observed in seen {
            if session.reauth_role(observed) == ReauthRole::Leader {
                session.establish_session(None);
                logins += 1;
            }
        }
        assert_eq!(logins, 1);
        assert_eq!(session.epoch(), 2);
    }
}

#[test]
fn a_leader_whose_login_fails_leaves_the_lead_to_the_next() {
    let mut session = SessionState::new();
    session.establish_session(None);
    let observed = session.epoch();
    // The first caller leads, and its login fails: the epoch stays.
    assert_eq!(session.reauth_role(observed), ReauthRole::Leader);
    // The next caller leads in its turn.
    assert_eq!(session.reauth_role(observed), ReauthRole::Leader);
    session.establish_session(None);
    assert_eq!(session.reauth_role(observed), ReauthRole::Follower);
}

#[test]
fn controller_kind_paths() {
    assert_eq!(ControllerKind::Network.login_path(), "/api/login");
    assert_eq!(ControllerKind::Os.login_path(), "/api/auth/login");
    assert_eq!(ControllerKind::Network.api_base_path(), "");
    assert_eq!(ControllerKind::Os.api_base_path(), "/proxy/network");
}

#[test]
fn controller_kind_is_told_by_the_probe() {
    assert_eq!(ControllerKind::detect(Some(&StatusCode::OK)), ControllerKind::Os);
    assert_eq!(ControllerKind::detect(None), ControllerKind::Network);
    for status in [201u16, 204, 301, 302, 304, 401, 403, 404, 500] {
        let status = StatusCode::from_u16(status).unwrap();
        assert_eq!(ControllerKind::detect(Some(&status)), ControllerKind::Network);
    }
}

#[test]
fn auth_failures_by_kind() {
    assert!(ControllerKind::Network.is_auth_failure(&StatusCode::UNAUTHORIZED));
    assert!(ControllerKind::Os.is_auth_failure(&StatusCode::UNAUTHORIZED));
    assert!(ControllerKind::Os.is_auth_failure(&StatusCode::FORBIDDEN));
    assert!(!ControllerKind::Network.is_auth_failure(&StatusCode::FORBIDDEN));
    for status in [200u16, 204, 302, 400, 402, 404, 500] {
        let status = StatusCode::from_u16(status).unwrap();
        assert!(!ControllerKind::Network.is_auth_failure(&status));
        assert!(!ControllerKind::Os.is_auth_failure(&status));
    }
}
