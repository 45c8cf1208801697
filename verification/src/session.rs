//! The session with a controller: which flavour it is, the CSRF token and the
//! epoch of the last login, who logs in again when the session has expired, and
//! what becomes of a request whose response has come in.

use crate::error::UniFiError;
use crate::secret::{secret_expose, secret_from_string, secret_text, Secret};
use crate::status::status_number;
use vstd::prelude::*;

verus! {

/// The two flavours of controller.
#[derive(Clone, Copy, Debug, PartialEq, Eq, Structural)]
pub enum ControllerKind {
    /// The classic Network controller.
    Network,
    /// A UniFi OS console, which serves the Network API behind a proxy path.
    Os,
}

/// The status that tells a UniFi OS console apart when it answers the probe.
pub const PROBE_STATUS_OS: u16 = 200;

/// The status of a request that the controller refuses for want of a session.
pub const STATUS_UNAUTHORIZED: u16 = 401;

/// The status with which a UniFi OS console refuses a request whose CSRF token
/// is stale.
pub const STATUS_FORBIDDEN: u16 = 403;

/// The flavour that a probe shows: a console answers it with 200, a Network
/// controller with anything else. A probe that got no answer counts as
/// anything else.
pub open spec fn detected(probe: Option<u16>) -> ControllerKind {
    if probe == Some(PROBE_STATUS_OS) {
        ControllerKind::Os
    } else {
        ControllerKind::Network
    }
}

/// Whether a status says that the session is gone: 401 on either flavour, 403
/// on a console only.
pub open spec fn is_auth_failure(kind: ControllerKind, status: u16) -> bool {
    status == STATUS_UNAUTHORIZED || (kind == ControllerKind::Os && status == STATUS_FORBIDDEN)
}

impl ControllerKind {
    /// The path to which credentials are posted.
    pub open spec fn spec_login_path(self) -> Seq<char> {
        match self {
            ControllerKind::Os => "/api/auth/login"@,
            ControllerKind::Network => "/api/login"@,
        }
    }

    /// The path under which the API lives.
    pub open spec fn spec_api_base_path(self) -> Seq<char> {
        match self {
            ControllerKind::Os => "/proxy/network"@,
            ControllerKind::Network => ""@,
        }
    }

    /// Tells the flavour from the status of the probe, `None` where the probe
    /// got no answer.
    pub fn detect(probe: Option<&http::StatusCode>) -> (kind: ControllerKind)
        ensures
            kind == detected(
                match probe {
                    Some(status) => Some(status_number(*status)),
                    None => None,
                },
            ),
    {
        match probe {
            Some(status) => {
                if status.as_u16() == PROBE_STATUS_OS {
                    ControllerKind::Os
                } else {
                    ControllerKind::Network
                }
            },
            None => ControllerKind::Network,
        }
    }

    /// The path to which credentials are posted.
    pub fn login_path(self) -> (path: &'static str)
        ensures
            path@ == self.spec_login_path(),
    {
        match self {
            ControllerKind::Os => "/api/auth/login",
            ControllerKind::Network => "/api/login",
        }
    }

    /// The path under which the API lives.
    pub fn api_base_path(self) -> (path: &'static str)
        ensures
            path@ == self.spec_api_base_path(),
    {
        match self {
            ControllerKind::Os => "/proxy/network",
            ControllerKind::Network => "",
        }
    }

    /// Tells whether a status says that the session is gone.
    pub fn is_auth_failure(self, status: &http::StatusCode) -> (gone: bool)
        ensures
            gone == is_auth_failure(self, status_number(*status)),
    {
        let number = status.as_u16();
        number == STATUS_UNAUTHORIZED || (self == ControllerKind::Os && number
            == STATUS_FORBIDDEN)
    }
}

/// What a session is, seen from outside: the CSRF token, if the controller gave
/// one, and the number of logins that have succeeded.
pub struct SessionView {
    pub csrf: Option<Seq<char>>,
    pub epoch: nat,
}

impl SessionView {
    /// The session before any login.
    pub open spec fn fresh() -> SessionView {
        SessionView { csrf: None, epoch: 0 }
    }

    /// Whether a login has succeeded.
    pub open spec fn authenticated(self) -> bool {
        self.epoch != 0
    }

    /// The session after the controller has rotated the token.
    pub open spec fn rotated(self, token: Seq<char>) -> SessionView {
        SessionView { csrf: Some(token), epoch: self.epoch }
    }

    /// The session after a response: with the new token if the response
    /// rotated it, unchanged if not.
    pub open spec fn observed(self, updated: Option<Seq<char>>) -> SessionView {
        match updated {
            Some(token) => self.rotated(token),
            None => self,
        }
    }

    /// The session after a login: the token is the one of this login, or none,
    /// and the epoch has advanced by one.
    pub open spec fn established(self, csrf: Option<Seq<char>>) -> SessionView {
        SessionView { csrf, epoch: self.epoch + 1 }
    }

    /// The token that a request presents: the session's, on a console only.
    pub open spec fn request_csrf(self, kind: ControllerKind) -> Option<Seq<char>> {
        if kind == ControllerKind::Os {
            self.csrf
        } else {
            None
        }
    }
}

/// What can happen to a session.
pub enum SessionEvent {
    /// A response rotated the token to this one.
    Rotated(Seq<char>),
    /// A login was accepted, and gave this token, or none.
    LoggedIn(Option<Seq<char>>),
}

/// The session after the events, from the first to the last.
pub open spec fn session_after(events: Seq<SessionEvent>) -> SessionView
    decreases events.len(),
{
    if events.len() == 0 {
        SessionView::fresh()
    } else {
        let before = session_after(events.drop_last());
        match events.last() {
            SessionEvent::Rotated(token) => before.rotated(token),
            SessionEvent::LoggedIn(csrf) => before.established(csrf),
        }
    }
}

/// The number of logins among the events.
pub open spec fn logins_in(events: Seq<SessionEvent>) -> nat
    decreases events.len(),
{
    if events.len() == 0 {
        0
    } else if events.last() is LoggedIn {
        logins_in(events.drop_last()) + 1
    } else {
        logins_in(events.drop_last())
    }
}

/// The part of a caller that found the session expired.
#[derive(Clone, Copy, Debug, PartialEq, Eq, Structural)]
pub enum ReauthRole {
    /// Nobody has logged in since the caller looked: it logs in.
    Leader,
    /// Somebody has: the caller goes on with the session as it now is.
    Follower,
}

/// The part of a caller that saw epoch `observed` before it waited for its
/// turn, and finds epoch `current` when the turn has come.
pub open spec fn reauth_role(current: nat, observed: nat) -> ReauthRole {
    if current == observed {
        ReauthRole::Leader
    } else {
        ReauthRole::Follower
    }
}

/// The logins made when `callers` callers, each of which saw epoch `observed`,
/// take their turns one after the other on a session at epoch `current`, and
/// every login succeeds.
pub open spec fn logins_among(current: nat, observed: nat, callers: nat) -> nat
    decreases callers,
{
    if callers == 0 {
        0
    } else if reauth_role(current, observed) == ReauthRole::Leader {
        1 + logins_among(current + 1, observed, (callers - 1) as nat)
    } else {
        logins_among(current, observed, (callers - 1) as nat)
    }
}

/// The session: the CSRF token, kept secret, and the epoch.
///
/// The epoch is 0 until the first login succeeds, and each login that succeeds
/// advances it by one.
#[derive(Debug)]
pub struct SessionState {
    csrf_token: Option<Secret>,
    epoch: usize,
}

impl View for SessionState {
    type V = SessionView;

    closed spec fn view(&self) -> SessionView {
        SessionView {
            csrf: match self.csrf_token {
                Some(secret) => Some(secret_text(secret)),
                None => None,
            },
            epoch: self.epoch as nat,
        }
    }
}

impl SessionState {
    /// The session before any login.
    pub fn new() -> (session: SessionState)
        ensures
            session@ == SessionView::fresh(),
    {
        SessionState { csrf_token: None, epoch: 0 }
    }

    /// The number of logins that have succeeded.
    pub fn epoch(&self) -> (epoch: usize)
        ensures
            epoch == self@.epoch,
    {
        self.epoch
    }

    /// Tells whether a login has succeeded.
    pub fn is_authenticated(&self) -> (yes: bool)
        ensures
            yes == self@.authenticated(),
    {
        self.epoch != 0
    }

    /// The CSRF token, if the session has one.
    pub fn csrf_token(&self) -> (token: Option<&str>)
        ensures
            token is Some == self@.csrf is Some,
            token matches Some(text) ==> self@.csrf == Some(text@),
    {
        match &self.csrf_token {
            Some(secret) => Some(secret_expose(secret)),
            None => None,
        }
    }

    /// Takes the token that the controller has rotated to.
    pub fn rotate_csrf(&mut self, token: &str)
        ensures
            final(self)@ == old(self)@.rotated(token@),
    {
        self.csrf_token = Some(secret_from_string(token.to_owned()));
    }

    /// Commits a login: the token becomes that of the login, or none if the
    /// login gave none, and the epoch advances. Returns the new epoch.
    pub fn establish_session(&mut self, csrf_token: Option<&str>) -> (epoch: usize)
        requires
            old(self)@.epoch < usize::MAX,
        ensures
            final(self)@ == old(self)@.established(
                match csrf_token {
                    Some(token) => Some(token@),
                    None => None,
                },
            ),
            epoch == final(self)@.epoch,
    {
        self.csrf_token = match csrf_token {
            Some(token) => Some(secret_from_string(token.to_owned())),
            None => None,
        };
        self.epoch = self.epoch + 1;
        self.epoch
    }

    /// The part of a caller whose turn to re-authenticate has come, and which
    /// saw epoch `observed` before it waited.
    pub fn reauth_role(&self, observed: usize) -> (role: ReauthRole)
        ensures
            role == reauth_role(self@.epoch, observed as nat),
    {
        if self.epoch == observed {
            ReauthRole::Leader
        } else {
            ReauthRole::Follower
        }
    }
}

/// What to do with a response.
#[derive(Clone, Copy, Debug, PartialEq, Eq, Structural)]
pub enum Step {
    /// Hand the response to the caller, whatever its status.
    Deliver,
    /// Log in again, under the rule of `reauth_role`, and send the request once
    /// more.
    Reauthenticate,
}

/// What becomes of a request when a response with `status` has come in and
/// `retries` attempts were already repeated: a status that is no
/// authentication failure is delivered; an authentication failure asks for a
/// new login the first time, and ends the request the second time.
pub open spec fn outcome(kind: ControllerKind, retries: nat, status: u16) -> Result<Step, UniFiError> {
    if !is_auth_failure(kind, status) {
        Ok(Step::Deliver)
    } else if retries >= 1 {
        Err(UniFiError::NotAuthenticated)
    } else {
        Ok(Step::Reauthenticate)
    }
}

/// How a request went.
pub struct Run {
    /// How often the request was sent.
    pub attempts: nat,
    /// How often a new login was asked for.
    pub logins: nat,
    /// The status that was delivered, or the error; `None` while the request
    /// still waits for a response.
    pub end: Option<Result<u16, UniFiError>>,
}

/// The run of a request that has been repeated `retries` times and meets the
/// statuses `statuses`, one for each time it is sent, where every login that is
/// asked for succeeds.
pub open spec fn run(kind: ControllerKind, retries: nat, statuses: Seq<u16>) -> Run
    decreases statuses.len(),
{
    if statuses.len() == 0 {
        Run { attempts: 0, logins: 0, end: None }
    } else {
        match outcome(kind, retries, statuses[0]) {
            Ok(Step::Deliver) => Run { attempts: 1, logins: 0, end: Some(Ok(statuses[0])) },
            Ok(Step::Reauthenticate) => {
                let rest = run(kind, retries + 1, statuses.skip(1));
                Run { attempts: rest.attempts + 1, logins: rest.logins + 1, end: rest.end }
            },
            Err(error) => Run { attempts: 1, logins: 0, end: Some(Err(error)) },
        }
    }
}

/// How far a request has come: how often it was repeated.
#[derive(Clone, Copy, Debug)]
pub struct Attempt {
    retries: u8,
}

impl Attempt {
    /// A request that has not been sent yet.
    pub fn first() -> (attempt: Attempt)
        ensures
            attempt.retries() == 0,
    {
        Attempt { retries: 0 }
    }

    /// How often the request was repeated.
    pub closed spec fn retries(self) -> nat {
        self.retries as nat
    }

    /// How often the request was repeated.
    pub fn count(self) -> (retries: u8)
        ensures
            retries == self.retries(),
    {
        self.retries
    }

    /// Decides what becomes of the request now that a response with `status`
    /// has come in, and counts the repetition where it asks for one.
    pub fn decide(&mut self, kind: ControllerKind, status: &http::StatusCode) -> (next: Result<Step, UniFiError>)
        ensures
            next == outcome(kind, old(self).retries(), status_number(*status)),
            final(self).retries() == old(self).retries() + if next == Ok::<Step, UniFiError>(Step::Reauthenticate) {
                1nat
            } else {
                0nat
            },
    {
        if !kind.is_auth_failure(status) {
            Ok(Step::Deliver)
        } else if self.retries >= 1 {
            Err(UniFiError::NotAuthenticated)
        } else {
            self.retries = 1;
            Ok(Step::Reauthenticate)
        }
    }
}

/// The epoch of a session is the number of logins that it has seen: 0 if and
/// only if it has seen none.
pub proof fn lemma_epoch_counts_logins(events: Seq<SessionEvent>)
    ensures
        session_after(events).epoch == logins_in(events),
        session_after(events).authenticated() <==> logins_in(events) > 0,
    decreases events.len(),
{
    if events.len() > 0 {
        lemma_epoch_counts_logins(events.drop_last());
    }
}

/// The token of a session is the one of the last event: the token that was
/// rotated to, or what the login gave, be it a token or none.
pub proof fn lemma_last_event_sets_token(events: Seq<SessionEvent>)
    requires
        events.len() > 0,
    ensures
        session_after(events).csrf == match events.last() {
            SessionEvent::Rotated(token) => Some(token),
            SessionEvent::LoggedIn(csrf) => csrf,
        },
{
}

/// A session that has seen a login is authenticated, whatever it was before.
pub proof fn lemma_login_authenticates(before: SessionView, csrf: Option<Seq<char>>)
    ensures
        before.established(csrf).authenticated(),
        before.established(csrf).epoch > before.epoch,
{
}

/// Of any number of callers that saw the same epoch, and take their turns on a
/// session that is still at that epoch, exactly one logs in.
pub proof fn lemma_single_flight(epoch: nat, callers: nat)
    requires
        callers >= 1,
    ensures
        logins_among(epoch, epoch, callers) == 1,
{
    lemma_followers_wait(epoch + 1, epoch, (callers - 1) as nat);
}

/// Callers that find the epoch changed do not log in.
pub proof fn lemma_followers_wait(current: nat, observed: nat, callers: nat)
    requires
        current != observed,
    ensures
        logins_among(current, observed, callers) == 0,
    decreases callers,
{
    if callers > 0 {
        lemma_followers_wait(current, observed, (callers - 1) as nat);
    }
}

/// A request whose first response is an authentication failure is sent twice
/// and asks for one login. The second response ends it: another
/// authentication failure with `NotAuthenticated`, any other status by being
/// delivered.
pub proof fn lemma_retry_once(kind: ControllerKind, statuses: Seq<u16>)
    requires
        statuses.len() >= 2,
        is_auth_failure(kind, statuses[0]),
    ensures
        run(kind, 0, statuses).attempts == 2,
        run(kind, 0, statuses).logins == 1,
        run(kind, 0, statuses).end == if is_auth_failure(kind, statuses[1]) {
            Some(Err::<u16, UniFiError>(UniFiError::NotAuthenticated))
        } else {
            Some(Ok::<u16, UniFiError>(statuses[1]))
        },
{
    let rest = statuses.skip(1);
    assert(run(kind, 1, rest).attempts == 1);
}

/// A request whose first response is no authentication failure is sent once,
/// asks for no login and delivers that response.
pub proof fn lemma_no_retry(kind: ControllerKind, statuses: Seq<u16>)
    requires
        statuses.len() >= 1,
        !is_auth_failure(kind, statuses[0]),
    ensures
        run(kind, 0, statuses).attempts == 1,
        run(kind, 0, statuses).logins == 0,
        run(kind, 0, statuses).end == Some(Ok::<u16, UniFiError>(statuses[0])),
{
}

/// No request is sent a third time, and none asks for a second login.
pub proof fn lemma_at_most_two_attempts(kind: ControllerKind, statuses: Seq<u16>)
    ensures
        run(kind, 0, statuses).attempts <= 2,
        run(kind, 0, statuses).logins <= 1,
{
    if statuses.len() >= 1 && is_auth_failure(kind, statuses[0]) {
        let rest = statuses.skip(1);
        if rest.len() >= 1 {
            assert(run(kind, 1, rest).attempts == 1);
        }
    }
}

/// A token that a response rotated to is the token that a console is shown
/// next, whatever session there was before.
pub proof fn lemma_rotation_is_presented(before: SessionView, token: Seq<char>)
    ensures
        before.observed(Some(token)).request_csrf(ControllerKind::Os) == Some(token),
{
}

/// After a login that gave no token, no token is presented, whatever token the
/// session held before.
pub proof fn lemma_login_without_token_clears(before: SessionView, kind: ControllerKind)
    ensures
        before.established(None).request_csrf(kind) is None,
{
}

} // verus!
