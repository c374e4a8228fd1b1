//! The OAuth sign-in that yields a bearer token for the HTTP transports:
//! endpoint discovery, dynamic client registration, the loopback callback
//! and the order of the steps. The network, the browser and the PKCE
//! exchange are performed by the caller, which reports each step's outcome.

use vstd::prelude::*;
use crate::json::{json_is_valid, json_parses, json_str_field, text_str_field};
use crate::text::digits;

verus! {

/// The endpoints that the authorization server's metadata names.
#[derive(Clone, Debug)]
pub struct OAuthEndpoints {
    pub authorization: String,
    pub token: String,
    pub registration: String,
}

/// A client registered with the authorization server.
#[derive(Clone, Debug)]
pub struct ClientRegistration {
    pub client_id: String,
    pub client_secret: Option<String>,
}

impl ClientRegistration {
    pub fn copy(&self) -> (r: ClientRegistration)
        ensures
            r.client_id@ == self.client_id@,
            match self.client_secret {
                Some(s) => r.client_secret matches Some(t) && t@ == s@,
                None => r.client_secret is None,
            },
    {
        let client_secret = match &self.client_secret {
            Some(s) => Some(s.clone()),
            None => None,
        };
        ClientRegistration { client_id: self.client_id.clone(), client_secret }
    }
}

/// Why the sign-in stopped. There is no retry: the caller starts again.
#[derive(Clone, Debug)]
pub enum OAuthError {
    InvalidMetadata,
    MissingAuthorizationEndpoint,
    MissingTokenEndpoint,
    MissingRegistrationEndpoint,
    InvalidRegistration,
    StateMismatch,
    Denied(String),
    MissingCallbackParameters,
    StepFailed(String),
}

pub open spec fn oauth_error_text(e: OAuthError) -> Seq<char> {
    match e {
        OAuthError::InvalidMetadata => "OAuth metadata is not a JSON document"@,
        OAuthError::MissingAuthorizationEndpoint => "No authorization_endpoint in OAuth metadata"@,
        OAuthError::MissingTokenEndpoint => "No token_endpoint in OAuth metadata"@,
        OAuthError::MissingRegistrationEndpoint => "No registration_endpoint in OAuth metadata"@,
        OAuthError::InvalidRegistration => "No client_id in the client registration response"@,
        OAuthError::StateMismatch => "Invalid state parameter. Authorization failed."@,
        OAuthError::Denied(reason) => "Authorization failed: "@ + reason@,
        OAuthError::MissingCallbackParameters => "Missing required parameters."@,
        OAuthError::StepFailed(message) => message@,
    }
}

impl OAuthError {
    pub fn message(&self) -> (r: String)
        ensures
            r@ == oauth_error_text(*self),
    {
        match self {
            OAuthError::InvalidMetadata => String::from_str("OAuth metadata is not a JSON document"),
            OAuthError::MissingAuthorizationEndpoint => String::from_str("No authorization_endpoint in OAuth metadata"),
            OAuthError::MissingTokenEndpoint => String::from_str("No token_endpoint in OAuth metadata"),
            OAuthError::MissingRegistrationEndpoint => String::from_str("No registration_endpoint in OAuth metadata"),
            OAuthError::InvalidRegistration => String::from_str("No client_id in the client registration response"),
            OAuthError::StateMismatch => String::from_str("Invalid state parameter. Authorization failed."),
            OAuthError::Denied(reason) => {
                let mut s = String::from_str("Authorization failed: ");
                s.append(reason.as_str());
                s
            }
            OAuthError::MissingCallbackParameters => String::from_str("Missing required parameters."),
            OAuthError::StepFailed(message) => message.clone(),
        }
    }
}

/// `s` without its trailing slashes.
pub open spec fn trim_end_slashes(s: Seq<char>) -> Seq<char>
    decreases s.len(),
{
    if s.len() > 0 && s.last() == '/' {
        trim_end_slashes(s.drop_last())
    } else {
        s
    }
}

pub open spec fn well_known_path() -> Seq<char> {
    "/.well-known/oauth-authorization-server"@
}

/// Where the server's metadata document is published.
pub fn well_known_url(base_url: &str) -> (r: String)
    ensures
        r@ == trim_end_slashes(base_url@) + well_known_path(),
{
    let mut n = base_url.unicode_len();
    assert(base_url@.subrange(0, n as int) =~= base_url@);
    while n > 0 && base_url.get_char(n - 1) == '/'
        invariant
            n <= base_url@.len(),
            trim_end_slashes(base_url@) == trim_end_slashes(base_url@.subrange(0, n as int)),
        decreases n,
    {
        assert(base_url@.subrange(0, n as int).drop_last() =~= base_url@.subrange(0, n - 1));
        n -= 1;
    }
    assert(trim_end_slashes(base_url@.subrange(0, n as int)) == base_url@.subrange(0, n as int));
    let mut s = String::from_str(base_url.substring_char(0, n));
    s.append("/.well-known/oauth-authorization-server");
    s
}

/// The endpoints, from the three fields of the metadata as strings; the
/// first one missing, in this order, is the error.
pub fn endpoints_from_fields(
    authorization: Option<String>,
    token: Option<String>,
    registration: Option<String>,
) -> (r: Result<OAuthEndpoints, OAuthError>)
    ensures
        authorization is None ==> r matches Err(OAuthError::MissingAuthorizationEndpoint),
        authorization is Some && token is None ==> r matches Err(OAuthError::MissingTokenEndpoint),
        authorization is Some && token is Some && registration is None
            ==> r matches Err(OAuthError::MissingRegistrationEndpoint),
        authorization is Some && token is Some && registration is Some ==> (r matches Ok(e)
            && e.authorization@ == authorization->Some_0@
            && e.token@ == token->Some_0@
            && e.registration@ == registration->Some_0@),
{
    let authorization = match authorization {
        Some(a) => a,
        None => return Err(OAuthError::MissingAuthorizationEndpoint),
    };
    let token = match token {
        Some(t) => t,
        None => return Err(OAuthError::MissingTokenEndpoint),
    };
    let registration = match registration {
        Some(g) => g,
        None => return Err(OAuthError::MissingRegistrationEndpoint),
    };
    Ok(OAuthEndpoints { authorization, token, registration })
}

/// The endpoints named by a metadata document: a document that does not
/// parse is refused; otherwise the three string members are read, and the
/// first one missing, in order, is the error.
pub fn discover_endpoints(metadata: &str) -> (r: Result<OAuthEndpoints, OAuthError>)
    ensures
        discovery(metadata@, r),
{
    if !json_is_valid(metadata) {
        return Err(OAuthError::InvalidMetadata);
    }
    let authorization = text_str_field(metadata, "authorization_endpoint");
    let token = text_str_field(metadata, "token_endpoint");
    let registration = text_str_field(metadata, "registration_endpoint");
    endpoints_from_fields(authorization, token, registration)
}

/// The document parses and names all three endpoints as strings.
pub open spec fn endpoints_found(doc: Seq<char>) -> bool {
    json_parses(doc) && json_str_field(doc, "authorization_endpoint"@) is Some
        && json_str_field(doc, "token_endpoint"@) is Some && json_str_field(doc, "registration_endpoint"@) is Some
}

/// What discovery yields for a metadata document.
pub open spec fn discovery(doc: Seq<char>, r: Result<OAuthEndpoints, OAuthError>) -> bool {
    let a = json_str_field(doc, "authorization_endpoint"@);
    let t = json_str_field(doc, "token_endpoint"@);
    let g = json_str_field(doc, "registration_endpoint"@);
    if !json_parses(doc) {
        r matches Err(OAuthError::InvalidMetadata)
    } else if a is None {
        r matches Err(OAuthError::MissingAuthorizationEndpoint)
    } else if t is None {
        r matches Err(OAuthError::MissingTokenEndpoint)
    } else if g is None {
        r matches Err(OAuthError::MissingRegistrationEndpoint)
    } else {
        r matches Ok(e) && e.authorization@ == a->Some_0 && e.token@ == t->Some_0 && e.registration@ == g->Some_0
    }
}

pub open spec fn callback_text(port: u16) -> Seq<char> {
    "http://127.0.0.1:"@ + digits(port as nat) + "/callback"@
}

/// The redirect address served by the loopback listener on `port`.
pub fn callback_url(port: u16) -> (r: String)
    ensures
        r@ == callback_text(port),
{
    let mut s = String::from_str("http://127.0.0.1:");
    let p = crate::text::count_to_text(port as u64);
    s.append(p.as_str());
    s.append("/callback");
    s
}

pub open spec fn registration_text(callback: Seq<char>) -> Seq<char> {
    "{\"redirect_uris\":[\""@ + callback
        + "\"],\"client_name\":\"Shai MCP Client\",\"grant_types\":[\"authorization_code\"],\"response_types\":[\"code\"]}"@
}

/// The JSON body of the dynamic client registration for the loopback
/// listener on `port`.
pub fn registration_body(port: u16) -> (r: String)
    ensures
        r@ == registration_text(callback_text(port)),
{
    let mut s = String::from_str("{\"redirect_uris\":[\"");
    let cb = callback_url(port);
    s.append(cb.as_str());
    s.append("\"],\"client_name\":\"Shai MCP Client\",\"grant_types\":[\"authorization_code\"],\"response_types\":[\"code\"]}");
    s
}

/// The client from the registration response: its `client_id` is required,
/// its `client_secret` optional.
pub fn parse_registration(response: &str) -> (r: Result<ClientRegistration, OAuthError>)
    ensures
        registration_of(response@, r),
{
    match text_str_field(response, "client_id") {
        Some(client_id) => Ok(ClientRegistration { client_id, client_secret: text_str_field(response, "client_secret") }),
        None => Err(OAuthError::InvalidRegistration),
    }
}

/// What a registration response yields.
pub open spec fn registration_of(doc: Seq<char>, r: Result<ClientRegistration, OAuthError>) -> bool {
    match json_str_field(doc, "client_id"@) {
        Some(id) => r matches Ok(c) && c.client_id@ == id && match json_str_field(doc, "client_secret"@) {
            Some(secret) => c.client_secret matches Some(s) && s@ == secret,
            None => c.client_secret is None,
        },
        None => r matches Err(OAuthError::InvalidRegistration),
    }
}

/// The value of the last pair named `key`.
pub open spec fn lookup(params: Seq<(String, String)>, key: Seq<char>) -> Option<Seq<char>>
    decreases params.len(),
{
    if params.len() == 0 {
        None
    } else if params.last().0@ == key {
        Some(params.last().1@)
    } else {
        lookup(params.drop_last(), key)
    }
}

pub fn query_value(params: &Vec<(String, String)>, key: &str) -> (r: Option<String>)
    ensures
        match r {
            Some(v) => lookup(params@, key@) == Some(v@),
            None => lookup(params@, key@) is None,
        },
{
    let k = String::from_str(key);
    let mut n = params.len();
    assert(params@.subrange(0, n as int) =~= params@);
    while n > 0
        invariant
            n <= params@.len(),
            k@ == key@,
            lookup(params@, key@) == lookup(params@.subrange(0, n as int), key@),
        decreases n,
    {
        let ghost pre = params@.subrange(0, n as int);
        assert(pre.last() == params@[n - 1]);
        assert(pre.drop_last() =~= params@.subrange(0, n - 1));
        if params[n - 1].0 == k {
            return Some(params[n - 1].1.clone());
        }
        n -= 1;
    }
    None
}

/// What a request on the callback path means.
#[derive(Clone, Debug)]
pub enum CallbackOutcome {
    Authorized(String),
    Rejected(OAuthError),
}

impl CallbackOutcome {
    /// What the browser is shown after the redirect.
    pub fn page_message(&self) -> (r: String)
        ensures
            match *self {
                CallbackOutcome::Authorized(_) => r@ == "Authorization successful! You can close this tab now."@,
                CallbackOutcome::Rejected(e) => r@ == oauth_error_text(e),
            },
    {
        match self {
            CallbackOutcome::Authorized(_) => String::from_str("Authorization successful! You can close this tab now."),
            CallbackOutcome::Rejected(e) => e.message(),
        }
    }
}

/// A callback authorizes when it carries a code and the expected state;
/// a code with another state is refused; without both, a reported error
/// refuses, else the parameters are missing.
pub open spec fn callback_meaning(params: Seq<(String, String)>, expected: Seq<char>) -> CallbackOutcomeSpec {
    match (lookup(params, "code"@), lookup(params, "state"@)) {
        (Some(code), Some(state)) => if state == expected {
            CallbackOutcomeSpec::Authorized(code)
        } else {
            CallbackOutcomeSpec::StateMismatch
        },
        _ => match lookup(params, "error"@) {
            Some(reason) => CallbackOutcomeSpec::Denied(reason),
            None => CallbackOutcomeSpec::Missing,
        },
    }
}

/// The meaning of a callback over plain text.
pub enum CallbackOutcomeSpec {
    Authorized(Seq<char>),
    StateMismatch,
    Denied(Seq<char>),
    Missing,
}

pub open spec fn outcome_means(o: CallbackOutcome, m: CallbackOutcomeSpec) -> bool {
    match (o, m) {
        (CallbackOutcome::Authorized(code), CallbackOutcomeSpec::Authorized(c)) => code@ == c,
        (CallbackOutcome::Rejected(OAuthError::StateMismatch), CallbackOutcomeSpec::StateMismatch) => true,
        (CallbackOutcome::Rejected(OAuthError::Denied(r)), CallbackOutcomeSpec::Denied(s)) => r@ == s,
        (CallbackOutcome::Rejected(OAuthError::MissingCallbackParameters), CallbackOutcomeSpec::Missing) => true,
        _ => false,
    }
}

/// Checks the query of a request on the callback path against the CSRF
/// state that was sent.
pub fn check_callback(params: &Vec<(String, String)>, expected_state: &str) -> (r: CallbackOutcome)
    ensures
        outcome_means(r, callback_meaning(params@, expected_state@)),
{
    let code = query_value(params, "code");
    let state = query_value(params, "state");
    let expected = String::from_str(expected_state);
    match (code, state) {
        (Some(code), Some(state)) => {
            if state == expected {
                CallbackOutcome::Authorized(code)
            } else {
                CallbackOutcome::Rejected(OAuthError::StateMismatch)
            }
        }
        _ => match query_value(params, "error") {
            Some(reason) => CallbackOutcome::Rejected(OAuthError::Denied(reason)),
            None => CallbackOutcome::Rejected(OAuthError::MissingCallbackParameters),
        },
    }
}

/// Where a sign-in stands.
#[derive(Clone, Debug)]
pub enum FlowPhase {
    Idle,
    Discovering,
    BindingListener { endpoints: OAuthEndpoints },
    Registering { endpoints: OAuthEndpoints, port: u16 },
    Authorizing { endpoints: OAuthEndpoints, port: u16, client: ClientRegistration },
    AwaitingCallback { endpoints: OAuthEndpoints, port: u16, csrf_state: String },
    Exchanging,
    Done,
    Failed,
}

/// What the caller reports back after performing an action.
#[derive(Clone, Debug)]
pub enum FlowEvent {
    Begin { base_url: String },
    MetadataFetched { document: String },
    ListenerBound { port: u16 },
    Registered { response: String },
    AuthorizationOpened { csrf_state: String },
    CallbackReceived { query: Vec<(String, String)> },
    TokenIssued { access_token: String },
    StepFailed { message: String },
}

/// What the caller is asked to do next.
#[derive(Clone, Debug)]
pub enum FlowAction {
    /// GET the metadata document.
    FetchMetadata { url: String },
    /// Bind a loopback listener on a port the system assigns.
    BindListener,
    /// POST the registration body.
    RegisterClient { endpoint: String, body: String },
    /// Build the PKCE pair and CSRF state, and open the authorization page.
    OpenAuthorization {
        authorization_endpoint: String,
        token_endpoint: String,
        client: ClientRegistration,
        redirect_url: String,
    },
    /// Serve the callback path on the bound port until a request comes.
    AwaitCallback { port: u16 },
    /// Shut the listener down and exchange the code with the PKCE verifier.
    ExchangeCode { code: String },
    /// The access token.
    Finish { access_token: String },
    /// The sign-in is over, without a token.
    Abort { error: OAuthError },
}

/// The steps of one sign-in, in order: discovery, a loopback listener,
/// registration, the browser, the callback and the code exchange.
pub struct OAuthFlow {
    pub phase: FlowPhase,
}

impl OAuthFlow {
    pub fn new() -> (r: OAuthFlow)
        ensures
            r.phase is Idle,
    {
        OAuthFlow { phase: FlowPhase::Idle }
    }

    pub open spec fn finished(&self) -> bool {
        self.phase is Done || self.phase is Failed
    }

    /// Advances the sign-in by one reported event.
    pub fn step(&mut self, event: FlowEvent) -> (r: FlowAction)
        ensures
            // a finished sign-in stays finished
            old(self).finished() ==> final(self).phase == old(self).phase && r is Abort,
            // every failure ends the sign-in
            r is Abort ==> final(self).phase is Failed || old(self).finished(),
            !old(self).finished() && event is StepFailed ==> (r matches FlowAction::Abort { error: OAuthError::StepFailed(m) }
                && m@ == event->StepFailed_message@),
            old(self).phase is Idle && event is Begin ==> (r matches FlowAction::FetchMetadata { url }
                && url@ == trim_end_slashes(event->Begin_base_url@) + well_known_path()
                && final(self).phase is Discovering),
            // the listener is bound only once discovery found all three endpoints
            r is BindListener ==> old(self).phase is Discovering && event is MetadataFetched
                && final(self).phase is BindingListener,
            old(self).phase is Discovering && event is MetadataFetched && endpoints_found(event->MetadataFetched_document@)
                ==> (r is BindListener && (final(self).phase matches FlowPhase::BindingListener { endpoints }
                    && discovery(event->MetadataFetched_document@, Ok(endpoints)))),
            old(self).phase is Discovering && event is MetadataFetched && !endpoints_found(event->MetadataFetched_document@)
                ==> (r matches FlowAction::Abort { error } && discovery(event->MetadataFetched_document@, Err(error))
                    && final(self).phase is Failed),
            old(self).phase is Registering && event is Registered ==> match json_str_field(event->Registered_response@, "client_id"@) {
                Some(_) => r matches FlowAction::OpenAuthorization { authorization_endpoint, token_endpoint, client, redirect_url }
                    && authorization_endpoint@ == old(self).phase->Registering_endpoints.authorization@
                    && token_endpoint@ == old(self).phase->Registering_endpoints.token@
                    && registration_of(event->Registered_response@, Ok(client))
                    && redirect_url@ == callback_text(old(self).phase->Registering_port)
                    && final(self).phase is Authorizing,
                None => r matches FlowAction::Abort { error: OAuthError::InvalidRegistration } && final(self).phase is Failed,
            },
            old(self).phase is BindingListener && event is ListenerBound ==> (r matches FlowAction::RegisterClient { endpoint, body }
                && endpoint@ == old(self).phase->BindingListener_endpoints.registration@
                && body@ == registration_text(callback_text(event->ListenerBound_port))),
            r is OpenAuthorization ==> old(self).phase is Registering && event is Registered,
            old(self).phase is Authorizing && event is AuthorizationOpened ==> (r matches FlowAction::AwaitCallback { port }
                && port == old(self).phase->Authorizing_port && final(self).phase is AwaitingCallback),
            old(self).phase is AwaitingCallback && event is CallbackReceived ==> match callback_meaning(
                event->CallbackReceived_query@, old(self).phase->AwaitingCallback_csrf_state@) {
                CallbackOutcomeSpec::Authorized(code) => (r matches FlowAction::ExchangeCode { code: c } && c@ == code
                    && final(self).phase is Exchanging),
                _ => r is Abort && final(self).phase is Failed,
            },
            r is ExchangeCode ==> old(self).phase is AwaitingCallback,
            old(self).phase is Exchanging && event is TokenIssued ==> (r matches FlowAction::Finish { access_token }
                && access_token@ == event->TokenIssued_access_token@ && final(self).phase is Done),
            r is Finish ==> old(self).phase is Exchanging && final(self).phase is Done,
    {
        if self.is_finished() {
            return FlowAction::Abort { error: OAuthError::StepFailed(String::from_str("The sign-in is already over")) };
        }
        if let FlowEvent::StepFailed { message } = event {
            self.phase = FlowPhase::Failed;
            return FlowAction::Abort { error: OAuthError::StepFailed(message) };
        }
        let mut phase = FlowPhase::Failed;
        core::mem::swap(&mut phase, &mut self.phase);
        match (phase, event) {
            (FlowPhase::Idle, FlowEvent::Begin { base_url }) => {
                self.phase = FlowPhase::Discovering;
                FlowAction::FetchMetadata { url: well_known_url(base_url.as_str()) }
            }
            (FlowPhase::Discovering, FlowEvent::MetadataFetched { document }) => {
                match discover_endpoints(document.as_str()) {
                    Ok(endpoints) => {
                        self.phase = FlowPhase::BindingListener { endpoints };
                        FlowAction::BindListener
                    }
                    Err(error) => FlowAction::Abort { error },
                }
            }
            (FlowPhase::BindingListener { endpoints }, FlowEvent::ListenerBound { port }) => {
                let endpoint = endpoints.registration.clone();
                self.phase = FlowPhase::Registering { endpoints, port };
                FlowAction::RegisterClient { endpoint, body: registration_body(port) }
            }
            (FlowPhase::Registering { endpoints, port }, FlowEvent::Registered { response }) => {
                match parse_registration(response.as_str()) {
                    Ok(client) => {
                        let action = FlowAction::OpenAuthorization {
                            authorization_endpoint: endpoints.authorization.clone(),
                            token_endpoint: endpoints.token.clone(),
                            client: client.copy(),
                            redirect_url: callback_url(port),
                        };
                        self.phase = FlowPhase::Authorizing { endpoints, port, client };
                        action
                    }
                    Err(error) => FlowAction::Abort { error },
                }
            }
            (FlowPhase::Authorizing { endpoints, port, .. }, FlowEvent::AuthorizationOpened { csrf_state }) => {
                self.phase = FlowPhase::AwaitingCallback { endpoints, port, csrf_state };
                FlowAction::AwaitCallback { port }
            }
            (FlowPhase::AwaitingCallback { csrf_state, .. }, FlowEvent::CallbackReceived { query }) => {
                match check_callback(&query, csrf_state.as_str()) {
                    CallbackOutcome::Authorized(code) => {
                        self.phase = FlowPhase::Exchanging;
                        FlowAction::ExchangeCode { code }
                    }
                    CallbackOutcome::Rejected(error) => FlowAction::Abort { error },
                }
            }
            (FlowPhase::Exchanging, FlowEvent::TokenIssued { access_token }) => {
                self.phase = FlowPhase::Done;
                FlowAction::Finish { access_token }
            }
            _ => FlowAction::Abort { error: OAuthError::StepFailed(String::from_str("Unexpected step in the sign-in")) },
        }
    }

    pub fn is_finished(&self) -> (r: bool)
        ensures
            r == self.finished(),
    {
        match self.phase {
            FlowPhase::Done | FlowPhase::Failed => true,
            _ => false,
        }
    }
}

} // verus!
