use vstd::prelude::*;

use crate::address::{extract_host_port, resolve_spec};
use crate::config::{ConfigView, PrizmConfig};

verus! {

pub open spec fn ok_status() -> Seq<char> {
    seq!['o', 'k']
}

pub open spec fn health_path() -> Seq<char> {
    seq!['/', 'h', 'e', 'a', 'l', 't', 'h']
}

pub open spec fn register_path() -> Seq<char> {
    seq!['/', 'a', 'u', 't', 'h', '/', 'r', 'e', 'g', 'i', 's', 't', 'e', 'r']
}

/// What came back from a health request, as far as the transport and the
/// body's decoding tell.
#[derive(Debug, Clone)]
pub enum HealthReply {
    /// The server could not be reached, or the body could not be read.
    Unreachable(String),
    /// A body came back that is not a health document.
    Unparsable(String),
    /// A health document with this `status`.
    Status(String),
}

/// The state of a reachable server.
#[derive(Debug, Clone, Copy, PartialEq, Eq, Structural)]
pub enum Health {
    Healthy,
    Unhealthy,
}

/// Why a health probe gave no verdict.
#[derive(Debug, Clone)]
pub enum ProbeError {
    Network(String),
    Parse(String),
}

/// What came back from a registration request.
#[derive(Debug, Clone)]
pub enum RegistrationReply {
    /// The server could not be reached, or the body could not be read.
    Unreachable(String),
    /// The server answered with this non-success HTTP status.
    Rejected(u16),
    /// A body came back that is not a registration document.
    Unparsable(String),
    /// The server issued an identity and a credential.
    Issued { client_id: String, api_key: String },
}

/// Why a registration failed; each variant names the step that failed.
#[derive(Debug, Clone)]
pub enum RegisterError {
    /// The server could not be reached.
    Network(String),
    /// A response body did not have the expected shape.
    Parse(String),
    /// The server is reachable but does not report itself healthy.
    HealthCheckFailed,
    /// The server refused the registration with this HTTP status.
    RegistrationFailed(u16),
    /// The credential was issued but the configuration could not be
    /// loaded or saved; the credential is kept here.
    Persist { message: String, api_key: String },
}

/// The body of a registration request.
#[derive(Debug, Clone)]
pub struct RegisterRequest {
    pub name: String,
    pub requested_scopes: Option<Vec<String>>,
}

/// Where a registration handshake stands.
#[derive(Debug, Clone)]
pub enum Phase {
    /// Waiting for the health reply; the request still to be sent.
    Probing { request: RegisterRequest },
    /// Waiting for the registration reply.
    Registering,
    /// Waiting for the stored configuration.
    Loading { client_id: String, api_key: String },
    /// Waiting for the updated configuration to be saved.
    Saving { api_key: String },
    /// Finished; no event is accepted any more.
    Done,
}

/// A registration handshake: health check, registration request, update
/// of the stored configuration. The caller performs each action and hands
/// back what came of it; no step is retried.
#[derive(Debug, Clone)]
pub struct Handshake {
    pub server_url: String,
    pub phase: Phase,
}

/// What the caller is to do next.
#[derive(Debug)]
pub enum Action {
    /// Send a GET request to this URL and hand back a `HealthReply`.
    Get { url: String },
    /// Send this request as JSON in a POST to this URL and hand back a
    /// `RegistrationReply`.
    Post { url: String, request: RegisterRequest },
    /// Load the stored configuration and hand back the outcome.
    LoadConfig,
    /// Save this configuration and hand back the outcome.
    SaveConfig { config: PrizmConfig },
    /// The handshake is over with this result.
    Finish { result: Result<String, RegisterError> },
}

/// What came of the last action.
#[derive(Debug)]
pub enum Event {
    Health(HealthReply),
    Registration(RegistrationReply),
    Loaded(Result<PrizmConfig, String>),
    Saved(Result<(), String>),
}

/// The configuration after a successful registration: the server address
/// is the resolved one, the client is named by its issued id, and the
/// issued key is stored. Everything else is kept.
pub open spec fn registered_config(
    c: ConfigView,
    server_url: Seq<char>,
    client_id: Seq<char>,
    api_key: Seq<char>,
) -> ConfigView {
    ConfigView {
        host: resolve_spec(server_url).0,
        port: resolve_spec(server_url).1,
        name: client_id,
        api_key,
        ..c
    }
}

fn equals_str(a: &str, b: &str) -> (r: bool)
    ensures
        r == (a@ == b@),
{
    let n = a.unicode_len();
    if n != b.unicode_len() {
        return false;
    }
    let mut i: usize = 0;
    while i < n
        invariant
            n == a@.len(),
            n == b@.len(),
            i <= n,
            forall|j: int| 0 <= j < i ==> a@[j] == b@[j],
        decreases n - i,
    {
        if a.get_char(i) != b.get_char(i) {
            return false;
        }
        i = i + 1;
    }
    assert(a@ =~= b@);
    true
}

/// `server_url` followed by `/health`.
pub fn health_url(server_url: &str) -> (r: String)
    ensures
        r@ == server_url@ + health_path(),
{
    proof {
        reveal_strlit("/health");
    }
    assert("/health"@ =~= health_path());
    String::from_str(server_url).concat("/health")
}

/// `server_url` followed by `/auth/register`.
pub fn register_url(server_url: &str) -> (r: String)
    ensures
        r@ == server_url@ + register_path(),
{
    proof {
        reveal_strlit("/auth/register");
    }
    assert("/auth/register"@ =~= register_path());
    String::from_str(server_url).concat("/auth/register")
}

/// The verdict of a health probe: healthy exactly when the status is "ok";
/// an unreachable server or a malformed body is an error, not a verdict.
pub fn classify_health(reply: HealthReply) -> (r: Result<Health, ProbeError>)
    ensures
        reply matches HealthReply::Unreachable(m) ==> (r matches Err(ProbeError::Network(e))
            && e@ == m@),
        reply matches HealthReply::Unparsable(m) ==> (r matches Err(ProbeError::Parse(e)) && e@
            == m@),
        reply matches HealthReply::Status(s) ==> (s@ == ok_status() ==> r == Ok::<
            Health,
            ProbeError,
        >(Health::Healthy)),
        reply matches HealthReply::Status(s) ==> (s@ != ok_status() ==> r == Ok::<
            Health,
            ProbeError,
        >(Health::Unhealthy)),
{
    match reply {
        HealthReply::Unreachable(m) => Err(ProbeError::Network(m)),
        HealthReply::Unparsable(m) => Err(ProbeError::Parse(m)),
        HealthReply::Status(s) => {
            proof {
                reveal_strlit("ok");
            }
            assert("ok"@ =~= ok_status());
            if equals_str(s.as_str(), "ok") {
                Ok(Health::Healthy)
            } else {
                Ok(Health::Unhealthy)
            }
        },
    }
}

/// Records a registration in a configuration: the resolved host and port
/// of `server_url`, the issued client id as the client's name, and the
/// issued key.
pub fn apply_registration(
    config: PrizmConfig,
    server_url: &str,
    client_id: String,
    api_key: String,
) -> (r: PrizmConfig)
    ensures
        r@ == registered_config(config@, server_url@, client_id@, api_key@),
{
    let (host, port) = extract_host_port(server_url);
    let mut config = config;
    config.server.host = host;
    config.server.port = port;
    config.client.name = client_id;
    config.api_key = api_key;
    config
}

/// The handshake expects this event in this phase.
pub open spec fn fits(phase: Phase, event: Event) -> bool {
    match phase {
        Phase::Probing { .. } => event is Health,
        Phase::Registering => event is Registration,
        Phase::Loading { .. } => event is Loaded,
        Phase::Saving { .. } => event is Saved,
        Phase::Done => false,
    }
}

/// `a` ends the handshake with an error satisfying `p`, and `h` is done.
pub open spec fn fails_with(h: Handshake, a: Action, p: spec_fn(RegisterError) -> bool) -> bool {
    &&& h.phase is Done
    &&& a matches Action::Finish { result: Err(e) }
    &&& p(e)
}

/// One step of the handshake: from `h`, on `event`, the handshake becomes
/// `h2` and asks for `a`.
pub open spec fn step_spec(h: Handshake, event: Event, h2: Handshake, a: Action) -> bool {
    &&& h2.server_url@ == h.server_url@
    &&& match (h.phase, event) {
        (Phase::Probing { request }, Event::Health(reply)) => match reply {
            HealthReply::Unreachable(m) => fails_with(
                h2,
                a,
                |e: RegisterError| e matches RegisterError::Network(x) && x@ == m@,
            ),
            HealthReply::Unparsable(m) => fails_with(
                h2,
                a,
                |e: RegisterError| e matches RegisterError::Parse(x) && x@ == m@,
            ),
            HealthReply::Status(st) => if st@ == ok_status() {
                &&& h2.phase is Registering
                &&& a matches Action::Post { url, request: req }
                &&& url@ == h.server_url@ + register_path()
                &&& req == request
            } else {
                fails_with(h2, a, |e: RegisterError| e is HealthCheckFailed)
            },
        },
        (Phase::Registering, Event::Registration(reply)) => match reply {
            RegistrationReply::Unreachable(m) => fails_with(
                h2,
                a,
                |e: RegisterError| e matches RegisterError::Network(x) && x@ == m@,
            ),
            RegistrationReply::Rejected(code) => fails_with(
                h2,
                a,
                |e: RegisterError| e == RegisterError::RegistrationFailed(code),
            ),
            RegistrationReply::Unparsable(m) => fails_with(
                h2,
                a,
                |e: RegisterError| e matches RegisterError::Parse(x) && x@ == m@,
            ),
            RegistrationReply::Issued { client_id, api_key } => {
                &&& h2.phase matches Phase::Loading { client_id: c, api_key: k }
                &&& c@ == client_id@
                &&& k@ == api_key@
                &&& a is LoadConfig
            },
        },
        (Phase::Loading { client_id, api_key }, Event::Loaded(loaded)) => match loaded {
            Ok(config) => {
                &&& h2.phase matches Phase::Saving { api_key: k }
                &&& k@ == api_key@
                &&& a matches Action::SaveConfig { config: saved }
                &&& saved@ == registered_config(
                    config@,
                    h.server_url@,
                    client_id@,
                    api_key@,
                )
            },
            Err(m) => fails_with(
                h2,
                a,
                |e: RegisterError|
                    e matches RegisterError::Persist { message: x, api_key: k } && x@ == m@ && k@
                        == api_key@,
            ),
        },
        (Phase::Saving { api_key }, Event::Saved(saved)) => match saved {
            Ok(_) => {
                &&& h2.phase is Done
                &&& a matches Action::Finish { result: Ok(k) }
                &&& k@ == api_key@
            },
            Err(m) => fails_with(
                h2,
                a,
                |e: RegisterError|
                    e matches RegisterError::Persist { message: x, api_key: k } && x@ == m@ && k@
                        == api_key@,
            ),
        },
        _ => false,
    }
}

impl Handshake {
    /// Begins a registration of a client named `name` with the server at
    /// `server_url`: the first action is the health check.
    pub fn start(name: String, server_url: String, requested_scopes: Option<Vec<String>>) -> (r: (
        Handshake,
        Action,
    ))
        ensures
            r.0.server_url@ == server_url@,
            r.0.phase matches Phase::Probing { request } && request.name@ == name@
                && request.requested_scopes == requested_scopes,
            r.1 matches Action::Get { url } && url@ == server_url@ + health_path(),
    {
        let url = health_url(server_url.as_str());
        (
            Handshake {
                server_url,
                phase: Phase::Probing { request: RegisterRequest { name, requested_scopes } },
            },
            Action::Get { url },
        )
    }

    /// Whether the handshake expects `event` now.
    pub fn accepts(&self, event: &Event) -> (r: bool)
        ensures
            r == fits(self.phase, *event),
    {
        match (&self.phase, event) {
            (Phase::Probing { .. }, Event::Health(_)) => true,
            (Phase::Registering, Event::Registration(_)) => true,
            (Phase::Loading { .. }, Event::Loaded(_)) => true,
            (Phase::Saving { .. }, Event::Saved(_)) => true,
            _ => false,
        }
    }

    /// Takes the outcome of the last action and decides the next one.
    /// Every failure ends the handshake at once with an error that names
    /// the failed step.
    pub fn step(self, event: Event) -> (r: (Handshake, Action))
        requires
            fits(self.phase, event),
        ensures
            step_spec(self, event, r.0, r.1),
    {
        let server_url = self.server_url;
        match (self.phase, event) {
            (Phase::Probing { request }, Event::Health(reply)) => {
                match classify_health(reply) {
                    Err(ProbeError::Network(m)) => (
                        Handshake { server_url, phase: Phase::Done },
                        Action::Finish { result: Err(RegisterError::Network(m)) },
                    ),
                    Err(ProbeError::Parse(m)) => (
                        Handshake { server_url, phase: Phase::Done },
                        Action::Finish { result: Err(RegisterError::Parse(m)) },
                    ),
                    Ok(Health::Unhealthy) => (
                        Handshake { server_url, phase: Phase::Done },
                        Action::Finish { result: Err(RegisterError::HealthCheckFailed) },
                    ),
                    Ok(Health::Healthy) => {
                        let url = register_url(server_url.as_str());
                        (
                            Handshake { server_url, phase: Phase::Registering },
                            Action::Post { url, request },
                        )
                    },
                }
            },
            (Phase::Registering, Event::Registration(reply)) => {
                let action = match reply {
                    RegistrationReply::Unreachable(m) => Action::Finish {
                        result: Err(RegisterError::Network(m)),
                    },
                    RegistrationReply::Rejected(code) => Action::Finish {
                        result: Err(RegisterError::RegistrationFailed(code)),
                    },
                    RegistrationReply::Unparsable(m) => Action::Finish {
                        result: Err(RegisterError::Parse(m)),
                    },
                    RegistrationReply::Issued { client_id, api_key } => {
                        return (
                            Handshake { server_url, phase: Phase::Loading { client_id, api_key } },
                            Action::LoadConfig,
                        );
                    },
                };
                (Handshake { server_url, phase: Phase::Done }, action)
            },
            (Phase::Loading { client_id, api_key }, Event::Loaded(loaded)) => {
                match loaded {
                    Ok(config) => {
                        let kept = api_key.clone();
                        let updated = apply_registration(
                            config,
                            server_url.as_str(),
                            client_id,
                            api_key,
                        );
                        (
                            Handshake { server_url, phase: Phase::Saving { api_key: kept } },
                            Action::SaveConfig { config: updated },
                        )
                    },
                    Err(message) => (
                        Handshake { server_url, phase: Phase::Done },
                        Action::Finish { result: Err(RegisterError::Persist { message, api_key }) },
                    ),
                }
            },
            (Phase::Saving { api_key }, Event::Saved(saved)) => {
                let result = match saved {
                    Ok(_) => Ok(api_key),
                    Err(message) => Err(RegisterError::Persist { message, api_key }),
                };
                (Handshake { server_url, phase: Phase::Done }, Action::Finish { result })
            },
            _ => {
                proof {
                    assert(false);
                }
                (Handshake { server_url, phase: Phase::Done }, Action::LoadConfig)
            },
        }
    }
}

/// A handshake in which the server reports "ok", issues an identity, and
/// the configuration is loaded and saved, saves the loaded configuration
/// with the resolved address of the server, the issued id as the client's
/// name and the issued key, and then returns that key.
pub proof fn lemma_registration_succeeds(
    h0: Handshake,
    status: String,
    h1: Handshake,
    a1: Action,
    client_id: String,
    api_key: String,
    h2: Handshake,
    a2: Action,
    loaded: PrizmConfig,
    h3: Handshake,
    a3: Action,
    h4: Handshake,
    a4: Action,
)
    requires
        h0.phase is Probing,
        status@ == ok_status(),
        step_spec(h0, Event::Health(HealthReply::Status(status)), h1, a1),
        step_spec(h1, Event::Registration(RegistrationReply::Issued { client_id, api_key }), h2, a2),
        step_spec(h2, Event::Loaded(Ok(loaded)), h3, a3),
        step_spec(h3, Event::Saved(Ok(())), h4, a4),
    ensures
        a1 matches Action::Post { url, .. } && url@ == h0.server_url@ + register_path(),
        a2 is LoadConfig,
        a3 matches Action::SaveConfig { config } && config@ == registered_config(
            loaded@,
            h0.server_url@,
            client_id@,
            api_key@,
        ),
        a4 matches Action::Finish { result: Ok(k) } && k@ == api_key@,
        h4.phase is Done,
{
}

/// A handshake whose health check reports a status other than "ok" ends
/// at once with `HealthCheckFailed`, and accepts no further event: the
/// stored configuration is neither loaded nor saved.
pub proof fn lemma_unhealthy_server_changes_nothing(
    h0: Handshake,
    status: String,
    h1: Handshake,
    a1: Action,
)
    requires
        h0.phase is Probing,
        status@ != ok_status(),
        step_spec(h0, Event::Health(HealthReply::Status(status)), h1, a1),
    ensures
        a1 matches Action::Finish { result: Err(e) } && e is HealthCheckFailed,
        forall|ev: Event| !fits(h1.phase, ev),
{
}

} // verus!
