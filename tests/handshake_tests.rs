use prizm_client::config::PrizmConfig;
use prizm_client::handshake::{
    apply_registration, classify_health, health_url, register_url, Action, Event, Handshake,
    Health, HealthReply, Phase, ProbeError, RegisterError, RegistrationReply,
};

fn begin(url: &str) -> Handshake {
    let (h, a) = Handshake::start("me".to_string(), url.to_string(), None);
    match a {
        Action::Get { url: u } => assert_eq!(u, format!("{}/health", url)),
        other => panic!("unexpected first action {:?}", other),
    }
    h
}

fn finish_err(a: Action) -> RegisterError {
    match a {
        Action::Finish { result: Err(e) } => e,
        other => panic!("expected a failure, got {:?}", other),
    }
}

#[test]
fn probe_ok_is_healthy() {
    let r = classify_health(HealthReply::Status("ok".to_string()));
    assert!(matches!(r, Ok(Health::Healthy)));
}

#[test]
fn probe_degraded_is_unhealthy() {
    let r = classify_health(HealthReply::Status("degraded".to_string()));
    assert!(matches!(r, Ok(Health::Unhealthy)));
}

#[test]
fn probe_refused_is_network_error() {
    let r = classify_health(HealthReply::Unreachable("connection refused".to_string()));
    match r {
        Err(ProbeError::Network(m)) => assert_eq!(m, "connection refused"),
        other => panic!("unexpected {:?}", other),
    }
}

#[test]
fn probe_malformed_is_parse_error() {
    let r = classify_health(HealthReply::Unparsable("bad".to_string()));
    assert!(matches!(r, Err(ProbeError::Parse(_))));
}

#[test]
fn urls_are_built_from_server_url() {
    assert_eq!(health_url("http://s:1"), "http://s:1/health");
    assert_eq!(register_url("http://s:1"), "http://s:1/auth/register");
}

#[test]
fn apply_registration_sets_identity_and_address() {
    let c = apply_registration(
        PrizmConfig::default(),
        "http://example.com:8080",
        "c1".to_string(),
        "k1".to_string(),
    );
    assert_eq!(c.server.host, "example.com");
    assert_eq!(c.server.port, "8080");
    assert_eq!(c.client.name, "c1");
    assert_eq!(c.api_key, "k1");
    assert_eq!(c.client.requested_scopes, vec!["default".to_string()]);
}

#[test]
fn register_end_to_end() {
    let url = "http://example.com:8080";
    let scopes = Some(vec!["read".to_string()]);
    let (h, _) = Handshake::start("me".to_string(), url.to_string(), scopes.clone());
    let (h, a) = h.step(Event::Health(HealthReply::Status("ok".to_string())));
    match a {
        Action::Post { url: u, request } => {
            assert_eq!(u, "http://example.com:8080/auth/register");
            assert_eq!(request.name, "me");
            assert_eq!(request.requested_scopes, scopes);
        }
        other => panic!("unexpected {:?}", other),
    }
    let (h, a) = h.step(Event::Registration(RegistrationReply::Issued {
        client_id: "c1".to_string(),
        api_key: "k1".to_string(),
    }));
    assert!(matches!(a, Action::LoadConfig));
    let (h, a) = h.step(Event::Loaded(Ok(PrizmConfig::default())));
    match a {
        Action::SaveConfig { config } => {
            assert_eq!(config.client.name, "c1");
            assert_eq!(config.api_key, "k1");
            assert_eq!(config.server.host, "example.com");
            assert_eq!(config.server.port, "8080");
        }
        other => panic!("unexpected {:?}", other),
    }
    let (h, a) = h.step(Event::Saved(Ok(())));
    match a {
        Action::Finish { result: Ok(k) } => assert_eq!(k, "k1"),
        other => panic!("unexpected {:?}", other),
    }
    assert!(matches!(h.phase, Phase::Done));
}

#[test]
fn register_unhealthy_server_fails_without_saving() {
    let h = begin("http://s:1");
    let (h, a) = h.step(Event::Health(HealthReply::Status("degraded".to_string())));
    assert!(matches!(finish_err(a), RegisterError::HealthCheckFailed));
    assert!(matches!(h.phase, Phase::Done));
    assert!(!h.accepts(&Event::Saved(Ok(()))));
    assert!(!h.accepts(&Event::Loaded(Ok(PrizmConfig::default()))));
}

#[test]
fn register_unreachable_server_is_network_error() {
    let h = begin("http://s:1");
    let (_, a) = h.step(Event::Health(HealthReply::Unreachable("refused".to_string())));
    assert!(matches!(finish_err(a), RegisterError::Network(_)));
}

#[test]
fn register_malformed_health_is_parse_error() {
    let h = begin("http://s:1");
    let (_, a) = h.step(Event::Health(HealthReply::Unparsable("x".to_string())));
    assert!(matches!(finish_err(a), RegisterError::Parse(_)));
}

fn registering() -> Handshake {
    let h = begin("http://s:1");
    h.step(Event::Health(HealthReply::Status("ok".to_string()))).0
}

#[test]
fn register_rejected_is_registration_failed() {
    let (_, a) = registering().step(Event::Registration(RegistrationReply::Rejected(403)));
    assert!(matches!(finish_err(a), RegisterError::RegistrationFailed(403)));
}

#[test]
fn register_post_unreachable_is_network_error() {
    let (_, a) =
        registering().step(Event::Registration(RegistrationReply::Unreachable("down".to_string())));
    assert!(matches!(finish_err(a), RegisterError::Network(_)));
}

#[test]
fn register_malformed_response_is_parse_error() {
    let (_, a) =
        registering().step(Event::Registration(RegistrationReply::Unparsable("{}".to_string())));
    assert!(matches!(finish_err(a), RegisterError::Parse(_)));
}

fn issued() -> Handshake {
    registering()
        .step(Event::Registration(RegistrationReply::Issued {
            client_id: "c".to_string(),
            api_key: "k".to_string(),
        }))
        .0
}

#[test]
fn load_failure_is_persist_error_with_key() {
    let (_, a) = issued().step(Event::Loaded(Err("disk".to_string())));
    match finish_err(a) {
        RegisterError::Persist { message, api_key } => {
            assert_eq!(message, "disk");
            assert_eq!(api_key, "k");
        }
        other => panic!("unexpected {:?}", other),
    }
}

#[test]
fn save_failure_is_persist_error_with_key() {
    let (h, _) = issued().step(Event::Loaded(Ok(PrizmConfig::default())));
    let (_, a) = h.step(Event::Saved(Err("full".to_string())));
    match finish_err(a) {
        RegisterError::Persist { message, api_key } => {
            assert_eq!(message, "full");
            assert_eq!(api_key, "k");
        }
        other => panic!("unexpected {:?}", other),
    }
}

#[test]
fn out_of_order_event_is_not_accepted() {
    let h = begin("http://s:1");
    assert!(h.accepts(&Event::Health(HealthReply::Status("ok".to_string()))));
    assert!(!h.accepts(&Event::Saved(Ok(()))));
}
