use r53up::error::Error;
use r53up::session::{metadata_url, Action, Event, Outcome, Session, Stage, PUBLIC_IPV4_KEY};
use r53up::zone::{HostedZone, HostedZoneConfig};

fn public_zone(id: &str, name: &str) -> HostedZone {
    HostedZone {
        id: id.to_string(),
        name: name.to_string(),
        config: Some(HostedZoneConfig { private_zone: Some(false) }),
    }
}

fn private_zone(id: &str, name: &str) -> HostedZone {
    HostedZone {
        id: id.to_string(),
        name: name.to_string(),
        config: Some(HostedZoneConfig { private_zone: Some(true) }),
    }
}

fn start(host: &str, domain: &str) -> Session {
    let (session, action) = Session::start(host.to_string(), domain.to_string());
    match action {
        Action::FetchMetadata { url } => {
            assert_eq!(url, "http://169.254.169.254/latest/meta-data/public-ipv4")
        }
        _ => panic!("a run starts by reading the metadata service"),
    }
    session
}

#[test]
fn metadata_url_appends_key() {
    assert_eq!(metadata_url("instance-id"), "http://169.254.169.254/latest/meta-data/instance-id");
    assert_eq!(PUBLIC_IPV4_KEY, "public-ipv4");
}

#[test]
fn end_to_end_update() {
    let mut session = start("app", "example.com");
    let event = Event::Metadata(Ok("198.51.100.7".to_string()));
    assert!(session.accepts(&event));
    match session.step(event) {
        Action::ListZones { dns_name } => assert_eq!(dns_name, "example.com."),
        _ => panic!("expected a zone listing"),
    }
    let zones = vec![public_zone("/hostedzone/ABC123", "example.com.")];
    let request = match session.step(Event::Zones(Ok(zones))) {
        Action::SubmitChange { request } => request,
        _ => panic!("expected a change batch"),
    };
    assert_eq!(request.hosted_zone_id, "ABC123");
    assert_eq!(request.changes.len(), 1);
    assert_eq!(request.changes[0].record_set.name, "app.example.com");
    assert_eq!(request.changes[0].record_set.values, vec!["198.51.100.7".to_string()]);
    let outcome = match session.step(Event::Changed(Ok("PENDING".to_string()))) {
        Action::Exit(outcome) => outcome,
        _ => panic!("expected the end of the run"),
    };
    assert!(outcome.is_success());
    assert_eq!(outcome.message(), "update status: PENDING");
    assert!(matches!(session.stage, Stage::Finished));
}

#[test]
fn private_zone_only_reports_unknown_zone() {
    let mut session = start("app", "example.com");
    session.step(Event::Metadata(Ok("198.51.100.7".to_string())));
    let zones = vec![private_zone("/hostedzone/PRIV", "example.com.")];
    let outcome = match session.step(Event::Zones(Ok(zones))) {
        Action::Exit(outcome) => outcome,
        _ => panic!("expected the end of the run"),
    };
    assert!(outcome.is_success());
    assert_eq!(outcome.message(), "unknown hosted zone: example.com");
    assert!(matches!(session.stage, Stage::Finished));
}

#[test]
fn metadata_failure_ends_run() {
    let mut session = start("app", "example.com");
    let outcome = match session.step(Event::Metadata(Err(Error::ReqError("timed out".to_string())))) {
        Action::Exit(outcome) => outcome,
        _ => panic!("expected the end of the run"),
    };
    assert!(!outcome.is_success());
    assert!(matches!(outcome, Outcome::Failed(Error::ReqError(_))));
    assert_eq!(outcome.message(), "reqwest error: timed out");
    assert!(!session.accepts(&Event::Zones(Ok(Vec::new()))));
    assert!(!session.accepts(&Event::Changed(Ok("PENDING".to_string()))));
    assert!(!session.accepts(&Event::Metadata(Ok("198.51.100.7".to_string()))));
}

#[test]
fn zone_listing_failure_ends_run() {
    let mut session = start("app", "example.com.");
    match session.step(Event::Metadata(Ok("198.51.100.7".to_string()))) {
        Action::ListZones { dns_name } => assert_eq!(dns_name, "example.com."),
        _ => panic!("expected a zone listing"),
    }
    let err = Error::ListHostedZonesByNameError("access denied".to_string());
    match session.step(Event::Zones(Err(err))) {
        Action::Exit(outcome) => {
            assert!(!outcome.is_success());
            assert_eq!(outcome.message(), "route 53: access denied");
        }
        _ => panic!("expected the end of the run"),
    }
}

#[test]
fn change_failure_ends_run() {
    let mut session = start("www", "example.org");
    session.step(Event::Metadata(Ok("203.0.113.5".to_string())));
    let zones = vec![
        private_zone("/hostedzone/PRIV", "example.org."),
        public_zone("/hostedzone/PUB", "example.org."),
    ];
    match session.step(Event::Zones(Ok(zones))) {
        Action::SubmitChange { request } => assert_eq!(request.hosted_zone_id, "PUB"),
        _ => panic!("expected a change batch"),
    }
    assert!(session.accepts(&Event::Changed(Ok("PENDING".to_string()))));
    assert!(!session.accepts(&Event::Zones(Ok(Vec::new()))));
    let err = Error::ChangeResourceRecordSetsError("throttled".to_string());
    match session.step(Event::Changed(Err(err))) {
        Action::Exit(outcome) => {
            assert!(!outcome.is_success());
            assert_eq!(outcome.message(), "route 53: throttled");
        }
        _ => panic!("expected the end of the run"),
    }
}

#[test]
fn waits_only_for_metadata_at_start() {
    let session = start("app", "example.com");
    assert!(session.accepts(&Event::Metadata(Err(Error::ReqError("x".to_string())))));
    assert!(!session.accepts(&Event::Zones(Ok(Vec::new()))));
    assert!(!session.accepts(&Event::Changed(Ok("INSYNC".to_string()))));
}

#[test]
fn error_messages_name_their_kind() {
    assert_eq!(Error::CredentialsError("none found".to_string()).message(), "credentials error: none found");
    assert_eq!(Error::ReqError("refused".to_string()).message(), "reqwest error: refused");
    assert_eq!(
        Error::ListHostedZonesByNameError("bad".to_string()).message(),
        "route 53: bad"
    );
    assert_eq!(
        Error::ChangeResourceRecordSetsError("bad".to_string()).message(),
        "route 53: bad"
    );
}
