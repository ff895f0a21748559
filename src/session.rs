use vstd::prelude::*;
use crate::change::{change_request, dns_name, is_update_request, record_name, ChangeRequest, UpdateOptions};
use crate::error::{error_message, Error};
use crate::zone::{bare_zone_id, get_zone_id, is_eligible, is_first_eligible, lookup_key, zone_lookup_key, HostedZone};

verus! {

/// The metadata key that holds the instance's public IPv4 address.
pub const PUBLIC_IPV4_KEY: &'static str = "public-ipv4";

/// Seconds to wait for the instance metadata service before giving up.
pub const METADATA_TIMEOUT_SECS: u64 = 2;

/// The address of a metadata key on the instance metadata service.
pub open spec fn metadata_address(key: Seq<char>) -> Seq<char> {
    "http://169.254.169.254/latest/meta-data/"@ + key
}

/// Builds the address from which the value of metadata key `key` is read.
pub fn metadata_url(key: &str) -> (r: String)
    ensures
        r@ == metadata_address(key@),
{
    String::from_str("http://169.254.169.254/latest/meta-data/").concat(key)
}

/// Where a run stands.
pub enum Stage {
    /// Waiting for the instance's public address.
    FetchingAddress,
    /// Waiting for the hosted-zone listing; holds the address and the lookup key.
    ListingZones { ipv4: String, zone_domain: String },
    /// Waiting for the provider's answer to the change batch.
    Updating,
    /// Nothing more to do.
    Finished,
}

/// What the outside world reports back after an action.
pub enum Event {
    /// The body read from the metadata service, or why it could not be read.
    Metadata(Result<String, Error>),
    /// The first page of the hosted-zone listing, or why it failed.
    Zones(Result<Vec<HostedZone>, Error>),
    /// The change status the provider returned, or why the change failed.
    Changed(Result<String, Error>),
}

/// How a run ends.
pub enum Outcome {
    /// The change was accepted; holds the provider's status verbatim.
    Updated { status: String },
    /// No public hosted zone carries the domain; holds the domain as given.
    UnknownZone { domain: String },
    /// A collaborator failed.
    Failed(Error),
}

/// What the outside world is asked to do next.
pub enum Action {
    /// Read the metadata service at this address.
    FetchMetadata { url: String },
    /// List the hosted zones, starting at this name.
    ListZones { dns_name: String },
    /// Submit this change batch.
    SubmitChange { request: ChangeRequest },
    /// Stop, with this outcome.
    Exit(Outcome),
}

/// The diagnostic line that reports an outcome.
pub open spec fn outcome_message(o: Outcome) -> Seq<char> {
    match o {
        Outcome::Updated { status } => "update status: "@ + status@,
        Outcome::UnknownZone { domain } => "unknown hosted zone: "@ + domain@,
        Outcome::Failed(e) => error_message(e),
    }
}

impl Outcome {
    /// Whether the run ends with a success exit status: every outcome but a failure.
    pub fn is_success(&self) -> (r: bool)
        ensures
            r == !(self is Failed),
    {
        !matches!(self, Outcome::Failed(_))
    }

    /// The diagnostic line for this outcome.
    pub fn message(&self) -> (r: String)
        ensures
            r@ == outcome_message(*self),
    {
        match self {
            Outcome::Updated { status } => String::from_str("update status: ").concat(status.as_str()),
            Outcome::UnknownZone { domain } => String::from_str("unknown hosted zone: ").concat(
                domain.as_str(),
            ),
            Outcome::Failed(e) => e.message(),
        }
    }
}

/// One run of the updater: the host label and domain it was given, and its stage.
pub struct Session {
    pub host: String,
    pub domain: String,
    pub stage: Stage,
}

/// `zones` holds a public zone named exactly `name`.
pub open spec fn has_eligible(zones: Seq<HostedZone>, name: Seq<char>) -> bool {
    exists|i: int| 0 <= i < zones.len() && is_eligible(#[trigger] zones[i], name)
}

/// The change batch `req` updates the record `host.domain` to `ipv4` in the first
/// public zone of `zones` named `name`.
pub open spec fn is_resolved_update(
    req: ChangeRequest,
    zones: Seq<HostedZone>,
    name: Seq<char>,
    host: Seq<char>,
    domain: Seq<char>,
    ipv4: Seq<char>,
) -> bool {
    exists|i: int|
        is_first_eligible(zones, name, i) && is_update_request(
            req,
            bare_zone_id(#[trigger] zones[i].id@),
            record_name(host, domain),
            ipv4,
        )
}

impl Session {
    /// The session waits for exactly this kind of event.
    pub open spec fn expects(self, event: Event) -> bool {
        match (self.stage, event) {
            (Stage::FetchingAddress, Event::Metadata(_)) => true,
            (Stage::ListingZones { .. }, Event::Zones(_)) => true,
            (Stage::Updating, Event::Changed(_)) => true,
            _ => false,
        }
    }

    /// One step of a run: from the session `s` and the event `e`, the session
    /// becomes `t` and asks for `a`.
    pub open spec fn transition(s: Session, e: Event, t: Session, a: Action) -> bool {
        &&& t.host == s.host
        &&& t.domain == s.domain
        &&& match (s.stage, e) {
            (Stage::FetchingAddress, Event::Metadata(Ok(ipv4))) => {
                &&& t.stage matches Stage::ListingZones { ipv4: kept, zone_domain }
                &&& kept == ipv4
                &&& zone_domain@ == lookup_key(s.domain@)
                &&& a matches Action::ListZones { dns_name }
                &&& dns_name@ == lookup_key(s.domain@)
            },
            (Stage::ListingZones { ipv4, zone_domain }, Event::Zones(Ok(zones))) => {
                if has_eligible(zones@, zone_domain@) {
                    &&& t.stage is Updating
                    &&& a matches Action::SubmitChange { request }
                    &&& is_resolved_update(request, zones@, zone_domain@, s.host@, s.domain@, ipv4@)
                } else {
                    &&& t.stage is Finished
                    &&& a matches Action::Exit(Outcome::UnknownZone { domain })
                    &&& domain@ == s.domain@
                }
            },
            (Stage::Updating, Event::Changed(Ok(status))) => {
                &&& t.stage is Finished
                &&& a == Action::Exit(Outcome::Updated { status })
            },
            (Stage::FetchingAddress, Event::Metadata(Err(err))) => {
                &&& t.stage is Finished
                &&& a == Action::Exit(Outcome::Failed(err))
            },
            (Stage::ListingZones { .. }, Event::Zones(Err(err))) => {
                &&& t.stage is Finished
                &&& a == Action::Exit(Outcome::Failed(err))
            },
            (Stage::Updating, Event::Changed(Err(err))) => {
                &&& t.stage is Finished
                &&& a == Action::Exit(Outcome::Failed(err))
            },
            _ => false,
        }
    }

    /// A failed read of the instance's address ends the run with that failure:
    /// the zones are never listed and no change is submitted, since the finished
    /// session waits for no event.
    pub proof fn lemma_failed_fetch_ends_run(s: Session, err: Error, t: Session, a: Action)
        requires
            s.stage is FetchingAddress,
            Session::transition(s, Event::Metadata(Err(err)), t, a),
        ensures
            a == Action::Exit(Outcome::Failed(err)),
            forall|e: Event| !t.expects(e),
    {
    }

    /// Starts a run for record `host.domain`: the first thing to do is to read the
    /// instance's public address.
    pub fn start(host: String, domain: String) -> (r: (Session, Action))
        ensures
            r.0.host == host,
            r.0.domain == domain,
            r.0.stage is FetchingAddress,
            r.1 matches Action::FetchMetadata { url } && url@ == metadata_address(
                PUBLIC_IPV4_KEY@,
            ),
    {
        let url = metadata_url(PUBLIC_IPV4_KEY);
        (Session { host, domain, stage: Stage::FetchingAddress }, Action::FetchMetadata { url })
    }

    /// Whether the session waits for `event`.
    pub fn accepts(&self, event: &Event) -> (r: bool)
        ensures
            r == self.expects(*event),
    {
        match (&self.stage, event) {
            (Stage::FetchingAddress, Event::Metadata(_)) => true,
            (Stage::ListingZones { .. }, Event::Zones(_)) => true,
            (Stage::Updating, Event::Changed(_)) => true,
            _ => false,
        }
    }

    /// Takes in what the last action produced and says what to do next.
    pub fn step(&mut self, event: Event) -> (a: Action)
        requires
            old(self).expects(event),
        ensures
            Session::transition(*old(self), event, *final(self), a),
    {
        let mut stage = Stage::Finished;
        std::mem::swap(&mut stage, &mut self.stage);
        match (stage, event) {
            (Stage::FetchingAddress, Event::Metadata(Ok(ipv4))) => {
                let zone_domain = zone_lookup_key(self.domain.as_str());
                let dns_name = zone_domain.clone();
                self.stage = Stage::ListingZones { ipv4, zone_domain };
                Action::ListZones { dns_name }
            },
            (Stage::ListingZones { ipv4, zone_domain }, Event::Zones(Ok(zones))) => {
                match get_zone_id(&zones, &zone_domain) {
                    Some(zone) => {
                        let dnsname = dns_name(self.host.as_str(), self.domain.as_str());
                        let request = change_request(UpdateOptions { zone, dnsname, ipv4 });
                        self.stage = Stage::Updating;
                        Action::SubmitChange { request }
                    },
                    None => Action::Exit(Outcome::UnknownZone { domain: self.domain.clone() }),
                }
            },
            (Stage::Updating, Event::Changed(Ok(status))) => Action::Exit(
                Outcome::Updated { status },
            ),
            (_, Event::Metadata(Err(err))) => Action::Exit(Outcome::Failed(err)),
            (_, Event::Zones(Err(err))) => Action::Exit(Outcome::Failed(err)),
            (_, Event::Changed(Err(err))) => Action::Exit(Outcome::Failed(err)),
            (_, _) => unreached(),
        }
    }
}

} // verus!
