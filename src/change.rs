use vstd::prelude::*;

verus! {

/// Time to live, in seconds, of the address record that an update writes.
pub const RECORD_TTL: i64 = 60;

/// What a change does to its record set. Only create-or-replace is used.
#[derive(Clone, Copy, Debug, PartialEq, Eq, Structural)]
pub enum ChangeAction {
    Upsert,
}

impl ChangeAction {
    /// The action's name on the provider's API.
    pub fn as_str(&self) -> (r: &'static str)
        ensures
            r@ == "UPSERT"@,
    {
        "UPSERT"
    }
}

/// The type of a record set. Only address records are written.
#[derive(Clone, Copy, Debug, PartialEq, Eq, Structural)]
pub enum RecordType {
    A,
}

impl RecordType {
    /// The type's name on the provider's API.
    pub fn as_str(&self) -> (r: &'static str)
        ensures
            r@ == "A"@,
    {
        "A"
    }
}

/// A record set: a name, a type, a time to live and its values.
pub struct ResourceRecordSet {
    pub name: String,
    pub record_type: RecordType,
    pub ttl: i64,
    pub values: Vec<String>,
}

/// One change of a change batch.
pub struct Change {
    pub action: ChangeAction,
    pub record_set: ResourceRecordSet,
}

/// A change batch, with its comment, addressed to one hosted zone.
pub struct ChangeRequest {
    pub hosted_zone_id: String,
    pub comment: String,
    pub changes: Vec<Change>,
}

/// What an update needs: the bare zone id, the record's name and the address.
pub struct UpdateOptions {
    pub zone: String,
    pub dnsname: String,
    pub ipv4: String,
}

/// The fully-qualified record name: the host and the domain joined by a dot.
pub open spec fn record_name(host: Seq<char>, domain: Seq<char>) -> Seq<char> {
    host + seq!['.'] + domain
}

/// The comment that each change batch carries.
pub open spec fn change_comment() -> Seq<char> {
    seq!['r', '5', '3', 'u', 'p', ' ', 'c', 'h', 'a', 'n', 'g', 'e']
}

/// `change` upserts one address record of the given name with the single value
/// `ipv4`, at the fixed time to live.
pub open spec fn is_address_upsert(change: Change, name: Seq<char>, ipv4: Seq<char>) -> bool {
    &&& change.action == ChangeAction::Upsert
    &&& change.record_set.name@ == name
    &&& change.record_set.record_type == RecordType::A
    &&& change.record_set.ttl == RECORD_TTL
    &&& change.record_set.values@.len() == 1
    &&& change.record_set.values@[0]@ == ipv4
}

/// `req` is the single-change batch that an update with these options submits.
pub open spec fn is_update_request(
    req: ChangeRequest,
    zone: Seq<char>,
    name: Seq<char>,
    ipv4: Seq<char>,
) -> bool {
    &&& req.hosted_zone_id@ == zone
    &&& req.comment@ == change_comment()
    &&& req.changes@.len() == 1
    &&& is_address_upsert(req.changes@[0], name, ipv4)
}

/// Joins a host label and a domain into the record name, `host.domain`.
pub fn dns_name(host: &str, domain: &str) -> (r: String)
    ensures
        r@ == record_name(host@, domain@),
{
    proof {
        reveal_strlit(".");
    }
    String::from_str(host).concat(".").concat(domain)
}

/// Builds the change batch that upserts the address record of `options`.
pub fn change_request(options: UpdateOptions) -> (r: ChangeRequest)
    ensures
        is_update_request(r, options.zone@, options.dnsname@, options.ipv4@),
{
    let comment = "r53up change";
    proof {
        reveal_strlit("r53up change");
        assert(comment@ =~= change_comment());
    }
    let record_set = ResourceRecordSet {
        name: options.dnsname,
        record_type: RecordType::A,
        ttl: RECORD_TTL,
        values: vec![options.ipv4],
    };
    let change = Change { action: ChangeAction::Upsert, record_set };
    ChangeRequest {
        hosted_zone_id: options.zone,
        comment: String::from_str(comment),
        changes: vec![change],
    }
}

} // verus!
