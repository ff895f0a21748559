use vstd::prelude::*;

verus! {

/// The key under which a domain's hosted zone is looked up: the domain with a
/// trailing dot, added only when it is not there already.
pub open spec fn lookup_key(domain: Seq<char>) -> Seq<char> {
    if domain.len() > 0 && domain.last() == '.' {
        domain
    } else {
        domain.push('.')
    }
}

/// Normalizing a lookup key again leaves it unchanged, and every key ends with a dot.
pub proof fn lemma_lookup_key_idempotent(domain: Seq<char>)
    ensures
        lookup_key(lookup_key(domain)) == lookup_key(domain),
        lookup_key(domain).len() > 0,
        lookup_key(domain).last() == '.',
{
}

/// The path-style prefix that the DNS provider puts in front of a zone id.
pub open spec fn zone_id_prefix() -> Seq<char> {
    seq!['/', 'h', 'o', 's', 't', 'e', 'd', 'z', 'o', 'n', 'e', '/']
}

/// A zone id with the path-style prefix taken off once, if it carries it.
pub open spec fn bare_zone_id(id: Seq<char>) -> Seq<char> {
    if zone_id_prefix().is_prefix_of(id) {
        id.skip(zone_id_prefix().len() as int)
    } else {
        id
    }
}

/// The visibility block of a hosted zone, as the provider reports it.
pub struct HostedZoneConfig {
    pub private_zone: Option<bool>,
}

/// One entry of the provider's hosted-zone listing.
pub struct HostedZone {
    pub id: String,
    pub name: String,
    pub config: Option<HostedZoneConfig>,
}

/// A zone is public when its visibility block is present and says, explicitly,
/// that it is not private.
pub open spec fn is_public(zone: HostedZone) -> bool {
    &&& zone.config is Some
    &&& zone.config->0.private_zone == Some(false)
}

/// A zone can take the update when its name is exactly the lookup key and it is public.
pub open spec fn is_eligible(zone: HostedZone, name: Seq<char>) -> bool {
    zone.name@ == name && is_public(zone)
}

/// Index `i` holds the first eligible zone of the listing.
pub open spec fn is_first_eligible(zones: Seq<HostedZone>, name: Seq<char>, i: int) -> bool {
    &&& 0 <= i < zones.len()
    &&& is_eligible(zones[i], name)
    &&& forall|j: int| 0 <= j < i ==> !is_eligible(#[trigger] zones[j], name)
}

/// Builds the zone-lookup key for `domain`.
pub fn zone_lookup_key(domain: &str) -> (r: String)
    ensures
        r@ == lookup_key(domain@),
{
    proof {
        reveal_strlit(".");
    }
    let n = domain.unicode_len();
    if n > 0 && domain.get_char(n - 1) == '.' {
        String::from_str(domain)
    } else {
        String::from_str(domain).concat(".")
    }
}

/// Strips the `/hostedzone/` prefix from a provider zone id, once, when present.
pub fn normalize_zone_id(id: &str) -> (r: String)
    ensures
        r@ == bare_zone_id(id@),
{
    let prefix = "/hostedzone/";
    proof {
        reveal_strlit("/hostedzone/");
        assert(prefix@ =~= zone_id_prefix());
    }
    let n = id.unicode_len();
    let m = prefix.unicode_len();
    if n < m {
        return String::from_str(id);
    }
    let mut i: usize = 0;
    while i < m
        invariant
            m == zone_id_prefix().len(),
            prefix@ == zone_id_prefix(),
            m <= n == id@.len(),
            i <= m,
            forall|k: int| 0 <= k < i ==> id@[k] == zone_id_prefix()[k],
        decreases m - i,
    {
        if id.get_char(i) != prefix.get_char(i) {
            return String::from_str(id);
        }
        i = i + 1;
    }
    assert(zone_id_prefix().is_prefix_of(id@));
    String::from_str(id.substring_char(m, n))
}

/// Picks, from one page of the provider's listing, the first public zone whose
/// name is exactly `name`, and returns its id without the path prefix.
pub fn get_zone_id(zones: &Vec<HostedZone>, name: &String) -> (r: Option<String>)
    ensures
        r is None <==> forall|i: int| 0 <= i < zones@.len() ==> !is_eligible(#[trigger] zones@[i], name@),
        r matches Some(id) ==> exists|i: int|
            is_first_eligible(zones@, name@, i) && id@ == bare_zone_id(#[trigger] zones@[i].id@),
{
    let mut i: usize = 0;
    while i < zones.len()
        invariant
            i <= zones@.len(),
            forall|j: int| 0 <= j < i ==> !is_eligible(#[trigger] zones@[j], name@),
        decreases zones@.len() - i,
    {
        let zone = &zones[i];
        if zone.name == *name {
            if let Some(config) = &zone.config {
                if let Some(private) = config.private_zone {
                    if !private {
                        let id = normalize_zone_id(zone.id.as_str());
                        assert(is_first_eligible(zones@, name@, i as int));
                        return Some(id);
                    }
                }
            }
        }
        i = i + 1;
    }
    None
}

} // verus!
