use fusen::contract::ServiceSelector;
use fusen::membership::{DiscoveryEndpoint, EndpointBreakerSource, Memberships, deduplicate, keeps_cached};

fn selector(group: &str) -> ServiceSelector {
    ServiceSelector::new("users".into(), Some(group.into()), Some("1".into())).unwrap()
}

fn endpoint(port: u16) -> DiscoveryEndpoint {
    DiscoveryEndpoint::new("users".into(), format!("http://127.0.0.1:{port}/"))
}

#[test]
fn snapshot_removal_evicts_only_the_missing_discovery_entry() {
    let mut memberships = Memberships::new();
    let first = endpoint(8001);
    let second = endpoint(8002);
    let evicted = memberships.replace(selector("prod"), &vec![first.clone(), second.clone()]);
    assert!(evicted.is_empty());
    assert!(memberships.is_member(&first));
    assert!(memberships.is_member(&second));

    let evicted = memberships.replace(selector("prod"), &vec![second.clone()]);
    assert_eq!(evicted, vec![first.clone()]);
    assert!(!memberships.is_member(&first));
    assert!(memberships.is_member(&second));
    assert!(!keeps_cached(EndpointBreakerSource::Discovery, &first, &evicted));
    assert!(keeps_cached(EndpointBreakerSource::Discovery, &second, &evicted));
}

#[test]
fn discovery_cleanup_does_not_prune_direct_or_other_owner_entries() {
    let mut memberships = Memberships::new();
    let shared = endpoint(8001);
    memberships.replace(selector("prod"), &vec![shared.clone()]);
    memberships.replace(selector("east"), &vec![shared.clone()]);
    assert!(memberships.tracks_breaker(EndpointBreakerSource::Discovery, &shared));

    let evicted = memberships.remove(&selector("prod"));
    assert!(evicted.is_empty());
    assert!(memberships.tracks_breaker(EndpointBreakerSource::Discovery, &shared));

    let evicted = memberships.remove(&selector("east"));
    assert_eq!(evicted, vec![shared.clone()]);
    assert!(!memberships.tracks_breaker(EndpointBreakerSource::Discovery, &shared));
    assert!(memberships.tracks_breaker(EndpointBreakerSource::Direct, &shared));
    assert!(keeps_cached(EndpointBreakerSource::Direct, &shared, &evicted));
}

#[test]
fn repeated_endpoints_count_once_per_owner() {
    let mut memberships = Memberships::new();
    let e = endpoint(9000);
    memberships.replace(selector("prod"), &vec![e.clone(), e.clone()]);
    let evicted = memberships.replace(selector("prod"), &Vec::new());
    assert_eq!(evicted, vec![e.clone()]);
    assert!(!memberships.is_member(&e));
    assert_eq!(deduplicate(&vec![e.clone(), endpoint(1), e.clone()]).len(), 2);
}

#[test]
fn removing_an_unknown_owner_changes_nothing() {
    let mut memberships = Memberships::new();
    let e = endpoint(9001);
    memberships.replace(selector("prod"), &vec![e.clone()]);
    assert!(memberships.remove(&selector("west")).is_empty());
    assert!(memberships.is_member(&e));
}
