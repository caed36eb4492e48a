use pubky_core_client::crypto::Keypair;
use pubky_core_client::error::DHTError;
use pubky_core_client::records::{address, home_key, RData, ResourceRecord, TxtAttribute};
use pubky_core_client::resolver::{RecordStore, ResolveStep, Resolver};

fn txt(name: &str, attrs: &[(&str, Option<&str>)]) -> ResourceRecord {
    ResourceRecord {
        name: name.to_string(),
        ttl: 30,
        rdata: RData::Txt(
            attrs
                .iter()
                .map(|(k, v)| TxtAttribute { key: k.to_string(), value: v.map(|s| s.to_string()) })
                .collect(),
        ),
    }
}

fn cname(name: &str, target: &str) -> ResourceRecord {
    ResourceRecord { name: name.to_string(), ttl: 30, rdata: RData::Cname(target.to_string()) }
}

fn resolve(
    resolver: &mut Resolver,
    key: &str,
    store: &[(String, Vec<ResourceRecord>)],
    lookups: &mut usize,
) -> Result<String, DHTError> {
    let lookup = |k: &str, lookups: &mut usize| {
        *lookups += 1;
        store
            .iter()
            .find(|(sk, _)| sk == k)
            .map(|(_, r)| r.clone())
            .ok_or(DHTError::EntryNotFound(k.to_string()))
    };
    let user_key = match resolver.resolve_homeserver(key) {
        ResolveStep::Done(r) => return r,
        ResolveStep::Lookup(k) => k,
    };
    let home = match resolver.resolve_user_records(lookup(&user_key, lookups)) {
        ResolveStep::Done(r) => return r,
        ResolveStep::Lookup(h) => h,
    };
    resolver.resolve_homeserver_records(key, lookup(&home, lookups))
}

#[test]
fn resolution_goes_through_the_homeserver_key() {
    let store = vec![
        ("user".to_string(), vec![txt("_pubky", &[("home", Some("hs"))])]),
        ("hs".to_string(), vec![cname("@", "example.com")]),
    ];
    let mut resolver = Resolver::new(None);
    let mut lookups = 0;
    assert_eq!(resolve(&mut resolver, "user", &store, &mut lookups).unwrap(), "https://example.com/");
    assert_eq!(lookups, 2);
    assert_eq!(resolver.cached("user"), Some("https://example.com/".to_string()));

    // A changed record is masked by the cache.
    let changed = vec![
        ("user".to_string(), vec![txt("_pubky", &[("home", Some("hs"))])]),
        ("hs".to_string(), vec![cname("@", "other.org")]),
    ];
    assert_eq!(resolve(&mut resolver, "user", &changed, &mut lookups).unwrap(), "https://example.com/");
    assert_eq!(lookups, 2);

    let mut fresh = Resolver::new(None);
    assert_eq!(resolve(&mut fresh, "user", &changed, &mut lookups).unwrap(), "https://other.org/");
}

#[test]
fn local_txt_address_and_first_match() {
    let records = vec![
        txt("_pubky", &[("other", None)]),
        cname("www", "ignored.example"),
        txt("@", &[("x", Some("y"))]),
        txt("@", &[("localhost:", Some("6287")), ("localhost", None)]),
        cname("@", "late.example"),
    ];
    assert_eq!(address(&records), Some("http://localhost:6287".to_string()));
    assert_eq!(address(&[cname("@", "a.b")].to_vec()), Some("https://a.b".to_string()));
    assert_eq!(address(&Vec::new()), None);
}

#[test]
fn home_key_rules() {
    assert_eq!(
        home_key(&vec![txt("_pubky", &[("x", Some("1")), ("homeserver", Some("k1")), ("home", Some("k2"))])]),
        Some("k1".to_string())
    );
    assert_eq!(home_key(&vec![txt("_pubky", &[("home", None)])]), None);
    assert_eq!(home_key(&vec![txt("@", &[("home", Some("k"))])]), None);
    assert_eq!(home_key(&vec![cname("_pubky", "home")]), None);
}

#[test]
fn resolution_errors() {
    let mut lookups = 0;
    let mut resolver = Resolver::new(None);
    assert!(matches!(
        resolve(&mut resolver, "nobody", &[], &mut lookups),
        Err(DHTError::EntryNotFound(k)) if k == "nobody"
    ));
    let no_home = vec![("user".to_string(), vec![txt("_pubky", &[("home", None)])])];
    assert!(matches!(resolve(&mut resolver, "user", &no_home, &mut lookups), Err(DHTError::NoRecordsFound)));
    let no_apex = vec![
        ("user".to_string(), vec![txt("_pubky", &[("home", Some("hs"))])]),
        ("hs".to_string(), vec![txt("@", &[("nothing", None)])]),
    ];
    assert!(matches!(resolve(&mut resolver, "user", &no_apex, &mut lookups), Err(DHTError::NoRecordsFound)));
    let bad_url = vec![
        ("user".to_string(), vec![txt("_pubky", &[("home", Some("hs"))])]),
        ("hs".to_string(), vec![cname("@", "exa mple.com")]),
    ];
    assert!(matches!(
        resolve(&mut resolver, "user", &bad_url, &mut lookups),
        Err(DHTError::FailedToParseDnsRecordAsUrl)
    ));
    assert_eq!(resolver.cached("user"), None);
}

#[test]
fn test_resolve_homeserver_from_dht() {
    let key = Keypair::random();
    let url = "https://datastore.example.com/";

    let mut resolver = Resolver::new(None);
    let request = resolver.publish(&key, url);
    assert_eq!(request.public_key, key.to_z32());
    let store = vec![(request.public_key.clone(), request.records.clone())];
    resolver.publish_done(&request.public_key, &request.homeserver_url, Ok(())).unwrap();

    let mut lookups = 0;
    let res = resolve(&mut resolver, &key.to_z32(), &store, &mut lookups).unwrap();
    assert_eq!(res, url);
    assert_eq!(lookups, 0);

    // The published records resolve to the same address without the cache.
    assert_eq!(home_key(&request.records), Some(key.to_z32()));
    assert_eq!(address(&request.records), Some(url.to_string()));
}

#[test]
fn publication_layout_and_failure() {
    let key = Keypair::from_seed(&[1u8; 32]);
    let mut resolver = Resolver::new(None);
    let request = resolver.publish(&key, "http://localhost:6287/");
    assert_eq!(request.records.len(), 2);
    assert_eq!(request.records[0].name, "_pubky");
    assert_eq!(request.records[0].ttl, 7200);
    assert_eq!(request.records[1].name, "@");
    assert_eq!(request.records[1].ttl, 30);
    assert_eq!(address(&request.records), Some("http://localhost:6287/".to_string()));
    let r = resolver.publish_done(&request.public_key, &request.homeserver_url, Err("down".to_string()));
    assert!(matches!(r, Err(DHTError::EntryNotPublished(m)) if m == "down"));
    assert_eq!(resolver.cached(&request.public_key), None);
}

#[test]
fn relay_takes_precedence() {
    let resolver = Resolver::new(Some(vec!["node:1".to_string()]));
    assert!(matches!(resolver.record_store(Some("https://relay.example")), RecordStore::Relay(u) if u == "https://relay.example"));
    assert!(matches!(resolver.record_store(None), RecordStore::Dht(Some(b)) if b == vec!["node:1".to_string()]));
}
