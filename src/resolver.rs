//! Resolution of a public key to its homeserver URL, and publication of the mapping.
//!
//! Lookups in the record store are done by the caller: each step here takes the
//! outcome of the previous lookup and says what to do next.
use vstd::prelude::*;

use crate::cache::ResolverCache;
use crate::crypto::Keypair;
use crate::error::DHTError;
use crate::records::{
    address, address_of, first_txt_attr, first_with_prefix, home_key, home_key_of, RData, ResourceRecord, TxtAttribute, APEX_RECORD,
    APEX_TTL, HOME_KEY_PREFIX, HOME_RECORD, HOME_TTL, HTTPS_SCHEME, HTTP_SCHEME,
};
use crate::text::{has_prefix, starts_with};
use crate::urls::{parse_url, url_parsed};
use crate::zbase32::z32_encode_spec;

verus! {

/// What a resolution needs next.
pub enum ResolveStep {
    /// Look up the record set published under this public key, then hand the outcome on.
    Lookup(String),
    /// Resolution is over.
    Done(Result<String, DHTError>),
}

/// Where record sets are looked up and stored.
pub enum RecordStore {
    /// Through this HTTP relay.
    Relay(String),
    /// In the distributed store directly, bootstrapped from these nodes (or the default ones).
    Dht(Option<Vec<String>>),
}

/// A record set to store under a keypair's public key.
pub struct PublishRequest {
    /// The public key, in z-base-32.
    pub public_key: String,
    /// The homeserver URL that the records encode.
    pub homeserver_url: String,
    /// The records, in order.
    pub records: Vec<ResourceRecord>,
}

/// The URL that a homeserver's record set gives, or the error that resolution reports.
pub open spec fn resolved_url(records: Seq<ResourceRecord>) -> Result<Seq<char>, DHTError> {
    match address_of(records) {
        None => Err(DHTError::NoRecordsFound),
        Some(a) => match url_parsed(a) {
            None => Err(DHTError::FailedToParseDnsRecordAsUrl),
            Some(u) => Ok(u),
        },
    }
}

/// Whether `r` is a record named `name` with time to live `ttl` holding the single
/// attribute `key=value`.
pub open spec fn is_txt_record(r: ResourceRecord, name: Seq<char>, ttl: u32, key: Seq<char>, value: Option<Seq<char>>) -> bool {
    &&& r.name@ == name
    &&& r.ttl == ttl
    &&& r.rdata matches RData::Txt(attrs) && attrs@.len() == 1 && attrs@[0].key@ == key && match value {
        Some(v) => attrs@[0].value matches Some(s) && s@ == v,
        None => attrs@[0].value is None,
    }
}

/// The `@` record that encodes a homeserver URL: a canonical name for an `https://`
/// URL, a TXT attribute for an `http://` one, the URL itself as a name otherwise.
pub open spec fn is_apex_record_for(r: ResourceRecord, url: Seq<char>) -> bool {
    if has_prefix(url, HTTPS_SCHEME@) {
        &&& r.name@ == APEX_RECORD@
        &&& r.ttl == APEX_TTL
        &&& r.rdata matches RData::Cname(n) && n@ == url.subrange(
            HTTPS_SCHEME@.len() as int,
            url.len() as int,
        )
    } else if has_prefix(url, HTTP_SCHEME@) {
        is_txt_record(
            r,
            APEX_RECORD@,
            APEX_TTL,
            url.subrange(HTTP_SCHEME@.len() as int, url.len() as int),
            None,
        )
    } else {
        &&& r.name@ == APEX_RECORD@
        &&& r.ttl == APEX_TTL
        &&& r.rdata matches RData::Cname(n) && n@ == url
    }
}

/// The record set that maps a public key to a homeserver URL: `_pubky` with
/// `home=<public key>`, then `@` encoding the URL.
pub open spec fn is_publication(records: Seq<ResourceRecord>, public_key: Seq<char>, url: Seq<char>) -> bool {
    &&& records.len() == 2
    &&& is_txt_record(records[0], HOME_RECORD@, HOME_TTL, HOME_KEY_PREFIX@, Some(public_key))
    &&& is_apex_record_for(records[1], url)
}

fn tail_after(s: &str, n: usize) -> (r: String)
    requires
        n <= s@.len(),
    ensures
        r@ == s@.subrange(n as int, s@.len() as int),
{
    let len = s.unicode_len();
    String::from_str(s.substring_char(n, len))
}

/// The cache of a resolver, and where it looks records up.
pub struct Resolver {
    cache: ResolverCache,
    bootstrap: Option<Vec<String>>,
}

impl View for Resolver {
    type V = Map<Seq<char>, Seq<char>>;

    /// The cache: public key text to homeserver URL.
    closed spec fn view(&self) -> Map<Seq<char>, Seq<char>> {
        self.cache@
    }
}

impl Resolver {
    /// The cache is well formed.
    pub closed spec fn wf(&self) -> bool {
        self.cache.wf()
    }

    /// A resolver with an empty cache that bootstraps from `bootstrap` (or the default
    /// nodes).
    pub fn new(bootstrap: Option<Vec<String>>) -> (r: Resolver)
        ensures
            r.wf(),
            r@ == Map::<Seq<char>, Seq<char>>::empty(),
    {
        Resolver { cache: ResolverCache::new(), bootstrap }
    }

    /// Where to look up and store: the relay when one is given, else the distributed store.
    pub fn record_store(&self, relay: Option<&str>) -> (r: RecordStore)
        ensures
            relay matches Some(u) ==> (r matches RecordStore::Relay(s) && s@ == u@),
            relay is None ==> r is Dht,
    {
        match relay {
            Some(u) => RecordStore::Relay(String::from_str(u)),
            None => RecordStore::Dht(self.bootstrap.clone()),
        }
    }

    /// The URL cached for `public_key`.
    pub fn cached(&self, public_key: &str) -> (r: Option<String>)
        requires
            self.wf(),
        ensures
            match r {
                Some(u) => self@.contains_key(public_key@) && self@[public_key@] == u@,
                None => !self@.contains_key(public_key@),
            },
    {
        self.cache.get(public_key)
    }

    /// Starts resolving `public_key`: a cached URL ends it at once, else the user's
    /// record set is to be looked up.
    pub fn resolve_homeserver(&self, public_key: &str) -> (r: ResolveStep)
        requires
            self.wf(),
        ensures
            self@.contains_key(public_key@) ==> (r matches ResolveStep::Done(Ok(u)) && u@
                == self@[public_key@]),
            !self@.contains_key(public_key@) ==> (r matches ResolveStep::Lookup(k) && k@
                == public_key@),
    {
        match self.cache.get(public_key) {
            Some(u) => ResolveStep::Done(Ok(u)),
            None => ResolveStep::Lookup(String::from_str(public_key)),
        }
    }

    /// Goes on from the lookup of the user's record set: its `home` attribute names the
    /// homeserver, whose own record set is to be looked up.
    pub fn resolve_user_records(&self, lookup: Result<Vec<ResourceRecord>, DHTError>) -> (r:
        ResolveStep)
        ensures
            lookup matches Err(e) ==> r == ResolveStep::Done(Err(e)),
            lookup matches Ok(records) ==> match home_key_of(records@) {
                Some(h) => r matches ResolveStep::Lookup(k) && k@ == h,
                None => r == ResolveStep::Done(Err(DHTError::NoRecordsFound)),
            },
    {
        match lookup {
            Err(e) => ResolveStep::Done(Err(e)),
            Ok(records) => match home_key(&records) {
                Some(h) => ResolveStep::Lookup(h),
                None => ResolveStep::Done(Err(DHTError::NoRecordsFound)),
            },
        }
    }

    /// Ends the resolution of `public_key` with the lookup of its homeserver's record
    /// set; a URL found is cached.
    pub fn resolve_homeserver_records(
        &mut self,
        public_key: &str,
        lookup: Result<Vec<ResourceRecord>, DHTError>,
    ) -> (r: Result<String, DHTError>)
        requires
            old(self).wf(),
        ensures
            final(self).wf(),
            lookup matches Err(e) ==> r == Err::<String, DHTError>(e) && final(self)@ == old(self)@,
            lookup matches Ok(records) ==> match resolved_url(records@) {
                Ok(u) => r matches Ok(s) && s@ == u && final(self)@ == old(self)@.insert(
                    public_key@,
                    u,
                ),
                Err(e) => r == Err::<String, DHTError>(e) && final(self)@ == old(self)@,
            },
    {
        match lookup {
            Err(e) => Err(e),
            Ok(records) => match address(&records) {
                None => Err(DHTError::NoRecordsFound),
                Some(a) => match parse_url(a.as_str()) {
                    None => Err(DHTError::FailedToParseDnsRecordAsUrl),
                    Some(u) => {
                        self.cache.insert(String::from_str(public_key), u.clone());
                        Ok(u)
                    },
                },
            },
        }
    }

    /// The record set that maps `public_key` to `homeserver_url`.
    pub fn publication(public_key: &str, homeserver_url: &str) -> (r: Vec<ResourceRecord>)
        ensures
            is_publication(r@, public_key@, homeserver_url@),
    {
        let mut home_attrs: Vec<TxtAttribute> = Vec::new();
        home_attrs.push(
            TxtAttribute {
                key: String::from_str(HOME_KEY_PREFIX),
                value: Some(String::from_str(public_key)),
            },
        );
        let home = ResourceRecord {
            name: String::from_str(HOME_RECORD),
            ttl: HOME_TTL,
            rdata: RData::Txt(home_attrs),
        };
        let apex_data = if starts_with(homeserver_url, HTTPS_SCHEME) {
            RData::Cname(tail_after(homeserver_url, HTTPS_SCHEME.unicode_len()))
        } else if starts_with(homeserver_url, HTTP_SCHEME) {
            let mut attrs: Vec<TxtAttribute> = Vec::new();
            attrs.push(
                TxtAttribute {
                    key: tail_after(homeserver_url, HTTP_SCHEME.unicode_len()),
                    value: None,
                },
            );
            RData::Txt(attrs)
        } else {
            RData::Cname(String::from_str(homeserver_url))
        };
        let apex = ResourceRecord { name: String::from_str(APEX_RECORD), ttl: APEX_TTL, rdata: apex_data };
        let mut records: Vec<ResourceRecord> = Vec::new();
        records.push(home);
        records.push(apex);
        records
    }

    /// Prepares publishing `homeserver_url` as `keypair`'s homeserver: the record set to
    /// sign with `keypair` and store.
    pub fn publish(&self, keypair: &Keypair, homeserver_url: &str) -> (r: PublishRequest)
        ensures
            r.public_key@ == z32_encode_spec(keypair.public_spec()),
            r.homeserver_url@ == homeserver_url@,
            is_publication(r.records@, r.public_key@, homeserver_url@),
    {
        let public_key = keypair.to_z32();
        let records = Self::publication(public_key.as_str(), homeserver_url);
        PublishRequest { public_key, homeserver_url: String::from_str(homeserver_url), records }
    }

    /// Ends the publication of `homeserver_url` for `public_key` with the store's
    /// outcome: on success the mapping is cached.
    pub fn publish_done(&mut self, public_key: &str, homeserver_url: &str, outcome: Result<(), String>) -> (r:
        Result<(), DHTError>)
        requires
            old(self).wf(),
        ensures
            final(self).wf(),
            outcome is Ok ==> r is Ok && final(self)@ == old(self)@.insert(
                public_key@,
                homeserver_url@,
            ),
            outcome matches Err(e) ==> r == Err::<(), DHTError>(DHTError::EntryNotPublished(e))
                && final(self)@ == old(self)@,
    {
        match outcome {
            Ok(()) => {
                self.cache.insert(String::from_str(public_key), String::from_str(homeserver_url));
                Ok(())
            },
            Err(e) => Err(DHTError::EntryNotPublished(e)),
        }
    }
}

/// Resolution goes through two record sets: a user whose `_pubky` record names the
/// homeserver key `home`, where that homeserver's first `@` record is the canonical
/// name `name`, resolves to the URL that `https://<name>` parses as.
pub proof fn lemma_resolution_indirection(
    user_records: Seq<ResourceRecord>,
    home: Seq<char>,
    home_records: Seq<ResourceRecord>,
    name: Seq<char>,
)
    requires
        home_key_of(user_records) == Some(home),
        home_records.len() >= 1,
        home_records[0].name@ == APEX_RECORD@,
        home_records[0].rdata matches RData::Cname(n) && n@ == name,
    ensures
        address_of(home_records) == Some(HTTPS_SCHEME@ + name),
        resolved_url(home_records) == match url_parsed(HTTPS_SCHEME@ + name) {
            Some(u) => Ok::<Seq<char>, DHTError>(u),
            None => Err(DHTError::FailedToParseDnsRecordAsUrl),
        },
{
}

/// A cached URL answers before any lookup: once `key` maps to `url` (through a
/// resolution or a publication), resolving `key` ends at once with `url`, whatever the
/// record store holds by then.
pub proof fn lemma_cache_answers_first(cache: Map<Seq<char>, Seq<char>>, key: Seq<char>, url: Seq<char>)
    ensures
        cache.insert(key, url).contains_key(key),
        cache.insert(key, url)[key] == url,
{
}

/// A published record set names the publishing key as its own homeserver key, and gives
/// back the published address where that is an `https://` URL or a local `http://` one.
pub proof fn lemma_publication_resolves(records: Seq<ResourceRecord>, public_key: Seq<char>, url: Seq<char>)
    requires
        is_publication(records, public_key, url),
        has_prefix(url, HTTPS_SCHEME@) || has_prefix(url, HTTP_SCHEME@ + crate::records::LOCAL_KEY_PREFIX@),
    ensures
        home_key_of(records) == Some(public_key),
        address_of(records) == Some(url),
{
    reveal_strlit("_pubky");
    reveal_strlit("@");
    reveal_strlit("home");
    reveal_strlit("https://");
    reveal_strlit("http://");
    reveal_strlit("localhost");
    let local = crate::records::LOCAL_KEY_PREFIX@;
    assert(HOME_RECORD@ != APEX_RECORD@) by {
        assert(HOME_RECORD@.len() != APEX_RECORD@.len());
    }
    let home = records[0];
    if let RData::Txt(attrs) = home.rdata {
        assert(attrs@[0].key@.subrange(0, HOME_KEY_PREFIX@.len() as int) =~= HOME_KEY_PREFIX@);
        assert(first_with_prefix(attrs@, HOME_KEY_PREFIX@) == Some(attrs@[0]));
    }
    assert(first_txt_attr(records, HOME_RECORD@, HOME_KEY_PREFIX@) == Some(
        match home.rdata {
            RData::Txt(attrs) => attrs@[0],
            _ => arbitrary(),
        },
    ));
    let rest = records.drop_first();
    assert(rest[0] == records[1]);
    assert(address_of(records) == address_of(rest));
    if has_prefix(url, HTTPS_SCHEME@) {
        assert(HTTPS_SCHEME@ + url.subrange(HTTPS_SCHEME@.len() as int, url.len() as int) =~= url);
    } else {
        let pre = HTTP_SCHEME@ + local;
        assert(url.subrange(0, pre.len() as int) == pre);
        assert(url[4] == pre[4]);
        assert(HTTPS_SCHEME@[4] == 's');
        assert(url.subrange(0, HTTP_SCHEME@.len() as int) =~= HTTP_SCHEME@) by {
            assert forall|i: int| 0 <= i < HTTP_SCHEME@.len() implies url[i] == HTTP_SCHEME@[i] by {
                assert(url.subrange(0, pre.len() as int)[i] == pre[i]);
            }
        }
        let key = url.subrange(HTTP_SCHEME@.len() as int, url.len() as int);
        assert(key.subrange(0, local.len() as int) =~= local) by {
            assert forall|i: int| 0 <= i < local.len() implies key[i] == local[i] by {
                assert(url.subrange(0, pre.len() as int)[i + 7] == pre[i + 7]);
            }
        }
        if let RData::Txt(attrs) = rest[0].rdata {
            assert(first_with_prefix(attrs@, local) == Some(attrs@[0]));
        }
        assert(HTTP_SCHEME@ + key + Seq::<char>::empty() =~= url);
    }
}

} // verus!
