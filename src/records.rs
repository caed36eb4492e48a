//! The signed record set published under a public key, and how a homeserver is read
//! out of it.
use vstd::prelude::*;

use crate::text::{has_prefix, same_text, starts_with};

verus! {

/// Name of the record that points a user at the identity of its homeserver.
pub const HOME_RECORD: &'static str = "_pubky";

/// Name of the record that gives a homeserver's address.
pub const APEX_RECORD: &'static str = "@";

/// Attribute key prefix that names the homeserver's public key.
pub const HOME_KEY_PREFIX: &'static str = "home";

/// Attribute key prefix of a local development homeserver.
pub const LOCAL_KEY_PREFIX: &'static str = "localhost";

/// Scheme put before a canonical name.
pub const HTTPS_SCHEME: &'static str = "https://";

/// Scheme put before a local development address.
pub const HTTP_SCHEME: &'static str = "http://";

/// Time to live of the home record, in seconds.
pub const HOME_TTL: u32 = 7200;

/// Time to live of the address record, in seconds.
pub const APEX_TTL: u32 = 30;

/// One `key` or `key=value` attribute of a TXT record.
#[derive(Debug, Clone)]
pub struct TxtAttribute {
    pub key: String,
    pub value: Option<String>,
}

/// The data of a record.
#[derive(Debug, Clone)]
pub enum RData {
    /// Text attributes, in order.
    Txt(Vec<TxtAttribute>),
    /// A canonical name.
    Cname(String),
    /// Any other kind of record, which resolution skips.
    Other,
}

/// One named record of a record set.
#[derive(Debug, Clone)]
pub struct ResourceRecord {
    pub name: String,
    pub ttl: u32,
    pub rdata: RData,
}

/// The first attribute whose key starts with `prefix`.
pub open spec fn first_with_prefix(attrs: Seq<TxtAttribute>, prefix: Seq<char>) -> Option<
    TxtAttribute,
>
    decreases attrs.len(),
{
    if attrs.len() == 0 {
        None
    } else if has_prefix(attrs[0].key@, prefix) {
        Some(attrs[0])
    } else {
        first_with_prefix(attrs.drop_first(), prefix)
    }
}

/// The first attribute, over the TXT records named `name` in order, whose key starts
/// with `prefix`.
pub open spec fn first_txt_attr(records: Seq<ResourceRecord>, name: Seq<char>, prefix: Seq<char>) -> Option<
    TxtAttribute,
>
    decreases records.len(),
{
    if records.len() == 0 {
        None
    } else {
        let rest = first_txt_attr(records.drop_first(), name, prefix);
        if records[0].name@ == name {
            match records[0].rdata {
                RData::Txt(attrs) => match first_with_prefix(attrs@, prefix) {
                    Some(a) => Some(a),
                    None => rest,
                },
                _ => rest,
            }
        } else {
            rest
        }
    }
}

/// The homeserver key that a user's record set names: the value of the first `home`
/// attribute of its `_pubky` records; none where that attribute has no value.
pub open spec fn home_key_of(records: Seq<ResourceRecord>) -> Option<Seq<char>> {
    match first_txt_attr(records, HOME_RECORD@, HOME_KEY_PREFIX@) {
        Some(a) => match a.value {
            Some(v) => Some(v@),
            None => None,
        },
        None => None,
    }
}

/// The text of an optional attribute value, empty when absent.
pub open spec fn value_text(v: Option<String>) -> Seq<char> {
    match v {
        Some(s) => s@,
        None => Seq::empty(),
    }
}

/// The address that a homeserver's record set gives, before it is read as a URL: the
/// first `@` record that is a CNAME gives `https://<name>`, or that is a TXT record with
/// a `localhost` attribute gives `http://<key><value>`.
pub open spec fn address_of(records: Seq<ResourceRecord>) -> Option<Seq<char>>
    decreases records.len(),
{
    if records.len() == 0 {
        None
    } else {
        let rest = address_of(records.drop_first());
        if records[0].name@ == APEX_RECORD@ {
            match records[0].rdata {
                RData::Cname(n) => Some(HTTPS_SCHEME@ + n@),
                RData::Txt(attrs) => match first_with_prefix(attrs@, LOCAL_KEY_PREFIX@) {
                    Some(a) => Some(HTTP_SCHEME@ + a.key@ + value_text(a.value)),
                    None => rest,
                },
                RData::Other => rest,
            }
        } else {
            rest
        }
    }
}

/// The first attribute of `attrs` whose key starts with `prefix`, by index.
fn find_with_prefix(attrs: &Vec<TxtAttribute>, prefix: &str) -> (r: Option<usize>)
    ensures
        match first_with_prefix(attrs@, prefix@) {
            Some(a) => r matches Some(i) && i < attrs@.len() && attrs@[i as int] == a,
            None => r is None,
        },
{
    let mut i: usize = 0;
    assert(attrs@.subrange(0, attrs@.len() as int) =~= attrs@);
    while i < attrs.len()
        invariant
            i <= attrs@.len(),
            first_with_prefix(attrs@, prefix@) == first_with_prefix(
                attrs@.subrange(i as int, attrs@.len() as int),
                prefix@,
            ),
        decreases attrs@.len() - i,
    {
        let tail = Ghost(attrs@.subrange(i as int, attrs@.len() as int));
        assert(tail@.drop_first() =~= attrs@.subrange(i + 1, attrs@.len() as int));
        if starts_with(attrs[i].key.as_str(), prefix) {
            return Some(i);
        }
        i = i + 1;
    }
    None
}

/// The homeserver key that a user's record set names (see `home_key_of`).
pub fn home_key(records: &Vec<ResourceRecord>) -> (r: Option<String>)
    ensures
        match home_key_of(records@) {
            Some(k) => r matches Some(s) && s@ == k,
            None => r is None,
        },
{
    let mut i: usize = 0;
    assert(records@.subrange(0, records@.len() as int) =~= records@);
    while i < records.len()
        invariant
            i <= records@.len(),
            first_txt_attr(records@, HOME_RECORD@, HOME_KEY_PREFIX@) == first_txt_attr(
                records@.subrange(i as int, records@.len() as int),
                HOME_RECORD@,
                HOME_KEY_PREFIX@,
            ),
        decreases records@.len() - i,
    {
        let tail = Ghost(records@.subrange(i as int, records@.len() as int));
        assert(tail@.drop_first() =~= records@.subrange(i + 1, records@.len() as int));
        let record = &records[i];
        if same_text(record.name.as_str(), HOME_RECORD) {
            match &record.rdata {
                RData::Txt(attrs) => match find_with_prefix(attrs, HOME_KEY_PREFIX) {
                    Some(j) => {
                        return match &attrs[j].value {
                            Some(v) => Some(v.clone()),
                            None => None,
                        };
                    },
                    None => {},
                },
                _ => {},
            }
        }
        i = i + 1;
    }
    None
}

/// The address that a homeserver's record set gives (see `address_of`).
pub fn address(records: &Vec<ResourceRecord>) -> (r: Option<String>)
    ensures
        match address_of(records@) {
            Some(a) => r matches Some(s) && s@ == a,
            None => r is None,
        },
{
    let mut i: usize = 0;
    assert(records@.subrange(0, records@.len() as int) =~= records@);
    while i < records.len()
        invariant
            i <= records@.len(),
            address_of(records@) == address_of(
                records@.subrange(i as int, records@.len() as int),
            ),
        decreases records@.len() - i,
    {
        let tail = Ghost(records@.subrange(i as int, records@.len() as int));
        assert(tail@.drop_first() =~= records@.subrange(i + 1, records@.len() as int));
        let record = &records[i];
        if same_text(record.name.as_str(), APEX_RECORD) {
            match &record.rdata {
                RData::Cname(n) => {
                    let s = String::from_str(HTTPS_SCHEME).concat(n.as_str());
                    return Some(s);
                },
                RData::Txt(attrs) => match find_with_prefix(attrs, LOCAL_KEY_PREFIX) {
                    Some(j) => {
                        let a = &attrs[j];
                        let mut s = String::from_str(HTTP_SCHEME).concat(a.key.as_str());
                        match &a.value {
                            Some(v) => s.append(v.as_str()),
                            None => {},
                        }
                        return Some(s);
                    },
                    None => {},
                },
                RData::Other => {},
            }
        }
        i = i + 1;
    }
    None
}

} // verus!
