//! Reading URLs.
use vstd::prelude::*;

verus! {

/// The serialisation of the URL that a text parses as; none where it does not parse.
pub uninterp spec fn url_parsed(s: Seq<char>) -> Option<Seq<char>>;

/// Relies on url::Url::parse: whether the text is a URL, and its serialisation.
#[verifier::external_body]
pub(crate) fn parse_url(s: &str) -> (r: Option<String>)
    ensures
        r matches Some(u) ==> url_parsed(s@) == Some(u@),
        r is None ==> url_parsed(s@) is None,
{
    url::Url::parse(s).ok().map(|u| u.as_str().to_string())
}

} // verus!
