//! URLs: parsing, origins and query strings, through the url crate.
use vstd::prelude::*;

verus! {

/// Whether url's `Url::parse` accepts the text as an absolute URL.
pub uninterp spec fn parses_as_url(text: Seq<char>) -> bool;

/// The URL `base`, parsed by url's `Url::parse`, with each pair appended to its query
/// in `application/x-www-form-urlencoded` form, in order.
pub uninterp spec fn url_with_query(base: Seq<char>, pairs: Seq<(Seq<char>, Seq<char>)>) -> Seq<char>;

/// Scheme, host and explicit port of a URL that parses.
pub uninterp spec fn url_origin(text: Seq<char>) -> (Seq<char>, Option<Seq<char>>, Option<u16>);

pub open spec fn pairs_view(pairs: Seq<(String, String)>) -> Seq<(Seq<char>, Seq<char>)> {
    pairs.map_values(|p: (String, String)| (p.0@, p.1@))
}

/// Relies on url's `Url::parse`, `Url::scheme`, `Url::host_str` and `Url::port`.
#[verifier::external_body]
pub fn origin_parts(text: &str) -> (r: Option<(String, Option<String>, Option<u16>)>)
    ensures
        r is Some <==> parses_as_url(text@),
        r matches Some(o) ==> url_origin(text@) == (o.0@, crate::text::opt_view(o.1), o.2),
{
    match url::Url::parse(text) {
        Ok(u) => Some((u.scheme().to_owned(), u.host_str().map(|h| h.to_owned()), u.port())),
        Err(_) => None,
    }
}

/// Relies on url's `Url::parse` and `Url::query_pairs_mut().append_pair`.
#[verifier::external_body]
pub fn append_query(base: &str, pairs: &Vec<(String, String)>) -> (r: Option<String>)
    ensures
        r is Some <==> parses_as_url(base@),
        r matches Some(u) ==> u@ == url_with_query(base@, pairs_view(pairs@)),
{
    let mut url = url::Url::parse(base).ok()?;
    {
        let mut query = url.query_pairs_mut();
        for (k, v) in pairs.iter() {
            query.append_pair(k, v);
        }
    }
    Some(url.into())
}

} // verus!
