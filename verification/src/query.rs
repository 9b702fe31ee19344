use vstd::prelude::*;

verus! {

/// The text of the URL obtained by parsing `base` and appending `pairs`, in
/// order, as form-encoded query parameters after any query it already has;
/// `None` when `base` does not parse as an absolute URL.
pub uninterp spec fn url_with_params(
    base: Seq<char>,
    pairs: Seq<(Seq<char>, Seq<char>)>,
) -> Option<Seq<char>>;

/// Calls `reqwest::Url::parse_with_params` (the `url` crate's `Url`) and
/// writes the URL out with `to_string`. Trusted: the outcome is
/// `url_with_params` of the arguments; on failure the parser's error is
/// turned into its message, of which nothing is said.
#[verifier::external_body]
fn parse_with_params(base: &str, pairs: &Vec<(String, String)>) -> (r: Result<String, String>)
    ensures
        match r {
            Ok(s) => url_with_params(base@, pairs.deep_view()) == Some(s@),
            Err(_) => url_with_params(base@, pairs.deep_view()) is None,
        },
{
    match reqwest::Url::parse_with_params(base, pairs) {
        Ok(url) => Ok(url.to_string()),
        Err(e) => Err(e.to_string()),
    }
}

/// A failure to build the request URL.
#[derive(Debug)]
pub enum BuildUrlError {
    /// The base URL does not parse; the parser's message.
    InvalidBaseUrl(String),
}

/// `[(key, v)]` when a value is given, else nothing.
pub open spec fn optional_pair(key: Seq<char>, value: Option<Seq<char>>) -> Seq<(Seq<char>, Seq<char>)> {
    match value {
        Some(v) => seq![(key, v)],
        None => Seq::empty(),
    }
}

/// The query parameters of a request, in order: `ac` when the action is not
/// empty, `t` when given, `pg` always, then `wd` and `ids` when given.
pub open spec fn query_spec(
    action: Seq<char>,
    t: Option<Seq<char>>,
    pg: Seq<char>,
    wd: Option<Seq<char>>,
    ids: Option<Seq<char>>,
) -> Seq<(Seq<char>, Seq<char>)> {
    (if action.len() > 0 { seq![("ac"@, action)] } else { Seq::empty() })
        + optional_pair("t"@, t) + seq![("pg"@, pg)] + optional_pair("wd"@, wd)
        + optional_pair("ids"@, ids)
}

/// The query parameters of a request.
pub fn query_pairs(
    action: &str,
    t: Option<&str>,
    pg: &str,
    wd: Option<&str>,
    ids: Option<&str>,
) -> (r: Vec<(String, String)>)
    ensures
        r.deep_view() == query_spec(action@, t.deep_view(), pg@, wd.deep_view(), ids.deep_view()),
{
    let mut query: Vec<(String, String)> = Vec::new();
    if !action.is_empty() {
        query.push((String::from_str("ac"), String::from_str(action)));
    }
    if let Some(t) = t {
        query.push((String::from_str("t"), String::from_str(t)));
    }
    query.push((String::from_str("pg"), String::from_str(pg)));
    if let Some(wd) = wd {
        query.push((String::from_str("wd"), String::from_str(wd)));
    }
    if let Some(ids) = ids {
        query.push((String::from_str("ids"), String::from_str(ids)));
    }
    assert(query.deep_view() =~= query_spec(
        action@,
        t.deep_view(),
        pg@,
        wd.deep_view(),
        ids.deep_view(),
    ));
    query
}

/// The request URL: the base URL with the query parameters appended.
pub fn build_url(
    base_url: &str,
    action: &str,
    t: Option<&str>,
    pg: &str,
    wd: Option<&str>,
    ids: Option<&str>,
) -> (r: Result<String, BuildUrlError>)
    ensures
        match url_with_params(
            base_url@,
            query_spec(action@, t.deep_view(), pg@, wd.deep_view(), ids.deep_view()),
        ) {
            Some(u) => r matches Ok(s) && s@ == u,
            None => r is Err,
        },
{
    let query = query_pairs(action, t, pg, wd, ids);
    match parse_with_params(base_url, &query) {
        Ok(s) => Ok(s),
        Err(msg) => Err(BuildUrlError::InvalidBaseUrl(msg)),
    }
}

} // verus!
