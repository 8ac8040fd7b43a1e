//! URIs as the probe and the feed reader see them: scheme, authority and
//! path-and-query, parsed by hyper.
use vstd::prelude::*;
use vstd::string::StringExecFns;

verus! {

/// A parsed URI, component by component, as the `http` crate's accessors give them.
pub struct UriParts {
    pub scheme: Option<String>,
    pub authority: Option<String>,
    pub path_and_query: Option<String>,
}

pub open spec fn opt_chars(o: Option<String>) -> Option<Seq<char>> {
    match o {
        Some(s) => Some(s@),
        None => None,
    }
}

impl View for UriParts {
    type V = (Option<Seq<char>>, Option<Seq<char>>, Option<Seq<char>>);

    open spec fn view(&self) -> Self::V {
        (opt_chars(self.scheme), opt_chars(self.authority), opt_chars(self.path_and_query))
    }
}

/// What `hyper::Uri::try_from` makes of the bytes `b`: `None` where it refuses
/// them, else the scheme, authority and path-and-query of the URI.
pub uninterp spec fn uri_parse(b: Seq<u8>) -> Option<
    (Option<Seq<char>>, Option<Seq<char>>, Option<Seq<char>>),
>;

#[verifier::external_type_specification]
#[verifier::external_body]
pub struct ExInvalidUri(hyper::http::uri::InvalidUri);

/// Relies on `hyper::Uri::try_from(&[u8])` (the `http` crate's parser) and its
/// accessors `scheme_str`, `authority` and `path_and_query`. From the parser's
/// source: empty input is refused; input that starts with `/` is a bare
/// path-and-query; an absolute URI always has an authority and a path-and-query.
#[verifier::external_body]
fn parse_uri_bytes(b: &[u8]) -> (r: Result<UriParts, hyper::http::uri::InvalidUri>)
    ensures
        r is Ok <==> uri_parse(b@) is Some,
        r is Ok ==> uri_parse(b@) == Some(r->Ok_0@),
        b@.len() == 0 ==> r is Err,
        r is Ok && b@[0] == 0x2fu8 ==> r->Ok_0.scheme is None && r->Ok_0.authority is None
            && r->Ok_0.path_and_query is Some,
        r is Ok && r->Ok_0.scheme is Some ==> r->Ok_0.authority is Some
            && r->Ok_0.path_and_query is Some,
{
    hyper::Uri::try_from(b).map(
        |u: hyper::Uri|
            UriParts {
                scheme: u.scheme_str().map(|s| s.to_string()),
                authority: u.authority().map(|a| a.as_str().to_string()),
                path_and_query: u.path_and_query().map(|p| p.as_str().to_string()),
            },
    )
}

/// Parses `b` as a URI; `None` exactly where hyper refuses it.
pub fn parse_uri(b: &[u8]) -> (r: Option<UriParts>)
    ensures
        r is Some <==> uri_parse(b@) is Some,
        r is Some ==> uri_parse(b@) == Some(r->Some_0@),
        b@.len() == 0 ==> r is None,
        r is Some && b@[0] == 0x2fu8 ==> r->Some_0.scheme is None && r->Some_0.authority is None
            && r->Some_0.path_and_query is Some,
        r is Some && r->Some_0.scheme is Some ==> r->Some_0.authority is Some
            && r->Some_0.path_and_query is Some,
{
    match parse_uri_bytes(b) {
        Ok(u) => Some(u),
        Err(_) => None,
    }
}

pub open spec fn chars_or_empty(o: Option<Seq<char>>) -> Seq<char> {
    match o {
        Some(s) => s,
        None => Seq::empty(),
    }
}

/// The text of a URI: `scheme://` where there is a scheme, then the authority,
/// then the path-and-query (the form in which hyper prints it).
pub open spec fn uri_text(u: (Option<Seq<char>>, Option<Seq<char>>, Option<Seq<char>>)) -> Seq<
    char,
> {
    let head = match u.0 {
        Some(s) => s + seq![':', '/', '/'],
        None => Seq::empty(),
    };
    head + chars_or_empty(u.1) + chars_or_empty(u.2)
}

fn append_opt(s: &mut String, o: &Option<String>)
    ensures
        final(s)@ == old(s)@ + chars_or_empty(opt_chars(*o)),
{
    match o {
        Some(t) => s.append(t.as_str()),
        None => {
            assert(old(s)@ + Seq::<char>::empty() =~= old(s)@);
        },
    }
}

impl UriParts {
    /// A copy of these components.
    pub fn copy(&self) -> (r: UriParts)
        ensures
            r@ == self@,
    {
        UriParts {
            scheme: clone_opt(&self.scheme),
            authority: clone_opt(&self.authority),
            path_and_query: clone_opt(&self.path_and_query),
        }
    }

    /// The text of this URI, ready to be handed to an HTTP client.
    pub fn to_text(&self) -> (r: String)
        ensures
            r@ == uri_text(self@),
    {
        let mut r = String::new();
        if let Some(s) = &self.scheme {
            r.append(s.as_str());
            r.append("://");
            proof {
                reveal_strlit("://");
                assert("://"@ =~= seq![':', '/', '/']);
            }
        }
        append_opt(&mut r, &self.authority);
        append_opt(&mut r, &self.path_and_query);
        assert(r@ =~= uri_text(self@));
        r
    }
}

/// The components that `hyper::Uri::from_parts` accepts together: a scheme
/// comes with an authority and a path-and-query; without a scheme, not both
/// an authority and a path-and-query.
pub open spec fn parts_valid(u: (Option<Seq<char>>, Option<Seq<char>>, Option<Seq<char>>)) -> bool {
    if u.0 is Some {
        u.1 is Some && u.2 is Some
    } else {
        !(u.1 is Some && u.2 is Some)
    }
}

/// Where a redirect from `current` to `location` leads. A location without an
/// authority is relative: its path-and-query goes onto the scheme and authority
/// of `current`. `None` where the merged components do not form a URI.
pub open spec fn redirect_target(
    current: (Option<Seq<char>>, Option<Seq<char>>, Option<Seq<char>>),
    location: (Option<Seq<char>>, Option<Seq<char>>, Option<Seq<char>>),
) -> Option<(Option<Seq<char>>, Option<Seq<char>>, Option<Seq<char>>)> {
    if location.1 is None {
        let merged = (current.0, current.1, location.2);
        if parts_valid(merged) {
            Some(merged)
        } else {
            None
        }
    } else {
        Some(location)
    }
}

fn clone_opt(o: &Option<String>) -> (r: Option<String>)
    ensures
        opt_chars(r) == opt_chars(*o),
{
    match o {
        Some(s) => Some(s.clone()),
        None => None,
    }
}

/// Resolves a redirect from `current` to `location`.
pub fn resolve_redirect(current: &UriParts, location: UriParts) -> (r: Option<UriParts>)
    ensures
        match r {
            Some(u) => redirect_target(current@, location@) == Some(u@),
            None => redirect_target(current@, location@) is None,
        },
{
    if location.authority.is_none() {
        let merged = UriParts {
            scheme: clone_opt(&current.scheme),
            authority: clone_opt(&current.authority),
            path_and_query: location.path_and_query,
        };
        let valid = if merged.scheme.is_some() {
            merged.authority.is_some() && merged.path_and_query.is_some()
        } else {
            !(merged.authority.is_some() && merged.path_and_query.is_some())
        };
        if valid {
            Some(merged)
        } else {
            None
        }
    } else {
        Some(location)
    }
}

} // verus!
