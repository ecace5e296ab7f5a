//! The proxy through which Spotify's servers are reached.

use crate::text::same_text;
use url::ParseError;
use url::Url;
use vstd::prelude::*;

verus! {

/// A parsed URL. Nothing is known of what is inside.
#[verifier::external_type_specification]
#[verifier::external_body]
pub struct ExUrl(Url);

/// The reason for which a text is no URL. Nothing is known of what is inside.
#[verifier::external_type_specification]
#[verifier::external_body]
pub struct ExParseError(ParseError);

/// What `Url::parse` makes of a text.
pub uninterp spec fn parsed_url(input: Seq<char>) -> Result<Url, ParseError>;

/// The scheme of a URL, as `Url::scheme` returns it.
pub uninterp spec fn url_scheme(url: Url) -> Seq<char>;

/// `Url::parse`: the absolute URL that `input` denotes, or the reason for which it
/// denotes none. The outcome depends on `input` alone.
#[verifier::external_body]
fn parse_url(input: &str) -> (res: Result<Url, ParseError>)
    ensures
        res == parsed_url(input@),
{
    Url::parse(input)
}

/// `Url::scheme`: the scheme of a URL, which depends on the URL alone.
#[verifier::external_body]
fn scheme(url: &Url) -> (text: &str)
    ensures
        text@ == url_scheme(*url),
{
    url.scheme()
}

/// The reason for which a proxy that was asked for is not used.
#[derive(Debug)]
pub enum ProxyError {
    /// What was given is not a URL.
    Invalid(ParseError),
    /// The URL has a scheme other than `http`.
    NotHttp,
}

/// The proxy that follows from what parsing its URL returned.
pub open spec fn proxy_of_parsed(parsed: Result<Url, ParseError>) -> Result<Url, ProxyError> {
    match parsed {
        Ok(url) => if url_scheme(url) == "http"@ {
            Ok(url)
        } else {
            Err(ProxyError::NotHttp)
        },
        Err(err) => Err(ProxyError::Invalid(err)),
    }
}

/// Decides on a proxy by what parsing its URL returned: only HTTP proxies are
/// supported.
pub fn check_proxy(parsed: Result<Url, ParseError>) -> (res: Result<Url, ProxyError>)
    ensures
        res == proxy_of_parsed(parsed),
        parsed matches Err(err) ==> res == Err::<Url, ProxyError>(ProxyError::Invalid(err)),
        parsed matches Ok(url) ==> {
            &&& url_scheme(url) == "http"@ ==> res == Ok::<Url, ProxyError>(url)
            &&& url_scheme(url) != "http"@ ==> res == Err::<Url, ProxyError>(ProxyError::NotHttp)
        },
{
    match parsed {
        Ok(url) => {
            if !same_text(scheme(&url), "http") {
                Err(ProxyError::NotHttp)
            } else {
                Ok(url)
            }
        },
        Err(err) => Err(ProxyError::Invalid(err)),
    }
}

/// Reads the proxy setting. `Ok(None)` means that no proxy was asked for.
pub fn select_proxy(setting: &Option<String>) -> (res: Result<Option<Url>, ProxyError>)
    ensures
        setting is None ==> res == Ok::<Option<Url>, ProxyError>(None),
        setting matches Some(text) ==> match parsed_url(text@) {
            Ok(url) => {
                &&& url_scheme(url) == "http"@ ==> res == Ok::<Option<Url>, ProxyError>(Some(url))
                &&& url_scheme(url) != "http"@ ==> res == Err::<Option<Url>, ProxyError>(
                    ProxyError::NotHttp,
                )
            },
            Err(err) => res == Err::<Option<Url>, ProxyError>(ProxyError::Invalid(err)),
        },
        setting matches Some(text) ==> res == match proxy_of_parsed(parsed_url(text@)) {
            Ok(url) => Ok::<Option<Url>, ProxyError>(Some(url)),
            Err(err) => Err(err),
        },
{
    match setting {
        Some(text) => match check_proxy(parse_url(text.as_str())) {
            Ok(url) => Ok(Some(url)),
            Err(err) => Err(err),
        },
        None => Ok(None),
    }
}

/// A proxy is used if and only if its URL parses and has the scheme `http`, and then it is
/// that very URL. One that does not parse is refused for the reason that parsing gave, and
/// one with any other scheme for its scheme.
pub proof fn law_http_urls_are_proxies(parsed: Result<Url, ParseError>)
    ensures
        forall|url: Url|
            #![trigger url_scheme(url)]
            proxy_of_parsed(parsed) == Ok::<Url, ProxyError>(url) <==> parsed == Ok::<
                Url,
                ParseError,
            >(url) && url_scheme(url) == "http"@,
        parsed matches Ok(url) ==> url_scheme(url) != "http"@ ==> proxy_of_parsed(parsed)
            == Err::<Url, ProxyError>(ProxyError::NotHttp),
        parsed matches Err(err) ==> proxy_of_parsed(parsed) == Err::<Url, ProxyError>(
            ProxyError::Invalid(err),
        ),
{
}

} // verus!
