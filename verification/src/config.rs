//! The coordinate configuration and the request builder: composes the
//! request locator from the configured base endpoint and the coordinate
//! values, and validates it syntactically.

use vstd::prelude::*;

verus! {

#[verifier::external_type_specification]
#[verifier::external_body]
pub struct ExUrl(url::Url);

/// Whether `url::Url::parse` accepts the string as a valid absolute locator.
pub uninterp spec fn url_parse_ok(s: Seq<char>) -> bool;

/// The `default` section of the configuration: the base endpoint, the
/// coordinate pair, and the output path. The coordinates are carried by
/// their decimal renderings, which is all the request builder reads of them.
pub struct Default {
    pub base_url: String,
    pub lat: String,
    pub lng: String,
    pub output: String,
}

/// The configuration document: its `default` section, when present.
pub struct Config {
    pub default: Option<Default>,
}

/// The composed locator text: the base endpoint with the fixed query
/// template embedding both coordinates.
pub open spec fn url_string(d: Default) -> Seq<char> {
    d.base_url@ + "/json?lat="@ + d.lat@ + "&lng="@ + d.lng@
}

/// Relies on `url::Url::parse`: a purely syntactic, deterministic check and
/// normalization of the locator text; `Ok` exactly on valid absolute
/// locators.
#[verifier::external_body]
fn string_to_url(url_str: &str) -> (r: Option<url::Url>)
    ensures
        r is Some <==> url_parse_ok(url_str@),
{
    url::Url::parse(url_str).ok()
}

/// Builds the request locator from the configuration: nothing when the
/// `default` section is absent or the composed text is not a valid absolute
/// locator, the parsed locator otherwise.
pub fn compile_url(config: Config) -> (r: Option<url::Url>)
    ensures
        config.default is None ==> r is None,
        config.default matches Some(d) ==> (r is Some <==> url_parse_ok(url_string(d))),
{
    match config.default {
        Some(d) => {
            let ghost gd = d;
            let Default { base_url, lat, lng, output: _ } = d;
            let mut s = base_url;
            s.append("/json?lat=");
            s.append(lat.as_str());
            s.append("&lng=");
            s.append(lng.as_str());
            proof {
                assert(s@ =~= url_string(gd));
            }
            string_to_url(s.as_str())
        },
        None => None,
    }
}

} // verus!
