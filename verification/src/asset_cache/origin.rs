//! The origin of a site: the scheme, the host and, where the URL names one,
//! the port of the URL that a recording started at.

use vstd::prelude::*;
use crate::asset_cache::AssetError;
use crate::asset_cache::AssetErrorView;
use crate::text::push_char;

verus! {

/// The scheme, the host and the port that a URL names, or `None` where the
/// text is no URL. The port is `None` where the URL names none or names the
/// default port of its scheme.
pub uninterp spec fn url_parts(url: Seq<char>) -> Option<
    (Seq<char>, Option<Seq<char>>, Option<u16>),
>;

/// The parts of a URL that make up an origin.
pub struct UrlParts {
    pub scheme: String,
    pub host: Option<String>,
    pub port: Option<u16>,
}

/// `Url::parse` of the crate url, with the scheme, the host and the port of
/// what it parsed (`scheme`, `host_str`, `port`).
#[verifier::external_body]
fn parse_url(url: &str) -> (r: Option<UrlParts>)
    ensures
        match r {
            Some(parts) => url_parts(url@) == Some(
                (parts.scheme@, parts.host.deep_view(), parts.port),
            ),
            None => url_parts(url@) is None,
        },
{
    match url::Url::parse(url) {
        Ok(parsed) => Some(
            UrlParts {
                scheme: parsed.scheme().to_string(),
                host: parsed.host_str().map(String::from),
                port: parsed.port(),
            },
        ),
        Err(_) => None,
    }
}

/// The decimal digits of `n`, without leading zeros.
pub open spec fn decimal(n: nat) -> Seq<char>
    decreases n,
{
    if n < 10 {
        seq![((n + 48) as u8) as char]
    } else {
        decimal(n / 10).push((((n % 10) + 48) as u8) as char)
    }
}

/// The decimal digits of `n`, without leading zeros.
pub fn decimal_string(n: u64) -> (text: String)
    ensures
        text@ == decimal(n as nat),
    decreases n,
{
    if n < 10 {
        let mut text = String::new();
        push_char(&mut text, ((n + 48) as u8) as char);
        assert(text@ =~= decimal(n as nat));
        text
    } else {
        let mut text = decimal_string(n / 10);
        push_char(&mut text, (((n % 10) + 48) as u8) as char);
        text
    }
}

/// The origin made of the parts of a URL: the scheme, `://`, the host,
/// nothing for a host that is absent, and a colon with the port where there
/// is one.
pub open spec fn origin_text(scheme: Seq<char>, host: Option<Seq<char>>, port: Option<u16>) -> Seq<
    char,
> {
    scheme + seq![':', '/', '/'] + match host {
        Some(h) => h,
        None => Seq::empty(),
    } + match port {
        Some(p) => seq![':'] + decimal(p as nat),
        None => Seq::empty(),
    }
}

/// The origin of the site that a URL belongs to, or `None` where the text is
/// no URL.
pub open spec fn site_origin(url: Seq<char>) -> Option<Seq<char>> {
    match url_parts(url) {
        Some((scheme, host, port)) => Some(origin_text(scheme, host, port)),
        None => None,
    }
}

/// The origin made of the parts of a URL.
pub fn format_origin(parts: &UrlParts) -> (origin: String)
    ensures
        origin@ == origin_text(parts.scheme@, parts.host.deep_view(), parts.port),
{
    let mut origin = parts.scheme.clone();
    origin.append("://");
    proof {
        reveal_strlit("://");
        assert("://"@ =~= seq![':', '/', '/']);
    }
    match &parts.host {
        Some(h) => {
            origin.append(h.as_str());
        },
        None => {},
    }
    match parts.port {
        Some(p) => {
            push_char(&mut origin, ':');
            let digits = decimal_string(p as u64);
            origin.append(digits.as_str());
        },
        None => {},
    }
    assert(origin@ =~= origin_text(parts.scheme@, parts.host.deep_view(), parts.port));
    origin
}

/// The origin of the site that a URL belongs to. A text that is no URL is
/// refused as an invalid URL.
pub fn extract_origin(url: &str) -> (r: Result<String, AssetError>)
    ensures
        match site_origin(url@) {
            Some(origin) => r matches Ok(o) && o@ == origin,
            None => r matches Err(e) && e@ == AssetErrorView::InvalidUrl(url@),
        },
{
    match parse_url(url) {
        Some(parts) => Ok(format_origin(&parts)),
        None => Err(AssetError::InvalidUrl(url.to_owned())),
    }
}

} // verus!
