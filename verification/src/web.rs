//! URLs and network addresses as plain values.
use vstd::prelude::*;

use crate::text;

verus! {

/// A network address: the octets of version 4 or the segments of version 6.
#[derive(Debug, Clone, Copy, PartialEq, Eq)]
pub enum Address {
    V4([u8; 4]),
    V6([u16; 8]),
}

/// The host of a URL.
#[derive(Debug, PartialEq, Eq)]
pub enum UrlHost {
    Domain(String),
    Literal(Address),
}

/// What the library reads from a URL.
#[derive(Debug, PartialEq, Eq)]
pub struct UrlParts {
    /// The URL in normal form.
    pub text: String,
    /// The scheme, in lower case.
    pub scheme: String,
    /// The user name; empty when there is none.
    pub username: String,
    /// Whether there is a password.
    pub has_password: bool,
    /// Whether there is a fragment.
    pub has_fragment: bool,
    /// The decoded keys of the query, in order.
    pub query_keys: Vec<String>,
    /// The host as text.
    pub host_text: Option<String>,
    /// The host by kind.
    pub host: Option<UrlHost>,
    /// The port, or the known default of the scheme.
    pub port: Option<u16>,
}

/// What a URL host is.
pub enum HostView {
    Domain(Seq<char>),
    V4(Seq<u8>),
    V6(Seq<u16>),
}

/// What URL parts are.
pub struct UrlView {
    pub text: Seq<char>,
    pub scheme: Seq<char>,
    pub username: Seq<char>,
    pub has_password: bool,
    pub has_fragment: bool,
    pub query_keys: Seq<Seq<char>>,
    pub host_text: Option<Seq<char>>,
    pub host: Option<HostView>,
    pub port: Option<u16>,
}

/// The parts of a URL but for its host by kind.
struct UrlTexts {
    text: String,
    scheme: String,
    username: String,
    has_password: bool,
    has_fragment: bool,
    query_keys: Vec<String>,
    host_text: Option<String>,
    port: Option<u16>,
}

pub open spec fn host_view(h: UrlHost) -> HostView {
    match h {
        UrlHost::Domain(d) => HostView::Domain(d@),
        UrlHost::Literal(Address::V4(octets)) => HostView::V4(octets@),
        UrlHost::Literal(Address::V6(segments)) => HostView::V6(segments@),
    }
}

pub open spec fn host_option_view(h: Option<UrlHost>) -> Option<HostView> {
    match h {
        Some(h) => Some(host_view(h)),
        None => None,
    }
}

pub open spec fn keys_view(keys: Seq<String>) -> Seq<Seq<char>> {
    Seq::new(keys.len(), |i: int| keys[i]@)
}

impl View for UrlParts {
    type V = UrlView;

    open spec fn view(&self) -> UrlView {
        UrlView {
            text: self.text@,
            scheme: self.scheme@,
            username: self.username@,
            has_password: self.has_password,
            has_fragment: self.has_fragment,
            query_keys: keys_view(self.query_keys@),
            host_text: text::opt_view(self.host_text),
            host: host_option_view(self.host),
            port: self.port,
        }
    }
}

impl UrlTexts {
    /// What the URL is, with its host given by kind.
    spec fn with_host(self, host: Option<HostView>) -> UrlView {
        UrlView {
            text: self.text@,
            scheme: self.scheme@,
            username: self.username@,
            has_password: self.has_password,
            has_fragment: self.has_fragment,
            query_keys: keys_view(self.query_keys@),
            host_text: text::opt_view(self.host_text),
            host,
            port: self.port,
        }
    }
}

/// The address that stands for a missing or unusable URL.
pub open spec fn placeholder_url() -> Seq<char> {
    "https://example.invalid/"@
}

/// What a text denotes as a URL, or why it denotes none. The host by kind is left out.
pub uninterp spec fn parsed_texts(text: Seq<char>) -> std::result::Result<UrlView, Seq<char>>;

/// The host by kind of the URL that a text denotes.
pub uninterp spec fn parsed_host(text: Seq<char>) -> Option<HostView>;

/// What a text denotes as a URL, or why it denotes none.
pub open spec fn parsed_url(text: Seq<char>) -> std::result::Result<UrlView, Seq<char>> {
    match parsed_texts(text) {
        Ok(url) => Ok(UrlView { host: parsed_host(text), ..url }),
        Err(why) => Err(why),
    }
}

/// What a reference denotes relative to a base URL, or why it denotes nothing.
pub uninterp spec fn joined_url(base: Seq<char>, reference: Seq<char>) -> std::result::Result<
    Seq<char>,
    Seq<char>,
>;

/// `url::Url::parse`, and what the accessors of the URL give as text. All of it is a function of
/// the text alone. The placeholder is a URL in normal form whose host is `example.invalid`.
#[verifier::external_body]
fn read_texts(text: &str) -> (r: std::result::Result<UrlTexts, String>)
    ensures
        match r {
            Ok(url) => parsed_texts(text@) == Ok::<UrlView, Seq<char>>(url.with_host(None)),
            Err(why) => parsed_texts(text@) == Err::<UrlView, Seq<char>>(why@),
        },
        text@ == placeholder_url() ==> r is Ok,
        text@ == placeholder_url() ==> r->Ok_0.text@ == placeholder_url(),
        text@ == placeholder_url() ==> text::opt_view(r->Ok_0.host_text) == Some("example.invalid"@),
{
    let url = url::Url::parse(text).map_err(|e| e.to_string())?;
    Ok(UrlTexts {
        text: url.as_str().to_owned(),
        scheme: url.scheme().to_owned(),
        username: url.username().to_owned(),
        has_password: url.password().is_some(),
        has_fragment: url.fragment().is_some(),
        query_keys: url.query_pairs().map(|(key, _)| key.into_owned()).collect(),
        host_text: url.host_str().map(str::to_owned),
        port: url.port_or_known_default(),
    })
}

/// `url::Url::host` on the URL that `url::Url::parse` reads, variant for variant; `None` where
/// there is no URL. It is a function of the text alone.
#[verifier::external_body]
fn read_host(text: &str) -> (r: Option<UrlHost>)
    ensures
        host_option_view(r) == parsed_host(text@),
{
    let url = url::Url::parse(text).ok()?;
    url.host().map(|host| match host {
        url::Host::Domain(domain) => UrlHost::Domain(domain.to_owned()),
        url::Host::Ipv4(a) => UrlHost::Literal(Address::V4(a.octets())),
        url::Host::Ipv6(a) => UrlHost::Literal(Address::V6(a.segments())),
    })
}

/// Reads a text as a URL.
pub(crate) fn parse_url(text: &str) -> (r: std::result::Result<UrlParts, String>)
    ensures
        match r {
            Ok(parts) => parsed_url(text@) == Ok::<UrlView, Seq<char>>(parts@),
            Err(why) => parsed_url(text@) == Err::<UrlView, Seq<char>>(why@),
        },
        text@ == placeholder_url() ==> r is Ok,
        text@ == placeholder_url() ==> r->Ok_0.text@ == placeholder_url(),
        text@ == placeholder_url() ==> text::opt_view(r->Ok_0.host_text) == Some("example.invalid"@),
{
    match read_texts(text) {
        Ok(url) => Ok(
            UrlParts {
                text: url.text,
                scheme: url.scheme,
                username: url.username,
                has_password: url.has_password,
                has_fragment: url.has_fragment,
                query_keys: url.query_keys,
                host_text: url.host_text,
                host: read_host(text),
                port: url.port,
            },
        ),
        Err(why) => Err(why),
    }
}

/// `url::Url::join` on a parsed base, rendered as text. Its result is a function of the base and
/// of the reference.
#[verifier::external_body]
pub(crate) fn join_url(base: &str, reference: &str) -> (r: std::result::Result<String, String>)
    ensures
        match r {
            Ok(url) => joined_url(base@, reference@) == Ok::<Seq<char>, Seq<char>>(url@),
            Err(why) => joined_url(base@, reference@) == Err::<Seq<char>, Seq<char>>(why@),
        },
{
    let joined = url::Url::parse(base).and_then(|url| url.join(reference));
    joined.map(|url| url.to_string()).map_err(|e| e.to_string())
}

} // verus!
