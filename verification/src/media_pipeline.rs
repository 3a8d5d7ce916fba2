//! The durable media downloader: which URLs it may fetch, where the files go, and how failures are
//! retried.
use vstd::prelude::*;

use crate::error;
use crate::error::{Error, Result};
use crate::hash;
use crate::paths;
use crate::text;
use crate::web;
use crate::web::{Address, UrlHost, UrlParts};

verus! {

/// How often a failed download is tried again.
pub const MAX_RETRIES: i64 = 5;

/// How long a preview may take, in milliseconds.
pub const PREVIEW_TIMEOUT_MS: u64 = 8_000;

/// How large a preview may be, in bytes.
pub const PREVIEW_MAX_BYTES: u64 = 8_388_608;

/// What the downloader may do.
#[derive(Debug, PartialEq, Eq)]
pub struct MediaPipelineConfig {
    pub media_root: String,
    pub max_bytes: u64,
    pub poll_interval_ms: u64,
    /// Whether plain HTTP is allowed, as for local servers in tests.
    pub allow_http: bool,
    /// Whether private and literal addresses are allowed, as for local servers in tests.
    pub allow_private_network: bool,
    pub max_redirects: u64,
}

/// What the recovery at startup did.
#[derive(Debug, Clone, Copy, PartialEq, Eq, Structural)]
pub struct MediaRecoverySummary {
    pub downloading_requeued: u64,
    pub parts_removed: u64,
}

/// How the worker ended.
#[derive(Debug, PartialEq, Eq)]
pub struct MediaWorkerSummary {
    pub stopped: bool,
    pub join_failed: Option<String>,
}

/// Where a media file is to be had.
#[derive(Debug, PartialEq, Eq)]
pub enum ResolvedMediaSource {
    Local(String),
    Remote(String),
    Unavailable,
}

/// A bounded preview that is held in memory.
#[derive(Debug, PartialEq, Eq)]
pub struct MediaPreview {
    pub content_type: String,
    pub bytes: Vec<u8>,
}

/// A media row that this worker has claimed.
#[derive(Debug, PartialEq, Eq)]
pub struct MediaClaimDto {
    pub id: i64,
    pub url: String,
    pub media_type: String,
    pub claim_token: String,
}

/// What is recorded of a finished download.
#[derive(Debug, PartialEq, Eq)]
pub struct MediaDownloadCompletion {
    pub local_path: String,
    pub content_type: Option<String>,
    pub content_length: i64,
    pub updated_at: String,
}

/// A retry count within its bounds.
pub fn bounded_retry_count(value: i64) -> (r: i64)
    ensures
        r == if value < 0 {
            0
        } else if value > MAX_RETRIES {
            MAX_RETRIES
        } else {
            value
        },
{
    if value < 0 {
        0
    } else if value > MAX_RETRIES {
        MAX_RETRIES
    } else {
        value
    }
}

/// The words that mark a query key as a credential wherever they occur in it.
pub open spec fn sensitive_words() -> Seq<Seq<char>> {
    seq![
        "auth"@,
        "cookie"@,
        "credential"@,
        "gsid"@,
        "passport"@,
        "password"@,
        "secret"@,
        "session"@,
        "signature"@,
        "token"@,
        "xsrf"@,
    ]
}

/// A query key as it is judged: its letters and digits, in lower case.
pub open spec fn normalized_key(key: Seq<char>) -> Seq<char> {
    text::lower(text::alphanumerics(key))
}

/// Whether a query key names a credential.
pub open spec fn sensitive_key(key: Seq<char>) -> bool {
    normalized_key(key) == "sub"@ || exists|i: int|
        0 <= i < sensitive_words().len() && text::has_part(
            normalized_key(key),
            #[trigger] sensitive_words()[i],
        )
}

/// Tests whether a query key names a credential.
pub fn is_sensitive_url_key(key: &str) -> (r: bool)
    ensures
        r == sensitive_key(key@),
{
    let normalized = text::to_lower(text::keep_alphanumerics(key).as_str());
    let n = normalized.as_str();
    let r = text::same_text(n, "sub") || text::contains_text(n, "auth") || text::contains_text(
        n,
        "cookie",
    ) || text::contains_text(n, "credential") || text::contains_text(n, "gsid")
        || text::contains_text(n, "passport") || text::contains_text(n, "password")
        || text::contains_text(n, "secret") || text::contains_text(n, "session")
        || text::contains_text(n, "signature") || text::contains_text(n, "token")
        || text::contains_text(n, "xsrf");
    proof {
        let w = sensitive_words();
        assert(w[0] == "auth"@ && w[1] == "cookie"@ && w[2] == "credential"@ && w[3] == "gsid"@
            && w[4] == "passport"@ && w[5] == "password"@ && w[6] == "secret"@ && w[7]
            == "session"@ && w[8] == "signature"@ && w[9] == "token"@ && w[10] == "xsrf"@);
    }
    r
}

/// Whether an address of version 4 is public: none of the private, loopback, link-local,
/// documentation, benchmark, multicast and reserved blocks holds it.
pub open spec fn public_v4(o: Seq<u8>) -> bool {
    !(o[0] == 0 || o[0] == 10 || o[0] == 127 || (o[0] == 100 && 64 <= o[1] <= 127) || (o[0] == 169
        && o[1] == 254) || (o[0] == 172 && 16 <= o[1] <= 31) || (o[0] == 192 && o[1] == 0 && (o[2]
        == 0 || o[2] == 2)) || (o[0] == 192 && o[1] == 168) || (o[0] == 198 && 18 <= o[1] <= 19)
        || (o[0] == 198 && o[1] == 51 && o[2] == 100) || (o[0] == 203 && o[1] == 0 && o[2] == 113)
        || o[0] >= 224)
}

/// Whether an address of version 6 stands for one of version 4.
pub open spec fn mapped(s: Seq<u16>) -> bool {
    s[0] == 0 && s[1] == 0 && s[2] == 0 && s[3] == 0 && s[4] == 0 && s[5] == 0xffff
}

/// The address of version 4 that a mapped address stands for.
pub open spec fn unmapped(s: Seq<u16>) -> Seq<u8> {
    seq![(s[6] / 256) as u8, (s[6] % 256) as u8, (s[7] / 256) as u8, (s[7] % 256) as u8]
}

/// Whether an address of version 6 is public. Not public are loopback and the unspecified address,
/// the multicast, unique-local, link-local, documentation and site-local blocks, and what stands
/// for an address of version 4 that is not public.
pub open spec fn public_v6(s: Seq<u16>) -> bool {
    if mapped(s) {
        public_v4(unmapped(s))
    } else {
        !((s[0] == 0 && s[1] == 0 && s[2] == 0 && s[3] == 0 && s[4] == 0 && s[5] == 0 && s[6] == 0
            && s[7] <= 1) || s[0] >= 0xff00 || 0xfc00 <= s[0] <= 0xfdff || 0xfe80 <= s[0] <= 0xfebf
            || (s[0] == 0x2001 && s[1] == 0x0db8) || 0xfec0 <= s[0] <= 0xfeff)
    }
}

/// Whether an address is public.
pub open spec fn public_address(address: Address) -> bool {
    match address {
        Address::V4(octets) => public_v4(octets@),
        Address::V6(segments) => public_v6(segments@),
    }
}

/// Whether all of the addresses are public.
pub open spec fn all_public(addresses: Seq<Address>) -> bool {
    forall|i: int| 0 <= i < addresses.len() ==> public_address(#[trigger] addresses[i])
}

fn is_public_v4(o: [u8; 4]) -> (r: bool)
    ensures
        r == public_v4(o@),
{
    !(o[0] == 0 || o[0] == 10 || o[0] == 127 || (o[0] == 100 && 64 <= o[1] && o[1] <= 127) || (o[0]
        == 169 && o[1] == 254) || (o[0] == 172 && 16 <= o[1] && o[1] <= 31) || (o[0] == 192 && o[1]
        == 0 && (o[2] == 0 || o[2] == 2)) || (o[0] == 192 && o[1] == 168) || (o[0] == 198 && 18
        <= o[1] && o[1] <= 19) || (o[0] == 198 && o[1] == 51 && o[2] == 100) || (o[0] == 203 && o[1]
        == 0 && o[2] == 113) || o[0] >= 224)
}

/// Tests whether an address is public.
pub fn is_public(address: Address) -> (r: bool)
    ensures
        r == public_address(address),
{
    match address {
        Address::V4(octets) => is_public_v4(octets),
        Address::V6(s) => {
            if s[0] == 0 && s[1] == 0 && s[2] == 0 && s[3] == 0 && s[4] == 0 && s[5] == 0xffff {
                let octets: [u8; 4] = [
                    (s[6] / 256) as u8,
                    (s[6] % 256) as u8,
                    (s[7] / 256) as u8,
                    (s[7] % 256) as u8,
                ];
                assert(octets@ == unmapped(s@));
                return is_public_v4(octets);
            }
            !((s[0] == 0 && s[1] == 0 && s[2] == 0 && s[3] == 0 && s[4] == 0 && s[5] == 0 && s[6]
                == 0 && s[7] <= 1) || s[0] >= 0xff00 || (0xfc00 <= s[0] && s[0] <= 0xfdff) || (
            0xfe80 <= s[0] && s[0] <= 0xfebf) || (s[0] == 0x2001 && s[1] == 0x0db8) || (0xfec0
                <= s[0] && s[0] <= 0xfeff))
        },
    }
}

/// Loopback, link-local and private addresses of version 4 are never public, in whichever version
/// they are written.
pub proof fn private_addresses_are_not_public(o: Seq<u8>, s: Seq<u16>)
    requires
        o.len() == 4,
        o[0] == 127 || o[0] == 10 || (o[0] == 192 && o[1] == 168) || (o[0] == 172 && 16 <= o[1]
            <= 31) || (o[0] == 169 && o[1] == 254),
        mapped(s),
        unmapped(s) == o,
    ensures
        !public_v4(o),
        !public_v6(s),
{
}

/// Why a URL may not be fetched, judged by the URL alone.
pub open spec fn url_fault(config: MediaPipelineConfig, u: web::UrlView) -> Option<Seq<char>> {
    if u.scheme != "https"@ && !(config.allow_http && u.scheme == "http"@) {
        Some("media URL must use HTTPS"@)
    } else if u.username.len() > 0 || u.has_password {
        Some("media URL must not contain userinfo"@)
    } else if u.has_fragment || exists|i: int|
        0 <= i < u.query_keys.len() && sensitive_key(#[trigger] u.query_keys[i]) {
        Some("media URL must not contain sensitive credentials"@)
    } else if u.host_text is None {
        Some("media URL has no host"@)
    } else if text::lower(u.host_text->Some_0) == "localhost"@ || text::has_suffix(
        u.host_text->Some_0,
        ".localhost"@,
    ) {
        Some("localhost media URL is forbidden"@)
    } else if u.port is None {
        Some("media URL has no usable port"@)
    } else if u.host is None {
        Some("media URL has no host"@)
    } else if !(u.host->Some_0 is Domain) && !config.allow_private_network {
        Some("literal media host is forbidden"@)
    } else {
        None
    }
}

/// The addresses that an accepted URL names without a lookup.
#[derive(Debug, PartialEq, Eq)]
pub enum MediaTarget {
    /// The host has to be looked up.
    Lookup { domain: String, port: u16 },
    /// The URL names the address itself.
    Literal { address: Address, port: u16 },
}

/// Whether a target is what an accepted URL names.
pub open spec fn is_target_of(target: MediaTarget, u: web::UrlView) -> bool {
    match target {
        MediaTarget::Lookup { domain, port } => u.host == Some(web::HostView::Domain(domain@))
            && u.port == Some(port),
        MediaTarget::Literal { address, port } => u.host == Some(
            web::host_view(UrlHost::Literal(address)),
        ) && u.port == Some(port),
    }
}

/// The downloader: what it may do.
#[derive(Debug, PartialEq, Eq)]
pub struct MediaPipeline {
    pub config: MediaPipelineConfig,
}

fn has_sensitive_key(keys: &Vec<String>) -> (r: bool)
    ensures
        r == exists|i: int| 0 <= i < keys@.len() && sensitive_key(#[trigger] keys@[i]@),
{
    let mut i: usize = 0;
    while i < keys.len()
        invariant
            i <= keys@.len(),
            forall|j: int| 0 <= j < i ==> !sensitive_key(#[trigger] keys@[j]@),
        decreases keys@.len() - i,
    {
        if is_sensitive_url_key(keys[i].as_str()) {
            return true;
        }
        i = i + 1;
    }
    false
}

impl MediaPipeline {
    /// A downloader with the given permissions.
    pub fn new(config: MediaPipelineConfig) -> (r: Self)
        ensures
            r.config == config,
    {
        MediaPipeline { config }
    }

    /// Judges a URL by itself, and tells whether its host has to be looked up.
    pub fn check_url(&self, parts: &UrlParts) -> (r: Result<MediaTarget>)
        ensures
            match url_fault(self.config, parts@) {
                Some(why) => r matches Err(e) && error::is_format_error(e, why),
                None => r matches Ok(target) && is_target_of(target, parts@),
            },
    {
        if !text::same_text(parts.scheme.as_str(), "https") && !(self.config.allow_http
            && text::same_text(parts.scheme.as_str(), "http")) {
            return Err(error::format_error("media URL must use HTTPS"));
        }
        if !parts.username.as_str().is_empty() || parts.has_password {
            return Err(error::format_error("media URL must not contain userinfo"));
        }
        let sensitive = has_sensitive_key(&parts.query_keys);
        proof {
            let keys = parts@.query_keys;
            assert(forall|i: int|
                0 <= i < keys.len() ==> #[trigger] keys[i] == parts.query_keys@[i]@);
            if sensitive {
                let i = choose|i: int|
                    0 <= i < parts.query_keys@.len() && sensitive_key(
                        #[trigger] parts.query_keys@[i]@,
                    );
                assert(sensitive_key(keys[i]));
            }
        }
        if parts.has_fragment || sensitive {
            return Err(error::format_error("media URL must not contain sensitive credentials"));
        }
        let host = match &parts.host_text {
            Some(host) => host.as_str(),
            None => return Err(error::format_error("media URL has no host")),
        };
        if text::same_text(text::to_lower(host).as_str(), "localhost") || text::ends_with(
            host,
            ".localhost",
        ) {
            return Err(error::format_error("localhost media URL is forbidden"));
        }
        let port: u16 = match parts.port {
            Some(port) => port,
            None => return Err(error::format_error("media URL has no usable port")),
        };
        match &parts.host {
            None => Err(error::format_error("media URL has no host")),
            Some(UrlHost::Domain(domain)) => Ok(
                MediaTarget::Lookup { domain: domain.clone(), port },
            ),
            Some(UrlHost::Literal(address)) => if self.config.allow_private_network {
                Ok(MediaTarget::Literal { address: *address, port })
            } else {
                Err(error::format_error("literal media host is forbidden"))
            },
        }
    }

    /// Judges a URL given as text. A text that is no URL is refused with the reason.
    pub fn validate_url(&self, raw_url: &str) -> (r: Result<(String, MediaTarget)>)
        ensures
            match web::parsed_url(raw_url@) {
                Err(why) => r matches Err(e) && error::is_format_error(e, why),
                Ok(u) => match url_fault(self.config, u) {
                    Some(why) => r matches Err(e) && error::is_format_error(e, why),
                    None => r matches Ok((url, target)) && url@ == u.text && is_target_of(
                        target,
                        u,
                    ),
                },
            },
    {
        match web::parse_url(raw_url) {
            Err(why) => Err(Error::FormatError(why)),
            Ok(parts) => match self.check_url(&parts) {
                Err(e) => Err(e),
                Ok(target) => Ok((parts.text, target)),
            },
        }
    }

    /// Judges the addresses of a host: without permission for private networks each of them must be
    /// public.
    pub fn check_addresses(&self, addresses: &Vec<Address>) -> (r: Result<()>)
        ensures
            if self.config.allow_private_network || all_public(addresses@) {
                r is Ok
            } else {
                r matches Err(e) && error::is_format_error(
                    e,
                    "media host resolved to a non-public address"@,
                )
            },
    {
        if self.config.allow_private_network {
            return Ok(());
        }
        let mut i: usize = 0;
        while i < addresses.len()
            invariant
                i <= addresses@.len(),
                !self.config.allow_private_network,
                forall|j: int| 0 <= j < i ==> public_address(#[trigger] addresses@[j]),
            decreases addresses@.len() - i,
        {
            if !is_public(addresses[i]) {
                return Err(error::format_error("media host resolved to a non-public address"));
            }
            i = i + 1;
        }
        Ok(())
    }

    /// Judges the length that a response declares for a download.
    pub fn check_declared_length(&self, length: Option<u64>) -> (r: Result<()>)
        ensures
            if length matches Some(n) && n > self.config.max_bytes {
                r matches Err(e) && error::is_format_error(
                    e,
                    "media exceeds configured maximum size"@,
                )
            } else {
                r is Ok
            },
    {
        match length {
            Some(n) => if n > self.config.max_bytes {
                Err(error::format_error("media exceeds configured maximum size"))
            } else {
                Ok(())
            },
            None => Ok(()),
        }
    }

    /// Adds a chunk to what has been received of a download.
    pub fn add_chunk(&self, received: u64, chunk: u64) -> (r: Result<u64>)
        ensures
            if received + chunk > self.config.max_bytes && !(self.config.max_bytes == u64::MAX) {
                r matches Err(e) && error::is_format_error(
                    e,
                    "media exceeds configured maximum size"@,
                )
            } else {
                r == Ok::<u64, Error>(
                    if received + chunk > u64::MAX {
                        u64::MAX
                    } else {
                        (received + chunk) as u64
                    },
                )
            },
    {
        let total: u64 = received.saturating_add(chunk);
        if total > self.config.max_bytes {
            Err(error::format_error("media exceeds configured maximum size"))
        } else {
            Ok(total)
        }
    }
}

/// Checks that a lookup gave an address at all.
pub fn resolved_addresses(addresses: Vec<Address>) -> (r: Result<Vec<Address>>)
    ensures
        if addresses@.len() == 0 {
            r matches Err(e) && error::is_format_error(e, "media host resolved no addresses"@)
        } else {
            r == Ok::<Vec<Address>, Error>(addresses)
        },
{
    if addresses.len() == 0 {
        Err(error::format_error("media host resolved no addresses"))
    } else {
        Ok(addresses)
    }
}

/// A request and the redirects that it has followed.
#[derive(Debug, PartialEq, Eq)]
pub struct RedirectChain {
    pub current: String,
    pub followed: u64,
}

/// Whether a status is a redirect that is followed.
pub open spec fn followed_status(status: u16) -> bool {
    status == 301 || status == 302 || status == 303 || status == 307 || status == 308
}

/// Why a redirect is not followed, before its target is looked at.
pub open spec fn redirect_fault(
    followed: u64,
    limit: u64,
    status: u16,
    has_location: bool,
) -> Option<Seq<char>> {
    if followed >= limit {
        Some("media redirect limit exceeded"@)
    } else if !followed_status(status) {
        Some("unsupported media redirect"@)
    } else if !has_location {
        Some("media redirect has no valid location"@)
    } else {
        None
    }
}

impl RedirectChain {
    /// A request that has followed no redirect.
    pub fn new(raw_url: &str) -> (r: Self)
        ensures
            r.current@ == raw_url@,
            r.followed == 0,
    {
        RedirectChain { current: raw_url.to_owned(), followed: 0 }
    }

    /// Goes on to the target of a redirect.
    pub fn follow(&mut self, target: std::result::Result<String, String>) -> (r: Result<()>)
        requires
            old(self).followed < u64::MAX,
        ensures
            match target {
                Ok(url) => r is Ok && final(self).current == url && final(self).followed == old(
                    self,
                ).followed + 1,
                Err(why) => *final(self) == *old(self) && (r matches Err(e)
                    && error::is_format_error(e, why@)),
            },
    {
        match target {
            Ok(url) => {
                self.current = url;
                self.followed = self.followed + 1;
                Ok(())
            },
            Err(why) => Err(Error::FormatError(why)),
        }
    }

    /// Takes a response of the fetched URL: whether it is the answer, or a redirect that is
    /// followed. Redirects are limited, and only permanent and temporary moves with a location are
    /// followed.
    pub fn on_response(
        &mut self,
        limit: u64,
        status: u16,
        url: &str,
        location: Option<&str>,
    ) -> (r: Result<bool>)
        ensures
            if !(300 <= status <= 399) {
                r == Ok::<bool, Error>(true) && *final(self) == *old(self)
            } else {
                match redirect_fault(old(self).followed, limit, status, location is Some) {
                    Some(why) => *final(self) == *old(self) && (r matches Err(e)
                        && error::is_format_error(e, why)),
                    None => match web::joined_url(url@, location->Some_0@) {
                        Ok(target) => r == Ok::<bool, Error>(false) && final(self).current@
                            == target && final(self).followed == old(self).followed + 1,
                        Err(why) => *final(self) == *old(self) && (r matches Err(e)
                            && error::is_format_error(e, why)),
                    },
                }
            },
    {
        if status < 300 || status > 399 {
            return Ok(true);
        }
        if self.followed >= limit {
            return Err(error::format_error("media redirect limit exceeded"));
        }
        if !(status == 301 || status == 302 || status == 303 || status == 307 || status == 308) {
            return Err(error::format_error("unsupported media redirect"));
        }
        let location = match location {
            Some(location) => location,
            None => return Err(error::format_error("media redirect has no valid location")),
        };
        match self.follow(web::join_url(url, location)) {
            Ok(()) => Ok(false),
            Err(e) => Err(e),
        }
    }
}

/// The largest preview of a kind of media, in bytes. All kinds have the same limit.
pub fn preview_max_bytes(_media_type: &str) -> (r: u64)
    ensures
        r == PREVIEW_MAX_BYTES,
{
    PREVIEW_MAX_BYTES
}

/// A content type as it is judged: without parameters and blanks, in lower case.
pub open spec fn bare_content_type(value: Seq<char>) -> Seq<char> {
    text::lower(text::trim_of(text::before_char(value, ';')))
}

/// A content type without parameters, if it is neither empty nor too long.
pub fn normalize_preview_content_type(value: &str) -> (r: Option<String>)
    ensures
        text::opt_view(r) == if bare_content_type(value@).len() > 0 && vstd::utf8::encode_utf8(
            bare_content_type(value@),
        ).len() <= 128 {
            Some(bare_content_type(value@))
        } else {
            None
        },
{
    let bare = text::to_lower(text::trim(text::cut_at(value, ';').as_str()).as_str());
    let size: usize = bare.as_str().as_bytes().len();
    if !bare.as_str().is_empty() && size <= 128 {
        Some(bare)
    } else {
        None
    }
}

/// Whether a content type can be previewed as the given kind of media.
pub open spec fn preview_type(content_type: Seq<char>, media_type: Seq<char>) -> bool {
    if media_type == "video"@ {
        content_type == "video/mp4"@ || content_type == "video/webm"@ || content_type
            == "video/quicktime"@
    } else {
        content_type == "image/jpeg"@ || content_type == "image/png"@ || content_type
            == "image/gif"@ || content_type == "image/webp"@
    }
}

/// Tests whether a content type can be previewed as the given kind of media.
pub fn is_preview_content_type(content_type: &str, media_type: &str) -> (r: bool)
    ensures
        r == preview_type(content_type@, media_type@),
{
    if text::same_text(media_type, "video") {
        text::same_text(content_type, "video/mp4") || text::same_text(content_type, "video/webm")
            || text::same_text(content_type, "video/quicktime")
    } else {
        text::same_text(content_type, "image/jpeg") || text::same_text(content_type, "image/png")
            || text::same_text(content_type, "image/gif") || text::same_text(
            content_type,
            "image/webp",
        )
    }
}

/// The content type of a preview, if the response has a usable one.
pub open spec fn usable_content_type(header: Option<Seq<char>>, media_type: Seq<char>) -> Option<
    Seq<char>,
> {
    match header {
        Some(value) => {
            let bare = bare_content_type(value);
            if bare.len() > 0 && vstd::utf8::encode_utf8(bare).len() <= 128 && preview_type(
                bare,
                media_type,
            ) {
                Some(bare)
            } else {
                None
            }
        },
        None => None,
    }
}

/// Judges the head of a response to a preview and gives its content type.
pub fn begin_preview(length: Option<u64>, header: Option<&str>, media_type: &str) -> (r: Result<
    String,
>)
    ensures
        ({
            let usable = usable_content_type(
                match header {
                    Some(h) => Some(h@),
                    None => None,
                },
                media_type@,
            );
            if length matches Some(n) && (n == 0 || n > PREVIEW_MAX_BYTES) {
                r matches Err(e) && error::is_format_error(e, "media preview size is invalid"@)
            } else if usable is None {
                r matches Err(e) && error::is_format_error(
                    e,
                    "media preview has invalid content type"@,
                )
            } else {
                r matches Ok(content_type) && content_type@ == usable->Some_0
            }
        }),
{
    if let Some(n) = length {
        if n == 0 || n > preview_max_bytes(media_type) {
            return Err(error::format_error("media preview size is invalid"));
        }
    }
    let usable = match header {
        Some(value) => match normalize_preview_content_type(value) {
            Some(bare) => if is_preview_content_type(bare.as_str(), media_type) {
                Some(bare)
            } else {
                None
            },
            None => None,
        },
        None => None,
    };
    match usable {
        Some(content_type) => Ok(content_type),
        None => Err(error::format_error("media preview has invalid content type")),
    }
}

/// Adds a chunk to a preview, within its limit.
pub fn extend_preview(bytes: &mut Vec<u8>, chunk: &Vec<u8>) -> (r: Result<()>)
    ensures
        if old(bytes)@.len() + chunk@.len() > PREVIEW_MAX_BYTES {
            final(bytes)@ == old(bytes)@ && (r matches Err(e) && error::is_format_error(
                e,
                "media preview exceeds size limit"@,
            ))
        } else {
            r is Ok && final(bytes)@ == old(bytes)@ + chunk@
        },
{
    let total: u128 = bytes.len() as u128 + chunk.len() as u128;
    if total > 8_388_608 {
        return Err(error::format_error("media preview exceeds size limit"));
    }
    let ghost before = bytes@;
    let mut i: usize = 0;
    while i < chunk.len()
        invariant
            i <= chunk@.len(),
            bytes@ == before + chunk@.subrange(0, i as int),
        decreases chunk@.len() - i,
    {
        bytes.push(chunk[i]);
        i = i + 1;
        assert(bytes@ == before + chunk@.subrange(0, i as int));
    }
    assert(chunk@.subrange(0, i as int) == chunk@);
    Ok(())
}

/// Whether bytes decode as an image, or why they do not.
pub uninterp spec fn decoded_image(bytes: Seq<u8>) -> std::result::Result<(), Seq<char>>;

/// `image::load_from_memory`: it guesses the format of the bytes and decodes them. Whether that
/// succeeds, and the text of the error, are functions of the bytes alone; no decoding hooks are
/// registered here.
#[verifier::external_body]
fn decode_image(bytes: &Vec<u8>) -> (r: std::result::Result<(), String>)
    ensures
        match r {
            Ok(_) => decoded_image(bytes@) == Ok::<(), Seq<char>>(()),
            Err(why) => decoded_image(bytes@) == Err::<(), Seq<char>>(why@),
        },
{
    image::load_from_memory(bytes.as_slice()).map(|_| ()).map_err(|e| e.to_string())
}

/// Why a received preview is refused.
pub open spec fn preview_fault(
    bytes: Seq<u8>,
    media_type: Seq<char>,
    decoded: std::result::Result<(), Seq<char>>,
) -> Option<Seq<char>> {
    if bytes.len() == 0 {
        Some("media preview is empty"@)
    } else if media_type != "video"@ && decoded is Err {
        Some("invalid preview image: "@ + decoded->Err_0)
    } else {
        None
    }
}

/// Judges a received preview by whether it decodes as an image. A video is not decoded.
pub fn judge_preview(
    content_type: String,
    bytes: Vec<u8>,
    media_type: &str,
    decoded: std::result::Result<(), String>,
) -> (r: Result<MediaPreview>)
    ensures
        match preview_fault(
            bytes@,
            media_type@,
            match decoded {
                Ok(_) => Ok(()),
                Err(why) => Err(why@),
            },
        ) {
            Some(why) => r matches Err(e) && error::is_format_error(e, why),
            None => r == Ok::<MediaPreview, Error>(MediaPreview { content_type, bytes }),
        },
{
    if bytes.len() == 0 {
        return Err(error::format_error("media preview is empty"));
    }
    if !text::same_text(media_type, "video") {
        if let Err(why) = decoded {
            return Err(
                Error::FormatError(text::join2("invalid preview image: ", why.as_str())),
            );
        }
    }
    Ok(MediaPreview { content_type, bytes })
}

/// Finishes a preview: it must not be empty, and must decode unless it is a video.
pub fn fetch_preview(content_type: String, bytes: Vec<u8>, media_type: &str) -> (r: Result<
    MediaPreview,
>)
    ensures
        match preview_fault(bytes@, media_type@, decoded_image(bytes@)) {
            Some(why) => r matches Err(e) && error::is_format_error(e, why),
            None => r == Ok::<MediaPreview, Error>(MediaPreview { content_type, bytes }),
        },
{
    if bytes.len() == 0 || text::same_text(media_type, "video") {
        return judge_preview(content_type, bytes, media_type, Ok(()));
    }
    let decoded = decode_image(&bytes);
    judge_preview(content_type, bytes, media_type, decoded)
}

/// The beginning of the file names of a media row: its identifier and the hash of its URL.
pub open spec fn file_prefix(id: i64, url: Seq<char>) -> Seq<char> {
    text::signed_decimal(id as int) + "-"@ + text::hex(
        hash::fnv1a_of(vstd::utf8::encode_utf8(url)) as nat,
        16,
    ) + "."@
}

/// The beginning of the file names of a media row.
pub fn deterministic_file_prefix(id: i64, url: &str) -> (r: String)
    ensures
        r@ == file_prefix(id, url@),
{
    let mut r = text::join2(text::i64_text(id).as_str(), "-");
    r.append(text::hex_text(hash::stable_hash(url), 16).as_str());
    r.append(".");
    r
}

/// The extension of a media file by content type and kind.
pub open spec fn media_extension(media_type: Seq<char>, content_type: Option<Seq<char>>) -> Seq<
    char,
> {
    let bare = match content_type {
        Some(value) => text::before_char(value, ';'),
        None => Seq::empty(),
    };
    if bare == "image/png"@ {
        "png"@
    } else if bare == "image/gif"@ {
        "gif"@
    } else if bare == "image/webp"@ {
        "webp"@
    } else if bare == "video/webm"@ {
        "webm"@
    } else if bare == "video/quicktime"@ {
        "mov"@
    } else if text::has_prefix(bare, "video/"@) || media_type == "video"@ {
        "mp4"@
    } else {
        "jpg"@
    }
}

/// The directory of a kind of media.
pub open spec fn media_directory(media_type: Seq<char>) -> Seq<char> {
    if media_type == "video"@ {
        "videos"@
    } else {
        "pictures"@
    }
}

/// The file name of a media row.
pub open spec fn media_file_name(
    id: i64,
    url: Seq<char>,
    media_type: Seq<char>,
    content_type: Option<Seq<char>>,
) -> Seq<char> {
    file_prefix(id, url) + media_extension(media_type, content_type)
}

/// The directory of a kind of media.
pub fn directory_of(media_type: &str) -> (r: String)
    ensures
        r@ == media_directory(media_type@),
{
    if text::same_text(media_type, "video") {
        "videos".to_owned()
    } else {
        "pictures".to_owned()
    }
}

/// Where the file of a media row goes, below the media root.
pub fn deterministic_relative_path(
    id: i64,
    url: &str,
    media_type: &str,
    content_type: Option<&str>,
) -> (r: String)
    ensures
        r@ == paths::joined(
            media_directory(media_type@),
            media_file_name(
                id,
                url@,
                media_type@,
                match content_type {
                    Some(c) => Some(c@),
                    None => None,
                },
            ),
        ),
{
    let bare = match content_type {
        Some(value) => text::cut_at(value, ';'),
        None => String::new(),
    };
    let b = bare.as_str();
    let extension = if text::same_text(b, "image/png") {
        "png"
    } else if text::same_text(b, "image/gif") {
        "gif"
    } else if text::same_text(b, "image/webp") {
        "webp"
    } else if text::same_text(b, "video/webm") {
        "webm"
    } else if text::same_text(b, "video/quicktime") {
        "mov"
    } else if text::starts_with(b, "video/") || text::same_text(media_type, "video") {
        "mp4"
    } else {
        "jpg"
    };
    let mut name = deterministic_file_prefix(id, url);
    name.append(extension);
    paths::join(directory_of(media_type).as_str(), name.as_str())
}

/// Whether a file name may be that of a finished download of a media row.
pub open spec fn finished_name(name: Seq<char>, id: i64, url: Seq<char>) -> bool {
    text::has_prefix(name, file_prefix(id, url)) && !text::has_suffix(name, ".part"@)
}

/// Tests whether a file name may be that of a finished download of a media row, so that the row can
/// be completed without a download.
pub fn repair_from_existing_final(name: &str, id: i64, url: &str) -> (r: bool)
    ensures
        r == finished_name(name@, id, url@),
{
    text::starts_with(name, deterministic_file_prefix(id, url).as_str()) && !text::ends_with(
        name,
        ".part",
    )
}

/// The file that a download is stored in is found again when the row is claimed once more.
pub proof fn stored_file_is_found_again(
    id: i64,
    url: Seq<char>,
    media_type: Seq<char>,
    content_type: Option<Seq<char>>,
)
    ensures
        finished_name(media_file_name(id, url, media_type, content_type), id, url),
{
    let name = media_file_name(id, url, media_type, content_type);
    let prefix = file_prefix(id, url);
    let ext = media_extension(media_type, content_type);
    reveal_strlit("png");
    reveal_strlit("gif");
    reveal_strlit("webp");
    reveal_strlit("webm");
    reveal_strlit("mov");
    reveal_strlit("mp4");
    reveal_strlit("jpg");
    reveal_strlit(".part");
    assert(ext.len() > 0 && ext.last() != 't');
    assert(name.subrange(0, prefix.len() as int) == prefix);
    assert(name.last() == ext.last());
    if text::has_suffix(name, ".part"@) {
        let at = name.len() - 5;
        assert(name.subrange(at, at + 5) == ".part"@);
        assert(name.subrange(at, at + 5)[4] == name[at + 4]);
        assert(".part"@[4] == 't');
    }
}

/// The content type of a finished file, by its extension.
pub open spec fn content_type_of_path(path: Seq<char>) -> Option<Seq<char>> {
    match paths::extension_of(path) {
        Some(ext) => if ext == "png"@ {
            Some("image/png"@)
        } else if ext == "gif"@ {
            Some("image/gif"@)
        } else if ext == "webp"@ {
            Some("image/webp"@)
        } else if ext == "jpg"@ || ext == "jpeg"@ {
            Some("image/jpeg"@)
        } else if ext == "webm"@ {
            Some("video/webm"@)
        } else if ext == "mov"@ {
            Some("video/quicktime"@)
        } else if ext == "mp4"@ {
            Some("video/mp4"@)
        } else {
            None
        },
        None => None,
    }
}

/// The content type of a finished file, by its extension.
pub fn content_type_for_path(path: &str) -> (r: Option<String>)
    ensures
        text::opt_view(r) == content_type_of_path(path@),
{
    let ext = match paths::extension(path) {
        Some(ext) => ext,
        None => return None,
    };
    let e = ext.as_str();
    if text::same_text(e, "png") {
        Some("image/png".to_owned())
    } else if text::same_text(e, "gif") {
        Some("image/gif".to_owned())
    } else if text::same_text(e, "webp") {
        Some("image/webp".to_owned())
    } else if text::same_text(e, "jpg") || text::same_text(e, "jpeg") {
        Some("image/jpeg".to_owned())
    } else if text::same_text(e, "webm") {
        Some("video/webm".to_owned())
    } else if text::same_text(e, "mov") {
        Some("video/quicktime".to_owned())
    } else if text::same_text(e, "mp4") {
        Some("video/mp4".to_owned())
    } else {
        None
    }
}

/// The file that a download is written to until it is complete.
pub fn part_path(final_path: &str) -> (r: String)
    ensures
        r@ == final_path@ + ".part"@,
        text::has_suffix(r@, ".part"@),
{
    let r = text::join2(final_path, ".part");
    assert(r@.subrange(final_path@.len() as int, r@.len() as int) == ".part"@);
    r
}

/// Whether a file is left over from a download that did not complete.
pub fn is_part_file(path: &str) -> (r: bool)
    ensures
        r == (paths::extension_of(path@) == Some("part"@)),
{
    match paths::extension(path) {
        Some(ext) => text::same_text(ext.as_str(), "part"),
        None => false,
    }
}

/// A path as it is stored: with `/` as its separator.
pub fn path_for_database(path: &str) -> (r: String)
    ensures
        r@ == text::with_char(path@, '\\', '/'),
{
    text::replace_char(path, '\\', '/')
}

/// Judges a media file by its size and name. The result tells whether it has to decode as an image
/// too: all but videos do.
pub fn validate_media_file(path: &str, media_type: &str, length: u64, max_bytes: u64) -> (r: Result<
    bool,
>)
    ensures
        if length == 0 || length > max_bytes {
            r matches Err(e) && error::is_format_error(e, "media file size is invalid"@)
        } else if media_type@ != "video"@ {
            r == Ok::<bool, Error>(true)
        } else {
            let ext = paths::extension_of(path@);
            if ext == Some("mp4"@) || ext == Some("mov"@) || ext == Some("webm"@) {
                r == Ok::<bool, Error>(false)
            } else {
                r matches Err(e) && error::is_format_error(e, "invalid video extension"@)
            }
        },
{
    if length == 0 || length > max_bytes {
        return Err(error::format_error("media file size is invalid"));
    }
    if !text::same_text(media_type, "video") {
        return Ok(true);
    }
    let known = match paths::extension(path) {
        Some(ext) => text::same_text(ext.as_str(), "mp4") || text::same_text(ext.as_str(), "mov")
            || text::same_text(ext.as_str(), "webm"),
        None => false,
    };
    if known {
        Ok(false)
    } else {
        Err(error::format_error("invalid video extension"))
    }
}

/// Judges a media file by whether it decodes as an image.
pub fn judge_image_file(decoded: std::result::Result<(), String>) -> (r: Result<()>)
    ensures
        match decoded {
            Ok(_) => r is Ok,
            Err(why) => r matches Err(e) && error::is_format_error(e, "invalid image: "@ + why@),
        },
{
    match decoded {
        Ok(_) => Ok(()),
        Err(why) => Err(Error::FormatError(text::join2("invalid image: ", why.as_str()))),
    }
}

/// Whether bytes begin like an image of a known format.
pub uninterp spec fn recognised(contents: Seq<u8>) -> bool;

/// Whether bytes decode as an image of the format that the extension of a path names, or why they do
/// not.
pub uninterp spec fn decoded_by_name(path: Seq<char>, contents: Seq<u8>) -> std::result::Result<
    (),
    Seq<char>,
>;

/// `image::guess_format`: whether the bytes begin with the signature of a format. It is a function of
/// the bytes alone.
#[verifier::external_body]
fn recognise(contents: &Vec<u8>) -> (r: bool)
    ensures
        r == recognised(contents@),
{
    image::guess_format(contents.as_slice()).is_ok()
}

/// `image::load_from_memory_with_format`, with the format that `image::ImageFormat::from_path` gives
/// for the path. Whether both succeed, and the text of the error, are functions of path and bytes
/// alone; no decoding hooks are registered here.
#[verifier::external_body]
fn decode_by_name(path: &str, contents: &Vec<u8>) -> (r: std::result::Result<(), String>)
    ensures
        match r {
            Ok(_) => decoded_by_name(path@, contents@) == Ok::<(), Seq<char>>(()),
            Err(why) => decoded_by_name(path@, contents@) == Err::<(), Seq<char>>(why@),
        },
{
    image::ImageFormat::from_path(path)
        .and_then(|format| image::load_from_memory_with_format(contents.as_slice(), format))
        .map(|_| ())
        .map_err(|e| e.to_string())
}

/// Whether a path has an extension that is not empty.
pub open spec fn has_extension(path: Seq<char>) -> bool {
    match paths::extension_of(path) {
        Some(ext) => ext.len() > 0,
        None => false,
    }
}

/// Whether the contents of a file decode as an image, or why they do not: what they begin with tells
/// their format, and the extension does where that tells none.
pub open spec fn decoded_file(path: Seq<char>, contents: Seq<u8>) -> std::result::Result<
    (),
    Seq<char>,
> {
    if has_extension(path) && !recognised(contents) {
        decoded_by_name(path, contents)
    } else {
        decoded_image(contents)
    }
}

/// How the contents of a file are decoded.
#[derive(Debug, Clone, Copy, PartialEq, Eq, Structural)]
pub enum Decoding {
    /// By what they begin with.
    BySignature,
    /// By the extension of the file.
    ByName,
}

/// Decides how the contents of a file are decoded, by whether they begin like an image.
pub fn decoding_of(path: &str, recognised: bool) -> (r: Decoding)
    ensures
        r == if has_extension(path@) && !recognised {
            Decoding::ByName
        } else {
            Decoding::BySignature
        },
{
    let named = match paths::extension(path) {
        Some(ext) => !ext.as_str().is_empty(),
        None => false,
    };
    if named && !recognised {
        Decoding::ByName
    } else {
        Decoding::BySignature
    }
}

/// Decodes the contents of a file.
fn decode_file(path: &str, contents: &Vec<u8>) -> (r: std::result::Result<(), String>)
    ensures
        match r {
            Ok(_) => decoded_file(path@, contents@) == Ok::<(), Seq<char>>(()),
            Err(why) => decoded_file(path@, contents@) == Err::<(), Seq<char>>(why@),
        },
{
    match decoding_of(path, recognise(contents)) {
        Decoding::ByName => decode_by_name(path, contents),
        Decoding::BySignature => decode_image(contents),
    }
}

/// Why a media file is refused, by its name, its type and its contents.
pub open spec fn file_fault(
    path: Seq<char>,
    media_type: Seq<char>,
    contents: Seq<u8>,
    max_bytes: u64,
) -> Option<Seq<char>> {
    if contents.len() == 0 || contents.len() > max_bytes {
        Some("media file size is invalid"@)
    } else if media_type != "video"@ {
        match decoded_file(path, contents) {
            Ok(_) => None,
            Err(why) => Some("invalid image: "@ + why),
        }
    } else {
        let ext = paths::extension_of(path);
        if ext == Some("mp4"@) || ext == Some("mov"@) || ext == Some("webm"@) {
            None
        } else {
            Some("invalid video extension"@)
        }
    }
}

/// Judges a media file: it must be neither empty nor too large, an image must decode, and a video
/// must have a known extension.
pub fn validate_media_contents(
    path: &str,
    media_type: &str,
    contents: &Vec<u8>,
    max_bytes: u64,
) -> (r: Result<()>)
    ensures
        match file_fault(path@, media_type@, contents@, max_bytes) {
            Some(why) => r matches Err(e) && error::is_format_error(e, why),
            None => r is Ok,
        },
{
    let size: usize = contents.len();
    match validate_media_file(path, media_type, size as u64, max_bytes) {
        Ok(image) => if image {
            judge_image_file(decode_file(path, contents))
        } else {
            Ok(())
        },
        Err(e) => Err(e),
    }
}

/// How a complete download takes its place.
#[derive(Debug, Clone, Copy, PartialEq, Eq, Structural)]
pub enum PlaceStep {
    /// Rename the download to its place.
    Rename,
    /// A valid file has the place: remove the download.
    KeepExisting,
    /// An invalid file has the place: remove it, and rename the download.
    ReplaceExisting,
}

/// How a complete download takes its place, by what is there: nothing, or a file that is valid or
/// not.
pub fn place_step(existing_valid: Option<bool>) -> (r: PlaceStep)
    ensures
        r == match existing_valid {
            None => PlaceStep::Rename,
            Some(valid) => if valid {
                PlaceStep::KeepExisting
            } else {
                PlaceStep::ReplaceExisting
            },
        },
{
    match existing_valid {
        None => PlaceStep::Rename,
        Some(valid) => if valid {
            PlaceStep::KeepExisting
        } else {
            PlaceStep::ReplaceExisting
        },
    }
}

/// What is recorded of a finished download.
pub fn complete_claim_from_file(
    relative: &str,
    content_type: Option<String>,
    length: u64,
    updated_at: &str,
) -> (r: MediaDownloadCompletion)
    ensures
        r.local_path@ == text::with_char(relative@, '\\', '/'),
        r.content_type == content_type,
        r.content_length == if length > i64::MAX {
            i64::MAX as int
        } else {
            length as int
        },
        r.updated_at@ == updated_at@,
{
    MediaDownloadCompletion {
        local_path: path_for_database(relative),
        content_type,
        content_length: if length > i64::MAX as u64 {
            i64::MAX
        } else {
            length as i64
        },
        updated_at: updated_at.to_owned(),
    }
}

/// Checks that a finished download was still claimed by this worker.
pub fn check_completed(completed: bool) -> (r: Result<()>)
    ensures
        if completed {
            r is Ok
        } else {
            r matches Err(e) && error::is_inconsistent(e, "media claim became stale"@)
        },
{
    if completed {
        Ok(())
    } else {
        Err(error::inconsistent("media claim became stale"))
    }
}

/// The shortest base of the wait after a failure, in milliseconds.
pub const MIN_RETRY_BASE_MS: u64 = 10;

/// The longest wait after a failure, in milliseconds.
pub const MAX_RETRY_DELAY_MS: u64 = 30_000;

/// Two to the power of the failures, up to six.
pub open spec fn retry_factor(failures: u32) -> int {
    if failures == 0 {
        1
    } else if failures == 1 {
        2
    } else if failures == 2 {
        4
    } else if failures == 3 {
        8
    } else if failures == 4 {
        16
    } else if failures == 5 {
        32
    } else {
        64
    }
}

/// How long the worker waits after so many failures in a row, in milliseconds.
pub open spec fn retry_delay(poll_interval_ms: u64, failures: u32) -> int {
    let base = if poll_interval_ms >= MIN_RETRY_BASE_MS {
        poll_interval_ms as int
    } else {
        MIN_RETRY_BASE_MS as int
    };
    if base * retry_factor(failures) <= MAX_RETRY_DELAY_MS {
        base * retry_factor(failures)
    } else {
        MAX_RETRY_DELAY_MS as int
    }
}

/// Counts a failure of the worker and gives the wait until it is tried again.
pub fn supervise_pipeline(poll_interval_ms: u64, failures: &mut u32) -> (r: u64)
    ensures
        *final(failures) == if *old(failures) == u32::MAX {
            u32::MAX
        } else {
            (*old(failures) + 1) as u32
        },
        r == retry_delay(poll_interval_ms, *final(failures)),
{
    *failures = (*failures).saturating_add(1);
    let n: u32 = *failures;
    let factor: u64 = if n == 0 {
        1
    } else if n == 1 {
        2
    } else if n == 2 {
        4
    } else if n == 3 {
        8
    } else if n == 4 {
        16
    } else if n == 5 {
        32
    } else {
        64
    };
    let base: u64 = if poll_interval_ms >= MIN_RETRY_BASE_MS {
        poll_interval_ms
    } else {
        MIN_RETRY_BASE_MS
    };
    proof {
        assert(base > 30_000 ==> base * factor > 30_000) by (nonlinear_arith)
            requires
                factor >= 1,
        ;
    }
    if base > 30_000 {
        return MAX_RETRY_DELAY_MS;
    }
    proof {
        assert(base * factor <= 1_920_000) by (nonlinear_arith)
            requires
                base <= 30_000,
                1 <= factor <= 64,
        ;
    }
    let delay: u64 = base * factor;
    if delay <= 30_000 {
        delay
    } else {
        MAX_RETRY_DELAY_MS
    }
}

/// How the worker ended, by how its task was joined.
pub fn worker_join_summary(
    joined: std::result::Result<std::result::Result<(), String>, String>,
) -> (r: MediaWorkerSummary)
    ensures
        r == match joined {
            Ok(Ok(_)) => MediaWorkerSummary { stopped: true, join_failed: None },
            Ok(Err(why)) => MediaWorkerSummary { stopped: false, join_failed: Some(why) },
            Err(why) => MediaWorkerSummary { stopped: false, join_failed: Some(why) },
        },
{
    match joined {
        Ok(Ok(_)) => MediaWorkerSummary { stopped: true, join_failed: None },
        Ok(Err(why)) => MediaWorkerSummary { stopped: false, join_failed: Some(why) },
        Err(why) => MediaWorkerSummary { stopped: false, join_failed: Some(why) },
    }
}

} // verus!
