//! Media: what may be fetched, how it is named and judged, and when it is tried again.
use vstd::prelude::*;

use crate::error::{Error, Result};
use crate::hash;
use crate::media_pipeline;
use crate::media_pipeline::{
    begin_preview, bounded_retry_count, check_completed, complete_claim_from_file,
    content_type_for_path, decoding_of, deterministic_file_prefix, deterministic_relative_path,
    directory_of, extend_preview, fetch_preview, is_part_file, is_preview_content_type, is_public,
    is_sensitive_url_key, judge_image_file, judge_preview, normalize_preview_content_type,
    part_path, path_for_database, place_step, preview_max_bytes, repair_from_existing_final,
    resolved_addresses, supervise_pipeline, validate_media_contents, validate_media_file,
    worker_join_summary, Decoding, MediaDownloadCompletion, MediaPipeline, MediaPreview,
    MediaTarget, MediaWorkerSummary, PlaceStep, RedirectChain,
};
use crate::paths;
use crate::text;
use crate::web;
use crate::web::{Address, UrlHost, UrlParts};

verus! {

/// Whether a result is a format error with the given words.
pub open spec fn faulted<T>(r: Result<T>, words: Seq<char>) -> bool {
    r matches Err(Error::FormatError(m)) && m@ == words
}

/// A retry count stays between none and five, in order, and a count within these bounds is kept.
pub proof fn retries_are_bounded(a: i64, b: i64, r: i64, s: i64)
    requires
        a <= b,
        call_ensures(bounded_retry_count, (a,), r),
        call_ensures(bounded_retry_count, (b,), s),
    ensures
        0 <= r <= s <= 5,
        0 <= a <= 5 ==> r == a,
        b <= 0 ==> s == 0,
        a >= 5 ==> r == 5,
{
}

/// Whether the letters and digits of a query key hold a word for a credential.
pub open spec fn names_credential(key: Seq<char>) -> bool {
    let k = text::lower(text::alphanumerics(key));
    ||| k == "sub"@
    ||| text::has_part(k, "auth"@)
    ||| text::has_part(k, "cookie"@)
    ||| text::has_part(k, "credential"@)
    ||| text::has_part(k, "gsid"@)
    ||| text::has_part(k, "passport"@)
    ||| text::has_part(k, "password"@)
    ||| text::has_part(k, "secret"@)
    ||| text::has_part(k, "session"@)
    ||| text::has_part(k, "signature"@)
    ||| text::has_part(k, "token"@)
    ||| text::has_part(k, "xsrf"@)
}

proof fn lemma_sensitive(key: Seq<char>)
    ensures
        media_pipeline::sensitive_key(key) == names_credential(key),
{
    let w = media_pipeline::sensitive_words();
    assert(w[0] == "auth"@ && w[1] == "cookie"@ && w[2] == "credential"@ && w[3] == "gsid"@ && w[4]
        == "passport"@ && w[5] == "password"@ && w[6] == "secret"@ && w[7] == "session"@ && w[8]
        == "signature"@ && w[9] == "token"@ && w[10] == "xsrf"@);
}

/// A query key is sensitive exactly if it names a credential, and two keys with the same letters
/// and digits are judged alike.
pub proof fn credentials_are_sensitive(key: &str, other: &str, r: bool, s: bool)
    requires
        call_ensures(is_sensitive_url_key, (key,), r),
        call_ensures(is_sensitive_url_key, (other,), s),
    ensures
        r == names_credential(key@),
        text::lower(text::alphanumerics(key@)) == text::lower(text::alphanumerics(other@)) ==> r
            == s,
{
    lemma_sensitive(key@);
    lemma_sensitive(other@);
}

/// Addresses of version 4 are public unless one of the special blocks holds them.
pub proof fn special_blocks_are_not_public(o: [u8; 4], r: bool)
    requires
        call_ensures(is_public, (Address::V4(o),), r),
    ensures
        o@[0] == 0 || o@[0] == 10 || o@[0] == 127 || o@[0] >= 224 ==> !r,
        o@[0] == 100 && 64 <= o@[1] <= 127 ==> !r,
        o@[0] == 169 && o@[1] == 254 ==> !r,
        o@[0] == 172 && 16 <= o@[1] <= 31 ==> !r,
        o@[0] == 192 && o@[1] == 168 ==> !r,
        o@[0] == 192 && o@[1] == 0 && (o@[2] == 0 || o@[2] == 2) ==> !r,
        o@[0] == 198 && 18 <= o@[1] <= 19 ==> !r,
        o@[0] == 198 && o@[1] == 51 && o@[2] == 100 ==> !r,
        o@[0] == 203 && o@[1] == 0 && o@[2] == 113 ==> !r,
        0 < o@[0] < 224 && o@[0] != 10 && o@[0] != 100 && o@[0] != 127 && o@[0] != 169 && o@[0]
            != 172 && o@[0] != 192 && o@[0] != 198 && o@[0] != 203 ==> r,
        o@[0] == 100 && !(64 <= o@[1] <= 127) ==> r,
        o@[0] == 169 && o@[1] != 254 ==> r,
        o@[0] == 172 && !(16 <= o@[1] <= 31) ==> r,
        o@[0] == 192 && o@[1] != 168 && o@[1] != 0 ==> r,
        o@[0] == 192 && o@[1] == 0 && o@[2] != 0 && o@[2] != 2 ==> r,
        o@[0] == 198 && !(18 <= o@[1] <= 19) && o@[1] != 51 ==> r,
        o@[0] == 198 && o@[1] == 51 && o@[2] != 100 ==> r,
        o@[0] == 203 && (o@[1] != 0 || o@[2] != 113) ==> r,
{
}

/// An address of version 4 is judged alike in whichever version it is written.
pub proof fn mapped_addresses_are_judged_alike(o: [u8; 4], s: [u16; 8], r: bool, m: bool)
    requires
        call_ensures(is_public, (Address::V4(o),), r),
        call_ensures(is_public, (Address::V6(s),), m),
        forall|i: int| 0 <= i < 5 ==> #[trigger] s@[i] == 0,
        s@[5] == 0xffff,
        s@[6] == o@[0] * 256 + o@[1],
        s@[7] == o@[2] * 256 + o@[3],
    ensures
        r == m,
{
    assert(media_pipeline::mapped(s@));
    assert(media_pipeline::unmapped(s@) =~= o@);
}

/// Addresses of version 6 that stand for none of version 4 are public unless a special block holds
/// them.
pub proof fn special_segments_are_not_public(s: [u16; 8], r: bool)
    requires
        call_ensures(is_public, (Address::V6(s),), r),
    ensures
        (forall|i: int| 0 <= i < 7 ==> #[trigger] s@[i] == 0) && s@[7] <= 1 ==> !r,
        s@[0] >= 0xfe80 ==> !r || 0xfec0 > s@[0] > 0xfebf,
        0xfc00 <= s@[0] <= 0xfdff ==> !r,
        s@[0] == 0x2001 && s@[1] == 0x0db8 ==> !r,
        0 < s@[0] < 0xfc00 && !(s@[0] == 0x2001 && s@[1] == 0x0db8) ==> r,
        0xfdff < s@[0] < 0xfe80 ==> r,
{
    if forall|i: int| 0 <= i < 7 ==> #[trigger] s@[i] == 0 {
        assert(s@[0] == 0 && s@[1] == 0 && s@[2] == 0 && s@[3] == 0 && s@[4] == 0 && s@[5] == 0
            && s@[6] == 0);
    }
}

/// Without permission for private networks a host is accepted exactly if all its addresses are
/// public; with it, whatever they are. A host without an address is refused.
pub proof fn hosts_are_judged_by_every_address(
    pipeline: MediaPipeline,
    addresses: Vec<Address>,
    verdicts: Seq<bool>,
    r: Result<()>,
    found: Result<Vec<Address>>,
)
    requires
        verdicts.len() == addresses@.len(),
        forall|i: int|
            0 <= i < verdicts.len() ==> call_ensures(
                is_public,
                (addresses@[i],),
                #[trigger] verdicts[i],
            ),
        call_ensures(MediaPipeline::check_addresses, (&pipeline, &addresses), r),
        call_ensures(resolved_addresses, (addresses,), found),
    ensures
        pipeline.config.allow_private_network ==> r is Ok,
        !pipeline.config.allow_private_network ==> (r is Ok <==> forall|i: int|
            0 <= i < verdicts.len() ==> #[trigger] verdicts[i]),
        r is Err ==> faulted(r, "media host resolved to a non-public address"@),
        addresses@.len() == 0 ==> faulted(found, "media host resolved no addresses"@),
        addresses@.len() > 0 ==> (found matches Ok(list) && list@ == addresses@),
{
    if !pipeline.config.allow_private_network {
        if forall|i: int| 0 <= i < verdicts.len() ==> #[trigger] verdicts[i] {
            assert forall|i: int| 0 <= i < addresses@.len() implies media_pipeline::public_address(
                #[trigger] addresses@[i],
            ) by {
                assert(verdicts[i]);
            }
        } else {
            let i = choose|i: int| 0 <= i < verdicts.len() && !#[trigger] verdicts[i];
            assert(!media_pipeline::public_address(addresses@[i]));
        }
    }
}

/// Whether the scheme of a URL may be fetched.
pub open spec fn scheme_allowed(pipeline: MediaPipeline, parts: UrlParts) -> bool {
    parts.scheme@ == "https"@ || (pipeline.config.allow_http && parts.scheme@ == "http"@)
}

/// Whether a URL carries no user, no fragment and no credential in its query.
pub open spec fn carries_no_secret(parts: UrlParts) -> bool {
    &&& parts.username@.len() == 0
    &&& !parts.has_password
    &&& !parts.has_fragment
    &&& forall|i: int|
        0 <= i < parts.query_keys@.len() ==> !names_credential((#[trigger] parts.query_keys@[i])@)
}

/// Whether a URL names the machine itself.
pub open spec fn names_this_machine(parts: UrlParts) -> bool {
    parts.host_text matches Some(h) && (text::lower(h@) == "localhost"@ || text::has_suffix(
        h@,
        ".localhost"@,
    ))
}

/// A URL with an allowed scheme, without secrets, with a port and a named host that is not this
/// machine may be fetched from that host and port; a URL that misses one of these may not.
pub proof fn plain_urls_may_be_fetched(
    pipeline: MediaPipeline,
    parts: UrlParts,
    r: Result<MediaTarget>,
)
    requires
        call_ensures(MediaPipeline::check_url, (&pipeline, &parts), r),
    ensures
        r is Ok <==> scheme_allowed(pipeline, parts) && carries_no_secret(parts)
            && parts.host_text is Some && !names_this_machine(parts) && parts.port is Some
            && parts.host is Some && (parts.host->Some_0 is Domain
            || pipeline.config.allow_private_network),
        r matches Ok(MediaTarget::Lookup { domain, port }) ==> parts.port == Some(port) && (
        parts.host matches Some(UrlHost::Domain(d)) && d@ == domain@),
        r matches Ok(MediaTarget::Literal { address, port }) ==> parts.port == Some(port) && (
        parts.host matches Some(UrlHost::Literal(a)) && (match (a, address) {
            (Address::V4(x), Address::V4(y)) => x@ == y@,
            (Address::V6(x), Address::V6(y)) => x@ == y@,
            _ => false,
        })),
        !scheme_allowed(pipeline, parts) ==> faulted(r, "media URL must use HTTPS"@),
        scheme_allowed(pipeline, parts) && (parts.username@.len() > 0 || parts.has_password)
            ==> faulted(r, "media URL must not contain userinfo"@),
        scheme_allowed(pipeline, parts) && parts.username@.len() == 0 && !parts.has_password
            && !carries_no_secret(parts) ==> faulted(
            r,
            "media URL must not contain sensitive credentials"@,
        ),
        scheme_allowed(pipeline, parts) && carries_no_secret(parts) && names_this_machine(parts)
            ==> faulted(r, "localhost media URL is forbidden"@),
        scheme_allowed(pipeline, parts) && carries_no_secret(parts) && parts.host_text is None
            ==> faulted(r, "media URL has no host"@),
        scheme_allowed(pipeline, parts) && carries_no_secret(parts) && parts.host_text is Some
            && !names_this_machine(parts) && parts.port is None ==> faulted(
            r,
            "media URL has no usable port"@,
        ),
        scheme_allowed(pipeline, parts) && carries_no_secret(parts) && parts.host_text is Some
            && !names_this_machine(parts) && parts.port is Some && (
        parts.host matches Some(UrlHost::Literal(_)))
            && !pipeline.config.allow_private_network ==> faulted(
            r,
            "literal media host is forbidden"@,
        ),
{
    let keys = parts@.query_keys;
    assert forall|i: int| 0 <= i < keys.len() implies media_pipeline::sensitive_key(
        #[trigger] keys[i],
    ) == names_credential(parts.query_keys@[i]@) by {
        lemma_sensitive(keys[i]);
    }
    if forall|i: int|
        0 <= i < parts.query_keys@.len() ==> !names_credential(
            (#[trigger] parts.query_keys@[i])@,
        ) {
        assert forall|i: int| 0 <= i < keys.len() implies !media_pipeline::sensitive_key(
            #[trigger] keys[i],
        ) by {
            assert(!names_credential(parts.query_keys@[i]@));
        }
    } else {
        let i = choose|i: int|
            0 <= i < parts.query_keys@.len() && names_credential((#[trigger] parts.query_keys@[i])@);
        assert(media_pipeline::sensitive_key(keys[i]));
    }
}

/// A URL given as text is judged as its parts are, and fetched in its normal form.
pub proof fn texts_are_judged_by_their_parts(
    pipeline: MediaPipeline,
    raw: &str,
    parts: UrlParts,
    whole: Result<(String, MediaTarget)>,
    r: Result<MediaTarget>,
)
    requires
        web::parsed_url(raw@) == Ok::<web::UrlView, Seq<char>>(parts@),
        call_ensures(MediaPipeline::validate_url, (&pipeline, raw), whole),
        call_ensures(MediaPipeline::check_url, (&pipeline, &parts), r),
    ensures
        whole is Ok <==> r is Ok,
        whole matches Ok((url, _)) ==> url@ == parts.text@,
        (whole matches Ok((_, MediaTarget::Lookup { .. }))) <==> (r matches Ok(
            MediaTarget::Lookup { .. },
        )),
        r matches Err(Error::FormatError(m)) ==> faulted(whole, m@),
{
}

/// A download stays within its limit: what is declared or received beyond it is refused, and
/// what is received within it is counted.
pub proof fn downloads_stay_within_their_limit(
    pipeline: MediaPipeline,
    declared: Option<u64>,
    received: u64,
    chunk: u64,
    d: Result<()>,
    r: Result<u64>,
)
    requires
        call_ensures(MediaPipeline::check_declared_length, (&pipeline, declared), d),
        call_ensures(MediaPipeline::add_chunk, (&pipeline, received, chunk), r),
    ensures
        d is Ok <==> (declared matches Some(n) ==> n <= pipeline.config.max_bytes),
        d is Err ==> faulted(d, "media exceeds configured maximum size"@),
        received + chunk <= pipeline.config.max_bytes ==> r == Ok::<u64, Error>(
            (received + chunk) as u64,
        ),
        received + chunk > pipeline.config.max_bytes && pipeline.config.max_bytes < u64::MAX
            ==> faulted(r, "media exceeds configured maximum size"@),
        r matches Ok(n) ==> n <= pipeline.config.max_bytes,
{
}

/// A request follows its redirects one by one and never more than the limit: a response that is no
/// redirect ends it, and a redirect without a place to go, beyond the limit or of an unknown kind
/// is refused. What is refused leaves the request where it was.
pub proof fn redirects_are_limited(
    chain: &mut RedirectChain,
    raw: &str,
    made: RedirectChain,
    limit: u64,
    status: u16,
    url: &str,
    location: Option<&str>,
    r: Result<bool>,
)
    requires
        call_ensures(RedirectChain::new, (raw,), made),
        call_ensures(RedirectChain::on_response, (chain, limit, status, url, location), r),
    ensures
        made.current@ == raw@ && made.followed == 0,
        status < 300 || status > 399 ==> r == Ok::<bool, Error>(true) && *final(chain) == *old(
            chain,
        ),
        300 <= status <= 399 ==> !(r matches Ok(true)),
        r is Err ==> *final(chain) == *old(chain),
        r matches Ok(false) ==> old(chain).followed < limit && final(chain).followed == old(
            chain,
        ).followed + 1 && (status == 301 || status == 302 || status == 303 || status == 307
            || status == 308) && (location matches Some(to) && web::joined_url(url@, to@) == Ok::<
            Seq<char>,
            Seq<char>,
        >(final(chain).current@)),
        300 <= status <= 399 && old(chain).followed >= limit ==> faulted(
            r,
            "media redirect limit exceeded"@,
        ),
        (status == 300 || status == 304 || status == 305 || status == 306 || 309 <= status <= 399)
            && old(chain).followed < limit ==> faulted(r, "unsupported media redirect"@),
        (status == 301 || status == 302 || status == 303 || status == 307 || status == 308) && old(
            chain,
        ).followed < limit && location is None ==> faulted(
            r,
            "media redirect has no valid location"@,
        ),
        (status == 301 || status == 302 || status == 303 || status == 307 || status == 308) && old(
            chain,
        ).followed < limit && (location matches Some(to) && web::joined_url(url@, to@) is Ok)
            ==> r is Ok,
{
}

/// A preview is of a type that suits its kind: one of three for videos, one of four for anything
/// else, judged without parameters, blanks and case. Its declared length is not zero and within eight
/// mebibytes.
pub proof fn previews_have_a_suitable_type(
    length: Option<u64>,
    header: &str,
    media_type: &str,
    limit: u64,
    bare: Option<String>,
    judged: &str,
    known: bool,
    r: Result<String>,
    missing: Result<String>,
)
    requires
        call_ensures(preview_max_bytes, (media_type,), limit),
        call_ensures(normalize_preview_content_type, (header,), bare),
        bare matches Some(b) ==> b@ == judged@,
        call_ensures(is_preview_content_type, (judged, media_type), known),
        call_ensures(begin_preview, (length, Some(header), media_type), r),
        call_ensures(begin_preview, (None, None, media_type), missing),
    ensures
        limit == 8 * 1024 * 1024,
        bare matches Some(b) ==> b@ == text::lower(text::trim_of(text::before_char(header@, ';')))
            && 0 < b@.len() && vstd::utf8::encode_utf8(b@).len() <= 128,
        r is Ok ==> bare is Some && known && (length matches Some(n) ==> 0 < n <= 8 * 1024 * 1024),
        bare is Some && known && (length matches Some(n) ==> 0 < n <= limit) ==> (
        r matches Ok(content_type) && content_type@ == bare->Some_0@),
        (length matches Some(n) && (n == 0 || n > limit)) ==> faulted(
            r,
            "media preview size is invalid"@,
        ),
        r is Err && (length matches Some(n) ==> 0 < n <= limit) ==> faulted(
            r,
            "media preview has invalid content type"@,
        ),
        faulted(missing, "media preview has invalid content type"@),
{
}

/// Which types can be previewed.
pub proof fn known_types_can_be_previewed(content_type: &str, media_type: &str, r: bool)
    requires
        call_ensures(is_preview_content_type, (content_type, media_type), r),
    ensures
        media_type@ == "video"@ ==> (r <==> content_type@ == "video/mp4"@ || content_type@
            == "video/webm"@ || content_type@ == "video/quicktime"@),
        media_type@ != "video"@ ==> (r <==> content_type@ == "image/jpeg"@ || content_type@
            == "image/png"@ || content_type@ == "image/gif"@ || content_type@ == "image/webp"@),
{
}

/// A preview grows by what is received, as long as it stays within its limit; what is beyond it
/// leaves the preview as it was.
pub proof fn previews_grow_within_their_limit(
    bytes: &mut Vec<u8>,
    chunk: Vec<u8>,
    media_type: &str,
    limit: u64,
    r: Result<()>,
)
    requires
        call_ensures(preview_max_bytes, (media_type,), limit),
        call_ensures(extend_preview, (bytes, &chunk), r),
    ensures
        r is Ok <==> old(bytes)@.len() + chunk@.len() <= limit,
        r is Ok ==> final(bytes)@ == old(bytes)@ + chunk@,
        r is Err ==> final(bytes)@ == old(bytes)@ && faulted(r, "media preview exceeds size limit"@),
{
}

/// A preview that is not empty is handed out as it was received if it decodes or is a video; what
/// does not decode is refused with the reason.
pub proof fn previews_are_handed_out_as_received(
    content_type: String,
    bytes: Vec<u8>,
    media_type: &str,
    decoded: std::result::Result<(), String>,
    r: Result<MediaPreview>,
    whole: Result<MediaPreview>,
)
    requires
        call_ensures(judge_preview, (content_type, bytes, media_type, decoded), r),
        call_ensures(fetch_preview, (content_type, bytes, media_type), whole),
    ensures
        r is Ok <==> bytes@.len() > 0 && (media_type@ == "video"@ || decoded is Ok),
        r matches Ok(preview) ==> preview.content_type == content_type && preview.bytes == bytes,
        bytes@.len() == 0 ==> faulted(r, "media preview is empty"@) && faulted(
            whole,
            "media preview is empty"@,
        ),
        bytes@.len() > 0 && media_type@ != "video"@ && (decoded matches Err(why)) ==> faulted(
            r,
            "invalid preview image: "@ + decoded->Err_0@,
        ),
        bytes@.len() > 0 && media_type@ == "video"@ ==> whole is Ok,
        bytes@.len() > 0 && media_type@ != "video"@ ==> (whole is Ok
            <==> media_pipeline::decoded_image(bytes@) is Ok),
        whole matches Ok(preview) ==> preview.content_type == content_type && preview.bytes
            == bytes,
{
}

proof fn lemma_hex(n: nat, width: nat)
    ensures
        text::hex(n, width).len() == width,
        forall|i: int|
            0 <= i < width ==> '0' <= #[trigger] text::hex(n, width)[i] <= '9' || 'a' <= text::hex(
                n,
                width,
            )[i] <= 'f',
    decreases width,
{
    if width > 0 {
        lemma_hex(n / 16, (width - 1) as nat);
        let before = text::hex(n / 16, (width - 1) as nat);
        let whole = text::hex(n, width);
        assert forall|i: int| 0 <= i < width implies '0' <= #[trigger] whole[i] <= '9' || 'a'
            <= whole[i] <= 'f' by {
            if i < before.len() {
                assert(whole[i] == before[i]);
            }
        }
    }
}

/// The last dot of a name that is followed by none is found.
pub proof fn last_dots_are_found(a: Seq<char>, b: Seq<char>)
    requires
        a.len() > 0,
        a.last() == '.',
        forall|i: int| 0 <= i < b.len() ==> #[trigger] b[i] != '.',
    ensures
        paths::last_dot(a + b) == Some(a.len() - 1),
    decreases b.len(),
{
    let whole = a + b;
    if b.len() == 0 {
        assert(whole == a);
    } else {
        assert(whole.last() == b[b.len() - 1]);
        assert(whole.drop_last() == a + b.drop_last());
        last_dots_are_found(a, b.drop_last());
    }
}

/// What a prefix of file names looks like: it begins with no separator, holds none, and ends with
/// a dot.
proof fn lemma_prefix(id: i64, url: Seq<char>)
    ensures
        ({
            let p = media_pipeline::file_prefix(id, url);
            &&& p.len() > 2
            &&& p.last() == '.'
            &&& forall|i: int| 0 <= i < p.len() ==> #[trigger] p[i] != '/'
        }),
{
    reveal_strlit("-");
    reveal_strlit(".");
    let p = media_pipeline::file_prefix(id, url);
    let n = text::signed_decimal(id as int);
    let h = text::hex(hash::fnv1a_of(vstd::utf8::encode_utf8(url)) as nat, 16);
    lemma_hex(hash::fnv1a_of(vstd::utf8::encode_utf8(url)) as nat, 16);
    if id < 0 {
        text::decimal_denotes((-(id as int)) as nat);
    } else {
        text::decimal_denotes(id as nat);
    }
    assert forall|i: int| 0 <= i < n.len() implies #[trigger] n[i] != '/' by {
        if id < 0 && i > 0 {
            assert(n[i] == text::decimal((-(id as int)) as nat)[i - 1]);
        }
    }
    assert forall|i: int| 0 <= i < p.len() implies #[trigger] p[i] != '/' by {
        if i < n.len() {
            assert(p[i] == n[i]);
        } else if i > n.len() && i < n.len() + 1 + h.len() {
            assert(p[i] == h[i - n.len() - 1]);
        }
    }
}

/// A file in one of the two directories of media, named by a prefix and an extension.
proof fn lemma_media_path(directory: Seq<char>, prefix: Seq<char>, ext: Seq<char>)
    requires
        directory == "videos"@ || directory == "pictures"@,
        prefix.len() > 1,
        prefix.last() == '.',
        forall|i: int| 0 <= i < prefix.len() ==> #[trigger] prefix[i] != '/',
        ext.len() > 0,
        forall|i: int| 0 <= i < ext.len() ==> #[trigger] ext[i] != '/' && ext[i] != '.',
    ensures
        paths::joined(directory, prefix + ext) == directory + "/"@ + prefix + ext,
        paths::file_name_of(paths::joined(directory, prefix + ext)) == Some(prefix + ext),
        paths::extension_of(paths::joined(directory, prefix + ext)) == Some(ext),
{
    reveal_strlit("videos");
    reveal_strlit("pictures");
    reveal_strlit("/");
    reveal_strlit(".");
    reveal_strlit("..");
    let name = prefix + ext;
    assert(!directory.contains('/'));
    assert(name.len() > 2);
    assert forall|i: int| 0 <= i < name.len() implies #[trigger] name[i] != '/' by {
        if i < prefix.len() {
            assert(name[i] == prefix[i]);
        } else {
            assert(name[i] == ext[i - prefix.len()]);
        }
    }
    assert(!name.contains('/'));
    assert(paths::is_name(name));
    assert(paths::is_name(directory));
    let nothing = Seq::<char>::empty();
    paths::joining_a_name_extends(nothing, directory);
    assert(paths::joined(nothing, directory) == directory);
    paths::joining_a_name_extends(directory, name);
    assert(paths::joined(directory, name) =~= directory + "/"@ + prefix + ext);
    last_dots_are_found(prefix, ext);
    assert(name.subrange(prefix.len() as int, name.len() as int) == ext);
}

/// The extension that goes with a content type, for the types that have one of their own.
pub open spec fn extension_for(bare: Seq<char>) -> Option<Seq<char>> {
    if bare == "image/png"@ {
        Some("png"@)
    } else if bare == "image/gif"@ {
        Some("gif"@)
    } else if bare == "image/webp"@ {
        Some("webp"@)
    } else if bare == "image/jpeg"@ {
        Some("jpg"@)
    } else if bare == "video/webm"@ {
        Some("webm"@)
    } else if bare == "video/quicktime"@ {
        Some("mov"@)
    } else if bare == "video/mp4"@ {
        Some("mp4"@)
    } else {
        None
    }
}

/// The file of a download is found again by its row, and its name tells its type: what was
/// stored under one of the known content types is read back under the same one. Videos and pictures
/// have a directory each.
pub proof fn stored_types_read_back(
    id: i64,
    url: &str,
    media_type: &str,
    content_type: &str,
    directory: String,
    prefix: String,
    path: String,
    stored: &str,
    name: &str,
    found: bool,
    read: Option<String>,
    part: String,
    partial: &str,
    left_over: bool,
    done_left_over: bool,
)
    requires
        media_type@ == "video"@ <==> text::has_prefix(content_type@, "video/"@),
        text::before_char(content_type@, ';') == content_type@,
        extension_for(content_type@) is Some,
        call_ensures(directory_of, (media_type,), directory),
        call_ensures(deterministic_file_prefix, (id, url), prefix),
        call_ensures(
            deterministic_relative_path,
            (id, url, media_type, Some(content_type)),
            path,
        ),
        stored@ == path@,
        paths::file_name_of(path@) == Some(name@),
        call_ensures(repair_from_existing_final, (name, id, url), found),
        call_ensures(content_type_for_path, (stored,), read),
        call_ensures(part_path, (stored,), part),
        partial@ == part@,
        call_ensures(is_part_file, (partial,), left_over),
        call_ensures(is_part_file, (stored,), done_left_over),
    ensures
        media_type@ == "video"@ ==> directory@ == "videos"@,
        media_type@ != "video"@ ==> directory@ == "pictures"@,
        path@ == directory@ + "/"@ + prefix@ + extension_for(content_type@)->Some_0,
        found,
        read matches Some(t) && t@ == content_type@,
        part@ == path@ + ".part"@,
        left_over,
        !done_left_over,
{
    let ext = extension_for(content_type@)->Some_0;
    let bare = content_type@;
    reveal_strlit("png");
    reveal_strlit("gif");
    reveal_strlit("webp");
    reveal_strlit("webm");
    reveal_strlit("mov");
    reveal_strlit("mp4");
    reveal_strlit("jpg");
    reveal_strlit("jpeg");
    reveal_strlit("part");
    reveal_strlit(".part");
    reveal_strlit("video/");
    reveal_strlit("image/png");
    reveal_strlit("image/gif");
    reveal_strlit("image/webp");
    reveal_strlit("image/jpeg");
    reveal_strlit("video/webm");
    reveal_strlit("video/quicktime");
    reveal_strlit("video/mp4");
    assert("image/png"@[6] != "image/gif"@[6] && "image/gif"@[6] != "image/webp"@[6]
        && "image/png"@[6] != "image/webp"@[6]);
    assert("image/webp"@[0] != "video/webm"@[0]);
    assert("png"@[0] != "gif"@[0] && "webp"@[3] != "webm"@[3] && "mov"@[1] != "mp4"@[1]
        && "jpg"@[1] != "png"@[1]);
    if bare == "image/jpeg"@ {
        assert(bare[6] != "image/png"@[6]);
        assert(bare[6] != "image/gif"@[6]);
        assert(bare[6] != "image/webp"@[6]);
        if text::has_prefix(bare, "video/"@) {
            assert(bare.subrange(0, 6)[0] == "video/"@[0]);
            assert(false);
        }
    }
    if bare == "video/mp4"@ {
        assert(bare.subrange(0, 6) == "video/"@);
    }
    assert(media_pipeline::media_extension(media_type@, Some(content_type@)) == ext);
    lemma_prefix(id, url@);
    lemma_media_path(directory@, prefix@, ext);
    media_pipeline::stored_file_is_found_again(id, url@, media_type@, Some(content_type@));
    let finished = prefix@ + ext;
    let longer = finished + "."@;
    reveal_strlit(".");
    assert forall|i: int| 0 <= i < longer.len() implies #[trigger] longer[i] != '/' by {
        if i < prefix@.len() {
            assert(longer[i] == prefix@[i]);
        } else if i < finished.len() {
            assert(longer[i] == ext[i - prefix@.len()]);
        }
    }
    lemma_media_path(directory@, longer, "part"@);
    assert(longer + "part"@ =~= finished + ".part"@);
    assert(directory@ + "/"@ + longer + "part"@ =~= directory@ + "/"@ + prefix@ + ext + ".part"@);
    assert(ext.len() != 4 || ext[0] != 'p');
}

/// Files of unknown type are named by their kind: a video of whatever type is one of the most common
/// kind, and so is a picture.
pub proof fn untyped_files_are_named_by_their_kind(
    id: i64,
    url: &str,
    media_type: &str,
    prefix: String,
    path: String,
)
    requires
        call_ensures(deterministic_file_prefix, (id, url), prefix),
        call_ensures(deterministic_relative_path, (id, url, media_type, None), path),
    ensures
        media_type@ == "video"@ ==> path@ == "videos"@ + "/"@ + prefix@ + "mp4"@,
        media_type@ != "video"@ ==> path@ == "pictures"@ + "/"@ + prefix@ + "jpg"@,
{
    reveal_strlit("image/png");
    reveal_strlit("image/gif");
    reveal_strlit("image/webp");
    reveal_strlit("video/webm");
    reveal_strlit("video/quicktime");
    reveal_strlit("video/");
    reveal_strlit("mp4");
    reveal_strlit("jpg");
    lemma_prefix(id, url@);
    let ext = media_pipeline::media_extension(media_type@, None);
    lemma_media_path(media_pipeline::media_directory(media_type@), prefix@, ext);
}

/// The prefix of file names is made of the identifier of the row and the hash of its URL, so that
/// it is the same whenever it is made.
pub proof fn names_are_made_of_row_and_url(
    id: i64,
    url: &str,
    number: String,
    hashed: u64,
    digits: String,
    prefix: String,
)
    requires
        call_ensures(text::i64_text, (id,), number),
        call_ensures(hash::stable_hash, (url,), hashed),
        call_ensures(text::hex_text, (hashed, 16), digits),
        call_ensures(deterministic_file_prefix, (id, url), prefix),
    ensures
        prefix@ == number@ + "-"@ + digits@ + "."@,
{
}

/// A name is taken for a finished download of a row only if it begins with the prefix of the row
/// and is not left over from one that did not complete.
pub proof fn only_finished_files_are_kept(
    name: &str,
    id: i64,
    url: &str,
    prefix: String,
    found: bool,
)
    requires
        call_ensures(deterministic_file_prefix, (id, url), prefix),
        call_ensures(repair_from_existing_final, (name, id, url), found),
    ensures
        found <==> text::has_prefix(name@, prefix@) && !text::has_suffix(name@, ".part"@),
{
}

/// A media file is valid if its size is within the limit and it is either a video with a known
/// extension or an image that decodes.
pub proof fn files_are_judged_by_size_and_kind(
    path: &str,
    media_type: &str,
    contents: Vec<u8>,
    max_bytes: u64,
    ext: Option<String>,
    decodes: Result<bool>,
    whole: Result<()>,
)
    requires
        contents@.len() <= u64::MAX,
        call_ensures(paths::extension, (path,), ext),
        call_ensures(
            validate_media_file,
            (path, media_type, contents@.len() as u64, max_bytes),
            decodes,
        ),
        call_ensures(validate_media_contents, (path, media_type, &contents, max_bytes), whole),
    ensures
        contents@.len() == 0 || contents@.len() > max_bytes ==> faulted(
            decodes,
            "media file size is invalid"@,
        ) && faulted(whole, "media file size is invalid"@),
        0 < contents@.len() <= max_bytes && media_type@ != "video"@ ==> decodes == Ok::<
            bool,
            Error,
        >(true),
        0 < contents@.len() <= max_bytes && media_type@ == "video"@ ==> (decodes is Ok
            <==> whole is Ok) && (whole is Ok <==> (ext matches Some(e) && (e@ == "mp4"@ || e@
            == "mov"@ || e@ == "webm"@))) && (whole is Err ==> faulted(
            decodes,
            "invalid video extension"@,
        ) && faulted(whole, "invalid video extension"@)),
        decodes matches Ok(image) ==> (image <==> media_type@ != "video"@),
{
}

/// An image is accepted exactly if it decodes, and refused with the reason. It is decoded by its
/// name only where its contents do not tell its format and the name has an extension.
pub proof fn images_must_decode(
    decoded: std::result::Result<(), String>,
    r: Result<()>,
    path: &str,
    recognised: bool,
    ext: Option<String>,
    decoding: Decoding,
)
    requires
        call_ensures(judge_image_file, (decoded,), r),
        call_ensures(paths::extension, (path,), ext),
        call_ensures(decoding_of, (path, recognised), decoding),
    ensures
        r is Ok <==> decoded is Ok,
        decoded matches Err(why) ==> faulted(r, "invalid image: "@ + why@),
        decoding == Decoding::ByName <==> !recognised && (ext matches Some(e) && e@.len() > 0),
{
}

/// A complete download takes a free place, replaces a file that is not valid and leaves one that is.
pub proof fn valid_files_keep_their_place(free: PlaceStep, valid: PlaceStep, invalid: PlaceStep)
    requires
        call_ensures(place_step, (None,), free),
        call_ensures(place_step, (Some(true),), valid),
        call_ensures(place_step, (Some(false),), invalid),
    ensures
        free == PlaceStep::Rename,
        valid == PlaceStep::KeepExisting,
        invalid == PlaceStep::ReplaceExisting,
{
}

/// What is recorded of a download is its path with slashes, its type, its length and the time; a
/// claim that another worker took is not completed.
pub proof fn downloads_are_recorded(
    relative: &str,
    content_type: Option<String>,
    length: u64,
    updated_at: &str,
    stored: String,
    r: MediaDownloadCompletion,
    kept: Result<()>,
    lost: Result<()>,
)
    requires
        call_ensures(path_for_database, (relative,), stored),
        call_ensures(complete_claim_from_file, (relative, content_type, length, updated_at), r),
        call_ensures(check_completed, (true,), kept),
        call_ensures(check_completed, (false,), lost),
    ensures
        r.local_path@ == stored@,
        stored@.len() == relative@.len(),
        forall|i: int|
            0 <= i < stored@.len() ==> #[trigger] stored@[i] == (if relative@[i] == '\\' {
                '/'
            } else {
                relative@[i]
            }),
        r.content_type == content_type,
        length <= i64::MAX ==> r.content_length == length,
        length > i64::MAX ==> r.content_length == i64::MAX,
        r.updated_at@ == updated_at@,
        kept is Ok,
        lost matches Err(Error::InconsistentTask(m)) && m@ == "media claim became stale"@,
{
}

/// Each failure in a row doubles the wait, up to half a minute and for six of them; the first wait
/// is twice the interval, which counts as ten milliseconds at least.
pub proof fn waits_double(
    first: &mut u32,
    second: &mut u32,
    poll_interval_ms: u64,
    r: u64,
    s: u64,
)
    requires
        call_ensures(supervise_pipeline, (poll_interval_ms, first), r),
        *old(second) == *final(first),
        call_ensures(supervise_pipeline, (poll_interval_ms, second), s),
    ensures
        *old(first) < u32::MAX ==> *final(first) == *old(first) + 1,
        *old(first) == u32::MAX ==> *final(first) == u32::MAX,
        r <= 30_000,
        *old(first) == 0 ==> r == (if poll_interval_ms < 10 {
            20int
        } else if poll_interval_ms <= 15_000 {
            2 * poll_interval_ms
        } else {
            30_000int
        }),
        *old(first) < 5 ==> s == (if 2 * r <= 30_000 {
            2 * r
        } else {
            30_000int
        }),
        *old(first) >= 5 ==> s == r,
{
}

/// A worker is reported as stopped exactly if it ended by itself; otherwise the reason is reported.
pub proof fn failed_workers_are_reported(
    joined: std::result::Result<std::result::Result<(), String>, String>,
    r: MediaWorkerSummary,
)
    requires
        call_ensures(worker_join_summary, (joined,), r),
    ensures
        r.stopped <==> (joined matches Ok(Ok(_))),
        r.stopped ==> r.join_failed is None,
        joined matches Ok(Err(why)) ==> r.join_failed == Some(why),
        joined matches Err(why) ==> r.join_failed == Some(why),
{
}

} // verus!
