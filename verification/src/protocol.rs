//! Protocol classification: tagging a source URL with its streaming
//! category. Classification is a pure function of the URL text, except
//! that a bare path with no scheme is tagged `File` only when it names an
//! existing local file; that one filesystem probe is passed in as a flag.
use vstd::prelude::*;

use crate::strutil::{has_substring, str_contains, str_starts_with};

verus! {

/// The closed set of stream protocol tags.
#[derive(Debug, Clone, Copy, PartialEq, Eq, Structural)]
pub enum StreamProtocol {
    RTSP,
    RTMP,
    HLS,
    HTTP,
    File,
    Unknown,
}

/// The classification rules, first match wins. `local_file` stands for
/// "the URL, read as a plain path, names an existing local file" and is
/// consulted only by the `File` rule.
pub open spec fn spec_classify(url: Seq<char>, local_file: bool) -> StreamProtocol {
    if "rtsp://"@.is_prefix_of(url) {
        StreamProtocol::RTSP
    } else if "rtmp://"@.is_prefix_of(url) {
        StreamProtocol::RTMP
    } else if has_substring(url, ".m3u8"@) || "hls://"@.is_prefix_of(url) {
        StreamProtocol::HLS
    } else if "http://"@.is_prefix_of(url) || "https://"@.is_prefix_of(url) {
        StreamProtocol::HTTP
    } else if "file://"@.is_prefix_of(url) || (!has_substring(url, "://"@) && local_file) {
        StreamProtocol::File
    } else {
        StreamProtocol::Unknown
    }
}

/// Classifies a URL given the local-file probe as an explicit argument.
pub fn classify_with(url: &str, local_file: bool) -> (p: StreamProtocol)
    ensures
        p == spec_classify(url@, local_file),
{
    if str_starts_with(url, "rtsp://") {
        StreamProtocol::RTSP
    } else if str_starts_with(url, "rtmp://") {
        StreamProtocol::RTMP
    } else if str_contains(url, ".m3u8") || str_starts_with(url, "hls://") {
        StreamProtocol::HLS
    } else if str_starts_with(url, "http://") || str_starts_with(url, "https://") {
        StreamProtocol::HTTP
    } else if str_starts_with(url, "file://") || (!str_contains(url, "://") && local_file) {
        StreamProtocol::File
    } else {
        StreamProtocol::Unknown
    }
}

/// Relies on std::path::Path::exists: whether the path names an existing
/// filesystem entry. The answer depends on the state of the disk, so
/// nothing is claimed of it.
#[verifier::external_body]
fn local_path_exists(url: &str) -> bool {
    std::path::Path::new(url).exists()
}

/// Classifies a URL, probing the local filesystem for the `File` rule.
/// The tag is `spec_classify` of the URL text for some value of the
/// probe; for a URL that carries a scheme separator the probe is
/// irrelevant and the tag is pinned outright.
pub fn classify(url: &str) -> (p: StreamProtocol)
    ensures
        exists|local_file: bool| p == spec_classify(url@, local_file),
        has_substring(url@, "://"@) ==> p == spec_classify(url@, true),
{
    let local_file = local_path_exists(url);
    classify_with(url, local_file)
}

/// Whether the protocol is a live stream rather than a seekable source.
pub open spec fn spec_is_realtime(p: StreamProtocol) -> bool {
    p == StreamProtocol::RTSP || p == StreamProtocol::RTMP || p == StreamProtocol::HLS
}

/// The URL path convention of the camera vendor whose devices reject
/// verbose probing options; such URLs take a minimal argument set.
pub open spec fn spec_is_vendor_camera(url: Seq<char>) -> bool {
    has_substring(url, "realmonitor"@)
}

/// Exec counterpart of `spec_is_vendor_camera`.
pub fn is_vendor_camera_url(url: &str) -> (r: bool)
    ensures
        r == spec_is_vendor_camera(url@),
{
    str_contains(url, "realmonitor")
}

/// Every URL with the `rtsp://` scheme is tagged `RTSP`, and every URL
/// with the `rtmp://` scheme is tagged `RTMP`, whatever the local-file
/// probe answered.
pub proof fn lemma_scheme_tags(url: Seq<char>, local_file: bool)
    ensures
        "rtsp://"@.is_prefix_of(url) ==> spec_classify(url, local_file) == StreamProtocol::RTSP,
        "rtmp://"@.is_prefix_of(url) ==> spec_classify(url, local_file) == StreamProtocol::RTMP,
{
    reveal_strlit("rtsp://");
    reveal_strlit("rtmp://");
    if "rtmp://"@.is_prefix_of(url) && "rtsp://"@.is_prefix_of(url) {
        assert(url.subrange(0, 7)[2] == url[2]);
        assert(url[2] == 's' && url[2] == 'm');
    }
}

/// Every URL that contains `.m3u8` is tagged `HLS`, whatever its scheme
/// and whatever the local-file probe answered - unless the `rtsp://` or
/// `rtmp://` rule fires first: those schemes win by rule order, as in
/// `rtsp://cam/feed.m3u8`.
pub proof fn lemma_playlist_tags_hls(url: Seq<char>, local_file: bool)
    requires
        has_substring(url, ".m3u8"@),
        !"rtsp://"@.is_prefix_of(url),
        !"rtmp://"@.is_prefix_of(url),
    ensures
        spec_classify(url, local_file) == StreamProtocol::HLS,
{
}

/// The local-file probe can only tell `File` from `Unknown` on a bare
/// path: for a URL that carries any scheme separator, classification
/// does not depend on the filesystem at all.
pub proof fn lemma_probe_irrelevant_with_scheme(url: Seq<char>, b1: bool, b2: bool)
    requires
        has_substring(url, "://"@),
    ensures
        spec_classify(url, b1) == spec_classify(url, b2),
{
}

/// Classification is pure: two classifications of the same URL under the
/// same local-file probe yield the same tag.
pub proof fn lemma_classify_deterministic(
    url: Seq<char>,
    local_file: bool,
    p1: StreamProtocol,
    p2: StreamProtocol,
)
    requires
        p1 == spec_classify(url, local_file),
        p2 == spec_classify(url, local_file),
    ensures
        p1 == p2,
{
}

} // verus!
