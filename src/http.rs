//! Rules a checker applies to HTTP responses and to the software an instance runs.
use vstd::prelude::*;

verus! {

/// 301 Moved Permanently.
pub const MOVED_PERMANENTLY: u16 = 301;

/// 302 Found.
pub const FOUND: u16 = 302;

/// 303 See Other.
pub const SEE_OTHER: u16 = 303;

/// 307 Temporary Redirect.
pub const TEMPORARY_REDIRECT: u16 = 307;

/// 308 Permanent Redirect.
pub const PERMANENT_REDIRECT: u16 = 308;

/// Whether `status` is a temporary redirect: 302 Found, 303 See Other, 307 Temporary Redirect.
pub fn is_temporary_redirect(status: u16) -> (r: bool)
    ensures
        r == (status == 302 || status == 303 || status == 307),
{
    status == FOUND || status == SEE_OTHER || status == TEMPORARY_REDIRECT
}

/// Whether `status` is a permanent redirect: 301 Moved Permanently, 308 Permanent Redirect.
pub fn is_permanent_redirect(status: u16) -> (r: bool)
    ensures
        r == (status == 301 || status == 308),
{
    status == MOVED_PERMANENTLY || status == PERMANENT_REDIRECT
}

/// Whether `status` is a redirect, temporary or permanent.
pub fn is_redirect(status: u16) -> (r: bool)
    ensures
        r == (status == 301 || status == 302 || status == 303 || status == 307 || status == 308),
{
    is_temporary_redirect(status) || is_permanent_redirect(status)
}

/// Whether `status` is a client error (4xx) or a server error (5xx).
pub fn is_http_error(status: u16) -> (r: bool)
    ensures
        r == (400 <= status < 600),
{
    let is_client_error = 400 <= status && status < 500;
    let is_server_error = 500 <= status && status < 600;
    is_client_error || is_server_error
}

/// Whether two strings hold the same characters.
pub fn same_text(a: &str, b: &str) -> (r: bool)
    ensures
        r == (a@ == b@),
{
    a.to_owned() == b.to_owned()
}

/// Whether `software` offers the Mastodon-style list of peers.
pub open spec fn lists_peers(software: Seq<char>) -> bool {
    software == "mastodon"@ || software == "pleroma"@ || software == "misskey"@ || software
        == "bookwyrm"@ || software == "smithereen"@
}

/// Whether the checker asks an instance running `software` for its peers, through the
/// Mastodon-style API.
pub fn has_peers_api(software: &str) -> (r: bool)
    ensures
        r == lists_peers(software@),
{
    same_text(software, "mastodon") || same_text(software, "pleroma") || same_text(
        software,
        "misskey",
    ) || same_text(software, "bookwyrm") || same_text(software, "smithereen")
}

/// Where an instance says whether it wants to stay off public lists.
#[derive(PartialEq, Eq, Structural, Debug, Clone, Copy)]
pub enum PrivacySource {
    /// `site.private` in the StatusNet configuration (GNU social, Friendica).
    StatusNetConfig,
    /// `hide_in_statistics` in `siteinfo.json` (Hubzilla, Red).
    SiteInfo,
    /// The software has no such setting; the instance is listed.
    NotOffered,
}

/// Where an instance running `software` keeps its privacy setting.
pub open spec fn privacy_source_of(software: Seq<char>) -> PrivacySource {
    if software == "gnusocial"@ || software == "friendica"@ {
        PrivacySource::StatusNetConfig
    } else if software == "hubzilla"@ || software == "red"@ {
        PrivacySource::SiteInfo
    } else {
        PrivacySource::NotOffered
    }
}

/// Where an instance running `software` keeps its privacy setting.
pub fn privacy_source(software: &str) -> (r: PrivacySource)
    ensures
        r == privacy_source_of(software@),
{
    if same_text(software, "gnusocial") || same_text(software, "friendica") {
        PrivacySource::StatusNetConfig
    } else if same_text(software, "hubzilla") || same_text(software, "red") {
        PrivacySource::SiteInfo
    } else {
        PrivacySource::NotOffered
    }
}

} // verus!
