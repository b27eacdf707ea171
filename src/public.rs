//! Endpoints that need no token: the health check and the site settings.
use vstd::prelude::*;
use crate::request::{is_plain_request, plain_request, Endpoint, HttpRequest};

verus! {

/// The request of the health check.
pub fn ping_request(server: &str) -> (r: HttpRequest)
    ensures
        is_plain_request(r, server@, Seq::empty(), Endpoint::Ping),
{
    plain_request(server, "", Endpoint::Ping)
}

/// The public settings of the site, each as the server's text.
#[derive(Debug)]
pub struct Settings {
    pub allow_indexed: String,
    pub allow_mounted: String,
    pub announcement: String,
    pub audio_autoplay: String,
    pub audio_cover: String,
    pub auto_update_index: String,
    pub default_page_size: String,
    pub external_previews: String,
    pub favicon: String,
    pub filename_char_mapping: String,
    pub forward_direct_link_params: String,
    pub hide_files: String,
    pub home_container: String,
    pub home_icon: String,
    pub iframe_previews: String,
    pub logo: String,
    pub main_color: String,
    pub ocr_api: String,
    pub package_download: String,
    pub pagination_type: String,
    pub robots_txt: String,
    pub search_index: String,
    pub settings_layout: String,
    pub site_title: String,
    pub sso_login_enabled: String,
    pub sso_login_platform: String,
    pub version: String,
    pub video_autoplay: String,
}

/// The request for the site settings.
pub fn get_settings_request(server: &str) -> (r: HttpRequest)
    ensures
        is_plain_request(r, server@, Seq::empty(), Endpoint::Settings),
{
    plain_request(server, "", Endpoint::Settings)
}

} // verus!
