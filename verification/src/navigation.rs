use vstd::prelude::*;

use crate::text::{ends_with, same_text, text_ends_with};

verus! {

/// Where a navigation of the main window goes.
#[derive(Clone, Copy, Debug, PartialEq, Eq, Structural)]
pub enum NavigationAction {
    InApp,
    ExternalHttps,
    Blocked,
}

/// Where a request to open a new window goes.
#[derive(Clone, Copy, Debug, PartialEq, Eq, Structural)]
pub enum PopupNavigationAction {
    InPopup,
    ExternalHttps,
    Blocked,
}

/// The parts of a parsed absolute URL that the policies read.
pub struct UrlParts {
    /// The scheme, without the `:`.
    pub scheme: String,
    /// The host as text, where the URL has one.
    pub host: Option<String>,
    /// The port, where the URL names one that is not its scheme's default.
    pub port: Option<u16>,
}

/// The parts of a URL as plain sequences.
pub struct UrlPartsView {
    pub scheme: Seq<char>,
    pub host: Option<Seq<char>>,
    pub port: Option<u16>,
}

impl DeepView for UrlParts {
    type V = UrlPartsView;

    open spec fn deep_view(&self) -> UrlPartsView {
        UrlPartsView {
            scheme: self.scheme@,
            host: match self.host {
                Some(h) => Some(h@),
                None => None,
            },
            port: self.port,
        }
    }
}

/// What `url::Url::parse` makes of `input`: `None` where it refuses the
/// input, else the URL's scheme, its host text, and its port where that is
/// not the scheme's default.
pub uninterp spec fn url_parse(input: Seq<char>) -> Option<UrlPartsView>;

/// Calls `url::Url::parse` and reads `scheme()`, `host_str()` and `port()`
/// of the URL it returns. The contract claims only that the outcome is the
/// one that `url_parse` names for this input.
#[verifier::external_body]
fn parse_url(input: &str) -> (res: Option<UrlParts>)
    ensures
        res.deep_view() == url_parse(input@),
{
    match url::Url::parse(input) {
        Ok(url) => Some(UrlParts {
            scheme: url.scheme().to_string(),
            host: match url.host_str() {
                Some(host) => Some(host.to_string()),
                None => None,
            },
            port: url.port(),
        }),
        Err(_) => None,
    }
}

/// `tiktok.com` itself or one of its subdomains.
pub open spec fn is_tiktok_host(host: Seq<char>) -> bool {
    host == "tiktok.com"@ || ends_with(host, ".tiktok.com"@)
}

/// A host that sign-in popups need besides TikTok's own.
pub open spec fn is_oauth_host(host: Seq<char>) -> bool {
    ||| host == "accounts.google.com"@
    ||| host == "www.facebook.com"@
    ||| host == "appleid.apple.com"@
}

/// Only HTTPS URLs on TikTok hosts load in the main window; other HTTPS
/// URLs with a host open in the browser; everything else is refused.
pub open spec fn spec_navigation_action(url: Option<UrlPartsView>) -> NavigationAction {
    match url {
        None => NavigationAction::Blocked,
        Some(u) => if u.scheme != "https"@ {
            NavigationAction::Blocked
        } else {
            match u.host {
                None => NavigationAction::Blocked,
                Some(h) => if is_tiktok_host(h) {
                    NavigationAction::InApp
                } else {
                    NavigationAction::ExternalHttps
                },
            }
        },
    }
}

/// Popups may open on TikTok hosts and the sign-in providers, over HTTPS
/// only; other HTTPS URLs with a host open in the browser.
pub open spec fn spec_popup_navigation_action(url: Option<UrlPartsView>) -> PopupNavigationAction {
    match url {
        None => PopupNavigationAction::Blocked,
        Some(u) => if u.scheme != "https"@ {
            PopupNavigationAction::Blocked
        } else {
            match u.host {
                None => PopupNavigationAction::Blocked,
                Some(h) => if is_tiktok_host(h) || is_oauth_host(h) {
                    PopupNavigationAction::InPopup
                } else {
                    PopupNavigationAction::ExternalHttps
                },
            }
        },
    }
}

/// Site permissions are only ever granted to `https://www.tiktok.com` on its
/// default port.
pub open spec fn spec_permission_origin_allowed(url: Option<UrlPartsView>) -> bool {
    match url {
        None => false,
        Some(u) => {
            &&& u.scheme == "https"@
            &&& u.host == Some("www.tiktok.com"@)
            &&& u.port is None
        },
    }
}

fn is_https(url: &UrlParts) -> (res: bool)
    ensures
        res == (url.scheme@ == "https"@),
{
    same_text(url.scheme.as_str(), "https")
}

fn tiktok_host(host: &str) -> (res: bool)
    ensures
        res == is_tiktok_host(host@),
{
    same_text(host, "tiktok.com") || text_ends_with(host, ".tiktok.com")
}

fn oauth_host(host: &str) -> (res: bool)
    ensures
        res == is_oauth_host(host@),
{
    same_text(host, "accounts.google.com") || same_text(host, "www.facebook.com") || same_text(
        host,
        "appleid.apple.com",
    )
}

/// The main-window policy applied to what the URL parser returned.
pub fn navigation_action_for(url: &Option<UrlParts>) -> (res: NavigationAction)
    ensures
        res == spec_navigation_action(url.deep_view()),
{
    match url {
        None => NavigationAction::Blocked,
        Some(u) => {
            if !is_https(u) {
                return NavigationAction::Blocked;
            }
            match &u.host {
                None => NavigationAction::Blocked,
                Some(h) => if tiktok_host(h.as_str()) {
                    NavigationAction::InApp
                } else {
                    NavigationAction::ExternalHttps
                },
            }
        },
    }
}

/// The popup policy applied to what the URL parser returned.
pub fn popup_navigation_action_for(url: &Option<UrlParts>) -> (res: PopupNavigationAction)
    ensures
        res == spec_popup_navigation_action(url.deep_view()),
{
    match url {
        None => PopupNavigationAction::Blocked,
        Some(u) => {
            if !is_https(u) {
                return PopupNavigationAction::Blocked;
            }
            match &u.host {
                None => PopupNavigationAction::Blocked,
                Some(h) => if tiktok_host(h.as_str()) || oauth_host(h.as_str()) {
                    PopupNavigationAction::InPopup
                } else {
                    PopupNavigationAction::ExternalHttps
                },
            }
        },
    }
}

/// The permission-origin policy applied to what the URL parser returned.
pub fn permission_origin_allowed_for(url: &Option<UrlParts>) -> (res: bool)
    ensures
        res == spec_permission_origin_allowed(url.deep_view()),
{
    match url {
        None => false,
        Some(u) => {
            let host_ok = match &u.host {
                Some(h) => same_text(h.as_str(), "www.tiktok.com"),
                None => false,
            };
            is_https(u) && host_ok && u.port.is_none()
        },
    }
}

/// Decides where a navigation of the main window to `input` goes.
pub fn classify_navigation(input: &str) -> (res: NavigationAction)
    ensures
        res == spec_navigation_action(url_parse(input@)),
{
    navigation_action_for(&parse_url(input))
}

/// Whether a site-permission request from the page at `input` may be
/// granted at all.
pub fn permission_origin_allowed(input: &str) -> (res: bool)
    ensures
        res == spec_permission_origin_allowed(url_parse(input@)),
{
    permission_origin_allowed_for(&parse_url(input))
}

/// Decides where a request to open `input` in a new window goes.
pub fn classify_popup_navigation(input: &str) -> (res: PopupNavigationAction)
    ensures
        res == spec_popup_navigation_action(url_parse(input@)),
{
    popup_navigation_action_for(&parse_url(input))
}

/// A URL loads in the main window exactly when it parsed, is HTTPS and its
/// host is `tiktok.com` itself or ends with `.tiktok.com`.
pub proof fn in_app_exactly_for_https_tiktok_hosts(url: Option<UrlPartsView>)
    ensures
        (spec_navigation_action(url) == NavigationAction::InApp) <==> match url {
            Some(u) => u.scheme == "https"@ && match u.host {
                Some(h) => h == "tiktok.com"@ || (".tiktok.com"@.len() <= h.len() && h.subrange(
                    h.len() - ".tiktok.com"@.len(),
                    h.len() as int,
                ) == ".tiktok.com"@),
                None => false,
            },
            None => false,
        },
{
}

/// The main window blocks a URL exactly when it did not parse, is not HTTPS
/// or has no host; every HTTPS URL with a host either loads in the app or
/// opens in the browser.
pub proof fn navigation_blocked_exactly_without_https_host(url: Option<UrlPartsView>)
    ensures
        (spec_navigation_action(url) == NavigationAction::Blocked) <==> match url {
            Some(u) => u.scheme != "https"@ || u.host is None,
            None => true,
        },
{
}

/// An HTTPS URL whose host is neither `tiktok.com` nor ends with
/// `.tiktok.com` opens in the default browser, whatever else the host is.
pub proof fn other_https_hosts_open_in_browser(url: UrlPartsView, host: Seq<char>)
    requires
        url.scheme == "https"@,
        url.host == Some(host),
        host != "tiktok.com"@,
        !(".tiktok.com"@.len() <= host.len() && host.subrange(
            host.len() - ".tiktok.com"@.len(),
            host.len() as int,
        ) == ".tiktok.com"@),
    ensures
        spec_navigation_action(Some(url)) == NavigationAction::ExternalHttps,
        spec_navigation_action(Some(url)) != NavigationAction::Blocked,
{
}

/// A popup opens in the app exactly for an HTTPS URL whose host is
/// `tiktok.com`, ends with `.tiktok.com`, or is one of the sign-in hosts
/// `accounts.google.com`, `www.facebook.com`, `appleid.apple.com`.
pub proof fn popup_in_app_exactly_for_listed_hosts(url: Option<UrlPartsView>)
    ensures
        (spec_popup_navigation_action(url) == PopupNavigationAction::InPopup) <==> match url {
            Some(u) => u.scheme == "https"@ && match u.host {
                Some(h) => {
                    ||| h == "tiktok.com"@
                    ||| (".tiktok.com"@.len() <= h.len() && h.subrange(
                        h.len() - ".tiktok.com"@.len(),
                        h.len() as int,
                    ) == ".tiktok.com"@)
                    ||| h == "accounts.google.com"@
                    ||| h == "www.facebook.com"@
                    ||| h == "appleid.apple.com"@
                },
                None => false,
            },
            None => false,
        },
{
}

/// A popup is blocked exactly when its URL did not parse, is not HTTPS or
/// has no host; any other popup that does not open in the app opens in the
/// browser.
pub proof fn popup_blocked_exactly_without_https_host(url: Option<UrlPartsView>)
    ensures
        (spec_popup_navigation_action(url) == PopupNavigationAction::Blocked) <==> match url {
            Some(u) => u.scheme != "https"@ || u.host is None,
            None => true,
        },
{
}

/// Site permissions are asked for only by `https://www.tiktok.com` on its
/// default port: exactly the parsed HTTPS URLs with that host and no port.
pub proof fn permission_origin_exactly_www_tiktok(url: Option<UrlPartsView>)
    ensures
        spec_permission_origin_allowed(url) <==> match url {
            Some(u) => u.scheme == "https"@ && u.host == Some("www.tiktok.com"@) && u.port is None,
            None => false,
        },
{
}

/// A URL that is not HTTPS never loads in the main window nor in a popup,
/// and never opens in the browser.
pub proof fn non_https_is_blocked(url: UrlPartsView)
    requires
        url.scheme != "https"@,
    ensures
        spec_navigation_action(Some(url)) == NavigationAction::Blocked,
        spec_popup_navigation_action(Some(url)) == PopupNavigationAction::Blocked,
        !spec_permission_origin_allowed(Some(url)),
{
}

/// The popup policy is the main-window policy widened by the sign-in hosts:
/// what loads in the app may open as a popup, what goes to the browser
/// from one goes to the browser or a popup from the other, and both block
/// the same URLs.
pub proof fn popup_policy_extends_navigation_policy(url: Option<UrlPartsView>)
    ensures
        spec_navigation_action(url) == NavigationAction::InApp ==> spec_popup_navigation_action(url)
            == PopupNavigationAction::InPopup,
        (spec_navigation_action(url) == NavigationAction::Blocked) <==> (
        spec_popup_navigation_action(url) == PopupNavigationAction::Blocked),
        spec_popup_navigation_action(url) == PopupNavigationAction::ExternalHttps
            ==> spec_navigation_action(url) == NavigationAction::ExternalHttps,
{
}

/// A page that may ask for site permissions is one that loads in the app.
pub proof fn permission_origin_loads_in_app(url: Option<UrlPartsView>)
    ensures
        spec_permission_origin_allowed(url) ==> spec_navigation_action(url)
            == NavigationAction::InApp,
{
    if spec_permission_origin_allowed(url) {
        let h = url.unwrap().host.unwrap();
        reveal_strlit("www.tiktok.com");
        reveal_strlit(".tiktok.com");
        assert(h.subrange(h.len() - 11, h.len() as int) =~= ".tiktok.com"@);
    }
}

} // verus!
