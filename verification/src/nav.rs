//! Navigation interception: the decision the embedded browsing surface's
//! hook takes for every attempted navigation, and the plan for steering the
//! surface back to the application's own page after a veto.
use vstd::prelude::*;
use crate::store::PendingResultStore;
use crate::store::store_after_set;
use crate::store::take_result;

verus! {

/// True exactly when a navigation to `host`:`port` is the provider's
/// redirect to the configured loopback address: the host is literally
/// `127.0.0.1` or `localhost` and the port is the redirect port.
pub open spec fn nav_matches(host: Seq<char>, port: u16, redirect_port: u16) -> bool {
    (host == ("127.0.0.1")@ || host == ("localhost")@) && port == redirect_port
}

/// The slot's contents after the hook saw a navigation: overwritten with the
/// destination URL on a match, untouched otherwise.
pub open spec fn store_after_navigation(
    s: Option<Seq<char>>,
    host: Seq<char>,
    port: u16,
    redirect_port: u16,
    url: Seq<char>,
) -> Option<Seq<char>> {
    if nav_matches(host, port, redirect_port) {
        store_after_set(s, url)
    } else {
        s
    }
}

/// The navigation hook's decision for one attempted navigation, given the
/// destination's host (empty when it has none), its port (0 when it has
/// none), and the full destination URL.  On a match the URL is deposited in
/// `store` and the navigation is vetoed (`false`); every other navigation is
/// allowed through untouched (`true`).
pub fn intercept(
    store: &mut PendingResultStore,
    redirect_port: u16,
    host: &str,
    port: u16,
    url: &str,
) -> (allow: bool)
    ensures
        allow == !nav_matches(host@, port, redirect_port),
        final(store)@ == store_after_navigation(old(store)@, host@, port, redirect_port, url@),
{
    let h: String = host.to_owned();
    let is_redirect = (h == ("127.0.0.1").to_owned() || h == ("localhost").to_owned()) && port
        == redirect_port;
    if is_redirect {
        store.set(url.to_owned());
        false
    } else {
        true
    }
}

/// What the application should do, once the veto has settled, to bring the
/// embedded surface back to its own page.
pub enum ReturnNavigation {
    /// Rewind the surface's session history to its first entry, re-showing
    /// the cached application page without re-fetching it.  For platforms
    /// where a direct navigation back to the application's origin is
    /// unreliable after visiting an external origin.
    HistoryRewind,
    /// Navigate directly to the given URL: the application's own base URL.
    Navigate(String),
}

/// The text of the application's own base URL: the development server origin
/// during development, the packaged origin otherwise.
pub open spec fn app_base_url_text(dev: bool) -> Seq<char> {
    if dev {
        ("http://localhost:1420")@
    } else {
        ("https://tauri.localhost/")@
    }
}

/// The application's own base URL.
pub fn app_base_url(dev: bool) -> (r: String)
    ensures
        r@ == app_base_url_text(dev),
{
    if dev {
        ("http://localhost:1420").to_owned()
    } else {
        ("https://tauri.localhost/").to_owned()
    }
}

/// Picks the return-navigation strategy once, from the platform's
/// capabilities: session-history rewind where direct re-navigation is
/// unreliable (the embedded-surface platform), direct navigation to the
/// application's base URL everywhere else.
pub fn plan_return_navigation(history_rewind: bool, dev: bool) -> (r: ReturnNavigation)
    ensures
        history_rewind ==> r is HistoryRewind,
        !history_rewind ==> (r matches ReturnNavigation::Navigate(u) && u@ == app_base_url_text(
            dev,
        )),
{
    if history_rewind {
        ReturnNavigation::HistoryRewind
    } else {
        ReturnNavigation::Navigate(app_base_url(dev))
    }
}

/// The script that rewinds the surface's session history to its first entry.
pub fn history_rewind_script() -> (r: String)
    ensures
        r@ == ("window.history.go(-(window.history.length - 1))")@,
{
    ("window.history.go(-(window.history.length - 1))").to_owned()
}

/// Any navigation outside the redirect address — a host that is neither
/// loopback name, or a differing port — is allowed through and leaves the
/// slot untouched.
pub proof fn lemma_foreign_navigation_untouched(
    s0: Option<Seq<char>>,
    host: Seq<char>,
    port: u16,
    redirect_port: u16,
    url: Seq<char>,
)
    requires
        !(host == ("127.0.0.1")@ || host == ("localhost")@) || port != redirect_port,
    ensures
        !nav_matches(host, port, redirect_port),
        store_after_navigation(s0, host, port, redirect_port, url) == s0,
{
}

/// A navigation to the redirect address is captured whole: the next take on
/// the slot hands out exactly the destination URL.
pub proof fn lemma_intercepted_url_delivered(
    s0: Option<Seq<char>>,
    host: Seq<char>,
    port: u16,
    redirect_port: u16,
    url: Seq<char>,
)
    requires
        nav_matches(host, port, redirect_port),
    ensures
        take_result(store_after_navigation(s0, host, port, redirect_port, url)) == Some(url),
{
}

} // verus!
