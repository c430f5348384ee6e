//! The HUD overlay's local rules: its layout, the navigation it may follow,
//! the embedded assets it serves and the script that gives the page its
//! message channel.

use crate::text::{contains_seq, occurs_at, str_eq, str_starts_with};
use crate::ui_protocol::ConnectionStateSnapshot;
use vstd::prelude::*;

verus! {

/// Whether the HUD covers the window (before a match) or sits in a corner.
#[derive(Clone, Copy, Debug, PartialEq, Eq, Structural)]
pub enum HudLayout {
    Pregame,
    Compact,
}

impl HudLayout {
    /// The compact corner layout while connected, the full-window one otherwise.
    pub fn for_state(state: &ConnectionStateSnapshot) -> (r: HudLayout)
        ensures
            r == (if state is Connected { HudLayout::Compact } else { HudLayout::Pregame }),
    {
        if state.is_connected() {
            HudLayout::Compact
        } else {
            HudLayout::Pregame
        }
    }
}

/// The embedded documents the HUD page may load.
#[derive(Clone, Copy, Debug, PartialEq, Eq, Structural)]
pub enum HudAsset {
    Index,
    Script,
    Style,
    NotFound,
}

/// The HTTP status, content type and document served for a request path.
pub fn embedded_asset(path: &str) -> (r: (u16, &'static str, HudAsset))
    ensures
        (path@ == "/"@ || path@ == "/index.html"@) ==> r.0 == 200 && r.1@ == "text/html; charset=utf-8"@
            && r.2 == HudAsset::Index,
        path@ == "/assets/hud.js"@ ==> r.0 == 200 && r.1@ == "text/javascript; charset=utf-8"@ && r.2
            == HudAsset::Script,
        path@ == "/assets/hud.css"@ ==> r.0 == 200 && r.1@ == "text/css; charset=utf-8"@ && r.2
            == HudAsset::Style,
        !(path@ == "/"@ || path@ == "/index.html"@ || path@ == "/assets/hud.js"@ || path@
            == "/assets/hud.css"@) ==> r.0 == 404 && r.1@ == "text/plain; charset=utf-8"@ && r.2
            == HudAsset::NotFound,
{
    proof {
        reveal_strlit("/");
        reveal_strlit("/index.html");
        reveal_strlit("/assets/hud.js");
        reveal_strlit("/assets/hud.css");
        assert("/assets/hud.js"@.len() != "/"@.len() && "/assets/hud.js"@.len() != "/index.html"@.len());
        assert("/assets/hud.css"@.len() != "/assets/hud.js"@.len());
        assert("/assets/hud.css"@.len() != "/"@.len() && "/assets/hud.css"@.len() != "/index.html"@.len());
    }
    if str_eq(path, "/") || str_eq(path, "/index.html") {
        (200, "text/html; charset=utf-8", HudAsset::Index)
    } else if str_eq(path, "/assets/hud.js") {
        (200, "text/javascript; charset=utf-8", HudAsset::Script)
    } else if str_eq(path, "/assets/hud.css") {
        (200, "text/css; charset=utf-8", HudAsset::Style)
    } else {
        (404, "text/plain; charset=utf-8", HudAsset::NotFound)
    }
}

/// The navigations the HUD page may perform: its own origin under either
/// scheme that the platform web views use.
pub open spec fn navigation_allowed_spec(url: Seq<char>) -> bool {
    ||| url == "spacegame-hud://localhost"@
    ||| occurs_at(url, "spacegame-hud://localhost/"@, 0)
    ||| url == "http://spacegame-hud.localhost"@
    ||| occurs_at(url, "http://spacegame-hud.localhost/"@, 0)
}

/// Whether the HUD web view may navigate to `url`.
pub fn allowed_navigation(url: &str) -> (r: bool)
    ensures
        r == navigation_allowed_spec(url@),
{
    str_eq(url, "spacegame-hud://localhost") || str_starts_with(url, "spacegame-hud://localhost/")
        || str_eq(url, "http://spacegame-hud.localhost") || str_starts_with(
        url,
        "http://spacegame-hud.localhost/",
    )
}

/// The text of the script run before the HUD page loads.
pub open spec fn hud_script_text() -> Seq<char> {
    "window.addEventListener('error', event => { document.title = `HUD_ERROR:${event.message}`; });\
     window.addEventListener('unhandledrejection', event => { document.title = `HUD_ERROR:${String(event.reason)}`; });\
     const listeners = new Set();\
     Object.defineProperty(window, '__SPACEGAME_HUD__', { value: Object.freeze({\
       receiveJson: value => { listeners.forEach(listener => listener(value)); },\
       subscribe: listener => { listeners.add(listener); return () => listeners.delete(listener); },\
       sendJson: value => window.ipc.postMessage(value)\
     }), writable: false, configurable: false });"@
}

/// The script run before the HUD page loads. It reports page errors through
/// the document title and installs a frozen, non-writable
/// `window.__SPACEGAME_HUD__` with `receiveJson`, `subscribe` and `sendJson`.
pub fn initialization_script() -> (r: &'static str)
    ensures
        r@ == hud_script_text(),
        contains_seq(r@, "Object.defineProperty(window, '__SPACEGAME_HUD__'"@),
        contains_seq(r@, "writable: false"@),
        contains_seq(r@, "receiveJson"@),
{
    let script = "window.addEventListener('error', event => { document.title = `HUD_ERROR:${event.message}`; });\
     window.addEventListener('unhandledrejection', event => { document.title = `HUD_ERROR:${String(event.reason)}`; });\
     const listeners = new Set();\
     Object.defineProperty(window, '__SPACEGAME_HUD__', { value: Object.freeze({\
       receiveJson: value => { listeners.forEach(listener => listener(value)); },\
       subscribe: listener => { listeners.add(listener); return () => listeners.delete(listener); },\
       sendJson: value => window.ipc.postMessage(value)\
     }), writable: false, configurable: false });";
    proof {
        reveal_strlit("window.addEventListener('error', event => { document.title = `HUD_ERROR:${event.message}`; });\
     window.addEventListener('unhandledrejection', event => { document.title = `HUD_ERROR:${String(event.reason)}`; });\
     const listeners = new Set();\
     Object.defineProperty(window, '__SPACEGAME_HUD__', { value: Object.freeze({\
       receiveJson: value => { listeners.forEach(listener => listener(value)); },\
       subscribe: listener => { listeners.add(listener); return () => listeners.delete(listener); },\
       sendJson: value => window.ipc.postMessage(value)\
     }), writable: false, configurable: false });");
        reveal_strlit("Object.defineProperty(window, '__SPACEGAME_HUD__'");
        reveal_strlit("writable: false");
        reveal_strlit("receiveJson");
        assert(script@.subrange(236int, 285int) =~= "Object.defineProperty(window, '__SPACEGAME_HUD__'"@);
        assert(occurs_at(script@, "Object.defineProperty(window, '__SPACEGAME_HUD__'"@, 236));
        assert(script@.subrange(530int, 545int) =~= "writable: false"@);
        assert(occurs_at(script@, "writable: false"@, 530));
        assert(script@.subrange(311int, 322int) =~= "receiveJson"@);
        assert(occurs_at(script@, "receiveJson"@, 311));
    }
    script
}

} // verus!
