//! The browser process: which CEF functions it hooks.
use vstd::prelude::*;
use crate::hook::{names, Detour, HookSpec};

verus! {

/// The browser's hooks: `cef_initialize` and `cef_browser_host_create_browser`
/// of `libcef.dll`, in this order.
pub open spec fn is_browser_hooks(hooks: Seq<HookSpec>) -> bool {
    &&& hooks.len() == 2
    &&& names(hooks[0], Detour::CefInitialize, "libcef.dll\0"@, "cef_initialize\0"@)
    &&& names(hooks[1], Detour::CefCreateBrowser, "libcef.dll\0"@, "cef_browser_host_create_browser\0"@)
}

/// The hooks of the browser process, in the order they are installed:
/// `cef_initialize` and `cef_browser_host_create_browser`, both exported by
/// `libcef.dll`.
pub fn init() -> (hooks: Vec<HookSpec>)
    ensures
        is_browser_hooks(hooks@),
{
    let mut hooks: Vec<HookSpec> = Vec::new();
    hooks.push(
        HookSpec { detour: Detour::CefInitialize, library: "libcef.dll\0", symbol: "cef_initialize\0" },
    );
    hooks.push(
        HookSpec {
            detour: Detour::CefCreateBrowser,
            library: "libcef.dll\0",
            symbol: "cef_browser_host_create_browser\0",
        },
    );
    hooks
}

} // verus!
