//! The renderer process: which CEF function it hooks, and when it runs its
//! script in a frame.
use vstd::prelude::*;
use crate::hook::{names, Detour, HookSpec};
use crate::text::{has_prefix, has_suffix, starts_with, ends_with, law_prefix_suffix_of_concat};

verus! {

/// The script run in the main browser's client page.
pub const SCRIPT: &'static str = "console.log('hello from pengu-rust!')";

/// The key of the browser's extra information that marks the main browser.
pub const MAIN_KEY: &'static str = "main";

/// Whether `url` is the client's page: it begins with `https://riot:` and
/// ends with `/index.html`.
pub open spec fn is_client_page(url: Seq<char>) -> bool {
    has_prefix(url, "https://riot:"@) && has_suffix(url, "/index.html"@)
}

/// The renderer's hooks: `cef_execute_process` of `libcef.dll`.
pub open spec fn is_renderer_hooks(hooks: Seq<HookSpec>) -> bool {
    &&& hooks.len() == 1
    &&& names(hooks[0], Detour::CefExecuteProcess, "libcef.dll\0"@, "cef_execute_process\0"@)
}

/// The hooks of the renderer process: `cef_execute_process`, exported by
/// `libcef.dll`.
pub fn init() -> (hooks: Vec<HookSpec>)
    ensures
        is_renderer_hooks(hooks@),
{
    let mut hooks: Vec<HookSpec> = Vec::new();
    hooks.push(
        HookSpec {
            detour: Detour::CefExecuteProcess,
            library: "libcef.dll\0",
            symbol: "cef_execute_process\0",
        },
    );
    hooks
}

/// What the renderer has learnt: whether its browser is the main one.
pub struct RendererState {
    pub is_main: bool,
}

impl RendererState {
    /// Nothing learnt yet.
    pub fn new() -> (res: RendererState)
        ensures
            !res.is_main,
    {
        RendererState { is_main: false }
    }

    /// A browser was created. `main_key` is `None` where it came without
    /// extra information, else whether that information holds [`MAIN_KEY`].
    /// Once main, the renderer stays main.
    pub fn on_browser_created(&mut self, main_key: Option<bool>)
        ensures
            final(self).is_main == (old(self).is_main || main_key == Some(true)),
    {
        match main_key {
            Some(true) => {
                self.is_main = true;
            },
            _ => {},
        }
    }

    /// A script context was created in a frame showing `url`: the script to
    /// run there, if any. It runs only in the main browser, on the client page.
    pub fn on_context_created(&self, url: &str) -> (script: Option<&'static str>)
        ensures
            script is Some <==> (self.is_main && is_client_page(url@)),
            script matches Some(s) ==> s@ == SCRIPT@,
    {
        if self.is_main && starts_with(url, "https://riot:") && ends_with(url, "/index.html") {
            Some(SCRIPT)
        } else {
            None
        }
    }
}

/// Every page `https://riot:<port>/index.html` is the client's page,
/// whatever the port text; and a page is the client's only if it begins with
/// `https://riot:` and ends with `/index.html`.
pub proof fn law_client_page(port: Seq<char>, url: Seq<char>)
    ensures
        is_client_page("https://riot:"@ + port + "/index.html"@),
        is_client_page(url) ==> url.len() >= "https://riot:"@.len() && url.subrange(
            0,
            "https://riot:"@.len() as int,
        ) == "https://riot:"@ && url.len() >= "/index.html"@.len() && url.subrange(
            url.len() - "/index.html"@.len(),
            url.len() as int,
        ) == "/index.html"@,
{
    law_prefix_suffix_of_concat("https://riot:"@, port, "/index.html"@);
}

} // verus!
