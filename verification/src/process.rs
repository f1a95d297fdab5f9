//! What the library does when it is loaded into a process: it tells the
//! client's processes apart by their executable's name and command line, and
//! picks the hooks to install.
use vstd::prelude::*;
use crate::hook::HookSpec;
use crate::browser::is_browser_hooks;
use crate::renderer::is_renderer_hooks;
use crate::text::same_text;

verus! {

/// What `str::to_lowercase` gives for a string: each character replaced by
/// its Unicode lowercase mapping. It depends on the string alone.
pub uninterp spec fn lowercase(s: Seq<char>) -> Seq<char>;

/// Calls `str::to_lowercase`; its result is named [`lowercase`] of the
/// argument, and nothing more is claimed of it.
#[verifier::external_body]
pub(crate) fn to_lowercase(s: &str) -> (res: String)
    ensures
        res@ == lowercase(s@),
{
    s.to_lowercase()
}

/// The kinds of process the library is loaded into.
#[derive(Clone, Copy, Debug, PartialEq, Eq, Structural)]
pub enum ProcessRole {
    /// The client's browser process.
    Browser,
    /// One of the client's V8 renderer processes.
    Renderer,
    /// Any other process: nothing is hooked.
    Other,
}

/// The views of a list of strings.
pub open spec fn texts(args: Seq<String>) -> Seq<Seq<char>> {
    args.map_values(|a: String| a@)
}

/// The role of a process whose executable's name, lowercased, is
/// `exe_lower`, and whose command-line arguments are `args`; `renderer_exe`
/// names the renderer's executable.
pub open spec fn role_of(exe_lower: Seq<char>, renderer_exe: Seq<char>, args: Seq<Seq<char>>) -> ProcessRole {
    if exe_lower == "leagueclientux.exe"@ {
        ProcessRole::Browser
    } else if exe_lower == renderer_exe && args.contains("--type=renderer"@) {
        ProcessRole::Renderer
    } else {
        ProcessRole::Other
    }
}

/// Whether one of `args` is `--type=renderer`.
pub fn has_renderer_type(args: &Vec<String>) -> (res: bool)
    ensures
        res == texts(args@).contains("--type=renderer"@),
{
    let mut i: usize = 0;
    while i < args.len()
        invariant
            i <= args@.len(),
            forall|k: int| 0 <= k < i ==> args@[k]@ != "--type=renderer"@,
        decreases args@.len() - i,
    {
        if same_text(args[i].as_str(), "--type=renderer") {
            assert(texts(args@)[i as int] == "--type=renderer"@);
            return true;
        }
        i = i + 1;
    }
    assert forall|k: int| 0 <= k < texts(args@).len() implies texts(args@)[k] != "--type=renderer"@ by {}
    false
}

/// The role of a process, from its executable's lowercased name and its
/// arguments; `renderer_exe` names the renderer's executable.
pub fn role_for(exe_lower: &str, renderer_exe: &str, args: &Vec<String>) -> (role: ProcessRole)
    ensures
        role == role_of(exe_lower@, renderer_exe@, texts(args@)),
{
    if same_text(exe_lower, "leagueclientux.exe") {
        ProcessRole::Browser
    } else if same_text(exe_lower, renderer_exe) && has_renderer_type(args) {
        ProcessRole::Renderer
    } else {
        ProcessRole::Other
    }
}

/// The role of the process the library was loaded into: `exe_name` is its
/// executable's file name, `args` its command line. The renderer's
/// executable is `leagueclientuxrenderer.exe`.
pub fn process_role(exe_name: &str, args: &Vec<String>) -> (role: ProcessRole)
    ensures
        role == role_of(lowercase(exe_name@), "leagueclientuxrenderer.exe"@, texts(args@)),
{
    let exe = to_lowercase(exe_name);
    role_for(exe.as_str(), "leagueclientuxrenderer.exe", args)
}

/// The hooks to install in a process of the given role: the browser's, the
/// renderer's, or none.
pub fn hooks_for(role: ProcessRole) -> (hooks: Vec<HookSpec>)
    ensures
        role == ProcessRole::Browser ==> is_browser_hooks(hooks@),
        role == ProcessRole::Renderer ==> is_renderer_hooks(hooks@),
        role == ProcessRole::Other ==> hooks@.len() == 0,
{
    match role {
        ProcessRole::Browser => crate::browser::init(),
        ProcessRole::Renderer => crate::renderer::init(),
        ProcessRole::Other => Vec::new(),
    }
}

/// The reason code with which a library is told it was loaded into a process.
pub const DLL_PROCESS_ATTACH: u32 = 1;

/// What the library does on an entry-point notification with code `reason`,
/// in a process whose executable is `exe_name` and whose arguments are
/// `args`: on load, the hooks for the process's role; otherwise none.
pub fn on_attach(reason: u32, exe_name: &str, args: &Vec<String>) -> (hooks: Vec<HookSpec>)
    ensures
        reason != DLL_PROCESS_ATTACH ==> hooks@.len() == 0,
        reason == DLL_PROCESS_ATTACH ==> ({
            let role = role_of(lowercase(exe_name@), "leagueclientuxrenderer.exe"@, texts(args@));
            &&& role == ProcessRole::Browser ==> is_browser_hooks(hooks@)
            &&& role == ProcessRole::Renderer ==> is_renderer_hooks(hooks@)
            &&& role == ProcessRole::Other ==> hooks@.len() == 0
        }),
{
    if reason == DLL_PROCESS_ATTACH {
        let role = process_role(exe_name, args);
        hooks_for(role)
    } else {
        Vec::new()
    }
}

/// The browser's executable makes the browser whatever the arguments; the
/// renderer's executable makes a renderer exactly when some argument, at any
/// position, is `--type=renderer`; any other executable gets no role.
pub proof fn law_role(exe: Seq<char>, renderer_exe: Seq<char>, args: Seq<Seq<char>>)
    ensures
        exe == "leagueclientux.exe"@ ==> role_of(exe, renderer_exe, args) == ProcessRole::Browser,
        exe != "leagueclientux.exe"@ && exe == renderer_exe ==> (role_of(exe, renderer_exe, args)
            == ProcessRole::Renderer <==> exists|i: int|
            0 <= i < args.len() && #[trigger] args[i] == "--type=renderer"@),
        exe != "leagueclientux.exe"@ && exe != renderer_exe ==> role_of(exe, renderer_exe, args)
            == ProcessRole::Other,
{
    if exists|i: int| 0 <= i < args.len() && #[trigger] args[i] == "--type=renderer"@ {
        let i = choose|i: int| 0 <= i < args.len() && #[trigger] args[i] == "--type=renderer"@;
        assert(args.contains("--type=renderer"@));
    }
}

/// An argument list is searched whole: putting `--type=renderer` anywhere in
/// it makes the renderer's executable a renderer.
pub proof fn law_renderer_flag_anywhere(
    renderer_exe: Seq<char>,
    before: Seq<Seq<char>>,
    after: Seq<Seq<char>>,
)
    requires
        renderer_exe != "leagueclientux.exe"@,
    ensures
        role_of(renderer_exe, renderer_exe, before + seq!["--type=renderer"@] + after)
            == ProcessRole::Renderer,
{
    let args = before + seq!["--type=renderer"@] + after;
    assert(args[before.len() as int] == "--type=renderer"@);
    law_role(renderer_exe, renderer_exe, args);
}

} // verus!
