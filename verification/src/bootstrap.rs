//! The bootstrapper: it starts the client suspended under a debugger flag,
//! detaches the debugger, loads this library into it and resumes it; in the
//! client it hooks `CreateProcessW` so that renderer processes get the
//! library too.
use vstd::prelude::*;
use crate::hook::{names, Detour, HookSpec};
use crate::browser::is_browser_hooks;
use crate::renderer::is_renderer_hooks;
use crate::process::{lowercase, role_of, texts, role_for, to_lowercase, ProcessRole};
use crate::text::{contains, occurs_in, law_occurs_in_context};

verus! {

/// Process creation flag: the new process's primary thread starts suspended.
pub const CREATE_SUSPENDED: u32 = 0x0000_0004;

/// Process creation flag: the creating process debugs the new one (and not
/// its children).
pub const DEBUG_ONLY_THIS_PROCESS: u32 = 0x0000_0002;

/// The information class that asks a process for its debug object.
pub const PROCESS_DEBUG_OBJECT_HANDLE: u32 = 30;

/// The capacity, in UTF-16 units, of the buffer that receives this library's path.
pub const PATH_CAPACITY: usize = 2048;

/// The flags with which the bootstrapper creates the client's process.
pub fn bootstrap_creation_flags() -> (flags: u32)
    ensures
        flags == CREATE_SUSPENDED | DEBUG_ONLY_THIS_PROCESS,
        flags == 6,
{
    let flags = CREATE_SUSPENDED | DEBUG_ONLY_THIS_PROCESS;
    assert(CREATE_SUSPENDED | DEBUG_ONLY_THIS_PROCESS == 6u32) by (bit_vector);
    flags
}

/// What the bootstrapper does once the client's process was created or not.
#[derive(Clone, Copy, Debug, PartialEq, Eq, Structural)]
pub enum BootstrapStep {
    /// Creation failed: report the last error; the entry point returns -1.
    ReportFailure,
    /// Creation succeeded: detach the debugger, load the library, resume the
    /// client and wait for it; the entry point returns 0.
    RunClient,
}

/// The step that follows the result of creating the client's process
/// (non-zero on success).
pub fn bootstrap_step(created: i32) -> (step: BootstrapStep)
    ensures
        step == (if created == 0 { BootstrapStep::ReportFailure } else { BootstrapStep::RunClient }),
{
    if created == 0 {
        BootstrapStep::ReportFailure
    } else {
        BootstrapStep::RunClient
    }
}

/// The bootstrapper's exit code after `step`.
pub fn bootstrap_exit_code(step: BootstrapStep) -> (code: i32)
    ensures
        code == (match step {
            BootstrapStep::ReportFailure => -1i32,
            BootstrapStep::RunClient => 0i32,
        }),
{
    match step {
        BootstrapStep::ReportFailure => -1,
        BootstrapStep::RunClient => 0,
    }
}

/// Whether the query for the client's debug object succeeded (a non-negative
/// status), so that the debugger is detached and the object closed.
pub fn debug_object_found(status: i32) -> (found: bool)
    ensures
        found == (status >= 0),
{
    status >= 0
}

/// The size in bytes of this library's path, `path_len` UTF-16 units and a
/// terminating zero unit, as it is copied into the client's memory.
pub fn path_byte_size(path_len: usize) -> (size: usize)
    requires
        (path_len + 1) * 2 <= usize::MAX,
    ensures
        size == (path_len + 1) * 2,
{
    (path_len + 1) * 2
}

/// The role of a process the bootstrapped library was loaded into; here the
/// renderer's executable is `leagueclientuxrender.exe`.
pub fn bootstrap_role(exe_name: &str, args: &Vec<String>) -> (role: ProcessRole)
    ensures
        role == role_of(lowercase(exe_name@), "leagueclientuxrender.exe"@, texts(args@)),
{
    let exe = to_lowercase(exe_name);
    role_for(exe.as_str(), "leagueclientuxrender.exe", args)
}

/// The hooks the bootstrapped library installs in a process of the given
/// role: in the browser, the browser's hooks and then `CreateProcessW` from
/// `kernel32.dll`; in a renderer, the renderer's hooks; otherwise none.
pub fn bootstrap_hooks(role: ProcessRole) -> (hooks: Vec<HookSpec>)
    ensures
        role == ProcessRole::Browser ==> hooks@.len() == 3 && is_browser_hooks(hooks@.take(2))
            && names(hooks@[2], Detour::CreateProcessW, "kernel32.dll\0"@, "CreateProcessW\0"@),
        role == ProcessRole::Renderer ==> is_renderer_hooks(hooks@),
        role == ProcessRole::Other ==> hooks@.len() == 0,
{
    match role {
        ProcessRole::Browser => {
            let mut hooks = crate::browser::init();
            let ghost first = hooks@;
            hooks.push(
                HookSpec {
                    detour: Detour::CreateProcessW,
                    library: "kernel32.dll\0",
                    symbol: "CreateProcessW\0",
                },
            );
            assert(hooks@.take(2) =~= first);
            hooks
        },
        ProcessRole::Renderer => crate::renderer::init(),
        ProcessRole::Other => Vec::new(),
    }
}

/// Whether a lowercased command line starts a renderer: it names
/// `leagueclientuxrender.exe` and holds `--type=renderer`.
pub open spec fn is_renderer_command(lower: Seq<char>) -> bool {
    occurs_in("leagueclientuxrender.exe"@, lower) && occurs_in("--type=renderer"@, lower)
}

/// How an intercepted process creation goes on: with which flags the
/// process is created, and whether it is a renderer, which then gets the
/// library loaded and is resumed once created.
pub struct CreatePlan {
    pub flags: u32,
    pub is_renderer: bool,
}

/// The plan for a process creation with command line `command_line` and
/// flags `flags`: a renderer is created suspended.
pub fn plan_create_process(command_line: &str, flags: u32) -> (plan: CreatePlan)
    ensures
        plan.is_renderer == is_renderer_command(lowercase(command_line@)),
        plan.flags == (if plan.is_renderer { flags | CREATE_SUSPENDED } else { flags }),
{
    let lower = to_lowercase(command_line);
    let is_renderer = contains(lower.as_str(), "leagueclientuxrender.exe") && contains(
        lower.as_str(),
        "--type=renderer",
    );
    let mut creation_flags: u32 = flags;
    if is_renderer {
        creation_flags = creation_flags | CREATE_SUSPENDED;
    }
    CreatePlan { flags: creation_flags, is_renderer }
}

/// Whether, after the creation returned `ret` (non-zero on success), the
/// library is loaded into the new process and its thread resumed.
pub fn inject_after_create(plan: &CreatePlan, ret: i32) -> (inject: bool)
    ensures
        inject == (ret != 0 && plan.is_renderer),
{
    ret != 0 && plan.is_renderer
}

/// A lowercased command line is a renderer's exactly when it holds both
/// `leagueclientuxrender.exe` and `--type=renderer`, whatever else it holds
/// (the drive, the folders, other switches).
pub proof fn law_renderer_command(lower: Seq<char>, a: Seq<char>, b: Seq<char>, c: Seq<char>)
    ensures
        is_renderer_command(lower) <==> occurs_in("leagueclientuxrender.exe"@, lower) && occurs_in(
            "--type=renderer"@,
            lower,
        ),
        is_renderer_command(a + "leagueclientuxrender.exe"@ + b + "--type=renderer"@ + c),
{
    let l = a + "leagueclientuxrender.exe"@ + b + "--type=renderer"@ + c;
    assert(l == a + "leagueclientuxrender.exe"@ + (b + "--type=renderer"@ + c));
    law_occurs_in_context("leagueclientuxrender.exe"@, a, b + "--type=renderer"@ + c);
    assert(l == (a + "leagueclientuxrender.exe"@ + b) + "--type=renderer"@ + c);
    law_occurs_in_context("--type=renderer"@, a + "leagueclientuxrender.exe"@ + b, c);
}

} // verus!
