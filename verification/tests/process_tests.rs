use pengu::bootstrap::{
    bootstrap_creation_flags, bootstrap_exit_code, bootstrap_hooks, bootstrap_role, bootstrap_step,
    debug_object_found, inject_after_create, path_byte_size, plan_create_process, BootstrapStep,
    CREATE_SUSPENDED,
};
use pengu::browser;
use pengu::hook::Detour;
use pengu::process::{on_attach, process_role, ProcessRole};
use pengu::renderer::{self, RendererState, SCRIPT};

fn args(list: &[&str]) -> Vec<String> {
    list.iter().map(|s| s.to_string()).collect()
}

#[test]
fn browser_init_hooks_cef_initialize_and_create_browser() {
    let hooks = browser::init();
    assert_eq!(hooks.len(), 2);
    assert_eq!(hooks[0].detour, Detour::CefInitialize);
    assert_eq!(hooks[0].library, "libcef.dll\0");
    assert_eq!(hooks[0].symbol, "cef_initialize\0");
    assert_eq!(hooks[1].detour, Detour::CefCreateBrowser);
    assert_eq!(hooks[1].library, "libcef.dll\0");
    assert_eq!(hooks[1].symbol, "cef_browser_host_create_browser\0");
}

#[test]
fn renderer_init_hooks_execute_process() {
    let hooks = renderer::init();
    assert_eq!(hooks.len(), 1);
    assert_eq!(hooks[0].detour, Detour::CefExecuteProcess);
    assert_eq!(hooks[0].library, "libcef.dll\0");
    assert_eq!(hooks[0].symbol, "cef_execute_process\0");
}

#[test]
fn process_role_by_name_and_arguments() {
    assert_eq!(process_role("LeagueClientUx.exe", &args(&[])), ProcessRole::Browser);
    assert_eq!(
        process_role("LeagueClientUxRenderer.exe", &args(&["x", "--type=renderer"])),
        ProcessRole::Renderer
    );
    assert_eq!(
        process_role("LeagueClientUxRenderer.exe", &args(&["--type=gpu-process"])),
        ProcessRole::Other
    );
    assert_eq!(
        process_role("LeagueClientUxRender.exe", &args(&["--type=renderer"])),
        ProcessRole::Other
    );
    assert_eq!(process_role("notepad.exe", &args(&["--type=renderer"])), ProcessRole::Other);
}

#[test]
fn on_attach_only_on_process_attach() {
    let a = args(&["--type=renderer"]);
    assert_eq!(on_attach(0, "LeagueClientUx.exe", &a).len(), 0);
    assert_eq!(on_attach(2, "LeagueClientUx.exe", &a).len(), 0);
    let hooks = on_attach(1, "LeagueClientUx.exe", &a);
    assert_eq!(hooks.len(), 2);
    let hooks = on_attach(1, "leagueclientuxrenderer.exe", &a);
    assert_eq!(hooks.len(), 1);
    assert_eq!(hooks[0].detour, Detour::CefExecuteProcess);
    assert_eq!(on_attach(1, "explorer.exe", &a).len(), 0);
}

#[test]
fn renderer_runs_script_only_in_main_browser_client_page() {
    let mut state = RendererState::new();
    assert!(!state.is_main);
    assert_eq!(state.on_context_created("https://riot:51843/index.html"), None);
    state.on_browser_created(None);
    assert!(!state.is_main);
    state.on_browser_created(Some(false));
    assert!(!state.is_main);
    state.on_browser_created(Some(true));
    assert!(state.is_main);
    state.on_browser_created(Some(false));
    assert!(state.is_main);
    assert_eq!(state.on_context_created("https://riot:51843/index.html"), Some(SCRIPT));
    assert_eq!(SCRIPT, "console.log('hello from pengu-rust!')");
    assert_eq!(state.on_context_created("https://riot:51843/other.html"), None);
    assert_eq!(state.on_context_created("http://riot:51843/index.html"), None);
    assert_eq!(state.on_context_created("about:blank"), None);
}

#[test]
fn bootstrap_role_uses_render_executable() {
    assert_eq!(
        bootstrap_role("LeagueClientUxRender.exe", &args(&["--type=renderer"])),
        ProcessRole::Renderer
    );
    assert_eq!(bootstrap_role("LEAGUECLIENTUX.EXE", &args(&[])), ProcessRole::Browser);
    assert_eq!(
        bootstrap_role("LeagueClientUxRenderer.exe", &args(&["--type=renderer"])),
        ProcessRole::Other
    );
}

#[test]
fn bootstrap_hooks_add_create_process() {
    let hooks = bootstrap_hooks(ProcessRole::Browser);
    assert_eq!(hooks.len(), 3);
    assert_eq!(hooks[2].detour, Detour::CreateProcessW);
    assert_eq!(hooks[2].library, "kernel32.dll\0");
    assert_eq!(hooks[2].symbol, "CreateProcessW\0");
    assert_eq!(bootstrap_hooks(ProcessRole::Renderer).len(), 1);
    assert_eq!(bootstrap_hooks(ProcessRole::Other).len(), 0);
}

#[test]
fn create_process_plan_for_renderer() {
    let plan = plan_create_process(
        "\"C:\\Riot Games\\LeagueClientUxRender.exe\" --type=renderer --lang=en",
        0x10,
    );
    assert!(plan.is_renderer);
    assert_eq!(plan.flags, 0x10 | CREATE_SUSPENDED);
    assert!(inject_after_create(&plan, 1));
    assert!(!inject_after_create(&plan, 0));
    let plan = plan_create_process("LeagueClientUxRender.exe --type=gpu-process", 0x10);
    assert!(!plan.is_renderer);
    assert_eq!(plan.flags, 0x10);
    assert!(!inject_after_create(&plan, 1));
    let plan = plan_create_process("C:\\LEAGUECLIENTUXRENDER.EXE --TYPE=RENDERER", CREATE_SUSPENDED);
    assert!(plan.is_renderer);
    assert_eq!(plan.flags, CREATE_SUSPENDED);
}

#[test]
fn bootstrap_steps_and_codes() {
    assert_eq!(bootstrap_creation_flags(), 6);
    assert_eq!(bootstrap_step(0), BootstrapStep::ReportFailure);
    assert_eq!(bootstrap_step(1), BootstrapStep::RunClient);
    assert_eq!(bootstrap_step(-5), BootstrapStep::RunClient);
    assert_eq!(bootstrap_exit_code(BootstrapStep::ReportFailure), -1);
    assert_eq!(bootstrap_exit_code(BootstrapStep::RunClient), 0);
    assert!(debug_object_found(0));
    assert!(!debug_object_found(-1073741811));
    assert_eq!(path_byte_size(0), 2);
    assert_eq!(path_byte_size(40), 82);
    assert_eq!(path_byte_size(2048), 4098);
}
