use brightvol::brightness::BrightnessError;
use brightvol::config::Config;
use brightvol::hook::{is_enabled, HookState};
use brightvol::tray::{
    autostart_changed, handle_command, menu_entries, set_tip, CommandAction, MenuEntry, Startup,
    StartupAction, StartupEvent, ID_AUTOSTART, ID_ENABLED, ID_EXIT,
};

fn wide(s: &str) -> Vec<u16> {
    s.encode_utf16().collect()
}

fn state(intercept: bool, autostart: bool) -> (Config, HookState) {
    (
        Config { first_run_complete: true, intercept_enabled: intercept, autostart },
        HookState::new(intercept),
    )
}

#[test]
fn tip_is_copied_and_terminated() {
    let mut tip = [7u16; 8];
    set_tip(&mut tip, &wide("abc"));
    assert_eq!(&tip[..4], &[97, 98, 99, 0]);
    assert_eq!(&tip[4..], &[7, 7, 7, 7]);
}

#[test]
fn long_tip_is_truncated() {
    let mut tip = [7u16; 4];
    set_tip(&mut tip, &wide("abcdef"));
    assert_eq!(tip, [97, 98, 99, 0]);
    let mut one = [7u16; 1];
    set_tip(&mut one, &wide("abc"));
    assert_eq!(one, [0]);
}

#[test]
fn menu_lists_toggles_separator_and_exit() {
    let entries = menu_entries(true, false);
    assert_eq!(entries.len(), 4);
    match &entries[0] {
        MenuEntry::Item { id, label, checked } => {
            assert_eq!((*id, *label, *checked), (ID_ENABLED, "Enabled", Some(true)))
        }
        _ => panic!(),
    }
    match &entries[1] {
        MenuEntry::Item { id, label, checked } => {
            assert_eq!((*id, *label, *checked), (ID_AUTOSTART, "Start on login", Some(false)))
        }
        _ => panic!(),
    }
    assert!(matches!(entries[2], MenuEntry::Separator));
    match &entries[3] {
        MenuEntry::Item { id, label, checked } => {
            assert_eq!((*id, *label, *checked), (ID_EXIT, "Exit", None))
        }
        _ => panic!(),
    }
}

#[test]
fn menu_reflects_switches() {
    let (config, hook) = state(false, true);
    let entries = menu_entries(is_enabled(&hook), config.autostart);
    assert!(matches!(entries[0], MenuEntry::Item { checked: Some(false), .. }));
    assert!(matches!(entries[1], MenuEntry::Item { checked: Some(true), .. }));
}

#[test]
fn enabled_command_flips_switch_and_saves() {
    let (mut config, mut hook) = state(true, false);
    match handle_command(&mut config, &mut hook, ID_ENABLED) {
        CommandAction::SaveConfig(c) => assert!(!c.intercept_enabled),
        _ => panic!(),
    }
    assert!(!is_enabled(&hook));
    assert!(!config.intercept_enabled);
    let _ = handle_command(&mut config, &mut hook, ID_ENABLED);
    assert!(is_enabled(&hook));
    assert!(config.intercept_enabled);
}

#[test]
fn autostart_command_asks_for_the_opposite() {
    let (mut config, mut hook) = state(true, false);
    assert!(matches!(
        handle_command(&mut config, &mut hook, ID_AUTOSTART),
        CommandAction::SetAutostart(true)
    ));
    assert!(!config.autostart);
    match autostart_changed(&mut config, true, Ok(())) {
        CommandAction::SaveConfig(c) => assert!(c.autostart),
        _ => panic!(),
    }
    assert!(config.autostart);
}

#[test]
fn failed_autostart_change_warns_and_keeps_setting() {
    let (mut config, _) = state(true, false);
    match autostart_changed(&mut config, true, Err("cannot open Run key (error 5)".to_string())) {
        CommandAction::Warn(m) => assert_eq!(
            m,
            "Could not change the autostart setting: cannot open Run key (error 5)"
        ),
        _ => panic!(),
    }
    assert!(!config.autostart);
}

#[test]
fn exit_and_unknown_commands() {
    let (mut config, mut hook) = state(true, true);
    let before = config;
    assert!(matches!(
        handle_command(&mut config, &mut hook, ID_EXIT),
        CommandAction::RemoveIconAndQuit
    ));
    assert!(matches!(handle_command(&mut config, &mut hook, 0), CommandAction::Ignore));
    assert!(matches!(handle_command(&mut config, &mut hook, 99), CommandAction::Ignore));
    assert!(is_enabled(&hook));
    assert_eq!(config, before);
}

fn feed(s: &mut Startup, ev: StartupEvent) -> StartupAction {
    assert!(s.expects(&ev));
    s.resume(ev)
}

#[test]
fn first_run_asks_applies_saves_and_reconciles() {
    let (mut s, a) = Startup::start();
    assert!(matches!(a, StartupAction::LoadConfig));
    let a = feed(&mut s, StartupEvent::ConfigLoaded(Config::default()));
    assert!(matches!(a, StartupAction::AskAutostart));
    let a = feed(&mut s, StartupEvent::AutostartAnswered(true));
    assert!(matches!(a, StartupAction::ApplyAutostart(true)));
    match feed(&mut s, StartupEvent::AutostartApplied(Ok(()))) {
        StartupAction::SaveConfig(c) => {
            assert!(c.first_run_complete);
            assert!(c.intercept_enabled);
        }
        _ => panic!(),
    }
    assert!(matches!(feed(&mut s, StartupEvent::ConfigSaved), StartupAction::QueryAutostart));
    assert!(matches!(
        feed(&mut s, StartupEvent::AutostartQueried(true)),
        StartupAction::ConnectBrightness
    ));
    assert!(matches!(
        feed(&mut s, StartupEvent::BrightnessConnected(Ok(()))),
        StartupAction::InstallHook { enabled: true, steps_brightness: true }
    ));
    assert!(matches!(
        feed(&mut s, StartupEvent::HookInstalled(Ok(()))),
        StartupAction::GetModuleHandle
    ));
    assert!(matches!(
        feed(&mut s, StartupEvent::ModuleHandle(Ok(()))),
        StartupAction::CreateWindow
    ));
    assert!(matches!(
        feed(&mut s, StartupEvent::WindowCreated(Ok(()))),
        StartupAction::ShowTrayIcon
    ));
    match feed(&mut s, StartupEvent::IconShown) {
        StartupAction::Run(c) => assert_eq!(
            c,
            Config { first_run_complete: true, intercept_enabled: true, autostart: true }
        ),
        _ => panic!(),
    }
}

#[test]
fn first_run_failure_warns_then_still_saves() {
    let (mut s, _) = Startup::start();
    let _ = feed(&mut s, StartupEvent::ConfigLoaded(Config::default()));
    let _ = feed(&mut s, StartupEvent::AutostartAnswered(false));
    match feed(&mut s, StartupEvent::AutostartApplied(Err("boom".to_string()))) {
        StartupAction::Warn(m) => assert_eq!(m, "Could not change the autostart setting: boom"),
        _ => panic!(),
    }
    match feed(&mut s, StartupEvent::WarningShown) {
        StartupAction::SaveConfig(c) => assert!(c.first_run_complete),
        _ => panic!(),
    }
}

#[test]
fn later_runs_skip_prompt_and_registry_wins() {
    let (mut s, _) = Startup::start();
    let loaded = Config { first_run_complete: true, intercept_enabled: false, autostart: true };
    assert!(matches!(
        feed(&mut s, StartupEvent::ConfigLoaded(loaded)),
        StartupAction::QueryAutostart
    ));
    let _ = feed(&mut s, StartupEvent::AutostartQueried(false));
    assert!(!s.config.autostart);
    match feed(&mut s, StartupEvent::BrightnessConnected(Err(BrightnessError("no WMI".to_string())))) {
        StartupAction::Warn(m) => assert_eq!(
            m,
            "Brightness control is unavailable on this system: no WMI\n\nThe volume keys will not be remapped."
        ),
        _ => panic!(),
    }
    assert!(matches!(
        feed(&mut s, StartupEvent::WarningShown),
        StartupAction::InstallHook { enabled: false, steps_brightness: false }
    ));
}

#[test]
fn startup_failures_stop_with_message() {
    let cases: Vec<(StartupEvent, &str)> = vec![
        (StartupEvent::HookInstalled(Err("e1".to_string())), "Failed to install the keyboard hook: e1"),
        (StartupEvent::ModuleHandle(Err("e2".to_string())), "Could not get module handle: e2"),
        (StartupEvent::WindowCreated(Err("e3".to_string())), "Could not create the message window: e3"),
    ];
    for (i, (failure, expected)) in cases.into_iter().enumerate() {
        let (mut s, _) = Startup::start();
        let _ = feed(&mut s, StartupEvent::ConfigLoaded(Config { first_run_complete: true, ..Config::default() }));
        let _ = feed(&mut s, StartupEvent::AutostartQueried(false));
        let _ = feed(&mut s, StartupEvent::BrightnessConnected(Ok(())));
        if i >= 1 {
            let _ = feed(&mut s, StartupEvent::HookInstalled(Ok(())));
        }
        if i >= 2 {
            let _ = feed(&mut s, StartupEvent::ModuleHandle(Ok(())));
        }
        match feed(&mut s, failure) {
            StartupAction::Fail(m) => assert_eq!(m, expected),
            _ => panic!(),
        }
    }
}
