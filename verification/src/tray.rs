//! The tray application's decisions: the start-up sequence (first-run prompt,
//! autostart reconciliation, hook installation), the tray menu and what each
//! of its commands does, and the tray tooltip.
//!
//! The caller owns the windows, message boxes, registry and panel; it performs
//! each action decided here and reports the outcome back.
use vstd::prelude::*;
use vstd::string::*;
use crate::brightness::BrightnessError;
use crate::config::{default_config, loaded_config, Config};
use crate::hook::{is_enabled, set_enabled, HookState};

verus! {

/// Identifier of the tray icon.
pub const TRAY_ID: u32 = 1;

/// Menu command: toggle interception.
pub const ID_ENABLED: u32 = 1;

/// Menu command: toggle run-on-login.
pub const ID_AUTOSTART: u32 = 2;

/// Menu command: exit the application.
pub const ID_EXIT: u32 = 3;

/// The tooltip buffer after copying `text` into `tip`: as much of `text` as
/// fits before a terminating zero, the rest of `tip` untouched.
pub open spec fn tip_after(tip: Seq<u16>, text: Seq<u16>) -> Seq<u16> {
    let n = if text.len() < tip.len() - 1 {
        text.len() as int
    } else {
        tip.len() - 1
    };
    text.take(n) + seq![0u16] + tip.skip(n + 1)
}

/// Copy a tooltip string (UTF-16) into the fixed-size tooltip buffer,
/// truncating it so that a terminating zero fits.
pub fn set_tip(tip: &mut [u16], text: &[u16])
    requires
        old(tip)@.len() >= 1,
    ensures
        final(tip)@ == tip_after(old(tip)@, text@),
{
    let cap = tip.len() - 1;
    let n = if text.len() < cap {
        text.len()
    } else {
        cap
    };
    let mut i: usize = 0;
    while i < n
        invariant
            n <= cap,
            cap == old(tip)@.len() - 1,
            n <= text@.len(),
            tip@.len() == old(tip)@.len(),
            i <= n,
            forall|j: int| 0 <= j < i ==> tip@[j] == text@[j],
            forall|j: int| i <= j < tip@.len() ==> tip@[j] == old(tip)@[j],
        decreases n - i,
    {
        tip[i] = text[i];
        i += 1;
    }
    tip[n] = 0;
    assert(tip@ =~= tip_after(old(tip)@, text@));
}

/// An entry of the tray menu.
pub enum MenuEntry {
    /// A command; `checked` is the check mark of a toggle, `None` for a plain
    /// command.
    Item { id: u32, label: &'static str, checked: Option<bool> },
    /// A separator line.
    Separator,
}

/// `entry` is the command `id` labelled `label` with check state `checked`.
pub open spec fn is_item(entry: MenuEntry, id: u32, label: Seq<char>, checked: Option<bool>) -> bool {
    entry matches MenuEntry::Item { id: i, label: l, checked: c } && i == id && l@ == label && c
        == checked
}

/// The tray menu: "Enabled" (checked while interception is on), "Start on
/// login" (checked while autostart is on), a separator, and "Exit".
pub fn menu_entries(enabled: bool, autostart_on: bool) -> (entries: Vec<MenuEntry>)
    ensures
        entries@.len() == 4,
        is_item(entries@[0], ID_ENABLED, "Enabled"@, Some(enabled)),
        is_item(entries@[1], ID_AUTOSTART, "Start on login"@, Some(autostart_on)),
        entries@[2] is Separator,
        is_item(entries@[3], ID_EXIT, "Exit"@, None),
{
    let mut entries: Vec<MenuEntry> = Vec::new();
    entries.push(MenuEntry::Item { id: ID_ENABLED, label: "Enabled", checked: Some(enabled) });
    entries.push(
        MenuEntry::Item { id: ID_AUTOSTART, label: "Start on login", checked: Some(autostart_on) },
    );
    entries.push(MenuEntry::Separator);
    entries.push(MenuEntry::Item { id: ID_EXIT, label: "Exit", checked: None });
    entries
}

/// Warning shown when the autostart setting could not be changed.
pub open spec fn autostart_warning_text(error: Seq<char>) -> Seq<char> {
    "Could not change the autostart setting: "@ + error
}

/// Warning shown when brightness control is unavailable.
pub open spec fn brightness_warning_text(error: Seq<char>) -> Seq<char> {
    "Brightness control is unavailable on this system: "@ + error
        + "\n\nThe volume keys will not be remapped."@
}

/// Error shown when the keyboard hook could not be installed.
pub open spec fn hook_failure_text(error: Seq<char>) -> Seq<char> {
    "Failed to install the keyboard hook: "@ + error
}

/// Error shown when the module handle could not be obtained.
pub open spec fn module_failure_text(error: Seq<char>) -> Seq<char> {
    "Could not get module handle: "@ + error
}

/// Error shown when the message window could not be created.
pub open spec fn window_failure_text(error: Seq<char>) -> Seq<char> {
    "Could not create the message window: "@ + error
}

fn prefixed(prefix: &str, error: &str) -> (msg: String)
    ensures
        msg@ == prefix@ + error@,
{
    let mut msg = String::from_str(prefix);
    msg.append(error);
    msg
}

/// What the tray does after a menu command.
pub enum CommandAction {
    /// Nothing to do.
    Ignore,
    /// Persist these settings (a failure is ignored).
    SaveConfig(Config),
    /// Enable (`true`) or disable run-on-login, then report the outcome to
    /// [`autostart_changed`].
    SetAutostart(bool),
    /// Show this warning.
    Warn(String),
    /// Remove the tray icon and leave the message loop.
    RemoveIconAndQuit,
}

/// The settings after menu command `id`, with interception `enabled` before
/// it: "Enabled" flips interception and records the new position; the other
/// commands change nothing at once.
pub open spec fn config_after_command(config: Config, enabled: bool, id: u32) -> Config {
    if id == ID_ENABLED {
        Config { intercept_enabled: !enabled, ..config }
    } else {
        config
    }
}

/// The interception switch after menu command `id`.
pub open spec fn enabled_after_command(enabled: bool, id: u32) -> bool {
    if id == ID_ENABLED {
        !enabled
    } else {
        enabled
    }
}

/// Apply a menu selection to the settings and the hook's interception switch.
pub fn handle_command(config: &mut Config, hook: &mut HookState, id: u32) -> (action:
    CommandAction)
    ensures
        final(hook)@ == enabled_after_command(old(hook)@, id),
        id == ID_ENABLED ==> final(hook)@ == !old(hook)@ && *final(config) == (Config {
            intercept_enabled: !old(hook)@,
            ..*old(config)
        }),
        id != ID_ENABLED ==> final(hook)@ == old(hook)@ && *final(config) == *old(config),
        *final(config) == config_after_command(*old(config), old(hook)@, id),
        id == ID_ENABLED ==> action == CommandAction::SaveConfig(*final(config)),
        id == ID_AUTOSTART ==> action == CommandAction::SetAutostart(!old(config).autostart),
        id == ID_EXIT ==> action is RemoveIconAndQuit,
        id != ID_ENABLED && id != ID_AUTOSTART && id != ID_EXIT ==> action is Ignore,
{
    if id == ID_ENABLED {
        let new = !is_enabled(hook);
        set_enabled(hook, new);
        config.intercept_enabled = new;
        CommandAction::SaveConfig(*config)
    } else if id == ID_AUTOSTART {
        CommandAction::SetAutostart(!config.autostart)
    } else if id == ID_EXIT {
        CommandAction::RemoveIconAndQuit
    } else {
        CommandAction::Ignore
    }
}

/// Take the outcome of changing run-on-login to `requested`: on success
/// record and persist it; on failure warn and keep the settings.
pub fn autostart_changed(config: &mut Config, requested: bool, outcome: Result<(), String>) -> (action:
    CommandAction)
    ensures
        outcome is Ok ==> *final(config) == (Config { autostart: requested, ..*old(config) })
            && action == CommandAction::SaveConfig(*final(config)),
        outcome matches Err(e) ==> {
            &&& *final(config) == *old(config)
            &&& action matches CommandAction::Warn(msg)
            &&& msg@ == autostart_warning_text(e@)
        },
{
    match outcome {
        Ok(()) => {
            config.autostart = requested;
            CommandAction::SaveConfig(*config)
        },
        Err(e) => CommandAction::Warn(
            prefixed("Could not change the autostart setting: ", e.as_str()),
        ),
    }
}

/// Where start-up stands.
pub enum StartupStage {
    /// Waiting for the stored settings.
    LoadingConfig,
    /// Waiting for the answer to the first-run autostart question.
    AskingAutostart,
    /// Waiting for the outcome of applying the first-run answer.
    ApplyingAutostart,
    /// Waiting for the autostart warning to be dismissed.
    WarnedAutostart,
    /// Waiting for the settings to be saved after the first run.
    SavingConfig,
    /// Waiting for whether the Run value is present.
    QueryingAutostart,
    /// Waiting for the brightness provider.
    ConnectingBrightness,
    /// Waiting for the brightness warning to be dismissed.
    WarnedBrightness,
    /// Waiting for the keyboard hook.
    InstallingHook,
    /// Waiting for the module handle.
    GettingModule,
    /// Waiting for the hidden message window.
    CreatingWindow,
    /// Waiting for the tray icon to be added.
    ShowingIcon,
    /// Start-up is over; the message loop runs.
    Running,
    /// Start-up failed.
    Failed,
}

/// What start-up asks the caller to do next.
pub enum StartupAction {
    /// Load the stored settings.
    LoadConfig,
    /// Ask whether to start automatically on login.
    AskAutostart,
    /// Enable (`true`) or disable run-on-login.
    ApplyAutostart(bool),
    /// Show this warning and wait for it to be dismissed.
    Warn(String),
    /// Persist these settings (a failure is ignored).
    SaveConfig(Config),
    /// Find out whether the Run value is present.
    QueryAutostart,
    /// Connect to the brightness provider.
    ConnectBrightness,
    /// Install the keyboard hook with interception `enabled`; key presses step
    /// the brightness when `steps_brightness`, and do nothing otherwise.
    InstallHook { enabled: bool, steps_brightness: bool },
    /// Get the module handle.
    GetModuleHandle,
    /// Register the window class and create the hidden message window.
    CreateWindow,
    /// Add the tray icon.
    ShowTrayIcon,
    /// Run the message loop with these settings.
    Run(Config),
    /// Show this error and stop.
    Fail(String),
}

/// What the caller reports back.
pub enum StartupEvent {
    /// The stored settings (defaults when none could be read).
    ConfigLoaded(Config),
    /// The answer to the autostart question.
    AutostartAnswered(bool),
    /// Whether run-on-login could be changed, or the error message.
    AutostartApplied(Result<(), String>),
    /// The warning was dismissed.
    WarningShown,
    /// The settings were saved, or saving failed.
    ConfigSaved,
    /// Whether the Run value is present.
    AutostartQueried(bool),
    /// Whether the brightness provider could be reached.
    BrightnessConnected(Result<(), BrightnessError>),
    /// Whether the hook was installed, or the error message.
    HookInstalled(Result<(), String>),
    /// Whether the module handle was obtained, or the error message.
    ModuleHandle(Result<(), String>),
    /// Whether the message window was created, or the error message.
    WindowCreated(Result<(), String>),
    /// The tray icon was added.
    IconShown,
}

/// Start-up in progress, with the settings as they stand.
pub struct Startup {
    pub config: Config,
    pub stage: StartupStage,
}

/// `event` is the answer to what start-up in `stage` asked for.
pub open spec fn startup_answers(stage: StartupStage, event: StartupEvent) -> bool {
    match stage {
        StartupStage::LoadingConfig => event is ConfigLoaded,
        StartupStage::AskingAutostart => event is AutostartAnswered,
        StartupStage::ApplyingAutostart => event is AutostartApplied,
        StartupStage::WarnedAutostart => event is WarningShown,
        StartupStage::SavingConfig => event is ConfigSaved,
        StartupStage::QueryingAutostart => event is AutostartQueried,
        StartupStage::ConnectingBrightness => event is BrightnessConnected,
        StartupStage::WarnedBrightness => event is WarningShown,
        StartupStage::InstallingHook => event is HookInstalled,
        StartupStage::GettingModule => event is ModuleHandle,
        StartupStage::CreatingWindow => event is WindowCreated,
        StartupStage::ShowingIcon => event is IconShown,
        StartupStage::Running => false,
        StartupStage::Failed => false,
    }
}

/// Once past the first-run prompt, the settings record that it was shown.
pub open spec fn startup_inv(s: Startup) -> bool {
    match s.stage {
        StartupStage::LoadingConfig => true,
        StartupStage::AskingAutostart => true,
        StartupStage::ApplyingAutostart => true,
        StartupStage::WarnedAutostart => true,
        _ => s.config.first_run_complete,
    }
}

impl Startup {
    /// Begin start-up: first load the stored settings.
    pub fn start() -> (res: (Startup, StartupAction))
        ensures
            res.0.config == default_config(),
            res.0.stage is LoadingConfig,
            res.1 is LoadConfig,
            startup_inv(res.0),
    {
        (
            Startup { config: Config::default(), stage: StartupStage::LoadingConfig },
            StartupAction::LoadConfig,
        )
    }

    /// Whether `event` answers what start-up is waiting for.
    pub fn expects(&self, event: &StartupEvent) -> (b: bool)
        ensures
            b == startup_answers(self.stage, *event),
            self.stage is LoadingConfig ==> (b <==> event is ConfigLoaded),
            self.stage is AskingAutostart ==> (b <==> event is AutostartAnswered),
            self.stage is ApplyingAutostart ==> (b <==> event is AutostartApplied),
            self.stage is WarnedAutostart ==> (b <==> event is WarningShown),
            self.stage is SavingConfig ==> (b <==> event is ConfigSaved),
            self.stage is QueryingAutostart ==> (b <==> event is AutostartQueried),
            self.stage is ConnectingBrightness ==> (b <==> event is BrightnessConnected),
            self.stage is WarnedBrightness ==> (b <==> event is WarningShown),
            self.stage is InstallingHook ==> (b <==> event is HookInstalled),
            self.stage is GettingModule ==> (b <==> event is ModuleHandle),
            self.stage is CreatingWindow ==> (b <==> event is WindowCreated),
            self.stage is ShowingIcon ==> (b <==> event is IconShown),
            self.stage is Running ==> !b,
            self.stage is Failed ==> !b,
    {
        match (&self.stage, event) {
            (StartupStage::LoadingConfig, StartupEvent::ConfigLoaded(_)) => true,
            (StartupStage::AskingAutostart, StartupEvent::AutostartAnswered(_)) => true,
            (StartupStage::ApplyingAutostart, StartupEvent::AutostartApplied(_)) => true,
            (StartupStage::WarnedAutostart, StartupEvent::WarningShown) => true,
            (StartupStage::SavingConfig, StartupEvent::ConfigSaved) => true,
            (StartupStage::QueryingAutostart, StartupEvent::AutostartQueried(_)) => true,
            (StartupStage::ConnectingBrightness, StartupEvent::BrightnessConnected(_)) => true,
            (StartupStage::WarnedBrightness, StartupEvent::WarningShown) => true,
            (StartupStage::InstallingHook, StartupEvent::HookInstalled(_)) => true,
            (StartupStage::GettingModule, StartupEvent::ModuleHandle(_)) => true,
            (StartupStage::CreatingWindow, StartupEvent::WindowCreated(_)) => true,
            (StartupStage::ShowingIcon, StartupEvent::IconShown) => true,
            _ => false,
        }
    }

    /// Take the outcome of the pending step and decide the next one.
    ///
    /// On first run the user is asked about autostart, the answer is applied
    /// (a failure only warns) and the settings are saved as having run once.
    /// The registry is the source of truth for autostart, so the setting is
    /// then taken from it. Without a brightness provider the hook is still
    /// installed (after a warning) so that the tray works, but key presses do
    /// nothing. A hook, module or window failure stops start-up.
    pub fn resume(&mut self, event: StartupEvent) -> (action: StartupAction)
        requires
            startup_answers(old(self).stage, event),
        ensures
            startup_inv(*old(self)) ==> startup_inv(*final(self)),
            match event {
                StartupEvent::ConfigLoaded(c) => {
                    &&& final(self).config == c
                    &&& if c.first_run_complete {
                        final(self).stage is QueryingAutostart && action is QueryAutostart
                    } else {
                        final(self).stage is AskingAutostart && action is AskAutostart
                    }
                },
                StartupEvent::AutostartAnswered(yes) => {
                    &&& final(self).config == old(self).config
                    &&& final(self).stage is ApplyingAutostart
                    &&& action == StartupAction::ApplyAutostart(yes)
                },
                StartupEvent::AutostartApplied(Ok(())) => {
                    &&& final(self).config == (Config {
                        first_run_complete: true,
                        ..old(self).config
                    })
                    &&& final(self).stage is SavingConfig
                    &&& action == StartupAction::SaveConfig(final(self).config)
                },
                StartupEvent::AutostartApplied(Err(e)) => {
                    &&& final(self).config == old(self).config
                    &&& final(self).stage is WarnedAutostart
                    &&& action matches StartupAction::Warn(msg)
                    &&& msg@ == autostart_warning_text(e@)
                },
                StartupEvent::WarningShown => if old(self).stage is WarnedAutostart {
                    &&& final(self).config == (Config {
                        first_run_complete: true,
                        ..old(self).config
                    })
                    &&& final(self).stage is SavingConfig
                    &&& action == StartupAction::SaveConfig(final(self).config)
                } else {
                    &&& final(self).config == old(self).config
                    &&& final(self).stage is InstallingHook
                    &&& action == (StartupAction::InstallHook {
                        enabled: old(self).config.intercept_enabled,
                        steps_brightness: false,
                    })
                },
                StartupEvent::ConfigSaved => {
                    &&& final(self).config == old(self).config
                    &&& final(self).stage is QueryingAutostart
                    &&& action is QueryAutostart
                },
                StartupEvent::AutostartQueried(present) => {
                    &&& final(self).config == (Config { autostart: present, ..old(self).config })
                    &&& final(self).stage is ConnectingBrightness
                    &&& action is ConnectBrightness
                },
                StartupEvent::BrightnessConnected(Ok(())) => {
                    &&& final(self).config == old(self).config
                    &&& final(self).stage is InstallingHook
                    &&& action == (StartupAction::InstallHook {
                        enabled: old(self).config.intercept_enabled,
                        steps_brightness: true,
                    })
                },
                StartupEvent::BrightnessConnected(Err(e)) => {
                    &&& final(self).config == old(self).config
                    &&& final(self).stage is WarnedBrightness
                    &&& action matches StartupAction::Warn(msg)
                    &&& msg@ == brightness_warning_text(e.0@)
                },
                StartupEvent::HookInstalled(Ok(())) => {
                    &&& final(self).config == old(self).config
                    &&& final(self).stage is GettingModule
                    &&& action is GetModuleHandle
                },
                StartupEvent::HookInstalled(Err(e)) => {
                    &&& final(self).config == old(self).config
                    &&& final(self).stage is Failed
                    &&& action matches StartupAction::Fail(msg)
                    &&& msg@ == hook_failure_text(e@)
                },
                StartupEvent::ModuleHandle(Ok(())) => {
                    &&& final(self).config == old(self).config
                    &&& final(self).stage is CreatingWindow
                    &&& action is CreateWindow
                },
                StartupEvent::ModuleHandle(Err(e)) => {
                    &&& final(self).config == old(self).config
                    &&& final(self).stage is Failed
                    &&& action matches StartupAction::Fail(msg)
                    &&& msg@ == module_failure_text(e@)
                },
                StartupEvent::WindowCreated(Ok(())) => {
                    &&& final(self).config == old(self).config
                    &&& final(self).stage is ShowingIcon
                    &&& action is ShowTrayIcon
                },
                StartupEvent::WindowCreated(Err(e)) => {
                    &&& final(self).config == old(self).config
                    &&& final(self).stage is Failed
                    &&& action matches StartupAction::Fail(msg)
                    &&& msg@ == window_failure_text(e@)
                },
                StartupEvent::IconShown => {
                    &&& final(self).config == old(self).config
                    &&& final(self).stage is Running
                    &&& action == StartupAction::Run(old(self).config)
                },
            },
    {
        match event {
            StartupEvent::ConfigLoaded(c) => {
                self.config = c;
                if c.first_run_complete {
                    self.stage = StartupStage::QueryingAutostart;
                    StartupAction::QueryAutostart
                } else {
                    self.stage = StartupStage::AskingAutostart;
                    StartupAction::AskAutostart
                }
            },
            StartupEvent::AutostartAnswered(yes) => {
                self.stage = StartupStage::ApplyingAutostart;
                StartupAction::ApplyAutostart(yes)
            },
            StartupEvent::AutostartApplied(Ok(())) => {
                self.config.first_run_complete = true;
                self.stage = StartupStage::SavingConfig;
                StartupAction::SaveConfig(self.config)
            },
            StartupEvent::AutostartApplied(Err(e)) => {
                self.stage = StartupStage::WarnedAutostart;
                StartupAction::Warn(
                    prefixed("Could not change the autostart setting: ", e.as_str()),
                )
            },
            StartupEvent::WarningShown => {
                let after_autostart = match self.stage {
                    StartupStage::WarnedAutostart => true,
                    _ => false,
                };
                if after_autostart {
                    self.config.first_run_complete = true;
                    self.stage = StartupStage::SavingConfig;
                    StartupAction::SaveConfig(self.config)
                } else {
                    self.stage = StartupStage::InstallingHook;
                    StartupAction::InstallHook {
                        enabled: self.config.intercept_enabled,
                        steps_brightness: false,
                    }
                }
            },
            StartupEvent::ConfigSaved => {
                self.stage = StartupStage::QueryingAutostart;
                StartupAction::QueryAutostart
            },
            StartupEvent::AutostartQueried(present) => {
                self.config.autostart = present;
                self.stage = StartupStage::ConnectingBrightness;
                StartupAction::ConnectBrightness
            },
            StartupEvent::BrightnessConnected(Ok(())) => {
                self.stage = StartupStage::InstallingHook;
                StartupAction::InstallHook {
                    enabled: self.config.intercept_enabled,
                    steps_brightness: true,
                }
            },
            StartupEvent::BrightnessConnected(Err(e)) => {
                self.stage = StartupStage::WarnedBrightness;
                let mut msg = prefixed(
                    "Brightness control is unavailable on this system: ",
                    e.0.as_str(),
                );
                msg.append("\n\nThe volume keys will not be remapped.");
                StartupAction::Warn(msg)
            },
            StartupEvent::HookInstalled(Ok(())) => {
                self.stage = StartupStage::GettingModule;
                StartupAction::GetModuleHandle
            },
            StartupEvent::HookInstalled(Err(e)) => {
                self.stage = StartupStage::Failed;
                StartupAction::Fail(prefixed("Failed to install the keyboard hook: ", e.as_str()))
            },
            StartupEvent::ModuleHandle(Ok(())) => {
                self.stage = StartupStage::CreatingWindow;
                StartupAction::CreateWindow
            },
            StartupEvent::ModuleHandle(Err(e)) => {
                self.stage = StartupStage::Failed;
                StartupAction::Fail(prefixed("Could not get module handle: ", e.as_str()))
            },
            StartupEvent::WindowCreated(Ok(())) => {
                self.stage = StartupStage::ShowingIcon;
                StartupAction::ShowTrayIcon
            },
            StartupEvent::WindowCreated(Err(e)) => {
                self.stage = StartupStage::Failed;
                StartupAction::Fail(prefixed("Could not create the message window: ", e.as_str()))
            },
            StartupEvent::IconShown => {
                self.stage = StartupStage::Running;
                StartupAction::Run(self.config)
            },
        }
    }
}

/// Each request of start-up is answered by the report of it: loading by the
/// loaded settings, the question by an answer, applying by its outcome, each
/// warning by its dismissal, saving by `ConfigSaved`, the query by its
/// result, connecting, installing, the module handle and the window by their
/// outcomes, the icon by `IconShown`; once running or failed nothing is
/// accepted.
pub proof fn law_startup_requests_are_answerable(
    config: Config,
    yes: bool,
    applied: Result<(), String>,
    connected: Result<(), BrightnessError>,
    outcome: Result<(), String>,
    event: StartupEvent,
)
    ensures
        startup_answers(StartupStage::LoadingConfig, StartupEvent::ConfigLoaded(config)),
        startup_answers(StartupStage::AskingAutostart, StartupEvent::AutostartAnswered(yes)),
        startup_answers(StartupStage::ApplyingAutostart, StartupEvent::AutostartApplied(applied)),
        startup_answers(StartupStage::WarnedAutostart, StartupEvent::WarningShown),
        startup_answers(StartupStage::SavingConfig, StartupEvent::ConfigSaved),
        startup_answers(StartupStage::QueryingAutostart, StartupEvent::AutostartQueried(yes)),
        startup_answers(
            StartupStage::ConnectingBrightness,
            StartupEvent::BrightnessConnected(connected),
        ),
        startup_answers(StartupStage::WarnedBrightness, StartupEvent::WarningShown),
        startup_answers(StartupStage::InstallingHook, StartupEvent::HookInstalled(outcome)),
        startup_answers(StartupStage::GettingModule, StartupEvent::ModuleHandle(outcome)),
        startup_answers(StartupStage::CreatingWindow, StartupEvent::WindowCreated(outcome)),
        startup_answers(StartupStage::ShowingIcon, StartupEvent::IconShown),
        !startup_answers(StartupStage::Running, event),
        !startup_answers(StartupStage::Failed, event),
{
}

/// Copying a tooltip keeps the buffer's length, puts the first
/// `min(text.len(), tip.len() - 1)` units of the text at its start followed by
/// a zero, and leaves every later unit as it was.
pub proof fn law_tip_copies_prefix_and_terminates(tip: Seq<u16>, text: Seq<u16>)
    requires
        tip.len() >= 1,
    ensures
        ({
            let n = if text.len() < tip.len() - 1 {
                text.len() as int
            } else {
                tip.len() - 1
            };
            let after = tip_after(tip, text);
            &&& after.len() == tip.len()
            &&& forall|i: int| 0 <= i < n ==> after[i] == text[i]
            &&& after[n] == 0
            &&& forall|i: int| n < i < tip.len() ==> after[i] == tip[i]
        }),
{
}

/// Without a usable config file the first-run prompt is shown again: the
/// loaded settings say it was never shown.
pub proof fn law_missing_config_prompts_again()
    ensures
        !loaded_config(None).first_run_complete,
{
}

/// Toggling "Enabled" twice puts the interception switch back, and the
/// settings then record that position.
pub proof fn law_enabled_toggle_twice_restores(config: Config, enabled: bool)
    ensures
        enabled_after_command(enabled_after_command(enabled, ID_ENABLED), ID_ENABLED) == enabled,
        config_after_command(
            config_after_command(config, enabled, ID_ENABLED),
            enabled_after_command(enabled, ID_ENABLED),
            ID_ENABLED,
        ) == (Config { intercept_enabled: enabled, ..config }),
{
}

/// Only "Enabled" touches interception: every other command leaves both the
/// hook's switch and the settings as they were, and "Enabled" flips the
/// switch and records its new position, nothing else.
pub proof fn law_only_enabled_command_touches_interception(config: Config, enabled: bool, id: u32)
    ensures
        id != ID_ENABLED ==> enabled_after_command(enabled, id) == enabled,
        id != ID_ENABLED ==> config_after_command(config, enabled, id) == config,
        id == ID_ENABLED ==> enabled_after_command(enabled, id) == !enabled,
        id == ID_ENABLED ==> config_after_command(config, enabled, id) == (Config {
            intercept_enabled: !enabled,
            ..config
        }),
{
}

/// Every menu command keeps the recorded interception setting equal to the
/// hook's switch.
pub proof fn law_commands_keep_interception_recorded(config: Config, enabled: bool, id: u32)
    requires
        config.intercept_enabled == enabled,
    ensures
        config_after_command(config, enabled, id).intercept_enabled == enabled_after_command(
            enabled,
            id,
        ),
{
}

/// No menu command touches the first-run flag or, by itself, the autostart
/// setting.
pub proof fn law_commands_keep_other_settings(config: Config, enabled: bool, id: u32)
    ensures
        config_after_command(config, enabled, id).first_run_complete == config.first_run_complete,
        config_after_command(config, enabled, id).autostart == config.autostart,
{
}

} // verus!
