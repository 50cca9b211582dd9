//! Decisions of the global keyboard hook that intercepts the volume media keys.
//!
//! While interception is enabled, `VolumeUp`/`VolumeDown` key presses are
//! swallowed (the OS never changes the volume) and trigger a brightness step
//! instead. The caller owns the installed hook; it classifies each keyboard
//! event, asks [`respond`] what to do, and performs it.
use vstd::prelude::*;

pub use crate::brightness::STEP;

verus! {

/// Whether interception is switched on.
pub struct HookState {
    enabled: bool,
}

impl View for HookState {
    type V = bool;

    closed spec fn view(&self) -> bool {
        self.enabled
    }
}

impl HookState {
    /// A switch that starts in the given position.
    pub fn new(enabled: bool) -> (state: HookState)
        ensures
            state@ == enabled,
    {
        HookState { enabled }
    }
}

/// Enable or disable interception at runtime (from the tray menu).
pub fn set_enabled(state: &mut HookState, enabled: bool)
    ensures
        final(state)@ == enabled,
{
    state.enabled = enabled;
}

/// Whether interception is currently enabled.
pub fn is_enabled(state: &HookState) -> (enabled: bool)
    ensures
        enabled == state@,
{
    state.enabled
}

/// Which key a keyboard event is about.
#[derive(Debug, PartialEq, Eq, Structural, Clone, Copy)]
pub enum VolumeKey {
    Up,
    Down,
    Other,
}

/// A low-level keyboard event as the hook sees it.
#[derive(Debug, PartialEq, Eq, Structural, Clone, Copy)]
pub struct KeyEvent {
    /// The hook code says the event is to be processed (`HC_ACTION`).
    pub is_action: bool,
    /// The key concerned.
    pub key: VolumeKey,
    /// The event is a key press (`WM_KEYDOWN` or `WM_SYSKEYDOWN`).
    pub is_key_down: bool,
}

/// What the hook does with an event.
#[derive(Debug, PartialEq, Eq, Structural, Clone, Copy)]
pub struct KeyResponse {
    /// Brightness step to take, in percentage points.
    pub step: Option<i8>,
    /// Keep the event from the rest of the system (otherwise it is passed on).
    pub swallow: bool,
}

/// The response to `event` while interception is `enabled`: volume keys are
/// swallowed, press and release alike; a press of Volume Up steps by
/// `+STEP`, of Volume Down by `-STEP`; everything else is passed on.
pub open spec fn key_response(enabled: bool, event: KeyEvent) -> KeyResponse {
    if event.is_action && event.key != VolumeKey::Other && enabled {
        KeyResponse {
            step: if event.is_key_down {
                Some(
                    if event.key == VolumeKey::Up {
                        STEP
                    } else {
                        (-STEP) as i8
                    },
                )
            } else {
                None
            },
            swallow: true,
        }
    } else {
        KeyResponse { step: None, swallow: false }
    }
}

/// Decide what the hook does with `event`.
pub fn respond(state: &HookState, event: KeyEvent) -> (response: KeyResponse)
    ensures
        response == key_response(state@, event),
{
    let is_volume = match event.key {
        VolumeKey::Other => false,
        _ => true,
    };
    if event.is_action && is_volume && state.enabled {
        let step = if event.is_key_down {
            match event.key {
                VolumeKey::Up => Some(STEP),
                _ => Some(-STEP),
            }
        } else {
            None
        };
        KeyResponse { step, swallow: true }
    } else {
        KeyResponse { step: None, swallow: false }
    }
}

/// With interception disabled, every event reaches the rest of the system
/// untouched and no brightness step is taken.
pub proof fn law_disabled_hook_passes_everything(event: KeyEvent)
    ensures
        key_response(false, event) == (KeyResponse { step: None, swallow: false }),
{
}

/// With interception enabled, a volume key never reaches the rest of the
/// system, and a step is taken exactly for presses, upward for Volume Up.
pub proof fn law_enabled_hook_owns_volume_keys(event: KeyEvent)
    requires
        event.is_action,
        event.key != VolumeKey::Other,
    ensures
        key_response(true, event).swallow,
        key_response(true, event).step is Some <==> event.is_key_down,
        event.is_key_down && event.key == VolumeKey::Up ==> key_response(true, event).step == Some(
            STEP,
        ),
        event.is_key_down && event.key == VolumeKey::Down ==> key_response(true, event).step
            == Some((-STEP) as i8),
{
}

/// Keys other than the volume keys are never touched, whatever the switch.
pub proof fn law_other_keys_pass(enabled: bool, event: KeyEvent)
    requires
        event.key == VolumeKey::Other || !event.is_action,
    ensures
        key_response(enabled, event) == (KeyResponse { step: None, swallow: false }),
{
}

} // verus!
