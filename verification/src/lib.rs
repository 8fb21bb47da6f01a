//! Remap engine that turns CapsLock into a momentary "Hyper" modifier.
//!
//! The crate holds the platform-independent decisions of the engine: the
//! action table and its resolver, the tap/hold tracker of the Hyper key, the
//! plan of synthetic input for each action, and the per-event state machine
//! that ties them together. Talking to the operating system is left to the
//! caller, which feeds raw events in and performs the effects that come out.

pub mod action;
pub mod caps;
pub mod clock;
pub mod control;
pub mod effect;
pub mod engine;
pub mod executor;
pub mod keys;
pub mod legacy;
pub mod platform;
pub mod render;
pub mod roundtrip;
pub mod table;

pub use action::{
    allow_shift_fallback, validate_action, ActionConfig, ActionError, ActionMappingEntry,
    DirectionalActionKind, IndependentActionKind, JumpDirection,
};
pub use caps::{CapsState, HoldState, CAPS_TAP_MAX_MS};
pub use clock::now_millis;
pub use effect::{active_modifier_flags, Effect, INJECTED_EVENT_MAGIC};
pub use engine::{
    classify_mac_event, classify_windows_event, Engine, EventClass, KeyTransition, MacKeyEvent,
    Outcome, Verdict, WindowsKeyEvent,
};
pub use executor::execute_action_mapping;
pub use keys::{
    mac_keycode_to_js_keycode, windows_vk_to_js_keycode, JS_A_KEYCODE, JS_D_KEYCODE, JS_E_KEYCODE,
    JS_H_KEYCODE, JS_I_KEYCODE, JS_J_KEYCODE, JS_K_KEYCODE, JS_L_KEYCODE, JS_N_KEYCODE,
    JS_O_KEYCODE, JS_P_KEYCODE, JS_U_KEYCODE, JS_Y_KEYCODE,
};
pub use legacy::{
    assemble_action_mappings, read_legacy_mappings, sync_legacy_mappings_cache_from_actions,
    LegacyCaches, LoadedMappings,
};
pub use platform::Platform;
pub use render::{
    directional_action_name, independent_action_name, js_keycode_name, jump_direction_name,
    render_action_mappings_yaml_with_comments, yaml_quote,
};
pub use table::{
    default_action_mappings, default_action_mappings_for, normalize_action_mappings,
    remove_action_mapping_from_vec, resolve_action_mapping, upsert_action_mapping_in_vec,
};
