//! Tracker of the Hyper key: whether it is held, since when, and whether the
//! current hold was used as a modifier.

use crate::platform::Platform;
use vstd::prelude::*;

verus! {

/// Longest hold, in milliseconds, that still counts as a tap on macOS.
pub const CAPS_TAP_MAX_MS: u64 = 200;

/// The two states of the Hyper key. The press time exists exactly while the
/// key is held.
#[derive(Clone, Copy, Debug, PartialEq, Eq, Structural)]
pub enum HoldState {
    Released,
    Held { pressed_at: u64 },
}

/// State of the Hyper key.
#[derive(Clone, Copy, Debug, PartialEq, Eq, Structural)]
pub struct CapsState {
    pub hold: HoldState,
    /// Whether a key was remapped since the last press. Cleared by a press,
    /// set only while the key is held, and kept after the release until the
    /// next press.
    pub did_remap_this_hold: bool,
}

/// Milliseconds from `pressed_at` to `now`; zero where the clock went back.
pub open spec fn elapsed_ms(pressed_at: u64, now: u64) -> u64 {
    if now >= pressed_at {
        (now - pressed_at) as u64
    } else {
        0
    }
}

impl CapsState {
    /// Whether the Hyper key is held.
    pub open spec fn held(self) -> bool {
        self.hold is Held
    }

    /// When the current hold began, if there is one.
    pub open spec fn pressed_at(self) -> Option<u64> {
        match self.hold {
            HoldState::Held { pressed_at } => Some(pressed_at),
            HoldState::Released => None,
        }
    }

    /// The state after the Hyper key went down at `now`.
    ///
    /// A press of the released key starts a hold and clears the remap mark.
    /// A repeated down transition while held, as a key that repeats sends,
    /// changes nothing: the hold keeps its press time and its remap mark.
    pub open spec fn after_press(self, now: u64) -> CapsState {
        match self.hold {
            HoldState::Released => CapsState {
                hold: HoldState::Held { pressed_at: now },
                did_remap_this_hold: false,
            },
            HoldState::Held { .. } => self,
        }
    }

    /// The state after the Hyper key came up.
    pub open spec fn after_release(self) -> CapsState {
        CapsState { hold: HoldState::Released, did_remap_this_hold: self.did_remap_this_hold }
    }

    /// Whether a release at `now` toggles the native lock.
    ///
    /// Never after a remap. Otherwise macOS asks for a hold that lasted at
    /// most [`CAPS_TAP_MAX_MS`]; Windows reports no usable duration, so every
    /// release without a remap counts as a tap there.
    pub open spec fn release_toggles(self, now: u64, platform: Platform) -> bool {
        !self.did_remap_this_hold && match platform {
            Platform::MacOs => match self.hold {
                HoldState::Held { pressed_at } => elapsed_ms(pressed_at, now) <= CAPS_TAP_MAX_MS,
                HoldState::Released => false,
            },
            Platform::Windows => true,
        }
    }

    /// The state after a key was remapped: the hold, if there is one, is
    /// marked as used.
    pub open spec fn after_remap(self) -> CapsState {
        CapsState {
            hold: self.hold,
            did_remap_this_hold: self.did_remap_this_hold || self.held(),
        }
    }

    /// The state at start: released, nothing remapped.
    pub fn new() -> (state: CapsState)
        ensures
            !state.held(),
            !state.did_remap_this_hold,
    {
        CapsState { hold: HoldState::Released, did_remap_this_hold: false }
    }

    /// Whether the Hyper key is held.
    pub fn is_held(&self) -> (held: bool)
        ensures
            held == self.held(),
    {
        match self.hold {
            HoldState::Held { .. } => true,
            HoldState::Released => false,
        }
    }

    /// Records that the Hyper key went down at `now_ms`.
    pub fn press(&mut self, now_ms: u64)
        ensures
            *final(self) == old(self).after_press(now_ms),
            final(self).held(),
            old(self).held() ==> *final(self) == *old(self),
    {
        match self.hold {
            HoldState::Released => {
                self.hold = HoldState::Held { pressed_at: now_ms };
                self.did_remap_this_hold = false;
            },
            HoldState::Held { .. } => {},
        }
    }

    /// Records that the Hyper key came up at `now_ms`. Returns whether the
    /// native lock is to be toggled.
    pub fn release(&mut self, now_ms: u64, platform: Platform) -> (toggle: bool)
        ensures
            *final(self) == old(self).after_release(),
            toggle == old(self).release_toggles(now_ms, platform),
            !final(self).held(),
    {
        let was = self.hold;
        self.hold = HoldState::Released;
        if self.did_remap_this_hold {
            return false;
        }
        match platform {
            Platform::MacOs => match was {
                HoldState::Held { pressed_at } => now_ms.saturating_sub(pressed_at)
                    <= CAPS_TAP_MAX_MS,
                HoldState::Released => false,
            },
            Platform::Windows => true,
        }
    }

    /// Records that a key was remapped.
    pub fn note_remap(&mut self)
        ensures
            *final(self) == old(self).after_remap(),
    {
        if self.is_held() {
            self.did_remap_this_hold = true;
        }
    }
}

/// A fresh press on macOS that is released within the tap limit, with no
/// remap in between, toggles the native lock; one released later does not.
pub proof fn law_short_tap_toggles(before: CapsState, pressed_at: u64, released_at: u64)
    requires
        !before.held(),
    ensures
        before.after_press(pressed_at).release_toggles(released_at, Platform::MacOs) == (
        elapsed_ms(pressed_at, released_at) <= CAPS_TAP_MAX_MS),
        released_at >= pressed_at && released_at - pressed_at <= 200 ==> before.after_press(
            pressed_at,
        ).release_toggles(released_at, Platform::MacOs),
{
}

/// On Windows a fresh press that is released with no remap in between
/// toggles the native lock, however long it lasted.
pub proof fn law_windows_release_without_remap_toggles(
    before: CapsState,
    pressed_at: u64,
    released_at: u64,
)
    requires
        !before.held(),
    ensures
        before.after_press(pressed_at).release_toggles(released_at, Platform::Windows),
{
}

/// A hold during which a key was remapped never toggles the native lock,
/// whatever its duration and whatever the platform, and however often the
/// held key repeats its down transition before it comes up.
pub proof fn law_remap_suppresses_toggle(
    before: CapsState,
    pressed_at: u64,
    repeated_at: u64,
    released_at: u64,
    platform: Platform,
)
    ensures
        !before.after_press(pressed_at).after_remap().release_toggles(released_at, platform),
        before.after_press(pressed_at).after_remap().after_press(repeated_at)
            == before.after_press(pressed_at).after_remap(),
        !before.after_press(pressed_at).after_remap().after_press(repeated_at).release_toggles(
            released_at,
            platform,
        ),
{
}

/// The remap mark is cleared by a press of the released key and by nothing
/// else: neither a repeated press, nor a remap, nor a release clears it.
pub proof fn law_remap_mark_outlives_all_but_a_fresh_press(state: CapsState, now: u64)
    requires
        state.did_remap_this_hold,
    ensures
        state.held() ==> state.after_press(now).did_remap_this_hold,
        state.after_remap().did_remap_this_hold,
        state.after_release().did_remap_this_hold,
        !state.held() ==> !state.after_press(now).did_remap_this_hold,
{
}

} // verus!
