//! What the engine asks its caller to do: post synthetic input, toggle the
//! native lock, switch the input source, run a command, re-arm the hook.

use vstd::prelude::*;

verus! {

/// The marker stamped on every synthetic event so that the hook recognises
/// the engine's own output and lets it pass ("GVLN").
pub const INJECTED_EVENT_MAGIC: i64 = 0x4756_4C4E;

// Modifier bits of a macOS event's flags.
pub const FLAG_SHIFT: u64 = 0x0002_0000;

pub const FLAG_CONTROL: u64 = 0x0004_0000;

pub const FLAG_ALTERNATE: u64 = 0x0008_0000;

pub const FLAG_COMMAND: u64 = 0x0010_0000;

pub const FLAG_SECONDARY_FN: u64 = 0x0080_0000;

/// The five modifier bits that a synthetic event inherits from the event it
/// replaces.
pub const ACTIVE_MODIFIER_MASK: u64 = 0x009E_0000;

/// The part of `flags` that is carried over to synthetic events.
pub open spec fn active_modifiers(flags: u64) -> u64 {
    flags & ACTIVE_MODIFIER_MASK
}

/// Whether the Shift bit is set in `flags`.
pub open spec fn shift_is_held(flags: u64) -> bool {
    flags & FLAG_SHIFT != 0
}

/// Keeps Shift, Control, Alternate, Command and Fn, and clears every other
/// bit.
pub fn active_modifier_flags(flags: u64) -> (active: u64)
    ensures
        active == active_modifiers(flags),
        active & FLAG_SHIFT == flags & FLAG_SHIFT,
        active & FLAG_CONTROL == flags & FLAG_CONTROL,
        active & FLAG_ALTERNATE == flags & FLAG_ALTERNATE,
        active & FLAG_COMMAND == flags & FLAG_COMMAND,
        active & FLAG_SECONDARY_FN == flags & FLAG_SECONDARY_FN,
        active & !ACTIVE_MODIFIER_MASK == 0,
        shift_is_held(active) == shift_is_held(flags),
{
    let active = flags & ACTIVE_MODIFIER_MASK;
    assert(active & 0x0002_0000 == flags & 0x0002_0000) by (bit_vector)
        requires
            active == flags & 0x009E_0000,
    ;
    assert(active & 0x0004_0000 == flags & 0x0004_0000) by (bit_vector)
        requires
            active == flags & 0x009E_0000,
    ;
    assert(active & 0x0008_0000 == flags & 0x0008_0000) by (bit_vector)
        requires
            active == flags & 0x009E_0000,
    ;
    assert(active & 0x0010_0000 == flags & 0x0010_0000) by (bit_vector)
        requires
            active == flags & 0x009E_0000,
    ;
    assert(active & 0x0080_0000 == flags & 0x0080_0000) by (bit_vector)
        requires
            active == flags & 0x009E_0000,
    ;
    assert(active & !0x009E_0000u64 == 0) by (bit_vector)
        requires
            active == flags & 0x009E_0000,
    ;
    active
}

/// Whether `user_data` is the engine's own stamp.
pub fn is_injected_marker(user_data: i64) -> (injected: bool)
    ensures
        injected == (user_data == INJECTED_EVENT_MAGIC),
{
    user_data == INJECTED_EVENT_MAGIC
}

/// One thing for the caller to do, in the order given.
#[derive(Debug, PartialEq, Eq)]
pub enum Effect {
    /// Post one synthetic key transition with the given native code and
    /// modifier flags, stamped with `marker`.
    Key { code: u16, down: bool, flags: u64, marker: i64 },
    /// Post one synthetic event that inserts `ch`, stamped with `marker`.
    Text { ch: char, marker: i64 },
    /// Toggle the native CapsLock state once.
    ToggleCapsLock,
    /// Ask the operating system, from the main execution context, to switch
    /// to the given keyboard or input-method source.
    SwitchInputSource { input_source_id: String },
    /// Spawn the text as a shell command and do not wait for it.
    RunCommand { command: String },
    /// Re-enable the event tap that the operating system disabled.
    RearmEventTap,
}

/// Mathematical value of an [`Effect`].
pub enum EffectView {
    Key { code: u16, down: bool, flags: u64, marker: i64 },
    Text { ch: char, marker: i64 },
    ToggleCapsLock,
    SwitchInputSource { input_source_id: Seq<char> },
    RunCommand { command: Seq<char> },
    RearmEventTap,
}

impl View for Effect {
    type V = EffectView;

    open spec fn view(&self) -> EffectView {
        match self {
            Effect::Key { code, down, flags, marker } => EffectView::Key {
                code: *code,
                down: *down,
                flags: *flags,
                marker: *marker,
            },
            Effect::Text { ch, marker } => EffectView::Text { ch: *ch, marker: *marker },
            Effect::ToggleCapsLock => EffectView::ToggleCapsLock,
            Effect::SwitchInputSource { input_source_id } => EffectView::SwitchInputSource {
                input_source_id: input_source_id@,
            },
            Effect::RunCommand { command } => EffectView::RunCommand { command: command@ },
            Effect::RearmEventTap => EffectView::RearmEventTap,
        }
    }
}

/// The mathematical value of a list of effects.
pub open spec fn effects_view(effects: Seq<Effect>) -> Seq<EffectView> {
    effects.map_values(|e: Effect| e@)
}

/// Whether `effect`, if it is synthetic input, carries the engine's stamp.
pub open spec fn is_stamped(effect: EffectView) -> bool {
    match effect {
        EffectView::Key { marker, .. } => marker == INJECTED_EVENT_MAGIC,
        EffectView::Text { marker, .. } => marker == INJECTED_EVENT_MAGIC,
        _ => true,
    }
}

/// A stamped synthetic key transition.
pub open spec fn key_event(code: u16, down: bool, flags: u64) -> EffectView {
    EffectView::Key { code, down, flags, marker: INJECTED_EVENT_MAGIC }
}

/// A stamped synthetic event that inserts `ch`.
pub open spec fn text_event(ch: char) -> EffectView {
    EffectView::Text { ch, marker: INJECTED_EVENT_MAGIC }
}

/// `count` full taps of a key: a down transition followed by an up
/// transition, `count` times over.
pub open spec fn taps(count: nat, code: u16, flags: u64) -> Seq<EffectView> {
    Seq::new(2 * count, |i: int| key_event(code, i % 2 == 0, flags))
}

/// `count` insertions of `ch`.
pub open spec fn insertions(count: nat, ch: char) -> Seq<EffectView> {
    Seq::new(count, |i: int| text_event(ch))
}

/// Stamps a synthetic key transition.
pub fn stamped_key(code: u16, down: bool, flags: u64) -> (effect: Effect)
    ensures
        effect@ == key_event(code, down, flags),
        is_stamped(effect@),
{
    Effect::Key { code, down, flags, marker: INJECTED_EVENT_MAGIC }
}

/// Stamps a synthetic character insertion.
pub fn stamped_text(ch: char) -> (effect: Effect)
    ensures
        effect@ == text_event(ch),
        is_stamped(effect@),
{
    Effect::Text { ch, marker: INJECTED_EVENT_MAGIC }
}

/// Appends `count` full taps of a key.
pub fn push_taps(effects: &mut Vec<Effect>, count: u8, code: u16, flags: u64)
    ensures
        effects_view(final(effects)@) == effects_view(old(effects)@) + taps(
            count as nat,
            code,
            flags,
        ),
{
    let ghost before = effects_view(effects@);
    let mut done: u8 = 0;
    while done < count
        invariant
            done <= count,
            effects_view(effects@) == before + taps(done as nat, code, flags),
        decreases count - done,
    {
        let ghost sofar = effects_view(effects@);
        effects.push(stamped_key(code, true, flags));
        effects.push(stamped_key(code, false, flags));
        proof {
            assert(effects_view(effects@) =~= sofar.push(key_event(code, true, flags)).push(
                key_event(code, false, flags),
            ));
            assert(taps((done + 1) as nat, code, flags) =~= taps(done as nat, code, flags).push(
                key_event(code, true, flags),
            ).push(key_event(code, false, flags)));
        }
        done += 1;
    }
}

/// Appends `count` insertions of `ch`.
pub fn push_insertions(effects: &mut Vec<Effect>, count: u8, ch: char)
    ensures
        effects_view(final(effects)@) == effects_view(old(effects)@) + insertions(
            count as nat,
            ch,
        ),
{
    let ghost before = effects_view(effects@);
    let mut done: u8 = 0;
    while done < count
        invariant
            done <= count,
            effects_view(effects@) == before + insertions(done as nat, ch),
        decreases count - done,
    {
        let ghost sofar = effects_view(effects@);
        effects.push(stamped_text(ch));
        proof {
            assert(effects_view(effects@) =~= sofar.push(text_event(ch)));
            assert(insertions((done + 1) as nat, ch) =~= insertions(done as nat, ch).push(
                text_event(ch),
            ));
        }
        done += 1;
    }
}

} // verus!
