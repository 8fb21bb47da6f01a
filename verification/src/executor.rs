//! The plan of effects that stands for an action on one edge of a key.

use crate::action::{
    ActionConfig, ActionConfigView, DirectionalActionKind, IndependentActionKind, JumpDirection,
};
use crate::effect::{
    effects_view, insertions, is_stamped, key_event, push_insertions, push_taps, stamped_key, taps,
    Effect, EffectView, FLAG_ALTERNATE, FLAG_COMMAND,
};
use crate::keys::{
    KC_DELETE, KC_DOWN, KC_LEFT, KC_RETURN, KC_RIGHT, KC_UP, VK_BACK, VK_DOWN, VK_END, VK_HOME,
    VK_LCONTROL, VK_LEFT, VK_RETURN, VK_RIGHT, VK_UP,
};
use crate::platform::Platform;
use vstd::prelude::*;

verus! {

/// The character that the quote macro inserts.
pub const QUOTE: char = '"';

/// How many quote characters the quote macro inserts.
pub const QUOTE_INSERTIONS: u8 = 6;

/// How many left-arrow taps follow the inserted quotes.
pub const QUOTE_BACKSTEPS: u8 = 3;

/// The macOS key that a cursor movement is forwarded as.
pub open spec fn mac_directional_code(action: DirectionalActionKind) -> u16 {
    match action {
        DirectionalActionKind::Left => KC_LEFT,
        DirectionalActionKind::Right => KC_RIGHT,
        DirectionalActionKind::Up => KC_UP,
        DirectionalActionKind::Down => KC_DOWN,
        DirectionalActionKind::WordForward => KC_RIGHT,
        DirectionalActionKind::WordBack => KC_LEFT,
        DirectionalActionKind::Home => KC_LEFT,
        DirectionalActionKind::End => KC_RIGHT,
    }
}

/// The flags of the forwarded key on macOS: the active modifiers, to which
/// word motion adds Alternate and line-boundary motion adds Command.
pub open spec fn mac_directional_flags(action: DirectionalActionKind, active: u64) -> u64 {
    match action {
        DirectionalActionKind::Left => active,
        DirectionalActionKind::Right => active,
        DirectionalActionKind::Up => active,
        DirectionalActionKind::Down => active,
        DirectionalActionKind::WordForward => active | FLAG_ALTERNATE,
        DirectionalActionKind::WordBack => active | FLAG_ALTERNATE,
        DirectionalActionKind::Home => active | FLAG_COMMAND,
        DirectionalActionKind::End => active | FLAG_COMMAND,
    }
}

/// The arrow key of a jump, in the native codes of `platform`.
pub open spec fn jump_code(direction: JumpDirection, platform: Platform) -> u16 {
    match (platform, direction) {
        (Platform::MacOs, JumpDirection::Up) => KC_UP,
        (Platform::MacOs, JumpDirection::Down) => KC_DOWN,
        (Platform::Windows, JumpDirection::Up) => VK_UP,
        (Platform::Windows, JumpDirection::Down) => VK_DOWN,
    }
}

/// What an action does on macOS for one edge of its key.
pub open spec fn mac_plan(
    action: ActionConfigView,
    key_down: bool,
    active: u64,
) -> Seq<EffectView> {
    match action {
        ActionConfigView::Directional { action } => seq![
            key_event(
                mac_directional_code(action),
                key_down,
                mac_directional_flags(action, active),
            ),
        ],
        ActionConfigView::Jump { direction, count } => if key_down {
            taps(count as nat, jump_code(direction, Platform::MacOs), active)
        } else {
            Seq::empty()
        },
        ActionConfigView::Independent { action } => match action {
            IndependentActionKind::Backspace => seq![key_event(KC_DELETE, key_down, active)],
            IndependentActionKind::NextLine => if key_down {
                taps(1, KC_RIGHT, FLAG_COMMAND) + taps(1, KC_RETURN, 0)
            } else {
                Seq::empty()
            },
            IndependentActionKind::InsertQuotes => if key_down {
                insertions(QUOTE_INSERTIONS as nat, QUOTE) + taps(
                    QUOTE_BACKSTEPS as nat,
                    KC_LEFT,
                    0,
                )
            } else {
                Seq::empty()
            },
        },
        ActionConfigView::InputSource { input_source_id } => if key_down {
            seq![EffectView::SwitchInputSource { input_source_id }]
        } else {
            Seq::empty()
        },
        ActionConfigView::Command { command } => if key_down {
            seq![EffectView::RunCommand { command }]
        } else {
            Seq::empty()
        },
    }
}

/// A key pressed under a modifier: on the down edge the modifier goes down
/// before the key, on the up edge the key comes up before the modifier.
pub open spec fn chord(modifier: u16, key: u16, key_down: bool) -> Seq<EffectView> {
    if key_down {
        seq![key_event(modifier, true, 0), key_event(key, true, 0)]
    } else {
        seq![key_event(key, false, 0), key_event(modifier, false, 0)]
    }
}

/// What a cursor movement does on Windows for one edge of its key.
pub open spec fn windows_directional_plan(
    action: DirectionalActionKind,
    key_down: bool,
) -> Seq<EffectView> {
    match action {
        DirectionalActionKind::Left => seq![key_event(VK_LEFT, key_down, 0)],
        DirectionalActionKind::Right => seq![key_event(VK_RIGHT, key_down, 0)],
        DirectionalActionKind::Up => seq![key_event(VK_UP, key_down, 0)],
        DirectionalActionKind::Down => seq![key_event(VK_DOWN, key_down, 0)],
        DirectionalActionKind::WordForward => chord(VK_LCONTROL, VK_RIGHT, key_down),
        DirectionalActionKind::WordBack => chord(VK_LCONTROL, VK_LEFT, key_down),
        DirectionalActionKind::Home => seq![key_event(VK_HOME, key_down, 0)],
        DirectionalActionKind::End => seq![key_event(VK_END, key_down, 0)],
    }
}

/// What an action does on Windows for one edge of its key. Synthetic keys
/// carry no flags there: the system applies the modifiers that are
/// physically held.
pub open spec fn windows_plan(action: ActionConfigView, key_down: bool) -> Seq<EffectView> {
    match action {
        ActionConfigView::Directional { action } => windows_directional_plan(action, key_down),
        ActionConfigView::Jump { direction, count } => if key_down {
            taps(count as nat, jump_code(direction, Platform::Windows), 0)
        } else {
            Seq::empty()
        },
        ActionConfigView::Independent { action } => match action {
            IndependentActionKind::Backspace => seq![key_event(VK_BACK, key_down, 0)],
            IndependentActionKind::NextLine => if key_down {
                taps(1, VK_END, 0) + taps(1, VK_RETURN, 0)
            } else {
                Seq::empty()
            },
            IndependentActionKind::InsertQuotes => if key_down {
                insertions(QUOTE_INSERTIONS as nat, QUOTE) + taps(
                    QUOTE_BACKSTEPS as nat,
                    VK_LEFT,
                    0,
                )
            } else {
                Seq::empty()
            },
        },
        ActionConfigView::InputSource { input_source_id } => if key_down {
            seq![EffectView::SwitchInputSource { input_source_id }]
        } else {
            Seq::empty()
        },
        ActionConfigView::Command { command } => if key_down {
            seq![EffectView::RunCommand { command }]
        } else {
            Seq::empty()
        },
    }
}

/// What an action does for one edge of its key: `key_down` tells the edge,
/// `active` holds the modifier flags that were active on the replaced event.
pub open spec fn planned_effects(
    action: ActionConfigView,
    key_down: bool,
    active: u64,
    platform: Platform,
) -> Seq<EffectView> {
    match platform {
        Platform::MacOs => mac_plan(action, key_down, active),
        Platform::Windows => windows_plan(action, key_down),
    }
}

fn mac_directional(action: DirectionalActionKind, key_down: bool, active: u64) -> (effect: Effect)
    ensures
        effect@ == key_event(
            mac_directional_code(action),
            key_down,
            mac_directional_flags(action, active),
        ),
{
    match action {
        DirectionalActionKind::Left => stamped_key(KC_LEFT, key_down, active),
        DirectionalActionKind::Right => stamped_key(KC_RIGHT, key_down, active),
        DirectionalActionKind::Up => stamped_key(KC_UP, key_down, active),
        DirectionalActionKind::Down => stamped_key(KC_DOWN, key_down, active),
        DirectionalActionKind::WordForward => stamped_key(
            KC_RIGHT,
            key_down,
            active | FLAG_ALTERNATE,
        ),
        DirectionalActionKind::WordBack => stamped_key(KC_LEFT, key_down, active | FLAG_ALTERNATE),
        DirectionalActionKind::Home => stamped_key(KC_LEFT, key_down, active | FLAG_COMMAND),
        DirectionalActionKind::End => stamped_key(KC_RIGHT, key_down, active | FLAG_COMMAND),
    }
}

fn push_chord(effects: &mut Vec<Effect>, modifier: u16, key: u16, key_down: bool)
    ensures
        effects_view(final(effects)@) == effects_view(old(effects)@) + chord(
            modifier,
            key,
            key_down,
        ),
{
    let ghost before = effects_view(effects@);
    if key_down {
        effects.push(stamped_key(modifier, true, 0));
        effects.push(stamped_key(key, true, 0));
    } else {
        effects.push(stamped_key(key, false, 0));
        effects.push(stamped_key(modifier, false, 0));
    }
    proof {
        assert(effects_view(effects@) =~= before + chord(modifier, key, key_down));
    }
}

fn push_one(effects: &mut Vec<Effect>, effect: Effect)
    ensures
        effects_view(final(effects)@) == effects_view(old(effects)@) + seq![effect@],
{
    let ghost before = effects_view(effects@);
    effects.push(effect);
    proof {
        assert(effects_view(effects@) =~= before + seq![effect@]);
    }
}

fn push_windows_directional(
    effects: &mut Vec<Effect>,
    action: DirectionalActionKind,
    key_down: bool,
)
    ensures
        effects_view(final(effects)@) == effects_view(old(effects)@) + windows_directional_plan(
            action,
            key_down,
        ),
{
    match action {
        DirectionalActionKind::Left => push_one(effects, stamped_key(VK_LEFT, key_down, 0)),
        DirectionalActionKind::Right => push_one(effects, stamped_key(VK_RIGHT, key_down, 0)),
        DirectionalActionKind::Up => push_one(effects, stamped_key(VK_UP, key_down, 0)),
        DirectionalActionKind::Down => push_one(effects, stamped_key(VK_DOWN, key_down, 0)),
        DirectionalActionKind::WordForward => push_chord(effects, VK_LCONTROL, VK_RIGHT, key_down),
        DirectionalActionKind::WordBack => push_chord(effects, VK_LCONTROL, VK_LEFT, key_down),
        DirectionalActionKind::Home => push_one(effects, stamped_key(VK_HOME, key_down, 0)),
        DirectionalActionKind::End => push_one(effects, stamped_key(VK_END, key_down, 0)),
    }
}

fn native_jump_code(direction: JumpDirection, platform: Platform) -> (code: u16)
    ensures
        code == jump_code(direction, platform),
{
    match platform {
        Platform::MacOs => match direction {
            JumpDirection::Up => KC_UP,
            JumpDirection::Down => KC_DOWN,
        },
        Platform::Windows => match direction {
            JumpDirection::Up => VK_UP,
            JumpDirection::Down => VK_DOWN,
        },
    }
}

/// Plans what `action` does for one edge of its key. The caller performs
/// the effects in order; nothing is posted from here.
pub fn execute_action_mapping(
    action: &ActionConfig,
    key_down: bool,
    active_modifiers: u64,
    platform: Platform,
) -> (effects: Vec<Effect>)
    ensures
        effects_view(effects@) == planned_effects(action@, key_down, active_modifiers, platform),
        forall|i: int| 0 <= i < effects@.len() ==> is_stamped(#[trigger] effects@[i]@),
{
    let mut effects: Vec<Effect> = Vec::new();
    let ghost nothing = effects_view(effects@);
    assert(nothing =~= Seq::empty());
    let mac = match platform {
        Platform::MacOs => true,
        Platform::Windows => false,
    };
    let flags: u64 = if mac {
        active_modifiers
    } else {
        0
    };
    match action {
        ActionConfig::Directional { action } => {
            if mac {
                push_one(&mut effects, mac_directional(*action, key_down, active_modifiers));
            } else {
                push_windows_directional(&mut effects, *action, key_down);
            }
        },
        ActionConfig::Jump { direction, count } => {
            if key_down {
                push_taps(&mut effects, *count, native_jump_code(*direction, platform), flags);
            }
        },
        ActionConfig::Independent { action } => match action {
            IndependentActionKind::Backspace => {
                let code = if mac {
                    KC_DELETE
                } else {
                    VK_BACK
                };
                push_one(&mut effects, stamped_key(code, key_down, flags));
            },
            IndependentActionKind::NextLine => {
                if key_down {
                    if mac {
                        push_taps(&mut effects, 1, KC_RIGHT, FLAG_COMMAND);
                        push_taps(&mut effects, 1, KC_RETURN, 0);
                    } else {
                        push_taps(&mut effects, 1, VK_END, 0);
                        push_taps(&mut effects, 1, VK_RETURN, 0);
                    }
                }
            },
            IndependentActionKind::InsertQuotes => {
                if key_down {
                    let left = if mac {
                        KC_LEFT
                    } else {
                        VK_LEFT
                    };
                    push_insertions(&mut effects, QUOTE_INSERTIONS, QUOTE);
                    push_taps(&mut effects, QUOTE_BACKSTEPS, left, 0);
                }
            },
        },
        ActionConfig::InputSource { input_source_id } => {
            if key_down {
                push_one(
                    &mut effects,
                    Effect::SwitchInputSource { input_source_id: input_source_id.clone() },
                );
            }
        },
        ActionConfig::Command { command } => {
            if key_down {
                push_one(&mut effects, Effect::RunCommand { command: command.clone() });
            }
        },
    }
    proof {
        let plan = planned_effects(action@, key_down, active_modifiers, platform);
        assert(effects_view(effects@) =~= plan);
        lemma_plans_are_stamped(action@, key_down, active_modifiers, platform);
        assert forall|i: int| 0 <= i < effects@.len() implies is_stamped(
            #[trigger] effects@[i]@,
        ) by {
            assert(effects_view(effects@)[i] == effects@[i]@);
        }
    }
    effects
}

/// Every piece of synthetic input in a plan carries the engine's stamp.
pub proof fn lemma_plans_are_stamped(
    action: ActionConfigView,
    key_down: bool,
    active: u64,
    platform: Platform,
)
    ensures
        forall|i: int|
            0 <= i < planned_effects(action, key_down, active, platform).len() ==> is_stamped(
                #[trigger] planned_effects(action, key_down, active, platform)[i],
            ),
{
}

/// A jump synthesizes, on the down edge, exactly `count` taps of its arrow
/// key, each a down transition followed by an up transition with the active
/// modifiers, and nothing on the up edge.
pub proof fn law_jump_taps_count_times(
    direction: JumpDirection,
    count: u8,
    active: u64,
    platform: Platform,
)
    ensures
        ({
            let jump = ActionConfigView::Jump { direction, count };
            let code = jump_code(direction, platform);
            let flags = if platform == Platform::MacOs {
                active
            } else {
                0
            };
            let pressed = planned_effects(jump, true, active, platform);
            &&& pressed.len() == 2 * count
            &&& forall|i: int|
                0 <= i < count ==> #[trigger] pressed[2 * i] == key_event(code, true, flags)
                    && pressed[2 * i + 1] == key_event(code, false, flags)
            &&& planned_effects(jump, false, active, platform).len() == 0
        }),
{
}

/// The quote macro synthesizes, on the down edge, exactly six insertions of
/// the quote character followed by exactly three taps of the left arrow, and
/// nothing on the up edge.
pub proof fn law_insert_quotes_six_then_three(active: u64, platform: Platform)
    ensures
        ({
            let quotes = ActionConfigView::Independent {
                action: IndependentActionKind::InsertQuotes,
            };
            let left = if platform == Platform::MacOs {
                KC_LEFT
            } else {
                VK_LEFT
            };
            let pressed = planned_effects(quotes, true, active, platform);
            &&& pressed.len() == 12
            &&& forall|i: int| 0 <= i < 6 ==> #[trigger] pressed[i] == EffectView::Text {
                ch: '"',
                marker: crate::effect::INJECTED_EVENT_MAGIC,
            }
            &&& forall|i: int|
                0 <= i < 3 ==> #[trigger] pressed[6 + 2 * i] == key_event(left, true, 0) && pressed[6
                    + 2 * i + 1] == key_event(left, false, 0)
            &&& planned_effects(quotes, false, active, platform).len() == 0
        }),
{
}

} // verus!
