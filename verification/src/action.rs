//! The closed set of actions that a key can be bound to, and table entries.

use vstd::prelude::*;

verus! {

/// Cursor movement that forwards the edge of the pressed key.
#[derive(Clone, Copy, Debug, PartialEq, Eq, Structural)]
pub enum DirectionalActionKind {
    Left,
    Right,
    Up,
    Down,
    WordForward,
    WordBack,
    Home,
    End,
}

/// Direction of a repeated vertical move.
#[derive(Clone, Copy, Debug, PartialEq, Eq, Structural)]
pub enum JumpDirection {
    Up,
    Down,
}

/// Editing actions that are not plain cursor movement.
#[derive(Clone, Copy, Debug, PartialEq, Eq, Structural)]
pub enum IndependentActionKind {
    Backspace,
    NextLine,
    InsertQuotes,
}

/// What a binding does when its key is used while Hyper is held.
#[derive(Debug, PartialEq, Eq)]
#[allow(inconsistent_fields)]
pub enum ActionConfig {
    Directional { action: DirectionalActionKind },
    Jump { direction: JumpDirection, count: u8 },
    Independent { action: IndependentActionKind },
    InputSource { input_source_id: String },
    Command { command: String },
}

/// Mathematical value of an [`ActionConfig`]: strings are character sequences.
#[allow(inconsistent_fields)]
pub enum ActionConfigView {
    Directional { action: DirectionalActionKind },
    Jump { direction: JumpDirection, count: u8 },
    Independent { action: IndependentActionKind },
    InputSource { input_source_id: Seq<char> },
    Command { command: Seq<char> },
}

impl View for ActionConfig {
    type V = ActionConfigView;

    open spec fn view(&self) -> ActionConfigView {
        match self {
            ActionConfig::Directional { action } => ActionConfigView::Directional {
                action: *action,
            },
            ActionConfig::Jump { direction, count } => ActionConfigView::Jump {
                direction: *direction,
                count: *count,
            },
            ActionConfig::Independent { action } => ActionConfigView::Independent {
                action: *action,
            },
            ActionConfig::InputSource { input_source_id } => ActionConfigView::InputSource {
                input_source_id: input_source_id@,
            },
            ActionConfig::Command { command } => ActionConfigView::Command { command: command@ },
        }
    }
}

impl Clone for ActionConfig {
    fn clone(&self) -> (copy: Self)
        ensures
            copy@ == self@,
    {
        match self {
            ActionConfig::Directional { action } => ActionConfig::Directional { action: *action },
            ActionConfig::Jump { direction, count } => ActionConfig::Jump {
                direction: *direction,
                count: *count,
            },
            ActionConfig::Independent { action } => ActionConfig::Independent { action: *action },
            ActionConfig::InputSource { input_source_id } => ActionConfig::InputSource {
                input_source_id: input_source_id.clone(),
            },
            ActionConfig::Command { command } => ActionConfig::Command { command: command.clone() },
        }
    }
}

impl ActionConfig {
    /// Whether two actions have the same value.
    pub fn same_as(&self, other: &ActionConfig) -> (same: bool)
        ensures
            same == (self@ == other@),
    {
        match (self, other) {
            (
                ActionConfig::Directional { action: a },
                ActionConfig::Directional { action: b },
            ) => *a == *b,
            (
                ActionConfig::Jump { direction: d1, count: c1 },
                ActionConfig::Jump { direction: d2, count: c2 },
            ) => *d1 == *d2 && *c1 == *c2,
            (
                ActionConfig::Independent { action: a },
                ActionConfig::Independent { action: b },
            ) => *a == *b,
            (
                ActionConfig::InputSource { input_source_id: a },
                ActionConfig::InputSource { input_source_id: b },
            ) => *a == *b,
            (ActionConfig::Command { command: a }, ActionConfig::Command { command: b }) => *a
                == *b,
            _ => false,
        }
    }
}

/// One row of the mapping table: a logical key, the Shift state it is bound
/// for, and the action.
#[derive(Debug, PartialEq, Eq)]
pub struct ActionMappingEntry {
    pub key: u16,
    pub with_shift: bool,
    pub action: ActionConfig,
}

/// Mathematical value of an [`ActionMappingEntry`].
pub struct ActionMappingEntryView {
    pub key: u16,
    pub with_shift: bool,
    pub action: ActionConfigView,
}

impl View for ActionMappingEntry {
    type V = ActionMappingEntryView;

    open spec fn view(&self) -> ActionMappingEntryView {
        ActionMappingEntryView { key: self.key, with_shift: self.with_shift, action: self.action@ }
    }
}

impl Clone for ActionMappingEntry {
    fn clone(&self) -> (copy: Self)
        ensures
            copy@ == self@,
    {
        ActionMappingEntry {
            key: self.key,
            with_shift: self.with_shift,
            action: self.action.clone(),
        }
    }
}

impl ActionMappingEntry {
    /// Whether two entries have the same key, Shift state and action.
    pub fn same_as(&self, other: &ActionMappingEntry) -> (same: bool)
        ensures
            same == (self@ == other@),
    {
        self.key == other.key && self.with_shift == other.with_shift && self.action.same_as(
            &other.action,
        )
    }
}

/// Whether an unshifted binding may also answer when Shift is held.
///
/// Input-source switches and shell commands fire only on the Shift state they
/// were configured for; every other action may be reached through the
/// fallback.
pub open spec fn allows_shift_fallback(action: ActionConfigView) -> bool {
    !(action is InputSource || action is Command)
}

/// Tells whether an unshifted binding with this action may also answer when
/// Shift is held.
pub fn allow_shift_fallback(action: &ActionConfig) -> (allowed: bool)
    ensures
        allowed == allows_shift_fallback(action@),
{
    match action {
        ActionConfig::InputSource { .. } => false,
        ActionConfig::Command { .. } => false,
        _ => true,
    }
}

/// Why an action cannot be bound.
#[derive(Clone, Copy, Debug, PartialEq, Eq, Structural)]
pub enum ActionError {
    /// The command is empty.
    EmptyCommand,
    /// The input-source identifier is empty.
    EmptyInputSourceId,
    /// The jump would repeat zero times.
    ZeroJumpCount,
}

/// The text of each error.
pub open spec fn error_text(error: ActionError) -> Seq<char> {
    match error {
        ActionError::EmptyCommand => "command cannot be empty"@,
        ActionError::EmptyInputSourceId => "input_source_id cannot be empty"@,
        ActionError::ZeroJumpCount => "jump count must be >= 1"@,
    }
}

impl ActionError {
    /// The error as a sentence for the user.
    pub fn message(&self) -> (text: String)
        ensures
            text@ == error_text(*self),
    {
        match self {
            ActionError::EmptyCommand => "command cannot be empty".to_owned(),
            ActionError::EmptyInputSourceId => "input_source_id cannot be empty".to_owned(),
            ActionError::ZeroJumpCount => "jump count must be >= 1".to_owned(),
        }
    }
}

/// Whether an action may be bound: a command and an input-source
/// identifier must not be empty, and a jump must repeat at least once. Every
/// other action may be bound.
pub open spec fn validation(action: ActionConfigView) -> Result<(), ActionError> {
    match action {
        ActionConfigView::Command { command } => if command.len() == 0 {
            Err(ActionError::EmptyCommand)
        } else {
            Ok(())
        },
        ActionConfigView::InputSource { input_source_id } => if input_source_id.len() == 0 {
            Err(ActionError::EmptyInputSourceId)
        } else {
            Ok(())
        },
        ActionConfigView::Jump { direction, count } => if count == 0 {
            Err(ActionError::ZeroJumpCount)
        } else {
            Ok(())
        },
        _ => Ok(()),
    }
}

/// Checks that an action may be bound.
pub fn validate_action(action: &ActionConfig) -> (checked: Result<(), ActionError>)
    ensures
        checked == validation(action@),
{
    match action {
        ActionConfig::Command { command } => {
            if command.as_str().is_empty() {
                return Err(ActionError::EmptyCommand);
            }
        },
        ActionConfig::InputSource { input_source_id } => {
            if input_source_id.as_str().is_empty() {
                return Err(ActionError::EmptyInputSourceId);
            }
        },
        ActionConfig::Jump { direction, count } => {
            if *count == 0 {
                return Err(ActionError::ZeroJumpCount);
            }
        },
        _ => {},
    }
    Ok(())
}

/// Exactly three kinds of action are refused, each with its own error: a
/// command with no text, an input source with no identifier, and a jump
/// that repeats zero times. Every other action is accepted.
pub proof fn law_only_empty_text_and_zero_jump_are_refused(action: ActionConfigView)
    ensures
        validation(action) == Err::<(), ActionError>(ActionError::EmptyCommand) <==> (action
            matches ActionConfigView::Command { command } && command.len() == 0),
        validation(action) == Err::<(), ActionError>(ActionError::EmptyInputSourceId) <==> (action
            matches ActionConfigView::InputSource { input_source_id } && input_source_id.len()
            == 0),
        validation(action) == Err::<(), ActionError>(ActionError::ZeroJumpCount) <==> (action
            matches ActionConfigView::Jump { count, .. } && count == 0),
        validation(action) is Ok <==> !(action matches ActionConfigView::Command { command }
            && command.len() == 0) && !(action matches ActionConfigView::InputSource {
            input_source_id,
        } && input_source_id.len() == 0) && !(action matches ActionConfigView::Jump { count, .. }
            && count == 0),
{
}

} // verus!
