//! The control surface of the engine: status, pause, and the commands that
//! list, add, update and remove bindings.

use crate::action::{
    validate_action, validation, ActionConfig, ActionConfigView, ActionError, ActionMappingEntry,
    ActionMappingEntryView,
};
use crate::caps::CapsState;
use crate::engine::{Engine, EngineView};
use crate::legacy::{
    input_source_mappings, input_sources, shell_commands, shell_mappings, string_map_view,
};
use crate::platform::Platform;
use crate::table::{
    clone_table, default_action_mappings_for, default_table_for, has_match,
    normalize_action_mappings, normalize_spec, remove_action_mapping_from_vec, remove_spec,
    table_view, upsert_action_mapping_in_vec, upsert_spec,
};
use std::collections::HashMap;
use vstd::prelude::*;

verus! {

/// The word for each state of the pause switch.
pub open spec fn status_text(paused: bool) -> Seq<char> {
    if paused {
        "Paused"@
    } else {
        "Running"@
    }
}

/// The predicate "is an unshifted input-source binding of `key`".
pub open spec fn input_source_of(key: u16) -> spec_fn(ActionMappingEntryView) -> bool {
    |e: ActionMappingEntryView| e.key == key && !e.with_shift && e.action is InputSource
}

/// The table after a binding was set: the entry is upserted and duplicates
/// are folded away.
pub open spec fn table_after_upsert(
    table: Seq<ActionMappingEntryView>,
    key: u16,
    with_shift: bool,
    action: ActionConfigView,
) -> Seq<ActionMappingEntryView> {
    normalize_spec(upsert_spec(table, ActionMappingEntryView { key, with_shift, action }))
}

/// The engine with another table.
pub open spec fn with_table(engine: EngineView, table: Seq<ActionMappingEntryView>) -> EngineView {
    EngineView { paused: engine.paused, caps: engine.caps, table }
}

fn has_input_source_binding(mappings: &Vec<ActionMappingEntry>, key: u16) -> (found: bool)
    ensures
        found == has_match(table_view(mappings@), input_source_of(key)),
{
    let ghost table = table_view(mappings@);
    let mut i: usize = 0;
    while i < mappings.len()
        invariant
            i <= mappings.len(),
            table == table_view(mappings@),
            forall|j: int| 0 <= j < i ==> !input_source_of(key)(#[trigger] table[j]),
        decreases mappings.len() - i,
    {
        let entry = &mappings[i];
        let is_source = match &entry.action {
            ActionConfig::InputSource { .. } => true,
            _ => false,
        };
        if entry.key == key && !entry.with_shift && is_source {
            assert(input_source_of(key)(table[i as int]));
            return true;
        }
        i += 1;
    }
    false
}

impl Engine {
    /// An engine that runs, with the Hyper key released, on the given table
    /// with its duplicates folded away.
    pub fn new(mappings: Vec<ActionMappingEntry>) -> (engine: Engine)
        ensures
            !engine@.paused,
            !engine@.caps.held(),
            !engine@.caps.did_remap_this_hold,
            engine@.table == normalize_spec(table_view(mappings@)),
            engine.wf(),
    {
        let mut mappings = mappings;
        normalize_action_mappings(&mut mappings);
        Engine { paused: false, caps: CapsState::new(), mappings }
    }

    /// An engine that runs on the default table of `platform`.
    pub fn with_defaults(platform: Platform) -> (engine: Engine)
        ensures
            !engine@.paused,
            !engine@.caps.held(),
            !engine@.caps.did_remap_this_hold,
            engine@.table == default_table_for(platform),
            engine.wf(),
    {
        Engine {
            paused: false,
            caps: CapsState::new(),
            mappings: default_action_mappings_for(platform),
        }
    }

    /// `Paused` or `Running`.
    pub fn get_status(&self) -> (status: String)
        ensures
            status@ == status_text(self.paused),
    {
        if self.paused {
            "Paused".to_owned()
        } else {
            "Running".to_owned()
        }
    }

    /// Sets the pause switch and tells the new status. The Hyper tracker is
    /// left as it is: whatever hold was under way is seen again when the
    /// engine resumes.
    pub fn set_paused(&mut self, paused: bool) -> (status: String)
        ensures
            final(self)@ == (EngineView { paused, caps: old(self)@.caps, table: old(self)@.table }),
            final(self).mappings@ == old(self).mappings@,
            status@ == status_text(paused),
    {
        self.paused = paused;
        self.get_status()
    }

    /// Binds `(key, with_shift)` to `action`, in place of what the pair was
    /// bound to. An action that fails validation is refused and leaves the
    /// engine as it was.
    pub fn upsert_action_mapping(
        &mut self,
        key: u16,
        with_shift: bool,
        action: ActionConfig,
    ) -> (done: Result<(), ActionError>)
        ensures
            done == validation(action@),
            done is Err ==> final(self)@ == old(self)@,
            done is Ok ==> final(self)@ == with_table(
                old(self)@,
                table_after_upsert(old(self)@.table, key, with_shift, action@),
            ),
            done is Ok ==> final(self).wf(),
            old(self).wf() ==> final(self).wf(),
            old(self).wf() && done is Ok ==> final(self)@.table == upsert_spec(
                old(self)@.table,
                ActionMappingEntryView { key, with_shift, action: action@ },
            ),
    {
        match validate_action(&action) {
            Err(error) => Err(error),
            Ok(()) => {
                let entry = ActionMappingEntry { key, with_shift, action };
                upsert_action_mapping_in_vec(&mut self.mappings, entry);
                normalize_action_mappings(&mut self.mappings);
                Ok(())
            },
        }
    }

    /// Removes the binding of `(key, with_shift)`, if there is one.
    pub fn remove_action_mapping(&mut self, key: u16, with_shift: bool)
        ensures
            final(self)@ == with_table(old(self)@, remove_spec(old(self)@.table, key, with_shift)),
            old(self).wf() ==> final(self).wf(),
    {
        remove_action_mapping_from_vec(&mut self.mappings, key, with_shift);
    }

    /// A copy of the table.
    pub fn get_action_mappings(&self) -> (mappings: Vec<ActionMappingEntry>)
        ensures
            table_view(mappings@) == self@.table,
    {
        clone_table(&self.mappings)
    }

    /// Binds `key` with Shift to a shell command.
    pub fn add_mapping(&mut self, key: u16, command: String) -> (done: Result<(), ActionError>)
        ensures
            done == validation(ActionConfigView::Command { command: command@ }),
            done is Err ==> final(self)@ == old(self)@,
            done is Ok ==> final(self)@ == with_table(
                old(self)@,
                table_after_upsert(
                    old(self)@.table,
                    key,
                    true,
                    ActionConfigView::Command { command: command@ },
                ),
            ),
            done is Ok ==> final(self).wf(),
    {
        self.upsert_action_mapping(key, true, ActionConfig::Command { command })
    }

    /// Removes what `key` is bound to with Shift.
    pub fn remove_mapping(&mut self, key: u16)
        ensures
            final(self)@ == with_table(old(self)@, remove_spec(old(self)@.table, key, true)),
            old(self).wf() ==> final(self).wf(),
    {
        self.remove_action_mapping(key, true);
    }

    /// The shell commands that the table binds with Shift, by key.
    pub fn get_mappings(&self) -> (shell: HashMap<u16, String>)
        ensures
            string_map_view(shell@) == shell_commands(self@.table),
    {
        shell_mappings(self.mappings.as_slice())
    }

    /// Binds `key` without Shift to an input source.
    pub fn add_input_source_mapping(&mut self, key: u16, input_source_id: String) -> (done: Result<
        (),
        ActionError,
    >)
        ensures
            done == validation(
                ActionConfigView::InputSource { input_source_id: input_source_id@ },
            ),
            done is Err ==> final(self)@ == old(self)@,
            done is Ok ==> final(self)@ == with_table(
                old(self)@,
                table_after_upsert(
                    old(self)@.table,
                    key,
                    false,
                    ActionConfigView::InputSource { input_source_id: input_source_id@ },
                ),
            ),
            done is Ok ==> final(self).wf(),
    {
        self.upsert_action_mapping(key, false, ActionConfig::InputSource { input_source_id })
    }

    /// Removes what `key` is bound to without Shift, provided the table
    /// binds the key without Shift to an input source; else nothing.
    pub fn remove_input_source_mapping(&mut self, key: u16)
        ensures
            final(self)@ == with_table(
                old(self)@,
                if has_match(old(self)@.table, input_source_of(key)) {
                    remove_spec(old(self)@.table, key, false)
                } else {
                    old(self)@.table
                },
            ),
            old(self).wf() ==> final(self).wf(),
    {
        if has_input_source_binding(&self.mappings, key) {
            self.remove_action_mapping(key, false);
        }
    }

    /// The input sources that the table binds without Shift, by key.
    pub fn get_input_source_mappings(&self) -> (sources: HashMap<u16, String>)
        ensures
            string_map_view(sources@) == input_sources(self@.table),
    {
        input_source_mappings(self.mappings.as_slice())
    }
}

} // verus!
