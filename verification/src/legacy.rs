//! The two single-purpose mappings, key to shell command and key to input
//! source, that installations may still keep in JSON files of their own:
//! derived from the table, parsed from those files, and merged into the table
//! on load.

use crate::action::{
    ActionConfig, ActionConfigView, ActionMappingEntry, ActionMappingEntryView,
};
use crate::platform::Platform;
use crate::table::{
    default_action_mappings_for, default_table_for, normalize_action_mappings, normalize_spec,
    table_view, unique_pairs, upsert_action_mapping_in_vec, upsert_changes, upsert_spec,
};
use std::collections::HashMap;
use vstd::prelude::*;

verus! {

broadcast use vstd::std_specs::hash::group_hash_axioms;

/// The mathematical value of a map from keys to strings.
pub open spec fn string_map_view(map: Map<u16, String>) -> Map<u16, Seq<char>> {
    Map::new(|key: u16| map.contains_key(key), |key: u16| map[key]@)
}

/// The shell commands of a table by key: the commands bound with Shift.
/// Where a key has several, the last one counts.
pub open spec fn shell_commands(table: Seq<ActionMappingEntryView>) -> Map<u16, Seq<char>>
    decreases table.len(),
{
    if table.len() == 0 {
        Map::empty()
    } else {
        let earlier = shell_commands(table.drop_last());
        match table.last().action {
            ActionConfigView::Command { command } => if table.last().with_shift {
                earlier.insert(table.last().key, command)
            } else {
                earlier
            },
            _ => earlier,
        }
    }
}

/// The input sources of a table by key: the input sources bound without
/// Shift. Where a key has several, the last one counts.
pub open spec fn input_sources(table: Seq<ActionMappingEntryView>) -> Map<u16, Seq<char>>
    decreases table.len(),
{
    if table.len() == 0 {
        Map::empty()
    } else {
        let earlier = input_sources(table.drop_last());
        match table.last().action {
            ActionConfigView::InputSource { input_source_id } => if !table.last().with_shift {
                earlier.insert(table.last().key, input_source_id)
            } else {
                earlier
            },
            _ => earlier,
        }
    }
}

/// Collects the shell commands that the table binds with Shift, by key.
pub fn shell_mappings(mappings: &[ActionMappingEntry]) -> (shell: HashMap<u16, String>)
    ensures
        string_map_view(shell@) == shell_commands(table_view(mappings@)),
{
    let ghost table = table_view(mappings@);
    let mut shell: HashMap<u16, String> = HashMap::new();
    assert(string_map_view(shell@) =~= shell_commands(table.take(0)));
    let mut i: usize = 0;
    while i < mappings.len()
        invariant
            i <= mappings.len(),
            table == table_view(mappings@),
            string_map_view(shell@) == shell_commands(table.take(i as int)),
        decreases mappings.len() - i,
    {
        let ghost sofar = string_map_view(shell@);
        proof {
            let longer = table.take(i as int + 1);
            assert(longer.drop_last() =~= table.take(i as int));
            assert(longer.last() == mappings@[i as int]@);
        }
        let entry = &mappings[i];
        match &entry.action {
            ActionConfig::Command { command } => {
                if entry.with_shift {
                    shell.insert(entry.key, command.clone());
                    assert(string_map_view(shell@) =~= sofar.insert(entry.key, command@));
                }
            },
            _ => {},
        }
        i += 1;
    }
    proof {
        assert(table.take(i as int) =~= table);
    }
    shell
}

/// Collects the input sources that the table binds without Shift, by key.
pub fn input_source_mappings(mappings: &[ActionMappingEntry]) -> (sources: HashMap<
    u16,
    String,
>)
    ensures
        string_map_view(sources@) == input_sources(table_view(mappings@)),
{
    let ghost table = table_view(mappings@);
    let mut sources: HashMap<u16, String> = HashMap::new();
    assert(string_map_view(sources@) =~= input_sources(table.take(0)));
    let mut i: usize = 0;
    while i < mappings.len()
        invariant
            i <= mappings.len(),
            table == table_view(mappings@),
            string_map_view(sources@) == input_sources(table.take(i as int)),
        decreases mappings.len() - i,
    {
        let ghost sofar = string_map_view(sources@);
        proof {
            let longer = table.take(i as int + 1);
            assert(longer.drop_last() =~= table.take(i as int));
            assert(longer.last() == mappings@[i as int]@);
        }
        let entry = &mappings[i];
        match &entry.action {
            ActionConfig::InputSource { input_source_id } => {
                if !entry.with_shift {
                    sources.insert(entry.key, input_source_id.clone());
                    assert(string_map_view(sources@) =~= sofar.insert(
                        entry.key,
                        input_source_id@,
                    ));
                }
            },
            _ => {},
        }
        i += 1;
    }
    proof {
        assert(table.take(i as int) =~= table);
    }
    sources
}

/// The two single-purpose mappings that a table stands for.
#[derive(Debug)]
pub struct LegacyCaches {
    pub shell: HashMap<u16, String>,
    pub input_sources: HashMap<u16, String>,
}

/// Derives both single-purpose mappings from the table.
pub fn sync_legacy_mappings_cache_from_actions(mappings: &[ActionMappingEntry]) -> (caches:
    LegacyCaches)
    ensures
        string_map_view(caches.shell@) == shell_commands(table_view(mappings@)),
        string_map_view(caches.input_sources@) == input_sources(table_view(mappings@)),
{
    LegacyCaches { shell: shell_mappings(mappings), input_sources: input_source_mappings(mappings) }
}

/// The error of the JSON parser.
#[verifier::external_type_specification]
#[verifier::external_body]
pub struct ExJsonError(serde_json::Error);

/// The map from key to text that the JSON parser reads out of a document, or
/// none where the parser rejects the document.
pub uninterp spec fn legacy_json_mappings(content: Seq<char>) -> Option<Map<u16, Seq<char>>>;

/// Calls `serde_json::from_str` for a map from `u16` to `String`. The result
/// depends on the text alone: either the map that the document holds, or the
/// parser's error.
#[verifier::external_body]
fn parse_legacy_json(content: &str) -> (parsed: Result<HashMap<u16, String>, serde_json::Error>)
    ensures
        parsed matches Ok(map) ==> legacy_json_mappings(content@) == Some(
            string_map_view(map@),
        ),
        parsed is Err ==> legacy_json_mappings(content@) is None,
{
    serde_json::from_str::<HashMap<u16, String>>(content)
}

/// The mapping of a single-purpose file: what the parser reads out of its
/// content, and nothing where the file is missing or the parser rejects it.
pub open spec fn legacy_mappings_of(content: Option<Seq<char>>) -> Map<u16, Seq<char>> {
    match content {
        Some(text) => match legacy_json_mappings(text) {
            Some(map) => map,
            None => Map::empty(),
        },
        None => Map::empty(),
    }
}

/// The text of an optional string slice.
pub open spec fn content_view(content: Option<&str>) -> Option<Seq<char>> {
    match content {
        Some(text) => Some(text@),
        None => None,
    }
}

/// Reads a single-purpose mapping out of the content of its file; `None`
/// stands for a file that could not be read.
pub fn read_legacy_mappings(content: Option<&str>) -> (mappings: HashMap<u16, String>)
    ensures
        string_map_view(mappings@) == legacy_mappings_of(content_view(content)),
{
    match content {
        Some(text) => match parse_legacy_json(text) {
            Ok(map) => map,
            Err(_) => {
                let empty: HashMap<u16, String> = HashMap::new();
                assert(string_map_view(empty@) =~= Map::empty());
                empty
            },
        },
        None => {
            let empty: HashMap<u16, String> = HashMap::new();
            assert(string_map_view(empty@) =~= Map::empty());
            empty
        },
    }
}

/// Which single-purpose mapping a pair comes from.
#[derive(Clone, Copy, Debug, PartialEq, Eq, Structural)]
pub enum LegacyKind {
    /// Key to shell command, fired with Shift.
    ShellCommand,
    /// Key to input source, fired without Shift.
    InputSource,
}

/// The table entry that stands for one pair of a single-purpose mapping.
pub open spec fn legacy_binding(
    kind: LegacyKind,
    key: u16,
    text: Seq<char>,
) -> ActionMappingEntryView {
    match kind {
        LegacyKind::ShellCommand => ActionMappingEntryView {
            key,
            with_shift: true,
            action: ActionConfigView::Command { command: text },
        },
        LegacyKind::InputSource => ActionMappingEntryView {
            key,
            with_shift: false,
            action: ActionConfigView::InputSource { input_source_id: text },
        },
    }
}

/// The mathematical value of a list of pairs.
pub open spec fn pairs_view(pairs: Seq<(u16, String)>) -> Seq<(u16, Seq<char>)> {
    pairs.map_values(|pair: (u16, String)| (pair.0, pair.1@))
}

/// The table after the pairs were upserted into it, one by one, in order.
pub open spec fn merged(
    table: Seq<ActionMappingEntryView>,
    kind: LegacyKind,
    pairs: Seq<(u16, Seq<char>)>,
) -> Seq<ActionMappingEntryView>
    decreases pairs.len(),
{
    if pairs.len() == 0 {
        table
    } else {
        upsert_spec(
            merged(table, kind, pairs.drop_last()),
            legacy_binding(kind, pairs.last().0, pairs.last().1),
        )
    }
}

/// Whether upserting the pairs, one by one, changes the table at any step.
pub open spec fn merge_changes(
    table: Seq<ActionMappingEntryView>,
    kind: LegacyKind,
    pairs: Seq<(u16, Seq<char>)>,
) -> bool
    decreases pairs.len(),
{
    if pairs.len() == 0 {
        false
    } else {
        merge_changes(table, kind, pairs.drop_last()) || upsert_changes(
            merged(table, kind, pairs.drop_last()),
            legacy_binding(kind, pairs.last().0, pairs.last().1),
        )
    }
}

/// Upserts the pairs of a single-purpose mapping into the table, in the
/// order given. Returns whether the table changed at any step.
pub fn merge_legacy_pairs(
    mappings: &mut Vec<ActionMappingEntry>,
    kind: LegacyKind,
    pairs: &Vec<(u16, String)>,
) -> (changed: bool)
    ensures
        table_view(final(mappings)@) == merged(
            table_view(old(mappings)@),
            kind,
            pairs_view(pairs@),
        ),
        changed == merge_changes(table_view(old(mappings)@), kind, pairs_view(pairs@)),
{
    let ghost before = table_view(mappings@);
    let ghost all = pairs_view(pairs@);
    let mut changed = false;
    let mut i: usize = 0;
    while i < pairs.len()
        invariant
            i <= pairs.len(),
            all == pairs_view(pairs@),
            table_view(mappings@) == merged(before, kind, all.take(i as int)),
            changed == merge_changes(before, kind, all.take(i as int)),
        decreases pairs.len() - i,
    {
        proof {
            let longer = all.take(i as int + 1);
            assert(longer.drop_last() =~= all.take(i as int));
            assert(longer.last() == (pairs@[i as int].0, pairs@[i as int].1@));
        }
        let key = pairs[i].0;
        let text = pairs[i].1.clone();
        let entry = match kind {
            LegacyKind::ShellCommand => ActionMappingEntry {
                key,
                with_shift: true,
                action: ActionConfig::Command { command: text },
            },
            LegacyKind::InputSource => ActionMappingEntry {
                key,
                with_shift: false,
                action: ActionConfig::InputSource { input_source_id: text },
            },
        };
        let step = upsert_action_mapping_in_vec(mappings, entry);
        changed = changed || step;
        i += 1;
    }
    proof {
        assert(all.take(i as int) =~= all);
    }
    changed
}

/// Whether `pairs` lists the map: every pair is in the map, no key comes
/// twice, and every key of the map comes.
pub open spec fn lists_map(pairs: Seq<(u16, Seq<char>)>, map: Map<u16, Seq<char>>) -> bool {
    &&& forall|i: int|
        0 <= i < pairs.len() ==> map.contains_key((#[trigger] pairs[i]).0) && map[pairs[i].0]
            == pairs[i].1
    &&& forall|i: int, j: int|
        0 <= i < j < pairs.len() ==> (#[trigger] pairs[i]).0 != (#[trigger] pairs[j]).0
    &&& forall|key: u16|
        map.contains_key(key) ==> exists|i: int|
            0 <= i < pairs.len() && (#[trigger] pairs[i]).0 == key
}

/// The pairs of the map whose key lies under `below`, by rising key.
pub open spec fn ascending_pairs(map: Map<u16, Seq<char>>, below: nat) -> Seq<(u16, Seq<char>)>
    decreases below,
{
    if below == 0 {
        Seq::empty()
    } else {
        let key = (below - 1) as u16;
        let earlier = ascending_pairs(map, (below - 1) as nat);
        if map.contains_key(key) {
            earlier.push((key, map[key]))
        } else {
            earlier
        }
    }
}

/// All pairs of the map, by rising key.
pub open spec fn all_pairs(map: Map<u16, Seq<char>>) -> Seq<(u16, Seq<char>)> {
    ascending_pairs(map, 65536)
}

/// The pairs under a bound are pairs of the map, each key once and by rising
/// key, and every key of the map under the bound comes.
proof fn lemma_ascending_pairs(map: Map<u16, Seq<char>>, below: nat)
    requires
        below <= 65536,
    ensures
        forall|i: int|
            0 <= i < ascending_pairs(map, below).len() ==> {
                let pair = #[trigger] ascending_pairs(map, below)[i];
                pair.0 < below && map.contains_key(pair.0) && map[pair.0] == pair.1
            },
        forall|i: int, j: int|
            0 <= i < j < ascending_pairs(map, below).len() ==> (#[trigger] ascending_pairs(
                map,
                below,
            )[i]).0 < (#[trigger] ascending_pairs(map, below)[j]).0,
        forall|key: u16|
            key < below && map.contains_key(key) ==> exists|i: int|
                0 <= i < ascending_pairs(map, below).len() && (#[trigger] ascending_pairs(
                    map,
                    below,
                )[i]).0 == key,
    decreases below,
{
    if below > 0 {
        let earlier = ascending_pairs(map, (below - 1) as nat);
        let now = ascending_pairs(map, below);
        let last = (below - 1) as u16;
        lemma_ascending_pairs(map, (below - 1) as nat);
        assert forall|key: u16| key < below && map.contains_key(key) implies exists|i: int|
            0 <= i < now.len() && (#[trigger] now[i]).0 == key by {
            if key == last {
                assert(now[now.len() - 1].0 == key);
            } else {
                let i = choose|i: int| 0 <= i < earlier.len() && (#[trigger] earlier[i]).0 == key;
                assert(now[i].0 == key);
            }
        }
    }
}

/// Listing the pairs by rising key lists the map: every pair of the map
/// comes exactly once.
pub proof fn law_all_pairs_list_the_map(map: Map<u16, Seq<char>>)
    ensures
        lists_map(all_pairs(map), map),
{
    lemma_ascending_pairs(map, 65536);
}

/// Lists the pairs of a map by rising key.
pub fn legacy_pairs(map: &HashMap<u16, String>) -> (pairs: Vec<(u16, String)>)
    ensures
        pairs_view(pairs@) == all_pairs(string_map_view(map@)),
{
    let ghost target = string_map_view(map@);
    let mut pairs: Vec<(u16, String)> = Vec::new();
    assert(pairs_view(pairs@) =~= ascending_pairs(target, 0));
    let mut next: u32 = 0;
    while next < 65536
        invariant
            next <= 65536,
            target == string_map_view(map@),
            pairs_view(pairs@) == ascending_pairs(target, next as nat),
        decreases 65536 - next,
    {
        let key = next as u16;
        let ghost sofar = pairs_view(pairs@);
        match map.get(&key) {
            Some(text) => {
                pairs.push((key, text.clone()));
                assert(pairs_view(pairs@) =~= sofar.push((key, text@)));
            },
            None => {},
        }
        next += 1;
    }
    pairs
}

/// The mathematical value of a table that may be missing.
pub open spec fn optional_table_view(table: Option<Vec<ActionMappingEntry>>) -> Option<
    Seq<ActionMappingEntryView>,
> {
    match table {
        Some(entries) => Some(table_view(entries@)),
        None => None,
    }
}

/// The table that loading starts from: the table of the current file where
/// there is one, else that of the older file, and the defaults of the
/// platform where neither exists or the one found is empty.
pub open spec fn loaded_base(
    current: Option<Seq<ActionMappingEntryView>>,
    older: Option<Seq<ActionMappingEntryView>>,
    platform: Platform,
) -> Seq<ActionMappingEntryView> {
    let found = match current {
        Some(table) => table,
        None => match older {
            Some(table) => table,
            None => Seq::empty(),
        },
    };
    if found.len() == 0 {
        default_table_for(platform)
    } else {
        found
    }
}

/// Whether the starting table differs from what the current file holds, so
/// that the file has to be written: it does unless the current file exists
/// and is not empty.
pub open spec fn base_needs_saving(current: Option<Seq<ActionMappingEntryView>>) -> bool {
    match current {
        Some(table) => table.len() == 0,
        None => true,
    }
}

/// The table that loading ends with: the starting table, then the shell
/// commands by rising key, then on macOS the input sources by rising key,
/// and duplicates folded away.
pub open spec fn assembled(
    current: Option<Seq<ActionMappingEntryView>>,
    older: Option<Seq<ActionMappingEntryView>>,
    platform: Platform,
    shell: Map<u16, Seq<char>>,
    sources: Map<u16, Seq<char>>,
) -> Seq<ActionMappingEntryView> {
    let base = loaded_base(current, older, platform);
    let with_shell = merged(base, LegacyKind::ShellCommand, all_pairs(shell));
    normalize_spec(
        match platform {
            Platform::MacOs => merged(with_shell, LegacyKind::InputSource, all_pairs(sources)),
            Platform::Windows => with_shell,
        },
    )
}

/// Whether loading changed anything that has to be written back.
pub open spec fn assembly_changes(
    current: Option<Seq<ActionMappingEntryView>>,
    older: Option<Seq<ActionMappingEntryView>>,
    platform: Platform,
    shell: Map<u16, Seq<char>>,
    sources: Map<u16, Seq<char>>,
) -> bool {
    let base = loaded_base(current, older, platform);
    let with_shell = merged(base, LegacyKind::ShellCommand, all_pairs(shell));
    ||| base_needs_saving(current)
    ||| merge_changes(base, LegacyKind::ShellCommand, all_pairs(shell))
    ||| platform == Platform::MacOs && merge_changes(
        with_shell,
        LegacyKind::InputSource,
        all_pairs(sources),
    )
}

/// What loading ends with.
#[derive(Debug)]
pub struct LoadedMappings {
    /// The table to run with.
    pub mappings: Vec<ActionMappingEntry>,
    /// Whether the table has to be written back to its file.
    pub changed: bool,
}

/// Puts the table together from what was found on disk.
///
/// `current` is the table of the current file and `older` that of the file
/// in the JSON format, each `None` where the file could not be read and
/// empty where it could not be parsed. The two maps are the single-purpose
/// mappings; the input sources count on macOS only. Pairs that are new to
/// the table are appended by rising key.
pub fn assemble_action_mappings(
    current: Option<Vec<ActionMappingEntry>>,
    older: Option<Vec<ActionMappingEntry>>,
    legacy_shell: &HashMap<u16, String>,
    legacy_input_sources: &HashMap<u16, String>,
    platform: Platform,
) -> (loaded: LoadedMappings)
    ensures
        table_view(loaded.mappings@) == assembled(
            optional_table_view(current),
            optional_table_view(older),
            platform,
            string_map_view(legacy_shell@),
            string_map_view(legacy_input_sources@),
        ),
        loaded.changed == assembly_changes(
            optional_table_view(current),
            optional_table_view(older),
            platform,
            string_map_view(legacy_shell@),
            string_map_view(legacy_input_sources@),
        ),
        unique_pairs(table_view(loaded.mappings@)),
{
    let ghost current_view = optional_table_view(current);
    let ghost older_view = optional_table_view(older);
    let mut changed = false;
    let mut mappings = match current {
        Some(table) => table,
        None => match older {
            Some(table) => {
                changed = true;
                table
            },
            None => Vec::new(),
        },
    };
    if mappings.len() == 0 {
        mappings = default_action_mappings_for(platform);
        changed = true;
    }
    assert(table_view(mappings@) == loaded_base(current_view, older_view, platform));
    assert(changed == base_needs_saving(current_view));
    let shell_pairs = legacy_pairs(legacy_shell);
    let shell_changed = merge_legacy_pairs(&mut mappings, LegacyKind::ShellCommand, &shell_pairs);
    let mut source_changed = false;
    match platform {
        Platform::MacOs => {
            let source_pairs = legacy_pairs(legacy_input_sources);
            source_changed =
            merge_legacy_pairs(&mut mappings, LegacyKind::InputSource, &source_pairs);
        },
        Platform::Windows => {},
    }
    normalize_action_mappings(&mut mappings);
    LoadedMappings { mappings, changed: changed || shell_changed || source_changed }
}

} // verus!
