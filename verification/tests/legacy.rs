use hypercapslock::{
    assemble_action_mappings, default_action_mappings_for, read_legacy_mappings,
    sync_legacy_mappings_cache_from_actions, ActionConfig, ActionMappingEntry,
    DirectionalActionKind, Platform,
};
use std::collections::HashMap;

fn directional(key: u16, with_shift: bool, action: DirectionalActionKind) -> ActionMappingEntry {
    ActionMappingEntry { key, with_shift, action: ActionConfig::Directional { action } }
}

fn command(key: u16, with_shift: bool, text: &str) -> ActionMappingEntry {
    ActionMappingEntry { key, with_shift, action: ActionConfig::Command { command: text.to_string() } }
}

fn input_source(key: u16, with_shift: bool, id: &str) -> ActionMappingEntry {
    ActionMappingEntry {
        key,
        with_shift,
        action: ActionConfig::InputSource { input_source_id: id.to_string() },
    }
}

fn map_of(pairs: &[(u16, &str)]) -> HashMap<u16, String> {
    pairs.iter().map(|(k, v)| (*k, v.to_string())).collect()
}

#[test]
fn legacy_file_is_read_as_key_to_text() {
    let parsed = read_legacy_mappings(Some("{\"77\": \"open -a Calculator\", \"188\": \"x\"}"));
    assert_eq!(parsed, map_of(&[(77, "open -a Calculator"), (188, "x")]));
}

#[test]
fn legacy_file_that_is_missing_or_broken_reads_as_empty() {
    assert_eq!(read_legacy_mappings(None), HashMap::new());
    assert_eq!(read_legacy_mappings(Some("")), HashMap::new());
    assert_eq!(read_legacy_mappings(Some("not json")), HashMap::new());
    assert_eq!(read_legacy_mappings(Some("{\"seventy\": \"x\"}")), HashMap::new());
    assert_eq!(read_legacy_mappings(Some("{\"70000\": \"x\"}")), HashMap::new());
    assert_eq!(read_legacy_mappings(Some("{\"77\": 5}")), HashMap::new());
    assert_eq!(read_legacy_mappings(Some("{}")), HashMap::new());
}

#[test]
fn caches_hold_shifted_commands_and_unshifted_input_sources() {
    let table = vec![
        command(77, true, "first"),
        command(78, false, "unshifted command"),
        input_source(188, false, "abc"),
        input_source(190, true, "shifted source"),
        directional(72, false, DirectionalActionKind::Left),
        command(77, true, "last wins"),
    ];
    let caches = sync_legacy_mappings_cache_from_actions(&table);
    assert_eq!(caches.shell, map_of(&[(77, "last wins")]));
    assert_eq!(caches.input_sources, map_of(&[(188, "abc")]));
}

#[test]
fn caches_of_defaults() {
    let mac = sync_legacy_mappings_cache_from_actions(&default_action_mappings_for(Platform::MacOs));
    assert_eq!(mac.shell, HashMap::new());
    assert_eq!(
        mac.input_sources,
        map_of(&[
            (188, "com.apple.keylayout.ABC"),
            (190, "com.tencent.inputmethod.wetype.pinyin"),
        ])
    );
}

#[test]
fn nothing_on_disk_gives_defaults_to_be_saved() {
    for platform in [Platform::MacOs, Platform::Windows] {
        let loaded =
            assemble_action_mappings(None, None, &HashMap::new(), &HashMap::new(), platform);
        assert_eq!(loaded.mappings, default_action_mappings_for(platform));
        assert!(loaded.changed);
    }
}

#[test]
fn current_file_is_kept_and_not_saved_again() {
    let table = vec![directional(72, false, DirectionalActionKind::Up)];
    let loaded = assemble_action_mappings(
        Some(table.clone()),
        Some(vec![command(1, true, "ignored")]),
        &HashMap::new(),
        &HashMap::new(),
        Platform::MacOs,
    );
    assert_eq!(loaded.mappings, table);
    assert!(!loaded.changed);
}

#[test]
fn empty_current_file_gives_defaults() {
    let loaded = assemble_action_mappings(
        Some(Vec::new()),
        Some(vec![command(1, true, "ignored")]),
        &HashMap::new(),
        &HashMap::new(),
        Platform::Windows,
    );
    assert_eq!(loaded.mappings, default_action_mappings_for(Platform::Windows));
    assert!(loaded.changed);
}

#[test]
fn older_file_is_taken_over_and_saved() {
    let table = vec![directional(72, false, DirectionalActionKind::Up)];
    let loaded = assemble_action_mappings(
        None,
        Some(table.clone()),
        &HashMap::new(),
        &HashMap::new(),
        Platform::MacOs,
    );
    assert_eq!(loaded.mappings, table);
    assert!(loaded.changed);
}

#[test]
fn legacy_shell_commands_are_merged_with_shift() {
    let table = vec![
        directional(72, false, DirectionalActionKind::Up),
        command(77, true, "old"),
    ];
    let loaded = assemble_action_mappings(
        Some(table),
        None,
        &map_of(&[(77, "new"), (80, "added")]),
        &HashMap::new(),
        Platform::Windows,
    );
    assert_eq!(
        loaded.mappings,
        vec![
            directional(72, false, DirectionalActionKind::Up),
            command(77, true, "new"),
            command(80, true, "added"),
        ]
    );
    assert!(loaded.changed);
}

#[test]
fn legacy_pairs_that_change_nothing_do_not_ask_for_a_save() {
    let table = vec![command(77, true, "same"), input_source(188, false, "abc")];
    let loaded = assemble_action_mappings(
        Some(table.clone()),
        None,
        &map_of(&[(77, "same")]),
        &map_of(&[(188, "abc")]),
        Platform::MacOs,
    );
    assert_eq!(loaded.mappings, table);
    assert!(!loaded.changed);
}

#[test]
fn legacy_input_sources_count_on_macos_only() {
    let table = vec![directional(72, false, DirectionalActionKind::Up)];
    let sources = map_of(&[(188, "abc")]);
    let mac = assemble_action_mappings(
        Some(table.clone()),
        None,
        &HashMap::new(),
        &sources,
        Platform::MacOs,
    );
    assert_eq!(
        mac.mappings,
        vec![directional(72, false, DirectionalActionKind::Up), input_source(188, false, "abc")]
    );
    assert!(mac.changed);
    let windows = assemble_action_mappings(
        Some(table.clone()),
        None,
        &HashMap::new(),
        &sources,
        Platform::Windows,
    );
    assert_eq!(windows.mappings, table);
    assert!(!windows.changed);
}

#[test]
fn loading_folds_duplicates_last_value_wins() {
    let table = vec![
        command(77, true, "first"),
        directional(72, false, DirectionalActionKind::Up),
        command(77, true, "second"),
    ];
    let loaded = assemble_action_mappings(
        Some(table),
        None,
        &HashMap::new(),
        &HashMap::new(),
        Platform::MacOs,
    );
    assert_eq!(
        loaded.mappings,
        vec![command(77, true, "second"), directional(72, false, DirectionalActionKind::Up)]
    );
}

#[test]
fn new_legacy_pairs_are_appended_by_rising_key() {
    let shell: HashMap<u16, String> =
        (100u16..140).rev().map(|k| (k * 7 % 41 + 100, format!("cmd{}", k * 7 % 41 + 100))).collect();
    let mut keys: Vec<u16> = shell.keys().copied().collect();
    keys.sort();
    let loaded = assemble_action_mappings(
        Some(vec![directional(72, false, DirectionalActionKind::Up)]),
        None,
        &shell,
        &map_of(&[(9, "late"), (3, "early"), (65535, "last"), (0, "first")]),
        Platform::MacOs,
    );
    let mut expected = vec![directional(72, false, DirectionalActionKind::Up)];
    for key in keys {
        expected.push(command(key, true, &format!("cmd{}", key)));
    }
    expected.push(input_source(0, false, "first"));
    expected.push(input_source(3, false, "early"));
    expected.push(input_source(9, false, "late"));
    expected.push(input_source(65535, false, "last"));
    assert_eq!(loaded.mappings, expected);
    assert!(loaded.changed);
}

#[test]
fn legacy_pair_replaces_the_first_duplicate_and_the_last_duplicate_wins() {
    let table = vec![command(77, true, "a"), command(77, true, "b")];
    let loaded = assemble_action_mappings(
        Some(table),
        None,
        &map_of(&[(77, "x")]),
        &HashMap::new(),
        Platform::Windows,
    );
    assert_eq!(loaded.mappings, vec![command(77, true, "b")]);
    assert!(loaded.changed);
}
